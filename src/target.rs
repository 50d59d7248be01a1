//! Surfaces, the targets built on them, and the frames acquired from those
//! targets.
//!
//! Handles that only the backend can interpret (the native surface, the
//! swapchain, swapchain images, a framebuffer) are carried as type
//! parameters: this module decides what happens to them, the caller hands
//! them to the device.
use vstd::prelude::*;
use crate::negotiate::{
    negotiate, negotiated_config, negotiation_error, Compatibility, Extent2D, PresentMode,
    is_best_format_index, traits_of, all_known_formats, known_formats, select_format,
    well_formed_request, SwapchainConfig, SwapchainError,
};

verus! {

#[verifier::external_type_specification]
#[verifier::external_body]
pub struct ExRelevant(relevant::Relevant);

/// Relies on relevant::Relevant::dispose: consumes the marker so that its
/// drop-time complaint never fires.
pub assume_specification[ relevant::Relevant::dispose ](r: relevant::Relevant);

/// Relies on relevant::Relevant, a unit value that complains when dropped
/// without having been disposed.
#[verifier::external_body]
fn new_marker() -> (r: relevant::Relevant) {
    relevant::Relevant
}

/// Identifier of a graphics instance.
#[derive(Clone, Copy, Debug, PartialEq, Eq, Structural)]
pub struct InstanceId {
    pub id: u64,
}

/// Identifier of a device, with the instance it was created from.
#[derive(Clone, Copy, Debug, PartialEq, Eq, Structural)]
pub struct DeviceId {
    pub id: u64,
    pub instance: InstanceId,
}

/// Rendering target bound to a window: a native surface handle and the
/// instance that created it.
#[derive(Debug)]
pub struct Surface<S> {
    raw: S,
    instance: InstanceId,
}

/// Images of a target's swapchain, or the single framebuffer that stands
/// for them on backends without discrete images.
#[derive(Debug)]
pub enum Backbuffer<I, F> {
    /// One image per swapchain slot, in slot order.
    Images(Vec<I>),
    /// A framebuffer owned by the backend, usable with any render pass.
    Framebuffer {
        raw: F,
        format: gfx_hal::format::Format,
        extent: Extent2D,
    },
}

/// Why no image could be acquired.
#[derive(Clone, Copy, Debug, PartialEq, Eq, Structural)]
pub enum AcquireError {
    /// No image was ready in time.
    NotReady,
    /// The swapchain no longer matches the surface, or there is none: it has
    /// to be recreated.
    OutOfDate,
    /// The surface was lost.
    SurfaceLost,
}

/// A surface with a swapchain created for it.
///
/// The swapchain and the backbuffer are present together, or absent
/// together after a failed recreation.
#[derive(Debug)]
pub struct Target<S, Sw, I, F> {
    device: DeviceId,
    surface: Surface<S>,
    swapchain: Option<Sw>,
    backbuffer: Option<Backbuffer<I, F>>,
    present_mode: PresentMode,
    usage: u32,
    relevant: relevant::Relevant,
}

/// What a target gives back when it lets go of a swapchain: the swapchain
/// and the images that the owning device has to destroy and release.
#[derive(Debug)]
pub struct Retired<Sw, I> {
    pub swapchain: Option<Sw>,
    pub images: Vec<I>,
}

/// Frames acquired for presentation: each entry a target and the index of
/// the image acquired from its swapchain.
#[derive(Debug)]
pub struct NextImages<'a, S, Sw, I, F> {
    targets: Vec<(&'a Target<S, Sw, I, F>, u32)>,
}

/// The images a backbuffer holds: its images, or none for a framebuffer.
pub open spec fn backbuffer_images<I, F>(b: Option<Backbuffer<I, F>>) -> Seq<I> {
    match b {
        Some(Backbuffer::Images(images)) => images@,
        _ => Seq::empty(),
    }
}

impl<S> Surface<S> {
    pub closed spec fn raw_spec(&self) -> S {
        self.raw
    }

    pub closed spec fn instance_spec(&self) -> InstanceId {
        self.instance
    }

    /// Wrap a native surface created from the instance `instance`.
    pub fn create(instance: InstanceId, raw: S) -> (r: Surface<S>)
        ensures
            r.raw_spec() == raw,
            r.instance_spec() == instance,
    {
        Surface { raw, instance }
    }

    /// The native surface handle.
    pub fn raw(&self) -> (r: &S)
        ensures
            *r == self.raw_spec(),
    {
        &self.raw
    }

    /// The native surface handle, to act on it.
    pub fn raw_mut(&mut self) -> (r: &mut S)
        ensures
            *r == old(self).raw_spec(),
            final(self).raw_spec() == *final(r),
            final(self).instance_spec() == old(self).instance_spec(),
    {
        &mut self.raw
    }

    /// The instance that created this surface.
    pub fn instance(&self) -> (r: InstanceId)
        ensures
            r == self.instance_spec(),
    {
        self.instance
    }

    /// The current extent of the surface, from its compatibility.
    pub fn extent(&self, c: &Compatibility) -> (r: Option<Extent2D>)
        ensures
            r == c.capabilities.current_extent,
    {
        c.capabilities.current_extent
    }

    /// The surface's preferred format, from its compatibility.
    /// `None` when the list holds a value that is none of gfx-hal's formats.
    pub fn format(&self, c: &Compatibility) -> (r: Option<gfx_hal::format::Format>)
        requires
            c.formats is Some,
            c.formats->0@.len() > 0,
        ensures
            r is None <==> !all_known_formats(c.formats->0@),
            r matches Some(f) ==> exists|i: int|
                is_best_format_index(traits_of(c.formats->0@), i) && f == c.formats->0@[i],
    {
        let formats = c.formats.as_ref().unwrap();
        if known_formats(formats) {
            Some(select_format(formats))
        } else {
            None
        }
    }

    /// Negotiate the configuration of a swapchain for this surface. The
    /// surface stays as it is, whatever the outcome.
    pub fn swapchain_config(
        &self,
        c: &Compatibility,
        extent: Extent2D,
        image_count: u32,
        present_mode: PresentMode,
        usage: u32,
    ) -> (r: Result<SwapchainConfig, SwapchainError>)
        requires
            well_formed_request(*c, usage),
        ensures
            negotiation_error(*c, image_count, present_mode, usage) matches Some(e) ==> r == Err::<
                SwapchainConfig,
                SwapchainError,
            >(e),
            negotiation_error(*c, image_count, present_mode, usage) is None ==> (r matches Ok(
                config,
            ) && negotiated_config(*c, config, extent, image_count, present_mode, usage)),
    {
        negotiate(c, extent, image_count, present_mode, usage)
    }

    /// Turn this surface into a target owned by `device`, for a swapchain
    /// of the requested extent, image count, present mode and usage.
    ///
    /// Negotiation runs first. When it fails the surface comes back,
    /// untouched, with the error, and nothing is to be created. When it
    /// succeeds the target comes with the configuration to create its
    /// swapchain with; it has no swapchain until `install` puts one in.
    pub fn into_target<Sw, I, F>(
        self,
        device: DeviceId,
        c: &Compatibility,
        extent: Extent2D,
        image_count: u32,
        present_mode: PresentMode,
        usage: u32,
    ) -> (r: Result<(Target<S, Sw, I, F>, SwapchainConfig), (Surface<S>, SwapchainError)>)
        requires
            device.instance == self.instance_spec(),
            well_formed_request(*c, usage),
        ensures
            negotiation_error(*c, image_count, present_mode, usage) matches Some(e) ==> (r matches Err(
                failed,
            ) && failed.0 == self && failed.1 == e),
            negotiation_error(*c, image_count, present_mode, usage) is None ==> (r matches Ok(made) && {
                let (t, config) = made;
                &&& negotiated_config(*c, config, extent, image_count, present_mode, usage)
                &&& t.wf()
                &&& t.device_spec() == device
                &&& t.surface_spec() == self
                &&& t.swapchain_spec() is None
                &&& t.backbuffer_spec() is None
                &&& t.present_mode_spec() == present_mode
                &&& t.usage_spec() == usage
            }),
    {
        match negotiate(c, extent, image_count, present_mode, usage) {
            Err(e) => Err((self, e)),
            Ok(config) => {
                let target = Target {
                    device,
                    surface: self,
                    swapchain: None,
                    backbuffer: None,
                    present_mode,
                    usage,
                    relevant: new_marker(),
                };
                Ok((target, config))
            },
        }
    }
}

impl<S, Sw, I, F> Target<S, Sw, I, F> {
    pub closed spec fn device_spec(&self) -> DeviceId {
        self.device
    }

    pub closed spec fn surface_spec(&self) -> Surface<S> {
        self.surface
    }

    pub closed spec fn swapchain_spec(&self) -> Option<Sw> {
        self.swapchain
    }

    pub closed spec fn backbuffer_spec(&self) -> Option<Backbuffer<I, F>> {
        self.backbuffer
    }

    pub closed spec fn present_mode_spec(&self) -> PresentMode {
        self.present_mode
    }

    pub closed spec fn usage_spec(&self) -> u32 {
        self.usage
    }

    /// The swapchain and the backbuffer are present together, and the
    /// device belongs to the surface's instance.
    pub open spec fn wf(&self) -> bool {
        &&& (self.swapchain_spec() is Some <==> self.backbuffer_spec() is Some)
        &&& self.device_spec().instance == self.surface_spec().instance_spec()
    }

    /// The device that owns this target.
    pub fn device(&self) -> (r: DeviceId)
        ensures
            r == self.device_spec(),
    {
        self.device
    }

    /// Dispose of the target: give back its surface, and the swapchain and
    /// swapchain images that `device` has to destroy and release.
    pub fn dispose(self, device: DeviceId) -> (r: (Surface<S>, Retired<Sw, I>))
        requires
            device == self.device_spec(),
        ensures
            r.0 == self.surface_spec(),
            r.1.swapchain == self.swapchain_spec(),
            r.1.images@ == backbuffer_images(self.backbuffer_spec()),
    {
        let Target { device: _, surface, swapchain, backbuffer, present_mode: _, usage: _, relevant } =
            self;
        let images = match backbuffer {
            Some(Backbuffer::Images(images)) => images,
            _ => Vec::new(),
        };
        relevant.dispose();
        (surface, Retired { swapchain, images })
    }

    /// The surface this target was built on.
    pub fn surface(&self) -> (r: &Surface<S>)
        ensures
            *r == self.surface_spec(),
    {
        &self.surface
    }

    /// The native handle of the surface this target was built on, to act
    /// on it.
    pub fn surface_raw_mut(&mut self) -> (r: &mut S)
        ensures
            *r == old(self).surface_spec().raw_spec(),
            final(self).surface_spec().raw_spec() == *final(r),
            final(self).surface_spec().instance_spec() == old(self).surface_spec().instance_spec(),
            final(self).device_spec() == old(self).device_spec(),
            final(self).swapchain_spec() == old(self).swapchain_spec(),
            final(self).backbuffer_spec() == old(self).backbuffer_spec(),
            final(self).present_mode_spec() == old(self).present_mode_spec(),
            final(self).usage_spec() == old(self).usage_spec(),
            old(self).wf() ==> final(self).wf(),
    {
        self.surface.raw_mut()
    }

    /// The live swapchain.
    pub fn swapchain(&self) -> (r: &Sw)
        requires
            self.swapchain_spec() is Some,
        ensures
            Some(*r) == self.swapchain_spec(),
    {
        self.swapchain.as_ref().unwrap()
    }

    /// The live backbuffer.
    pub fn backbuffer(&self) -> (r: &Backbuffer<I, F>)
        requires
            self.backbuffer_spec() is Some,
        ensures
            Some(*r) == self.backbuffer_spec(),
    {
        self.backbuffer.as_ref().unwrap()
    }

    /// The present mode the swapchain is created with.
    pub fn present_mode(&self) -> (r: PresentMode)
        ensures
            r == self.present_mode_spec(),
    {
        self.present_mode
    }

    /// The image usage the swapchain is created with.
    pub fn usage(&self) -> (r: u32)
        ensures
            r == self.usage_spec(),
    {
        self.usage
    }

    /// The live swapchain, to act on it.
    pub fn swapchain_mut(&mut self) -> (r: &mut Sw)
        requires
            old(self).swapchain_spec() is Some,
        ensures
            Some(*r) == old(self).swapchain_spec(),
            final(self).swapchain_spec() == Some(*final(r)),
            old(self).wf() ==> final(self).wf(),
            final(self).device_spec() == old(self).device_spec(),
            final(self).surface_spec() == old(self).surface_spec(),
            final(self).backbuffer_spec() == old(self).backbuffer_spec(),
            final(self).present_mode_spec() == old(self).present_mode_spec(),
            final(self).usage_spec() == old(self).usage_spec(),
    {
        self.swapchain.as_mut().unwrap()
    }

    /// Whether a swapchain is installed.
    pub fn has_swapchain(&self) -> (r: bool)
        ensures
            r == self.swapchain_spec() is Some,
    {
        self.swapchain.is_some()
    }

    /// Begin recreating the swapchain, on a new extent.
    ///
    /// The old swapchain and backbuffer leave the target and come back for
    /// `device` to destroy and release. Negotiation runs again with the
    /// target's present mode and usage, the new extent, and as many images as
    /// the old backbuffer had (none for a framebuffer). On success the
    /// caller creates a swapchain with the configuration and hands it to
    /// `install`; until then, or after an error, the target has none.
    pub fn recreate(&mut self, device: DeviceId, c: &Compatibility, extent: Extent2D) -> (r: (
        Retired<Sw, I>,
        Result<SwapchainConfig, SwapchainError>,
    ))
        requires
            device == old(self).device_spec(),
            well_formed_request(*c, old(self).usage_spec()),
        ensures
            final(self).device_spec() == old(self).device_spec(),
            final(self).surface_spec() == old(self).surface_spec(),
            final(self).present_mode_spec() == old(self).present_mode_spec(),
            final(self).usage_spec() == old(self).usage_spec(),
            final(self).swapchain_spec() is None,
            final(self).backbuffer_spec() is None,
            old(self).wf() ==> final(self).wf(),
            r.0.swapchain == old(self).swapchain_spec(),
            r.0.images@ == backbuffer_images(old(self).backbuffer_spec()),
            ({
                let count = recreate_image_count(old(self).backbuffer_spec());
                let mode = old(self).present_mode_spec();
                let usage = old(self).usage_spec();
                &&& negotiation_error(*c, count, mode, usage) matches Some(e) ==> r.1 == Err::<
                    SwapchainConfig,
                    SwapchainError,
                >(e)
                &&& negotiation_error(*c, count, mode, usage) is None ==> (r.1 matches Ok(config)
                    && negotiated_config(*c, config, extent, count, mode, usage))
            }),
    {
        let images = match self.backbuffer.take() {
            Some(Backbuffer::Images(images)) => images,
            _ => Vec::new(),
        };
        #[verifier::truncate]
        let image_count = images.len() as u32;
        let swapchain = self.swapchain.take();
        let config = negotiate(c, extent, image_count, self.present_mode, self.usage);
        (Retired { swapchain, images }, config)
    }

    /// Install a swapchain and its backbuffer in a target that has none.
    pub fn install(&mut self, swapchain: Sw, backbuffer: Backbuffer<I, F>)
        requires
            old(self).swapchain_spec() is None,
        ensures
            final(self).device_spec() == old(self).device_spec(),
            final(self).surface_spec() == old(self).surface_spec(),
            final(self).present_mode_spec() == old(self).present_mode_spec(),
            final(self).usage_spec() == old(self).usage_spec(),
            final(self).swapchain_spec() == Some(swapchain),
            final(self).backbuffer_spec() == Some(backbuffer),
            old(self).wf() ==> final(self).wf(),
    {
        self.swapchain = Some(swapchain);
        self.backbuffer = Some(backbuffer);
    }

    /// Frames to present after acquiring: `acquired` is what the live
    /// swapchain answered. Without a swapchain the target is out of date,
    /// whatever `acquired` says.
    pub fn next_image(&self, acquired: Result<u32, AcquireError>) -> (r: Result<
        NextImages<'_, S, Sw, I, F>,
        AcquireError,
    >)
        ensures
            self.swapchain_spec() is None ==> r == Err::<NextImages<'_, S, Sw, I, F>, AcquireError>(
                AcquireError::OutOfDate,
            ),
            self.swapchain_spec() is Some ==> match acquired {
                Ok(index) => r matches Ok(n) && n.entries() == seq![(self, index)],
                Err(e) => r == Err::<NextImages<'_, S, Sw, I, F>, AcquireError>(e),
            },
    {
        if self.swapchain.is_none() {
            return Err(AcquireError::OutOfDate);
        }
        match acquired {
            Ok(index) => {
                let mut targets = Vec::new();
                targets.push((self, index));
                proof {
                    assert(targets@ =~= seq![(self, index)]);
                }
                Ok(NextImages { targets })
            },
            Err(e) => Err(e),
        }
    }
}

/// The image count a recreation asks for: as many as the backbuffer held.
pub open spec fn recreate_image_count<I, F>(b: Option<Backbuffer<I, F>>) -> u32 {
    backbuffer_images(b).len() as u32
}

impl<'a, S, Sw, I, F> NextImages<'a, S, Sw, I, F> {
    /// The acquired frames, in order.
    pub closed spec fn entries(&self) -> Seq<(&'a Target<S, Sw, I, F>, u32)> {
        self.targets@
    }

    /// Every target an image was acquired from has a swapchain. The targets
    /// are borrowed, so this holds for as long as the frames live.
    #[verifier::type_invariant]
    pub closed spec fn acquired_from_live_swapchains(&self) -> bool {
        forall|k: int| 0 <= k < self.targets@.len() ==> (#[trigger] self.targets@[k]).0.swapchain_spec() is Some
    }

    /// The acquired image indices, one per entry, in order.
    pub fn indices(&self) -> (r: Vec<u32>)
        ensures
            r@.len() == self.entries().len(),
            forall|k: int| 0 <= k < r@.len() ==> r@[k] == #[trigger] self.entries()[k].1,
    {
        let mut r: Vec<u32> = Vec::new();
        let mut k: usize = 0;
        while k < self.targets.len()
            invariant
                0 <= k <= self.targets@.len(),
                r@.len() == k,
                forall|m: int| 0 <= m < k ==> r@[m] == #[trigger] self.targets@[m].1,
            decreases self.targets@.len() - k,
        {
            r.push(self.targets[k].1);
            k = k + 1;
        }
        r
    }

    /// The number of acquired frames.
    pub fn len(&self) -> (r: usize)
        ensures
            r == self.entries().len(),
    {
        self.targets.len()
    }

    /// The image index of entry `index`.
    pub fn index(&self, index: usize) -> (r: u32)
        requires
            index < self.entries().len(),
        ensures
            r == self.entries()[index as int].1,
    {
        self.targets[index].1
    }

    /// Consume the frames for presentation: one swapchain and image index
    /// per entry, in order, for the queue to present.
    pub fn present(self) -> (r: Vec<(&'a Sw, u32)>)
        ensures
            r@.len() == self.entries().len(),
            forall|k: int|
                0 <= k < r@.len() ==> Some(*(#[trigger] r@[k]).0) == self.entries()[k].0.swapchain_spec()
                    && r@[k].1 == self.entries()[k].1,
    {
        proof {
            use_type_invariant(&self);
        }
        let mut r: Vec<(&'a Sw, u32)> = Vec::new();
        let mut k: usize = 0;
        while k < self.targets.len()
            invariant
                0 <= k <= self.targets@.len(),
                r@.len() == k,
                forall|m: int| 0 <= m < self.targets@.len() ==> (#[trigger] self.targets@[m]).0.swapchain_spec() is Some,
                forall|m: int|
                    0 <= m < k ==> Some(*(#[trigger] r@[m]).0) == self.targets@[m].0.swapchain_spec()
                        && r@[m].1 == self.targets@[m].1,
            decreases self.targets@.len() - k,
        {
            let (target, index) = self.targets[k];
            let swapchain = target.swapchain();
            r.push((swapchain, index));
            k = k + 1;
        }
        r
    }
}

/// Disposing of a well-formed target on its device gives back a surface
/// that meets what `into_target` asks of a surface on that same device, so it
/// can be turned into a target again, which `dispose` can consume in turn.
pub proof fn lemma_dispose_then_into_target<S, Sw, I, F>(
    t: Target<S, Sw, I, F>,
    device: DeviceId,
    surface: Surface<S>,
)
    requires
        t.wf(),
        device == t.device_spec(),
        surface == t.surface_spec(),
    ensures
        device.instance == surface.instance_spec(),
{
}

} // verus!
