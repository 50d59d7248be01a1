//! Capability negotiation: choosing a swapchain configuration from what a
//! surface reports it supports.
use vstd::prelude::*;

verus! {

/// Size of a surface or of a swapchain image, in pixels.
#[derive(Clone, Copy, Debug, PartialEq, Eq, Structural)]
pub struct Extent2D {
    pub width: u32,
    pub height: u32,
}

/// How presented images are queued for display.
#[derive(Clone, Copy, Debug, PartialEq, Eq, Structural)]
pub enum PresentMode {
    Immediate,
    Mailbox,
    Fifo,
    Relaxed,
}

/// How the compositor treats the alpha channel of presented images.
#[derive(Clone, Copy, Debug, PartialEq, Eq, Structural)]
pub enum CompositeAlpha {
    Opaque,
    PreMultiplied,
    PostMultiplied,
    Inherit,
}

/// How the channels of a format are read.
#[derive(Clone, Copy, Debug, PartialEq, Eq, Structural)]
pub enum ChannelType {
    Unorm,
    Snorm,
    Uint,
    Sint,
    Ufloat,
    Sfloat,
    Uscaled,
    Sscaled,
    Srgb,
}

/// A surface format as the negotiation reads it: whether it is
/// block-compressed, how its channels are read, and its bit depth.
#[derive(Clone, Copy, Debug, PartialEq, Eq, Structural)]
pub struct FormatTraits {
    pub compressed: bool,
    pub channel: ChannelType,
    pub bits: u16,
}

/// The channels of the format are sRGB-encoded.
pub open spec fn is_srgb(f: FormatTraits) -> bool {
    f.channel == ChannelType::Srgb
}

#[verifier::external_type_specification]
#[verifier::external_body]
pub struct ExFormat(gfx_hal::format::Format);

/// What gfx-hal's format table says of a format.
pub uninterp spec fn format_traits(f: gfx_hal::format::Format) -> FormatTraits;

/// The discriminant of a format.
pub uninterp spec fn format_code(f: gfx_hal::format::Format) -> u32;

/// One past the code of the last format: the code of gfx-hal's placeholder
/// `Format::__NumFormats`, which follows its 184 formats numbered from 1.
pub const FORMAT_CODE_LIMIT: u32 = 185;

/// The value is one of gfx-hal's formats, not the placeholder that closes
/// the list.
pub open spec fn is_known_format(f: gfx_hal::format::Format) -> bool {
    0 < format_code(f) < FORMAT_CODE_LIMIT
}

/// Relies on gfx_hal::format::Format being `repr(u32)`: its discriminant,
/// 1 for the first format and one more for each next one.
#[verifier::external_body]
fn code_of_format(f: gfx_hal::format::Format) -> (r: u32)
    ensures
        r == format_code(f),
{
    f as u32
}

/// Relies on gfx_hal::format::NUM_FORMATS, the discriminant of the
/// placeholder `__NumFormats`.
#[verifier::external_body]
fn num_formats() -> (r: u32)
    ensures
        r == FORMAT_CODE_LIMIT,
{
    gfx_hal::format::NUM_FORMATS as u32
}

/// Relies on gfx_hal::format::Format::base_format and SurfaceType::desc:
/// the compression, channel type and bit count of a format, from gfx-hal's
/// own table, so a function of the format alone. `base_format` asserts that
/// the discriminant is neither 0 nor `NUM_FORMATS`.
#[verifier::external_body]
fn describe_format(f: gfx_hal::format::Format) -> (r: FormatTraits)
    requires
        is_known_format(f),
    ensures
        r == format_traits(f),
{
    let base = f.base_format();
    let desc = base.0.desc();
    let channel = match base.1 {
        gfx_hal::format::ChannelType::Unorm => ChannelType::Unorm,
        gfx_hal::format::ChannelType::Snorm => ChannelType::Snorm,
        gfx_hal::format::ChannelType::Uint => ChannelType::Uint,
        gfx_hal::format::ChannelType::Sint => ChannelType::Sint,
        gfx_hal::format::ChannelType::Ufloat => ChannelType::Ufloat,
        gfx_hal::format::ChannelType::Sfloat => ChannelType::Sfloat,
        gfx_hal::format::ChannelType::Uscaled => ChannelType::Uscaled,
        gfx_hal::format::ChannelType::Sscaled => ChannelType::Sscaled,
        gfx_hal::format::ChannelType::Srgb => ChannelType::Srgb,
    };
    FormatTraits { compressed: desc.is_compressed(), channel, bits: desc.bits }
}

/// Whether a format is one of gfx-hal's formats.
pub fn known_format(f: gfx_hal::format::Format) -> (r: bool)
    ensures
        r == is_known_format(f),
{
    let code = code_of_format(f);
    0 < code && code < num_formats()
}

/// Every format of the list is one of gfx-hal's formats.
pub open spec fn all_known_formats(formats: Seq<gfx_hal::format::Format>) -> bool {
    forall|i: int| 0 <= i < formats.len() ==> is_known_format(#[trigger] formats[i])
}

/// Whether every format of the list is one of gfx-hal's formats.
pub fn known_formats(formats: &Vec<gfx_hal::format::Format>) -> (r: bool)
    ensures
        r == all_known_formats(formats@),
{
    let mut i: usize = 0;
    while i < formats.len()
        invariant
            0 <= i <= formats@.len(),
            forall|j: int| 0 <= j < i ==> is_known_format(#[trigger] formats@[j]),
        decreases formats@.len() - i,
    {
        if !known_format(formats[i]) {
            return false;
        }
        i = i + 1;
    }
    true
}

/// What the device reports of a surface: the accepted image-count range
/// (both ends included), the current extent if the surface has a fixed one,
/// and the image usages it supports, as a bit set.
#[derive(Clone, Copy, Debug, PartialEq, Eq, Structural)]
pub struct Capabilities {
    pub image_count_start: u32,
    pub image_count_end: u32,
    pub current_extent: Option<Extent2D>,
    pub usage: u32,
}

/// The full answer of a compatibility query on a surface.
#[derive(Debug)]
pub struct Compatibility {
    pub capabilities: Capabilities,
    pub formats: Option<Vec<gfx_hal::format::Format>>,
    pub present_modes: Vec<PresentMode>,
    pub composite_alpha: Vec<CompositeAlpha>,
}

/// The configuration a swapchain is created with.
#[derive(Clone, Copy, Debug, PartialEq, Eq)]
pub struct SwapchainConfig {
    pub present_mode: PresentMode,
    pub format: gfx_hal::format::Format,
    pub extent: Extent2D,
    pub image_count: u32,
    pub image_layers: u16,
    pub image_usage: u32,
    pub composite_alpha: CompositeAlpha,
}

/// Why no swapchain configuration could be chosen.
#[derive(Clone, Copy, Debug, PartialEq, Eq, Structural)]
pub enum SwapchainError {
    /// The requested present mode is not among the supported ones.
    PresentModeUnsupported,
    /// The surface reported no format at all.
    NoFormats,
    /// The surface listed a value that is none of gfx-hal's formats.
    UnknownFormat,
    /// The requested image count lies outside the supported range.
    ImageCountUnsupported,
}

/// Preference of a format: uncompressed first, then sRGB, then more bits.
/// The order of ranks is the lexicographic order of those three keys.
pub open spec fn format_rank(f: FormatTraits) -> int {
    (if f.compressed { 0int } else { 0x20000int }) + (if is_srgb(f) { 0x10000int } else { 0int })
        + f.bits as int
}

/// Preference of a composite-alpha mode.
pub open spec fn alpha_rank(a: CompositeAlpha) -> int {
    match a {
        CompositeAlpha::Inherit => 3,
        CompositeAlpha::Opaque => 2,
        CompositeAlpha::PreMultiplied => 1,
        CompositeAlpha::PostMultiplied => 0,
    }
}

/// `i` is the position that a "last maximum" scan by `format_rank` picks:
/// no format ranks above it and none after it ranks as high.
pub open spec fn is_best_format_index(formats: Seq<FormatTraits>, i: int) -> bool {
    &&& 0 <= i < formats.len()
    &&& forall|j: int| 0 <= j < formats.len() ==> format_rank(#[trigger] formats[j]) <= format_rank(formats[i])
    &&& forall|j: int| i < j < formats.len() ==> format_rank(#[trigger] formats[j]) < format_rank(formats[i])
}

/// The same for composite-alpha modes.
pub open spec fn is_best_alpha_index(modes: Seq<CompositeAlpha>, i: int) -> bool {
    &&& 0 <= i < modes.len()
    &&& forall|j: int| 0 <= j < modes.len() ==> alpha_rank(#[trigger] modes[j]) <= alpha_rank(modes[i])
    &&& forall|j: int| i < j < modes.len() ==> alpha_rank(#[trigger] modes[j]) < alpha_rank(modes[i])
}

/// The bits of `a` are all among the bits of `b`.
pub open spec fn usage_within(a: u32, b: u32) -> bool {
    a & b == a
}

/// The request satisfies the surface's image-count range.
pub open spec fn image_count_supported(caps: Capabilities, image_count: u32) -> bool {
    caps.image_count_start <= image_count <= caps.image_count_end
}

/// The formats list is present and not empty.
pub open spec fn has_formats(c: Compatibility) -> bool {
    c.formats is Some && c.formats->0@.len() > 0
}

/// The request leaves out what is a caller's error rather than a refusal:
/// a usage beyond the supported one, or a surface without any
/// composite-alpha mode.
pub open spec fn well_formed_request(c: Compatibility, usage: u32) -> bool {
    &&& usage_within(usage, c.capabilities.usage)
    &&& c.composite_alpha@.len() > 0
}

/// The error the negotiation reports, checked in this order; `None` when all
/// checks pass.
pub open spec fn negotiation_error(
    c: Compatibility,
    image_count: u32,
    present_mode: PresentMode,
    usage: u32,
) -> Option<SwapchainError> {
    if !c.present_modes@.contains(present_mode) {
        Some(SwapchainError::PresentModeUnsupported)
    } else if !has_formats(c) {
        Some(SwapchainError::NoFormats)
    } else if !all_known_formats(c.formats->0@) {
        Some(SwapchainError::UnknownFormat)
    } else if !image_count_supported(c.capabilities, image_count) {
        Some(SwapchainError::ImageCountUnsupported)
    } else {
        None
    }
}

fn format_rank_exec(f: &FormatTraits) -> (r: u32)
    ensures
        r == format_rank(*f),
{
    let high: u32 = if f.compressed { 0 } else { 0x20000 };
    let mid: u32 = match f.channel {
        ChannelType::Srgb => 0x10000,
        _ => 0,
    };
    high + mid + f.bits as u32
}

fn alpha_rank_exec(a: CompositeAlpha) -> (r: u32)
    ensures
        r == alpha_rank(a),
{
    match a {
        CompositeAlpha::Inherit => 3,
        CompositeAlpha::Opaque => 2,
        CompositeAlpha::PreMultiplied => 1,
        CompositeAlpha::PostMultiplied => 0,
    }
}

/// Position of the preferred format: the last of those with the highest
/// `format_rank`.
pub fn best_format_index(formats: &Vec<FormatTraits>) -> (r: usize)
    requires
        formats@.len() > 0,
    ensures
        is_best_format_index(formats@, r as int),
{
    let mut best: usize = 0;
    let mut best_rank: u32 = format_rank_exec(&formats[0]);
    let mut i: usize = 1;
    while i < formats.len()
        invariant
            0 <= best < i <= formats@.len(),
            best_rank == format_rank(formats@[best as int]),
            forall|j: int| 0 <= j < i ==> format_rank(#[trigger] formats@[j]) <= best_rank,
            forall|j: int| best < j < i ==> format_rank(#[trigger] formats@[j]) < best_rank,
        decreases formats@.len() - i,
    {
        let rank = format_rank_exec(&formats[i]);
        if rank >= best_rank {
            best = i;
            best_rank = rank;
        }
        i = i + 1;
    }
    best
}

/// Position of the preferred composite-alpha mode, `None` if there is none.
pub fn best_alpha_index(modes: &Vec<CompositeAlpha>) -> (r: Option<usize>)
    ensures
        r is None <==> modes@.len() == 0,
        r matches Some(i) ==> is_best_alpha_index(modes@, i as int),
{
    if modes.len() == 0 {
        return None;
    }
    let mut best: usize = 0;
    let mut best_rank: u32 = alpha_rank_exec(modes[0]);
    let mut i: usize = 1;
    while i < modes.len()
        invariant
            0 <= best < i <= modes@.len(),
            best_rank == alpha_rank(modes@[best as int]),
            forall|j: int| 0 <= j < i ==> alpha_rank(#[trigger] modes@[j]) <= best_rank,
            forall|j: int| best < j < i ==> alpha_rank(#[trigger] modes@[j]) < best_rank,
        decreases modes@.len() - i,
    {
        let rank = alpha_rank_exec(modes[i]);
        if rank >= best_rank {
            best = i;
            best_rank = rank;
        }
        i = i + 1;
    }
    Some(best)
}

/// The traits of each format of a list, in order.
pub open spec fn traits_of(formats: Seq<gfx_hal::format::Format>) -> Seq<FormatTraits> {
    formats.map_values(|f: gfx_hal::format::Format| format_traits(f))
}

/// The traits of each format of a list, in order, as gfx-hal describes them.
pub fn describe_formats(formats: &Vec<gfx_hal::format::Format>) -> (r: Vec<FormatTraits>)
    requires
        all_known_formats(formats@),
    ensures
        r@ == traits_of(formats@),
{
    let mut r: Vec<FormatTraits> = Vec::new();
    let mut i: usize = 0;
    while i < formats.len()
        invariant
            0 <= i <= formats@.len(),
            r@ == traits_of(formats@.subrange(0, i as int)),
            all_known_formats(formats@),
        decreases formats@.len() - i,
    {
        assert(is_known_format(formats@[i as int]));
        r.push(describe_format(formats[i]));
        proof {
            assert(formats@.subrange(0, i + 1) =~= formats@.subrange(0, i as int).push(formats@[i as int]));
        }
        i = i + 1;
    }
    proof {
        assert(formats@.subrange(0, formats@.len() as int) =~= formats@);
    }
    r
}

/// The preferred format of a non-empty list: the last of those whose traits
/// rank highest.
pub fn select_format(formats: &Vec<gfx_hal::format::Format>) -> (r: gfx_hal::format::Format)
    requires
        formats@.len() > 0,
        all_known_formats(formats@),
    ensures
        exists|i: int| is_best_format_index(traits_of(formats@), i) && r == formats@[i],
{
    let traits = describe_formats(formats);
    let i = best_format_index(&traits);
    formats[i]
}

/// The preferred composite-alpha mode, `None` if the list is empty.
pub fn select_composite_alpha(modes: &Vec<CompositeAlpha>) -> (r: Option<CompositeAlpha>)
    ensures
        r is None <==> modes@.len() == 0,
        r matches Some(a) ==> exists|i: int| is_best_alpha_index(modes@, i) && a == modes@[i],
{
    match best_alpha_index(modes) {
        Some(i) => Some(modes[i]),
        None => None,
    }
}

fn contains_present_mode(modes: &Vec<PresentMode>, mode: PresentMode) -> (r: bool)
    ensures
        r == modes@.contains(mode),
{
    let mut i: usize = 0;
    while i < modes.len()
        invariant
            0 <= i <= modes@.len(),
            forall|j: int| 0 <= j < i ==> modes@[j] != mode,
        decreases modes@.len() - i,
    {
        if modes[i] == mode {
            return true;
        }
        i = i + 1;
    }
    false
}

/// The surface's fixed current extent, when it has one that differs from
/// `extent`. Such a mismatch is worth a warning, not an error: the
/// swapchain is still created with `extent`.
pub fn mismatched_extent(c: &Compatibility, extent: Extent2D) -> (r: Option<Extent2D>)
    ensures
        r == (match c.capabilities.current_extent {
            Some(current) => if current != extent { Some(current) } else { None::<Extent2D> },
            None => None,
        }),
{
    match c.capabilities.current_extent {
        Some(current) => if current != extent {
            Some(current)
        } else {
            None
        },
        None => None,
    }
}

/// The configuration that negotiation settles on when every check passes:
/// the requested mode, extent, count and usage, one layer, and the
/// preferred format and composite-alpha mode.
pub open spec fn negotiated_config(
    c: Compatibility,
    config: SwapchainConfig,
    extent: Extent2D,
    image_count: u32,
    present_mode: PresentMode,
    usage: u32,
) -> bool {
    &&& config.present_mode == present_mode
    &&& config.extent == extent
    &&& config.image_count == image_count
    &&& config.image_layers == 1
    &&& config.image_usage == usage
    &&& exists|i: int|
        is_best_format_index(traits_of(c.formats->0@), i) && config.format == c.formats->0@[i]
    &&& exists|i: int|
        is_best_alpha_index(c.composite_alpha@, i) && config.composite_alpha == c.composite_alpha@[i]
}

/// Negotiate a swapchain configuration for the requested extent, image
/// count, present mode and usage against what the surface supports.
///
/// The checks run in a fixed order: present mode, formats, image count;
/// the first that fails gives the error. A fixed current extent that differs
/// from `extent` is no error: the requested extent is used.
pub fn negotiate(
    c: &Compatibility,
    extent: Extent2D,
    image_count: u32,
    present_mode: PresentMode,
    usage: u32,
) -> (r: Result<SwapchainConfig, SwapchainError>)
    requires
        well_formed_request(*c, usage),
    ensures
        negotiation_error(*c, image_count, present_mode, usage) matches Some(e) ==> r == Err::<
            SwapchainConfig,
            SwapchainError,
        >(e),
        negotiation_error(*c, image_count, present_mode, usage) is None ==> (r matches Ok(config)
            && negotiated_config(*c, config, extent, image_count, present_mode, usage)),
{
    if !contains_present_mode(&c.present_modes, present_mode) {
        return Err(SwapchainError::PresentModeUnsupported);
    }
    let formats = match &c.formats {
        Some(f) => f,
        None => {
            return Err(SwapchainError::NoFormats);
        },
    };
    if formats.len() == 0 {
        return Err(SwapchainError::NoFormats);
    }
    if !known_formats(formats) {
        return Err(SwapchainError::UnknownFormat);
    }
    let format = select_format(formats);
    let caps = c.capabilities;
    if image_count < caps.image_count_start || image_count > caps.image_count_end {
        return Err(SwapchainError::ImageCountUnsupported);
    }
    let composite_alpha = c.composite_alpha[best_alpha_index(&c.composite_alpha).unwrap()];
    Ok(
        SwapchainConfig {
            present_mode,
            format,
            extent,
            image_count,
            image_layers: 1,
            image_usage: usage,
            composite_alpha,
        },
    )
}

/// How each image of a swapchain is described to the resource layer: a
/// two-dimensional image of the swapchain's extent, with one layer, one
/// sample and one mip level, in the swapchain's format and usage, with
/// optimal tiling.
#[derive(Clone, Copy, Debug, PartialEq, Eq)]
pub struct ImageDescription {
    pub width: u32,
    pub height: u32,
    pub layers: u16,
    pub samples: u8,
    pub levels: u8,
    pub format: gfx_hal::format::Format,
    pub usage: u32,
    pub optimal_tiling: bool,
}

/// The description of the images of a swapchain created with `config`.
pub fn swapchain_image_description(config: &SwapchainConfig) -> (r: ImageDescription)
    ensures
        r.width == config.extent.width,
        r.height == config.extent.height,
        r.layers == 1,
        r.samples == 1,
        r.levels == 1,
        r.format == config.format,
        r.usage == config.image_usage,
        r.optimal_tiling,
{
    ImageDescription {
        width: config.extent.width,
        height: config.extent.height,
        layers: 1,
        samples: 1,
        levels: 1,
        format: config.format,
        usage: config.image_usage,
        optimal_tiling: true,
    }
}

/// Whenever some supported format is uncompressed and sRGB, the preferred
/// format is uncompressed and sRGB too, and no uncompressed sRGB format has
/// more bits than it.
pub proof fn lemma_prefers_uncompressed_srgb(formats: Seq<FormatTraits>, best: int)
    requires
        is_best_format_index(formats, best),
        exists|i: int| 0 <= i < formats.len() && !(#[trigger] formats[i]).compressed && is_srgb(formats[i]),
    ensures
        !formats[best].compressed,
        is_srgb(formats[best]),
        forall|j: int|
            0 <= j < formats.len() && !(#[trigger] formats[j]).compressed && is_srgb(formats[j])
                ==> formats[j].bits <= formats[best].bits,
{
    let i = choose|i: int| 0 <= i < formats.len() && !(#[trigger] formats[i]).compressed && is_srgb(formats[i]);
    assert(format_rank(formats[i]) <= format_rank(formats[best]));
    assert forall|j: int|
        0 <= j < formats.len() && !(#[trigger] formats[j]).compressed && is_srgb(formats[j])
            implies formats[j].bits <= formats[best].bits by {
        assert(format_rank(formats[j]) <= format_rank(formats[best]));
    }
}

/// With a supported present mode and some known format to pick, an image count
/// outside the supported range always fails negotiation with
/// `ImageCountUnsupported`, so no configuration comes out.
pub proof fn lemma_image_count_outside_range_fails(
    c: Compatibility,
    image_count: u32,
    present_mode: PresentMode,
    usage: u32,
)
    requires
        c.present_modes@.contains(present_mode),
        has_formats(c),
        all_known_formats(c.formats->0@),
        image_count < c.capabilities.image_count_start || image_count > c.capabilities.image_count_end,
    ensures
        negotiation_error(c, image_count, present_mode, usage) == Some(SwapchainError::ImageCountUnsupported),
{
}

/// An unsupported present mode fails negotiation with
/// `PresentModeUnsupported` before anything else is looked at: whatever the
/// formats, the image count, the usage or the composite-alpha modes.
pub proof fn lemma_unsupported_present_mode_fails_first(
    c: Compatibility,
    image_count: u32,
    present_mode: PresentMode,
    usage: u32,
)
    requires
        !c.present_modes@.contains(present_mode),
    ensures
        forall|other: Compatibility|
            other.present_modes == c.present_modes ==> #[trigger] negotiation_error(
                other,
                image_count,
                present_mode,
                usage,
            ) == Some(SwapchainError::PresentModeUnsupported),
{
}

} // verus!
