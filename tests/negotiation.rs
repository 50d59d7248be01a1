use gfx_hal::format::Format;
use rendy_wsi::negotiate::{
    best_alpha_index, best_format_index, describe_formats, mismatched_extent, negotiate, select_composite_alpha,
    select_format, known_format, swapchain_image_description, ChannelType, Capabilities, Compatibility, CompositeAlpha, Extent2D, FormatTraits,
    PresentMode, SwapchainError,
};

const COLOR_ATTACHMENT: u32 = 0x10;
const TRANSFER_DST: u32 = 0x2;

fn traits(compressed: bool, srgb: bool, bits: u16) -> FormatTraits {
    let channel = if srgb { ChannelType::Srgb } else { ChannelType::Unorm };
    FormatTraits { compressed, channel, bits }
}

fn compat(start: u32, end: u32, modes: Vec<PresentMode>) -> Compatibility {
    Compatibility {
        capabilities: Capabilities {
            image_count_start: start,
            image_count_end: end,
            current_extent: Some(Extent2D { width: 640, height: 480 }),
            usage: COLOR_ATTACHMENT | TRANSFER_DST,
        },
        formats: Some(vec![Format::Rgba8Unorm, Format::Bgra8Srgb, Format::Bc1RgbaSrgb]),
        present_modes: modes,
        composite_alpha: vec![CompositeAlpha::Opaque, CompositeAlpha::Inherit],
    }
}

fn extent() -> Extent2D {
    Extent2D { width: 800, height: 600 }
}

#[test]
fn formats_are_described_by_the_format_table() {
    let described = describe_formats(&vec![
        Format::Rgba8Srgb,
        Format::Bc1RgbaUnorm,
        Format::Rgba16Sfloat,
        Format::R8Unorm,
    ]);
    assert_eq!(
        described,
        vec![
            traits(false, true, 32),
            traits(true, false, 64),
            FormatTraits { compressed: false, channel: ChannelType::Sfloat, bits: 64 },
            traits(false, false, 8),
        ]
    );
}

#[test]
fn uncompressed_srgb_beats_compressed_and_linear() {
    let formats = vec![
        Format::Bc7Srgb,
        Format::Rgba16Sfloat,
        Format::R8Srgb,
        Format::Rgba8Srgb,
        Format::Bc1RgbaUnorm,
    ];
    assert_eq!(select_format(&formats), Format::Rgba8Srgb);
}

#[test]
fn best_format_index_ranks_by_traits() {
    let formats = vec![
        traits(true, true, 128),
        traits(false, false, 64),
        traits(false, true, 24),
        traits(false, true, 32),
        traits(true, false, 128),
    ];
    assert_eq!(best_format_index(&formats), 3);
}

#[test]
fn format_ties_pick_the_last() {
    let formats = vec![traits(false, true, 32), traits(false, true, 32), traits(false, false, 32)];
    assert_eq!(best_format_index(&formats), 1);
    let formats = vec![Format::Rgba8Srgb, Format::Bgra8Srgb, Format::Rgba8Unorm];
    assert_eq!(select_format(&formats), Format::Bgra8Srgb);
}

#[test]
fn without_srgb_more_bits_win_among_uncompressed() {
    let formats = vec![Format::Bc1RgbaUnorm, Format::R8Unorm, Format::Rgba16Sfloat];
    assert_eq!(select_format(&formats), Format::Rgba16Sfloat);
}

#[test]
fn single_format_is_chosen() {
    assert_eq!(select_format(&vec![Format::Bc7Srgb]), Format::Bc7Srgb);
    assert_eq!(best_format_index(&vec![traits(true, false, 8)]), 0);
}

#[test]
fn composite_alpha_priority() {
    let all = vec![
        CompositeAlpha::PostMultiplied,
        CompositeAlpha::Opaque,
        CompositeAlpha::PreMultiplied,
        CompositeAlpha::Inherit,
    ];
    assert_eq!(select_composite_alpha(&all), Some(CompositeAlpha::Inherit));
    assert_eq!(best_alpha_index(&all), Some(3));
    let no_inherit = vec![CompositeAlpha::PreMultiplied, CompositeAlpha::Opaque];
    assert_eq!(select_composite_alpha(&no_inherit), Some(CompositeAlpha::Opaque));
    let multiplied = vec![CompositeAlpha::PostMultiplied, CompositeAlpha::PreMultiplied];
    assert_eq!(select_composite_alpha(&multiplied), Some(CompositeAlpha::PreMultiplied));
    assert_eq!(select_composite_alpha(&vec![]), None);
    assert_eq!(best_alpha_index(&vec![]), None);
}

#[test]
fn negotiation_succeeds_with_requested_values() {
    let c = compat(2, 3, vec![PresentMode::Fifo, PresentMode::Mailbox]);
    let config = negotiate(&c, extent(), 3, PresentMode::Mailbox, COLOR_ATTACHMENT).unwrap();
    assert_eq!(config.present_mode, PresentMode::Mailbox);
    assert_eq!(config.format, Format::Bgra8Srgb);
    // the requested extent wins over the surface's current one
    assert_eq!(config.extent, extent());
    assert_eq!(config.image_count, 3);
    assert_eq!(config.image_layers, 1);
    assert_eq!(config.image_usage, COLOR_ATTACHMENT);
    assert_eq!(config.composite_alpha, CompositeAlpha::Inherit);
}

#[test]
fn image_count_range_ends_are_included() {
    let c = compat(2, 3, vec![PresentMode::Fifo]);
    assert!(negotiate(&c, extent(), 2, PresentMode::Fifo, 0).is_ok());
    assert!(negotiate(&c, extent(), 3, PresentMode::Fifo, 0).is_ok());
    assert_eq!(
        negotiate(&c, extent(), 1, PresentMode::Fifo, 0),
        Err(SwapchainError::ImageCountUnsupported)
    );
}

#[test]
fn image_count_above_range_fails() {
    let c = compat(2, 3, vec![PresentMode::Fifo]);
    assert_eq!(
        negotiate(&c, extent(), 4, PresentMode::Fifo, COLOR_ATTACHMENT),
        Err(SwapchainError::ImageCountUnsupported)
    );
}

#[test]
fn mailbox_unsupported_when_only_fifo() {
    let c = compat(2, 3, vec![PresentMode::Fifo]);
    assert_eq!(
        negotiate(&c, extent(), 3, PresentMode::Mailbox, COLOR_ATTACHMENT),
        Err(SwapchainError::PresentModeUnsupported)
    );
}

#[test]
fn present_mode_is_checked_before_everything_else() {
    let mut c = compat(2, 3, vec![PresentMode::Fifo]);
    c.formats = None;
    assert_eq!(
        negotiate(&c, extent(), 99, PresentMode::Immediate, COLOR_ATTACHMENT),
        Err(SwapchainError::PresentModeUnsupported)
    );
}

#[test]
fn missing_formats_fail() {
    let mut c = compat(2, 3, vec![PresentMode::Fifo]);
    c.formats = None;
    assert_eq!(negotiate(&c, extent(), 2, PresentMode::Fifo, 0), Err(SwapchainError::NoFormats));
    c.formats = Some(vec![]);
    assert_eq!(negotiate(&c, extent(), 2, PresentMode::Fifo, 0), Err(SwapchainError::NoFormats));
}

#[test]
fn placeholder_format_is_unknown() {
    assert!(known_format(Format::Rgba8Srgb));
    assert!(known_format(Format::Astc12x12Srgb));
    assert!(!known_format(Format::__NumFormats));
    let mut c = compat(2, 3, vec![PresentMode::Fifo]);
    c.formats = Some(vec![Format::Rgba8Srgb, Format::__NumFormats]);
    assert_eq!(negotiate(&c, extent(), 2, PresentMode::Fifo, 0), Err(SwapchainError::UnknownFormat));
}

#[test]
fn swapchain_images_are_described() {
    let c = compat(2, 3, vec![PresentMode::Fifo]);
    let config = negotiate(&c, extent(), 2, PresentMode::Fifo, COLOR_ATTACHMENT).unwrap();
    let d = swapchain_image_description(&config);
    assert_eq!((d.width, d.height), (800, 600));
    assert_eq!((d.layers, d.samples, d.levels), (1, 1, 1));
    assert_eq!(d.format, Format::Bgra8Srgb);
    assert_eq!(d.usage, COLOR_ATTACHMENT);
    assert!(d.optimal_tiling);
}

#[test]
fn extent_mismatch_is_reported_not_refused() {
    let mut c = compat(2, 3, vec![PresentMode::Fifo]);
    let current = Extent2D { width: 640, height: 480 };
    assert_eq!(mismatched_extent(&c, extent()), Some(current));
    assert_eq!(mismatched_extent(&c, current), None);
    c.capabilities.current_extent = None;
    assert_eq!(mismatched_extent(&c, extent()), None);
}
