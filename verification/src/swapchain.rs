//! Choice of the swapchain's parameters: surface format, presentation mode,
//! extent, image count and sharing mode.

use vstd::prelude::*;
use crate::device::QueueFamilyIndices;
use crate::error::SetupError;
use crate::ranking::{
    first_index_from, is_best, lemma_first_index_from, pick_best, priority_seq, rank_in,
    spec_rank,
};
use crate::vulkan::{
    COLOR_SPACE_SRGB_NONLINEAR, COMPONENT_SWIZZLE_IDENTITY, COMPOSITE_ALPHA_OPAQUE,
    FORMAT_B8G8R8A8_UNORM, IMAGE_ASPECT_COLOR, IMAGE_USAGE_COLOR_ATTACHMENT, IMAGE_VIEW_TYPE_2D,
    PRESENT_MODE_FIFO_RELAXED, PRESENT_MODE_IMMEDIATE, PRESENT_MODE_MAILBOX,
};

verus! {

/// A pixel format together with the colour space it is shown in.
#[derive(Clone, Copy, Debug, PartialEq, Eq, Structural)]
pub struct SurfaceFormat {
    pub format: i32,
    pub color_space: i32,
}

/// A size in pixels.
#[derive(Clone, Copy, Debug, PartialEq, Eq, Structural)]
pub struct Extent2D {
    pub width: u32,
    pub height: u32,
}

/// What a surface allows a swapchain to be.
#[derive(Clone, Copy, Debug)]
pub struct SurfaceCapabilities {
    pub min_image_count: u32,
    /// The largest image count allowed; 0 means that there is no limit.
    pub max_image_count: u32,
    /// The surface's fixed extent; a width of `u32::MAX` means that the
    /// swapchain chooses the extent.
    pub current_extent: Extent2D,
    pub min_image_extent: Extent2D,
    pub max_image_extent: Extent2D,
    /// Raw bits of the surface's current transform.
    pub current_transform: u32,
}

/// The format that the engine prefers: 8-bit BGRA in nonlinear sRGB.
pub open spec fn spec_preferred_format() -> SurfaceFormat {
    SurfaceFormat { format: FORMAT_B8G8R8A8_UNORM, color_space: COLOR_SPACE_SRGB_NONLINEAR }
}

/// The preferred format if the surface offers it, else the first format
/// that the surface reports.
pub open spec fn spec_choose_format(formats: Seq<SurfaceFormat>) -> SurfaceFormat {
    if formats.contains(spec_preferred_format()) {
        spec_preferred_format()
    } else {
        formats[0]
    }
}

/// Chooses the surface format. Fails exactly when the surface reports none.
pub fn choose_swapchain_format(formats: &Vec<SurfaceFormat>) -> (chosen: Result<
    SurfaceFormat,
    SetupError,
>)
    ensures
        formats.len() == 0 ==> chosen == Err::<SurfaceFormat, SetupError>(
            SetupError::NoSurfaceFormat,
        ),
        formats.len() > 0 ==> chosen == Ok::<SurfaceFormat, SetupError>(
            spec_choose_format(formats@),
        ),
{
    let mut i: usize = 0;
    while i < formats.len()
        invariant
            0 <= i <= formats.len(),
            forall|j: int| 0 <= j < i ==> formats[j] != spec_preferred_format(),
        decreases formats.len() - i,
    {
        let format = formats[i];
        if format.format == FORMAT_B8G8R8A8_UNORM && format.color_space
            == COLOR_SPACE_SRGB_NONLINEAR {
            assert(formats[i as int] == spec_preferred_format());
            return Ok(format);
        }
        i += 1;
    }
    if formats.len() == 0 {
        Err(SetupError::NoSurfaceFormat)
    } else {
        Ok(formats[0])
    }
}

/// Presentation modes from most to least preferred: immediate, relaxed
/// FIFO, mailbox. Any other mode ranks behind these.
pub open spec fn present_mode_table() -> Seq<i32> {
    seq![PRESENT_MODE_IMMEDIATE, PRESENT_MODE_FIFO_RELAXED, PRESENT_MODE_MAILBOX]
}

/// The priority of a presentation mode under the default preference:
/// immediate 1, relaxed FIFO 2, mailbox 3, any other 4. Lower is better.
pub open spec fn spec_present_mode_priority(mode: i32) -> int {
    if mode == PRESENT_MODE_IMMEDIATE {
        1
    } else if mode == PRESENT_MODE_FIFO_RELAXED {
        2
    } else if mode == PRESENT_MODE_MAILBOX {
        3
    } else {
        4
    }
}

/// The default priority of a presentation mode is its rank in the default
/// preference table.
pub proof fn lemma_present_priority_is_rank(mode: i32)
    ensures
        spec_present_mode_priority(mode) == spec_rank(present_mode_table(), mode),
{
    reveal_with_fuel(first_index_from, 5);
}

/// The priority of a presentation mode under the default preference;
/// lower is better.
pub fn present_mode_to_priority(mode: i32) -> (priority: u32)
    ensures
        priority == spec_present_mode_priority(mode),
{
    if mode == PRESENT_MODE_IMMEDIATE {
        1
    } else if mode == PRESENT_MODE_FIFO_RELAXED {
        2
    } else if mode == PRESENT_MODE_MAILBOX {
        3
    } else {
        4
    }
}

/// The default preference table.
pub fn default_present_mode_policy() -> (table: Vec<i32>)
    ensures
        table@ == present_mode_table(),
{
    let mut table: Vec<i32> = Vec::new();
    table.push(PRESENT_MODE_IMMEDIATE);
    table.push(PRESENT_MODE_FIFO_RELAXED);
    table.push(PRESENT_MODE_MAILBOX);
    assert(table@ =~= present_mode_table());
    table
}

/// The ranks of `modes` in `table`, mode by mode.
pub open spec fn spec_mode_ranks(table: Seq<i32>, modes: Seq<i32>) -> Seq<int> {
    modes.map_values(|mode: i32| spec_rank(table, mode))
}

/// Mode `k` of `modes` is the one to choose under `table`: it has the best
/// rank, and of the modes with that rank it is the first reported.
pub open spec fn is_chosen_mode(table: Seq<i32>, modes: Seq<i32>, k: int) -> bool {
    is_best(spec_mode_ranks(table, modes), k)
}

/// If the surface offers the mode at the head of the preference table, that
/// mode is chosen, wherever it stands among the reported modes.
pub proof fn lemma_most_preferred_is_chosen(table: Seq<i32>, modes: Seq<i32>, k: int)
    requires
        table.len() > 0,
        modes.contains(table[0]),
        is_chosen_mode(table, modes, k),
    ensures
        modes[k] == table[0],
{
    let ranks = spec_mode_ranks(table, modes);
    let j = choose|j: int| 0 <= j < modes.len() && modes[j] == table[0];
    assert(ranks[j] == 1);
    assert(ranks[k] <= ranks[j]);
    lemma_first_index_from(table, modes[k], 0);
}

/// Chooses the presentation mode under the preference table `table`. Fails
/// exactly when the surface reports no mode.
pub fn choose_present_mode_by(table: &Vec<i32>, modes: &Vec<i32>) -> (chosen: Result<
    i32,
    SetupError,
>)
    requires
        table.len() < u32::MAX,
    ensures
        match chosen {
            Ok(mode) => exists|k: int|
                is_chosen_mode(table@, modes@, k) && mode == #[trigger] modes[k],
            Err(e) => e == SetupError::NoPresentMode && modes.len() == 0,
        },
{
    let mut ranks: Vec<u32> = Vec::with_capacity(modes.len());
    let mut i: usize = 0;
    while i < modes.len()
        invariant
            0 <= i <= modes.len(),
            table.len() < u32::MAX,
            ranks.len() == i,
            forall|j: int| 0 <= j < i ==> (#[trigger] ranks[j]) as int == spec_rank(table@, modes[j]),
        decreases modes.len() - i,
    {
        proof {
            lemma_first_index_from(table@, modes[i as int], 0);
        }
        let rank = rank_in(table, modes[i]);
        ranks.push(rank as u32);
        i += 1;
    }
    match pick_best(&ranks) {
        None => Err(SetupError::NoPresentMode),
        Some(best) => {
            assert(priority_seq(ranks@) =~= spec_mode_ranks(table@, modes@));
            Ok(modes[best])
        },
    }
}

/// Chooses the presentation mode under the default preference. Fails
/// exactly when the surface reports no mode.
pub fn choose_swapchain_present_mode(modes: &Vec<i32>) -> (chosen: Result<i32, SetupError>)
    ensures
        match chosen {
            Ok(mode) => exists|k: int|
                is_chosen_mode(present_mode_table(), modes@, k) && mode == #[trigger] modes[k],
            Err(e) => e == SetupError::NoPresentMode && modes.len() == 0,
        },
{
    let table = default_present_mode_policy();
    choose_present_mode_by(&table, modes)
}

/// `value` moved into the interval from `low` to `high`.
pub open spec fn spec_clamp(value: u32, low: u32, high: u32) -> u32 {
    if value < low {
        low
    } else if value > high {
        high
    } else {
        value
    }
}

/// Moves `value` into the interval from `low` to `high`.
pub fn clamp(value: u32, low: u32, high: u32) -> (clamped: u32)
    requires
        low <= high,
    ensures
        clamped == spec_clamp(value, low, high),
        low <= clamped <= high,
{
    if value < low {
        low
    } else if value > high {
        high
    } else {
        value
    }
}

impl SurfaceCapabilities {
    /// Whether the surface leaves the choice of the extent to the swapchain.
    pub open spec fn spec_extent_is_free(&self) -> bool {
        self.current_extent.width == u32::MAX
    }

    /// The bounds of a free extent form an interval in each direction.
    pub open spec fn extent_wf(&self) -> bool {
        self.spec_extent_is_free() ==> {
            &&& self.min_image_extent.width <= self.max_image_extent.width
            &&& self.min_image_extent.height <= self.max_image_extent.height
        }
    }

    /// One more image than the minimum can be counted, or there is a
    /// maximum to fall back on.
    pub open spec fn image_count_wf(&self) -> bool {
        self.min_image_count < u32::MAX || self.max_image_count != 0
    }

    /// Both the extent bounds and the image counts are in order.
    pub open spec fn wf(&self) -> bool {
        self.extent_wf() && self.image_count_wf()
    }

    /// Tests [`SurfaceCapabilities::extent_wf`].
    pub fn is_extent_wf(&self) -> (ok: bool)
        ensures
            ok == self.extent_wf(),
    {
        self.current_extent.width != u32::MAX || (self.min_image_extent.width
            <= self.max_image_extent.width && self.min_image_extent.height
            <= self.max_image_extent.height)
    }

    /// Tests [`SurfaceCapabilities::image_count_wf`].
    pub fn is_image_count_wf(&self) -> (ok: bool)
        ensures
            ok == self.image_count_wf(),
    {
        self.min_image_count < u32::MAX || self.max_image_count != 0
    }

    /// Tests [`SurfaceCapabilities::wf`].
    pub fn is_wf(&self) -> (ok: bool)
        ensures
            ok == self.wf(),
    {
        self.is_extent_wf() && self.is_image_count_wf()
    }
}

/// The swapchain's extent: the surface's fixed extent if it has one, else
/// the window's size moved into the allowed interval in each direction.
pub open spec fn spec_choose_extent(
    win_width: u32,
    win_height: u32,
    capabilities: SurfaceCapabilities,
) -> Extent2D {
    if !capabilities.spec_extent_is_free() {
        capabilities.current_extent
    } else {
        Extent2D {
            width: spec_clamp(
                win_width,
                capabilities.min_image_extent.width,
                capabilities.max_image_extent.width,
            ),
            height: spec_clamp(
                win_height,
                capabilities.min_image_extent.height,
                capabilities.max_image_extent.height,
            ),
        }
    }
}

/// A free extent lies within the surface's bounds: a window larger than
/// the largest allowed extent is cut down to it, a smaller one than the
/// smallest is raised to it, and a window within the bounds keeps its size.
pub proof fn lemma_extent_within_bounds(
    win_width: u32,
    win_height: u32,
    capabilities: SurfaceCapabilities,
)
    requires
        capabilities.extent_wf(),
        capabilities.spec_extent_is_free(),
    ensures
        ({
            let chosen = spec_choose_extent(win_width, win_height, capabilities);
            let min = capabilities.min_image_extent;
            let max = capabilities.max_image_extent;
            &&& min.width <= chosen.width <= max.width
            &&& min.height <= chosen.height <= max.height
            &&& win_width > max.width ==> chosen.width == max.width
            &&& win_width < min.width ==> chosen.width == min.width
            &&& min.width <= win_width <= max.width ==> chosen.width == win_width
            &&& win_height > max.height ==> chosen.height == max.height
            &&& win_height < min.height ==> chosen.height == min.height
            &&& min.height <= win_height <= max.height ==> chosen.height == win_height
        }),
{
}

/// Chooses the extent of the swapchain for a window of `win_width` by
/// `win_height` pixels.
pub fn choose_swapchain_extent(
    win_width: u32,
    win_height: u32,
    capabilities: &SurfaceCapabilities,
) -> (extent: Extent2D)
    requires
        capabilities.extent_wf(),
    ensures
        extent == spec_choose_extent(win_width, win_height, *capabilities),
{
    if capabilities.current_extent.width != u32::MAX {
        return capabilities.current_extent;
    }
    let min = capabilities.min_image_extent;
    let max = capabilities.max_image_extent;
    Extent2D {
        width: clamp(win_width, min.width, max.width),
        height: clamp(win_height, min.height, max.height),
    }
}

/// The number of images to ask for: one more than the surface's minimum,
/// but no more than its maximum where it has one.
pub open spec fn spec_image_count(capabilities: SurfaceCapabilities) -> int {
    let wanted = capabilities.min_image_count + 1;
    if wanted > capabilities.max_image_count && capabilities.max_image_count != 0 {
        capabilities.max_image_count as int
    } else {
        wanted
    }
}

/// Chooses the number of images to ask for.
pub fn choose_image_count(capabilities: &SurfaceCapabilities) -> (count: u32)
    requires
        capabilities.image_count_wf(),
    ensures
        count == spec_image_count(*capabilities),
{
    let max_image_count = capabilities.max_image_count;
    if max_image_count != 0 && capabilities.min_image_count >= max_image_count {
        max_image_count
    } else {
        capabilities.min_image_count + 1
    }
}

/// How the swapchain's images are shared between queue families.
#[derive(Clone, Copy, Debug, PartialEq, Eq, Structural)]
pub enum SharingMode {
    Exclusive,
    Concurrent,
}

/// Images are owned by one family when drawing and presenting use the same
/// family, and shared between the two otherwise.
pub open spec fn spec_sharing_mode(graphics: u32, present: u32) -> SharingMode {
    if graphics == present {
        SharingMode::Exclusive
    } else {
        SharingMode::Concurrent
    }
}

/// The families that share the images: none under exclusive ownership, else
/// the graphics family and then the present family.
pub open spec fn spec_sharing_families(graphics: u32, present: u32) -> Seq<u32> {
    if graphics == present {
        Seq::empty()
    } else {
        seq![graphics, present]
    }
}

/// Chooses how the images are shared between the graphics and the present
/// family, and by which families.
pub fn choose_sharing_mode(graphics: u32, present: u32) -> (sharing: (SharingMode, Vec<u32>))
    ensures
        sharing.0 == spec_sharing_mode(graphics, present),
        sharing.1@ == spec_sharing_families(graphics, present),
{
    if graphics == present {
        (SharingMode::Exclusive, Vec::new())
    } else {
        let mut families: Vec<u32> = Vec::new();
        families.push(graphics);
        families.push(present);
        assert(families@ =~= spec_sharing_families(graphics, present));
        (SharingMode::Concurrent, families)
    }
}

/// The parameters that a swapchain is created with.
pub struct SwapchainConfig {
    pub min_image_count: u32,
    pub format: SurfaceFormat,
    pub extent: Extent2D,
    pub image_usage: u32,
    pub sharing_mode: SharingMode,
    /// The families that share the images; empty under exclusive ownership.
    pub queue_family_indices: Vec<u32>,
    pub pre_transform: u32,
    pub composite_alpha: u32,
    pub present_mode: i32,
    pub clipped: bool,
    pub image_array_layers: u32,
}

/// Whether `config` holds the parameters of a swapchain of the format
/// `format` and the extent `extent` on a surface of the capabilities
/// `capabilities` that reports the presentation modes `modes`, for a device
/// that draws and presents with `families`, under the preference `policy`.
pub open spec fn spec_is_swapchain_config(
    config: SwapchainConfig,
    capabilities: SurfaceCapabilities,
    format: SurfaceFormat,
    extent: Extent2D,
    policy: Seq<i32>,
    modes: Seq<i32>,
    families: QueueFamilyIndices,
) -> bool {
    &&& config.min_image_count == spec_image_count(capabilities)
    &&& config.format == format
    &&& config.extent == extent
    &&& config.image_usage == IMAGE_USAGE_COLOR_ATTACHMENT
    &&& config.sharing_mode == spec_sharing_mode(families.graphics->0, families.present->0)
    &&& config.queue_family_indices@ == spec_sharing_families(
        families.graphics->0,
        families.present->0,
    )
    &&& config.pre_transform == capabilities.current_transform
    &&& config.composite_alpha == COMPOSITE_ALPHA_OPAQUE
    &&& exists|k: int| is_chosen_mode(policy, modes, k) && config.present_mode == #[trigger] modes[k]
    &&& config.clipped
    &&& config.image_array_layers == 1
}

/// Puts together the parameters of the swapchain: one image more than the
/// surface's minimum, capped at its maximum; colour-attachment images of one
/// layer in the chosen format and extent; the surface's current transform,
/// opaque, clipped; ownership by the graphics and present families; and the
/// best presentation mode that the surface reports under `policy`. Fails
/// exactly when the surface reports no presentation mode.
pub fn swapchain_config(
    capabilities: &SurfaceCapabilities,
    format: SurfaceFormat,
    extent: Extent2D,
    policy: &Vec<i32>,
    modes: &Vec<i32>,
    families: &QueueFamilyIndices,
) -> (made: Result<SwapchainConfig, SetupError>)
    requires
        capabilities.image_count_wf(),
        families.spec_can_render(),
        policy.len() < u32::MAX,
    ensures
        match made {
            Ok(config) => spec_is_swapchain_config(
                config,
                *capabilities,
                format,
                extent,
                policy@,
                modes@,
                *families,
            ),
            Err(e) => e == SetupError::NoPresentMode && modes.len() == 0,
        },
{
    let image_count = choose_image_count(capabilities);
    let present_mode = match choose_present_mode_by(policy, modes) {
        Ok(mode) => mode,
        Err(e) => {
            return Err(e);
        },
    };
    let gfx_queue_idx = families.graphics.unwrap();
    let present_queue_idx = families.present.unwrap();
    let (sharing_mode, queue_family_indices) = choose_sharing_mode(gfx_queue_idx, present_queue_idx);
    Ok(
        SwapchainConfig {
            min_image_count: image_count,
            format,
            extent,
            image_usage: IMAGE_USAGE_COLOR_ATTACHMENT,
            sharing_mode,
            queue_family_indices,
            pre_transform: capabilities.current_transform,
            composite_alpha: COMPOSITE_ALPHA_OPAQUE,
            present_mode,
            clipped: true,
            image_array_layers: 1,
        },
    )
}

/// The parameters that the view of one image is created with.
#[derive(Clone, Copy, Debug, PartialEq, Eq, Structural)]
pub struct ImageViewConfig {
    pub image: u64,
    pub view_type: i32,
    pub format: i32,
    /// The mapping of each of the four channels.
    pub swizzle: i32,
    pub aspect_mask: u32,
    pub base_mip_level: u32,
    pub level_count: u32,
    pub base_array_layer: u32,
    pub layer_count: u32,
}

/// The view of a swapchain image: two-dimensional, every channel where it
/// is, the colour aspect, one mip level and one layer.
pub open spec fn spec_swapchain_image_view(image: u64, format: i32) -> ImageViewConfig {
    ImageViewConfig {
        image,
        view_type: IMAGE_VIEW_TYPE_2D,
        format,
        swizzle: COMPONENT_SWIZZLE_IDENTITY,
        aspect_mask: IMAGE_ASPECT_COLOR,
        base_mip_level: 0,
        level_count: 1,
        base_array_layer: 0,
        layer_count: 1,
    }
}

/// The parameters of an image view over `mip_levels` levels of `image`.
pub fn image_view_config(image: u64, format: i32, aspect_mask: u32, mip_levels: u32) -> (config:
    ImageViewConfig)
    ensures
        config == (ImageViewConfig {
            image,
            view_type: IMAGE_VIEW_TYPE_2D,
            format,
            swizzle: COMPONENT_SWIZZLE_IDENTITY,
            aspect_mask,
            base_mip_level: 0,
            level_count: mip_levels,
            base_array_layer: 0,
            layer_count: 1,
        }),
{
    ImageViewConfig {
        image,
        view_type: IMAGE_VIEW_TYPE_2D,
        format,
        swizzle: COMPONENT_SWIZZLE_IDENTITY,
        aspect_mask,
        base_mip_level: 0,
        level_count: mip_levels,
        base_array_layer: 0,
        layer_count: 1,
    }
}

/// The parameters of the views of the swapchain's images, image by image.
pub fn image_view_configs(format: SurfaceFormat, images: &Vec<u64>) -> (configs: Vec<
    ImageViewConfig,
>)
    ensures
        configs.len() == images.len(),
        forall|i: int|
            0 <= i < images.len() ==> #[trigger] configs[i] == spec_swapchain_image_view(
                images[i],
                format.format,
            ),
{
    let mut configs: Vec<ImageViewConfig> = Vec::with_capacity(images.len());
    let mut i: usize = 0;
    while i < images.len()
        invariant
            0 <= i <= images.len(),
            configs.len() == i,
            forall|j: int|
                0 <= j < i ==> #[trigger] configs[j] == spec_swapchain_image_view(
                    images[j],
                    format.format,
                ),
        decreases images.len() - i,
    {
        configs.push(image_view_config(images[i], format.format, IMAGE_ASPECT_COLOR, 1));
        i += 1;
    }
    configs
}

/// Chooses all parameters of the swapchain for a window of `win_width` by
/// `win_height` pixels: the format, then the extent, then the rest.
///
/// Fails when the surface reports no format, and else when it reports no
/// presentation mode.
pub fn plan_swapchain(
    capabilities: &SurfaceCapabilities,
    formats: &Vec<SurfaceFormat>,
    policy: &Vec<i32>,
    modes: &Vec<i32>,
    win_width: u32,
    win_height: u32,
    families: &QueueFamilyIndices,
) -> (made: Result<SwapchainConfig, SetupError>)
    requires
        capabilities.wf(),
        families.spec_can_render(),
        policy.len() < u32::MAX,
    ensures
        formats.len() == 0 ==> (made matches Err(e) && e == SetupError::NoSurfaceFormat),
        formats.len() > 0 && modes.len() == 0 ==> (made matches Err(e) && e
            == SetupError::NoPresentMode),
        formats.len() > 0 && modes.len() > 0 ==> (made matches Ok(config)
            && spec_is_swapchain_config(
            config,
            *capabilities,
            spec_choose_format(formats@),
            spec_choose_extent(win_width, win_height, *capabilities),
            policy@,
            modes@,
            *families,
        )),
{
    let format = match choose_swapchain_format(formats) {
        Ok(format) => format,
        Err(e) => {
            return Err(e);
        },
    };
    let extent = choose_swapchain_extent(win_width, win_height, capabilities);
    swapchain_config(capabilities, format, extent, policy, modes, families)
}

} // verus!
