//! Negotiation and bookkeeping of the presentable image chain.
use vstd::prelude::*;

use crate::renderer::resource::{DeviceError, Resource, ERROR_OUT_OF_DATE};
use crate::renderer::vkcontext::QueueFamilyIndices;

verus! {

/// Raw code of the format that stands for "no preference".
pub const FORMAT_UNDEFINED: i32 = 0;

/// Raw code of the 8-bit-per-channel BGRA format.
pub const FORMAT_B8G8R8A8_UNORM: i32 = 44;

/// Raw code of the standard nonlinear colour space.
pub const COLOR_SPACE_SRGB_NONLINEAR: i32 = 0;

/// Raw code of the uncapped present mode.
pub const PRESENT_MODE_IMMEDIATE: i32 = 0;

/// Raw code of the low-latency triple-buffered present mode.
pub const PRESENT_MODE_MAILBOX: i32 = 1;

/// Raw code of the vsync'd present mode.
pub const PRESENT_MODE_FIFO: i32 = 2;

/// Usage bit of an image that is rendered to as a colour attachment.
pub const IMAGE_USAGE_COLOR_ATTACHMENT: u32 = 0x10;

/// Composite-alpha bit of a surface that ignores the alpha channel.
pub const COMPOSITE_ALPHA_OPAQUE: u32 = 0x1;

/// Aspect bit of the colour part of an image.
pub const IMAGE_ASPECT_COLOR: u32 = 0x1;

/// Raw code of the two-dimensional image view type.
pub const IMAGE_VIEW_TYPE_2D: i32 = 1;

/// A pixel format together with the colour space it is shown in.
#[derive(Clone, Copy, Debug, PartialEq, Eq, Structural)]
pub struct SurfaceFormat {
    pub format: i32,
    pub color_space: i32,
}

/// A size in pixels.
#[derive(Clone, Copy, Debug, PartialEq, Eq, Structural)]
pub struct Extent2D {
    pub width: u32,
    pub height: u32,
}

/// What a surface reports of itself, as far as the negotiation reads it.
#[derive(Clone, Copy, Debug, PartialEq, Eq, Structural)]
pub struct SurfaceCapabilities {
    /// The fewest images a chain on this surface may have.
    pub min_image_count: u32,
    /// The most images a chain may have; zero declares no maximum.
    pub max_image_count: u32,
    /// The size of the surface now.
    pub current_extent: Extent2D,
    /// The transform the surface applies now, as a raw bit.
    pub current_transform: u32,
}

/// The properties a chain is created with.
#[derive(Clone, Copy, Debug, PartialEq, Eq, Structural)]
pub struct SwapchainProperties {
    pub format: SurfaceFormat,
    pub present_mode: i32,
    pub extent: Extent2D,
}

/// Everything a physical device reports about presenting to one surface.
#[derive(Debug, PartialEq, Eq)]
pub struct SwapchainSupportDetails {
    pub capabilities: SurfaceCapabilities,
    pub formats: Vec<SurfaceFormat>,
    pub present_modes: Vec<i32>,
}

/// How the images of a chain are shared between queue families.
#[derive(Clone, Copy, Debug, PartialEq, Eq, Structural)]
pub enum SharingMode {
    /// One queue family owns an image at a time.
    Exclusive,
    /// The listed queue families use the images side by side.
    Concurrent,
}

/// The full description from which the device creates a chain.
#[derive(Debug, PartialEq, Eq)]
pub struct SwapchainCreateInfo {
    pub min_image_count: u32,
    pub image_format: i32,
    pub image_color_space: i32,
    pub image_extent: Extent2D,
    pub image_array_layers: u32,
    pub image_usage: u32,
    pub image_sharing_mode: SharingMode,
    /// The families that share the images; empty unless the mode is concurrent.
    pub queue_family_indices: Vec<u32>,
    pub pre_transform: u32,
    pub composite_alpha: u32,
    pub present_mode: i32,
    pub clipped: bool,
}

/// The description from which the device creates the view of one chain image.
#[derive(Clone, Copy, Debug, PartialEq, Eq, Structural)]
pub struct ImageViewInfo {
    pub image: u64,
    pub view_type: i32,
    pub format: i32,
    pub aspect_mask: u32,
    pub mip_levels: u32,
}

/// The format the renderer wants: 8-bit BGRA in the standard nonlinear space.
pub open spec fn preferred_format() -> SurfaceFormat {
    SurfaceFormat { format: FORMAT_B8G8R8A8_UNORM, color_space: COLOR_SPACE_SRGB_NONLINEAR }
}

/// The format chosen from what a surface offers: the preferred one if the
/// surface leaves the choice open (a lone undefined placeholder) or offers it,
/// otherwise whatever is listed first.
pub open spec fn ideal_format(available: Seq<SurfaceFormat>) -> SurfaceFormat
    recommends
        available.len() > 0,
{
    if available.len() == 1 && available[0].format == FORMAT_UNDEFINED {
        preferred_format()
    } else if available.contains(preferred_format()) {
        preferred_format()
    } else {
        available[0]
    }
}

/// The present mode chosen from what a surface offers: mailbox before FIFO
/// before immediate, the last even when it is not offered.
pub open spec fn ideal_present_mode(available: Seq<i32>) -> i32 {
    if available.contains(PRESENT_MODE_MAILBOX) {
        PRESENT_MODE_MAILBOX
    } else if available.contains(PRESENT_MODE_FIFO) {
        PRESENT_MODE_FIFO
    } else {
        PRESENT_MODE_IMMEDIATE
    }
}

/// The number of images to ask for: one more than the minimum, capped by the
/// maximum where one is declared.
pub open spec fn ideal_image_count(capabilities: SurfaceCapabilities) -> int {
    let wanted = capabilities.min_image_count + 1;
    if capabilities.max_image_count > 0 && wanted > capabilities.max_image_count {
        capabilities.max_image_count as int
    } else {
        wanted
    }
}

impl SurfaceCapabilities {
    /// The number of images to ask for, see [`ideal_image_count`].
    ///
    /// Without a declared maximum the count is one past the minimum, which
    /// must then fit the integer type.
    pub fn image_count(&self) -> (count: u32)
        requires
            self.max_image_count == 0 ==> self.min_image_count < u32::MAX,
        ensures
            count == ideal_image_count(*self),
    {
        if self.max_image_count > 0 && self.min_image_count >= self.max_image_count {
            self.max_image_count
        } else {
            self.min_image_count + 1
        }
    }
}

impl SwapchainSupportDetails {
    /// The properties to create a chain with, given what the surface supports.
    pub fn get_ideal_swapchain_properties(&self) -> (properties: SwapchainProperties)
        requires
            self.formats@.len() > 0,
        ensures
            properties.format == ideal_format(self.formats@),
            properties.present_mode == ideal_present_mode(self.present_modes@),
            properties.extent == self.capabilities.current_extent,
    {
        let format = Self::choose_swapchain_surface_format(self.formats.as_slice());
        let present_mode = Self::choose_swapchain_surface_present_mode(
            self.present_modes.as_slice(),
        );
        let extent = Self::choose_swapchain_extent(self.capabilities);
        SwapchainProperties { format, present_mode, extent }
    }

    /// Chooses the surface format, see [`ideal_format`].
    pub fn choose_swapchain_surface_format(available_formats: &[SurfaceFormat]) -> (chosen:
        SurfaceFormat)
        requires
            available_formats@.len() > 0,
        ensures
            chosen == ideal_format(available_formats@),
    {
        if available_formats.len() == 1 && available_formats[0].format == FORMAT_UNDEFINED {
            return SurfaceFormat {
                format: FORMAT_B8G8R8A8_UNORM,
                color_space: COLOR_SPACE_SRGB_NONLINEAR,
            };
        }
        let mut i: usize = 0;
        while i < available_formats.len()
            invariant
                i <= available_formats@.len(),
                forall|j: int| 0 <= j < i ==> available_formats@[j] != preferred_format(),
            decreases available_formats@.len() - i,
        {
            let candidate = available_formats[i];
            if candidate.format == FORMAT_B8G8R8A8_UNORM && candidate.color_space
                == COLOR_SPACE_SRGB_NONLINEAR {
                assert(available_formats@[i as int] == preferred_format());
                return candidate;
            }
            i = i + 1;
        }
        available_formats[0]
    }

    /// Chooses the present mode, see [`ideal_present_mode`].
    pub fn choose_swapchain_surface_present_mode(available_present_modes: &[i32]) -> (chosen: i32)
        ensures
            chosen == ideal_present_mode(available_present_modes@),
    {
        if slice_contains(available_present_modes, PRESENT_MODE_MAILBOX) {
            PRESENT_MODE_MAILBOX
        } else if slice_contains(available_present_modes, PRESENT_MODE_FIFO) {
            PRESENT_MODE_FIFO
        } else {
            PRESENT_MODE_IMMEDIATE
        }
    }

    /// Chooses the extent: the size the surface reports now, taken as it is.
    pub fn choose_swapchain_extent(capabilities: SurfaceCapabilities) -> (extent: Extent2D)
        ensures
            extent == capabilities.current_extent,
    {
        capabilities.current_extent
    }
}

/// Whether `wanted` occurs in `values`.
fn slice_contains(values: &[i32], wanted: i32) -> (found: bool)
    ensures
        found == values@.contains(wanted),
{
    let mut i: usize = 0;
    while i < values.len()
        invariant
            i <= values@.len(),
            forall|j: int| 0 <= j < i ==> values@[j] != wanted,
        decreases values@.len() - i,
    {
        if values[i] == wanted {
            assert(values@[i as int] == wanted);
            return true;
        }
        i = i + 1;
    }
    false
}

/// How chain images are shared: side by side when graphics and presentation
/// use different queue families, exclusively when they use the same.
pub open spec fn ideal_sharing_mode(indices: QueueFamilyIndices) -> SharingMode {
    if indices.graphics_index != indices.present_index {
        SharingMode::Concurrent
    } else {
        SharingMode::Exclusive
    }
}

/// The families named to the device for sharing: both when sharing is
/// concurrent, none when it is exclusive.
pub open spec fn sharing_families(indices: QueueFamilyIndices) -> Seq<u32> {
    if indices.graphics_index != indices.present_index {
        seq![indices.graphics_index, indices.present_index]
    } else {
        Seq::empty()
    }
}

/// The view of one chain image: two-dimensional, the colour aspect, a single
/// mip level, in the format of the chain.
pub open spec fn image_view_of(image: u64, format: i32) -> ImageViewInfo {
    ImageViewInfo {
        image,
        view_type: IMAGE_VIEW_TYPE_2D,
        format,
        aspect_mask: IMAGE_ASPECT_COLOR,
        mip_levels: 1,
    }
}

/// The teardown of a chain: every image view, then the chain itself.
pub open spec fn swapchain_teardown(image_views: Seq<u64>, handle: u64) -> Seq<Resource> {
    image_views.map_values(|view: u64| Resource::ImageView(view)).push(Resource::Swapchain(handle))
}

/// The presentable image chain as the renderer keeps track of it.
///
/// The images belong to the chain and go with it; the views are the
/// renderer's own, one per image, and have to go before the chain does.
#[derive(Debug, PartialEq, Eq)]
pub struct Swapchain {
    /// Set once the device has reported that the chain no longer matches its
    /// surface. The chain is then to be destroyed and created anew.
    pub out_of_date: bool,
    pub image_views: Vec<u64>,
    pub images: Vec<u64>,
    pub swapchain_properties: SwapchainProperties,
    pub handle: u64,
}

impl Swapchain {
    /// Every image has its view.
    pub open spec fn wf(&self) -> bool {
        self.image_views@.len() == self.images@.len()
    }

    /// Describes the chain to create for a surface with the given support.
    pub fn create_info(
        details: &SwapchainSupportDetails,
        queue_family_indices: QueueFamilyIndices,
    ) -> (info: SwapchainCreateInfo)
        requires
            details.formats@.len() > 0,
            details.capabilities.max_image_count == 0 ==> details.capabilities.min_image_count
                < u32::MAX,
        ensures
            info.min_image_count == ideal_image_count(details.capabilities),
            info.image_format == ideal_format(details.formats@).format,
            info.image_color_space == ideal_format(details.formats@).color_space,
            info.image_extent == details.capabilities.current_extent,
            info.image_array_layers == 1,
            info.image_usage == IMAGE_USAGE_COLOR_ATTACHMENT,
            info.image_sharing_mode == ideal_sharing_mode(queue_family_indices),
            info.queue_family_indices@ == sharing_families(queue_family_indices),
            info.pre_transform == details.capabilities.current_transform,
            info.composite_alpha == COMPOSITE_ALPHA_OPAQUE,
            info.present_mode == ideal_present_mode(details.present_modes@),
            info.clipped,
    {
        let properties = details.get_ideal_swapchain_properties();
        let image_count = details.capabilities.image_count();
        let graphics = queue_family_indices.graphics_index;
        let present = queue_family_indices.present_index;
        let mut families: Vec<u32> = Vec::new();
        let image_sharing_mode = if graphics != present {
            families.push(graphics);
            families.push(present);
            SharingMode::Concurrent
        } else {
            SharingMode::Exclusive
        };
        assert(families@ =~= sharing_families(queue_family_indices));
        SwapchainCreateInfo {
            min_image_count: image_count,
            image_format: properties.format.format,
            image_color_space: properties.format.color_space,
            image_extent: properties.extent,
            image_array_layers: 1,
            image_usage: IMAGE_USAGE_COLOR_ATTACHMENT,
            image_sharing_mode,
            queue_family_indices: families,
            pre_transform: details.capabilities.current_transform,
            composite_alpha: COMPOSITE_ALPHA_OPAQUE,
            present_mode: properties.present_mode,
            clipped: true,
        }
    }

    /// Describes the views to create for the images of a chain: one per
    /// image, in the order of the images.
    pub fn image_view_infos(images: &Vec<u64>, format: i32) -> (infos: Vec<ImageViewInfo>)
        ensures
            infos@.len() == images@.len(),
            forall|i: int|
                0 <= i < images@.len() ==> #[trigger] infos@[i] == image_view_of(images@[i], format),
    {
        let mut infos: Vec<ImageViewInfo> = Vec::new();
        let mut i: usize = 0;
        while i < images.len()
            invariant
                i <= images@.len(),
                infos@.len() == i,
                forall|j: int| 0 <= j < i ==> #[trigger] infos@[j] == image_view_of(images@[j], format),
            decreases images@.len() - i,
        {
            infos.push(
                ImageViewInfo {
                    image: images[i],
                    view_type: IMAGE_VIEW_TYPE_2D,
                    format,
                    aspect_mask: IMAGE_ASPECT_COLOR,
                    mip_levels: 1,
                },
            );
            i = i + 1;
        }
        infos
    }

    /// Records a chain the device has created. There must be one view per
    /// image; otherwise nothing is recorded.
    pub fn new(
        handle: u64,
        images: Vec<u64>,
        image_views: Vec<u64>,
        swapchain_properties: SwapchainProperties,
    ) -> (swapchain: Option<Self>)
        ensures
            swapchain is Some <==> image_views@.len() == images@.len(),
            swapchain matches Some(s) ==> s == (Swapchain {
                out_of_date: false,
                image_views,
                images,
                swapchain_properties,
                handle,
            }) && s.wf(),
    {
        if image_views.len() == images.len() {
            Some(Swapchain { out_of_date: false, image_views, images, swapchain_properties, handle })
        } else {
            None
        }
    }

    /// What to destroy when the chain goes away: all image views first, then
    /// the chain.
    pub fn destroy(&self) -> (teardown: Vec<Resource>)
        ensures
            teardown@ == swapchain_teardown(self.image_views@, self.handle),
    {
        let mut teardown: Vec<Resource> = Vec::new();
        let mut i: usize = 0;
        while i < self.image_views.len()
            invariant
                i <= self.image_views@.len(),
                teardown@.len() == i,
                forall|j: int|
                    0 <= j < i ==> #[trigger] teardown@[j] == Resource::ImageView(self.image_views@[j]),
            decreases self.image_views@.len() - i,
        {
            teardown.push(Resource::ImageView(self.image_views[i]));
            i = i + 1;
        }
        teardown.push(Resource::Swapchain(self.handle));
        assert(teardown@ =~= swapchain_teardown(self.image_views@, self.handle));
        teardown
    }

    /// Takes in what the device answered to a request for the next image.
    ///
    /// An image index is passed on. An out-of-date chain is an expected
    /// condition: it is noted in [`Self::out_of_date`] and reported as `None`.
    /// Any other refusal is an error the renderer cannot recover from.
    pub fn acquire_next_image_index(&mut self, acquired: Result<(u32, bool), i32>) -> (next: Result<
        Option<u32>,
        DeviceError,
    >)
        ensures
            next == acquire_outcome(acquired),
            *final(self) == (Swapchain {
                out_of_date: old(self).out_of_date || is_stale(acquired),
                ..*old(self)
            }),
    {
        match acquired {
            Ok((image_index, _)) => Ok(Some(image_index)),
            Err(code) => {
                if code == ERROR_OUT_OF_DATE {
                    self.out_of_date = true;
                    Ok(None)
                } else {
                    Err(DeviceError { code })
                }
            },
        }
    }

    /// Takes in what the device answered to a request to present an image.
    ///
    /// `true` says the image was handed over for display. An out-of-date
    /// chain is noted in [`Self::out_of_date`] and reported as `false`. Any
    /// other refusal is an error the renderer cannot recover from.
    pub fn present(&mut self, presented: Result<bool, i32>) -> (shown: Result<bool, DeviceError>)
        ensures
            shown == present_outcome(presented),
            *final(self) == (Swapchain {
                out_of_date: old(self).out_of_date || is_stale(presented),
                ..*old(self)
            }),
    {
        match presented {
            Ok(_) => Ok(true),
            Err(code) => {
                if code == ERROR_OUT_OF_DATE {
                    self.out_of_date = true;
                    Ok(false)
                } else {
                    Err(DeviceError { code })
                }
            },
        }
    }
}

/// Whether a device answer reports an out-of-date chain.
pub open spec fn is_stale<T>(answer: Result<T, i32>) -> bool {
    answer == Err::<T, i32>(ERROR_OUT_OF_DATE)
}

/// What an answer to an acquire request amounts to: the image index, `None`
/// for an out-of-date chain, the error for anything else.
pub open spec fn acquire_outcome(acquired: Result<(u32, bool), i32>) -> Result<
    Option<u32>,
    DeviceError,
> {
    match acquired {
        Ok((image_index, _)) => Ok(Some(image_index)),
        Err(code) => if code == ERROR_OUT_OF_DATE {
            Ok(None)
        } else {
            Err(DeviceError { code })
        },
    }
}

/// What an answer to a present request amounts to: `true` for a presented
/// image, `false` for an out-of-date chain, the error for anything else.
pub open spec fn present_outcome(presented: Result<bool, i32>) -> Result<bool, DeviceError> {
    match presented {
        Ok(_) => Ok(true),
        Err(code) => if code == ERROR_OUT_OF_DATE {
            Ok(false)
        } else {
            Err(DeviceError { code })
        },
    }
}

} // verus!
