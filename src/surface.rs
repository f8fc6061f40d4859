use vstd::prelude::*;

verus! {

/// Width and height of a window or of swapchain images, in pixels.
#[derive(Clone, Copy, Debug, PartialEq, Eq, Structural)]
pub struct Extent {
    pub width: u32,
    pub height: u32,
}

/// How swapchain images are used.
#[derive(Clone, Copy, Debug, PartialEq, Eq, Structural)]
pub enum ImageUsage {
    /// Rendered to as the color attachment of a render pass.
    ColorAttachment,
}

/// What the surface reports of itself.
#[derive(Clone, Debug)]
pub struct SurfaceCaps {
    /// The least number of images a swapchain on this surface may have.
    pub min_image_count: u32,
    /// Supported image formats in the order the surface reports them, each
    /// as a code that the caller maps back to the format.
    pub formats: Vec<u32>,
    /// Supported composite-alpha modes in the order the surface reports them,
    /// each as a code that the caller maps back to the mode.
    pub composite_alphas: Vec<u32>,
}

/// The parameters a swapchain is created with.
#[derive(Clone, Copy, Debug, PartialEq, Eq, Structural)]
pub struct SwapchainConfig {
    /// The number of images asked for; the driver may clamp it.
    pub min_image_count: u32,
    pub format: u32,
    pub extent: Extent,
    pub usage: ImageUsage,
    pub composite_alpha: u32,
}

/// Why a swapchain cannot be configured for a surface.
#[derive(Clone, Copy, Debug, PartialEq, Eq, Structural)]
pub enum SurfaceError {
    /// The surface reports no composite-alpha mode.
    NoCompositeAlpha,
    /// The surface reports no image format.
    NoFormat,
}

/// One image more than the surface's minimum, so that one can be drawn
/// while the others are queued for presentation.
pub open spec fn requested_image_count(min_image_count: u32) -> u32 {
    if min_image_count < u32::MAX {
        (min_image_count + 1) as u32
    } else {
        min_image_count
    }
}

/// The swapchain parameters for a surface with capabilities `caps` and a window
/// of size `extent`: the first format and the first composite-alpha mode that
/// the surface reports.
pub open spec fn config_for(caps: SurfaceCaps, extent: Extent) -> SwapchainConfig {
    SwapchainConfig {
        min_image_count: requested_image_count(caps.min_image_count),
        format: caps.formats@[0],
        extent,
        usage: ImageUsage::ColorAttachment,
        composite_alpha: caps.composite_alphas@[0],
    }
}

/// The result of `swapchain_config`.
pub open spec fn config_result(caps: SurfaceCaps, extent: Extent) -> Result<
    SwapchainConfig,
    SurfaceError,
> {
    if caps.composite_alphas@.len() == 0 {
        Err(SurfaceError::NoCompositeAlpha)
    } else if caps.formats@.len() == 0 {
        Err(SurfaceError::NoFormat)
    } else {
        Ok(config_for(caps, extent))
    }
}

/// Chooses the parameters of a new swapchain for a window of size `extent`.
pub fn swapchain_config(caps: &SurfaceCaps, extent: Extent) -> (r: Result<
    SwapchainConfig,
    SurfaceError,
>)
    ensures
        r == config_result(*caps, extent),
{
    if caps.composite_alphas.len() == 0 {
        return Err(SurfaceError::NoCompositeAlpha);
    }
    if caps.formats.len() == 0 {
        return Err(SurfaceError::NoFormat);
    }
    let min_image_count = if caps.min_image_count < u32::MAX {
        caps.min_image_count + 1
    } else {
        caps.min_image_count
    };
    Ok(
        SwapchainConfig {
            min_image_count,
            format: caps.formats[0],
            extent,
            usage: ImageUsage::ColorAttachment,
            composite_alpha: caps.composite_alphas[0],
        },
    )
}

impl SwapchainConfig {
    /// The same parameters with the image extent replaced.
    pub open spec fn resized(self, extent: Extent) -> SwapchainConfig {
        SwapchainConfig { extent, ..self }
    }

    /// The parameters for recreating the swapchain at a new size: everything
    /// but the extent is kept.
    pub fn with_extent(&self, extent: Extent) -> (r: SwapchainConfig)
        ensures
            r == self.resized(extent),
    {
        SwapchainConfig { extent, ..*self }
    }
}

/// The images of a swapchain and one framebuffer per image, replaced together.
pub struct SwapchainImages<I, F> {
    images: Vec<I>,
    framebuffers: Vec<F>,
}

impl<I, F> SwapchainImages<I, F> {
    pub closed spec fn images_view(&self) -> Seq<I> {
        self.images@
    }

    pub closed spec fn framebuffers_view(&self) -> Seq<F> {
        self.framebuffers@
    }

    /// There is at least one image, and as many framebuffers as images.
    pub open spec fn wf(&self) -> bool {
        &&& self.images_view().len() > 0
        &&& self.framebuffers_view().len() == self.images_view().len()
    }

    /// Pairs `images` with `framebuffers`, the i-th framebuffer bound to the
    /// i-th image; `None` when there are no images or the counts differ.
    pub fn new(images: Vec<I>, framebuffers: Vec<F>) -> (r: Option<Self>)
        ensures
            r.is_some() <==> (images@.len() > 0 && framebuffers@.len() == images@.len()),
            match r {
                Some(set) => set.wf() && set.images_view() == images@ && set.framebuffers_view()
                    == framebuffers@,
                None => true,
            },
    {
        if images.len() > 0 && framebuffers.len() == images.len() {
            Some(SwapchainImages { images, framebuffers })
        } else {
            None
        }
    }

    pub fn image_count(&self) -> (r: usize)
        ensures
            r == self.images_view().len(),
    {
        self.images.len()
    }

    pub fn images(&self) -> (r: &Vec<I>)
        ensures
            r@ == self.images_view(),
    {
        &self.images
    }

    pub fn framebuffers(&self) -> (r: &Vec<F>)
        ensures
            r@ == self.framebuffers_view(),
    {
        &self.framebuffers
    }

    /// Installs `next` in place of the current set, all at once, and hands the
    /// retired set back so that it can be released once no submission uses it.
    pub fn replace(&mut self, next: Self) -> (retired: Self)
        ensures
            final(self).images_view() == next.images_view(),
            final(self).framebuffers_view() == next.framebuffers_view(),
            retired.images_view() == old(self).images_view(),
            retired.framebuffers_view() == old(self).framebuffers_view(),
    {
        let mut next = next;
        std::mem::swap(self, &mut next);
        next
    }
}

/// Recreating a swapchain any number of times keeps its format, usage,
/// composite-alpha mode and requested image count; the last extent given is
/// the one in force.
pub proof fn lemma_recreation_keeps_parameters(c: SwapchainConfig, extents: Seq<Extent>)
    requires
        extents.len() > 0,
    ensures
        ({
            let last = extents.fold_left(c, |acc: SwapchainConfig, e: Extent| acc.resized(e));
            &&& last.format == c.format
            &&& last.usage == c.usage
            &&& last.composite_alpha == c.composite_alpha
            &&& last.min_image_count == c.min_image_count
            &&& last.extent == extents.last()
        }),
    decreases extents.len(),
{
    let f = |acc: SwapchainConfig, e: Extent| acc.resized(e);
    if extents.len() > 1 {
        lemma_recreation_keeps_parameters(c, extents.drop_last());
    }
    assert(extents.fold_left(c, f) == f(extents.drop_last().fold_left(c, f), extents.last()));
}

} // verus!
