use frame_loop::surface::{
    swapchain_config, Extent, ImageUsage, SurfaceCaps, SurfaceError, SwapchainConfig, SwapchainImages,
};

fn caps(min_image_count: u32, formats: Vec<u32>, composite_alphas: Vec<u32>) -> SurfaceCaps {
    SurfaceCaps { min_image_count, formats, composite_alphas }
}

#[test]
fn config_takes_first_format_and_alpha_and_one_extra_image() {
    let c = swapchain_config(&caps(2, vec![44, 50, 37], vec![1, 8]), Extent { width: 800, height: 600 });
    assert_eq!(
        c,
        Ok(SwapchainConfig {
            min_image_count: 3,
            format: 44,
            extent: Extent { width: 800, height: 600 },
            usage: ImageUsage::ColorAttachment,
            composite_alpha: 1,
        })
    );
}

#[test]
fn config_image_count_saturates() {
    let c = swapchain_config(&caps(u32::MAX, vec![1], vec![1]), Extent { width: 1, height: 1 }).unwrap();
    assert_eq!(c.min_image_count, u32::MAX);
}

#[test]
fn config_without_format_fails() {
    let c = swapchain_config(&caps(2, vec![], vec![1]), Extent { width: 800, height: 600 });
    assert_eq!(c, Err(SurfaceError::NoFormat));
}

#[test]
fn config_without_composite_alpha_fails() {
    let c = swapchain_config(&caps(2, vec![44], vec![]), Extent { width: 800, height: 600 });
    assert_eq!(c, Err(SurfaceError::NoCompositeAlpha));
    let both = swapchain_config(&caps(2, vec![], vec![]), Extent { width: 800, height: 600 });
    assert_eq!(both, Err(SurfaceError::NoCompositeAlpha));
}

#[test]
fn recreation_keeps_format_and_usage() {
    let c = swapchain_config(&caps(2, vec![44, 50], vec![2]), Extent { width: 800, height: 600 }).unwrap();
    let r1 = c.with_extent(Extent { width: 1024, height: 768 });
    let r2 = r1.with_extent(Extent { width: 640, height: 480 });
    for r in [r1, r2] {
        assert_eq!(r.format, 44);
        assert_eq!(r.usage, ImageUsage::ColorAttachment);
        assert_eq!(r.composite_alpha, 2);
        assert_eq!(r.min_image_count, 3);
    }
    assert_eq!(r1.extent, Extent { width: 1024, height: 768 });
    assert_eq!(r2.extent, Extent { width: 640, height: 480 });
}

#[test]
fn images_and_framebuffers_pair_up() {
    assert!(SwapchainImages::new(vec![1u8, 2, 3], vec!["a", "b"]).is_none());
    assert!(SwapchainImages::<u8, &str>::new(vec![], vec![]).is_none());
    let mut set = SwapchainImages::new(vec![1u8, 2, 3], vec!["a", "b", "c"]).unwrap();
    assert_eq!(set.image_count(), 3);
    let next = SwapchainImages::new(vec![7u8, 8], vec!["x", "y"]).unwrap();
    let retired = set.replace(next);
    assert_eq!(set.images(), &vec![7u8, 8]);
    assert_eq!(set.framebuffers(), &vec!["x", "y"]);
    assert_eq!(retired.images(), &vec![1u8, 2, 3]);
    assert_eq!(retired.framebuffers(), &vec!["a", "b", "c"]);
}
