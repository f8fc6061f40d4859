use frame_loop::pipeline::{
    pipeline_config, render_pass_config, CullMode, LoadOp, PipelineConfig, PolygonMode, RenderPassConfig,
    StoreOp, Topology,
};
use frame_loop::surface::Extent;

#[test]
fn render_pass_has_one_cleared_color_attachment() {
    assert_eq!(
        render_pass_config(44),
        RenderPassConfig {
            color_format: 44,
            samples: 1,
            load_op: LoadOp::Clear,
            store_op: StoreOp::Store,
            color_attachments: 1,
            has_depth_stencil: false,
        }
    );
}

#[test]
fn pipeline_fixed_function_state() {
    let rp = render_pass_config(44);
    let p = pipeline_config(&rp, Extent { width: 800, height: 600 });
    assert_eq!(
        p,
        PipelineConfig {
            viewport: Extent { width: 800, height: 600 },
            viewport_count: 1,
            topology: Topology::TriangleList,
            polygon_mode: PolygonMode::Fill,
            cull_mode: CullMode::NoCulling,
            samples: 1,
            blend_attachments: 1,
            subpass: 0,
        }
    );
}

#[test]
fn pipeline_built_twice_is_the_same() {
    let rp = render_pass_config(44);
    let e = Extent { width: 1024, height: 768 };
    assert_eq!(pipeline_config(&rp, e), pipeline_config(&rp, e));
    let other = pipeline_config(&rp, Extent { width: 640, height: 480 });
    assert_eq!(PipelineConfig { viewport: e, ..other }, pipeline_config(&rp, e));
}
