use frame_loop::recorder::{command_plan, frame_command_list, Command};

#[test]
fn one_draw_frame() {
    assert_eq!(
        frame_command_list(2, 3, 1),
        vec![
            Command::BeginRenderPass { framebuffer: 2 },
            Command::BindPipeline,
            Command::BindVertexBuffer { binding: 0 },
            Command::PushConstants { draw: 0 },
            Command::Draw { vertex_count: 3, instance_count: 1 },
            Command::EndRenderPass,
        ]
    );
}

#[test]
fn four_draw_frame() {
    let cmds = frame_command_list(0, 3, 4);
    assert_eq!(cmds.len(), 12);
    for k in 0..4u32 {
        assert_eq!(cmds[3 + 2 * k as usize], Command::PushConstants { draw: k });
        assert_eq!(cmds[4 + 2 * k as usize], Command::Draw { vertex_count: 3, instance_count: 1 });
    }
    assert_eq!(cmds[11], Command::EndRenderPass);
}

#[test]
fn plan_has_one_list_per_framebuffer() {
    let plan = command_plan(3, 3, 1);
    assert_eq!(plan.len(), 3);
    for (i, cmds) in plan.iter().enumerate() {
        assert_eq!(cmds, &frame_command_list(i, 3, 1));
    }
    assert!(command_plan(0, 3, 1).is_empty());
}
