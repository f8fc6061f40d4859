use vstd::prelude::*;

verus! {

/// One step of a recorded command buffer.
#[derive(Clone, Copy, Debug, PartialEq, Eq, Structural)]
pub enum Command {
    /// Begin the render pass on the given framebuffer, clearing it to the
    /// fixed clear color.
    BeginRenderPass { framebuffer: usize },
    BindPipeline,
    BindVertexBuffer { binding: u32 },
    /// Push the constants of the given draw.
    PushConstants { draw: u32 },
    Draw { vertex_count: u32, instance_count: u32 },
    EndRenderPass,
}

/// The push-constant update and draw call of each of the first `draws` draws.
pub open spec fn draw_calls(vertex_count: u32, draws: nat) -> Seq<Command>
    decreases draws,
{
    if draws == 0 {
        Seq::empty()
    } else {
        draw_calls(vertex_count, (draws - 1) as nat) + seq![
            Command::PushConstants { draw: (draws - 1) as u32 },
            Command::Draw { vertex_count, instance_count: 1 },
        ]
    }
}

/// What the command buffer for `framebuffer` records.
pub open spec fn frame_commands(framebuffer: usize, vertex_count: u32, draws: nat) -> Seq<
    Command,
> {
    seq![
        Command::BeginRenderPass { framebuffer },
        Command::BindPipeline,
        Command::BindVertexBuffer { binding: 0 },
    ] + draw_calls(vertex_count, draws) + seq![Command::EndRenderPass]
}

/// The commands of one frame drawn into `framebuffer`: begin the pass, bind
/// the pipeline and the vertex buffer at binding 0, then for each draw push its
/// constants and draw all vertices once, and end the pass.
pub fn frame_command_list(framebuffer: usize, vertex_count: u32, draws: u32) -> (r: Vec<Command>)
    ensures
        r@ == frame_commands(framebuffer, vertex_count, draws as nat),
{
    let mut r: Vec<Command> = Vec::new();
    r.push(Command::BeginRenderPass { framebuffer });
    r.push(Command::BindPipeline);
    r.push(Command::BindVertexBuffer { binding: 0 });
    let mut k: u32 = 0;
    while k < draws
        invariant
            k <= draws,
            r@ == seq![
                Command::BeginRenderPass { framebuffer },
                Command::BindPipeline,
                Command::BindVertexBuffer { binding: 0 },
            ] + draw_calls(vertex_count, k as nat),
        decreases draws - k,
    {
        r.push(Command::PushConstants { draw: k });
        r.push(Command::Draw { vertex_count, instance_count: 1 });
        proof {
            assert(draw_calls(vertex_count, (k + 1) as nat) == draw_calls(vertex_count, k as nat)
                + seq![
                Command::PushConstants { draw: k },
                Command::Draw { vertex_count, instance_count: 1 },
            ]);
        }
        k = k + 1;
    }
    r.push(Command::EndRenderPass);
    r
}

/// One command list per framebuffer, in framebuffer order. The lists are
/// rebuilt whenever the framebuffers or the pipeline change.
pub fn command_plan(framebuffer_count: usize, vertex_count: u32, draws: u32) -> (r: Vec<
    Vec<Command>,
>)
    ensures
        r@.len() == framebuffer_count,
        forall|i: int|
            0 <= i < framebuffer_count ==> (#[trigger] r@[i])@ == frame_commands(
                i as usize,
                vertex_count,
                draws as nat,
            ),
{
    let mut r: Vec<Vec<Command>> = Vec::new();
    let mut i: usize = 0;
    while i < framebuffer_count
        invariant
            i <= framebuffer_count,
            r@.len() == i,
            forall|j: int|
                0 <= j < i ==> (#[trigger] r@[j])@ == frame_commands(
                    j as usize,
                    vertex_count,
                    draws as nat,
                ),
        decreases framebuffer_count - i,
    {
        r.push(frame_command_list(i, vertex_count, draws));
        i = i + 1;
    }
    r
}

} // verus!
