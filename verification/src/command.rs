//! The command recorder: what goes into a frame's command buffer. The list
//! is built anew for every frame; nothing of an earlier recording is kept.
use vstd::prelude::*;
use crate::types::Extent2D;

verus! {

/// Depth to which the depth attachment is cleared: the far plane. The bits
/// are those of the number one as an IEEE 754 single.
pub const CLEAR_DEPTH_FAR: u32 = 0x3F80_0000;

/// Stencil value to which the depth attachment is cleared.
pub const CLEAR_STENCIL: u32 = 0;

/// A colour, each channel given by the bits of an IEEE 754 single.
#[derive(Clone, Copy, Debug, PartialEq, Eq, Structural)]
pub struct ClearColor {
    pub red: u32,
    pub green: u32,
    pub blue: u32,
    pub alpha: u32,
}

/// One piece of geometry: a vertex buffer and how many vertices to draw
/// from it.
#[derive(Clone, Copy, Debug, PartialEq, Eq, Structural)]
pub struct Mesh {
    pub vertex_buffer: u64,
    pub vertex_count: u32,
}

/// One command of a frame's command buffer.
#[derive(Clone, Copy, Debug, PartialEq, Eq, Structural)]
pub enum Command {
    /// Begin the render pass on `framebuffer`, over all of `extent`, and
    /// clear its attachments to the given values.
    BeginRenderPass {
        render_pass: u64,
        framebuffer: u64,
        extent: Extent2D,
        clear_color: ClearColor,
        clear_depth: u32,
        clear_stencil: u32,
    },
    /// Bind the graphics pipeline and what it reads for this frame.
    BindPipeline { pipeline: u64 },
    /// Bind a vertex buffer at binding 0, from its start.
    BindVertexBuffer { buffer: u64 },
    /// Draw one instance of `vertex_count` vertices, from the first.
    Draw { vertex_count: u32 },
    EndRenderPass,
}

/// The commands of one recording, and the frame slot whose command buffer
/// takes them.
#[derive(Debug)]
pub struct Recording {
    pub slot: usize,
    pub commands: Vec<Command>,
}

/// What a recorder is set up with.
pub struct RecorderState {
    pub render_pass: u64,
    pub pipeline: u64,
    pub background: ClearColor,
    pub meshes: Seq<Mesh>,
}

/// The command that opens every recording.
pub open spec fn begin_spec(r: RecorderState, framebuffer: u64, extent: Extent2D) -> Command {
    Command::BeginRenderPass {
        render_pass: r.render_pass,
        framebuffer,
        extent,
        clear_color: r.background,
        clear_depth: CLEAR_DEPTH_FAR,
        clear_stencil: CLEAR_STENCIL,
    }
}

/// For each mesh in turn: bind its buffer, draw it.
pub open spec fn draw_spec(meshes: Seq<Mesh>) -> Seq<Command>
    decreases meshes.len(),
{
    if meshes.len() == 0 {
        Seq::empty()
    } else {
        draw_spec(meshes.drop_last()) + seq![
            Command::BindVertexBuffer { buffer: meshes.last().vertex_buffer },
            Command::Draw { vertex_count: meshes.last().vertex_count },
        ]
    }
}

/// The commands of a frame drawn into `framebuffer`: begin the render pass
/// and clear, bind the pipeline, draw every mesh, end the render pass.
pub open spec fn record_spec(r: RecorderState, framebuffer: u64, extent: Extent2D) -> Seq<Command> {
    seq![begin_spec(r, framebuffer, extent), Command::BindPipeline { pipeline: r.pipeline }]
        + draw_spec(r.meshes) + seq![Command::EndRenderPass]
}

/// Builder of command buffers for one render pass, one pipeline, one
/// background colour and a fixed list of meshes.
#[derive(Debug)]
pub struct CommandRecorder {
    render_pass: u64,
    pipeline: u64,
    background: ClearColor,
    meshes: Vec<Mesh>,
}

impl View for CommandRecorder {
    type V = RecorderState;

    closed spec fn view(&self) -> RecorderState {
        RecorderState {
            render_pass: self.render_pass,
            pipeline: self.pipeline,
            background: self.background,
            meshes: self.meshes@,
        }
    }
}

impl CommandRecorder {
    /// A recorder that clears to `background` and draws `meshes` in order.
    pub fn new(render_pass: u64, pipeline: u64, background: ClearColor, meshes: Vec<Mesh>) -> (r:
        Self)
        ensures
            r@ == (RecorderState { render_pass, pipeline, background, meshes: meshes@ }),
    {
        CommandRecorder { render_pass, pipeline, background, meshes }
    }

    /// The colour every frame is cleared to.
    pub fn background(&self) -> (c: ClearColor)
        ensures
            c == self@.background,
    {
        self.background
    }

    /// Builds the commands of one frame for the command buffer of `slot`,
    /// drawn into `framebuffer` over all of `extent`.
    pub fn record(&self, slot: usize, framebuffer: u64, extent: Extent2D) -> (recording: Recording)
        ensures
            recording.slot == slot,
            recording.commands@ == record_spec(self@, framebuffer, extent),
    {
        let mut commands: Vec<Command> = Vec::new();
        commands.push(
            Command::BeginRenderPass {
                render_pass: self.render_pass,
                framebuffer,
                extent,
                clear_color: self.background,
                clear_depth: CLEAR_DEPTH_FAR,
                clear_stencil: CLEAR_STENCIL,
            },
        );
        commands.push(Command::BindPipeline { pipeline: self.pipeline });
        let ghost head = commands@;
        let mut i: usize = 0;
        assert(self.meshes@.take(0) =~= Seq::<Mesh>::empty());
        while i < self.meshes.len()
            invariant
                i <= self.meshes.len(),
                head == seq![
                    begin_spec(self@, framebuffer, extent),
                    Command::BindPipeline { pipeline: self@.pipeline },
                ],
                commands@ == head + draw_spec(self.meshes@.take(i as int)),
            decreases self.meshes.len() - i,
        {
            let mesh = self.meshes[i];
            assert(self.meshes@.take(i as int + 1).drop_last() =~= self.meshes@.take(i as int));
            commands.push(Command::BindVertexBuffer { buffer: mesh.vertex_buffer });
            commands.push(Command::Draw { vertex_count: mesh.vertex_count });
            i = i + 1;
            assert(commands@ =~= head + draw_spec(self.meshes@.take(i as int)));
        }
        assert(self.meshes@.take(i as int) =~= self.meshes@);
        commands.push(Command::EndRenderPass);
        Recording { slot, commands }
    }
}

/// Two commands are recorded for each mesh.
pub proof fn lemma_draw_len(meshes: Seq<Mesh>)
    ensures
        draw_spec(meshes).len() == 2 * meshes.len(),
    decreases meshes.len(),
{
    if meshes.len() > 0 {
        lemma_draw_len(meshes.drop_last());
    }
}

/// Every recording begins the render pass first and ends it last, and
/// clears depth to the far plane and colour to the recorder's background:
/// the clear values do not depend on the frame, its framebuffer or its size.
pub proof fn lemma_clear_values_fixed(r: RecorderState, framebuffer: u64, extent: Extent2D)
    ensures
        record_spec(r, framebuffer, extent).len() == 3 + 2 * r.meshes.len(),
        record_spec(r, framebuffer, extent).first() == begin_spec(r, framebuffer, extent),
        record_spec(r, framebuffer, extent).last() == Command::EndRenderPass,
        record_spec(r, framebuffer, extent).first() matches Command::BeginRenderPass {
            clear_color,
            clear_depth,
            ..
        } && clear_color == r.background && clear_depth == 0x3F80_0000,
{
    lemma_draw_len(r.meshes);
}

} // verus!
