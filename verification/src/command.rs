//! Recording of a frame: render passes, the commands inside them, and the
//! command buffers they end up in.
//!
//! Recording only appends. A pass keeps its attachments and, in order, every
//! command recorded into it; an encoder keeps, in order, every pass that was
//! ended on it.

use crate::camera::BindGroup;
use crate::pipeline::RenderPipeline;
use crate::texture::TextureView;
use vstd::prelude::*;

verus! {

/// The value 1.0 of a fixed-point quantity in thousandths.
pub const UNIT: u32 = 1000;

/// An RGBA colour. Each channel is in thousandths, [`UNIT`] being full
/// intensity.
#[derive(Clone, Copy, Debug, PartialEq, Eq)]
pub struct Color {
    /// Red, in thousandths.
    pub r: u32,
    /// Green, in thousandths.
    pub g: u32,
    /// Blue, in thousandths.
    pub b: u32,
    /// Alpha, in thousandths.
    pub a: u32,
}

/// What happens to an attachment when a pass begins.
#[derive(Debug, PartialEq, Eq)]
pub enum LoadOp<V> {
    /// The attachment is cleared to the value.
    Clear(V),
    /// The attachment keeps what it holds.
    Load,
}

/// What happens to one aspect of an attachment at both ends of a pass.
#[derive(Debug, PartialEq, Eq)]
pub struct Operations<V> {
    /// At the beginning of the pass.
    pub load: LoadOp<V>,
    /// Whether what the pass draws is kept at its end.
    pub store: bool,
}

/// The colour attachment of a render pass.
#[derive(Clone, Copy, Debug, PartialEq, Eq)]
pub struct RenderPassColorAttachmentDescriptor {
    /// The view drawn into.
    pub attachment: TextureView,
    /// The view that receives the resolved image of a multisampled pass.
    pub resolve_target: Option<TextureView>,
    /// Load and store of the colour.
    pub ops: Operations<Color>,
}

/// The depth and stencil attachment of a render pass. A depth value is in
/// thousandths, [`UNIT`] being the far plane.
#[derive(Clone, Copy, Debug, PartialEq, Eq)]
pub struct RenderPassDepthStencilAttachmentDescriptor {
    /// The view tested against and written.
    pub attachment: TextureView,
    /// Load and store of the depth aspect, if the pass uses it.
    pub depth_ops: Option<Operations<u32>>,
    /// Load and store of the stencil aspect, if the pass uses it.
    pub stencil_ops: Option<Operations<u32>>,
}

/// The attachments of a render pass.
#[derive(Clone, Copy, Debug, PartialEq, Eq)]
pub struct RenderPassDescriptor {
    /// The one colour attachment.
    pub color_attachment: RenderPassColorAttachmentDescriptor,
    /// The depth and stencil attachment, if any.
    pub depth_stencil_attachment: Option<RenderPassDepthStencilAttachmentDescriptor>,
}

/// A half-open range of vertex or instance indices.
#[derive(Clone, Copy, Debug, PartialEq, Eq)]
pub struct IndexRange {
    /// The first index.
    pub start: u32,
    /// One past the last index.
    pub end: u32,
}

/// One command recorded into a render pass.
#[derive(Clone, Copy, Debug, PartialEq, Eq)]
pub enum RenderCommand {
    /// Makes the pipeline the active one.
    SetPipeline(RenderPipeline),
    /// Binds a bind group at a slot.
    SetBindGroup {
        /// The slot.
        index: u32,
        /// The bind group.
        bind_group: BindGroup,
    },
    /// Draws without an index buffer.
    Draw {
        /// The vertices drawn.
        vertices: IndexRange,
        /// The instances drawn.
        instances: IndexRange,
    },
}

/// A render pass under recording, or recorded.
#[derive(Debug, PartialEq, Eq)]
pub struct RenderPass {
    /// The attachments the pass began with.
    pub desc: RenderPassDescriptor,
    /// The commands recorded so far, oldest first.
    pub commands: Vec<RenderCommand>,
}

/// A recording session for one command buffer.
#[derive(Debug, PartialEq, Eq)]
pub struct CommandEncoder {
    /// The passes ended so far, oldest first.
    pub passes: Vec<RenderPass>,
}

/// A finished recording, ready to be submitted.
#[derive(Debug, PartialEq, Eq)]
pub struct CommandBuffer {
    /// The recorded passes, in the order of execution.
    pub passes: Vec<RenderPass>,
}

/// What a render pass is, as a mathematical value.
pub ghost struct RenderPassView {
    /// The attachments the pass began with.
    pub desc: RenderPassDescriptor,
    /// The commands of the pass, oldest first.
    pub commands: Seq<RenderCommand>,
}

impl<V: Copy> Clone for LoadOp<V> {
    fn clone(&self) -> (copy: Self)
        ensures
            copy == *self,
    {
        *self
    }
}

impl<V: Copy> Copy for LoadOp<V> {

}

impl<V: Copy> Clone for Operations<V> {
    fn clone(&self) -> (copy: Self)
        ensures
            copy == *self,
    {
        *self
    }
}

impl<V: Copy> Copy for Operations<V> {

}

impl IndexRange {
    /// Number of indices in the range.
    pub open spec fn count(self) -> nat {
        if self.start <= self.end {
            (self.end - self.start) as nat
        } else {
            0
        }
    }
}

impl RenderPassDescriptor {
    /// Whether the pass begins by clearing its colour attachment to `color`
    /// and its depth attachment to `depth`, keeps what it draws into both,
    /// and leaves stencil alone.
    pub open spec fn clears_to(self, color: Color, depth: u32) -> bool {
        &&& self.color_attachment.ops == (Operations { load: LoadOp::Clear(color), store: true })
        &&& self.depth_stencil_attachment matches Some(attachment)
        &&& attachment.depth_ops == Some(Operations { load: LoadOp::Clear(depth), store: true })
        &&& attachment.stencil_ops.is_none()
    }
}

/// Number of draw commands among `commands`.
pub open spec fn draw_count(commands: Seq<RenderCommand>) -> nat
    decreases commands.len(),
{
    if commands.len() == 0 {
        0
    } else {
        draw_count(commands.drop_last()) + if commands.last() is Draw {
            1nat
        } else {
            0nat
        }
    }
}

/// Number of draw commands in all of `passes`.
pub open spec fn total_draw_count(passes: Seq<RenderPassView>) -> nat
    decreases passes.len(),
{
    if passes.len() == 0 {
        0
    } else {
        total_draw_count(passes.drop_last()) + draw_count(passes.last().commands)
    }
}

/// Recording one more command adds one to the number of draws if the
/// command is a draw, and nothing otherwise.
pub proof fn lemma_draw_count_push(commands: Seq<RenderCommand>, command: RenderCommand)
    ensures
        draw_count(commands.push(command)) == draw_count(commands) + if command is Draw {
            1nat
        } else {
            0nat
        },
{
    assert(commands.push(command).drop_last() == commands);
}

/// Ending one more pass adds the draws of that pass.
pub proof fn lemma_total_draw_count_push(passes: Seq<RenderPassView>, pass: RenderPassView)
    ensures
        total_draw_count(passes.push(pass)) == total_draw_count(passes) + draw_count(
            pass.commands,
        ),
{
    assert(passes.push(pass).drop_last() == passes);
}

impl View for RenderPass {
    type V = RenderPassView;

    open spec fn view(&self) -> RenderPassView {
        RenderPassView { desc: self.desc, commands: self.commands@ }
    }
}

impl View for CommandEncoder {
    type V = Seq<RenderPassView>;

    open spec fn view(&self) -> Seq<RenderPassView> {
        self.passes@.map_values(|pass: RenderPass| pass@)
    }
}

impl View for CommandBuffer {
    type V = Seq<RenderPassView>;

    open spec fn view(&self) -> Seq<RenderPassView> {
        self.passes@.map_values(|pass: RenderPass| pass@)
    }
}

impl RenderPass {
    /// Makes `pipeline` the active pipeline for the draws that follow.
    pub fn set_pipeline(&mut self, pipeline: &RenderPipeline)
        ensures
            final(self)@.desc == old(self)@.desc,
            final(self)@.commands == old(self)@.commands.push(
                RenderCommand::SetPipeline(*pipeline),
            ),
    {
        self.commands.push(RenderCommand::SetPipeline(*pipeline));
    }

    /// Binds `bind_group` at slot `index` for the draws that follow.
    pub fn set_bind_group(&mut self, index: u32, bind_group: &BindGroup)
        ensures
            final(self)@.desc == old(self)@.desc,
            final(self)@.commands == old(self)@.commands.push(
                RenderCommand::SetBindGroup { index, bind_group: *bind_group },
            ),
    {
        self.commands.push(RenderCommand::SetBindGroup { index, bind_group: *bind_group });
    }

    /// Draws `vertices` for each of `instances`, without an index buffer.
    pub fn draw(&mut self, vertices: IndexRange, instances: IndexRange)
        ensures
            final(self)@.desc == old(self)@.desc,
            final(self)@.commands == old(self)@.commands.push(
                RenderCommand::Draw { vertices, instances },
            ),
    {
        self.commands.push(RenderCommand::Draw { vertices, instances });
    }

    /// Counts the draw commands of the pass.
    pub fn draw_count(&self) -> (count: usize)
        ensures
            count == draw_count(self@.commands),
    {
        let mut count: usize = 0;
        let mut i: usize = 0;
        while i < self.commands.len()
            invariant
                i <= self.commands.len(),
                count <= i,
                count == draw_count(self.commands@.take(i as int)),
            decreases self.commands.len() - i,
        {
            proof {
                let next = self.commands@.take(i + 1);
                assert(next.drop_last() == self.commands@.take(i as int));
                assert(next.last() == self.commands@[i as int]);
            }
            match self.commands[i] {
                RenderCommand::Draw { .. } => {
                    count = count + 1;
                },
                _ => {},
            }
            i = i + 1;
        }
        proof {
            assert(self.commands@.take(i as int) == self.commands@);
        }
        count
    }
}

impl CommandEncoder {
    /// Opens a recording session in which nothing is recorded yet.
    pub fn new() -> (encoder: CommandEncoder)
        ensures
            encoder@ == Seq::<RenderPassView>::empty(),
    {
        CommandEncoder { passes: Vec::new() }
    }

    /// Begins a render pass on the attachments of `desc`. Nothing is
    /// recorded in the pass yet, and the session is unchanged until the pass
    /// is ended.
    pub fn begin_render_pass(&self, desc: RenderPassDescriptor) -> (pass: RenderPass)
        ensures
            pass@ == (RenderPassView { desc, commands: Seq::empty() }),
    {
        RenderPass { desc, commands: Vec::new() }
    }

    /// Ends `pass`: it becomes the last pass of the session.
    pub fn end_render_pass(&mut self, pass: RenderPass)
        ensures
            final(self)@ == old(self)@.push(pass@),
    {
        self.passes.push(pass);
    }

    /// Closes the session. The command buffer holds the passes that were
    /// ended, in order.
    pub fn finish(self) -> (buffer: CommandBuffer)
        ensures
            buffer@ == self@,
    {
        CommandBuffer { passes: self.passes }
    }
}

} // verus!
