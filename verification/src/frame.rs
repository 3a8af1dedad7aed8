use crate::targets::{BufferRef, ReadSet};
use crate::uniforms::UniformBlock;
use vstd::prelude::*;

verus! {

/// Vertices of the one draw of every pass: a triangle that covers the whole
/// viewport, made in the vertex stage from the vertex index alone.
pub const FULLSCREEN_VERTICES: u32 = 3;

/// Instances of the one draw of every pass.
pub const INSTANCES: u32 = 1;

/// Where a pass draws.
#[derive(Clone, Copy, Debug, PartialEq, Eq, Structural)]
pub enum RenderTarget {
    /// The feedback buffer with this index in the target set.
    Feedback(usize),
    /// The presentable surface image acquired for this frame.
    Surface,
}

/// The colour a pass clears its target to before it draws.
#[derive(Clone, Copy, Debug, PartialEq, Eq, Structural)]
pub enum ClearColor {
    Blue,
    Black,
}

/// One pass of a frame: what to upload, where to draw, what to read.
///
/// The pass binds the uniform buffer, the sampler, the three feedback images of
/// `reads` and the static texture, draws `vertices` vertices in `instances`
/// instances without any vertex buffer, and is submitted as one unit of work.
#[derive(Clone, Copy, Debug, PartialEq, Eq, Structural)]
pub struct Pass {
    pub uniforms: UniformBlock,
    pub target: RenderTarget,
    pub reads: ReadSet,
    pub clear: ClearColor,
    pub vertices: u32,
    pub instances: u32,
}

impl Pass {
    /// Whether the pass draws into the feedback buffer `index`.
    pub open spec fn writes(self, index: int) -> bool {
        self.target == RenderTarget::Feedback(index as usize) && 0 <= index <= usize::MAX
    }

    /// Whether the pass reads or writes the feedback buffer `index`.
    pub open spec fn touches(self, index: int) -> bool {
        self.writes(index) || self.reads.holds(index)
    }

    /// Whether the write target of the pass is kept out of its own read set.
    pub open spec fn keeps_target_apart(self) -> bool {
        forall|index: int| self.writes(index) ==> !self.reads.holds(index)
    }
}

/// The mathematical content of a [`Frame`].
pub struct FrameView {
    pub feedback: Pass,
    pub composite: Pass,
    pub epoch: nat,
}

impl FrameView {
    /// Whether the frame reads or writes the image buffer `buffer`.
    pub open spec fn touches(self, buffer: BufferRef) -> bool {
        buffer.epoch == self.epoch && (self.feedback.touches(buffer.index)
            || self.composite.touches(buffer.index))
    }
}

/// The work of one displayed frame: the off-screen pass, then the composite pass,
/// each submitted on its own and in this order, then the presentation of the
/// surface image.
///
/// The buffer indices in a frame refer to the target set of the epoch `epoch`.
pub struct Frame {
    pub feedback: Pass,
    pub composite: Pass,
    pub epoch: Ghost<nat>,
}

impl View for Frame {
    type V = FrameView;

    open spec fn view(&self) -> FrameView {
        FrameView { feedback: self.feedback, composite: self.composite, epoch: self.epoch@ }
    }
}

impl Frame {
    /// The passes of the frame in the order in which they are to be run and
    /// submitted: the off-screen pass, then the composite pass.
    pub fn passes(&self) -> (passes: Vec<Pass>)
        ensures
            passes@ == seq![self.feedback, self.composite],
    {
        let mut passes: Vec<Pass> = Vec::new();
        passes.push(self.feedback);
        passes.push(self.composite);
        passes
    }
}

} // verus!
