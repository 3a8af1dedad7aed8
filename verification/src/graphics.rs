use crate::event::Event;
use crate::frame::{
    ClearColor, Frame, FrameView, Pass, RenderTarget, FULLSCREEN_VERTICES, INSTANCES,
};
use crate::surface::SurfaceFault;
use crate::targets::{BufferRef, FeedbackTargetSet, TargetsView};
use crate::uniforms::UniformBlock;
use vstd::prelude::*;

verus! {

/// The mathematical content of a [`Graphics`].
pub struct GraphicsView {
    /// The simulation time that the next frame shows, in milliseconds.
    pub time_ms: i128,
    /// The feedback target set. The surface is configured at its size.
    pub targets: TargetsView,
}

impl GraphicsView {
    /// The write target is one of the buffers of the target set.
    pub open spec fn wf(self) -> bool {
        self.targets.wf()
    }

    /// Width of the surface configuration and of every feedback buffer, in pixels.
    pub open spec fn width(self) -> u32 {
        self.targets.width
    }

    /// Height of the surface configuration and of every feedback buffer, in pixels.
    pub open spec fn height(self) -> u32 {
        self.targets.height
    }

    /// The orchestrator as it is set up for a window of the given size.
    pub open spec fn initial(width: u32, height: u32) -> GraphicsView {
        GraphicsView { time_ms: 0, targets: TargetsView::created(width, height, 0) }
    }

    /// The uniform block uploaded before the pass `pass_index` of the next frame.
    pub open spec fn uniforms(self, pass_index: u32) -> UniformBlock {
        UniformBlock {
            width: self.width(),
            height: self.height(),
            time_ms: self.time_ms,
            pass_index,
        }
    }

    /// Pass 0 of the next frame. It writes this frame's feedback buffer and reads
    /// the buffers of the frames before.
    pub open spec fn feedback_pass(self) -> Pass {
        Pass {
            uniforms: self.uniforms(0),
            target: RenderTarget::Feedback(self.targets.write_index as usize),
            reads: self.targets.write_reads(),
            clear: ClearColor::Blue,
            vertices: FULLSCREEN_VERTICES,
            instances: INSTANCES,
        }
    }

    /// Pass 1 of the next frame. It reads the buffer that pass 0 has written and
    /// draws on the surface image.
    pub open spec fn composite_pass(self) -> Pass {
        Pass {
            uniforms: self.uniforms(1),
            target: RenderTarget::Surface,
            reads: self.targets.composite_reads(),
            clear: ClearColor::Black,
            vertices: FULLSCREEN_VERTICES,
            instances: INSTANCES,
        }
    }

    /// The next frame.
    pub open spec fn frame(self) -> FrameView {
        FrameView {
            feedback: self.feedback_pass(),
            composite: self.composite_pass(),
            epoch: self.targets.epoch,
        }
    }

    /// The orchestrator after it has handed out a frame.
    pub open spec fn rendered(self) -> GraphicsView {
        GraphicsView { targets: self.targets.advanced(), ..self }
    }

    /// The orchestrator after it has handed out `count` frames.
    pub open spec fn rendered_times(self, count: nat) -> GraphicsView
        decreases count,
    {
        if count == 0 {
            self
        } else {
            self.rendered().rendered_times((count - 1) as nat)
        }
    }

    /// Whether a resize to the given size takes effect. A size with an empty side
    /// is ignored.
    pub open spec fn accepts_size(width: u32, height: u32) -> bool {
        width > 0 && height > 0
    }

    /// The orchestrator after a resize event.
    pub open spec fn resized(self, width: u32, height: u32) -> GraphicsView {
        if Self::accepts_size(width, height) {
            GraphicsView { targets: self.targets.rebuilt(width, height), ..self }
        } else {
            self
        }
    }

    /// The orchestrator after the simulation time was set.
    pub open spec fn updated(self, time_ms: i128) -> GraphicsView {
        GraphicsView { time_ms, ..self }
    }

    /// The two passes of a frame carry the pass indices 0 and 1, in this order. The
    /// composite pass reads, in its first feedback slot, the very buffer that the
    /// off-screen pass of the same frame writes, and draws on the surface. No pass
    /// reads the image it writes. Every buffer that the frame touches belongs to
    /// the current target set.
    pub proof fn lemma_frame_shape(self)
        requires
            self.wf(),
        ensures
            self.frame().feedback.uniforms.pass_index == 0,
            self.frame().composite.uniforms.pass_index == 1,
            self.frame().feedback.writes(self.targets.write_index),
            self.frame().composite.reads.first == self.targets.write_index,
            self.frame().composite.target == RenderTarget::Surface,
            self.frame().feedback.keeps_target_apart(),
            self.frame().composite.keeps_target_apart(),
            forall|buffer: BufferRef| self.frame().touches(buffer) ==> self.targets.owns(buffer),
    {
    }

    /// Handing out frames keeps the target set and the size.
    pub proof fn lemma_rendered_times_keeps_set(self, count: nat)
        requires
            self.wf(),
        ensures
            self.rendered_times(count).wf(),
            self.rendered_times(count).targets.epoch == self.targets.epoch,
            self.rendered_times(count).width() == self.width(),
            self.rendered_times(count).height() == self.height(),
            self.rendered_times(count).time_ms == self.time_ms,
        decreases count,
    {
        if count > 0 {
            self.rendered().lemma_rendered_times_keeps_set((count - 1) as nat);
        }
    }

    /// Two frames drawn one after the other run the pass indices 0, 1, 0, 1. The
    /// second frame writes another buffer than the first, and its composite pass
    /// reads the buffer written in the second frame, not the one of the first;
    /// that one is what its off-screen pass reads first.
    pub proof fn lemma_back_to_back_frames(self)
        requires
            self.wf(),
        ensures
            ({
                let first = self.frame();
                let second = self.rendered().frame();
                &&& first.feedback.uniforms.pass_index == 0
                &&& first.composite.uniforms.pass_index == 1
                &&& second.feedback.uniforms.pass_index == 0
                &&& second.composite.uniforms.pass_index == 1
                &&& second.feedback.target != first.feedback.target
                &&& second.feedback.writes(second.composite.reads.first as int)
                &&& !first.feedback.writes(second.composite.reads.first as int)
                &&& first.feedback.writes(second.feedback.reads.first as int)
            }),
    {
    }

    /// After a resize that takes effect, no frame touches a buffer of the target
    /// set that the resize destroyed, however many frames follow: every buffer a
    /// frame touches belongs to the set created by the resize.
    pub proof fn lemma_frames_after_resize(self, width: u32, height: u32, frames: nat)
        requires
            self.wf(),
            Self::accepts_size(width, height),
        ensures
            ({
                let now = self.resized(width, height).rendered_times(frames);
                forall|buffer: BufferRef|
                    now.frame().touches(buffer) ==> now.targets.owns(buffer) && !self.targets.owns(
                        buffer,
                    )
            }),
    {
        let resized = self.resized(width, height);
        resized.lemma_rendered_times_keeps_set(frames);
    }
}

/// The frame orchestrator: it knows the size of the surface, the simulation time
/// to show and the feedback target set, and says for each frame which two passes
/// make it up. It owns no device object; whoever does carries its decisions out.
pub struct Graphics {
    time_ms: i128,
    targets: FeedbackTargetSet,
}

impl View for Graphics {
    type V = GraphicsView;

    closed spec fn view(&self) -> GraphicsView {
        GraphicsView { time_ms: self.time_ms, targets: self.targets@ }
    }
}

impl Graphics {
    /// Sets the orchestrator up for a window whose drawable area has the given
    /// size: the surface is configured at that size, the feedback buffers are
    /// created at that size, and time starts at zero.
    pub fn new(width: u32, height: u32) -> (graphics: Self)
        ensures
            graphics@ == GraphicsView::initial(width, height),
            graphics@.wf(),
    {
        Graphics { time_ms: 0, targets: FeedbackTargetSet::new(width, height) }
    }

    /// Width of the surface configuration, in pixels.
    pub fn width(&self) -> (width: u32)
        ensures
            width == self@.width(),
    {
        self.targets.width()
    }

    /// Height of the surface configuration, in pixels.
    pub fn height(&self) -> (height: u32)
        ensures
            height == self@.height(),
    {
        self.targets.height()
    }

    /// Index of the feedback buffer that the off-screen pass of the next frame
    /// writes.
    pub fn write_index(&self) -> (index: usize)
        ensures
            index == self@.targets.write_index,
            self@.wf(),
    {
        self.targets.write_index()
    }

    /// The simulation time that the next frame shows, in milliseconds.
    pub fn time_ms(&self) -> (time_ms: i128)
        ensures
            time_ms == self@.time_ms,
    {
        self.time_ms
    }

    /// Takes a new size of the drawable area. A size with an empty side is ignored.
    /// Otherwise the surface configuration takes the new size and the feedback
    /// target set is destroyed and created anew at that size. Returns whether the
    /// resize took effect, that is, whether the surface has to be configured again.
    pub fn resize(&mut self, width: u32, height: u32) -> (resized: bool)
        ensures
            resized == GraphicsView::accepts_size(width, height),
            final(self)@ == old(self)@.resized(width, height),
            final(self)@.wf(),
    {
        proof {
            use_type_invariant(&self.targets);
        }
        if width > 0 && height > 0 {
            self.targets.rebuild(width, height);
            true
        } else {
            false
        }
    }

    /// Offers a window event to the orchestrator. It takes none: the answer is
    /// always `false`, and the event is left to the caller.
    #[allow(unused_variables)]
    pub fn input(&mut self, event: &Event) -> (consumed: bool)
        ensures
            !consumed,
            final(self)@ == old(self)@,
    {
        false
    }

    /// Sets the simulation time that the following frames show.
    pub fn update(&mut self, time_ms: i128)
        ensures
            final(self)@ == old(self)@.updated(time_ms),
            final(self)@.wf(),
    {
        proof {
            use_type_invariant(&self.targets);
        }
        self.time_ms = time_ms;
    }

    /// Plans one frame. `surface` tells whether the presentable image was acquired.
    /// If it was not, the fault is handed back and nothing changes. If it was, the
    /// frame is handed out and the write target moves on for the next frame.
    pub fn render(&mut self, surface: Result<(), SurfaceFault>) -> (planned: Result<
        Frame,
        SurfaceFault,
    >)
        ensures
            surface is Ok ==> planned is Ok && planned->Ok_0@ == old(self)@.frame(),
            surface is Ok ==> final(self)@ == old(self)@.rendered(),
            surface is Err ==> planned == Err::<Frame, SurfaceFault>(surface->Err_0),
            surface is Err ==> final(self)@ == old(self)@,
            final(self)@.wf(),
            planned is Ok ==> planned->Ok_0.feedback.uniforms.pass_index == 0,
            planned is Ok ==> planned->Ok_0.composite.uniforms.pass_index == 1,
            planned is Ok ==> planned->Ok_0.feedback.keeps_target_apart(),
            planned is Ok ==> planned->Ok_0.feedback.writes(
                planned->Ok_0.composite.reads.first as int,
            ),
            planned is Ok ==> forall|buffer: BufferRef|
                planned->Ok_0@.touches(buffer) ==> old(self)@.targets.owns(buffer),
    {
        proof {
            use_type_invariant(&self.targets);
        }
        match surface {
            Err(fault) => Err(fault),
            Ok(_) => {
                let write_index = self.targets.write_index();
                let feedback = Pass {
                    uniforms: self.uniforms(0),
                    target: RenderTarget::Feedback(write_index),
                    reads: self.targets.write_reads(),
                    clear: ClearColor::Blue,
                    vertices: FULLSCREEN_VERTICES,
                    instances: INSTANCES,
                };
                let composite = Pass {
                    uniforms: self.uniforms(1),
                    target: RenderTarget::Surface,
                    reads: self.targets.composite_reads(),
                    clear: ClearColor::Black,
                    vertices: FULLSCREEN_VERTICES,
                    instances: INSTANCES,
                };
                let frame = Frame { feedback, composite, epoch: Ghost(self.targets@.epoch) };
                self.targets.advance();
                Ok(frame)
            },
        }
    }

    /// The uniform block for the pass `pass_index` of the next frame.
    pub fn uniforms(&self, pass_index: u32) -> (block: UniformBlock)
        ensures
            block == self@.uniforms(pass_index),
    {
        UniformBlock {
            width: self.targets.width(),
            height: self.targets.height(),
            time_ms: self.time_ms,
            pass_index,
        }
    }
}

} // verus!
