use vstd::prelude::*;

verus! {

/// How many off-screen image buffers a feedback target set holds.
pub const FEEDBACK_BUFFERS: usize = 4;

/// Slot of the uniform buffer in the bind-group layout that every pass shares.
pub const UNIFORM_SLOT: u32 = 0;

/// Slot of the sampler.
pub const SAMPLER_SLOT: u32 = 1;

/// Slot of the first feedback image; the second and third follow it directly.
pub const FIRST_FEEDBACK_SLOT: u32 = 2;

/// Slot of the static input texture.
pub const STATIC_TEXTURE_SLOT: u32 = 5;

/// How many slots the bind-group layout has.
pub const SLOTS: usize = 6;

/// What a slot of the bind-group layout is bound to.
#[derive(Clone, Copy, Debug, PartialEq, Eq, Structural)]
pub enum Resource {
    /// The uniform buffer.
    Uniforms,
    /// The sampler through which every image is read.
    Sampler,
    /// The feedback buffer with this index in the target set, as a read-only input.
    Feedback(usize),
    /// The static input texture.
    StaticTexture,
}

/// One entry of a binding configuration: a slot and what is bound to it.
#[derive(Clone, Copy, Debug, PartialEq, Eq, Structural)]
pub struct Binding {
    pub slot: u32,
    pub resource: Resource,
}

/// The feedback buffers that one pass reads, by their index in the target set, in
/// the order of the three feedback slots.
#[derive(Clone, Copy, Debug, PartialEq, Eq, Structural)]
pub struct ReadSet {
    pub first: usize,
    pub second: usize,
    pub third: usize,
}

impl ReadSet {
    /// Whether some slot of this set is bound to the buffer `index`.
    pub open spec fn holds(self, index: int) -> bool {
        self.first == index || self.second == index || self.third == index
    }

    /// The binding configuration of a pass with this read set: every slot of the
    /// layout with what is bound to it, in the order of the slots.
    pub open spec fn configuration(self) -> Seq<Binding> {
        seq![
            Binding { slot: UNIFORM_SLOT, resource: Resource::Uniforms },
            Binding { slot: SAMPLER_SLOT, resource: Resource::Sampler },
            Binding { slot: FIRST_FEEDBACK_SLOT, resource: Resource::Feedback(self.first) },
            Binding {
                slot: (FIRST_FEEDBACK_SLOT + 1) as u32,
                resource: Resource::Feedback(self.second),
            },
            Binding {
                slot: (FIRST_FEEDBACK_SLOT + 2) as u32,
                resource: Resource::Feedback(self.third),
            },
            Binding { slot: STATIC_TEXTURE_SLOT, resource: Resource::StaticTexture },
        ]
    }

    /// Whether some slot of this set is bound to the buffer `index`.
    pub fn contains(&self, index: usize) -> (found: bool)
        ensures
            found == self.holds(index as int),
    {
        self.first == index || self.second == index || self.third == index
    }

    /// The binding configuration of a pass with this read set.
    pub fn bindings(&self) -> (bindings: Vec<Binding>)
        ensures
            bindings@ == self.configuration(),
    {
        let mut bindings: Vec<Binding> = Vec::new();
        bindings.push(Binding { slot: UNIFORM_SLOT, resource: Resource::Uniforms });
        bindings.push(Binding { slot: SAMPLER_SLOT, resource: Resource::Sampler });
        bindings.push(
            Binding { slot: FIRST_FEEDBACK_SLOT, resource: Resource::Feedback(self.first) },
        );
        bindings.push(
            Binding { slot: FIRST_FEEDBACK_SLOT + 1, resource: Resource::Feedback(self.second) },
        );
        bindings.push(
            Binding { slot: FIRST_FEEDBACK_SLOT + 2, resource: Resource::Feedback(self.third) },
        );
        bindings.push(Binding { slot: STATIC_TEXTURE_SLOT, resource: Resource::StaticTexture });
        bindings
    }

    /// A binding configuration fills every slot of the layout once, slot `i` at
    /// place `i`, and binds a feedback buffer exactly if the read set holds it.
    pub proof fn lemma_configuration(self)
        ensures
            self.configuration().len() == SLOTS,
            forall|i: int| 0 <= i < SLOTS ==> (#[trigger] self.configuration()[i]).slot == i,
            forall|index: int|
                0 <= index <= usize::MAX ==> (self.holds(index) <==> exists|i: int|
                    0 <= i < SLOTS && (#[trigger] self.configuration()[i]).resource
                        == Resource::Feedback(index as usize)),
    {
        let bindings = self.configuration();
        assert forall|index: int| 0 <= index <= usize::MAX implies (self.holds(index) <==> exists|
            i: int,
        |
            0 <= i < SLOTS && (#[trigger] bindings[i]).resource == Resource::Feedback(
                index as usize,
            )) by {
            if self.first == index {
                assert(bindings[2].resource == Resource::Feedback(index as usize));
            }
            if self.second == index {
                assert(bindings[3].resource == Resource::Feedback(index as usize));
            }
            if self.third == index {
                assert(bindings[4].resource == Resource::Feedback(index as usize));
            }
        }
    }
}

/// The identity of one image buffer: the target set it was created for, and its
/// place in that set. Buffers of a set that a resize has replaced keep their old
/// epoch, so no buffer of the new set is ever taken for one of them.
pub struct BufferRef {
    pub epoch: nat,
    pub index: int,
}

/// The mathematical content of a [`FeedbackTargetSet`].
pub struct TargetsView {
    pub width: u32,
    pub height: u32,
    /// Index of the buffer that the next frame's off-screen pass writes.
    pub write_index: int,
    /// How many target sets were destroyed before this one was created.
    pub epoch: nat,
}

impl TargetsView {
    /// The write target is one of the buffers of the set.
    pub open spec fn wf(self) -> bool {
        0 <= self.write_index < FEEDBACK_BUFFERS
    }

    /// The freshly created set for a drawable area of the given size.
    pub open spec fn created(width: u32, height: u32, epoch: nat) -> TargetsView {
        TargetsView { width, height, write_index: 0, epoch }
    }

    /// Whether `buffer` is one of this set's buffers, which are the only ones alive
    /// while this set is.
    pub open spec fn owns(self, buffer: BufferRef) -> bool {
        buffer.epoch == self.epoch && 0 <= buffer.index < FEEDBACK_BUFFERS
    }

    /// The "write" configuration: what the off-screen pass reads while it writes the
    /// buffer `write_index`. These are the three other buffers, the one written by
    /// the previous frame first.
    pub open spec fn write_reads(self) -> ReadSet {
        ReadSet {
            first: ((self.write_index + 1) % FEEDBACK_BUFFERS as int) as usize,
            second: ((self.write_index + 2) % FEEDBACK_BUFFERS as int) as usize,
            third: ((self.write_index + 3) % FEEDBACK_BUFFERS as int) as usize,
        }
    }

    /// The "composite" configuration: what the final pass reads. The buffer that the
    /// off-screen pass of the same frame has just written comes first, then the
    /// buffers of the one and two frames before.
    pub open spec fn composite_reads(self) -> ReadSet {
        ReadSet {
            first: self.write_index as usize,
            second: ((self.write_index + 1) % FEEDBACK_BUFFERS as int) as usize,
            third: ((self.write_index + 2) % FEEDBACK_BUFFERS as int) as usize,
        }
    }

    /// The set after a frame has been drawn: the write target moves on, so that the
    /// next frame writes a buffer other than the one just written and finds that one
    /// first among its inputs.
    pub open spec fn advanced(self) -> TargetsView {
        TargetsView {
            write_index: (self.write_index + FEEDBACK_BUFFERS - 1) % FEEDBACK_BUFFERS as int,
            ..self
        }
    }

    /// The set that replaces this one on a resize. Every buffer of this set is
    /// destroyed; the new buffers belong to the next epoch.
    pub open spec fn rebuilt(self, width: u32, height: u32) -> TargetsView {
        Self::created(width, height, self.epoch + 1)
    }

    /// A pass never reads the image it writes: the write configuration binds every
    /// buffer of the set but the write target.
    pub proof fn lemma_write_reads_spare_target(self)
        requires
            self.wf(),
        ensures
            !self.write_reads().holds(self.write_index),
            forall|index: int|
                0 <= index < FEEDBACK_BUFFERS && index != self.write_index
                    ==> self.write_reads().holds(index),
            forall|index: int| self.write_reads().holds(index) ==> 0 <= index < FEEDBACK_BUFFERS,
    {
    }

    /// The composite configuration binds the buffer just written, and only buffers
    /// of the set.
    pub proof fn lemma_composite_reads_written(self)
        requires
            self.wf(),
        ensures
            self.composite_reads().first == self.write_index,
            forall|index: int|
                self.composite_reads().holds(index) ==> 0 <= index < FEEDBACK_BUFFERS,
    {
    }

    /// From one frame to the next the write target changes, and the buffer written
    /// last becomes the first input of the next off-screen pass.
    pub proof fn lemma_advanced_alternates(self)
        requires
            self.wf(),
        ensures
            self.advanced().wf(),
            self.advanced().write_index != self.write_index,
            self.advanced().write_reads().first == self.write_index,
            self.advanced().epoch == self.epoch,
    {
    }
}

/// The off-screen image buffers that carry an image from one frame to the next,
/// with the rule that says which of them a pass writes and which it reads.
///
/// A set is created for one size of the drawable area. A resize destroys it and
/// creates the next.
pub struct FeedbackTargetSet {
    width: u32,
    height: u32,
    write_index: usize,
    epoch: Ghost<nat>,
}

impl View for FeedbackTargetSet {
    type V = TargetsView;

    closed spec fn view(&self) -> TargetsView {
        TargetsView {
            width: self.width,
            height: self.height,
            write_index: self.write_index as int,
            epoch: self.epoch@,
        }
    }
}

impl FeedbackTargetSet {
    /// The write target is always one of the set's buffers.
    #[verifier::type_invariant]
    pub open spec fn inv(&self) -> bool {
        self@.wf()
    }

    /// The first set, created at startup for the initial size of the window.
    pub fn new(width: u32, height: u32) -> (set: Self)
        ensures
            set@ == TargetsView::created(width, height, 0),
    {
        FeedbackTargetSet { width, height, write_index: 0, epoch: Ghost(0) }
    }

    pub fn width(&self) -> (width: u32)
        ensures
            width == self@.width,
    {
        self.width
    }

    pub fn height(&self) -> (height: u32)
        ensures
            height == self@.height,
    {
        self.height
    }

    /// Index of the buffer that the next off-screen pass writes.
    pub fn write_index(&self) -> (index: usize)
        ensures
            index == self@.write_index,
            self@.wf(),
    {
        proof {
            use_type_invariant(self);
        }
        self.write_index
    }

    /// The read set of the "write" configuration.
    pub fn write_reads(&self) -> (reads: ReadSet)
        ensures
            reads == self@.write_reads(),
            !reads.holds(self@.write_index),
    {
        proof {
            use_type_invariant(self);
        }
        ReadSet {
            first: (self.write_index + 1) % FEEDBACK_BUFFERS,
            second: (self.write_index + 2) % FEEDBACK_BUFFERS,
            third: (self.write_index + 3) % FEEDBACK_BUFFERS,
        }
    }

    /// The read set of the "composite" configuration.
    pub fn composite_reads(&self) -> (reads: ReadSet)
        ensures
            reads == self@.composite_reads(),
            reads.first == self@.write_index,
    {
        proof {
            use_type_invariant(self);
        }
        ReadSet {
            first: self.write_index,
            second: (self.write_index + 1) % FEEDBACK_BUFFERS,
            third: (self.write_index + 2) % FEEDBACK_BUFFERS,
        }
    }

    /// Moves the write target on after a frame.
    pub fn advance(&mut self)
        ensures
            final(self)@ == old(self)@.advanced(),
    {
        proof {
            use_type_invariant(&*self);
        }
        self.write_index = (self.write_index + FEEDBACK_BUFFERS - 1) % FEEDBACK_BUFFERS;
    }

    /// Replaces the set by a new one for the given size.
    pub fn rebuild(&mut self, width: u32, height: u32)
        ensures
            final(self)@ == old(self)@.rebuilt(width, height),
    {
        let ghost next = self.epoch@ + 1;
        *self = FeedbackTargetSet { width, height, write_index: 0, epoch: Ghost(next) };
    }
}

} // verus!
