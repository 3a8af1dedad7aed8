use crate::commandbuffer::{Command, CommandBuffer};
use crate::playback::PlaybackState;
use vstd::prelude::*;

verus! {

/// The fixed simulation step, in milliseconds.
pub const STEP_MS: u64 = 16;

/// The mathematical content of a [`TickLoop`].
pub struct TickLoopView {
    /// The waiting commands, oldest first.
    pub queue: Seq<Command>,
    pub state: PlaybackState,
    /// Simulation time since start, in milliseconds.
    pub sim_time_ms: int,
    /// The real time, in milliseconds since start, up to which simulation steps
    /// have been taken.
    pub last_advance_ms: int,
}

impl TickLoopView {
    /// Simulation time never runs ahead of the real time accounted for, in either
    /// direction.
    pub open spec fn wf(self) -> bool {
        &&& 0 <= self.last_advance_ms <= u64::MAX
        &&& -self.last_advance_ms <= self.sim_time_ms <= self.last_advance_ms
    }

    /// The loop at start: nothing waits, playback runs, no time has passed.
    pub open spec fn initial() -> TickLoopView {
        TickLoopView {
            queue: Seq::empty(),
            state: PlaybackState::Playing,
            sim_time_ms: 0,
            last_advance_ms: 0,
        }
    }

    /// The loop after `command` has been put in the queue.
    pub open spec fn enqueued(self, command: Command) -> TickLoopView {
        TickLoopView { queue: CommandBuffer::enqueued(self.queue, command), ..self }
    }

    /// The number of commands that the command stage of a tick takes from `queue`:
    /// those up to and with the first Quit, or all of them where no Quit waits.
    pub open spec fn drain_len(queue: Seq<Command>) -> int {
        match queue.index_of_first(Command::Quit) {
            Some(at) => at + 1,
            None => queue.len() as int,
        }
    }

    /// The commands that the next tick applies, in order. A loop that has quit
    /// applies none.
    pub open spec fn consumed(self) -> Seq<Command> {
        if self.state is Quit {
            Seq::empty()
        } else {
            self.queue.take(Self::drain_len(self.queue))
        }
    }

    /// The loop after the command stage of a tick: the commands taken are gone
    /// from the queue and have been applied to the state, first to last.
    pub open spec fn drained(self) -> TickLoopView {
        TickLoopView {
            queue: self.queue.skip(Self::drain_len(self.queue)),
            state: self.state.after_all(self.queue.take(Self::drain_len(self.queue))),
            ..self
        }
    }

    /// Whether a full step of real time has passed since the last step taken.
    pub open spec fn due(self, now_ms: u64) -> bool {
        now_ms - self.last_advance_ms >= STEP_MS
    }

    /// The loop after the time stage of a tick at the real time `now_ms`. Where a
    /// step is due, exactly one is taken, however much real time has passed: the
    /// simulation moves by one step in the direction of the state, and one step of
    /// real time counts as accounted for. What has passed beyond that stays owed.
    pub open spec fn advanced(self, now_ms: u64) -> TickLoopView {
        if self.due(now_ms) {
            TickLoopView {
                sim_time_ms: self.sim_time_ms + self.state.spec_direction() * STEP_MS,
                last_advance_ms: self.last_advance_ms + STEP_MS,
                ..self
            }
        } else {
            self
        }
    }

    /// The loop after one tick at the real time `now_ms`. A loop that has quit does
    /// not tick any more.
    pub open spec fn ticked(self, now_ms: u64) -> TickLoopView {
        if self.state is Quit {
            self
        } else {
            self.drained().advanced(now_ms)
        }
    }

    /// The loop after `count` ticks, all at the real time `now_ms`.
    pub open spec fn ticked_times(self, now_ms: u64, count: nat) -> TickLoopView
        decreases count,
    {
        if count == 0 {
            self
        } else {
            self.ticked(now_ms).ticked_times(now_ms, (count - 1) as nat)
        }
    }

    /// The whole steps of real time that are owed at `now_ms`.
    pub open spec fn backlog(self, now_ms: u64) -> int {
        if now_ms >= self.last_advance_ms {
            (now_ms - self.last_advance_ms) / STEP_MS as int
        } else {
            0
        }
    }

    /// The real time at `now_ms` that is owed beyond whole steps.
    pub open spec fn remainder(self, now_ms: u64) -> int {
        if now_ms >= self.last_advance_ms {
            (now_ms - self.last_advance_ms) % STEP_MS as int
        } else {
            0
        }
    }
}

/// Simulation time and the real time accounted for.
///
/// Every step moves simulation time by one step of real time that has passed, so
/// it stays within the real time accounted for, forward and backward. That is a
/// `u64` of milliseconds; an `i128` holds both ends.
struct Clock {
    sim_time_ms: i128,
    last_advance_ms: u64,
}

impl Clock {
    #[verifier::type_invariant]
    spec fn inv(&self) -> bool {
        -(self.last_advance_ms as int) <= self.sim_time_ms <= self.last_advance_ms as int
    }

    fn new() -> (clock: Self)
        ensures
            clock.sim_time_ms == 0,
            clock.last_advance_ms == 0,
    {
        Clock { sim_time_ms: 0, last_advance_ms: 0 }
    }

    /// Takes one step in the direction `sign` if a step is due at `now_ms`.
    fn advance(&mut self, now_ms: u64, sign: i8) -> (stepped: bool)
        requires
            -1 <= sign <= 1,
        ensures
            stepped == (now_ms - old(self).last_advance_ms >= STEP_MS),
            stepped ==> final(self).last_advance_ms == old(self).last_advance_ms + STEP_MS
                && final(self).sim_time_ms == old(self).sim_time_ms + sign * STEP_MS,
            !stepped ==> *final(self) == *old(self),
    {
        proof {
            use_type_invariant(&*self);
        }
        if now_ms >= self.last_advance_ms && now_ms - self.last_advance_ms >= STEP_MS {
            let step: i128 = STEP_MS as i128;
            self.last_advance_ms = self.last_advance_ms + STEP_MS;
            if sign > 0 {
                self.sim_time_ms = self.sim_time_ms + step;
            } else if sign < 0 {
                self.sim_time_ms = self.sim_time_ms - step;
            }
            true
        } else {
            false
        }
    }
}

/// What one tick did and what it asks for.
pub struct TickReport {
    /// The commands that this tick took from the queue and applied, in order.
    pub applied: Vec<Command>,
    /// Whether simulation time took a step.
    pub stepped: bool,
    /// Whether a frame is to be rendered. Every tick that runs asks for one,
    /// whether or not a step was taken.
    pub render: bool,
    /// Whether the loop is to end once this iteration is done.
    pub exit: bool,
}

/// The fixed-step control loop: it owns the command queue and the playback state,
/// and keeps simulation time.
pub struct TickLoop {
    commands: CommandBuffer,
    state: PlaybackState,
    clock: Clock,
}

impl View for TickLoop {
    type V = TickLoopView;

    closed spec fn view(&self) -> TickLoopView {
        TickLoopView {
            queue: self.commands@,
            state: self.state,
            sim_time_ms: self.clock.sim_time_ms as int,
            last_advance_ms: self.clock.last_advance_ms as int,
        }
    }
}

impl TickLoop {
    /// A loop at start: nothing waits, playback runs forward, no time has passed.
    pub fn new() -> (tick_loop: Self)
        ensures
            tick_loop@ == TickLoopView::initial(),
            tick_loop@.wf(),
    {
        TickLoop {
            commands: CommandBuffer::new(),
            state: PlaybackState::initial(),
            clock: Clock::new(),
        }
    }

    /// Puts a command at the tail of the queue. The next tick applies it, behind
    /// all that wait already.
    pub fn add_command(&mut self, command: Command)
        ensures
            final(self)@ == old(self)@.enqueued(command),
    {
        self.commands.add_command(command);
    }

    /// The playback state.
    pub fn state(&self) -> (state: PlaybackState)
        ensures
            state == self@.state,
    {
        self.state
    }

    /// The number of commands that wait.
    pub fn pending(&self) -> (count: usize)
        ensures
            count == self@.queue.len(),
    {
        self.commands.len()
    }

    /// Simulation time since start, in milliseconds. It never runs ahead of the
    /// real time accounted for.
    pub fn sim_time_ms(&self) -> (time_ms: i128)
        ensures
            time_ms == self@.sim_time_ms,
            self@.wf(),
    {
        proof {
            use_type_invariant(&self.clock);
        }
        self.clock.sim_time_ms
    }

    /// The real time, in milliseconds since start, up to which steps were taken.
    pub fn last_advance_ms(&self) -> (time_ms: u64)
        ensures
            time_ms == self@.last_advance_ms,
    {
        self.clock.last_advance_ms
    }

    /// The command stage of a tick: takes commands from the queue and applies each
    /// to the state, in order, until the queue is empty or a Quit has been applied.
    fn drain(&mut self) -> (applied: Vec<Command>)
        requires
            !(old(self)@.state is Quit),
        ensures
            applied@ == old(self)@.consumed(),
            final(self)@ == old(self)@.drained(),
    {
        let ghost queue = self@.queue;
        let ghost start = self.state;
        let ghost clock = self.clock;
        let mut applied: Vec<Command> = Vec::new();
        let mut done = false;
        while !done
            invariant
                applied@.len() <= queue.len(),
                applied@ == queue.take(applied@.len() as int),
                self.commands@ == queue.skip(applied@.len() as int),
                self.state == start.after_all(applied@),
                self.clock == clock,
                !done ==> forall|i: int| 0 <= i < applied@.len() ==> queue[i] != Command::Quit,
                done ==> applied@.len() == TickLoopView::drain_len(queue),
            decreases self.commands@.len() + (if done { 0int } else { 1int }),
        {
            let ghost taken = applied@;
            let ghost count = taken.len() as int;
            match self.commands.next_command() {
                None => {
                    proof {
                        TickLoopView::lemma_drain_all(queue);
                    }
                    done = true;
                },
                Some(command) => {
                    applied.push(command);
                    self.state = self.state.apply(command);
                    proof {
                        assert(applied@ =~= queue.take(count + 1));
                        assert(queue.skip(count).skip(1) =~= queue.skip(count + 1));
                        start.lemma_after_all_push(taken, command);
                    }
                    if command == Command::Quit {
                        proof {
                            TickLoopView::lemma_drain_to_quit(queue, count);
                        }
                        done = true;
                    }
                },
            }
        }
        applied
    }

    /// Runs one iteration of the loop at the real time `now_ms`, in milliseconds
    /// since start.
    ///
    /// A loop that has quit does nothing, asks for no frame and says again that it
    /// is over. Otherwise the tick first applies the waiting commands in order, up
    /// to and with the first Quit; then, where a full step of real time has passed
    /// since the last step, it takes exactly one step; then it asks for a frame.
    /// It asks for the end of the loop if the state is Quit.
    pub fn tick(&mut self, now_ms: u64) -> (report: TickReport)
        ensures
            final(self)@ == old(self)@.ticked(now_ms),
            final(self)@.wf(),
            report.applied@ == old(self)@.consumed(),
            report.stepped == (!(old(self)@.state is Quit) && old(self)@.due(now_ms)),
            report.render == !(old(self)@.state is Quit),
            report.exit == (final(self)@.state is Quit),
            -(STEP_MS as int) <= final(self)@.sim_time_ms - old(self)@.sim_time_ms <= STEP_MS,
    {
        proof {
            use_type_invariant(&self.clock);
        }
        if self.state.is_terminal() {
            return TickReport { applied: Vec::new(), stepped: false, render: false, exit: true };
        }
        let applied = self.drain();
        let stepped = self.clock.advance(now_ms, self.state.direction());
        proof {
            use_type_invariant(&self.clock);
        }
        TickReport { applied, stepped, render: true, exit: self.state.is_terminal() }
    }
}

impl TickLoopView {
    /// Where a Quit waits with no Quit before it, the command stage takes the
    /// commands up to and with that Quit.
    pub proof fn lemma_drain_to_quit(queue: Seq<Command>, at: int)
        requires
            0 <= at < queue.len(),
            queue[at] == Command::Quit,
            forall|i: int| 0 <= i < at ==> queue[i] != Command::Quit,
        ensures
            Self::drain_len(queue) == at + 1,
    {
        queue.index_of_first_ensures(Command::Quit);
    }

    /// Where no Quit waits, the command stage takes every command.
    pub proof fn lemma_drain_all(queue: Seq<Command>)
        requires
            forall|i: int| 0 <= i < queue.len() ==> queue[i] != Command::Quit,
        ensures
            Self::drain_len(queue) == queue.len(),
    {
        queue.index_of_first_ensures(Command::Quit);
    }

    /// What the command stage takes is a front part of the queue, not empty unless
    /// the queue is, with no Quit but at its end; and it ends in a Quit wherever it
    /// leaves a command waiting.
    pub proof fn lemma_drain_len(queue: Seq<Command>)
        ensures
            ({
                let count = Self::drain_len(queue);
                &&& 0 <= count <= queue.len()
                &&& queue.len() > 0 ==> count > 0
                &&& forall|i: int| 0 <= i < count - 1 ==> queue[i] != Command::Quit
                &&& count < queue.len() ==> queue[count - 1] == Command::Quit
            }),
    {
        queue.index_of_first_ensures(Command::Quit);
    }

    /// A tick moves simulation time by one step at most, forward or backward,
    /// however long ago the last tick was; and it counts one step of real time at
    /// most as accounted for.
    pub proof fn lemma_one_step_per_tick(self, now_ms: u64)
        ensures
            -(STEP_MS as int) <= self.ticked(now_ms).sim_time_ms - self.sim_time_ms <= STEP_MS,
            self.ticked(now_ms).last_advance_ms == self.last_advance_ms || self.ticked(
                now_ms,
            ).last_advance_ms == self.last_advance_ms + STEP_MS,
            self.wf() ==> self.ticked(now_ms).wf(),
    {
    }

    /// Once the loop has quit, neither a tick nor a new command changes its state;
    /// a tick changes nothing at all.
    pub proof fn lemma_quit_is_final(self, now_ms: u64, command: Command)
        requires
            self.state is Quit,
        ensures
            self.ticked(now_ms) == self,
            self.enqueued(command).state is Quit,
            self.enqueued(command).ticked(now_ms).state is Quit,
    {
    }

    /// A tick that finds a Quit among the waiting commands ends in Quit.
    pub proof fn lemma_tick_reaches_quit(self, now_ms: u64, at: int)
        requires
            0 <= at < self.queue.len(),
            self.queue[at] == Command::Quit,
        ensures
            self.ticked(now_ms).state is Quit,
    {
        if !(self.state is Quit) {
            Self::lemma_drain_len(self.queue);
            let count = Self::drain_len(self.queue);
            let taken = self.queue.take(count);
            if count == self.queue.len() {
                self.state.lemma_quit_anywhere(taken, at);
            } else {
                self.state.lemma_quit_anywhere(taken, count - 1);
            }
        }
    }

    /// A tick of a running loop that finds no Quit among the waiting commands
    /// empties the queue and leaves the loop running: in the state that the last
    /// command asks for, or in the state it was in where no command waits.
    pub proof fn lemma_tick_without_quit(self, now_ms: u64)
        requires
            !(self.state is Quit),
            forall|i: int| 0 <= i < self.queue.len() ==> self.queue[i] != Command::Quit,
        ensures
            self.ticked(now_ms).queue.len() == 0,
            !(self.ticked(now_ms).state is Quit),
            self.queue.len() == 0 ==> self.ticked(now_ms).state == self.state,
            self.queue.len() > 0 ==> self.ticked(now_ms).state == PlaybackState::target(
                self.queue.last(),
            ),
    {
        Self::lemma_drain_all(self.queue);
        let taken = self.queue.take(self.queue.len() as int);
        assert(taken =~= self.queue);
        if self.queue.len() > 0 {
            self.state.lemma_last_command_wins(self.queue);
        }
    }

    /// Real time that has passed is never dropped. A tick of a running loop takes
    /// one of the whole steps owed, if there is one, and leaves the part of a step
    /// that is owed beyond them as it was.
    pub proof fn lemma_tick_carries_over(self, now_ms: u64)
        requires
            self.wf(),
            !(self.state is Quit),
        ensures
            self.backlog(now_ms) > 0 ==> self.ticked(now_ms).backlog(now_ms) == self.backlog(
                now_ms,
            ) - 1,
            self.backlog(now_ms) == 0 ==> self.ticked(now_ms).backlog(now_ms) == 0,
            self.ticked(now_ms).remainder(now_ms) == self.remainder(now_ms),
            self.ticked(now_ms).last_advance_ms == self.last_advance_ms + (if self.backlog(now_ms)
                > 0 {
                STEP_MS as int
            } else {
                0
            }),
    {
    }

    /// Ticks that follow each other at one real time, on a running loop with no
    /// command waiting, take the whole steps owed one per tick and then no more:
    /// after `count` ticks, the lesser of `count` and the backlog have been taken,
    /// and the part of a step owed beyond whole steps is still owed.
    pub proof fn lemma_backlog_drains(self, now_ms: u64, count: nat)
        requires
            self.wf(),
            !(self.state is Quit),
            self.queue.len() == 0,
        ensures
            ({
                let steps = if count <= self.backlog(now_ms) {
                    count as int
                } else {
                    self.backlog(now_ms)
                };
                let end = self.ticked_times(now_ms, count);
                &&& end.last_advance_ms == self.last_advance_ms + steps * STEP_MS
                &&& end.sim_time_ms == self.sim_time_ms + steps * self.state.spec_direction()
                    * STEP_MS
                &&& end.state == self.state
                &&& end.remainder(now_ms) == self.remainder(now_ms)
            }),
        decreases count,
    {
        let sign = self.state.spec_direction();
        let owed = self.backlog(now_ms);
        let steps: int = if count <= owed { count as int } else { owed };
        if count == 0 {
            assert(steps * sign * STEP_MS == 0) by (nonlinear_arith)
                requires
                    steps == 0,
            ;
        } else {
            self.lemma_tick_without_quit(now_ms);
            let next = self.ticked(now_ms);
            next.lemma_backlog_drains(now_ms, (count - 1) as nat);
            let first: int = if owed > 0 { 1 } else { 0 };
            let later: int = if count - 1 <= next.backlog(now_ms) {
                count - 1
            } else {
                next.backlog(now_ms)
            };
            assert(next.sim_time_ms == self.sim_time_ms + first * sign * STEP_MS) by {
                assert(first * sign * STEP_MS == if owed > 0 { sign * STEP_MS } else { 0 })
                    by (nonlinear_arith)
                    requires
                        first == (if owed > 0 { 1int } else { 0int }),
                ;
            }
            assert(steps * sign * STEP_MS == first * sign * STEP_MS + later * sign * STEP_MS)
                by (nonlinear_arith)
                requires
                    steps == first + later,
            ;
        }
    }
}

} // verus!
