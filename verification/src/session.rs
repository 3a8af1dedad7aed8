use crate::commandbuffer::Command;
use crate::event::{command_for, translate_key, Event};
use crate::frame::{Frame, FrameView};
use crate::graphics::{Graphics, GraphicsView};
use crate::playback::PlaybackState;
use crate::surface::{Recovery, SurfaceFault};
use crate::targets::BufferRef;
use crate::tickloop::{TickLoop, TickLoopView};
use vstd::prelude::*;

verus! {

/// Why the loop ends.
#[derive(Clone, Copy, Debug, PartialEq, Eq, Structural)]
pub enum Exit {
    /// A Quit command was applied.
    Quit,
    /// The device could not go on.
    DeviceLost,
}

impl Exit {
    /// The status with which the process ends: zero after a Quit, one after the
    /// loss of the device.
    pub open spec fn spec_code(self) -> i32 {
        match self {
            Exit::Quit => 0,
            Exit::DeviceLost => 1,
        }
    }

    /// The status with which the process ends.
    pub fn code(self) -> (status: i32)
        ensures
            status == self.spec_code(),
    {
        match self {
            Exit::Quit => 0,
            Exit::DeviceLost => 1,
        }
    }
}

/// What the owner of the window and the device is to do next.
pub enum Action {
    /// Nothing.
    Idle,
    /// Configure the surface at this size and create the feedback buffers anew.
    Reconfigure { width: u32, height: u32 },
    /// Draw this frame on the image acquired and present it. With `annotate` the
    /// render stage also marks the frame as a debug frame.
    Draw { frame: Frame, annotate: bool },
    /// Ask the window for the next redraw.
    RequestRedraw,
    /// The image was not ready in time: note it, and drop this frame.
    SkipFrame,
}

/// The mathematical content of an [`Action`].
pub enum ActionView {
    Idle,
    Reconfigure { width: u32, height: u32 },
    Draw { frame: FrameView, annotate: bool },
    RequestRedraw,
    SkipFrame,
}

impl View for Action {
    type V = ActionView;

    open spec fn view(&self) -> ActionView {
        match *self {
            Action::Idle => ActionView::Idle,
            Action::Reconfigure { width, height } => ActionView::Reconfigure { width, height },
            Action::Draw { frame, annotate } => ActionView::Draw { frame: frame@, annotate },
            Action::RequestRedraw => ActionView::RequestRedraw,
            Action::SkipFrame => ActionView::SkipFrame,
        }
    }
}

/// The answer to one event.
pub struct Reaction {
    /// The commands that were taken from the queue and applied on this event, in
    /// order; for whoever wants to observe them.
    pub applied: Vec<Command>,
    /// What to do now.
    pub action: Action,
    /// Whether to leave the loop once the action is done, and why.
    pub exit: Option<Exit>,
}

/// The mathematical content of a [`Reaction`].
pub struct ReactionView {
    pub applied: Seq<Command>,
    pub action: ActionView,
    pub exit: Option<Exit>,
}

impl View for Reaction {
    type V = ReactionView;

    open spec fn view(&self) -> ReactionView {
        ReactionView { applied: self.applied@, action: self.action@, exit: self.exit }
    }
}

/// The mathematical content of a [`Session`].
pub struct SessionView {
    pub tick_loop: TickLoopView,
    pub graphics: GraphicsView,
    /// Set once the loop is over.
    pub exit: Option<Exit>,
}

impl SessionView {
    /// Both parts are well-formed.
    pub open spec fn wf(self) -> bool {
        self.tick_loop.wf() && self.graphics.wf()
    }

    /// The session at start, for a window of the given size.
    pub open spec fn initial(width: u32, height: u32) -> SessionView {
        SessionView {
            tick_loop: TickLoopView::initial(),
            graphics: GraphicsView::initial(width, height),
            exit: None,
        }
    }

    /// The state in which a redraw at `now_ms` leaves the control loop.
    pub open spec fn ticked(self, now_ms: u64) -> TickLoopView {
        self.tick_loop.ticked(now_ms)
    }

    /// The orchestrator as the frame of a redraw at `now_ms` finds it: it shows the
    /// simulation time that the tick of this redraw has reached.
    pub open spec fn updated(self, now_ms: u64) -> GraphicsView {
        self.graphics.updated(self.ticked(now_ms).sim_time_ms as i128)
    }

    /// Why the loop ends with a redraw, if it does: a fault that the device does not
    /// survive ends it with a failure, else a Quit that the tick has reached ends it.
    pub open spec fn redraw_exit(self, now_ms: u64, surface: Result<(), SurfaceFault>) -> Option<
        Exit,
    > {
        if surface matches Err(fault) && fault.spec_recovery() == Recovery::Fatal {
            Some(Exit::DeviceLost)
        } else if self.ticked(now_ms).state is Quit {
            Some(Exit::Quit)
        } else {
            None
        }
    }

    /// The session after a redraw request, for a session that still runs.
    pub open spec fn redrawn(
        self,
        now_ms: u64,
        surface: Result<(), SurfaceFault>,
        window_width: u32,
        window_height: u32,
    ) -> SessionView {
        if self.tick_loop.state is Quit {
            SessionView { exit: Some(Exit::Quit), ..self }
        } else {
            SessionView {
                tick_loop: self.ticked(now_ms),
                graphics: match surface {
                    Ok(_) => self.updated(now_ms).rendered(),
                    Err(fault) => match fault.spec_recovery() {
                        Recovery::Reconfigure => self.updated(now_ms).resized(
                            window_width,
                            window_height,
                        ),
                        _ => self.updated(now_ms),
                    },
                },
                exit: self.redraw_exit(now_ms, surface),
            }
        }
    }

    /// What a session that still runs asks for on a redraw request.
    pub open spec fn redraw_action(
        self,
        now_ms: u64,
        surface: Result<(), SurfaceFault>,
        window_width: u32,
        window_height: u32,
    ) -> ActionView {
        if self.tick_loop.state is Quit {
            ActionView::Idle
        } else {
            match surface {
                Ok(_) => ActionView::Draw {
                    frame: self.updated(now_ms).frame(),
                    annotate: self.ticked(now_ms).state is DebugDraw,
                },
                Err(fault) => match fault.spec_recovery() {
                    Recovery::Reconfigure => if GraphicsView::accepts_size(
                        window_width,
                        window_height,
                    ) {
                        ActionView::Reconfigure { width: window_width, height: window_height }
                    } else {
                        ActionView::Idle
                    },
                    Recovery::SkipFrame => ActionView::SkipFrame,
                    Recovery::Fatal => ActionView::Idle,
                },
            }
        }
    }

    /// The session after one event. A session that is over stays as it is.
    pub open spec fn after(self, event: Event) -> SessionView {
        if self.exit is Some {
            self
        } else {
            match event {
                Event::CloseRequested => SessionView {
                    tick_loop: self.tick_loop.enqueued(Command::Quit),
                    ..self
                },
                Event::Keyboard { key, state } => match command_for(key, state) {
                    Some(command) => SessionView {
                        tick_loop: self.tick_loop.enqueued(command),
                        ..self
                    },
                    None => self,
                },
                Event::Resized { width, height } => SessionView {
                    graphics: self.graphics.resized(width, height),
                    ..self
                },
                Event::RedrawRequested { now_ms, surface, window_width, window_height } => {
                    self.redrawn(now_ms, surface, window_width, window_height)
                },
                Event::RedrawEventsCleared => self,
                Event::Other => self,
            }
        }
    }

    /// The session after a run of events, first to last.
    pub open spec fn after_all(self, events: Seq<Event>) -> SessionView
        decreases events.len(),
    {
        if events.len() == 0 {
            self
        } else {
            self.after(events[0]).after_all(events.skip(1))
        }
    }

    /// The answer to one event. A session that is over asks for nothing but the
    /// end of the loop.
    pub open spec fn reaction(self, event: Event) -> ReactionView {
        if self.exit is Some {
            ReactionView { applied: Seq::empty(), action: ActionView::Idle, exit: self.exit }
        } else {
            match event {
                Event::Resized { width, height } => ReactionView {
                    applied: Seq::empty(),
                    action: if GraphicsView::accepts_size(width, height) {
                        ActionView::Reconfigure { width, height }
                    } else {
                        ActionView::Idle
                    },
                    exit: None,
                },
                Event::RedrawRequested { now_ms, surface, window_width, window_height } => {
                    ReactionView {
                        applied: self.tick_loop.consumed(),
                        action: self.redraw_action(now_ms, surface, window_width, window_height),
                        exit: self.redrawn(now_ms, surface, window_width, window_height).exit,
                    }
                },
                Event::RedrawEventsCleared => ReactionView {
                    applied: Seq::empty(),
                    action: ActionView::RequestRedraw,
                    exit: None,
                },
                _ => ReactionView { applied: Seq::empty(), action: ActionView::Idle, exit: None },
            }
        }
    }
}

impl SessionView {
    /// A session that is over stays as it is, whatever events follow, and answers
    /// each of them with the end of the loop and nothing else.
    pub proof fn lemma_over_is_final(self, events: Seq<Event>, event: Event)
        requires
            self.exit is Some,
        ensures
            self.after_all(events) == self,
            self.reaction(event).action == ActionView::Idle,
            self.reaction(event).exit == self.exit,
            self.reaction(event).applied.len() == 0,
        decreases events.len(),
    {
        if events.len() > 0 {
            self.lemma_over_is_final(events.skip(1), event);
        }
    }

    /// An event keeps the session well-formed, and never brings back a target set
    /// of an earlier epoch.
    pub proof fn lemma_after_keeps_order(self, event: Event)
        requires
            self.wf(),
        ensures
            self.after(event).wf(),
            self.after(event).graphics.targets.epoch >= self.graphics.targets.epoch,
    {
    }

    /// A run of events keeps the session well-formed, and never brings back a
    /// target set of an earlier epoch.
    pub proof fn lemma_after_all_keeps_order(self, events: Seq<Event>)
        requires
            self.wf(),
        ensures
            self.after_all(events).wf(),
            self.after_all(events).graphics.targets.epoch >= self.graphics.targets.epoch,
        decreases events.len(),
    {
        if events.len() > 0 {
            self.after(events[0]).lemma_after_all_keeps_order(events.skip(1));
        }
    }

    /// Every frame that the session hands out touches only buffers of the target
    /// set that is current at that moment, and no pass of it reads what it writes.
    pub proof fn lemma_draws_on_current_set(self, event: Event)
        requires
            self.wf(),
        ensures
            (self.reaction(event).action matches ActionView::Draw { frame, .. } ==> {
                &&& frame.feedback.uniforms.pass_index == 0
                &&& frame.composite.uniforms.pass_index == 1
                &&& frame.feedback.keeps_target_apart()
                &&& frame.composite.keeps_target_apart()
                &&& frame.feedback.writes(frame.composite.reads.first as int)
                &&& forall|buffer: BufferRef|
                    frame.touches(buffer) ==> self.graphics.targets.owns(buffer)
            }),
    {
    }

    /// After a resize event that takes effect, no frame that the session hands out
    /// touches a buffer of the target set which the resize destroyed, whatever
    /// events come between the resize and the frame.
    pub proof fn lemma_no_frame_on_destroyed_buffers(
        self,
        width: u32,
        height: u32,
        between: Seq<Event>,
        event: Event,
    )
        requires
            self.wf(),
            self.exit is None,
            GraphicsView::accepts_size(width, height),
        ensures
            ({
                let now = self.after(Event::Resized { width, height }).after_all(between);
                now.reaction(event).action matches ActionView::Draw { frame, .. } ==> forall|
                    buffer: BufferRef,
                |
                    frame.touches(buffer) ==> now.graphics.targets.owns(buffer)
                        && !self.graphics.targets.owns(buffer)
            }),
    {
        let resized = self.after(Event::Resized { width, height });
        resized.lemma_after_all_keeps_order(between);
    }

    /// Two redraws in a row on acquired surfaces, between which the loop does not
    /// end, give two frames whose passes run the indices 0, 1, 0, 1. The second
    /// frame writes another buffer than the first, and its composite pass reads the
    /// buffer written in the second frame. Commands that the ticks apply on the way
    /// change nothing of this.
    pub proof fn lemma_consecutive_draws(
        self,
        first_ms: u64,
        second_ms: u64,
        window_width: u32,
        window_height: u32,
    )
        requires
            self.wf(),
            self.exit is None,
            !(self.tick_loop.state is Quit),
            !(self.ticked(first_ms).state is Quit),
        ensures
            ({
                let first = Event::RedrawRequested {
                    now_ms: first_ms,
                    surface: Ok(()),
                    window_width,
                    window_height,
                };
                let second = Event::RedrawRequested {
                    now_ms: second_ms,
                    surface: Ok(()),
                    window_width,
                    window_height,
                };
                &&& self.reaction(first).action matches ActionView::Draw { frame: one, .. }
                &&& self.after(first).reaction(second).action matches ActionView::Draw {
                    frame: two,
                    ..
                }
                &&& one.feedback.uniforms.pass_index == 0
                &&& one.composite.uniforms.pass_index == 1
                &&& two.feedback.uniforms.pass_index == 0
                &&& two.composite.uniforms.pass_index == 1
                &&& two.feedback.target != one.feedback.target
                &&& two.feedback.writes(two.composite.reads.first as int)
                &&& !one.feedback.writes(two.composite.reads.first as int)
            }),
    {
    }
}

/// The whole of the demo's control state: the tick loop and the frame
/// orchestrator, driven by the events of the window system. It answers each event
/// with what to do next, and does nothing itself.
pub struct Session {
    tick_loop: TickLoop,
    graphics: Graphics,
    exit: Option<Exit>,
}

impl View for Session {
    type V = SessionView;

    closed spec fn view(&self) -> SessionView {
        SessionView { tick_loop: self.tick_loop@, graphics: self.graphics@, exit: self.exit }
    }
}

impl Session {
    /// A session for a window whose drawable area has the given size.
    pub fn new(width: u32, height: u32) -> (session: Self)
        ensures
            session@ == SessionView::initial(width, height),
            session@.wf(),
    {
        Session { tick_loop: TickLoop::new(), graphics: Graphics::new(width, height), exit: None }
    }

    /// Why the loop is over, if it is.
    pub fn exit(&self) -> (exit: Option<Exit>)
        ensures
            exit == self@.exit,
    {
        self.exit
    }

    /// The control loop, to look at.
    pub fn tick_loop(&self) -> (tick_loop: &TickLoop)
        ensures
            tick_loop@ == self@.tick_loop,
    {
        &self.tick_loop
    }

    /// The frame orchestrator, to look at.
    pub fn graphics(&self) -> (graphics: &Graphics)
        ensures
            graphics@ == self@.graphics,
    {
        &self.graphics
    }

    /// Recalls what holds of every session; the types of its parts guarantee it.
    fn recall_wf(&self)
        ensures
            self@.wf(),
    {
        let _ = self.tick_loop.sim_time_ms();
        let _ = self.graphics.write_index();
    }

    /// Handles a redraw request on a session that still runs: one tick of the
    /// control loop, then the frame, or what is to be done about a surface fault.
    fn redraw(
        &mut self,
        now_ms: u64,
        surface: Result<(), SurfaceFault>,
        window_width: u32,
        window_height: u32,
    ) -> (reaction: Reaction)
        requires
            old(self)@.exit is None,
        ensures
            final(self)@ == old(self)@.redrawn(now_ms, surface, window_width, window_height),
            reaction@.applied == old(self)@.tick_loop.consumed(),
            reaction@.action == old(self)@.redraw_action(
                now_ms,
                surface,
                window_width,
                window_height,
            ),
            reaction@.exit == final(self)@.exit,
            final(self)@.wf(),
    {
        self.recall_wf();
        let report = self.tick_loop.tick(now_ms);
        if !report.render {
            self.exit = Some(Exit::Quit);
            return Reaction { applied: report.applied, action: Action::Idle, exit: self.exit };
        }
        let annotate = match self.tick_loop.state() {
            PlaybackState::DebugDraw => true,
            _ => false,
        };
        self.graphics.update(self.tick_loop.sim_time_ms());
        let mut exit: Option<Exit> = if report.exit {
            Some(Exit::Quit)
        } else {
            None
        };
        let action = match self.graphics.render(surface) {
            Ok(frame) => Action::Draw { frame, annotate },
            Err(fault) => match fault.recovery() {
                Recovery::Reconfigure => {
                    if self.graphics.resize(window_width, window_height) {
                        Action::Reconfigure { width: window_width, height: window_height }
                    } else {
                        Action::Idle
                    }
                },
                Recovery::SkipFrame => Action::SkipFrame,
                Recovery::Fatal => {
                    exit = Some(Exit::DeviceLost);
                    Action::Idle
                },
            },
        };
        self.exit = exit;
        Reaction { applied: report.applied, action, exit }
    }

    /// Takes one event of the window system and answers with what is to be done.
    ///
    /// - A session that is over ignores the event and asks for the end of the loop.
    /// - A request to close the window puts a Quit command in the queue.
    /// - A key event puts the command of the key table in the queue, if it has one.
    /// - A new size goes to the orchestrator; where it takes effect, the surface is
    ///   to be configured again.
    /// - A redraw request runs one tick and then plans the frame. If the surface
    ///   image was not acquired, the fault decides: a stale surface is configured
    ///   again at the window's size, a timeout drops the frame, the loss of the
    ///   device ends the loop with a failure. A tick that reaches Quit ends the loop
    ///   after this frame.
    /// - When all events are handed out, the next redraw is asked for.
    pub fn on_event(&mut self, event: Event) -> (reaction: Reaction)
        ensures
            final(self)@ == old(self)@.after(event),
            reaction@ == old(self)@.reaction(event),
            final(self)@.wf(),
    {
        self.recall_wf();
        if self.exit.is_some() {
            return Reaction { applied: Vec::new(), action: Action::Idle, exit: self.exit };
        }
        if self.graphics.input(&event) {
            return Reaction { applied: Vec::new(), action: Action::Idle, exit: None };
        }
        match event {
            Event::CloseRequested => {
                self.tick_loop.add_command(Command::Quit);
                Reaction { applied: Vec::new(), action: Action::Idle, exit: None }
            },
            Event::Keyboard { key, state } => {
                match translate_key(key, state) {
                    Some(command) => {
                        self.tick_loop.add_command(command);
                    },
                    None => {},
                }
                Reaction { applied: Vec::new(), action: Action::Idle, exit: None }
            },
            Event::Resized { width, height } => {
                let action = if self.graphics.resize(width, height) {
                    Action::Reconfigure { width, height }
                } else {
                    Action::Idle
                };
                Reaction { applied: Vec::new(), action, exit: None }
            },
            Event::RedrawRequested { now_ms, surface, window_width, window_height } => {
                self.redraw(now_ms, surface, window_width, window_height)
            },
            Event::RedrawEventsCleared => {
                Reaction { applied: Vec::new(), action: Action::RequestRedraw, exit: None }
            },
            Event::Other => Reaction { applied: Vec::new(), action: Action::Idle, exit: None },
        }
    }
}

} // verus!
