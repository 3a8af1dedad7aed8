use crate::commandbuffer::Command;
use vstd::prelude::*;

verus! {

/// What the demo is doing. Exactly one value exists per tick loop; only commands
/// taken from the queue change it.
#[derive(Clone, Copy, Debug, PartialEq, Eq, Structural)]
pub enum PlaybackState {
    Playing,
    Paused,
    PlayingForward,
    PlayingReverse,
    DebugDraw,
    /// Terminal: once entered, every further command is swallowed.
    Quit,
}

impl PlaybackState {
    /// The state that a command asks for.
    pub open spec fn target(command: Command) -> PlaybackState {
        match command {
            Command::Play => PlaybackState::Playing,
            Command::Pause => PlaybackState::Paused,
            Command::PlayForward => PlaybackState::PlayingForward,
            Command::PlayReverse => PlaybackState::PlayingReverse,
            Command::DebugDraw => PlaybackState::DebugDraw,
            Command::Quit => PlaybackState::Quit,
        }
    }

    /// The state after one command: the command's target, unless the machine has
    /// already quit.
    pub open spec fn after(self, command: Command) -> PlaybackState {
        if self is Quit {
            PlaybackState::Quit
        } else {
            Self::target(command)
        }
    }

    /// The state after a run of commands, applied first to last.
    pub open spec fn after_all(self, commands: Seq<Command>) -> PlaybackState
        decreases commands.len(),
    {
        if commands.len() == 0 {
            self
        } else {
            self.after(commands[0]).after_all(commands.skip(1))
        }
    }

    /// The sign with which simulation time moves on a due tick: backward when
    /// playing in reverse, not at all when paused or quit, forward otherwise.
    pub open spec fn spec_direction(self) -> int {
        match self {
            PlaybackState::PlayingReverse => -1,
            PlaybackState::Paused | PlaybackState::Quit => 0,
            _ => 1,
        }
    }

    /// The state in which a tick loop starts: playback runs at once, forward.
    pub fn initial() -> (state: Self)
        ensures
            state == PlaybackState::Playing,
    {
        PlaybackState::Playing
    }

    /// Applies one command.
    pub fn apply(self, command: Command) -> (next: Self)
        ensures
            next == self.after(command),
    {
        match self {
            PlaybackState::Quit => PlaybackState::Quit,
            _ => match command {
                Command::Play => PlaybackState::Playing,
                Command::Pause => PlaybackState::Paused,
                Command::PlayForward => PlaybackState::PlayingForward,
                Command::PlayReverse => PlaybackState::PlayingReverse,
                Command::DebugDraw => PlaybackState::DebugDraw,
                Command::Quit => PlaybackState::Quit,
            },
        }
    }

    /// Whether the machine has quit.
    pub fn is_terminal(self) -> (terminal: bool)
        ensures
            terminal == (self is Quit),
    {
        match self {
            PlaybackState::Quit => true,
            _ => false,
        }
    }

    /// The sign with which simulation time moves on a due tick.
    pub fn direction(self) -> (sign: i8)
        ensures
            sign == self.spec_direction(),
    {
        match self {
            PlaybackState::PlayingReverse => -1,
            PlaybackState::Paused | PlaybackState::Quit => 0,
            _ => 1,
        }
    }
}

impl PlaybackState {
    /// Quit is absorbing. From every state a Quit command leads to Quit, and from
    /// Quit no run of commands leads anywhere else.
    pub proof fn lemma_quit_absorbs(self, commands: Seq<Command>)
        ensures
            self.after(Command::Quit) == PlaybackState::Quit,
            self.after(Command::Quit).after_all(commands) == PlaybackState::Quit,
            PlaybackState::Quit.after_all(commands) == PlaybackState::Quit,
        decreases commands.len(),
    {
        if commands.len() > 0 {
            self.lemma_quit_absorbs(commands.skip(1));
        }
    }

    /// A run of commands that holds a Quit anywhere ends in Quit, whatever comes
    /// after it.
    pub proof fn lemma_quit_anywhere(self, commands: Seq<Command>, at: int)
        requires
            0 <= at < commands.len(),
            commands[at] == Command::Quit,
        ensures
            self.after_all(commands) == PlaybackState::Quit,
        decreases commands.len(),
    {
        if at == 0 {
            self.lemma_quit_absorbs(commands.skip(1));
        } else {
            self.after(commands[0]).lemma_quit_anywhere(commands.skip(1), at - 1);
        }
    }

    /// Applying a run of commands and then one more is applying the longer run.
    pub proof fn lemma_after_all_push(self, commands: Seq<Command>, command: Command)
        ensures
            self.after_all(commands.push(command)) == self.after_all(commands).after(command),
        decreases commands.len(),
    {
        let longer = commands.push(command);
        if commands.len() == 0 {
            assert(self.after(command).after_all(longer.skip(1)) == self.after(command));
        } else {
            assert(longer.skip(1) =~= commands.skip(1).push(command));
            self.after(commands[0]).lemma_after_all_push(commands.skip(1), command);
        }
    }

    /// Every command sets the state: while the machine has not quit, the state after
    /// a non-empty run of commands is the target of the last one.
    pub proof fn lemma_last_command_wins(self, commands: Seq<Command>)
        requires
            !(self is Quit),
            commands.len() > 0,
            forall|i: int| 0 <= i < commands.len() - 1 ==> commands[i] != Command::Quit,
        ensures
            self.after_all(commands) == Self::target(commands.last()),
        decreases commands.len(),
    {
        if commands.len() == 1 {
            assert(self.after(commands[0]).after_all(commands.skip(1)) == self.after(commands[0]));
        } else {
            let rest = commands.skip(1);
            assert forall|i: int| 0 <= i < rest.len() - 1 implies rest[i] != Command::Quit by {
                assert(rest[i] == commands[i + 1]);
            }
            self.after(commands[0]).lemma_last_command_wins(rest);
        }
    }
}

} // verus!
