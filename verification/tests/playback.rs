use wgpu_solar::commandbuffer::Command;
use wgpu_solar::playback::PlaybackState;

const STATES: [PlaybackState; 6] = [
    PlaybackState::Playing,
    PlaybackState::Paused,
    PlaybackState::PlayingForward,
    PlaybackState::PlayingReverse,
    PlaybackState::DebugDraw,
    PlaybackState::Quit,
];

const COMMANDS: [Command; 6] = [
    Command::Play,
    Command::Pause,
    Command::PlayForward,
    Command::PlayReverse,
    Command::DebugDraw,
    Command::Quit,
];

#[test]
fn playback_starts_playing() {
    assert_eq!(PlaybackState::initial(), PlaybackState::Playing);
    assert!(!PlaybackState::initial().is_terminal());
}

#[test]
fn each_command_sets_its_state() {
    for state in STATES {
        if state == PlaybackState::Quit {
            continue;
        }
        assert_eq!(state.apply(Command::Play), PlaybackState::Playing);
        assert_eq!(state.apply(Command::Pause), PlaybackState::Paused);
        assert_eq!(state.apply(Command::PlayForward), PlaybackState::PlayingForward);
        assert_eq!(state.apply(Command::PlayReverse), PlaybackState::PlayingReverse);
        assert_eq!(state.apply(Command::DebugDraw), PlaybackState::DebugDraw);
        assert_eq!(state.apply(Command::Quit), PlaybackState::Quit);
    }
}

#[test]
fn quit_swallows_every_command() {
    for command in COMMANDS {
        assert_eq!(PlaybackState::Quit.apply(command), PlaybackState::Quit);
    }
    for state in STATES {
        let mut current = state.apply(Command::Quit);
        assert_eq!(current, PlaybackState::Quit);
        for command in COMMANDS {
            current = current.apply(command);
            assert_eq!(current, PlaybackState::Quit);
        }
    }
}

#[test]
fn only_quit_is_terminal() {
    for state in STATES {
        assert_eq!(state.is_terminal(), state == PlaybackState::Quit);
    }
}

#[test]
fn direction_follows_the_state() {
    assert_eq!(PlaybackState::Playing.direction(), 1);
    assert_eq!(PlaybackState::PlayingForward.direction(), 1);
    assert_eq!(PlaybackState::DebugDraw.direction(), 1);
    assert_eq!(PlaybackState::PlayingReverse.direction(), -1);
    assert_eq!(PlaybackState::Paused.direction(), 0);
    assert_eq!(PlaybackState::Quit.direction(), 0);
}
