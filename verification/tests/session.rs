use wgpu_solar::commandbuffer::Command;
use wgpu_solar::event::{Event, Key, KeyState};
use wgpu_solar::frame::{ClearColor, RenderTarget};
use wgpu_solar::playback::PlaybackState;
use wgpu_solar::session::{Action, Exit, Reaction, Session};
use wgpu_solar::surface::SurfaceFault;
use wgpu_solar::targets::ReadSet;

fn redraw(now_ms: u64) -> Event {
    Event::RedrawRequested { now_ms, surface: Ok(()), window_width: 960, window_height: 540 }
}

fn failed(now_ms: u64, fault: SurfaceFault, window_width: u32, window_height: u32) -> Event {
    Event::RedrawRequested { now_ms, surface: Err(fault), window_width, window_height }
}

fn released(key: Key) -> Event {
    Event::Keyboard { key, state: KeyState::Released }
}

fn is_idle(reaction: &Reaction) -> bool {
    matches!(reaction.action, Action::Idle) && reaction.applied.is_empty()
}

#[test]
fn exit_codes_tell_quit_from_device_loss() {
    assert_eq!(Exit::Quit.code(), 0);
    assert_eq!(Exit::DeviceLost.code(), 1);
}

#[test]
fn a_new_session_runs() {
    let session = Session::new(960, 540);
    assert_eq!(session.exit(), None);
    assert_eq!(session.tick_loop().state(), PlaybackState::Playing);
    assert_eq!(session.tick_loop().pending(), 0);
    assert_eq!(session.graphics().width(), 960);
    assert_eq!(session.graphics().height(), 540);
}

#[test]
fn keys_put_commands_in_the_queue() {
    let mut session = Session::new(960, 540);
    let reaction = session.on_event(released(Key::K));
    assert!(is_idle(&reaction));
    assert_eq!(reaction.exit, None);
    assert_eq!(session.tick_loop().pending(), 1);
    assert_eq!(session.tick_loop().state(), PlaybackState::Playing);

    session.on_event(Event::Keyboard { key: Key::J, state: KeyState::Pressed });
    session.on_event(released(Key::Other));
    assert_eq!(session.tick_loop().pending(), 1);

    let reaction = session.on_event(redraw(16));
    assert_eq!(reaction.applied, vec![Command::Pause]);
    assert_eq!(session.tick_loop().state(), PlaybackState::Paused);
    assert_eq!(reaction.exit, None);
}

#[test]
fn a_redraw_ticks_and_draws() {
    let mut session = Session::new(960, 540);
    let reaction = session.on_event(redraw(20));
    assert!(reaction.applied.is_empty());
    assert_eq!(reaction.exit, None);
    match reaction.action {
        Action::Draw { frame, annotate } => {
            assert!(!annotate);
            assert_eq!(frame.feedback.uniforms.time_ms, 16);
            assert_eq!(frame.composite.uniforms.time_ms, 16);
            assert_eq!(frame.feedback.uniforms.pass_index, 0);
            assert_eq!(frame.composite.uniforms.pass_index, 1);
            assert_eq!(frame.feedback.target, RenderTarget::Feedback(0));
            assert_eq!(frame.feedback.clear, ClearColor::Blue);
            assert_eq!(frame.composite.target, RenderTarget::Surface);
            assert_eq!(frame.composite.clear, ClearColor::Black);
            assert_eq!(frame.composite.reads, ReadSet { first: 0, second: 1, third: 2 });
        }
        _ => panic!("a redraw on an acquired surface draws"),
    }
    assert_eq!(session.tick_loop().sim_time_ms(), 16);
    assert_eq!(session.graphics().time_ms(), 16);
    assert_eq!(session.graphics().write_index(), 3);
}

#[test]
fn a_redraw_draws_even_when_no_step_is_due() {
    let mut session = Session::new(960, 540);
    let reaction = session.on_event(redraw(3));
    match reaction.action {
        Action::Draw { frame, .. } => assert_eq!(frame.feedback.uniforms.time_ms, 0),
        _ => panic!("every tick that runs asks for a frame"),
    }
    assert_eq!(session.tick_loop().sim_time_ms(), 0);
}

#[test]
fn play_debug_quit_draws_a_last_frame_and_ends() {
    let mut session = Session::new(960, 540);
    session.on_event(released(Key::Space));
    session.on_event(released(Key::Grave));
    session.on_event(released(Key::Escape));
    assert_eq!(session.tick_loop().pending(), 3);

    let reaction = session.on_event(redraw(5));
    assert_eq!(reaction.applied, vec![Command::Play, Command::DebugDraw, Command::Quit]);
    assert!(matches!(reaction.action, Action::Draw { .. }));
    assert_eq!(reaction.exit, Some(Exit::Quit));
    assert_eq!(session.exit(), Some(Exit::Quit));
    assert_eq!(session.tick_loop().state(), PlaybackState::Quit);

    let later = session.on_event(redraw(500));
    assert!(is_idle(&later));
    assert_eq!(later.exit, Some(Exit::Quit));
    assert_eq!(session.tick_loop().sim_time_ms(), 0);
    assert_eq!(session.graphics().write_index(), 3);

    let key = session.on_event(released(Key::Space));
    assert!(is_idle(&key));
    assert_eq!(key.exit, Some(Exit::Quit));
    assert_eq!(session.tick_loop().pending(), 0);
    assert_eq!(session.tick_loop().state(), PlaybackState::Quit);
}

#[test]
fn closing_the_window_is_a_quit_command() {
    let mut session = Session::new(960, 540);
    let reaction = session.on_event(Event::CloseRequested);
    assert!(is_idle(&reaction));
    assert_eq!(reaction.exit, None);
    assert_eq!(session.exit(), None);
    assert_eq!(session.tick_loop().pending(), 1);

    let reaction = session.on_event(redraw(0));
    assert_eq!(reaction.applied, vec![Command::Quit]);
    assert!(matches!(reaction.action, Action::Draw { .. }));
    assert_eq!(reaction.exit, Some(Exit::Quit));
}

#[test]
fn a_debug_frame_is_annotated() {
    let mut session = Session::new(960, 540);
    session.on_event(released(Key::Grave));
    let reaction = session.on_event(redraw(0));
    assert!(matches!(reaction.action, Action::Draw { annotate: true, .. }));
    session.on_event(released(Key::Space));
    let reaction = session.on_event(redraw(1));
    assert!(matches!(reaction.action, Action::Draw { annotate: false, .. }));
}

#[test]
fn a_resize_asks_for_a_new_configuration() {
    let mut session = Session::new(960, 540);
    session.on_event(redraw(16));
    assert_eq!(session.graphics().write_index(), 3);
    let reaction = session.on_event(Event::Resized { width: 1280, height: 720 });
    assert!(matches!(reaction.action, Action::Reconfigure { width: 1280, height: 720 }));
    assert_eq!(reaction.exit, None);
    assert_eq!(session.graphics().width(), 1280);
    assert_eq!(session.graphics().height(), 720);
    assert_eq!(session.graphics().write_index(), 0);

    let reaction = session.on_event(redraw(32));
    match reaction.action {
        Action::Draw { frame, .. } => {
            assert_eq!(frame.feedback.uniforms.width, 1280);
            assert_eq!(frame.feedback.uniforms.height, 720);
            assert_eq!(frame.feedback.target, RenderTarget::Feedback(0));
        }
        _ => panic!("a redraw after a resize draws"),
    }
}

#[test]
fn a_resize_to_nothing_is_ignored() {
    let mut session = Session::new(960, 540);
    let reaction = session.on_event(Event::Resized { width: 0, height: 720 });
    assert!(is_idle(&reaction));
    assert_eq!(session.graphics().width(), 960);
    assert_eq!(session.graphics().height(), 540);
}

#[test]
fn a_stale_surface_is_configured_again_and_the_loop_goes_on() {
    for fault in [SurfaceFault::Lost, SurfaceFault::Outdated] {
        let mut session = Session::new(960, 540);
        session.on_event(redraw(16));
        let reaction = session.on_event(failed(32, fault, 800, 600));
        assert!(matches!(reaction.action, Action::Reconfigure { width: 800, height: 600 }));
        assert_eq!(reaction.exit, None);
        assert_eq!(session.exit(), None);
        assert_eq!(session.graphics().width(), 800);
        assert_eq!(session.graphics().height(), 600);
        assert_eq!(session.tick_loop().sim_time_ms(), 32);

        let reaction = session.on_event(redraw(48));
        assert!(matches!(reaction.action, Action::Draw { .. }));

        let reaction = session.on_event(failed(64, fault, 0, 0));
        assert!(matches!(reaction.action, Action::Idle));
        assert_eq!(reaction.exit, None);
        assert_eq!(session.graphics().width(), 800);
    }
}

#[test]
fn a_timeout_skips_one_frame() {
    let mut session = Session::new(960, 540);
    session.on_event(redraw(16));
    assert_eq!(session.graphics().write_index(), 3);
    let reaction = session.on_event(failed(32, SurfaceFault::Timeout, 960, 540));
    assert!(matches!(reaction.action, Action::SkipFrame));
    assert_eq!(reaction.exit, None);
    assert_eq!(session.graphics().write_index(), 3);
    assert_eq!(session.tick_loop().sim_time_ms(), 32);
    let reaction = session.on_event(redraw(48));
    match reaction.action {
        Action::Draw { frame, .. } => {
            assert_eq!(frame.feedback.target, RenderTarget::Feedback(3));
            assert_eq!(frame.feedback.uniforms.time_ms, 48);
        }
        _ => panic!("the loop goes on after a timeout"),
    }
}

#[test]
fn out_of_memory_ends_the_loop_with_a_failure() {
    let mut session = Session::new(960, 540);
    let reaction = session.on_event(failed(16, SurfaceFault::OutOfMemory, 960, 540));
    assert!(matches!(reaction.action, Action::Idle));
    assert_eq!(reaction.exit, Some(Exit::DeviceLost));
    assert_eq!(session.exit(), Some(Exit::DeviceLost));
    assert_eq!(session.exit().unwrap().code(), 1);
    assert_eq!(session.tick_loop().state(), PlaybackState::Playing);

    let reaction = session.on_event(redraw(32));
    assert!(is_idle(&reaction));
    assert_eq!(reaction.exit, Some(Exit::DeviceLost));
    let reaction = session.on_event(Event::RedrawEventsCleared);
    assert!(is_idle(&reaction));
    assert_eq!(reaction.exit, Some(Exit::DeviceLost));
}

#[test]
fn a_fault_on_the_quit_frame_still_ends_the_loop() {
    let mut session = Session::new(960, 540);
    session.on_event(released(Key::Escape));
    let reaction = session.on_event(failed(16, SurfaceFault::Timeout, 960, 540));
    assert_eq!(reaction.applied, vec![Command::Quit]);
    assert!(matches!(reaction.action, Action::SkipFrame));
    assert_eq!(reaction.exit, Some(Exit::Quit));

    let mut session = Session::new(960, 540);
    session.on_event(released(Key::Escape));
    let reaction = session.on_event(failed(16, SurfaceFault::OutOfMemory, 960, 540));
    assert_eq!(reaction.exit, Some(Exit::DeviceLost));
}

#[test]
fn cleared_events_ask_for_the_next_redraw() {
    let mut session = Session::new(960, 540);
    let reaction = session.on_event(Event::RedrawEventsCleared);
    assert!(matches!(reaction.action, Action::RequestRedraw));
    assert!(reaction.applied.is_empty());
    assert_eq!(reaction.exit, None);
    let reaction = session.on_event(Event::Other);
    assert!(is_idle(&reaction));
    assert_eq!(reaction.exit, None);
}

#[test]
fn frames_after_a_resize_use_the_new_set_only() {
    let mut session = Session::new(960, 540);
    for now in 0..5 {
        session.on_event(redraw(now * 16));
    }
    session.on_event(Event::Resized { width: 100, height: 50 });
    session.on_event(released(Key::J));
    for now in 5..12 {
        let reaction = session.on_event(redraw(now * 16));
        match reaction.action {
            Action::Draw { frame, .. } => {
                for pass in frame.passes() {
                    assert_eq!(pass.uniforms.width, 100);
                    assert_eq!(pass.uniforms.height, 50);
                    assert!(pass.reads.first < 4 && pass.reads.second < 4 && pass.reads.third < 4);
                }
                let expected = (4 - (now as usize - 5) % 4) % 4;
                assert_eq!(frame.feedback.target, RenderTarget::Feedback(expected));
            }
            _ => panic!("a redraw on an acquired surface draws"),
        }
    }
}
