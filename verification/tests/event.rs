use wgpu_solar::commandbuffer::Command;
use wgpu_solar::event::{translate_key, Key, KeyState};

#[test]
fn released_keys_follow_the_table() {
    assert_eq!(translate_key(Key::Escape, KeyState::Released), Some(Command::Quit));
    assert_eq!(translate_key(Key::J, KeyState::Released), Some(Command::PlayReverse));
    assert_eq!(translate_key(Key::K, KeyState::Released), Some(Command::Pause));
    assert_eq!(translate_key(Key::L, KeyState::Released), Some(Command::PlayForward));
    assert_eq!(translate_key(Key::Space, KeyState::Released), Some(Command::Play));
    assert_eq!(translate_key(Key::Grave, KeyState::Released), Some(Command::DebugDraw));
}

#[test]
fn pressed_keys_give_no_command() {
    let keys = [Key::Escape, Key::J, Key::K, Key::L, Key::Space, Key::Grave, Key::Other];
    for key in keys {
        assert_eq!(translate_key(key, KeyState::Pressed), None);
    }
}

#[test]
fn keys_outside_the_table_give_no_command() {
    assert_eq!(translate_key(Key::Other, KeyState::Released), None);
    assert_eq!(translate_key(Key::Other, KeyState::Pressed), None);
}
