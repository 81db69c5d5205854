use snake::game::Direction;
use snake::input::{map_key_event, Key, PressKind, Signal};

#[test]
fn arrows_steer() {
    assert_eq!(
        map_key_event(Key::ArrowRight, PressKind::Press),
        Some(Signal::SetDirection(Direction::Right))
    );
    assert_eq!(
        map_key_event(Key::ArrowLeft, PressKind::Press),
        Some(Signal::SetDirection(Direction::Left))
    );
    assert_eq!(
        map_key_event(Key::ArrowUp, PressKind::Press),
        Some(Signal::SetDirection(Direction::Up))
    );
    assert_eq!(
        map_key_event(Key::ArrowDown, PressKind::Press),
        Some(Signal::SetDirection(Direction::Down))
    );
}

#[test]
fn escape_and_q_quit() {
    assert_eq!(map_key_event(Key::Escape, PressKind::Press), Some(Signal::Quit));
    assert_eq!(map_key_event(Key::Character('q'), PressKind::Press), Some(Signal::Quit));
    assert_eq!(map_key_event(Key::Character('Q'), PressKind::Press), Some(Signal::Quit));
}

#[test]
fn other_keys_do_nothing() {
    assert_eq!(map_key_event(Key::Character('a'), PressKind::Press), None);
    assert_eq!(map_key_event(Key::Character(' '), PressKind::Press), None);
    assert_eq!(map_key_event(Key::Other, PressKind::Press), None);
}

#[test]
fn only_presses_are_honored() {
    assert_eq!(map_key_event(Key::ArrowRight, PressKind::Release), None);
    assert_eq!(map_key_event(Key::ArrowRight, PressKind::Repeat), None);
    assert_eq!(map_key_event(Key::Escape, PressKind::Release), None);
    assert_eq!(map_key_event(Key::Character('q'), PressKind::Repeat), None);
}
