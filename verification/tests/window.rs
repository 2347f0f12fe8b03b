use vk_renderer::window::{
    close_requested, translate_key, Event, EventQueue, KeyCode, ACTION_PRESS, KEY_ESCAPE,
};

const ESCAPE: Event = Event::KeyPressed(KeyCode::Escape);

#[test]
fn escape_pressed_is_an_event() {
    assert_eq!(translate_key(256, 1), Some(ESCAPE));
    assert_eq!(translate_key(KEY_ESCAPE, ACTION_PRESS), Some(ESCAPE));
}

#[test]
fn other_key_reports_are_no_events() {
    assert_eq!(translate_key(256, 0), None);
    assert_eq!(translate_key(256, 2), None);
    assert_eq!(translate_key(65, 1), None);
    assert_eq!(translate_key(-1, 1), None);
    assert_eq!(translate_key(1, 256), None);
}

#[test]
fn queue_hands_out_its_events_once() {
    let mut queue = EventQueue::new();
    assert!(queue.drain().is_empty());
    queue.record_key(256, 1);
    queue.record_key(65, 1);
    queue.record_key(256, 0);
    queue.record_key(256, 1);
    assert_eq!(queue.drain(), vec![ESCAPE, ESCAPE]);
    assert!(queue.drain().is_empty());
    queue.record_key(256, 1);
    assert_eq!(queue.drain(), vec![ESCAPE]);
}

#[test]
fn escape_asks_for_the_window_to_close() {
    assert!(close_requested(&vec![ESCAPE]));
    assert!(close_requested(&vec![ESCAPE, ESCAPE]));
    assert!(!close_requested(&Vec::new()));
}
