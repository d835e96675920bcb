use boardgame_core::focus::FocusModel;
use boardgame_core::messages::{MessageQueue, MESSAGE_TIMEOUT_MS};
use boardgame_core::mode::{Mode, ModeStack};
use boardgame_core::region::Region;
use boardgame_core::registry::{Action, HitTestRegistry};

fn region(x: u16, y: u16, width: u16, height: u16) -> Region {
    Region {
        x,
        y,
        width,
        height,
    }
}

#[test]
fn region_containment() {
    let r = region(2, 3, 4, 2);
    assert!(r.contains(2, 3));
    assert!(r.contains(5, 4));
    assert!(!r.contains(6, 3));
    assert!(!r.contains(2, 5));
    assert!(!r.contains(1, 3));
    assert!(!r.contains(2, 2));
}

#[test]
fn empty_region_contains_nothing() {
    let r = region(5, 5, 0, 3);
    assert!(!r.contains(5, 5));
    let r = region(5, 5, 3, 0);
    assert!(!r.contains(5, 5));
}

#[test]
fn mode_stack_root_is_never_popped() {
    let mut s = ModeStack::new(Mode::Main);
    assert_eq!(s.len(), 1);
    assert_eq!(s.current(), Mode::Main);
    assert_eq!(s.previous(), None);
    s.pop();
    assert_eq!(s.len(), 1);
    assert_eq!(s.current(), Mode::Main);
}

#[test]
fn mode_stack_push_pop_sequence() {
    let mut s = ModeStack::new(Mode::Main);
    s.push(Mode::Adding);
    assert_eq!(s.len(), 2);
    assert_eq!(s.current(), Mode::Adding);
    assert_eq!(s.previous(), Some(Mode::Main));
    s.push(Mode::Quitting);
    assert_eq!(s.len(), 3);
    assert_eq!(s.current(), Mode::Quitting);
    assert_eq!(s.previous(), Some(Mode::Adding));
    s.pop();
    assert_eq!(s.current(), Mode::Adding);
    s.pop();
    assert_eq!(s.current(), Mode::Main);
    s.pop();
    s.pop();
    assert_eq!(s.len(), 1);
    assert_eq!(s.current(), Mode::Main);
    assert_eq!(s.current_opt(), Some(Mode::Main));
}

#[test]
fn registry_misses_when_empty() {
    let r = HitTestRegistry::new();
    assert_eq!(r.hit_test_action(0, 0), None);
    assert_eq!(r.hit_test_input(0, 0), None);
}

#[test]
fn registry_hit_and_miss() {
    let mut r = HitTestRegistry::new();
    r.register_action(region(0, 0, 10, 2), Action::GoToAddNew);
    r.register_input(region(0, 5, 10, 2), "name".to_string());
    assert_eq!(r.hit_test_action(3, 1), Some(Action::GoToAddNew));
    assert_eq!(r.hit_test_action(3, 4), None);
    assert_eq!(r.hit_test_input(3, 6), Some("name".to_string()));
    assert_eq!(r.hit_test_input(3, 1), None);
}

#[test]
fn registry_last_registration_wins_on_overlap() {
    let mut r = HitTestRegistry::new();
    r.register_action(region(0, 0, 10, 10), Action::GoToAddNew);
    r.register_action(region(5, 5, 10, 10), Action::GoToQuit);
    // Only the first region covers (2, 2); both cover (6, 6).
    assert_eq!(r.hit_test_action(2, 2), Some(Action::GoToAddNew));
    assert_eq!(r.hit_test_action(6, 6), Some(Action::GoToQuit));
    r.register_input(region(0, 0, 4, 4), "a".to_string());
    r.register_input(region(0, 0, 4, 4), "b".to_string());
    assert_eq!(r.hit_test_input(1, 1), Some("b".to_string()));
}

#[test]
fn registry_clear_forgets_all_bindings() {
    let mut r = HitTestRegistry::new();
    r.register_action(region(0, 0, 10, 10), Action::Quit);
    r.register_input(region(0, 0, 10, 10), "name".to_string());
    r.clear();
    assert_eq!(r.action_count(), 0);
    assert_eq!(r.input_count(), 0);
    assert_eq!(r.hit_test_action(1, 1), None);
    assert_eq!(r.hit_test_input(1, 1), None);
}

#[test]
fn focus_selection_and_buffers() {
    let key = "name".to_string();
    let mut f = FocusModel::new();
    assert!(!f.is_focused());
    assert_eq!(f.selected_field(), None);
    assert_eq!(f.buffer_of(&key), None);
    assert_eq!(f.current_text(&key), "");
    f.select(key.clone());
    assert!(f.is_focused());
    assert_eq!(f.selected_field(), Some(key.clone()));
    f.append_char(&key, 'h');
    f.append_char(&key, 'i');
    assert_eq!(f.buffer_of(&key), Some("hi".to_string()));
    f.backspace(&key);
    assert_eq!(f.current_text(&key), "h");
    f.unselect();
    assert!(!f.is_focused());
    // The buffer outlives the focus.
    assert_eq!(f.current_text(&key), "h");
    f.clear();
    assert_eq!(f.buffer_of(&key), None);
}

#[test]
fn focus_backspace_on_missing_buffer_leaves_it_empty() {
    let key = "name".to_string();
    let mut f = FocusModel::new();
    f.backspace(&key);
    assert_eq!(f.buffer_of(&key), Some(String::new()));
}

#[test]
fn focus_touch_creates_empty_buffer_once() {
    let key = "name".to_string();
    let mut f = FocusModel::new();
    f.touch(&key);
    assert_eq!(f.buffer_of(&key), Some(String::new()));
    f.append_char(&key, 'z');
    f.touch(&key);
    assert_eq!(f.buffer_of(&key), Some("z".to_string()));
}

#[test]
fn message_queue_is_fifo_and_only_front_expires() {
    let mut q = MessageQueue::new();
    let t0: u64 = 10_000;
    q.push("m1".to_string(), t0);
    q.push("m2".to_string(), t0 + 1_000);
    assert_eq!(q.snapshot(), vec!["m1".to_string(), "m2".to_string()]);
    // At t0 + 3.5 s only m1 has waited out the 3 s timeout.
    assert!(q.expire_if_due(t0 + 3_500, MESSAGE_TIMEOUT_MS));
    assert_eq!(q.snapshot(), vec!["m2".to_string()]);
    // m2 has only waited 2.5 s: nothing happens.
    assert!(!q.expire_if_due(t0 + 3_500, MESSAGE_TIMEOUT_MS));
    assert_eq!(q.len(), 1);
    // At t0 + 4.6 s m2 has waited 3.6 s and leaves too.
    assert!(q.expire_if_due(t0 + 4_600, MESSAGE_TIMEOUT_MS));
    assert_eq!(q.len(), 0);
    assert!(!q.expire_if_due(t0 + 10_000, MESSAGE_TIMEOUT_MS));
}

#[test]
fn message_queue_clear() {
    let mut q = MessageQueue::new();
    q.push("a".to_string(), 0);
    q.push("b".to_string(), 0);
    q.clear();
    assert_eq!(q.len(), 0);
    assert_eq!(q.snapshot(), Vec::<String>::new());
}
