use boardgame_core::boardgame::{
    Boardgame, BG_DESCRIPTION, BG_MAX_PLAYERS, BG_MIN_PLAYERS, BG_NAME, BG_PLAY_TIME,
};
use boardgame_core::engine::{App, Key};
use boardgame_core::mode::Mode;
use boardgame_core::region::Region;
use boardgame_core::registry::Action;

fn region(x: u16, y: u16, width: u16, height: u16) -> Region {
    Region {
        x,
        y,
        width,
        height,
    }
}

/// Registers the regions the main screen draws.
fn render_main(app: &mut App) {
    app.begin_frame();
    app.add_button(region(74, 0, 6, 3), Action::GoToQuit);
    app.add_button(region(0, 3, 80, 3), Action::GoToAddNew);
}

/// Registers the regions the add-record form draws.
fn render_adding(app: &mut App) {
    app.begin_frame();
    app.add_button(region(74, 0, 6, 3), Action::PrevMode);
    app.add_input(region(0, 3, 80, 3), BG_NAME.to_string());
    app.add_input(region(0, 6, 80, 3), BG_MIN_PLAYERS.to_string());
    app.add_input(region(0, 9, 80, 3), BG_MAX_PLAYERS.to_string());
    app.add_input(region(0, 12, 80, 3), BG_PLAY_TIME.to_string());
    app.add_input(region(0, 15, 80, 3), BG_DESCRIPTION.to_string());
    app.add_button(region(0, 18, 80, 3), Action::AddNewBoardgame);
}

/// Registers the regions the quit-confirmation screen draws.
fn render_quitting(app: &mut App) {
    app.begin_frame();
    app.add_button(region(0, 6, 40, 3), Action::Quit);
    app.add_button(region(40, 6, 40, 3), Action::PrevMode);
}

fn type_text(app: &mut App, text: &str, now: u64) {
    for c in text.chars() {
        app.on_key(Key::Char(c), now);
    }
}

#[test]
fn fresh_engine_state() {
    let app = App::new();
    assert_eq!(app.get_curr_mode(), Some(Mode::Main));
    assert_eq!(app.get_prev_mode(), None);
    assert_eq!(app.mode_count(), 1);
    assert!(!app.should_quit());
    assert_eq!(app.selected_input(), None);
    assert_eq!(app.message_count(), 0);
    assert_eq!(app.cursor(), None);
}

#[test]
fn transition_clears_registry_focus_buffers_and_messages() {
    let mut app = App::new();
    render_adding(&mut app);
    app.on_mouse_click(1, 4, 0); // focus the name field
    type_text(&mut app, "Catan", 1);
    app.send_message("pending".to_string(), 2);
    assert_eq!(app.selected_input(), Some(BG_NAME.to_string()));
    assert_eq!(app.input_text(&BG_NAME.to_string()), "Catan");
    assert_eq!(app.message_count(), 1);

    app.switch_mode(Mode::Adding);
    assert_eq!(app.selected_input(), None);
    assert_eq!(app.input_text(&BG_NAME.to_string()), "");
    assert_eq!(app.message_count(), 0);
    // The old input region is no longer registered: clicking it focuses
    // nothing and fires nothing.
    let r = app.on_mouse_click(1, 4, 3);
    assert!(r.is_none());
    assert_eq!(app.selected_input(), None);

    // A pop clears in the same way.
    render_adding(&mut app);
    app.on_mouse_click(1, 7, 4);
    type_text(&mut app, "3", 5);
    app.send_message("pending".to_string(), 6);
    app.prev_mode();
    assert_eq!(app.get_curr_mode(), Some(Mode::Main));
    assert_eq!(app.selected_input(), None);
    assert_eq!(app.input_text(&BG_MIN_PLAYERS.to_string()), "");
    assert_eq!(app.message_count(), 0);
}

#[test]
fn stale_region_of_earlier_frame_is_not_clickable() {
    let mut app = App::new();
    render_main(&mut app);
    // A new frame with a disjoint region set replaces the old one.
    app.begin_frame();
    app.add_button(region(0, 30, 10, 3), Action::GoToQuit);
    // (5, 4) was the add button of the earlier frame.
    let r = app.on_mouse_click(5, 4, 0);
    assert!(r.is_none());
    assert_eq!(app.get_curr_mode(), Some(Mode::Main));
    assert_eq!(app.mode_count(), 1);
    assert_eq!(app.message_count(), 0);
    assert_eq!(app.selected_input(), None);
}

#[test]
fn click_inside_input_focuses_and_fires_no_action() {
    let mut app = App::new();
    app.begin_frame();
    // An action region underneath the whole form: the input still wins.
    app.add_button(region(0, 0, 80, 30), Action::GoToQuit);
    app.add_input(region(0, 3, 80, 3), BG_NAME.to_string());
    let r = app.on_mouse_click(4, 4, 0);
    assert!(r.is_none());
    assert_eq!(app.selected_input(), Some(BG_NAME.to_string()));
    assert_eq!(app.mode_count(), 1); // GoToQuit did not fire
}

#[test]
fn typing_backspace_and_enter() {
    let mut app = App::new();
    render_adding(&mut app);
    app.on_mouse_click(1, 4, 0);
    assert_eq!(app.selected_input(), Some(BG_NAME.to_string()));
    app.on_key(Key::Char('a'), 1);
    app.on_key(Key::Char('b'), 2);
    app.on_key(Key::Backspace, 3);
    app.on_key(Key::Char('c'), 4);
    assert_eq!(app.input_text(&BG_NAME.to_string()), "ac");
    // Enter returns to unfocused without altering the buffer.
    app.on_key(Key::Enter, 5);
    assert_eq!(app.selected_input(), None);
    assert_eq!(app.input_text(&BG_NAME.to_string()), "ac");
    assert_eq!(app.message_count(), 0);
}

#[test]
fn unfocused_click_outside_everything_just_unfocuses() {
    let mut app = App::new();
    render_adding(&mut app);
    app.on_mouse_click(1, 4, 0);
    assert_eq!(app.selected_input(), Some(BG_NAME.to_string()));
    let r = app.on_mouse_click(1, 29, 1); // below every region
    assert!(r.is_none());
    assert_eq!(app.selected_input(), None);
    assert_eq!(app.get_curr_mode(), Some(Mode::Main));
}

#[test]
fn unhandled_keys_are_reported() {
    let mut app = App::new();
    // Unfocused: an unknown key queues a notice.
    app.on_key(Key::Other, 0);
    assert_eq!(app.get_messages(), vec!["Unhandled key".to_string()]);

    // Focused: an unknown key queues a notice and leaves the buffer alone.
    let mut app = App::new();
    render_adding(&mut app);
    app.on_mouse_click(1, 4, 0);
    type_text(&mut app, "hi", 1);
    app.on_key(Key::Other, 2);
    assert_eq!(app.input_text(&BG_NAME.to_string()), "hi");
    assert_eq!(app.get_messages(), vec!["Unhandled key".to_string()]);
    assert_eq!(app.selected_input(), Some(BG_NAME.to_string()));

    // Every key without a meaning here is reported, each press anew.
    app.on_key(Key::Other, 3);
    assert_eq!(app.message_count(), 2);
    assert_eq!(app.input_text(&BG_NAME.to_string()), "hi");
}

#[test]
fn debug_shortcut_names_the_back_target() {
    let mut app = App::new();
    app.on_key(Key::Char('d'), 0);
    assert_eq!(app.get_messages(), vec!["previous mode: none".to_string()]);

    let mut app = App::new();
    app.go_to_add_new();
    app.on_key(Key::Char('d'), 1);
    assert_eq!(app.get_messages(), vec!["previous mode: Main".to_string()]);
}

#[test]
fn unfocused_backspace_goes_back_one_mode() {
    let mut app = App::new();
    app.go_to_add_new();
    assert_eq!(app.mode_count(), 2);
    app.on_key(Key::Backspace, 0);
    assert_eq!(app.mode_count(), 1);
    assert_eq!(app.get_curr_mode(), Some(Mode::Main));
    // On the root mode a further backspace is a no-op.
    app.on_key(Key::Backspace, 1);
    assert_eq!(app.mode_count(), 1);
    assert_eq!(app.message_count(), 0);
}

#[test]
fn message_expiry_through_the_engine() {
    let mut app = App::new();
    let t0: u64 = 50_000;
    app.send_message("m1".to_string(), t0);
    app.send_message("m2".to_string(), t0 + 1_000);
    app.check_message_timeout(t0 + 3_500);
    assert_eq!(app.get_messages(), vec!["m2".to_string()]);
    app.check_message_timeout(t0 + 4_600);
    assert_eq!(app.get_messages(), Vec::<String>::new());
}

#[test]
fn cursor_tracking() {
    let mut app = App::new();
    app.update_cursor(12, 7);
    assert_eq!(app.cursor(), Some((12, 7)));
}

#[test]
fn add_boardgame_end_to_end() {
    let mut app = App::new();
    render_main(&mut app);

    // Click the add button: the adding mode goes on the stack and all
    // transient state is cleared.
    let r = app.on_mouse_click(10, 4, 0);
    assert!(r.is_none());
    assert_eq!(app.mode_count(), 2);
    assert_eq!(app.get_curr_mode(), Some(Mode::Adding));
    assert_eq!(app.get_prev_mode(), Some(Mode::Main));
    assert_eq!(app.selected_input(), None);
    assert_eq!(app.message_count(), 0);

    render_adding(&mut app);

    // Fill the name field with "Catan" and the min-players field with "x".
    app.on_mouse_click(1, 4, 1);
    type_text(&mut app, "Catan", 2);
    app.on_mouse_click(1, 7, 3);
    type_text(&mut app, "x", 4);

    // Submitting reports the bad numeric field and changes nothing else.
    let r = app.on_mouse_click(1, 19, 5);
    assert!(r.is_none());
    assert_eq!(
        app.get_messages(),
        vec!["Bad value for 'min players': invalid digit found in string".to_string()]
    );
    assert_eq!(app.get_curr_mode(), Some(Mode::Adding));
    assert_eq!(app.input_text(&BG_NAME.to_string()), "Catan");
    assert_eq!(app.input_text(&BG_MIN_PLAYERS.to_string()), "x");

    // Correct min players to "3" and fill max players with "4".
    app.on_mouse_click(1, 7, 6);
    app.on_key(Key::Backspace, 7);
    type_text(&mut app, "3", 8);
    app.on_mouse_click(1, 10, 9);
    type_text(&mut app, "4", 10);

    // Submitting now hands the parsed record out as a create request.
    let request = app.on_mouse_click(1, 19, 11).expect("a create request");
    assert_eq!(request.id, None);
    assert_eq!(request.name, "Catan");
    assert_eq!(request.min_players, 3);
    assert_eq!(request.max_players, 4);
    assert_eq!(request.play_time_minutes, 0);
    assert_eq!(request.description, "");
    // The engine waits for the store's answer before moving.
    assert_eq!(app.get_curr_mode(), Some(Mode::Adding));

    // The store succeeded: back to the main mode, with a success notice.
    app.on_create_result(Ok(1), 12);
    assert_eq!(app.mode_count(), 1);
    assert_eq!(app.get_curr_mode(), Some(Mode::Main));
    assert_eq!(
        app.get_messages(),
        vec!["Successfully added new boardgame!".to_string()]
    );
}

#[test]
fn failed_store_call_is_reported_and_not_applied() {
    let mut app = App::new();
    app.go_to_add_new();
    render_adding(&mut app);
    app.on_mouse_click(1, 4, 0);
    type_text(&mut app, "Catan", 1);
    let request = app.on_mouse_click(1, 19, 2).expect("a create request");
    assert_eq!(request.name, "Catan");
    app.on_create_result(Err("disk full".to_string()), 3);
    assert_eq!(app.get_curr_mode(), Some(Mode::Adding));
    assert_eq!(app.mode_count(), 2);
    assert_eq!(
        app.get_messages(),
        vec!["Error adding boardgame: disk full".to_string()]
    );
    // The form is still there to retry.
    assert_eq!(app.input_text(&BG_NAME.to_string()), "Catan");
}

#[test]
fn empty_numeric_buffer_is_reported_on_submit() {
    let mut app = App::new();
    app.go_to_add_new();
    render_adding(&mut app);
    // Give min players a buffer, then erase it: present but empty.
    app.on_mouse_click(1, 7, 0);
    type_text(&mut app, "5", 1);
    app.on_key(Key::Backspace, 2);
    let r = app.on_mouse_click(1, 19, 3);
    assert!(r.is_none());
    assert_eq!(
        app.get_messages(),
        vec!["Bad value for 'min players': cannot parse integer from empty string".to_string()]
    );
    assert_eq!(app.get_curr_mode(), Some(Mode::Adding));
}

#[test]
fn list_result_passes_records_through() {
    let mut app = App::new();
    let records = vec![Boardgame {
        id: Some(1),
        name: "Catan".to_string(),
        min_players: 3,
        max_players: 4,
        play_time_minutes: 60,
        description: "Resource management and trading game".to_string(),
    }];
    let r = app.on_list_result(Ok(records), 0);
    assert_eq!(r.len(), 1);
    assert_eq!(r[0].name, "Catan");
    assert_eq!(r[0].min_players, 3);
    assert_eq!(app.message_count(), 0);
}

#[test]
fn failed_list_call_is_reported_and_yields_nothing() {
    let mut app = App::new();
    let r = app.on_list_result(Err("disk full".to_string()), 0);
    assert!(r.is_empty());
    assert_eq!(
        app.get_messages(),
        vec!["Error getting boardgames: disk full".to_string()]
    );
    assert_eq!(app.get_curr_mode(), Some(Mode::Main));
}

#[test]
fn quit_flow() {
    let mut app = App::new();
    // The quit shortcut enters the confirmation screen.
    app.on_key(Key::Char('q'), 0);
    assert_eq!(app.mode_count(), 2);
    assert_eq!(app.get_curr_mode(), Some(Mode::Quitting));
    assert_eq!(app.get_prev_mode(), Some(Mode::Main));

    // "No" goes back to the main screen.
    render_quitting(&mut app);
    let r = app.on_mouse_click(50, 7, 1);
    assert!(r.is_none());
    assert_eq!(app.mode_count(), 1);
    assert_eq!(app.get_curr_mode(), Some(Mode::Main));
    assert!(!app.should_quit());

    // "Yes" sets the quit flag; the loop stops at its next check.
    app.on_key(Key::Char('q'), 2);
    render_quitting(&mut app);
    let r = app.on_mouse_click(10, 7, 3);
    assert!(r.is_none());
    assert!(app.should_quit());
}
