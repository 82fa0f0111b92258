//! State machine scenarios: toggling, confirmation answers, custom
//! duration entry, quitting, and render-pass idempotence.

use tomato::app::{App, Key};
use tomato::structs::{Session, SessionType, State, UserConfig};
use tomato::widgets::ConfirmWidget;

const NOW: u64 = 1_000_000;

fn fresh_app() -> App {
    App::new(&UserConfig::default())
}

fn press(app: &mut App, c: char) -> bool {
    app.handle_event(Key::Char(c), NOW)
}

#[test]
fn defaults_are_25_and_5() {
    let config = UserConfig::default();
    assert_eq!(config.default_work_duration, 25);
    assert_eq!(config.default_break_duration, 5);
    assert!(matches!(State::default(), State::Idle));
}

#[test]
fn session_new_records_its_fields() {
    let s = Session::new(SessionType::Break, 7, NOW);
    assert!(matches!(s.session_type, SessionType::Break));
    assert_eq!(s.duration, 7);
    assert_eq!(s.start, NOW);
}

#[test]
fn toggle_from_idle_starts_default_work_session() {
    let mut app = fresh_app();
    assert!(matches!(app.state, State::Idle));
    assert!(app.current_session.is_none());
    let notify = press(&mut app, ' ');
    assert!(!notify);
    assert!(matches!(app.state, State::WorkSession));
    let s = app.current_session.expect("a session must be running");
    assert!(matches!(s.session_type, SessionType::Work));
    assert_eq!(s.duration, 25);
    assert_eq!(s.start, NOW);
}

#[test]
fn toggle_from_work_asks_for_a_break() {
    let mut app = fresh_app();
    press(&mut app, ' ');
    let notify = press(&mut app, ' ');
    assert!(notify, "leaving work must fire the break-time notification");
    assert!(matches!(app.state, State::ConfirmBreak));
    assert!(app.current_session.is_none());
}

#[test]
fn toggle_from_break_asks_for_work() {
    let mut app = fresh_app();
    press(&mut app, ' ');
    press(&mut app, ' ');
    press(&mut app, 'y');
    assert!(matches!(app.state, State::BreakSession));
    let notify = press(&mut app, ' ');
    assert!(!notify);
    assert!(matches!(app.state, State::ConfirmWork));
    assert!(app.current_session.is_none());
}

#[test]
fn confirm_break_yes_starts_default_break() {
    let mut app = fresh_app();
    press(&mut app, ' ');
    press(&mut app, ' ');
    press(&mut app, 'y');
    assert!(matches!(app.state, State::BreakSession));
    let s = app.current_session.expect("a session must be running");
    assert!(matches!(s.session_type, SessionType::Break));
    assert_eq!(s.duration, 5);
}

#[test]
fn confirm_break_no_resumes_default_work() {
    let mut app = fresh_app();
    press(&mut app, ' ');
    press(&mut app, ' ');
    press(&mut app, 'n');
    assert!(matches!(app.state, State::WorkSession));
    let s = app.current_session.expect("a session must be running");
    assert!(matches!(s.session_type, SessionType::Work));
    assert_eq!(s.duration, 25);
}

#[test]
fn confirm_work_answers_mirror() {
    let mut app = fresh_app();
    press(&mut app, ' ');
    press(&mut app, ' ');
    press(&mut app, 'y');
    press(&mut app, ' ');
    assert!(matches!(app.state, State::ConfirmWork));
    press(&mut app, 'y');
    assert!(matches!(app.state, State::WorkSession));
    let s = app.current_session.expect("a session must be running");
    assert!(matches!(s.session_type, SessionType::Work));
    assert_eq!(s.duration, 25);
}

#[test]
fn typed_break_duration_is_used() {
    let mut app = fresh_app();
    press(&mut app, ' ');
    press(&mut app, ' ');
    // "type a custom time": the buffer is seeded with the default break
    // duration ("5"); clear the seed, then type 45 and confirm.
    press(&mut app, 't');
    assert!(matches!(app.state, State::BreakInput));
    assert_eq!(app.input, "5");
    app.handle_event(Key::Backspace, NOW);
    assert_eq!(app.input, "");
    press(&mut app, '4');
    press(&mut app, '5');
    assert_eq!(app.input, "45");
    app.handle_event(Key::Enter, NOW);
    assert!(matches!(app.state, State::BreakSession));
    let s = app.current_session.expect("a session must be running");
    assert!(matches!(s.session_type, SessionType::Break));
    assert_eq!(s.duration, 45);
}

#[test]
fn input_seeded_and_confirmed_unchanged_uses_seed() {
    let mut app = fresh_app();
    press(&mut app, ' ');
    press(&mut app, ' ');
    press(&mut app, 'y');
    press(&mut app, ' ');
    press(&mut app, 't');
    assert!(matches!(app.state, State::WorkInput));
    assert_eq!(app.input, "25");
    app.handle_event(Key::Enter, NOW);
    assert!(matches!(app.state, State::WorkSession));
    assert_eq!(app.current_session.unwrap().duration, 25);
}

#[test]
fn nonnumeric_entry_falls_back_to_default() {
    let mut app = fresh_app();
    press(&mut app, ' ');
    press(&mut app, ' ');
    press(&mut app, 'y');
    press(&mut app, ' ');
    press(&mut app, 't');
    assert!(matches!(app.state, State::WorkInput));
    // Empty the seeded buffer, then try to type letters: they are
    // rejected, and enter silently falls back to the default.
    app.handle_event(Key::Backspace, NOW);
    app.handle_event(Key::Backspace, NOW);
    assert_eq!(app.input, "");
    press(&mut app, 'a');
    press(&mut app, 'b');
    assert_eq!(app.input, "", "non-digits must never reach the buffer");
    app.handle_event(Key::Enter, NOW);
    assert!(matches!(app.state, State::WorkSession));
    let s = app.current_session.expect("a session must be running");
    assert!(matches!(s.session_type, SessionType::Work));
    assert_eq!(s.duration, 25, "fallback must be the configured default");
}

#[test]
fn nonparsing_buffer_on_enter_uses_default() {
    // A buffer that does not parse is no error: the default is used.
    let mut app = App {
        state: State::WorkInput,
        exit: false,
        current_session: None,
        input: "ab".to_string(),
        default_work_duration: 25,
        default_break_duration: 5,
    };
    app.handle_event(Key::Enter, NOW);
    assert!(matches!(app.state, State::WorkSession));
    assert_eq!(app.current_session.unwrap().duration, 25);
}

#[test]
fn quit_sets_exit_and_freezes_the_machine() {
    let mut app = fresh_app();
    press(&mut app, ' ');
    assert!(!app.exit);
    press(&mut app, 'q');
    assert!(app.exit);
    assert!(matches!(app.state, State::WorkSession));
    // Further events change nothing.
    let notify = press(&mut app, ' ');
    assert!(!notify);
    assert!(matches!(app.state, State::WorkSession));
    assert!(app.current_session.is_some());
    press(&mut app, 'y');
    app.handle_event(Key::Enter, NOW);
    assert!(matches!(app.state, State::WorkSession));
    assert!(app.exit);
}

#[test]
fn quit_works_while_typing() {
    let mut app = fresh_app();
    press(&mut app, ' ');
    press(&mut app, ' ');
    press(&mut app, 't');
    assert!(matches!(app.state, State::BreakInput));
    press(&mut app, 'q');
    assert!(app.exit);
}

#[test]
fn evaluate_shows_the_countdown_and_is_idempotent() {
    let mut app = fresh_app();
    press(&mut app, ' ');
    let (shown1, notify1) = app.evaluate(NOW + 10);
    assert_eq!(shown1, Some("24m 50s".to_string()));
    assert!(!notify1);
    assert!(matches!(app.state, State::WorkSession));
    // Same instant, no new input: the same text again, nothing moves.
    let (shown2, notify2) = app.evaluate(NOW + 10);
    assert_eq!(shown2, Some("24m 50s".to_string()));
    assert!(!notify2);
    assert!(matches!(app.state, State::WorkSession));
}

#[test]
fn evaluate_expiry_advances_to_confirm_break() {
    let mut app = fresh_app();
    press(&mut app, ' ');
    // 25 minutes later the work session is over.
    let (shown, notify) = app.evaluate(NOW + 25 * 60);
    assert_eq!(shown, None);
    assert!(notify, "work expiry must fire the break-time notification");
    assert!(matches!(app.state, State::ConfirmBreak));
    assert!(app.current_session.is_none());
    // A second pass at the same instant changes nothing more.
    let (shown_again, notify_again) = app.evaluate(NOW + 25 * 60);
    assert_eq!(shown_again, None);
    assert!(!notify_again);
    assert!(matches!(app.state, State::ConfirmBreak));
}

#[test]
fn evaluate_break_expiry_advances_to_confirm_work() {
    let mut app = fresh_app();
    press(&mut app, ' ');
    press(&mut app, ' ');
    press(&mut app, 'y');
    let (shown, notify) = app.evaluate(NOW + 5 * 60);
    assert_eq!(shown, None);
    assert!(!notify, "break expiry is silent");
    assert!(matches!(app.state, State::ConfirmWork));
}

#[test]
fn evaluate_after_quit_does_nothing() {
    let mut app = fresh_app();
    press(&mut app, ' ');
    press(&mut app, 'q');
    let (shown, notify) = app.evaluate(NOW + 25 * 60);
    assert_eq!(shown, None);
    assert!(!notify);
    assert!(matches!(app.state, State::WorkSession));
    assert!(app.current_session.is_some());
}

#[test]
fn confirm_widget_questions() {
    let w = ConfirmWidget::for_state(&State::ConfirmBreak).expect("a prompt");
    assert_eq!(w.question, " Do you need a break? ");
    let w = ConfirmWidget::for_state(&State::ConfirmWork).expect("a prompt");
    assert_eq!(w.question, " Back to work? ");
    assert!(ConfirmWidget::for_state(&State::Idle).is_none());
    assert!(ConfirmWidget::for_state(&State::WorkSession).is_none());
}
