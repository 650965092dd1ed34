use accord_console::prompt::{handle_key, Key, KeyOutcome};
use accord_console::state::App;

fn type_line(app: &mut App, line: &str) {
    for c in line.chars() {
        let r = handle_key(app, Key::Char(c));
        assert!(matches!(r, KeyOutcome::Stay));
    }
}

fn submit(app: &mut App) -> Option<String> {
    match handle_key(app, Key::Enter) {
        KeyOutcome::Submit(s) => Some(s),
        KeyOutcome::Stay => None,
        KeyOutcome::Quit => panic!("enter never quits"),
    }
}

#[test]
fn typing_auto_prefixes_slash() {
    let mut app = App::new();
    type_line(&mut app, "help");
    assert_eq!(app.prompt_input, "/help");
}

#[test]
fn typing_a_slash_first_is_not_doubled() {
    let mut app = App::new();
    type_line(&mut app, "/help");
    assert_eq!(app.prompt_input, "/help");
}

#[test]
fn enter_submits_trimmed_line_and_clears_buffer() {
    let mut app = App::new();
    type_line(&mut app, "/help");
    let line = submit(&mut app).unwrap();
    assert_eq!(line, "/help");
    assert_eq!(app.prompt_input, "");
    assert_eq!(app.prompt_history, vec!["/help".to_string()]);
    assert_eq!(app.prompt_history_idx, None);
}

#[test]
fn enter_on_blank_buffer_does_nothing() {
    let mut app = App::new();
    assert!(submit(&mut app).is_none());
    assert!(app.prompt_history.is_empty());
}

#[test]
fn history_skips_consecutive_duplicates() {
    let mut app = App::new();
    for _ in 0..3 {
        type_line(&mut app, "/peers");
        submit(&mut app).unwrap();
    }
    type_line(&mut app, "/help");
    submit(&mut app).unwrap();
    type_line(&mut app, "/peers");
    submit(&mut app).unwrap();
    assert_eq!(
        app.prompt_history,
        vec!["/peers".to_string(), "/help".to_string(), "/peers".to_string()]
    );
    // no two neighbouring entries are equal
    for w in app.prompt_history.windows(2) {
        assert_ne!(w[0], w[1]);
    }
}

#[test]
fn backspace_edits_and_leaves_browsing() {
    let mut app = App::new();
    type_line(&mut app, "/peerz");
    handle_key(&mut app, Key::Backspace);
    assert_eq!(app.prompt_input, "/peer");
    type_line(&mut app, "s");
    assert_eq!(app.prompt_input, "/peers");
}

#[test]
fn browsing_round_trip_restores_live_empty_buffer() {
    let mut app = App::new();
    for line in ["/help", "/peers", "/users"] {
        type_line(&mut app, line);
        submit(&mut app).unwrap();
    }
    // up three times, down three times: back to live with an empty buffer
    for _ in 0..3 {
        handle_key(&mut app, Key::Up);
    }
    assert_eq!(app.prompt_history_idx, Some(0));
    assert_eq!(app.prompt_input, "/help");
    for _ in 0..3 {
        handle_key(&mut app, Key::Down);
    }
    assert_eq!(app.prompt_history_idx, None);
    assert_eq!(app.prompt_input, "");
}

#[test]
fn browsing_mirrors_entries_and_saturates_at_oldest() {
    let mut app = App::new();
    for line in ["/help", "/peers"] {
        type_line(&mut app, line);
        submit(&mut app).unwrap();
    }
    handle_key(&mut app, Key::Up);
    assert_eq!(app.prompt_input, "/peers");
    handle_key(&mut app, Key::Up);
    assert_eq!(app.prompt_input, "/help");
    handle_key(&mut app, Key::Up);
    // already at the oldest entry
    assert_eq!(app.prompt_input, "/help");
    assert_eq!(app.prompt_history_idx, Some(0));
}

#[test]
fn up_on_empty_history_is_a_noop() {
    let mut app = App::new();
    handle_key(&mut app, Key::Up);
    assert_eq!(app.prompt_history_idx, None);
    assert_eq!(app.prompt_input, "");
}

#[test]
fn editing_while_browsing_returns_to_live() {
    let mut app = App::new();
    type_line(&mut app, "/help");
    submit(&mut app).unwrap();
    handle_key(&mut app, Key::Up);
    assert_eq!(app.prompt_history_idx, Some(0));
    type_line(&mut app, "x");
    assert_eq!(app.prompt_history_idx, None);
    assert_eq!(app.prompt_input, "/helpx");
}

#[test]
fn escape_and_cancel_ask_to_quit() {
    let mut app = App::new();
    assert!(matches!(handle_key(&mut app, Key::Esc), KeyOutcome::Quit));
    assert!(matches!(handle_key(&mut app, Key::CtrlC), KeyOutcome::Quit));
}

#[test]
fn page_keys_scroll_with_saturation() {
    let mut app = App::new();
    app.content_scroll = 4;
    handle_key(&mut app, Key::PageUp);
    assert_eq!(app.content_scroll, 0);
    handle_key(&mut app, Key::PageDown);
    handle_key(&mut app, Key::PageDown);
    assert_eq!(app.content_scroll, 20);
    app.content_scroll = 65530;
    handle_key(&mut app, Key::PageDown);
    assert_eq!(app.content_scroll, 65535);
}

#[test]
fn submitted_whitespace_is_trimmed() {
    let mut app = App::new();
    handle_key(&mut app, Key::Char('/'));
    type_line(&mut app, "help  ");
    let line = submit(&mut app).unwrap();
    assert_eq!(line, "/help");
}
