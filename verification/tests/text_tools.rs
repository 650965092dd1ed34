use accord_console::dispatch::listen_addr;
use accord_console::state::{App, NodeStatus};
use accord_console::text::{split_command, truncate_id};

#[test]
fn split_at_first_space_trims_the_rest() {
    assert_eq!(split_command("/port 8080"), ("/port", "8080"));
    assert_eq!(split_command("/help"), ("/help", ""));
    assert_eq!(split_command("/message bob hello world"), ("/message", "bob hello world"));
    assert_eq!(split_command("/nick   spacey"), ("/nick", "spacey"));
}

#[test]
fn truncate_keeps_short_ids_and_marks_cut_ones() {
    assert_eq!(truncate_id("short", 16), "short");
    assert_eq!(truncate_id("0123456789abcdef0123", 16), "0123456789abcdef…");
    assert_eq!(truncate_id("exact-len-here!!", 16), "exact-len-here!!");
}

#[test]
fn listen_addr_embeds_the_port_in_decimal() {
    assert_eq!(listen_addr(51030), "/ip4/0.0.0.0/tcp/51030");
    assert_eq!(listen_addr(1), "/ip4/0.0.0.0/tcp/1");
    assert_eq!(listen_addr(65535), "/ip4/0.0.0.0/tcp/65535");
}

#[test]
fn fresh_session_matches_the_documented_defaults() {
    let app = App::new();
    assert_eq!(app.listen_port, 51030);
    assert!(app.node_handle.is_none());
    assert!(matches!(app.node_status, NodeStatus::Stopped));
    assert_eq!(app.content_title, " Accord ");
    assert_eq!(
        app.content_lines,
        vec![
            "Welcome to Accord!".to_string(),
            "Starting the P2P node…".to_string(),
            "Type /help to see all available commands.".to_string(),
        ]
    );
    assert_eq!(app.events, app.content_lines);
    assert!(app.output.is_empty());
    assert!(!app.should_quit);
}

#[test]
fn status_text_shows_address_when_running() {
    assert_eq!(NodeStatus::Stopped.status_text(), "Stopped");
    let running = NodeStatus::Running { addr: "/ip4/0.0.0.0/tcp/51030".to_string() };
    assert_eq!(running.status_text(), "Running  (/ip4/0.0.0.0/tcp/51030)");
}

#[test]
fn set_content_frames_title_and_resets_scroll() {
    let mut app = App::new();
    app.content_scroll = 9;
    app.set_content("Peers", vec!["a".to_string(), "b".to_string()]);
    assert_eq!(app.content_title, " Peers ");
    assert_eq!(app.content_lines, vec!["a".to_string(), "b".to_string()]);
    assert_eq!(app.content_scroll, 0);
}

#[test]
fn logs_append_in_order() {
    let mut app = App::new();
    let before = app.events.len();
    app.push_event("one");
    app.push_event("two");
    app.push_output("out");
    assert_eq!(app.events[before..], ["one".to_string(), "two".to_string()]);
    assert_eq!(app.output, vec!["out".to_string()]);
}
