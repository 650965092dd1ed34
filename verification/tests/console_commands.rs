use accord_console::dispatch::{
    execute, finish_accept_connection, finish_create_connection, finish_create_user,
    finish_get_user, finish_get_users, finish_nick, finish_start_node, finish_store_message,
    listen_addr, report_error, Env, NodeRequest, Pending,
};
use accord_console::state::{App, ConnectionRecord, KnownUser, NodeStatus, UserRecord};

fn empty_env() -> Env {
    Env { local_user: None, known_users: Vec::new(), peers: Vec::new(), connections: Vec::new() }
}

fn user(id: &str, name: Option<&str>, local: bool) -> UserRecord {
    UserRecord {
        id: id.to_string(),
        public_key: format!("pk-{}", id),
        display_name: name.map(|n| n.to_string()),
        is_local: local,
    }
}

fn known(id: &str, name: Option<&str>) -> KnownUser {
    KnownUser { id: id.to_string(), display_name: name.map(|n| n.to_string()) }
}

fn start_node(app: &mut App, env: &Env) {
    match execute(app, "/startNode", env) {
        Pending::StartNode { addr } => finish_start_node(app, &addr, Ok(7)),
        p => panic!("expected a start request, got {}", kind(&p)),
    }
}

fn kind(p: &Pending) -> &'static str {
    match p {
        Pending::Done => "done",
        Pending::StartNode { .. } => "start",
        Pending::Shutdown { .. } => "shutdown",
        Pending::Restart { .. } => "restart",
        Pending::SaveNick { .. } => "save-nick",
        Pending::Node { .. } => "node",
    }
}

#[test]
fn user_while_node_stopped_reports_not_running() {
    // Node not running: `/user` renders the uniform refusal and touches
    // neither the caches nor the history.
    let mut app = App::new();
    let env = empty_env();
    let users_before = app.users.len();
    let history_before = app.prompt_history.len();
    let p = execute(&mut app, "/user", &env);
    assert!(matches!(p, Pending::Done));
    assert_eq!(app.content_lines, vec!["Node is not running. Use /startNode first.".to_string()]);
    assert_eq!(app.content_title, " User ");
    assert_eq!(app.users.len(), users_before);
    assert_eq!(app.prompt_history.len(), history_before);
}

#[test]
fn port_out_of_range_is_rejected_without_restart() {
    let mut app = App::new();
    let env = empty_env();
    let p = execute(&mut app, "/port 70000", &env);
    assert!(matches!(p, Pending::Done));
    assert_eq!(app.listen_port, 51030);
    assert_eq!(
        app.output.last().unwrap(),
        "Error: '70000' is not a valid port number (1–65535)."
    );
    assert!(matches!(app.node_status, NodeStatus::Stopped));
}

#[test]
fn port_zero_is_rejected() {
    let mut app = App::new();
    let env = empty_env();
    let p = execute(&mut app, "/port 0", &env);
    assert!(matches!(p, Pending::Done));
    assert_eq!(app.listen_port, 51030);
    assert_eq!(app.content_lines, vec!["Port must be between 1 and 65535.".to_string()]);
}

#[test]
fn port_without_argument_shows_current_port() {
    let mut app = App::new();
    let env = empty_env();
    let p = execute(&mut app, "/port", &env);
    assert!(matches!(p, Pending::Done));
    assert_eq!(
        app.content_lines,
        vec!["Current port: 51030  |  Usage: /port <port>".to_string()]
    );
}

#[test]
fn port_change_restarts_node_on_new_address() {
    let mut app = App::new();
    let env = empty_env();
    start_node(&mut app, &env);
    let p = execute(&mut app, "/port 8080", &env);
    match p {
        Pending::Restart { shutdown } => assert_eq!(shutdown, Some(7)),
        other => panic!("expected restart, got {}", kind(&other)),
    }
    assert_eq!(app.listen_port, 8080);
    assert!(app.node_handle.is_none());
    // The caller pauses, then starts again:
    match execute(&mut app, "/startNode", &env) {
        Pending::StartNode { addr } => assert_eq!(addr, "/ip4/0.0.0.0/tcp/8080"),
        other => panic!("expected start, got {}", kind(&other)),
    }
}

#[test]
fn message_with_unknown_nick_is_refused_without_submission() {
    let mut app = App::new();
    let mut env = empty_env();
    env.local_user = Some(user("me", Some("self"), true));
    start_node(&mut app, &env);
    let msgs_before = app.messages.clone();
    let p = execute(&mut app, "/message alice hello", &env);
    assert!(matches!(p, Pending::Done));
    assert_eq!(
        app.content_lines,
        vec!["No user found with nick 'alice'. Use /users to see known users.".to_string()]
    );
    assert_eq!(app.messages, msgs_before);
}

#[test]
fn start_stop_then_user_reports_not_running() {
    let mut app = App::new();
    let env = empty_env();
    start_node(&mut app, &env);
    assert!(app.node_handle.is_some());
    assert!(matches!(app.node_status, NodeStatus::Running { .. }));
    let p = execute(&mut app, "/stopNode", &env);
    assert!(matches!(p, Pending::Shutdown { handle: 7 }));
    assert!(app.node_handle.is_none());
    assert!(matches!(app.node_status, NodeStatus::Stopped));
    let p = execute(&mut app, "/user", &env);
    assert!(matches!(p, Pending::Done));
    assert_eq!(app.content_lines, vec!["Node is not running. Use /startNode first.".to_string()]);
}

#[test]
fn start_node_builds_address_from_port_and_caches_handle() {
    let mut app = App::new();
    let env = empty_env();
    let p = execute(&mut app, "/startNode", &env);
    match p {
        Pending::StartNode { addr } => {
            assert_eq!(addr, "/ip4/0.0.0.0/tcp/51030");
            assert_eq!(addr, listen_addr(51030));
            finish_start_node(&mut app, &addr, Ok(3));
        },
        other => panic!("expected start, got {}", kind(&other)),
    }
    assert_eq!(app.node_handle, Some(3));
    assert_eq!(app.content_lines, vec!["Node started on /ip4/0.0.0.0/tcp/51030.".to_string()]);
    assert_eq!(app.events.last().unwrap(), "[NODE] Node started on /ip4/0.0.0.0/tcp/51030.");
}

#[test]
fn start_node_failure_leaves_session_stopped() {
    let mut app = App::new();
    let env = empty_env();
    match execute(&mut app, "/startNode", &env) {
        Pending::StartNode { addr } => {
            finish_start_node(&mut app, &addr, Err("address in use".to_string()));
        },
        other => panic!("expected start, got {}", kind(&other)),
    }
    assert!(app.node_handle.is_none());
    assert!(matches!(app.node_status, NodeStatus::Stopped));
    assert_eq!(app.content_lines, vec!["Failed to start node: address in use".to_string()]);
}

#[test]
fn message_plugin_normalizes_body_and_logs_truncated_hash() {
    let mut app = App::new();
    let mut env = empty_env();
    env.local_user = Some(user("me", Some("self"), true));
    env.known_users.push(known("bob-id", Some("bob")));
    start_node(&mut app, &env);
    let p = execute(&mut app, "/messagePlugin bob note {\"x\": 1}", &env);
    match p {
        Pending::Node { req: NodeRequest::StoreMessage { local_id, to_id, nick, plugin_type, body } } => {
            assert_eq!(local_id, "me");
            assert_eq!(to_id, "bob-id");
            assert_eq!(nick, "bob");
            assert_eq!(plugin_type, "note");
            // the body was re-rendered compactly, not passed through
            assert_eq!(body, "{\"x\":1}");
            finish_store_message(
                &mut app,
                &local_id,
                &to_id,
                &nick,
                &plugin_type,
                &body,
                Ok("0123456789abcdef0123".to_string()),
            );
        },
        other => panic!("expected a store request, got {}", kind(&other)),
    }
    assert_eq!(app.messages, vec!["[me→bob-id]  [note]  {\"x\":1}".to_string()]);
    assert_eq!(
        app.events.last().unwrap(),
        "[MSG] → bob [note] (hash: 0123456789ab…)"
    );
}

#[test]
fn message_wraps_text_body_and_renders_views() {
    let mut app = App::new();
    let mut env = empty_env();
    env.local_user = Some(user("me", Some("self"), true));
    env.known_users.push(known("bob-id", Some("Bob")));
    start_node(&mut app, &env);
    // nick matching is case-insensitive
    let p = execute(&mut app, "/message bOb hello there", &env);
    match p {
        Pending::Node { req: NodeRequest::StoreMessage { local_id, to_id, nick, plugin_type, body } } => {
            assert_eq!(plugin_type, "text");
            assert_eq!(body, "{\"text\":\"hello there\"}");
            finish_store_message(&mut app, &local_id, &to_id, &nick, &plugin_type, &body,
                Ok("h".to_string()));
        },
        other => panic!("expected a store request, got {}", kind(&other)),
    }
    assert_eq!(app.messages, vec!["[me→bob-id]  [text]  {\"text\":\"hello there\"}".to_string()]);
    assert_eq!(app.output.last().unwrap(), "Message sent to bOb (hash: h).");
}

#[test]
fn message_plugin_invalid_json_falls_back_to_raw() {
    let mut app = App::new();
    let mut env = empty_env();
    env.local_user = Some(user("me", None, true));
    env.known_users.push(known("bob-id", Some("bob")));
    start_node(&mut app, &env);
    let p = execute(&mut app, "/messagePlugin bob note not-json", &env);
    match p {
        Pending::Node { req: NodeRequest::StoreMessage { body, .. } } => {
            assert_eq!(body, "{\"raw\":\"not-json\"}");
        },
        other => panic!("expected a store request, got {}", kind(&other)),
    }
}

#[test]
fn message_without_local_user_is_an_error() {
    let mut app = App::new();
    let mut env = empty_env();
    env.known_users.push(known("bob-id", Some("bob")));
    start_node(&mut app, &env);
    let view_before = app.content_lines.clone();
    let p = execute(&mut app, "/message bob hi", &env);
    assert!(matches!(p, Pending::Done));
    assert_eq!(app.events.last().unwrap(), "[ERR] No local user — run /user first");
    assert_eq!(app.output.last().unwrap(), "Error: No local user — run /user first");
    // the error is appended to the current view, not a fresh one
    let mut expected = view_before;
    expected.push("Error: No local user — run /user first".to_string());
    assert_eq!(app.content_lines, expected);
}

#[test]
fn connection_cached_insert_if_absent() {
    let mut app = App::new();
    let mut env = empty_env();
    env.known_users.push(known("bob-id", Some("bob")));
    start_node(&mut app, &env);
    for _ in 0..2 {
        let p = execute(&mut app, "/connection bob", &env);
        match p {
            Pending::Node { req: NodeRequest::CreateConnection { to_id, nick } } => {
                assert_eq!(to_id, "bob-id");
                let conn = ConnectionRecord {
                    from_id: "me".to_string(),
                    to_id,
                    established: false,
                    public_key: None,
                };
                finish_create_connection(&mut app, &nick, Ok(conn));
            },
            other => panic!("expected a connection request, got {}", kind(&other)),
        }
    }
    let hits = app.connections.iter().filter(|c| c.to_id == "bob-id").count();
    assert_eq!(hits, 1);
    assert_eq!(app.output.last().unwrap(), "Connection initiated with bob [pending].");
}

#[test]
fn accept_connection_cached_update_or_insert() {
    let mut app = App::new();
    let env = empty_env();
    start_node(&mut app, &env);
    for round in 0..2 {
        let p = execute(&mut app, "/acceptConnection peer-1 PUBKEY", &env);
        match p {
            Pending::Node { req: NodeRequest::AcceptConnection { from_id, their_public_key } } => {
                assert_eq!(from_id, "peer-1");
                assert_eq!(their_public_key, "PUBKEY");
                let conn = ConnectionRecord {
                    from_id,
                    to_id: format!("me-{}", round),
                    established: true,
                    public_key: None,
                };
                finish_accept_connection(&mut app, Ok(conn));
            },
            other => panic!("expected an accept request, got {}", kind(&other)),
        }
    }
    let hits: Vec<_> = app.connections.iter().filter(|c| c.from_id == "peer-1").collect();
    assert_eq!(hits.len(), 1);
    // the cache reflects the latest reply
    assert_eq!(hits[0].to_id, "me-1");
}

#[test]
fn accept_connection_requires_both_arguments() {
    let mut app = App::new();
    let env = empty_env();
    let p = execute(&mut app, "/acceptConnection onlyone", &env);
    assert!(matches!(p, Pending::Done));
    assert_eq!(
        app.content_lines,
        vec!["Usage: /acceptConnection <from_id> <their_public_key>".to_string()]
    );
}

#[test]
fn decline_connection_removes_matching_entries_locally() {
    let mut app = App::new();
    let env = empty_env();
    app.connections.push(ConnectionRecord {
        from_id: "me".to_string(),
        to_id: "peer-1".to_string(),
        established: true,
        public_key: None,
    });
    app.connections.push(ConnectionRecord {
        from_id: "me".to_string(),
        to_id: "peer-2".to_string(),
        established: false,
        public_key: None,
    });
    let p = execute(&mut app, "/declineConnection peer-1", &env);
    assert!(matches!(p, Pending::Done));
    assert_eq!(app.connections.len(), 1);
    assert_eq!(app.connections[0].to_id, "peer-2");
    assert_eq!(
        app.content_lines,
        vec![
            "Connection with peer-1 removed locally.".to_string(),
            "(Network-level decline not yet implemented in the library.)".to_string(),
        ]
    );
}

#[test]
fn nick_updates_store_record_and_cache_together() {
    let mut app = App::new();
    let mut env = empty_env();
    env.local_user = Some(user("me", Some("old-name"), true));
    app.users.push(user("other", Some("bob"), false));
    app.users.push(user("me", Some("old-name"), true));
    let p = execute(&mut app, "/nick neo", &env);
    match p {
        Pending::SaveNick { user: saved, old_name, new_name } => {
            assert_eq!(saved.display_name.as_deref(), Some("neo"));
            assert_eq!(old_name, "old-name");
            assert_eq!(new_name, "neo");
            // pretend the store write succeeded
            finish_nick(&mut app, &old_name, &new_name);
            // persisted record and cached local copy agree
            assert_eq!(app.users[1].display_name, saved.display_name);
        },
        other => panic!("expected a save request, got {}", kind(&other)),
    }
    assert_eq!(app.content_lines, vec!["Display name changed: old-name → neo".to_string()]);
    assert_eq!(app.events.last().unwrap(), "[NICK] old-name → neo");
}

#[test]
fn nick_without_local_user_is_a_plain_refusal() {
    let mut app = App::new();
    let env = empty_env();
    let p = execute(&mut app, "/nick neo", &env);
    assert!(matches!(p, Pending::Done));
    assert_eq!(
        app.content_lines,
        vec!["No local user found. Use /user to create one first.".to_string()]
    );
}

#[test]
fn nick_save_failure_reports_error_and_leaves_cache() {
    let mut app = App::new();
    let mut env = empty_env();
    env.local_user = Some(user("me", Some("old"), true));
    app.users.push(user("me", Some("old"), true));
    let p = execute(&mut app, "/nick neo", &env);
    assert!(matches!(p, Pending::SaveNick { .. }));
    // the store write failed: the cache is not updated
    report_error(&mut app, "disk full");
    assert_eq!(app.users[0].display_name.as_deref(), Some("old"));
    assert_eq!(app.output.last().unwrap(), "Error: disk full");
}

#[test]
fn users_fallback_reads_store_when_node_stopped() {
    let mut app = App::new();
    let mut env = empty_env();
    env.known_users.push(known("id-1", Some("ann")));
    env.known_users.push(known("id-2", None));
    let p = execute(&mut app, "/users", &env);
    assert!(matches!(p, Pending::Done));
    assert_eq!(
        app.content_lines,
        vec![
            "Known users  (2)".to_string(),
            "".to_string(),
            "  ann  id-1".to_string(),
            "  (unnamed)  id-2".to_string(),
        ]
    );
    // the degraded path does not touch the user cache
    assert!(app.users.is_empty());
}

#[test]
fn users_via_node_replaces_cache_and_labels_entries() {
    let mut app = App::new();
    let env = empty_env();
    start_node(&mut app, &env);
    let p = execute(&mut app, "/users", &env);
    match p {
        Pending::Node { req: NodeRequest::GetUsers } => {
            let reply = vec![user("me", Some("self"), true), user("far", None, false)];
            finish_get_users(&mut app, Ok(reply));
        },
        other => panic!("expected a users request, got {}", kind(&other)),
    }
    assert_eq!(app.users.len(), 2);
    assert_eq!(
        app.content_lines,
        vec![
            "Known users  (2)".to_string(),
            "".to_string(),
            "  [LOCAL ]  self  —  me".to_string(),
            "  [REMOTE]  (unnamed)  —  far".to_string(),
        ]
    );
    assert_eq!(app.output.last().unwrap(), "Users: 2 found.");
}

#[test]
fn user_lookup_by_nick_goes_through_node() {
    let mut app = App::new();
    let mut env = empty_env();
    env.known_users.push(known("id-9", Some("zoe")));
    start_node(&mut app, &env);
    let p = execute(&mut app, "/user zoe", &env);
    match p {
        Pending::Node { req: NodeRequest::GetUser { id } } => {
            assert_eq!(id, "id-9");
            finish_get_user(&mut app, Ok(user("id-9", Some("zoe"), false)));
        },
        other => panic!("expected a lookup, got {}", kind(&other)),
    }
    assert_eq!(
        app.content_lines,
        vec![
            "[REMOTE]  zoe".to_string(),
            "  id         : id-9".to_string(),
            "  public_key : pk-id-9".to_string(),
        ]
    );
}

#[test]
fn user_with_unknown_name_creates_user_with_that_name() {
    let mut app = App::new();
    let env = empty_env();
    start_node(&mut app, &env);
    let p = execute(&mut app, "/user fresh", &env);
    match p {
        Pending::Node { req: NodeRequest::CreateUser { display_name } } => {
            assert_eq!(display_name.as_deref(), Some("fresh"));
            finish_create_user(&mut app, Ok(user("new-id", Some("fresh"), true)));
        },
        other => panic!("expected a create request, got {}", kind(&other)),
    }
    assert_eq!(app.users.len(), 1);
    assert_eq!(app.events.last().unwrap(), "[USER] Created: fresh (new-id)");
    // creating the same id again does not duplicate the cache entry
    finish_create_user(&mut app, Ok(user("new-id", Some("fresh"), true)));
    assert_eq!(app.users.len(), 1);
}

#[test]
fn create_user_failure_is_rendered() {
    let mut app = App::new();
    let env = empty_env();
    start_node(&mut app, &env);
    let p = execute(&mut app, "/user", &env);
    match p {
        Pending::Node { req: NodeRequest::CreateUser { display_name } } => {
            assert_eq!(display_name, None);
            assert_eq!(app.output.last().unwrap(), "No local user found — creating one…");
            finish_create_user(&mut app, Err("store offline".to_string()));
        },
        other => panic!("expected a create request, got {}", kind(&other)),
    }
    assert_eq!(app.content_lines, vec!["Error creating user: store offline".to_string()]);
}

#[test]
fn peers_renders_enumerated_list_and_replaces_cache() {
    let mut app = App::new();
    let mut env = empty_env();
    env.peers.push("/ip4/10.0.0.1/tcp/51030".to_string());
    env.peers.push("/ip4/10.0.0.2/tcp/51030".to_string());
    let p = execute(&mut app, "/peers", &env);
    assert!(matches!(p, Pending::Done));
    assert_eq!(app.peers, env.peers);
    assert_eq!(
        app.content_lines,
        vec![
            "Known peers  (2)".to_string(),
            "".to_string(),
            "    1.  /ip4/10.0.0.1/tcp/51030".to_string(),
            "    2.  /ip4/10.0.0.2/tcp/51030".to_string(),
        ]
    );
}

#[test]
fn connections_rebuilds_cache_and_pending_view_reads_only() {
    let mut app = App::new();
    let mut env = empty_env();
    env.connections.push(ConnectionRecord {
        from_id: "me".to_string(),
        to_id: "peer-1".to_string(),
        established: true,
        public_key: None,
    });
    env.connections.push(ConnectionRecord {
        from_id: "me".to_string(),
        to_id: "peer-2".to_string(),
        established: false,
        public_key: Some("OURKEY".to_string()),
    });
    let p = execute(&mut app, "/connections", &env);
    assert!(matches!(p, Pending::Done));
    assert_eq!(app.connections.len(), 2);
    assert_eq!(
        app.content_lines,
        vec![
            "Connections  (2)".to_string(),
            "".to_string(),
            "  [established]  me → peer-1".to_string(),
            "  [pending   ]  me → peer-2".to_string(),
        ]
    );
    let p = execute(&mut app, "/connectionsPending", &env);
    assert!(matches!(p, Pending::Done));
    assert_eq!(
        app.content_lines,
        vec![
            "Pending connections  (1)".to_string(),
            "".to_string(),
            "  me → peer-2".to_string(),
            "    our_public_key: OURKEY".to_string(),
        ]
    );
    // the read-only view left the cache as /connections built it
    assert_eq!(app.connections.len(), 2);
}

#[test]
fn unknown_command_logs_and_renders_error_view() {
    let mut app = App::new();
    let env = empty_env();
    let p = execute(&mut app, "/bogus now", &env);
    assert!(matches!(p, Pending::Done));
    assert_eq!(app.content_title, " Error ");
    assert_eq!(
        app.content_lines,
        vec!["Unknown command: /bogus. Type /help for a list.".to_string()]
    );
    assert_eq!(app.events.last().unwrap(), "[CMD] Unknown: /bogus");
}

#[test]
fn quit_sets_flag_and_keeps_view() {
    let mut app = App::new();
    let env = empty_env();
    let view = app.content_lines.clone();
    let p = execute(&mut app, "/quit", &env);
    assert!(matches!(p, Pending::Done));
    assert!(app.should_quit);
    assert_eq!(app.content_lines, view);
    assert_eq!(app.events.last().unwrap(), "[APP] Quit requested.");
}

#[test]
fn empty_input_changes_nothing() {
    let mut app = App::new();
    let env = empty_env();
    let before = app.events.len();
    let p = execute(&mut app, "   ", &env);
    assert!(matches!(p, Pending::Done));
    assert_eq!(app.events.len(), before);
}

#[test]
fn sync_depends_on_node_state() {
    let mut app = App::new();
    let env = empty_env();
    let p = execute(&mut app, "/sync", &env);
    assert!(matches!(p, Pending::Done));
    assert_eq!(app.content_lines, vec!["Node is not running. Use /startNode first.".to_string()]);
    start_node(&mut app, &env);
    let p = execute(&mut app, "/sync", &env);
    assert!(matches!(p, Pending::Done));
    assert_eq!(
        app.content_lines,
        vec!["Sync is continuous — the node syncs automatically with peers via gossipsub."
            .to_string()]
    );
}

#[test]
fn start_while_running_is_a_noop_report() {
    let mut app = App::new();
    let env = empty_env();
    start_node(&mut app, &env);
    let events_before = app.events.len();
    let p = execute(&mut app, "/startNode", &env);
    assert!(matches!(p, Pending::Done));
    assert_eq!(app.content_lines, vec!["Node is already running.".to_string()]);
    assert_eq!(app.events.len(), events_before);
    assert_eq!(app.node_handle, Some(7));
}

#[test]
fn stop_while_stopped_reports_not_running() {
    let mut app = App::new();
    let env = empty_env();
    let p = execute(&mut app, "/stopNode", &env);
    assert!(matches!(p, Pending::Done));
    assert_eq!(app.content_lines, vec!["Node is not running.".to_string()]);
}

#[test]
fn restart_while_stopped_skips_shutdown() {
    let mut app = App::new();
    let env = empty_env();
    let p = execute(&mut app, "/restartNode", &env);
    match p {
        Pending::Restart { shutdown } => assert_eq!(shutdown, None),
        other => panic!("expected restart, got {}", kind(&other)),
    }
    assert_eq!(app.events.last().unwrap(), "[NODE] Restarting…");
    assert_eq!(app.content_lines, vec!["Node is not running.".to_string()]);
}

#[test]
fn events_view_appends_marker_and_scrolls_to_bottom() {
    let mut app = App::new();
    let env = empty_env();
    let before = app.events.clone();
    let p = execute(&mut app, "/events", &env);
    assert!(matches!(p, Pending::Done));
    let marker = "[CMD] /events — showing events.".to_string();
    let mut expected = before.clone();
    expected.push(marker.clone());
    expected.push(marker);
    assert_eq!(app.content_lines, expected);
    assert_eq!(app.content_scroll as usize, before.len());
}

#[test]
fn console_view_shows_output_log() {
    let mut app = App::new();
    let env = empty_env();
    let p = execute(&mut app, "/console", &env);
    assert!(matches!(p, Pending::Done));
    assert_eq!(app.content_lines, vec!["[CMD] /console — showing output log.".to_string()]);
    assert_eq!(app.content_scroll, 1);
}

#[test]
fn messages_view_empty_state() {
    let mut app = App::new();
    let env = empty_env();
    let p = execute(&mut app, "/messages", &env);
    assert!(matches!(p, Pending::Done));
    assert_eq!(
        app.content_lines,
        vec![
            "Messages  (0)".to_string(),
            "".to_string(),
            "  No messages yet. Use /message <nick> <body> to send one.".to_string(),
        ]
    );
}

#[test]
fn help_lists_every_command() {
    let mut app = App::new();
    let env = empty_env();
    let p = execute(&mut app, "/help", &env);
    assert!(matches!(p, Pending::Done));
    assert_eq!(app.content_title, " Help ");
    assert_eq!(app.content_lines.len(), 25);
    assert_eq!(app.content_lines[0], "Available commands:");
    assert!(app.content_lines.iter().any(|l| l.contains("/messagePlugin")));
}
