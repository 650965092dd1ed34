//! The command dispatcher: parses one line, mutates the session state, and
//! says what outside work (node exchange, persistence write, restart pause)
//! the embedding program must perform next.
//!
//! All node and filesystem traffic is done by the caller: commands that read
//! the persistence store take an [`Env`] snapshot of it, and commands that
//! talk to the node return a [`Pending`] request whose reply is handed back
//! to the matching `finish_*` function.

use vstd::prelude::*;

use crate::json::{
    json_normalized, json_raw_body, json_text_body, normalize_json, render_raw_body,
    render_text_body,
};
use crate::state::{
    App, AppV, ConnectionRecord, ConnectionRecordV, KnownUser, KnownUserV, NodeStatus,
    NodeStatusV, UserRecord, UserRecordV, clone_conns,
};
use crate::text::{
    cat2, cat3, cat4, cat5, cat6, cat7, cat8, clone_lines, cmd_of, dec_str, dec_string, eqi_str,
    eqi_str_exec, has_space, parse_port, port_spec, push_pad3, pad3, raw_rest, rest_of,
    space_idx, split_command, split_space_raw, str_eq, trim_spec, trim_str, trunc_spec,
    truncate_id,
};

verus! {

// ---------------------------------------------------------------------------
// Snapshot of the persistence store
// ---------------------------------------------------------------------------

/// What the dispatcher may need from the persistence store, read by the
/// caller just before dispatching: the local user record, the known remote
/// users, the known peer addresses, and the stored connections of the local
/// user.
pub struct Env {
    pub local_user: Option<UserRecord>,
    pub known_users: Vec<KnownUser>,
    pub peers: Vec<String>,
    pub connections: Vec<ConnectionRecord>,
}

#[verifier::ext_equal]
pub struct EnvV {
    pub local_user: Option<UserRecordV>,
    pub known_users: Seq<KnownUserV>,
    pub peers: Seq<Seq<char>>,
    pub connections: Seq<ConnectionRecordV>,
}

impl DeepView for Env {
    type V = EnvV;

    open spec fn deep_view(&self) -> EnvV {
        EnvV {
            local_user: self.local_user.deep_view(),
            known_users: self.known_users.deep_view(),
            peers: self.peers.deep_view(),
            connections: self.connections.deep_view(),
        }
    }
}

// ---------------------------------------------------------------------------
// Requests handed back to the embedding program
// ---------------------------------------------------------------------------

/// One exchange with the node: the caller submits the matching node command,
/// awaits the single reply, and hands it to the matching `finish_*` function.
pub enum NodeRequest {
    CreateUser { display_name: Option<String> },
    GetUser { id: String },
    GetUsers,
    CreateConnection { to_id: String, nick: String },
    AcceptConnection { from_id: String, their_public_key: String },
    StoreMessage {
        local_id: String,
        to_id: String,
        nick: String,
        plugin_type: String,
        body: String,
    },
}

#[verifier::ext_equal]
pub enum NodeRequestV {
    CreateUser { display_name: Option<Seq<char>> },
    GetUser { id: Seq<char> },
    GetUsers,
    CreateConnection { to_id: Seq<char>, nick: Seq<char> },
    AcceptConnection { from_id: Seq<char>, their_public_key: Seq<char> },
    StoreMessage {
        local_id: Seq<char>,
        to_id: Seq<char>,
        nick: Seq<char>,
        plugin_type: Seq<char>,
        body: Seq<char>,
    },
}

impl DeepView for NodeRequest {
    type V = NodeRequestV;

    open spec fn deep_view(&self) -> NodeRequestV {
        match self {
            NodeRequest::CreateUser { display_name } => NodeRequestV::CreateUser {
                display_name: display_name.deep_view(),
            },
            NodeRequest::GetUser { id } => NodeRequestV::GetUser { id: id@ },
            NodeRequest::GetUsers => NodeRequestV::GetUsers,
            NodeRequest::CreateConnection { to_id, nick } => NodeRequestV::CreateConnection {
                to_id: to_id@,
                nick: nick@,
            },
            NodeRequest::AcceptConnection { from_id, their_public_key } => {
                NodeRequestV::AcceptConnection {
                    from_id: from_id@,
                    their_public_key: their_public_key@,
                }
            },
            NodeRequest::StoreMessage { local_id, to_id, nick, plugin_type, body } => {
                NodeRequestV::StoreMessage {
                    local_id: local_id@,
                    to_id: to_id@,
                    nick: nick@,
                    plugin_type: plugin_type@,
                    body: body@,
                }
            },
        }
    }
}

/// What the caller must do after a dispatch before the session goes on.
pub enum Pending {
    /// Nothing; the command is complete.
    Done,
    /// Start the node listening on `addr`, then call `finish_start_node`.
    StartNode { addr: String },
    /// Best-effort: tell the node behind this (now cleared) handle to shut
    /// down. No reply is waited for.
    Shutdown { handle: u64 },
    /// A restart is under way: shut down the old node if a handle is given,
    /// pause briefly so the listen address is released, then call
    /// `cmd_start_node` and act on its request.
    Restart { shutdown: Option<u64> },
    /// Persist this local user record; on success call `finish_nick`, on
    /// failure `report_error`.
    SaveNick { user: UserRecord, old_name: String, new_name: String },
    /// Submit the node command and hand the reply to its `finish_*`.
    Node { req: NodeRequest },
}

#[verifier::ext_equal]
pub enum PendingV {
    Done,
    StartNode { addr: Seq<char> },
    Shutdown { handle: u64 },
    Restart { shutdown: Option<u64> },
    SaveNick { user: UserRecordV, old_name: Seq<char>, new_name: Seq<char> },
    Node { req: NodeRequestV },
}

impl DeepView for Pending {
    type V = PendingV;

    open spec fn deep_view(&self) -> PendingV {
        match self {
            Pending::Done => PendingV::Done,
            Pending::StartNode { addr } => PendingV::StartNode { addr: addr@ },
            Pending::Shutdown { handle } => PendingV::Shutdown { handle: *handle },
            Pending::Restart { shutdown } => PendingV::Restart { shutdown: *shutdown },
            Pending::SaveNick { user, old_name, new_name } => PendingV::SaveNick {
                user: user.deep_view(),
                old_name: old_name@,
                new_name: new_name@,
            },
            Pending::Node { req } => PendingV::Node { req: req.deep_view() },
        }
    }
}

// ---------------------------------------------------------------------------
// Shared view helpers
// ---------------------------------------------------------------------------

/// The content area after `set_content(title, lines)`.
pub open spec fn set_view(pre: AppV, title: Seq<char>, lines: Seq<Seq<char>>) -> AppV {
    AppV {
        content_title: " "@ + title + " "@,
        content_lines: lines,
        content_scroll: 0u16,
        ..pre
    }
}

/// A line count squeezed into the scroll field; anything beyond its range
/// sticks at the maximum (rendering clamps further).
pub open spec fn scroll16(n: nat) -> u16 {
    if n > 65535 {
        65535u16
    } else {
        n as u16
    }
}

fn scroll_sat(n: usize) -> (r: u16)
    ensures
        r == scroll16(n as nat),
{
    if n > 65535 {
        65535
    } else {
        n as u16
    }
}

/// Set the content area to a small list of lines with the given title.
pub fn show_lines(app: &mut App, title: &str, lines: Vec<String>)
    ensures
        final(app)@ == set_view(old(app)@, title@, lines.deep_view()),
{
    app.set_content(title, lines);
}

fn show_one(app: &mut App, title: &str, line: String)
    ensures
        final(app)@ == set_view(old(app)@, title@, seq![line@]),
{
    let ghost l = line@;
    let mut v: Vec<String> = Vec::new();
    v.push(line);
    proof {
        assert(v.deep_view() =~= seq![l]);
    }
    app.set_content(title, v);
}

/// The state after a failed command is reported: the failure is logged, and
/// the message is appended to whatever view is on screen.
pub open spec fn report_error_post(pre: AppV, msg: Seq<char>) -> AppV {
    AppV {
        events: pre.events.push("[ERR] "@ + msg),
        output: pre.output.push("Error: "@ + msg),
        content_lines: pre.content_lines.push("Error: "@ + msg),
        ..pre
    }
}

/// Report a command failure without replacing the current view, exactly as a
/// dispatch error is surfaced: an event, an output line, and a line appended
/// to the content area.
pub fn report_error(app: &mut App, msg: &str)
    ensures
        final(app)@ == report_error_post(old(app)@, msg@),
{
    let ev = cat2("[ERR] ", msg);
    let line = cat2("Error: ", msg);
    app.push_event(ev.as_str());
    app.push_output(line.as_str());
    app.content_lines.push(line);
    proof {
        assert(app@.content_lines =~= old(app)@.content_lines.push("Error: "@ + msg@));
        assert(app@ =~= report_error_post(old(app)@, msg@));
    }
}

/// The listen multiaddr for a TCP listener on every interface.
pub fn listen_addr(port: u16) -> (r: String)
    ensures
        r@ == "/ip4/0.0.0.0/tcp/"@ + dec_str(port as nat),
{
    let mut s = String::from_str("/ip4/0.0.0.0/tcp/");
    crate::text::push_dec(&mut s, port as u64);
    s
}

// ---------------------------------------------------------------------------
// Simple commands
// ---------------------------------------------------------------------------

/// The fixed command reference `/help` shows.
pub open spec fn help_lines() -> Seq<Seq<char>> {
    seq![
        "Available commands:"@,
        "  /startNode                                   Start the P2P node"@,
        "  /stopNode                                    Stop the P2P node"@,
        "  /restartNode                                 Restart the P2P node"@,
        "  /port <port>                                 Change listen port and restart node"@,
        "  /sync                                        Note: sync is automatic"@,
        "  /peers                                       Show all known peers in content"@,
        "  /user                                        Show local user (or create one) in content"@,
        "  /nick <new_name>                             Change your display name"@,
        "  /users                                       Show all known users in content"@,
        "  /user <nick>                                 Show a user by display name in content"@,
        "  /connection <nick>                           Initiate a connection with a user"@,
        "  /connections                                 View all connections in content"@,
        "  /connectionsPending                          View pending connections in content"@,
        "  /acceptConnection <from_id> <their_pubkey>   Accept an incoming connection"@,
        "  /declineConnection <connection_id>           Decline a connection"@,
        "  /message <nick> <body>                       Send a text message"@,
        "  /messagePlugin <nick> <type> <body>          Send a plugin message"@,
        "  /messages                                    Show all messages in content"@,
        "  /events                                      Show all node events in content"@,
        "  /console                                     Show all output in content"@,
        "  /help                                        Show all commands in content"@,
        "  /quit                                        Quit the TUI"@,
        ""@,
        "Navigation:  PgUp/PgDn scroll content  |  ↑↓ prompt history  |  Esc quit"@,
    ]
}

pub open spec fn help_post(pre: AppV) -> AppV {
    set_view(
        AppV { events: pre.events.push("[CMD] /help"@), ..pre },
        "Help"@,
        help_lines(),
    )
}

/// `/help`: log the request and show the command reference.
pub fn cmd_help(app: &mut App)
    ensures
        final(app)@ == help_post(old(app)@),
{
    let mut lines: Vec<String> = Vec::new();
    lines.push(String::from_str("Available commands:"));
    lines.push(String::from_str("  /startNode                                   Start the P2P node"));
    lines.push(String::from_str("  /stopNode                                    Stop the P2P node"));
    lines.push(String::from_str("  /restartNode                                 Restart the P2P node"));
    lines.push(String::from_str("  /port <port>                                 Change listen port and restart node"));
    lines.push(String::from_str("  /sync                                        Note: sync is automatic"));
    lines.push(String::from_str("  /peers                                       Show all known peers in content"));
    lines.push(String::from_str("  /user                                        Show local user (or create one) in content"));
    lines.push(String::from_str("  /nick <new_name>                             Change your display name"));
    lines.push(String::from_str("  /users                                       Show all known users in content"));
    lines.push(String::from_str("  /user <nick>                                 Show a user by display name in content"));
    lines.push(String::from_str("  /connection <nick>                           Initiate a connection with a user"));
    lines.push(String::from_str("  /connections                                 View all connections in content"));
    lines.push(String::from_str("  /connectionsPending                          View pending connections in content"));
    lines.push(String::from_str("  /acceptConnection <from_id> <their_pubkey>   Accept an incoming connection"));
    lines.push(String::from_str("  /declineConnection <connection_id>           Decline a connection"));
    lines.push(String::from_str("  /message <nick> <body>                       Send a text message"));
    lines.push(String::from_str("  /messagePlugin <nick> <type> <body>          Send a plugin message"));
    lines.push(String::from_str("  /messages                                    Show all messages in content"));
    lines.push(String::from_str("  /events                                      Show all node events in content"));
    lines.push(String::from_str("  /console                                     Show all output in content"));
    lines.push(String::from_str("  /help                                        Show all commands in content"));
    lines.push(String::from_str("  /quit                                        Quit the TUI"));
    lines.push(String::from_str(""));
    lines.push(String::from_str("Navigation:  PgUp/PgDn scroll content  |  ↑↓ prompt history  |  Esc quit"));
    proof {
        assert(lines.deep_view() =~= help_lines());
    }
    app.push_event("[CMD] /help");
    app.set_content("Help", lines);
    proof {
        assert(app@ =~= help_post(old(app)@));
    }
}

pub open spec fn quit_post(pre: AppV) -> AppV {
    AppV {
        events: pre.events.push("[APP] Quit requested."@),
        should_quit: true,
        ..pre
    }
}

/// `/quit`: log and raise the quit flag; the view is left as it is.
pub fn cmd_quit(app: &mut App)
    ensures
        final(app)@ == quit_post(old(app)@),
{
    app.push_event("[APP] Quit requested.");
    app.should_quit = true;
    proof {
        assert(app@ =~= quit_post(old(app)@));
    }
}

pub open spec fn events_post(pre: AppV) -> AppV {
    let m = "[CMD] /events — showing events."@;
    AppV {
        content_scroll: scroll16(pre.events.len()),
        ..set_view(
            AppV { events: pre.events.push(m), ..pre },
            "Events"@,
            pre.events.push(m).push(m),
        )
    }
}

/// `/events`: show the event log, marker line appended, scrolled to the
/// bottom.
pub fn cmd_events(app: &mut App)
    ensures
        final(app)@ == events_post(old(app)@),
{
    let m = "[CMD] /events — showing events.";
    let old_len = app.events.len();
    app.push_event(m);
    let mut v = clone_lines(&app.events);
    proof {
        assert(v.deep_view() =~= old(app)@.events.push(m@));
    }
    v.push(String::from_str(m));
    proof {
        assert(v.deep_view() =~= old(app)@.events.push(m@).push(m@));
    }
    app.set_content("Events", v);
    app.content_scroll = scroll_sat(old_len);
    proof {
        assert(app@ =~= events_post(old(app)@));
    }
}

pub open spec fn console_post(pre: AppV) -> AppV {
    let m = "[CMD] /console — showing output log."@;
    AppV {
        content_scroll: scroll16((pre.output.len() + 1) as nat),
        ..set_view(AppV { output: pre.output.push(m), ..pre }, "Console"@, pre.output.push(m))
    }
}

/// `/console`: show the output log, scrolled to the bottom.
pub fn cmd_console(app: &mut App)
    ensures
        final(app)@ == console_post(old(app)@),
{
    app.push_output("[CMD] /console — showing output log.");
    let v = clone_lines(&app.output);
    proof {
        assert(v.deep_view() =~= old(app)@.output.push("[CMD] /console — showing output log."@));
    }
    let n = app.output.len();
    app.set_content("Console", v);
    app.content_scroll = scroll_sat(n);
    proof {
        assert(app@ =~= console_post(old(app)@));
    }
}

pub open spec fn messages_lines(pre: AppV) -> Seq<Seq<char>> {
    seq!["Messages  ("@ + dec_str(pre.messages.len()) + ")"@, ""@] + (if pre.messages.len() == 0 {
        seq!["  No messages yet. Use /message <nick> <body> to send one."@]
    } else {
        pre.messages
    })
}

pub open spec fn messages_post(pre: AppV) -> AppV {
    set_view(
        AppV { events: pre.events.push("[CMD] /messages — showing messages."@), ..pre },
        "Messages"@,
        messages_lines(pre),
    )
}

/// `/messages`: show the message cache with a count header.
pub fn cmd_messages(app: &mut App)
    ensures
        final(app)@ == messages_post(old(app)@),
{
    app.push_event("[CMD] /messages — showing messages.");
    let count = dec_string(app.messages.len() as u64);
    let mut lines: Vec<String> = Vec::new();
    lines.push(cat3("Messages  (", count.as_str(), ")"));
    lines.push(String::from_str(""));
    if app.messages.len() == 0 {
        lines.push(String::from_str("  No messages yet. Use /message <nick> <body> to send one."));
    } else {
        let mut rest = clone_lines(&app.messages);
        proof {
            assert(rest.deep_view() =~= old(app)@.messages);
        }
        lines.append(&mut rest);
    }
    proof {
        assert(lines.deep_view() =~= messages_lines(old(app)@));
    }
    app.set_content("Messages", lines);
    proof {
        assert(app@ =~= messages_post(old(app)@));
    }
}

pub open spec fn sync_post(pre: AppV) -> AppV {
    if pre.node_handle is None {
        set_view(pre, "Sync"@, seq!["Node is not running. Use /startNode first."@])
    } else {
        let m = "Sync is continuous — the node syncs automatically with peers via gossipsub."@;
        set_view(
            AppV {
                events: pre.events.push("[SYNC] Manual sync requested."@),
                output: pre.output.push(m),
                ..pre
            },
            "Sync"@,
            seq![m],
        )
    }
}

/// `/sync`: informational only; synchronization is continuous while the node
/// runs.
pub fn cmd_sync(app: &mut App)
    ensures
        final(app)@ == sync_post(old(app)@),
{
    if app.node_handle.is_none() {
        show_one(app, "Sync", String::from_str("Node is not running. Use /startNode first."));
        return ;
    }
    let m = "Sync is continuous — the node syncs automatically with peers via gossipsub.";
    app.push_event("[SYNC] Manual sync requested.");
    app.push_output(m);
    show_one(app, "Sync", String::from_str(m));
    proof {
        assert(app@ =~= sync_post(old(app)@));
    }
}

// ---------------------------------------------------------------------------
// Node lifecycle
// ---------------------------------------------------------------------------

/// View of a start outcome: the channel token on success, the error text
/// otherwise.
pub open spec fn r_u64_dv(r: Result<u64, String>) -> Result<u64, Seq<char>> {
    match r {
        Ok(h) => Ok(h),
        Err(e) => Err(e@),
    }
}

pub open spec fn start_step(pre: AppV) -> (AppV, PendingV) {
    if pre.node_handle is Some {
        (set_view(pre, "Node"@, seq!["Node is already running."@]), PendingV::Done)
    } else {
        let addr = "/ip4/0.0.0.0/tcp/"@ + dec_str(pre.listen_port as nat);
        (
            AppV {
                events: pre.events.push("[NODE] Starting node on "@ + addr + " …"@),
                output: pre.output.push("Starting node on "@ + addr + " …"@),
                ..pre
            },
            PendingV::StartNode { addr },
        )
    }
}

/// `/startNode`: when no node runs, log the attempt and ask the caller to
/// start one on the address built from the listen port.
pub fn cmd_start_node(app: &mut App) -> (r: Pending)
    requires
        old(app)@.wf(),
    ensures
        final(app)@ == start_step(old(app)@).0,
        r.deep_view() == start_step(old(app)@).1,
        final(app)@.wf(),
{
    if app.node_handle.is_some() {
        show_one(app, "Node", String::from_str("Node is already running."));
        return Pending::Done;
    }
    let addr = listen_addr(app.listen_port);
    let msg = cat3("Starting node on ", addr.as_str(), " …");
    let ev = cat3("[NODE] Starting node on ", addr.as_str(), " …");
    app.push_event(ev.as_str());
    app.push_output(msg.as_str());
    proof {
        assert(app@ =~= start_step(old(app)@).0);
    }
    Pending::StartNode { addr }
}

pub open spec fn finish_start_post(pre: AppV, addr: Seq<char>, outcome: Result<
    u64,
    Seq<char>,
>) -> AppV {
    match outcome {
        Ok(h) => set_view(
            AppV {
                node_handle: Some(h),
                node_status: NodeStatusV::Running { addr },
                events: pre.events.push("[NODE] Node started on "@ + addr + "."@),
                output: pre.output.push("Node started on "@ + addr + "."@),
                ..pre
            },
            "Node"@,
            seq!["Node started on "@ + addr + "."@],
        ),
        Err(e) => set_view(
            AppV {
                events: pre.events.push("[NODE] Start failed: "@ + e),
                output: pre.output.push("Failed to start node: "@ + e),
                ..pre
            },
            "Node"@,
            seq!["Failed to start node: "@ + e],
        ),
    }
}

/// Apply the outcome of a node start: on success store the channel token and
/// mark the session running; on failure leave it stopped and show the error.
pub fn finish_start_node(app: &mut App, addr: &str, outcome: Result<u64, String>)
    requires
        old(app)@.wf(),
    ensures
        final(app)@ == finish_start_post(old(app)@, addr@, r_u64_dv(outcome)),
        final(app)@.wf(),
{
    match outcome {
        Ok(h) => {
            app.node_handle = Some(h);
            app.node_status = NodeStatus::Running { addr: addr.to_owned() };
            let ok = cat3("Node started on ", addr, ".");
            let ev = cat3("[NODE] Node started on ", addr, ".");
            app.push_event(ev.as_str());
            app.push_output(ok.as_str());
            show_one(app, "Node", ok);
            proof {
                assert(app@ =~= finish_start_post(old(app)@, addr@, r_u64_dv(outcome)));
            }
        },
        Err(e) => {
            let ev = cat2("[NODE] Start failed: ", e.as_str());
            let err = cat2("Failed to start node: ", e.as_str());
            app.push_event(ev.as_str());
            app.push_output(err.as_str());
            show_one(app, "Node", err);
            proof {
                assert(app@ =~= finish_start_post(old(app)@, addr@, r_u64_dv(outcome)));
            }
        },
    }
}

pub open spec fn stop_step(pre: AppV) -> (AppV, PendingV) {
    match pre.node_handle {
        Some(h) => (
            set_view(
                AppV {
                    node_handle: None,
                    node_status: NodeStatusV::Stopped,
                    events: pre.events.push("[NODE] Stopped."@),
                    output: pre.output.push("Node stopped."@),
                    ..pre
                },
                "Node"@,
                seq!["Node stopped."@],
            ),
            PendingV::Shutdown { handle: h },
        ),
        None => (set_view(pre, "Node"@, seq!["Node is not running."@]), PendingV::Done),
    }
}

/// `/stopNode`: clear the handle and mark the session stopped; the caller
/// still owes the old node a best-effort shutdown word.
pub fn cmd_stop_node(app: &mut App) -> (r: Pending)
    requires
        old(app)@.wf(),
    ensures
        final(app)@ == stop_step(old(app)@).0,
        r.deep_view() == stop_step(old(app)@).1,
        final(app)@.wf(),
{
    match app.node_handle {
        Some(h) => {
            app.node_handle = None;
            app.node_status = NodeStatus::Stopped;
            app.push_event("[NODE] Stopped.");
            app.push_output("Node stopped.");
            show_one(app, "Node", String::from_str("Node stopped."));
            proof {
                assert(app@ =~= stop_step(old(app)@).0);
            }
            Pending::Shutdown { handle: h }
        },
        None => {
            show_one(app, "Node", String::from_str("Node is not running."));
            Pending::Done
        },
    }
}

pub open spec fn restart_step(pre: AppV) -> (AppV, PendingV) {
    let p1 = AppV { events: pre.events.push("[NODE] Restarting…"@), ..pre };
    (stop_step(p1).0, PendingV::Restart { shutdown: pre.node_handle })
}

/// `/restartNode`: log, perform the stop half now, and hand the caller the
/// pause-then-start half.
pub fn cmd_restart_node(app: &mut App) -> (r: Pending)
    requires
        old(app)@.wf(),
    ensures
        final(app)@ == restart_step(old(app)@).0,
        r.deep_view() == restart_step(old(app)@).1,
        final(app)@.wf(),
{
    app.push_event("[NODE] Restarting…");
    let sh = app.node_handle;
    let _stop = cmd_stop_node(app);
    Pending::Restart { shutdown: sh }
}

pub open spec fn port_step(pre: AppV, rest: Seq<char>) -> (AppV, PendingV) {
    let arg = trim_spec(rest);
    if arg.len() == 0 {
        (
            set_view(
                pre,
                "Port"@,
                seq![
                    "Current port: "@ + dec_str(pre.listen_port as nat)
                        + "  |  Usage: /port <port>"@,
                ],
            ),
            PendingV::Done,
        )
    } else {
        match port_spec(arg) {
            None => (
                report_error_post(pre, "'"@ + arg + "' is not a valid port number (1–65535)."@),
                PendingV::Done,
            ),
            Some(p) => if p == 0 {
                (
                    set_view(pre, "Port"@, seq!["Port must be between 1 and 65535."@]),
                    PendingV::Done,
                )
            } else {
                restart_step(
                    AppV {
                        listen_port: p,
                        events: pre.events.push(
                            "[NODE] Port changed: "@ + dec_str(pre.listen_port as nat) + " → "@
                                + dec_str(p as nat),
                        ),
                        output: pre.output.push(
                            "Port changed to "@ + dec_str(p as nat) + ". Restarting node…"@,
                        ),
                        ..pre
                    },
                )
            },
        }
    }
}

/// `/port <n>`: with no argument show the port; with a valid one (1–65535)
/// store it and restart the node; otherwise reject and change nothing.
pub fn cmd_port(app: &mut App, rest: &str) -> (r: Pending)
    requires
        old(app)@.wf(),
    ensures
        final(app)@ == port_step(old(app)@, rest@).0,
        r.deep_view() == port_step(old(app)@, rest@).1,
        final(app)@.wf(),
{
    let arg = trim_str(rest);
    if arg.as_str().unicode_len() == 0 {
        let cur = dec_string(app.listen_port as u64);
        show_one(app, "Port", cat3("Current port: ", cur.as_str(), "  |  Usage: /port <port>"));
        return Pending::Done;
    }
    match parse_port(arg.as_str()) {
        None => {
            let msg = cat3("'", arg.as_str(), "' is not a valid port number (1–65535).");
            report_error(app, msg.as_str());
            Pending::Done
        },
        Some(p) => {
            if p == 0 {
                show_one(app, "Port", String::from_str("Port must be between 1 and 65535."));
                return Pending::Done;
            }
            let old_s = dec_string(app.listen_port as u64);
            let new_s = dec_string(p as u64);
            app.listen_port = p;
            let ev = cat4("[NODE] Port changed: ", old_s.as_str(), " → ", new_s.as_str());
            let out = cat3("Port changed to ", new_s.as_str(), ". Restarting node…");
            app.push_event(ev.as_str());
            app.push_output(out.as_str());
            let r = cmd_restart_node(app);
            proof {
                assert(app@ =~= port_step(old(app)@, rest@).0);
            }
            r
        },
    }
}

// ---------------------------------------------------------------------------
// Peers
// ---------------------------------------------------------------------------

pub open spec fn peer_lines(peers: Seq<Seq<char>>) -> Seq<Seq<char>> {
    seq!["Known peers  ("@ + dec_str(peers.len()) + ")"@, ""@] + (if peers.len() == 0 {
        seq!["  No peers discovered yet. Start the node and wait for mDNS/Kademlia."@]
    } else {
        Seq::new(peers.len(), |i: int| "  "@ + pad3((i + 1) as nat) + ".  "@ + peers[i])
    })
}

pub open spec fn peers_post(pre: AppV, env: EnvV) -> AppV {
    set_view(
        AppV {
            peers: env.peers,
            events: pre.events.push(
                "[PEERS] Refreshed ("@ + dec_str(env.peers.len()) + " known)."@,
            ),
            output: pre.output.push("Peers: "@ + dec_str(env.peers.len()) + " known."@),
            ..pre
        },
        "Peers"@,
        peer_lines(env.peers),
    )
}

/// `/peers`: replace the peer cache with the store snapshot and show it as
/// an enumerated list.
pub fn cmd_peers(app: &mut App, env: &Env)
    ensures
        final(app)@ == peers_post(old(app)@, env.deep_view()),
{
    let peers = clone_lines(&env.peers);
    let n = peers.len();
    app.peers = peers;
    let count = dec_string(n as u64);
    let ev = cat3("[PEERS] Refreshed (", count.as_str(), " known).");
    let out = cat3("Peers: ", count.as_str(), " known.");
    app.push_event(ev.as_str());
    app.push_output(out.as_str());
    let mut lines: Vec<String> = Vec::new();
    lines.push(cat3("Known peers  (", count.as_str(), ")"));
    lines.push(String::from_str(""));
    if n == 0 {
        lines.push(String::from_str(
            "  No peers discovered yet. Start the node and wait for mDNS/Kademlia.",
        ));
    } else {
        let ghost hdr = lines.deep_view();
        let mut i: usize = 0;
        while i < n
            invariant
                n == env.peers.len(),
                0 <= i <= n,
                hdr.len() == 2,
                lines.deep_view() =~= hdr + Seq::new(
                    i as nat,
                    |j: int| "  "@ + pad3((j + 1) as nat) + ".  "@ + env.peers.deep_view()[j],
                ),
            decreases n - i,
        {
            let mut num = String::new();
            push_pad3(&mut num, (i as u64) + 1);
            proof {
                assert(num@ =~= pad3((i + 1) as nat));
            }
            proof {
                assert(env.peers.deep_view()[i as int] == env.peers@[i as int]@);
            }
            let line = cat4("  ", num.as_str(), ".  ", env.peers[i].as_str());
            let ghost prev = lines.deep_view();
            proof {
                assert(line@ == "  "@ + pad3((i + 1) as nat) + ".  "@ + env.peers.deep_view()[
                    i as int
                ]);
            }
            lines.push(line);
            i += 1;
            proof {
                assert(lines.deep_view() =~= prev.push("  "@ + pad3(i as nat) + ".  "@
                    + env.peers.deep_view()[i - 1]));
                assert(Seq::new(
                    i as nat,
                    |j: int| "  "@ + pad3((j + 1) as nat) + ".  "@ + env.peers.deep_view()[j],
                ) =~= Seq::new(
                    (i - 1) as nat,
                    |j: int| "  "@ + pad3((j + 1) as nat) + ".  "@ + env.peers.deep_view()[j],
                ).push("  "@ + pad3(i as nat) + ".  "@ + env.peers.deep_view()[i - 1]));
                assert(lines.deep_view() =~= hdr + Seq::new(
                    i as nat,
                    |j: int| "  "@ + pad3((j + 1) as nat) + ".  "@ + env.peers.deep_view()[j],
                ));
            }
        }
    }
    proof {
        assert(lines.deep_view() =~= peer_lines(env.deep_view().peers));
    }
    app.set_content("Peers", lines);
    proof {
        assert(app@ =~= peers_post(old(app)@, env.deep_view()));
    }
}

// ---------------------------------------------------------------------------
// Nick resolution and user views
// ---------------------------------------------------------------------------

/// A display name, or the placeholder shown when none is set.
pub open spec fn name_or_unnamed(dn: Option<Seq<char>>) -> Seq<char> {
    match dn {
        Some(n) => n,
        None => "(unnamed)"@,
    }
}

pub open spec fn nick_matches(dn: Option<Seq<char>>, nick: Seq<char>) -> bool {
    match dn {
        Some(n) => eqi_str(n, nick),
        None => false,
    }
}

/// The id of the first known user whose display name matches the nick.
pub open spec fn resolve_known(users: Seq<KnownUserV>, nick: Seq<char>) -> Option<Seq<char>>
    decreases users.len(),
{
    if users.len() == 0 {
        None
    } else if nick_matches(users.first().display_name, nick) {
        Some(users.first().id)
    } else {
        resolve_known(users.drop_first(), nick)
    }
}

/// Nick resolution: the local user first, then the known users in store
/// order; matching is exact up to ASCII letter case.
pub open spec fn resolve_spec(env: EnvV, nick: Seq<char>) -> Option<Seq<char>> {
    match env.local_user {
        Some(u) => if nick_matches(u.display_name, nick) {
            Some(u.id)
        } else {
            resolve_known(env.known_users, nick)
        },
        None => resolve_known(env.known_users, nick),
    }
}

fn matches_nick_exec(dn: &Option<String>, nick: &str) -> (r: bool)
    ensures
        r == nick_matches(dn.deep_view(), nick@),
{
    match dn {
        Some(n) => eqi_str_exec(n.as_str(), nick),
        None => false,
    }
}

/// Resolve a display name to a user id against the store snapshot.
pub fn resolve_nick(env: &Env, nick: &str) -> (r: Option<String>)
    ensures
        match r {
            Some(id) => resolve_spec(env.deep_view(), nick@) == Some(id@),
            None => resolve_spec(env.deep_view(), nick@) is None,
        },
{
    match &env.local_user {
        Some(u) => {
            if matches_nick_exec(&u.display_name, nick) {
                return Some(u.id.clone());
            }
        },
        None => {},
    }
    let ghost kus = env.known_users.deep_view();
    let n = env.known_users.len();
    let mut i: usize = 0;
    proof {
        assert(kus.skip(0) =~= kus);
    }
    while i < n
        invariant
            n == env.known_users.len(),
            0 <= i <= n,
            kus == env.known_users.deep_view(),
            resolve_known(kus, nick@) == resolve_known(kus.skip(i as int), nick@),
            resolve_spec(env.deep_view(), nick@) == resolve_known(kus, nick@),
        decreases n - i,
    {
        let ghost s = kus.skip(i as int);
        proof {
            assert(s.first() == kus[i as int]);
            assert(kus[i as int] == env.known_users@[i as int].deep_view());
            assert(s.drop_first() =~= kus.skip(i as int + 1));
        }
        let ku = &env.known_users[i];
        if matches_nick_exec(&ku.display_name, nick) {
            return Some(ku.id.clone());
        }
        i += 1;
    }
    proof {
        assert(kus.skip(n as int) =~= Seq::<KnownUserV>::empty());
    }
    None
}

/// The three lines a single user is shown as.
pub open spec fn user_lines_spec(u: UserRecordV) -> Seq<Seq<char>> {
    seq![
        "["@ + (if u.is_local {
            "LOCAL"@
        } else {
            "REMOTE"@
        }) + "]  "@ + name_or_unnamed(u.display_name),
        "  id         : "@ + u.id,
        "  public_key : "@ + u.public_key,
    ]
}

/// Render one user record for the content area.
pub fn user_lines(user: &UserRecord) -> (r: Vec<String>)
    ensures
        r.deep_view() == user_lines_spec(user.deep_view()),
{
    let role: &str = if user.is_local {
        "LOCAL"
    } else {
        "REMOTE"
    };
    let name: &str = match &user.display_name {
        Some(n) => n.as_str(),
        None => "(unnamed)",
    };
    let mut r: Vec<String> = Vec::new();
    r.push(cat4("[", role, "]  ", name));
    r.push(cat2("  id         : ", user.id.as_str()));
    r.push(cat2("  public_key : ", user.public_key.as_str()));
    proof {
        assert(r.deep_view() =~= user_lines_spec(user.deep_view()));
    }
    r
}

// ---------------------------------------------------------------------------
// Nick
// ---------------------------------------------------------------------------

pub open spec fn nick_step(pre: AppV, env: EnvV, rest: Seq<char>) -> (AppV, PendingV) {
    let new_name = trim_spec(rest);
    if new_name.len() == 0 {
        (set_view(pre, "Nick"@, seq!["Usage: /nick <new_name>"@]), PendingV::Done)
    } else {
        match env.local_user {
            None => (
                set_view(
                    pre,
                    "Nick"@,
                    seq!["No local user found. Use /user to create one first."@],
                ),
                PendingV::Done,
            ),
            Some(u) => (
                pre,
                PendingV::SaveNick {
                    user: UserRecordV { display_name: Some(new_name), ..u },
                    old_name: name_or_unnamed(u.display_name),
                    new_name,
                },
            ),
        }
    }
}

/// `/nick <name>`: rename the local user; the caller persists the returned
/// record and only then is the cache updated via `finish_nick`.
pub fn cmd_nick(app: &mut App, rest: &str, env: &Env) -> (r: Pending)
    ensures
        final(app)@ == nick_step(old(app)@, env.deep_view(), rest@).0,
        r.deep_view() == nick_step(old(app)@, env.deep_view(), rest@).1,
{
    let new_name = trim_str(rest);
    if new_name.as_str().unicode_len() == 0 {
        show_one(app, "Nick", String::from_str("Usage: /nick <new_name>"));
        return Pending::Done;
    }
    match &env.local_user {
        None => {
            show_one(app, "Nick", String::from_str(
                "No local user found. Use /user to create one first.",
            ));
            Pending::Done
        },
        Some(u) => {
            let old_name: String = match &u.display_name {
                Some(n) => n.clone(),
                None => String::from_str("(unnamed)"),
            };
            let mut user = u.duplicate();
            user.display_name = Some(new_name.clone());
            Pending::SaveNick { user, old_name, new_name }
        },
    }
}

/// Index of the first cached user marked local.
pub open spec fn find_local(users: Seq<UserRecordV>) -> Option<int>
    decreases users.len(),
{
    if users.len() == 0 {
        None
    } else if users.first().is_local {
        Some(0)
    } else {
        match find_local(users.drop_first()) {
            Some(i) => Some(i + 1),
            None => None,
        }
    }
}

proof fn lemma_find_local_at(users: Seq<UserRecordV>, k: int)
    requires
        0 <= k <= users.len(),
        forall|j: int| 0 <= j < k ==> !(#[trigger] users[j]).is_local,
        k == users.len() || users[k].is_local,
    ensures
        find_local(users) == (if k == users.len() {
            None
        } else {
            Some(k)
        }),
    decreases k,
{
    if k == 0 {
    } else {
        let t = users.drop_first();
        lemma_find_local_at(t, k - 1);
    }
}

pub open spec fn finish_nick_post(pre: AppV, old_name: Seq<char>, new_name: Seq<char>) -> AppV {
    let users2 = match find_local(pre.users) {
        Some(i) => pre.users.update(
            i,
            UserRecordV { display_name: Some(new_name), ..pre.users[i] },
        ),
        None => pre.users,
    };
    set_view(
        AppV {
            users: users2,
            events: pre.events.push("[NICK] "@ + old_name + " → "@ + new_name),
            output: pre.output.push(
                "Display name changed: "@ + old_name + " → "@ + new_name,
            ),
            ..pre
        },
        "Nick"@,
        seq!["Display name changed: "@ + old_name + " → "@ + new_name],
    )
}

/// After the renamed local user was persisted: mirror the new name into the
/// cached copy, if one is cached, so the two views agree.
pub fn finish_nick(app: &mut App, old_name: &str, new_name: &str)
    ensures
        final(app)@ == finish_nick_post(old(app)@, old_name@, new_name@),
{
    let ghost usv = app.users.deep_view();
    let n = app.users.len();
    let mut i: usize = 0;
    let mut found = false;
    while i < n && !found
        invariant
            n == app.users.len(),
            0 <= i <= n,
            app.users == old(app).users,
            usv == app.users.deep_view(),
            forall|j: int| 0 <= j < i ==> !(#[trigger] usv[j]).is_local,
            found ==> i < n && usv[i as int].is_local,
        decreases n - i + (if found { 0int } else { 1int }),
    {
        proof {
            assert(usv[i as int] == app.users@[i as int].deep_view());
        }
        if app.users[i].is_local {
            found = true;
        } else {
            i += 1;
        }
    }
    proof {
        if found {
            lemma_find_local_at(usv, i as int);
        } else {
            lemma_find_local_at(usv, n as int);
        }
    }
    if found {
        let mut u = app.users[i].duplicate();
        u.display_name = Some(new_name.to_owned());
        app.users[i] = u;
        proof {
            assert(app.users.deep_view() =~= usv.update(
                i as int,
                UserRecordV { display_name: Some(new_name@), ..usv[i as int] },
            ));
        }
    }
    let msg = cat4("Display name changed: ", old_name, " → ", new_name);
    let ev = cat4("[NICK] ", old_name, " → ", new_name);
    app.push_event(ev.as_str());
    app.push_output(msg.as_str());
    show_one(app, "Nick", msg);
    proof {
        assert(app@ =~= finish_nick_post(old(app)@, old_name@, new_name@));
    }
}

// ---------------------------------------------------------------------------
// Users
// ---------------------------------------------------------------------------

pub open spec fn r_user_dv(r: Result<UserRecord, String>) -> Result<UserRecordV, Seq<char>> {
    match r {
        Ok(u) => Ok(u.deep_view()),
        Err(e) => Err(e@),
    }
}

pub open spec fn r_users_dv(r: Result<Vec<UserRecord>, String>) -> Result<
    Seq<UserRecordV>,
    Seq<char>,
> {
    match r {
        Ok(us) => Ok(us.deep_view()),
        Err(e) => Err(e@),
    }
}

pub open spec fn user_step(pre: AppV, env: EnvV, rest: Seq<char>) -> (AppV, PendingV) {
    let arg = trim_spec(rest);
    let resolved = if arg.len() > 0 {
        resolve_spec(env, arg)
    } else {
        None
    };
    match resolved {
        Some(id) => if pre.node_handle is None {
            (
                set_view(pre, "User"@, seq!["Node is not running. Use /startNode first."@]),
                PendingV::Done,
            )
        } else {
            (pre, PendingV::Node { req: NodeRequestV::GetUser { id } })
        },
        None => if pre.node_handle is None {
            (
                set_view(pre, "User"@, seq!["Node is not running. Use /startNode first."@]),
                PendingV::Done,
            )
        } else if arg.len() == 0 {
            match env.local_user {
                Some(u) => (set_view(pre, "User"@, user_lines_spec(u)), PendingV::Done),
                None => (
                    AppV {
                        output: pre.output.push("No local user found — creating one…"@),
                        ..pre
                    },
                    PendingV::Node { req: NodeRequestV::CreateUser { display_name: None } },
                ),
            }
        } else {
            (
                pre,
                PendingV::Node {
                    req: NodeRequestV::CreateUser { display_name: Some(arg) },
                },
            )
        },
    }
}

/// `/user [name]`: show the local user, look a nick up through the node, or
/// ask the node to create a user.
pub fn cmd_user(app: &mut App, rest: &str, env: &Env) -> (r: Pending)
    ensures
        final(app)@ == user_step(old(app)@, env.deep_view(), rest@).0,
        r.deep_view() == user_step(old(app)@, env.deep_view(), rest@).1,
{
    let arg = trim_str(rest);
    let arg_len = arg.as_str().unicode_len();
    let resolved: Option<String> = if arg_len > 0 {
        resolve_nick(env, arg.as_str())
    } else {
        None
    };
    match resolved {
        Some(id) => {
            if app.node_handle.is_none() {
                show_one(app, "User", String::from_str(
                    "Node is not running. Use /startNode first.",
                ));
                Pending::Done
            } else {
                Pending::Node { req: NodeRequest::GetUser { id } }
            }
        },
        None => {
            if app.node_handle.is_none() {
                show_one(app, "User", String::from_str(
                    "Node is not running. Use /startNode first.",
                ));
                return Pending::Done;
            }
            if arg_len == 0 {
                match &env.local_user {
                    Some(u) => {
                        let lines = user_lines(u);
                        app.set_content("User", lines);
                        return Pending::Done;
                    },
                    None => {
                        app.push_output("No local user found — creating one…");
                        return Pending::Node {
                            req: NodeRequest::CreateUser { display_name: None },
                        };
                    },
                }
            }
            Pending::Node { req: NodeRequest::CreateUser { display_name: Some(arg) } }
        },
    }
}

/// True when some cached user carries this id.
pub open spec fn has_user_id(users: Seq<UserRecordV>, id: Seq<char>) -> bool {
    exists|i: int| 0 <= i < users.len() && (#[trigger] users[i]).id == id
}

pub open spec fn finish_create_user_post(pre: AppV, outcome: Result<
    UserRecordV,
    Seq<char>,
>) -> AppV {
    match outcome {
        Ok(u) => {
            let name = name_or_unnamed(u.display_name);
            let users2 = if has_user_id(pre.users, u.id) {
                pre.users
            } else {
                pre.users.push(u)
            };
            set_view(
                AppV {
                    users: users2,
                    events: pre.events.push(
                        "[USER] Created: "@ + name + " ("@ + trunc_spec(u.id, 16) + ")"@,
                    ),
                    output: pre.output.push("User created: "@ + name),
                    ..pre
                },
                "User"@,
                user_lines_spec(u),
            )
        },
        Err(e) => set_view(
            AppV { events: pre.events.push("[USER] Create failed: "@ + e), ..pre },
            "User"@,
            seq!["Error creating user: "@ + e],
        ),
    }
}

/// Apply the node's reply to a user-creation request: log it, cache the new
/// user unless its id is already cached, and show it.
pub fn finish_create_user(app: &mut App, outcome: Result<UserRecord, String>)
    ensures
        final(app)@ == finish_create_user_post(old(app)@, r_user_dv(outcome)),
{
    match outcome {
        Ok(user) => {
            let name: String = match &user.display_name {
                Some(n) => n.clone(),
                None => String::from_str("(unnamed)"),
            };
            let short = truncate_id(user.id.as_str(), 16);
            let ev = cat5("[USER] Created: ", name.as_str(), " (", short.as_str(), ")");
            let out = cat2("User created: ", name.as_str());
            app.push_event(ev.as_str());
            app.push_output(out.as_str());
            let lines = user_lines(&user);
            let ghost usv = app.users.deep_view();
            let ghost uv = user.deep_view();
            let n = app.users.len();
            let mut found = false;
            let mut i: usize = 0;
            while i < n && !found
                invariant
                    n == app.users.len(),
                    0 <= i <= n,
                    usv == app.users.deep_view(),
                    uv == user.deep_view(),
                    !found ==> forall|j: int| 0 <= j < i ==> (#[trigger] usv[j]).id != uv.id,
                    found ==> has_user_id(usv, uv.id),
                decreases n - i + (if found { 0int } else { 1int }),
            {
                proof {
                    assert(usv[i as int] == app.users@[i as int].deep_view());
                }
                if str_eq(app.users[i].id.as_str(), user.id.as_str()) {
                    found = true;
                } else {
                    i += 1;
                }
            }
            if !found {
                proof {
                    assert(forall|j: int| 0 <= j < n ==> (#[trigger] usv[j]).id != uv.id);
                    assert(!has_user_id(usv, uv.id));
                }
                app.users.push(user);
                proof {
                    assert(app.users.deep_view() =~= usv.push(uv));
                }
            }
            app.set_content("User", lines);
            proof {
                assert(app@ =~= finish_create_user_post(old(app)@, r_user_dv(outcome)));
            }
        },
        Err(e) => {
            let ev = cat2("[USER] Create failed: ", e.as_str());
            app.push_event(ev.as_str());
            show_one(app, "User", cat2("Error creating user: ", e.as_str()));
            proof {
                assert(app@ =~= finish_create_user_post(old(app)@, r_user_dv(outcome)));
            }
        },
    }
}

pub open spec fn finish_get_user_post(pre: AppV, outcome: Result<UserRecordV, Seq<char>>) -> AppV {
    match outcome {
        Ok(u) => set_view(pre, "User"@, user_lines_spec(u)),
        Err(e) => set_view(pre, "User"@, seq!["User not found: "@ + e]),
    }
}

/// Apply the node's reply to a user lookup: show the record or the failure.
pub fn finish_get_user(app: &mut App, outcome: Result<UserRecord, String>)
    ensures
        final(app)@ == finish_get_user_post(old(app)@, r_user_dv(outcome)),
{
    match outcome {
        Ok(user) => {
            let lines = user_lines(&user);
            app.set_content("User", lines);
        },
        Err(e) => {
            show_one(app, "User", cat2("User not found: ", e.as_str()));
        },
    }
}

/// The degraded listing used while the node is stopped: one line per known
/// user straight from the store, with no local/remote label.
pub open spec fn known_user_lines(kus: Seq<KnownUserV>) -> Seq<Seq<char>> {
    seq!["Known users  ("@ + dec_str(kus.len()) + ")"@, ""@] + (if kus.len() == 0 {
        seq!["  No remote users on record."@]
    } else {
        Seq::new(
            kus.len(),
            |i: int| "  "@ + name_or_unnamed(kus[i].display_name) + "  "@ + kus[i].id,
        )
    })
}

pub open spec fn users_step(pre: AppV, env: EnvV) -> (AppV, PendingV) {
    if pre.node_handle is None {
        (set_view(pre, "Users"@, known_user_lines(env.known_users)), PendingV::Done)
    } else {
        (pre, PendingV::Node { req: NodeRequestV::GetUsers })
    }
}

/// `/users`: ask the running node for the user list, or fall back to the
/// store snapshot when the node is stopped.
pub fn cmd_users(app: &mut App, env: &Env) -> (r: Pending)
    ensures
        final(app)@ == users_step(old(app)@, env.deep_view()).0,
        r.deep_view() == users_step(old(app)@, env.deep_view()).1,
{
    if app.node_handle.is_some() {
        return Pending::Node { req: NodeRequest::GetUsers };
    }
    let ghost kus = env.known_users.deep_view();
    let n = env.known_users.len();
    let count = dec_string(n as u64);
    let mut lines: Vec<String> = Vec::new();
    lines.push(cat3("Known users  (", count.as_str(), ")"));
    lines.push(String::from_str(""));
    if n == 0 {
        lines.push(String::from_str("  No remote users on record."));
    } else {
        let ghost hdr = lines.deep_view();
        let mut i: usize = 0;
        while i < n
            invariant
                n == env.known_users.len(),
                0 <= i <= n,
                kus == env.known_users.deep_view(),
                hdr.len() == 2,
                lines.deep_view() =~= hdr + Seq::new(
                    i as nat,
                    |j: int| "  "@ + name_or_unnamed(kus[j].display_name) + "  "@ + kus[j].id,
                ),
            decreases n - i,
        {
            proof {
                assert(kus[i as int] == env.known_users@[i as int].deep_view());
            }
            let ku = &env.known_users[i];
            let name: &str = match &ku.display_name {
                Some(nm) => nm.as_str(),
                None => "(unnamed)",
            };
            let line = cat4("  ", name, "  ", ku.id.as_str());
            let ghost prev = lines.deep_view();
            proof {
                assert(line@ == "  "@ + name_or_unnamed(kus[i as int].display_name) + "  "@
                    + kus[i as int].id);
            }
            lines.push(line);
            i += 1;
            proof {
                assert(lines.deep_view() =~= prev.push("  "@ + name_or_unnamed(
                    kus[i - 1].display_name,
                ) + "  "@ + kus[i - 1].id));
                assert(Seq::new(
                    i as nat,
                    |j: int| "  "@ + name_or_unnamed(kus[j].display_name) + "  "@ + kus[j].id,
                ) =~= Seq::new(
                    (i - 1) as nat,
                    |j: int| "  "@ + name_or_unnamed(kus[j].display_name) + "  "@ + kus[j].id,
                ).push("  "@ + name_or_unnamed(kus[i - 1].display_name) + "  "@ + kus[i - 1].id));
                assert(lines.deep_view() =~= hdr + Seq::new(
                    i as nat,
                    |j: int| "  "@ + name_or_unnamed(kus[j].display_name) + "  "@ + kus[j].id,
                ));
            }
        }
    }
    proof {
        assert(lines.deep_view() =~= known_user_lines(kus));
    }
    app.set_content("Users", lines);
    proof {
        assert(app@ =~= users_step(old(app)@, env.deep_view()).0);
    }
    Pending::Done
}

/// The labelled listing built from the node's reply.
pub open spec fn users_view_lines(us: Seq<UserRecordV>) -> Seq<Seq<char>> {
    seq!["Known users  ("@ + dec_str(us.len()) + ")"@, ""@] + (if us.len() == 0 {
        seq!["  No remote users discovered yet."@]
    } else {
        Seq::new(
            us.len(),
            |i: int| "  ["@ + (if us[i].is_local {
                "LOCAL "@
            } else {
                "REMOTE"@
            }) + "]  "@ + name_or_unnamed(us[i].display_name) + "  —  "@ + trunc_spec(us[i].id, 24),
        )
    })
}

pub open spec fn finish_get_users_post(pre: AppV, outcome: Result<
    Seq<UserRecordV>,
    Seq<char>,
>) -> AppV {
    match outcome {
        Ok(us) => set_view(
            AppV {
                users: us,
                events: pre.events.push("[USERS] Refreshed ("@ + dec_str(us.len()) + " found)."@),
                output: pre.output.push("Users: "@ + dec_str(us.len()) + " found."@),
                ..pre
            },
            "Users"@,
            users_view_lines(us),
        ),
        Err(e) => set_view(
            AppV { events: pre.events.push("[USERS] Fetch failed: "@ + e), ..pre },
            "Users"@,
            seq!["Error fetching users: "@ + e],
        ),
    }
}

/// Apply the node's reply to `/users`: replace the cache and show the
/// labelled listing, or report the failure.
pub fn finish_get_users(app: &mut App, outcome: Result<Vec<UserRecord>, String>)
    ensures
        final(app)@ == finish_get_users_post(old(app)@, r_users_dv(outcome)),
{
    match outcome {
        Ok(users) => {
            let ghost usv = users.deep_view();
            let n = users.len();
            let count = dec_string(n as u64);
            let ev = cat3("[USERS] Refreshed (", count.as_str(), " found).");
            let out = cat3("Users: ", count.as_str(), " found.");
            app.push_event(ev.as_str());
            app.push_output(out.as_str());
            let mut lines: Vec<String> = Vec::new();
            lines.push(cat3("Known users  (", count.as_str(), ")"));
            lines.push(String::from_str(""));
            if n == 0 {
                lines.push(String::from_str("  No remote users discovered yet."));
            } else {
                let ghost hdr = lines.deep_view();
                let ghost f = |j: int| "  ["@ + (if usv[j].is_local {
                    "LOCAL "@
                } else {
                    "REMOTE"@
                }) + "]  "@ + name_or_unnamed(usv[j].display_name) + "  —  "@ + trunc_spec(
                    usv[j].id,
                    24,
                );
                let mut i: usize = 0;
                while i < n
                    invariant
                        n == users.len(),
                        0 <= i <= n,
                        usv == users.deep_view(),
                        hdr.len() == 2,
                        f == (|j: int| "  ["@ + (if usv[j].is_local {
                            "LOCAL "@
                        } else {
                            "REMOTE"@
                        }) + "]  "@ + name_or_unnamed(usv[j].display_name) + "  —  "@ + trunc_spec(
                            usv[j].id,
                            24,
                        )),
                        lines.deep_view() =~= hdr + Seq::new(i as nat, f),
                    decreases n - i,
                {
                    proof {
                        assert(usv[i as int] == users@[i as int].deep_view());
                    }
                    let u = &users[i];
                    let label: &str = if u.is_local {
                        "LOCAL "
                    } else {
                        "REMOTE"
                    };
                    let name: &str = match &u.display_name {
                        Some(nm) => nm.as_str(),
                        None => "(unnamed)",
                    };
                    let short = truncate_id(u.id.as_str(), 24);
                    let line = cat6("  [", label, "]  ", name, "  —  ", short.as_str());
                    let ghost prev = lines.deep_view();
                    proof {
                        assert(line@ == f(i as int));
                    }
                    lines.push(line);
                    i += 1;
                    proof {
                        assert(lines.deep_view() =~= prev.push(f(i - 1)));
                        assert(Seq::new(i as nat, f) =~= Seq::new((i - 1) as nat, f).push(
                            f(i - 1),
                        ));
                        assert(lines.deep_view() =~= hdr + Seq::new(i as nat, f));
                    }
                }
            }
            proof {
                assert(lines.deep_view() =~= users_view_lines(usv));
            }
            app.users = users;
            app.set_content("Users", lines);
            proof {
                assert(app@ =~= finish_get_users_post(old(app)@, r_users_dv(outcome)));
            }
        },
        Err(e) => {
            let ev = cat2("[USERS] Fetch failed: ", e.as_str());
            app.push_event(ev.as_str());
            show_one(app, "Users", cat2("Error fetching users: ", e.as_str()));
            proof {
                assert(app@ =~= finish_get_users_post(old(app)@, r_users_dv(outcome)));
            }
        },
    }
}

// ---------------------------------------------------------------------------
// Connections
// ---------------------------------------------------------------------------

pub open spec fn r_conn_dv(r: Result<ConnectionRecord, String>) -> Result<
    ConnectionRecordV,
    Seq<char>,
> {
    match r {
        Ok(c) => Ok(c.deep_view()),
        Err(e) => Err(e@),
    }
}

pub open spec fn conn_state_str(established: bool) -> Seq<char> {
    if established {
        "established"@
    } else {
        "pending"@
    }
}

pub open spec fn conn_step(pre: AppV, env: EnvV, rest: Seq<char>) -> (AppV, PendingV) {
    let arg = trim_spec(rest);
    if arg.len() == 0 {
        (set_view(pre, "Connection"@, seq!["Usage: /connection <nick>"@]), PendingV::Done)
    } else {
        match resolve_spec(env, arg) {
            None => (
                set_view(
                    pre,
                    "Connection"@,
                    seq![
                        "No user found with nick '"@ + arg
                            + "'. Use /users to see known users."@,
                    ],
                ),
                PendingV::Done,
            ),
            Some(id) => if pre.node_handle is None {
                (
                    set_view(
                        pre,
                        "Connection"@,
                        seq!["Node is not running. Use /startNode first."@],
                    ),
                    PendingV::Done,
                )
            } else {
                (
                    pre,
                    PendingV::Node {
                        req: NodeRequestV::CreateConnection { to_id: id, nick: arg },
                    },
                )
            },
        }
    }
}

/// `/connection <nick>`: resolve the nick and ask the node to open a
/// connection to that user.
pub fn cmd_connection(app: &mut App, rest: &str, env: &Env) -> (r: Pending)
    ensures
        final(app)@ == conn_step(old(app)@, env.deep_view(), rest@).0,
        r.deep_view() == conn_step(old(app)@, env.deep_view(), rest@).1,
{
    let arg = trim_str(rest);
    if arg.as_str().unicode_len() == 0 {
        show_one(app, "Connection", String::from_str("Usage: /connection <nick>"));
        return Pending::Done;
    }
    match resolve_nick(env, arg.as_str()) {
        None => {
            show_one(app, "Connection", cat3(
                "No user found with nick '",
                arg.as_str(),
                "'. Use /users to see known users.",
            ));
            Pending::Done
        },
        Some(to_id) => {
            if app.node_handle.is_none() {
                show_one(app, "Connection", String::from_str(
                    "Node is not running. Use /startNode first.",
                ));
                return Pending::Done;
            }
            Pending::Node { req: NodeRequest::CreateConnection { to_id, nick: arg } }
        },
    }
}

/// True when some cached connection already points at this target id.
pub open spec fn has_conn_to(conns: Seq<ConnectionRecordV>, to: Seq<char>) -> bool {
    exists|i: int| 0 <= i < conns.len() && (#[trigger] conns[i]).to_id == to
}

pub open spec fn finish_conn_post(pre: AppV, nick: Seq<char>, outcome: Result<
    ConnectionRecordV,
    Seq<char>,
>) -> AppV {
    match outcome {
        Ok(c) => {
            let st = conn_state_str(c.established);
            let conns2 = if has_conn_to(pre.connections, c.to_id) {
                pre.connections
            } else {
                pre.connections.push(c)
            };
            set_view(
                AppV {
                    connections: conns2,
                    events: pre.events.push(
                        "[CONN] → "@ + trunc_spec(c.to_id, 16) + " ["@ + st + "]"@,
                    ),
                    output: pre.output.push(
                        "Connection initiated with "@ + nick + " ["@ + st + "]."@,
                    ),
                    ..pre
                },
                "Connection"@,
                seq![
                    "Connection initiated  ["@ + st + "]"@,
                    ""@,
                    "  from  : "@ + c.from_id,
                    "  to    : "@ + c.to_id,
                    "  state : "@ + st,
                ],
            )
        },
        Err(e) => set_view(
            AppV { events: pre.events.push("[CONN] Create failed: "@ + e), ..pre },
            "Connection"@,
            seq!["Error creating connection: "@ + e],
        ),
    }
}

/// Apply the node's reply to `/connection`: cache the record only when no
/// entry with the same target exists yet (insert-if-absent), and show it.
pub fn finish_create_connection(app: &mut App, nick: &str, outcome: Result<
    ConnectionRecord,
    String,
>)
    ensures
        final(app)@ == finish_conn_post(old(app)@, nick@, r_conn_dv(outcome)),
{
    match outcome {
        Ok(conn) => {
            let state: &str = if conn.established {
                "established"
            } else {
                "pending"
            };
            let short_to = truncate_id(conn.to_id.as_str(), 16);
            let ev = cat5("[CONN] → ", short_to.as_str(), " [", state, "]");
            let out = cat5("Connection initiated with ", nick, " [", state, "].");
            app.push_event(ev.as_str());
            app.push_output(out.as_str());
            let mut lines: Vec<String> = Vec::new();
            lines.push(cat3("Connection initiated  [", state, "]"));
            lines.push(String::from_str(""));
            lines.push(cat2("  from  : ", conn.from_id.as_str()));
            lines.push(cat2("  to    : ", conn.to_id.as_str()));
            lines.push(cat2("  state : ", state));
            let ghost csv = app.connections.deep_view();
            let ghost cv = conn.deep_view();
            let n = app.connections.len();
            let mut found = false;
            let mut i: usize = 0;
            while i < n && !found
                invariant
                    n == app.connections.len(),
                    0 <= i <= n,
                    csv == app.connections.deep_view(),
                    cv == conn.deep_view(),
                    !found ==> forall|j: int| 0 <= j < i ==> (#[trigger] csv[j]).to_id
                        != cv.to_id,
                    found ==> has_conn_to(csv, cv.to_id),
                decreases n - i + (if found { 0int } else { 1int }),
            {
                proof {
                    assert(csv[i as int] == app.connections@[i as int].deep_view());
                }
                if str_eq(app.connections[i].to_id.as_str(), conn.to_id.as_str()) {
                    found = true;
                } else {
                    i += 1;
                }
            }
            if !found {
                proof {
                    assert(forall|j: int| 0 <= j < n ==> (#[trigger] csv[j]).to_id != cv.to_id);
                    assert(!has_conn_to(csv, cv.to_id));
                }
                app.connections.push(conn);
                proof {
                    assert(app.connections.deep_view() =~= csv.push(cv));
                }
            }
            proof {
                assert(lines.deep_view() =~= seq![
                    "Connection initiated  ["@ + conn_state_str(cv.established) + "]"@,
                    ""@,
                    "  from  : "@ + cv.from_id,
                    "  to    : "@ + cv.to_id,
                    "  state : "@ + conn_state_str(cv.established),
                ]);
            }
            app.set_content("Connection", lines);
            proof {
                assert(app@ =~= finish_conn_post(old(app)@, nick@, r_conn_dv(outcome)));
            }
        },
        Err(e) => {
            let ev = cat2("[CONN] Create failed: ", e.as_str());
            app.push_event(ev.as_str());
            show_one(app, "Connection", cat2("Error creating connection: ", e.as_str()));
            proof {
                assert(app@ =~= finish_conn_post(old(app)@, nick@, r_conn_dv(outcome)));
            }
        },
    }
}

pub open spec fn conn_list_lines(cs: Seq<ConnectionRecordV>) -> Seq<Seq<char>> {
    seq!["Connections  ("@ + dec_str(cs.len()) + ")"@, ""@] + (if cs.len() == 0 {
        seq!["  No connections on record."@]
    } else {
        Seq::new(
            cs.len(),
            |i: int| "  ["@ + (if cs[i].established {
                "established"@
            } else {
                "pending   "@
            }) + "]  "@ + trunc_spec(cs[i].from_id, 16) + " → "@ + trunc_spec(cs[i].to_id, 16),
        )
    })
}

pub open spec fn connections_post(pre: AppV, env: EnvV) -> AppV {
    set_view(
        AppV {
            connections: env.connections,
            output: pre.output.push(
                "Connections: "@ + dec_str(env.connections.len()) + "."@,
            ),
            ..pre
        },
        "Connections"@,
        conn_list_lines(env.connections),
    )
}

/// `/connections`: replace the connection cache with the store snapshot and
/// list it.
pub fn cmd_connections(app: &mut App, env: &Env)
    ensures
        final(app)@ == connections_post(old(app)@, env.deep_view()),
{
    let ghost csv = env.connections.deep_view();
    let conns = clone_conns(&env.connections);
    let n = conns.len();
    app.connections = conns;
    let count = dec_string(n as u64);
    let mut lines: Vec<String> = Vec::new();
    lines.push(cat3("Connections  (", count.as_str(), ")"));
    lines.push(String::from_str(""));
    if n == 0 {
        lines.push(String::from_str("  No connections on record."));
    } else {
        let ghost hdr = lines.deep_view();
        let ghost f = |i: int| "  ["@ + (if csv[i].established {
            "established"@
        } else {
            "pending   "@
        }) + "]  "@ + trunc_spec(csv[i].from_id, 16) + " → "@ + trunc_spec(csv[i].to_id, 16);
        let mut i: usize = 0;
        while i < n
            invariant
                n == env.connections.len(),
                0 <= i <= n,
                csv == env.connections.deep_view(),
                hdr.len() == 2,
                f == (|i: int| "  ["@ + (if csv[i].established {
                    "established"@
                } else {
                    "pending   "@
                }) + "]  "@ + trunc_spec(csv[i].from_id, 16) + " → "@ + trunc_spec(
                    csv[i].to_id,
                    16,
                )),
                lines.deep_view() =~= hdr + Seq::new(i as nat, f),
            decreases n - i,
        {
            proof {
                assert(csv[i as int] == env.connections@[i as int].deep_view());
            }
            let c = &env.connections[i];
            let state: &str = if c.established {
                "established"
            } else {
                "pending   "
            };
            let sf = truncate_id(c.from_id.as_str(), 16);
            let st = truncate_id(c.to_id.as_str(), 16);
            let line = cat6("  [", state, "]  ", sf.as_str(), " → ", st.as_str());
            let ghost prev = lines.deep_view();
            proof {
                assert(line@ == f(i as int));
            }
            lines.push(line);
            i += 1;
            proof {
                assert(lines.deep_view() =~= prev.push(f(i - 1)));
                assert(Seq::new(i as nat, f) =~= Seq::new((i - 1) as nat, f).push(f(i - 1)));
                assert(lines.deep_view() =~= hdr + Seq::new(i as nat, f));
            }
        }
    }
    let out = cat3("Connections: ", count.as_str(), ".");
    app.push_output(out.as_str());
    proof {
        assert(lines.deep_view() =~= conn_list_lines(csv));
    }
    app.set_content("Connections", lines);
    proof {
        assert(app@ =~= connections_post(old(app)@, env.deep_view()));
    }
}

/// How many stored connections are not yet established.
pub open spec fn pending_count(cs: Seq<ConnectionRecordV>) -> nat
    decreases cs.len(),
{
    if cs.len() == 0 {
        0
    } else {
        (if !cs.first().established {
            1nat
        } else {
            0nat
        }) + pending_count(cs.drop_first())
    }
}

/// One or two lines per not-yet-established connection, in store order.
pub open spec fn pending_conn_lines(cs: Seq<ConnectionRecordV>) -> Seq<Seq<char>>
    decreases cs.len(),
{
    if cs.len() == 0 {
        Seq::<Seq<char>>::empty()
    } else {
        (if !cs.first().established {
            seq![
                "  "@ + trunc_spec(cs.first().from_id, 16) + " → "@ + trunc_spec(
                    cs.first().to_id,
                    16,
                ),
            ] + (match cs.first().public_key {
                Some(k) => seq!["    our_public_key: "@ + k],
                None => Seq::<Seq<char>>::empty(),
            })
        } else {
            Seq::<Seq<char>>::empty()
        }) + pending_conn_lines(cs.drop_first())
    }
}

pub open spec fn connections_pending_post(pre: AppV, env: EnvV) -> AppV {
    let k = pending_count(env.connections);
    set_view(
        pre,
        "Connections (Pending)"@,
        seq!["Pending connections  ("@ + dec_str(k) + ")"@, ""@] + (if k == 0 {
            seq!["  No pending connections."@]
        } else {
            pending_conn_lines(env.connections)
        }),
    )
}

/// `/connectionsPending`: a read-only view of the store's not-yet-established
/// connections; the cache is left untouched.
pub fn cmd_connections_pending(app: &mut App, env: &Env)
    ensures
        final(app)@ == connections_pending_post(old(app)@, env.deep_view()),
{
    let ghost csv = env.connections.deep_view();
    let n = env.connections.len();
    let mut body: Vec<String> = Vec::new();
    let mut count: usize = 0;
    let mut i: usize = 0;
    proof {
        assert(csv.skip(0) =~= csv);
    }
    while i < n
        invariant
            n == env.connections.len(),
            0 <= i <= n,
            count <= i,
            csv == env.connections.deep_view(),
            count + pending_count(csv.skip(i as int)) == pending_count(csv),
            body.deep_view() + pending_conn_lines(csv.skip(i as int)) =~= pending_conn_lines(
                csv,
            ),
        decreases n - i,
    {
        let ghost s = csv.skip(i as int);
        let ghost prev = body.deep_view();
        proof {
            assert(s.first() == csv[i as int]);
            assert(csv[i as int] == env.connections@[i as int].deep_view());
            assert(s.drop_first() =~= csv.skip(i as int + 1));
        }
        let c = &env.connections[i];
        if !c.established {
            let sf = truncate_id(c.from_id.as_str(), 16);
            let st = truncate_id(c.to_id.as_str(), 16);
            body.push(cat4("  ", sf.as_str(), " → ", st.as_str()));
            match &c.public_key {
                Some(k) => {
                    body.push(cat2("    our_public_key: ", k.as_str()));
                    proof {
                        assert(body.deep_view() =~= prev + seq![
                            "  "@ + trunc_spec(s.first().from_id, 16) + " → "@ + trunc_spec(
                                s.first().to_id,
                                16,
                            ),
                            "    our_public_key: "@ + s.first().public_key->0,
                        ]);
                    }
                },
                None => {
                    proof {
                        assert(body.deep_view() =~= prev + seq![
                            "  "@ + trunc_spec(s.first().from_id, 16) + " → "@ + trunc_spec(
                                s.first().to_id,
                                16,
                            ),
                        ]);
                    }
                },
            }
            count += 1;
        }
        i += 1;
        proof {
            assert(body.deep_view() + pending_conn_lines(csv.skip(i as int))
                =~= pending_conn_lines(csv));
        }
    }
    proof {
        assert(csv.skip(n as int) =~= Seq::<ConnectionRecordV>::empty());
        assert(count == pending_count(csv));
        assert(body.deep_view() =~= pending_conn_lines(csv));
    }
    let cs = dec_string(count as u64);
    let mut lines: Vec<String> = Vec::new();
    lines.push(cat3("Pending connections  (", cs.as_str(), ")"));
    lines.push(String::from_str(""));
    if count == 0 {
        lines.push(String::from_str("  No pending connections."));
    } else {
        lines.append(&mut body);
    }
    proof {
        assert(lines.deep_view() =~= seq![
            "Pending connections  ("@ + dec_str(pending_count(csv)) + ")"@,
            ""@,
        ] + (if pending_count(csv) == 0 {
            seq!["  No pending connections."@]
        } else {
            pending_conn_lines(csv)
        }));
    }
    app.set_content("Connections (Pending)", lines);
    proof {
        assert(app@ =~= connections_pending_post(old(app)@, env.deep_view()));
    }
}

pub open spec fn accept_step(pre: AppV, rest: Seq<char>) -> (AppV, PendingV) {
    if space_idx(rest) == rest.len() {
        (
            set_view(
                pre,
                "Accept Connection"@,
                seq!["Usage: /acceptConnection <from_id> <their_public_key>"@],
            ),
            PendingV::Done,
        )
    } else {
        let from_id = trim_spec(cmd_of(rest));
        let pk = trim_spec(raw_rest(rest));
        if pre.node_handle is None {
            (
                set_view(
                    pre,
                    "Accept Connection"@,
                    seq!["Node is not running. Use /startNode first."@],
                ),
                PendingV::Done,
            )
        } else {
            (
                pre,
                PendingV::Node {
                    req: NodeRequestV::AcceptConnection { from_id, their_public_key: pk },
                },
            )
        }
    }
}

/// `/acceptConnection <from_id> <their_public_key>`: ask the node to accept
/// the incoming connection.
pub fn cmd_accept_connection(app: &mut App, rest: &str) -> (r: Pending)
    ensures
        final(app)@ == accept_step(old(app)@, rest@).0,
        r.deep_view() == accept_step(old(app)@, rest@).1,
{
    if !has_space(rest) {
        show_one(app, "Accept Connection", String::from_str(
            "Usage: /acceptConnection <from_id> <their_public_key>",
        ));
        return Pending::Done;
    }
    let (p0, p1) = split_space_raw(rest);
    let from_id = trim_str(p0);
    let pk = trim_str(p1);
    if app.node_handle.is_none() {
        show_one(app, "Accept Connection", String::from_str(
            "Node is not running. Use /startNode first.",
        ));
        return Pending::Done;
    }
    Pending::Node {
        req: NodeRequest::AcceptConnection { from_id, their_public_key: pk },
    }
}

/// Index of the first cached connection from this peer.
pub open spec fn find_conn_from(conns: Seq<ConnectionRecordV>, from: Seq<char>) -> Option<int>
    decreases conns.len(),
{
    if conns.len() == 0 {
        None
    } else if conns.first().from_id == from {
        Some(0)
    } else {
        match find_conn_from(conns.drop_first(), from) {
            Some(i) => Some(i + 1),
            None => None,
        }
    }
}

proof fn lemma_find_conn_from_at(conns: Seq<ConnectionRecordV>, from: Seq<char>, k: int)
    requires
        0 <= k <= conns.len(),
        forall|j: int| 0 <= j < k ==> (#[trigger] conns[j]).from_id != from,
        k == conns.len() || conns[k].from_id == from,
    ensures
        find_conn_from(conns, from) == (if k == conns.len() {
            None
        } else {
            Some(k)
        }),
    decreases k,
{
    if k == 0 {
    } else {
        lemma_find_conn_from_at(conns.drop_first(), from, k - 1);
    }
}

pub open spec fn finish_accept_post(pre: AppV, outcome: Result<
    ConnectionRecordV,
    Seq<char>,
>) -> AppV {
    match outcome {
        Ok(c) => {
            let conns2 = match find_conn_from(pre.connections, c.from_id) {
                Some(i) => pre.connections.update(i, c),
                None => pre.connections.push(c),
            };
            set_view(
                AppV {
                    connections: conns2,
                    events: pre.events.push(
                        "[CONN] Accepted from "@ + trunc_spec(c.from_id, 16)
                            + " — DH key established."@,
                    ),
                    output: pre.output.push(
                        "Connection with "@ + c.from_id + " accepted."@,
                    ),
                    ..pre
                },
                "Accept Connection"@,
                seq![
                    "Connection accepted  [established]"@,
                    ""@,
                    "  from  : "@ + c.from_id,
                    "  to    : "@ + c.to_id,
                ],
            )
        },
        Err(e) => set_view(
            AppV { events: pre.events.push("[CONN] Accept failed: "@ + e), ..pre },
            "Accept Connection"@,
            seq!["Error accepting connection: "@ + e],
        ),
    }
}

/// Apply the node's reply to `/acceptConnection`: replace the cached entry
/// from that peer, or append one (update-or-insert), and show the record.
pub fn finish_accept_connection(app: &mut App, outcome: Result<ConnectionRecord, String>)
    ensures
        final(app)@ == finish_accept_post(old(app)@, r_conn_dv(outcome)),
{
    match outcome {
        Ok(conn) => {
            let short = truncate_id(conn.from_id.as_str(), 16);
            let ev = cat3("[CONN] Accepted from ", short.as_str(), " — DH key established.");
            let out = cat3("Connection with ", conn.from_id.as_str(), " accepted.");
            app.push_event(ev.as_str());
            app.push_output(out.as_str());
            let mut lines: Vec<String> = Vec::new();
            lines.push(String::from_str("Connection accepted  [established]"));
            lines.push(String::from_str(""));
            lines.push(cat2("  from  : ", conn.from_id.as_str()));
            lines.push(cat2("  to    : ", conn.to_id.as_str()));
            let ghost csv = app.connections.deep_view();
            let ghost cv = conn.deep_view();
            let n = app.connections.len();
            let mut found = false;
            let mut i: usize = 0;
            while i < n && !found
                invariant
                    n == app.connections.len(),
                    0 <= i <= n,
                    csv == app.connections.deep_view(),
                    cv == conn.deep_view(),
                    forall|j: int| 0 <= j < i ==> (#[trigger] csv[j]).from_id != cv.from_id,
                    found ==> i < n && csv[i as int].from_id == cv.from_id,
                decreases n - i + (if found { 0int } else { 1int }),
            {
                proof {
                    assert(csv[i as int] == app.connections@[i as int].deep_view());
                }
                if str_eq(app.connections[i].from_id.as_str(), conn.from_id.as_str()) {
                    found = true;
                } else {
                    i += 1;
                }
            }
            proof {
                if found {
                    lemma_find_conn_from_at(csv, cv.from_id, i as int);
                } else {
                    lemma_find_conn_from_at(csv, cv.from_id, n as int);
                }
            }
            if found {
                app.connections[i] = conn;
                proof {
                    assert(app.connections.deep_view() =~= csv.update(i as int, cv));
                }
            } else {
                app.connections.push(conn);
                proof {
                    assert(app.connections.deep_view() =~= csv.push(cv));
                }
            }
            app.set_content("Accept Connection", lines);
            proof {
                assert(app@ =~= finish_accept_post(old(app)@, r_conn_dv(outcome)));
            }
        },
        Err(e) => {
            let ev = cat2("[CONN] Accept failed: ", e.as_str());
            app.push_event(ev.as_str());
            show_one(app, "Accept Connection", cat2("Error accepting connection: ", e.as_str()));
            proof {
                assert(app@ =~= finish_accept_post(old(app)@, r_conn_dv(outcome)));
            }
        },
    }
}

// ---------------------------------------------------------------------------
// Messages
// ---------------------------------------------------------------------------

pub open spec fn r_str_dv(r: Result<String, String>) -> Result<Seq<char>, Seq<char>> {
    match r {
        Ok(s) => Ok(s@),
        Err(e) => Err(e@),
    }
}

/// The step shared by both message commands once nick and body are known:
/// node running and local user present, or the matching refusal.
pub open spec fn send_message_step(
    pre: AppV,
    env: EnvV,
    nick: Seq<char>,
    to_id: Seq<char>,
    plugin_type: Seq<char>,
    body: Seq<char>,
) -> (AppV, PendingV) {
    if pre.node_handle is None {
        (
            set_view(pre, "Message"@, seq!["Node is not running. Use /startNode first."@]),
            PendingV::Done,
        )
    } else {
        match env.local_user {
            None => (
                report_error_post(pre, "No local user — run /user first"@),
                PendingV::Done,
            ),
            Some(u) => (
                pre,
                PendingV::Node {
                    req: NodeRequestV::StoreMessage {
                        local_id: u.id,
                        to_id,
                        nick,
                        plugin_type,
                        body,
                    },
                },
            ),
        }
    }
}

/// Hand a message envelope to the node: the caller serializes exactly these
/// fields and submits them for storage.
pub fn send_message(
    app: &mut App,
    nick: String,
    to_id: String,
    plugin_type: &str,
    body: String,
    env: &Env,
) -> (r: Pending)
    ensures
        final(app)@ == send_message_step(
            old(app)@,
            env.deep_view(),
            nick@,
            to_id@,
            plugin_type@,
            body@,
        ).0,
        r.deep_view() == send_message_step(
            old(app)@,
            env.deep_view(),
            nick@,
            to_id@,
            plugin_type@,
            body@,
        ).1,
{
    if app.node_handle.is_none() {
        show_one(app, "Message", String::from_str("Node is not running. Use /startNode first."));
        return Pending::Done;
    }
    match &env.local_user {
        None => {
            report_error(app, "No local user — run /user first");
            Pending::Done
        },
        Some(u) => {
            Pending::Node {
                req: NodeRequest::StoreMessage {
                    local_id: u.id.clone(),
                    to_id,
                    nick,
                    plugin_type: plugin_type.to_owned(),
                    body,
                },
            }
        },
    }
}

pub open spec fn message_step(pre: AppV, env: EnvV, rest: Seq<char>) -> (AppV, PendingV) {
    if space_idx(rest) == rest.len() {
        (set_view(pre, "Message"@, seq!["Usage: /message <nick> <body>"@]), PendingV::Done)
    } else {
        let nick = trim_spec(cmd_of(rest));
        let body = trim_spec(raw_rest(rest));
        match resolve_spec(env, nick) {
            None => (
                set_view(
                    pre,
                    "Message"@,
                    seq![
                        "No user found with nick '"@ + nick
                            + "'. Use /users to see known users."@,
                    ],
                ),
                PendingV::Done,
            ),
            Some(to_id) => send_message_step(pre, env, nick, to_id, "text"@, json_text_body(body)),
        }
    }
}

/// `/message <nick> <body>`: a text message; the body is wrapped as the
/// JSON object {"text": body}.
pub fn cmd_message(app: &mut App, rest: &str, env: &Env) -> (r: Pending)
    ensures
        final(app)@ == message_step(old(app)@, env.deep_view(), rest@).0,
        r.deep_view() == message_step(old(app)@, env.deep_view(), rest@).1,
{
    if !has_space(rest) {
        show_one(app, "Message", String::from_str("Usage: /message <nick> <body>"));
        return Pending::Done;
    }
    let (p0, p1) = split_space_raw(rest);
    let nick = trim_str(p0);
    let body = trim_str(p1);
    match resolve_nick(env, nick.as_str()) {
        None => {
            show_one(app, "Message", cat3(
                "No user found with nick '",
                nick.as_str(),
                "'. Use /users to see known users.",
            ));
            Pending::Done
        },
        Some(to_id) => {
            let rendered = render_text_body(body.as_str());
            send_message(app, nick, to_id, "text", rendered, env)
        },
    }
}

/// The plugin body as it reaches the message cache: the text parsed and
/// re-rendered as JSON, or wrapped under "raw" when it does not parse.
pub open spec fn plugin_body_spec(s: Seq<char>) -> Seq<char> {
    match json_normalized(s) {
        Some(t) => t,
        None => json_raw_body(s),
    }
}

pub open spec fn message_plugin_step(pre: AppV, env: EnvV, rest: Seq<char>) -> (AppV, PendingV) {
    if space_idx(rest) == rest.len() || space_idx(raw_rest(rest)) == raw_rest(rest).len() {
        (
            set_view(
                pre,
                "Message"@,
                seq!["Usage: /messagePlugin <nick> <plugin_type> <plugin_body>"@],
            ),
            PendingV::Done,
        )
    } else {
        let nick = trim_spec(cmd_of(rest));
        let r1 = raw_rest(rest);
        let plugin_type = trim_spec(cmd_of(r1));
        let body = trim_spec(raw_rest(r1));
        match resolve_spec(env, nick) {
            None => (
                set_view(
                    pre,
                    "Message"@,
                    seq![
                        "No user found with nick '"@ + nick
                            + "'. Use /users to see known users."@,
                    ],
                ),
                PendingV::Done,
            ),
            Some(to_id) => send_message_step(
                pre,
                env,
                nick,
                to_id,
                plugin_type,
                plugin_body_spec(body),
            ),
        }
    }
}

/// `/messagePlugin <nick> <type> <body>`: a typed message whose body is the
/// given JSON, or {"raw": body} when the text is not valid JSON.
pub fn cmd_message_plugin(app: &mut App, rest: &str, env: &Env) -> (r: Pending)
    ensures
        final(app)@ == message_plugin_step(old(app)@, env.deep_view(), rest@).0,
        r.deep_view() == message_plugin_step(old(app)@, env.deep_view(), rest@).1,
{
    if !has_space(rest) {
        show_one(app, "Message", String::from_str(
            "Usage: /messagePlugin <nick> <plugin_type> <plugin_body>",
        ));
        return Pending::Done;
    }
    let (p0, p1) = split_space_raw(rest);
    if !has_space(p1) {
        show_one(app, "Message", String::from_str(
            "Usage: /messagePlugin <nick> <plugin_type> <plugin_body>",
        ));
        return Pending::Done;
    }
    let (p1a, p1b) = split_space_raw(p1);
    let nick = trim_str(p0);
    let plugin_type = trim_str(p1a);
    let body = trim_str(p1b);
    match resolve_nick(env, nick.as_str()) {
        None => {
            show_one(app, "Message", cat3(
                "No user found with nick '",
                nick.as_str(),
                "'. Use /users to see known users.",
            ));
            Pending::Done
        },
        Some(to_id) => {
            let rendered: String = match normalize_json(body.as_str()) {
                Some(t) => t,
                None => render_raw_body(body.as_str()),
            };
            send_message(app, nick, to_id, plugin_type.as_str(), rendered, env)
        },
    }
}

pub open spec fn finish_store_post(
    pre: AppV,
    local_id: Seq<char>,
    to_id: Seq<char>,
    nick: Seq<char>,
    plugin_type: Seq<char>,
    body: Seq<char>,
    outcome: Result<Seq<char>, Seq<char>>,
) -> AppV {
    match outcome {
        Ok(hash) => {
            let line = "["@ + trunc_spec(local_id, 8) + "→"@ + trunc_spec(to_id, 8) + "]  ["@
                + plugin_type + "]  "@ + body;
            set_view(
                AppV {
                    messages: pre.messages.push(line),
                    events: pre.events.push(
                        "[MSG] → "@ + nick + " ["@ + plugin_type + "] (hash: "@ + trunc_spec(
                            hash,
                            12,
                        ) + ")"@,
                    ),
                    output: pre.output.push(
                        "Message sent to "@ + nick + " (hash: "@ + hash + ")."@,
                    ),
                    ..pre
                },
                "Message"@,
                seq![
                    "Message sent  ["@ + plugin_type + "]"@,
                    ""@,
                    "  to   : "@ + nick + " ("@ + trunc_spec(to_id, 16) + ")"@,
                    "  body : "@ + body,
                    "  hash : "@ + hash,
                ],
            )
        },
        Err(e) => set_view(
            AppV { events: pre.events.push("[MSG] Send failed: "@ + e), ..pre },
            "Message"@,
            seq!["Error storing message: "@ + e],
        ),
    }
}

/// Apply the node's reply to a stored message: append the rendered line to
/// the message cache and log the returned content hash, or show the failure.
pub fn finish_store_message(
    app: &mut App,
    local_id: &str,
    to_id: &str,
    nick: &str,
    plugin_type: &str,
    body: &str,
    outcome: Result<String, String>,
)
    ensures
        final(app)@ == finish_store_post(
            old(app)@,
            local_id@,
            to_id@,
            nick@,
            plugin_type@,
            body@,
            r_str_dv(outcome),
        ),
{
    match outcome {
        Ok(hash) => {
            let sl = truncate_id(local_id, 8);
            let st = truncate_id(to_id, 8);
            let line = cat8(
                "[",
                sl.as_str(),
                "→",
                st.as_str(),
                "]  [",
                plugin_type,
                "]  ",
                body,
            );
            app.messages.push(line);
            proof {
                assert(app@.messages =~= old(app)@.messages.push(
                    "["@ + trunc_spec(local_id@, 8) + "→"@ + trunc_spec(to_id@, 8) + "]  ["@
                        + plugin_type@ + "]  "@ + body@,
                ));
            }
            let sh = truncate_id(hash.as_str(), 12);
            let ev = cat7("[MSG] → ", nick, " [", plugin_type, "] (hash: ", sh.as_str(), ")");
            let out = cat5("Message sent to ", nick, " (hash: ", hash.as_str(), ").");
            app.push_event(ev.as_str());
            app.push_output(out.as_str());
            let st16 = truncate_id(to_id, 16);
            let mut lines: Vec<String> = Vec::new();
            lines.push(cat3("Message sent  [", plugin_type, "]"));
            lines.push(String::from_str(""));
            lines.push(cat5("  to   : ", nick, " (", st16.as_str(), ")"));
            lines.push(cat2("  body : ", body));
            lines.push(cat2("  hash : ", hash.as_str()));
            app.set_content("Message", lines);
            proof {
                assert(app@ =~= finish_store_post(
                    old(app)@,
                    local_id@,
                    to_id@,
                    nick@,
                    plugin_type@,
                    body@,
                    r_str_dv(outcome),
                ));
            }
        },
        Err(e) => {
            let ev = cat2("[MSG] Send failed: ", e.as_str());
            app.push_event(ev.as_str());
            show_one(app, "Message", cat2("Error storing message: ", e.as_str()));
            proof {
                assert(app@ =~= finish_store_post(
                    old(app)@,
                    local_id@,
                    to_id@,
                    nick@,
                    plugin_type@,
                    body@,
                    r_str_dv(outcome),
                ));
            }
        },
    }
}

// ---------------------------------------------------------------------------
// Declining a connection (purely local)
// ---------------------------------------------------------------------------

/// The connection cache with every entry touching `id` removed, order kept.
pub open spec fn drop_conns(s: Seq<ConnectionRecordV>, id: Seq<char>) -> Seq<ConnectionRecordV>
    decreases s.len(),
{
    if s.len() == 0 {
        Seq::<ConnectionRecordV>::empty()
    } else {
        (if s.first().to_id != id && s.first().from_id != id {
            seq![s.first()]
        } else {
            Seq::<ConnectionRecordV>::empty()
        }) + drop_conns(s.drop_first(), id)
    }
}

pub open spec fn decline_post(pre: AppV, rest: Seq<char>) -> AppV {
    let id = trim_spec(rest);
    if id.len() == 0 {
        set_view(pre, "Decline Connection"@, seq!["Usage: /declineConnection <connection_id>"@])
    } else {
        set_view(
            AppV {
                connections: drop_conns(pre.connections, id),
                events: pre.events.push(
                    "[CONN] Declined connection with "@ + trunc_spec(id, 16) + "."@,
                ),
                ..pre
            },
            "Decline Connection"@,
            seq![
                "Connection with "@ + id + " removed locally."@,
                "(Network-level decline not yet implemented in the library.)"@,
            ],
        )
    }
}

/// `/declineConnection <id>`: remove matching cache entries locally; nothing
/// is sent over the network.
pub fn cmd_decline_connection(app: &mut App, rest: &str)
    ensures
        final(app)@ == decline_post(old(app)@, rest@),
{
    let id = trim_str(rest);
    if id.as_str().unicode_len() == 0 {
        show_one(app, "Decline Connection", String::from_str(
            "Usage: /declineConnection <connection_id>",
        ));
        return ;
    }
    let ghost idv = id@;
    let ghost full = app.connections.deep_view();
    let mut kept: Vec<ConnectionRecord> = Vec::new();
    let n = app.connections.len();
    let mut i: usize = 0;
    proof {
        assert(full.skip(0) =~= full);
    }
    while i < n
        invariant
            n == app.connections.len(),
            0 <= i <= n,
            app.connections == old(app).connections,
            full == app.connections.deep_view(),
            idv == id@,
            kept.deep_view() + drop_conns(full.skip(i as int), idv) =~= drop_conns(full, idv),
        decreases n - i,
    {
        let ghost pre_kept = kept.deep_view();
        let ghost s = full.skip(i as int);
        proof {
            assert(s.len() == n - i);
            assert(s.first() == full[i as int]);
            assert(s.drop_first() =~= full.skip(i as int + 1));
        }
        let c = &app.connections[i];
        proof {
            assert(full[i as int] == app.connections@[i as int].deep_view());
            assert(*c == app.connections@[i as int]);
            assert(c.to_id@ == full[i as int].to_id);
            assert(c.from_id@ == full[i as int].from_id);
        }
        if !(str_eq(c.to_id.as_str(), id.as_str()) || str_eq(c.from_id.as_str(), id.as_str())) {
            let d = c.duplicate();
            kept.push(d);
            proof {
                assert(s.first().to_id != idv && s.first().from_id != idv);
                assert(drop_conns(s, idv) == seq![s.first()] + drop_conns(s.drop_first(), idv));
                assert(kept.deep_view() =~= pre_kept.push(full[i as int]));
            }
        } else {
            proof {
                assert(s.first().to_id == idv || s.first().from_id == idv);
                assert(drop_conns(s, idv) == Seq::<ConnectionRecordV>::empty() + drop_conns(
                    s.drop_first(),
                    idv,
                ));
                assert(drop_conns(s, idv) =~= drop_conns(s.drop_first(), idv));
            }
        }
        i += 1;
        proof {
            assert(drop_conns(s.drop_first(), idv) == drop_conns(full.skip(i as int), idv));
            assert(kept.deep_view() + drop_conns(full.skip(i as int), idv) =~= drop_conns(
                full,
                idv,
            ));
        }
    }
    proof {
        assert(full.skip(n as int) =~= Seq::<ConnectionRecordV>::empty());
        assert(kept.deep_view() =~= drop_conns(full, idv));
    }
    app.connections = kept;
    let ev = cat3("[CONN] Declined connection with ", truncate_id(id.as_str(), 16).as_str(), ".");
    app.push_event(ev.as_str());
    let mut lines: Vec<String> = Vec::new();
    lines.push(cat3("Connection with ", id.as_str(), " removed locally."));
    lines.push(String::from_str("(Network-level decline not yet implemented in the library.)"));
    proof {
        assert(lines.deep_view() =~= seq![
            "Connection with "@ + idv + " removed locally."@,
            "(Network-level decline not yet implemented in the library.)"@,
        ]);
    }
    app.set_content("Decline Connection", lines);
    proof {
        assert(app@ =~= decline_post(old(app)@, rest@));
    }
}

// ---------------------------------------------------------------------------
// Unknown command
// ---------------------------------------------------------------------------

pub open spec fn unknown_post(pre: AppV, cmd: Seq<char>) -> AppV {
    set_view(
        AppV { events: pre.events.push("[CMD] Unknown: "@ + cmd), ..pre },
        "Error"@,
        seq!["Unknown command: "@ + cmd + ". Type /help for a list."@],
    )
}

fn cmd_unknown(app: &mut App, cmd: &str)
    ensures
        final(app)@ == unknown_post(old(app)@, cmd@),
{
    let msg = cat3("Unknown command: ", cmd, ". Type /help for a list.");
    let ev = cat2("[CMD] Unknown: ", cmd);
    app.push_event(ev.as_str());
    show_one(app, "Error", msg);
    proof {
        assert(app@ =~= unknown_post(old(app)@, cmd@));
    }
}

// ---------------------------------------------------------------------------
// Laws
// ---------------------------------------------------------------------------

proof fn lemma_find_local_range(users: Seq<UserRecordV>)
    ensures
        match find_local(users) {
            Some(i) => 0 <= i < users.len() && users[i].is_local,
            None => true,
        },
    decreases users.len(),
{
    if users.len() > 0 && !users.first().is_local {
        lemma_find_local_range(users.drop_first());
    }
}

/// Law: renaming the local user keeps the persisted record and the cached
/// copy in step. A non-empty `/nick` with a local user present hands back a
/// record whose display name is the trimmed argument, and once that record
/// is saved and `finish_nick` has run, the cached local user (when one is
/// cached) carries exactly the same name.
pub proof fn lemma_nick_consistency(pre: AppV, env: EnvV, rest: Seq<char>)
    requires
        trim_spec(rest).len() > 0,
        env.local_user is Some,
    ensures
        ({
            let new_name = trim_spec(rest);
            let step = nick_step(pre, env, rest);
            match step.1 {
                PendingV::SaveNick { user, old_name, new_name: nn } => {
                    let post = finish_nick_post(step.0, old_name, nn);
                    &&& nn == new_name
                    &&& user.display_name == Some(new_name)
                    &&& (match find_local(pre.users) {
                        Some(i) => 0 <= i < post.users.len() && post.users[i].display_name
                            == Some(new_name),
                        None => post.users == pre.users,
                    })
                },
                _ => false,
            }
        }),
{
    lemma_find_local_range(pre.users);
}

/// How many cached connections point at this target id.
pub open spec fn count_to(cs: Seq<ConnectionRecordV>, to: Seq<char>) -> nat
    decreases cs.len(),
{
    if cs.len() == 0 {
        0
    } else {
        (if cs.first().to_id == to {
            1nat
        } else {
            0nat
        }) + count_to(cs.drop_first(), to)
    }
}

proof fn lemma_count_to_push(cs: Seq<ConnectionRecordV>, c: ConnectionRecordV, to: Seq<char>)
    ensures
        count_to(cs.push(c), to) == count_to(cs, to) + (if c.to_id == to {
            1nat
        } else {
            0nat
        }),
    decreases cs.len(),
{
    if cs.len() == 0 {
        assert(cs.push(c).drop_first() =~= cs);
    } else {
        assert(cs.push(c).drop_first() =~= cs.drop_first().push(c));
        lemma_count_to_push(cs.drop_first(), c, to);
    }
}

proof fn lemma_count_to_absent(cs: Seq<ConnectionRecordV>, to: Seq<char>)
    ensures
        !has_conn_to(cs, to) ==> count_to(cs, to) == 0,
    decreases cs.len(),
{
    if cs.len() > 0 {
        lemma_count_to_absent(cs.drop_first(), to);
        if !has_conn_to(cs, to) {
            assert(cs[0].to_id != to);
            assert(forall|i: int| 0 <= i < cs.drop_first().len() ==> (#[trigger] cs.drop_first()[
                i
            ]).to_id == cs[i + 1].to_id);
        }
    }
}

/// Law: `/connection` caches insert-if-absent. Two successful replies for
/// the same target id leave exactly one cache entry with that id when none
/// was there before, and leave the count unchanged otherwise.
pub proof fn lemma_connection_insert_if_absent(
    pre: AppV,
    nick1: Seq<char>,
    nick2: Seq<char>,
    c1: ConnectionRecordV,
    c2: ConnectionRecordV,
)
    requires
        c2.to_id == c1.to_id,
    ensures
        ({
            let p1 = finish_conn_post(pre, nick1, Ok(c1));
            let p2 = finish_conn_post(p1, nick2, Ok(c2));
            count_to(p2.connections, c1.to_id) == (if has_conn_to(pre.connections, c1.to_id) {
                count_to(pre.connections, c1.to_id)
            } else {
                1nat
            })
        }),
{
    let p1 = finish_conn_post(pre, nick1, Ok(c1));
    if has_conn_to(pre.connections, c1.to_id) {
        assert(p1.connections == pre.connections);
        assert(has_conn_to(p1.connections, c2.to_id));
    } else {
        lemma_count_to_absent(pre.connections, c1.to_id);
        lemma_count_to_push(pre.connections, c1, c1.to_id);
        assert(p1.connections == pre.connections.push(c1));
        assert(p1.connections[pre.connections.len() as int] == c1);
        assert(has_conn_to(p1.connections, c2.to_id));
        assert(count_to(p1.connections, c1.to_id) == 1);
    }
}

/// How many cached connections come from this peer id.
pub open spec fn count_from(cs: Seq<ConnectionRecordV>, from: Seq<char>) -> nat
    decreases cs.len(),
{
    if cs.len() == 0 {
        0
    } else {
        (if cs.first().from_id == from {
            1nat
        } else {
            0nat
        }) + count_from(cs.drop_first(), from)
    }
}

proof fn lemma_count_from_none(cs: Seq<ConnectionRecordV>, from: Seq<char>)
    requires
        count_from(cs, from) == 0,
    ensures
        find_conn_from(cs, from) is None,
        forall|i: int| 0 <= i < cs.len() ==> (#[trigger] cs[i]).from_id != from,
    decreases cs.len(),
{
    if cs.len() > 0 {
        lemma_count_from_none(cs.drop_first(), from);
        assert(cs[0].from_id != from);
        assert forall|i: int| 0 <= i < cs.len() implies (#[trigger] cs[i]).from_id != from by {
            if i >= 1 {
                assert(cs[i] == cs.drop_first()[i - 1]);
            }
        }
    }
}

proof fn lemma_find_from_push(cs: Seq<ConnectionRecordV>, c: ConnectionRecordV, from: Seq<char>)
    requires
        count_from(cs, from) == 0,
        c.from_id == from,
    ensures
        find_conn_from(cs.push(c), from) == Some(cs.len() as int),
    decreases cs.len(),
{
    if cs.len() == 0 {
    } else {
        assert(cs.push(c).drop_first() =~= cs.drop_first().push(c));
        lemma_find_from_push(cs.drop_first(), c, from);
    }
}

proof fn lemma_count_from_push(cs: Seq<ConnectionRecordV>, c: ConnectionRecordV, from: Seq<char>)
    ensures
        count_from(cs.push(c), from) == count_from(cs, from) + (if c.from_id == from {
            1nat
        } else {
            0nat
        }),
    decreases cs.len(),
{
    if cs.len() == 0 {
        assert(cs.push(c).drop_first() =~= cs);
    } else {
        assert(cs.push(c).drop_first() =~= cs.drop_first().push(c));
        lemma_count_from_push(cs.drop_first(), c, from);
    }
}

/// Law: `/acceptConnection` caches update-or-insert. From a cache with no
/// entry from that peer, two successful accept replies leave the cache with
/// exactly one entry from the peer — the latest reply, appended once.
pub proof fn lemma_accept_update_or_insert(pre: AppV, c1: ConnectionRecordV, c2:
    ConnectionRecordV)
    requires
        c2.from_id == c1.from_id,
        count_from(pre.connections, c1.from_id) == 0,
    ensures
        ({
            let p1 = finish_accept_post(pre, Ok(c1));
            let p2 = finish_accept_post(p1, Ok(c2));
            &&& p2.connections == pre.connections.push(c2)
            &&& count_from(p2.connections, c1.from_id) == 1
        }),
{
    let p1 = finish_accept_post(pre, Ok(c1));
    lemma_count_from_none(pre.connections, c1.from_id);
    assert(p1.connections == pre.connections.push(c1));
    lemma_find_from_push(pre.connections, c1, c1.from_id);
    assert(find_conn_from(p1.connections, c2.from_id) == Some(pre.connections.len() as int));
    let p2 = finish_accept_post(p1, Ok(c2));
    assert(p2.connections =~= pre.connections.push(c2));
    lemma_count_from_push(pre.connections, c2, c1.from_id);
    assert(count_from(pre.connections.push(c2), c1.from_id) == 1);
}

// ---------------------------------------------------------------------------
// Dispatch
// ---------------------------------------------------------------------------

/// Law: dispatching never edits the prompt. Whatever the line and the store
/// snapshot, the input buffer, the history and the browsing index come out
/// of a dispatch exactly as they went in; only key handling moves them.
pub proof fn lemma_dispatch_keeps_prompt(pre: AppV, env: EnvV, raw: Seq<char>)
    ensures
        ({
            let post = dispatch_step(pre, env, raw).0;
            &&& post.prompt_input == pre.prompt_input
            &&& post.prompt_history == pre.prompt_history
            &&& post.prompt_history_idx == pre.prompt_history_idx
        }),
{
}

/// The whole dispatcher as one mathematical step: the session state after
/// `raw` is interpreted against the store snapshot `env`, and the request
/// left for the caller to perform.
pub open spec fn dispatch_step(pre: AppV, env: EnvV, raw: Seq<char>) -> (AppV, PendingV) {
    let t = trim_spec(raw);
    if t.len() == 0 {
        (pre, PendingV::Done)
    } else {
        let cmd = cmd_of(t);
        let rest = rest_of(t);
        if cmd == "/help"@ {
            (help_post(pre), PendingV::Done)
        } else if cmd == "/quit"@ {
            (quit_post(pre), PendingV::Done)
        } else if cmd == "/events"@ {
            (events_post(pre), PendingV::Done)
        } else if cmd == "/console"@ {
            (console_post(pre), PendingV::Done)
        } else if cmd == "/messages"@ {
            (messages_post(pre), PendingV::Done)
        } else if cmd == "/startNode"@ {
            start_step(pre)
        } else if cmd == "/stopNode"@ {
            stop_step(pre)
        } else if cmd == "/restartNode"@ {
            restart_step(pre)
        } else if cmd == "/port"@ {
            port_step(pre, rest)
        } else if cmd == "/sync"@ {
            (sync_post(pre), PendingV::Done)
        } else if cmd == "/peers"@ {
            (peers_post(pre, env), PendingV::Done)
        } else if cmd == "/nick"@ {
            nick_step(pre, env, rest)
        } else if cmd == "/user"@ {
            user_step(pre, env, rest)
        } else if cmd == "/users"@ {
            users_step(pre, env)
        } else if cmd == "/connection"@ {
            conn_step(pre, env, rest)
        } else if cmd == "/connections"@ {
            (connections_post(pre, env), PendingV::Done)
        } else if cmd == "/connectionsPending"@ {
            (connections_pending_post(pre, env), PendingV::Done)
        } else if cmd == "/acceptConnection"@ {
            accept_step(pre, rest)
        } else if cmd == "/declineConnection"@ {
            (decline_post(pre, rest), PendingV::Done)
        } else if cmd == "/message"@ {
            message_step(pre, env, rest)
        } else if cmd == "/messagePlugin"@ {
            message_plugin_step(pre, env, rest)
        } else {
            (unknown_post(pre, cmd), PendingV::Done)
        }
    }
}

/// Interpret one input line: every session-state change happens here; any
/// outside work is handed back as the returned request.
pub fn execute(app: &mut App, raw: &str, env: &Env) -> (r: Pending)
    requires
        old(app)@.wf(),
    ensures
        final(app)@ == dispatch_step(old(app)@, env.deep_view(), raw@).0,
        r.deep_view() == dispatch_step(old(app)@, env.deep_view(), raw@).1,
        final(app)@.wf(),
{
    let input = trim_str(raw);
    let st = input.as_str();
    if st.unicode_len() == 0 {
        return Pending::Done;
    }
    let (cmd, rest) = split_command(st);
    if str_eq(cmd, "/help") {
        cmd_help(app);
        Pending::Done
    } else if str_eq(cmd, "/quit") {
        cmd_quit(app);
        Pending::Done
    } else if str_eq(cmd, "/events") {
        cmd_events(app);
        Pending::Done
    } else if str_eq(cmd, "/console") {
        cmd_console(app);
        Pending::Done
    } else if str_eq(cmd, "/messages") {
        cmd_messages(app);
        Pending::Done
    } else if str_eq(cmd, "/startNode") {
        cmd_start_node(app)
    } else if str_eq(cmd, "/stopNode") {
        cmd_stop_node(app)
    } else if str_eq(cmd, "/restartNode") {
        cmd_restart_node(app)
    } else if str_eq(cmd, "/port") {
        cmd_port(app, rest)
    } else if str_eq(cmd, "/sync") {
        cmd_sync(app);
        Pending::Done
    } else if str_eq(cmd, "/peers") {
        cmd_peers(app, env);
        Pending::Done
    } else if str_eq(cmd, "/nick") {
        cmd_nick(app, rest, env)
    } else if str_eq(cmd, "/user") {
        cmd_user(app, rest, env)
    } else if str_eq(cmd, "/users") {
        cmd_users(app, env)
    } else if str_eq(cmd, "/connection") {
        cmd_connection(app, rest, env)
    } else if str_eq(cmd, "/connections") {
        cmd_connections(app, env);
        Pending::Done
    } else if str_eq(cmd, "/connectionsPending") {
        cmd_connections_pending(app, env);
        Pending::Done
    } else if str_eq(cmd, "/acceptConnection") {
        cmd_accept_connection(app, rest)
    } else if str_eq(cmd, "/declineConnection") {
        cmd_decline_connection(app, rest);
        Pending::Done
    } else if str_eq(cmd, "/message") {
        cmd_message(app, rest, env)
    } else if str_eq(cmd, "/messagePlugin") {
        cmd_message_plugin(app, rest, env)
    } else {
        cmd_unknown(app, cmd);
        Pending::Done
    }
}

} // verus!
