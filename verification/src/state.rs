//! Session state: the record of one console sitting and its small, total
//! mutators. Every field is mirrored in a mathematical view (`AppV`) that the
//! dispatcher contracts are stated over.

use vstd::prelude::*;

verus! {

// ---------------------------------------------------------------------------
// Node status
// ---------------------------------------------------------------------------

/// Whether the networking node is currently running, and on which address.
pub enum NodeStatus {
    Stopped,
    Running { addr: String },
}

#[verifier::ext_equal]
pub enum NodeStatusV {
    Stopped,
    Running { addr: Seq<char> },
}

impl View for NodeStatus {
    type V = NodeStatusV;

    open spec fn view(&self) -> NodeStatusV {
        match self {
            NodeStatus::Stopped => NodeStatusV::Stopped,
            NodeStatus::Running { addr } => NodeStatusV::Running { addr: addr@ },
        }
    }
}

pub open spec fn status_text_spec(s: NodeStatusV) -> Seq<char> {
    match s {
        NodeStatusV::Stopped => "Stopped"@,
        NodeStatusV::Running { addr } => "Running  ("@ + addr + ")"@,
    }
}

impl NodeStatus {
    /// The status line the header shows.
    pub fn status_text(&self) -> (r: String)
        ensures
            r@ == status_text_spec(self@),
    {
        match self {
            NodeStatus::Stopped => String::from_str("Stopped"),
            NodeStatus::Running { addr } => {
                let mut s = String::from_str("Running  (");
                s.append(addr.as_str());
                s.append(")");
                s
            },
        }
    }
}

// ---------------------------------------------------------------------------
// Cached records of node entities
// ---------------------------------------------------------------------------

/// A user as the console caches it: identifier, public key, chosen display
/// name, and whether it is this machine's own user.
pub struct UserRecord {
    pub id: String,
    pub public_key: String,
    pub display_name: Option<String>,
    pub is_local: bool,
}

#[verifier::ext_equal]
pub struct UserRecordV {
    pub id: Seq<char>,
    pub public_key: Seq<char>,
    pub display_name: Option<Seq<char>>,
    pub is_local: bool,
}

impl DeepView for UserRecord {
    type V = UserRecordV;

    open spec fn deep_view(&self) -> UserRecordV {
        UserRecordV {
            id: self.id@,
            public_key: self.public_key@,
            display_name: match self.display_name {
                Some(n) => Some(n@),
                None => None,
            },
            is_local: self.is_local,
        }
    }
}

impl UserRecord {
    /// A field-by-field copy.
    pub fn duplicate(&self) -> (r: UserRecord)
        ensures
            r.deep_view() == self.deep_view(),
    {
        UserRecord {
            id: self.id.clone(),
            public_key: self.public_key.clone(),
            display_name: match &self.display_name {
                Some(n) => Some(n.clone()),
                None => None,
            },
            is_local: self.is_local,
        }
    }
}

/// A connection as the console caches it.
pub struct ConnectionRecord {
    pub from_id: String,
    pub to_id: String,
    pub established: bool,
    pub public_key: Option<String>,
}

#[verifier::ext_equal]
pub struct ConnectionRecordV {
    pub from_id: Seq<char>,
    pub to_id: Seq<char>,
    pub established: bool,
    pub public_key: Option<Seq<char>>,
}

impl DeepView for ConnectionRecord {
    type V = ConnectionRecordV;

    open spec fn deep_view(&self) -> ConnectionRecordV {
        ConnectionRecordV {
            from_id: self.from_id@,
            to_id: self.to_id@,
            established: self.established,
            public_key: match self.public_key {
                Some(k) => Some(k@),
                None => None,
            },
        }
    }
}

impl ConnectionRecord {
    /// A field-by-field copy.
    pub fn duplicate(&self) -> (r: ConnectionRecord)
        ensures
            r.deep_view() == self.deep_view(),
    {
        ConnectionRecord {
            from_id: self.from_id.clone(),
            to_id: self.to_id.clone(),
            established: self.established,
            public_key: match &self.public_key {
                Some(k) => Some(k.clone()),
                None => None,
            },
        }
    }
}

/// A copy of a connection list, record by record.
pub fn clone_conns(v: &Vec<ConnectionRecord>) -> (r: Vec<ConnectionRecord>)
    ensures
        r.deep_view() == v.deep_view(),
{
    let mut r: Vec<ConnectionRecord> = Vec::new();
    let n = v.len();
    let mut i: usize = 0;
    while i < n
        invariant
            n == v.len(),
            0 <= i <= n,
            r.deep_view() =~= v.deep_view().subrange(0, i as int),
        decreases n - i,
    {
        proof {
            assert(v.deep_view()[i as int] == v@[i as int].deep_view());
        }
        let ghost prev = r.deep_view();
        let d = v[i].duplicate();
        r.push(d);
        i += 1;
        proof {
            assert(r.deep_view() =~= prev.push(v@[i - 1].deep_view()));
            assert(r.deep_view() =~= v.deep_view().subrange(0, i as int));
        }
    }
    proof {
        assert(r.deep_view() =~= v.deep_view());
    }
    r
}

/// What the persistence store knows of a remote user: its id and, when one
/// could be read, its display name.
pub struct KnownUser {
    pub id: String,
    pub display_name: Option<String>,
}

#[verifier::ext_equal]
pub struct KnownUserV {
    pub id: Seq<char>,
    pub display_name: Option<Seq<char>>,
}

impl DeepView for KnownUser {
    type V = KnownUserV;

    open spec fn deep_view(&self) -> KnownUserV {
        KnownUserV {
            id: self.id@,
            display_name: match self.display_name {
                Some(n) => Some(n@),
                None => None,
            },
        }
    }
}

// ---------------------------------------------------------------------------
// The session state
// ---------------------------------------------------------------------------

/// The record of one console session.
pub struct App {
    /// Scroll offset of the content area; clamped at render time, not here.
    pub content_scroll: u16,
    /// Lines currently displayed in the content area.
    pub content_lines: Vec<String>,
    /// Title shown on the content block border.
    pub content_title: String,
    pub prompt_input: String,
    pub prompt_history: Vec<String>,
    /// Index into `prompt_history` while browsing; `None` means live input.
    pub prompt_history_idx: Option<usize>,
    /// Token for the running node's command channel; the embedding program
    /// maps it to the real channel. Present exactly while the node runs.
    pub node_handle: Option<u64>,
    pub node_status: NodeStatus,
    /// TCP port the node listens on (default 51030).
    pub listen_port: u16,
    pub peers: Vec<String>,
    pub users: Vec<UserRecord>,
    pub connections: Vec<ConnectionRecord>,
    pub messages: Vec<String>,
    /// All node events in chronological order.
    pub events: Vec<String>,
    /// Command output log.
    pub output: Vec<String>,
    pub should_quit: bool,
}

#[verifier::ext_equal]
pub struct AppV {
    pub content_scroll: u16,
    pub content_lines: Seq<Seq<char>>,
    pub content_title: Seq<char>,
    pub prompt_input: Seq<char>,
    pub prompt_history: Seq<Seq<char>>,
    pub prompt_history_idx: Option<usize>,
    pub node_handle: Option<u64>,
    pub node_status: NodeStatusV,
    pub listen_port: u16,
    pub peers: Seq<Seq<char>>,
    pub users: Seq<UserRecordV>,
    pub connections: Seq<ConnectionRecordV>,
    pub messages: Seq<Seq<char>>,
    pub events: Seq<Seq<char>>,
    pub output: Seq<Seq<char>>,
    pub should_quit: bool,
}

impl View for App {
    type V = AppV;

    open spec fn view(&self) -> AppV {
        AppV {
            content_scroll: self.content_scroll,
            content_lines: self.content_lines.deep_view(),
            content_title: self.content_title@,
            prompt_input: self.prompt_input@,
            prompt_history: self.prompt_history.deep_view(),
            prompt_history_idx: self.prompt_history_idx,
            node_handle: self.node_handle,
            node_status: self.node_status@,
            listen_port: self.listen_port,
            peers: self.peers.deep_view(),
            users: self.users.deep_view(),
            connections: self.connections.deep_view(),
            messages: self.messages.deep_view(),
            events: self.events.deep_view(),
            output: self.output.deep_view(),
            should_quit: self.should_quit,
        }
    }
}

impl AppV {
    /// Consistency of the session record: the channel token is held exactly
    /// while the status says running, and the port is a real TCP port.
    pub open spec fn wf(self) -> bool {
        &&& (self.node_handle is Some <==> self.node_status is Running)
        &&& 1 <= self.listen_port <= 65535
    }
}

/// The three greeting lines the session starts with.
pub open spec fn welcome_spec() -> Seq<Seq<char>> {
    seq![
        "Welcome to Accord!"@,
        "Starting the P2P node…"@,
        "Type /help to see all available commands."@,
    ]
}

/// The state of a fresh session.
pub open spec fn initial_app() -> AppV {
    AppV {
        content_scroll: 0u16,
        content_lines: welcome_spec(),
        content_title: " Accord "@,
        prompt_input: Seq::<char>::empty(),
        prompt_history: Seq::<Seq<char>>::empty(),
        prompt_history_idx: None,
        node_handle: None,
        node_status: NodeStatusV::Stopped,
        listen_port: 51030u16,
        peers: Seq::<Seq<char>>::empty(),
        users: Seq::<UserRecordV>::empty(),
        connections: Seq::<ConnectionRecordV>::empty(),
        messages: Seq::<Seq<char>>::empty(),
        events: welcome_spec(),
        output: Seq::<Seq<char>>::empty(),
        should_quit: false,
    }
}

fn welcome_lines() -> (r: Vec<String>)
    ensures
        r.deep_view() == welcome_spec(),
{
    let mut v: Vec<String> = Vec::new();
    v.push(String::from_str("Welcome to Accord!"));
    v.push(String::from_str("Starting the P2P node…"));
    v.push(String::from_str("Type /help to see all available commands."));
    proof {
        assert(v.deep_view() =~= welcome_spec());
    }
    v
}

impl App {
    /// A fresh session: greeting on screen and in the event log, node
    /// stopped, default port, everything else empty.
    pub fn new() -> (r: App)
        ensures
            r@ == initial_app(),
            r@.wf(),
    {
        let r = App {
            content_scroll: 0,
            content_lines: welcome_lines(),
            content_title: String::from_str(" Accord "),
            prompt_input: String::new(),
            prompt_history: Vec::new(),
            prompt_history_idx: None,
            node_handle: None,
            node_status: NodeStatus::Stopped,
            listen_port: 51030,
            peers: Vec::new(),
            users: Vec::new(),
            connections: Vec::new(),
            messages: Vec::new(),
            events: welcome_lines(),
            output: Vec::new(),
            should_quit: false,
        };
        proof {
            assert(r@ =~= initial_app());
        }
        r
    }

    /// Replace the content area with new lines and a title framed in single
    /// spaces, and reset the scroll.
    pub fn set_content(&mut self, title: &str, lines: Vec<String>)
        ensures
            final(self)@ == (AppV {
                content_title: " "@ + title@ + " "@,
                content_lines: lines.deep_view(),
                content_scroll: 0u16,
                ..old(self)@
            }),
    {
        let mut t = String::from_str(" ");
        t.append(title);
        t.append(" ");
        self.content_title = t;
        self.content_lines = lines;
        self.content_scroll = 0;
        proof {
            assert(self@ =~= (AppV {
                content_title: " "@ + title@ + " "@,
                content_lines: lines.deep_view(),
                content_scroll: 0u16,
                ..old(self)@
            }));
        }
    }

    /// Append a line to the events log.
    pub fn push_event(&mut self, line: &str)
        ensures
            final(self)@ == (AppV { events: old(self)@.events.push(line@), ..old(self)@ }),
    {
        self.events.push(line.to_owned());
        proof {
            assert(self@.events =~= old(self)@.events.push(line@));
            assert(self@ =~= (AppV { events: old(self)@.events.push(line@), ..old(self)@ }));
        }
    }

    /// Append a line to the console output log.
    pub fn push_output(&mut self, line: &str)
        ensures
            final(self)@ == (AppV { output: old(self)@.output.push(line@), ..old(self)@ }),
    {
        self.output.push(line.to_owned());
        proof {
            assert(self@.output =~= old(self)@.output.push(line@));
            assert(self@ =~= (AppV { output: old(self)@.output.push(line@), ..old(self)@ }));
        }
    }
}

} // verus!

