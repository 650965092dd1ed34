//! Interactive console core for a peer-to-peer chat client.
//!
//! The library holds the session state of one console sitting, the
//! slash-command dispatcher, and the prompt/history editor. All node and
//! filesystem traffic happens outside the library: the dispatcher receives
//! plain-value snapshots of the outside world, decides, mutates the session
//! state, and hands back the request it wants performed next.

pub mod dispatch;
pub mod json;
pub mod prompt;
pub mod state;
pub mod text;
