//! Shared sessions: who is connected, and the events a session exchanges. Sending
//! events over the network is left to the caller. Instants are milliseconds since the
//! Unix epoch.
use vstd::prelude::*;
use crate::clock::now_millis;
use crate::ids::new_id;
use crate::text::owned;

verus! {

/// Something that happened in a shared session.
#[derive(Debug)]
pub enum EventType {
    CommandExecuted { command: String },
    BlockAdded { block_id: u128 },
    CursorMoved { position: usize },
    UserJoined { username: String },
    UserLeft { username: String },
}

/// An event of a session, by a user, at an instant.
#[derive(Debug)]
pub struct CollaborationEvent {
    pub session_id: u128,
    pub user_id: String,
    pub event_type: EventType,
    pub timestamp: i64,
}

/// This terminal's side of a shared session.
pub struct CollaborationManager {
    session_id: u128,
    user_id: String,
    connected_users: Vec<String>,
    websocket_url: Option<String>,
}

impl CollaborationManager {
    pub closed spec fn session(self) -> u128 {
        self.session_id
    }

    pub closed spec fn user(self) -> Seq<char> {
        self.user_id@
    }

    pub closed spec fn users(self) -> Seq<String> {
        self.connected_users@
    }

    pub closed spec fn url(self) -> Option<String> {
        self.websocket_url
    }

    /// A new session with a fresh identifier, as the user `anonymous`, with nobody
    /// connected and no server.
    pub fn new() -> (m: Self)
        ensures
            m.user() == "anonymous"@,
            m.users().len() == 0,
            m.url() is None,
    {
        CollaborationManager {
            session_id: new_id(),
            user_id: owned("anonymous"),
            connected_users: Vec::new(),
            websocket_url: None,
        }
    }

    /// Records the server the session talks to.
    pub fn connect(&mut self, url: String)
        ensures
            final(self).url() == Some(url),
            final(self).session() == old(self).session(),
            final(self).user() == old(self).user(),
            final(self).users() == old(self).users(),
    {
        self.websocket_url = Some(url);
    }

    /// The server the session talks to, if any.
    pub fn websocket_url(&self) -> (r: Option<&String>)
        ensures
            r matches Some(u) ==> self.url() == Some(*u),
            r is None ==> self.url() is None,
    {
        match &self.websocket_url {
            Some(u) => Some(u),
            None => None,
        }
    }

    /// The event of this user running `command` now, in this session.
    pub fn create_command_event(&self, command: String) -> (e: CollaborationEvent)
        ensures
            e.session_id == self.session(),
            e.user_id@ == self.user(),
            e.event_type == (EventType::CommandExecuted { command }),
    {
        CollaborationEvent {
            session_id: self.session_id,
            user_id: self.user_id.clone(),
            event_type: EventType::CommandExecuted { command },
            timestamp: now_millis(),
        }
    }
}

} // verus!
