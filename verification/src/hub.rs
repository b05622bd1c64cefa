//! The broadcast hub's session registry and event model. The registry tracks
//! which viewer sessions are live; every broadcast event is delivered to
//! exactly the sessions registered at that moment. The transport that carries
//! the events lives outside the library; it asks the registry for the
//! recipient list and sends to each, fire-and-forget.

use vstd::prelude::*;
use crate::ids::now_rfc3339;
use crate::text::str_eq;

verus! {

/// How often a live session is pinged, in milliseconds.
pub const HEARTBEAT_INTERVAL_MILLIS: i64 = 1000;

/// How long a session may stay silent before it is torn down, in milliseconds.
pub const CLIENT_TIMEOUT_MILLIS: i64 = 10000;

/// One event fanned out to the live viewers: a chat line, a release status or
/// progress update, or an application log line. Timestamps are RFC 3339
/// strings; progress is a percentage.
#[derive(Clone, Debug)]
pub enum WsMessage {
    Chat { username: String, message: String, timestamp: String },
    ReleaseUpdate { release_id: String, status: String, progress: u32, log_line: Option<String> },
    AppLog { level: String, message: String, timestamp: String },
}

/// What the hub does with a message a viewer sent in.
#[derive(Clone, Debug)]
pub enum ClientTextAction {
    /// A chat line: echo it back to the sender and broadcast it to the other
    /// sessions, stamped with the sender's name and the current time.
    Broadcast(WsMessage),
    /// Viewers may not send release updates or application logs; the message
    /// is dropped.
    Ignore,
}

/// The set of live viewer sessions, by session id. Ids are unique; the order
/// is the order of registration.
pub struct SessionRegistry {
    pub sessions: Vec<String>,
}

/// The sessions a chat line from `sender` reaches: every other session, in
/// registry order.
pub open spec fn spec_chat_recipients(ids: Seq<Seq<char>>, sender: Seq<char>) -> Seq<Seq<char>>
    decreases ids.len(),
{
    if ids.len() == 0 {
        Seq::empty()
    } else {
        let rest = spec_chat_recipients(ids.drop_last(), sender);
        if ids.last() == sender {
            rest
        } else {
            rest.push(ids.last())
        }
    }
}

/// The index of the first session with the given id, if any.
fn find_session(sessions: &Vec<String>, id: &str) -> (r: Option<usize>)
    ensures
        match r {
            Some(i) => i < sessions@.len() && sessions@[i as int]@ == id@,
            None => forall|k: int| 0 <= k < sessions@.len() ==> (#[trigger] sessions@[k])@ != id@,
        },
{
    let mut i: usize = 0;
    while i < sessions.len()
        invariant
            i <= sessions@.len(),
            forall|k: int| 0 <= k < i ==> (#[trigger] sessions@[k])@ != id@,
        decreases sessions@.len() - i,
    {
        if str_eq(sessions[i].as_str(), id) {
            return Some(i);
        }
        i = i + 1;
    }
    None
}

impl SessionRegistry {
    /// The registered session ids, in registration order.
    pub open spec fn spec_ids(self) -> Seq<Seq<char>> {
        self.sessions@.map_values(|s: String| s@)
    }

    /// Whether a session id is currently registered.
    pub open spec fn spec_registered(self, id: Seq<char>) -> bool {
        self.spec_ids().contains(id)
    }

    /// No id is registered twice.
    pub open spec fn wf(self) -> bool {
        forall|i: int, j: int|
            0 <= i < j < self.spec_ids().len() ==> self.spec_ids()[i] != self.spec_ids()[j]
    }

    /// An empty registry.
    pub fn new() -> (r: SessionRegistry)
        ensures
            r.spec_ids().len() == 0,
            r.wf(),
    {
        SessionRegistry { sessions: Vec::new() }
    }

    /// How many sessions are registered.
    pub fn len(&self) -> (r: usize)
        ensures
            r == self.spec_ids().len(),
    {
        self.sessions.len()
    }

    /// Whether a session id is currently registered.
    pub fn is_registered(&self, id: &str) -> (r: bool)
        ensures
            r == self.spec_registered(id@),
    {
        let mut i: usize = 0;
        while i < self.sessions.len()
            invariant
                i <= self.sessions@.len(),
                forall|k: int| 0 <= k < i ==> (#[trigger] self.sessions@[k])@ != id@,
            decreases self.sessions@.len() - i,
        {
            if str_eq(self.sessions[i].as_str(), id) {
                proof {
                    assert(self.spec_ids()[i as int] == id@);
                }
                return true;
            }
            i = i + 1;
        }
        proof {
            assert(forall|k: int|
                0 <= k < self.spec_ids().len() ==> self.spec_ids()[k] != id@);
        }
        false
    }

    /// Registers a session on connect. A session id already present is kept
    /// as it is; a new one is appended.
    pub fn register(&mut self, id: String) -> (added: bool)
        requires
            old(self).wf(),
        ensures
            final (self).wf(),
            final (self).spec_registered(id@),
            added == !old(self).spec_registered(id@),
            added ==> final (self).spec_ids() == old(self).spec_ids().push(id@),
            !added ==> *final (self) == *old(self),
    {
        if self.is_registered(id.as_str()) {
            return false;
        }
        let ghost ids0 = self.spec_ids();
        self.sessions.push(id);
        proof {
            assert(self.spec_ids() =~= ids0.push(id@));
            assert(self.spec_ids().last() == id@);
            assert(self.spec_registered(id@));
        }
        true
    }

    /// Unregisters a session on disconnect or timeout. An id that is not
    /// registered leaves the registry unchanged.
    pub fn unregister(&mut self, id: &str) -> (removed: bool)
        requires
            old(self).wf(),
        ensures
            final (self).wf(),
            !final (self).spec_registered(id@),
            removed == old(self).spec_registered(id@),
            !removed ==> *final (self) == *old(self),
            removed ==> exists|k: int|
                0 <= k < old(self).spec_ids().len() && old(self).spec_ids()[k] == id@
                    && final (self).spec_ids() == old(self).spec_ids().remove(k),
    {
        let found = find_session(&self.sessions, id);
        match found {
            None => {
                proof {
                    assert(forall|k: int|
                        0 <= k < self.spec_ids().len() ==> self.spec_ids()[k] != id@);
                }
                false
            },
            Some(f) => {
                let ghost ids0 = old(self).spec_ids();
                proof {
                    assert(ids0[f as int] == id@);
                }
                self.sessions.remove(f);
                proof {
                    assert forall|k: int|
                        0 <= k < self.spec_ids().len() implies self.spec_ids()[k] == (if k
                            < f as int {
                            ids0[k]
                        } else {
                            ids0[k + 1]
                        }) by {
                        assert(self.sessions@[k] == if k < f as int {
                            old(self).sessions@[k]
                        } else {
                            old(self).sessions@[k + 1]
                        });
                    }
                    assert(self.spec_ids() =~= ids0.remove(f as int));
                    assert forall|k: int|
                        0 <= k < self.spec_ids().len() implies self.spec_ids()[k] != id@ by {
                        if k < f as int {
                            assert(ids0[k] != ids0[f as int]);
                        } else {
                            assert(ids0[f as int] != ids0[k + 1]);
                        }
                    }
                    assert forall|a: int, b: int|
                        0 <= a < b < self.spec_ids().len() implies self.spec_ids()[a]
                        != self.spec_ids()[b] by {
                        let a0 = if a < f as int {
                            a
                        } else {
                            a + 1
                        };
                        let b0 = if b < f as int {
                            b
                        } else {
                            b + 1
                        };
                        assert(ids0[a0] != ids0[b0]);
                    }
                }
                true
            },
        }
    }

    /// The sessions a broadcast event reaches: every registered session, in
    /// registry order. A session that registers after the list is taken is
    /// not in it; nothing is replayed to it.
    pub fn broadcast_recipients(&self) -> (r: Vec<String>)
        ensures
            r@.len() == self.spec_ids().len(),
            forall|k: int| 0 <= k < r@.len() ==> (#[trigger] r@[k])@ == self.spec_ids()[k],
    {
        let mut r: Vec<String> = Vec::new();
        let mut i: usize = 0;
        while i < self.sessions.len()
            invariant
                i <= self.sessions@.len(),
                r@.len() == i,
                forall|k: int| 0 <= k < i ==> (#[trigger] r@[k])@ == self.spec_ids()[k],
            decreases self.sessions@.len() - i,
        {
            r.push(self.sessions[i].clone());
            i = i + 1;
        }
        r
    }

    /// The sessions a chat line from `sender_id` reaches: every other
    /// session. With at most one session registered there is nobody else to
    /// reach and the list is empty.
    pub fn chat_recipients(&self, sender_id: &str) -> (r: Vec<String>)
        ensures
            self.spec_ids().len() <= 1 ==> r@.len() == 0,
            self.spec_ids().len() > 1 ==> ({
                let expect = spec_chat_recipients(self.spec_ids(), sender_id@);
                r@.len() == expect.len() && forall|k: int|
                    0 <= k < r@.len() ==> (#[trigger] r@[k])@ == expect[k]
            }),
    {
        let mut r: Vec<String> = Vec::new();
        if self.sessions.len() <= 1 {
            return r;
        }
        let mut i: usize = 0;
        while i < self.sessions.len()
            invariant
                i <= self.sessions@.len(),
                ({
                    let expect = spec_chat_recipients(
                        self.spec_ids().subrange(0, i as int),
                        sender_id@,
                    );
                    r@.len() == expect.len() && forall|k: int|
                        0 <= k < r@.len() ==> (#[trigger] r@[k])@ == expect[k]
                }),
            decreases self.sessions@.len() - i,
        {
            proof {
                let pre = self.spec_ids().subrange(0, i as int);
                let post = self.spec_ids().subrange(0, i + 1 as int);
                assert(post.drop_last() =~= pre);
                assert(post.last() == self.spec_ids()[i as int]);
            }
            if !str_eq(self.sessions[i].as_str(), sender_id) {
                r.push(self.sessions[i].clone());
            }
            i = i + 1;
        }
        proof {
            assert(self.spec_ids().subrange(0, self.spec_ids().len() as int) =~= self.spec_ids());
        }
        r
    }
}

/// An event broadcast while a set of sessions is registered is delivered to
/// exactly those sessions: every registered id is among the recipients, and a
/// session not registered at that moment is not, however it registers
/// afterwards.
pub proof fn lemma_broadcast_fanout(reg: SessionRegistry, other: Seq<char>)
    requires
        !reg.spec_registered(other),
    ensures
        forall|k: int|
            0 <= k < reg.spec_ids().len() ==> reg.spec_ids().contains(#[trigger] reg.spec_ids()[k]),
        !reg.spec_ids().contains(other),
{
}

/// What the hub does with a text message a viewer sent: a chat line is
/// re-stamped with the sender's identity and the current time and broadcast;
/// release updates and application logs may not come from viewers and are
/// dropped.
pub fn handle_client_message(msg: WsMessage, user_id: &String) -> (r: ClientTextAction)
    ensures
        match msg {
            WsMessage::Chat { username: _, message, timestamp: _ } => match r {
                ClientTextAction::Broadcast(out) => match out {
                    WsMessage::Chat { username: u, message: m, timestamp: _ } => u == user_id && m
                        == message,
                    _ => false,
                },
                _ => false,
            },
            _ => r is Ignore,
        },
{
    match msg {
        WsMessage::Chat { username: _, message, timestamp: _ } => ClientTextAction::Broadcast(
            WsMessage::Chat {
                username: user_id.clone(),
                message,
                timestamp: now_rfc3339(),
            },
        ),
        _ => ClientTextAction::Ignore,
    }
}

/// Builds the release update event the hub fans out after a status or
/// progress change.
pub fn release_update_event(
    release_id: String,
    status: String,
    progress: u32,
    log_line: Option<String>,
) -> (r: WsMessage)
    ensures
        r == (WsMessage::ReleaseUpdate { release_id, status, progress, log_line }),
{
    WsMessage::ReleaseUpdate { release_id, status, progress, log_line }
}

/// Builds an application log event stamped with the current time.
pub fn app_log_event(level: String, message: String) -> (r: WsMessage)
    ensures
        match r {
            WsMessage::AppLog { level: l, message: m, timestamp: _ } => l == level && m == message,
            _ => false,
        },
{
    WsMessage::AppLog { level, message, timestamp: now_rfc3339() }
}

/// Whether a release update is surfaced as an error: its log line mentions an
/// error or failure, or the update itself carries the error status. An update
/// without a log line is never classified as an error.
pub open spec fn spec_release_update_is_error(status: Seq<char>, log_line: Option<Seq<char>>) -> bool {
    match log_line {
        Some(l) => crate::text::spec_contains(l, "ERROR"@) || crate::text::spec_contains(
            l,
            "error"@,
        ) || crate::text::spec_contains(l, "FAILED"@) || status == "Error"@,
        None => false,
    }
}

/// Classifies a release update as an error for display purposes.
pub fn release_update_is_error(status: &str, log_line: &Option<String>) -> (r: bool)
    ensures
        r == spec_release_update_is_error(
            status@,
            match log_line {
                Some(l) => Some(l@),
                None => None,
            },
        ),
{
    match log_line {
        Some(l) => {
            let chars = crate::text::chars_of(l.as_str());
            crate::text::contains_sub(&chars, "ERROR") || crate::text::contains_sub(
                &chars,
                "error",
            ) || crate::text::contains_sub(&chars, "FAILED") || str_eq(status, "Error")
        },
        None => false,
    }
}

/// Whether a session that last gave a liveness sign at `last_seen_millis` has
/// exceeded the timeout window at `at_millis`.
pub fn heartbeat_expired(last_seen_millis: i64, at_millis: i64, timeout_millis: i64) -> (r: bool)
    ensures
        r == (at_millis - last_seen_millis > timeout_millis),
{
    let diff: i128 = (at_millis as i128) - (last_seen_millis as i128);
    diff > (timeout_millis as i128)
}

} // verus!
