//! The hub<->agent session: how an agent authenticates, how the hub keeps
//! one live session per host, how an agent routes streamed requests, and
//! how it backs off between connection attempts.

use vstd::prelude::*;
use std::collections::HashMap;

use crate::api_tokens::{parse_bearer_spec, parse_bearer_value};
use crate::text::{has_prefix, strip_prefix_str, nat_decimal};

verus! {

broadcast use vstd::std_specs::hash::group_hash_axioms;

/// Why the hub refuses a session.
#[derive(Debug, PartialEq, Eq)]
pub enum SessionRefusal {
    /// The agent did not prove who it is.
    Unauthenticated(String),
    /// The host already has a live session.
    AlreadyExists(String),
}

/// The credentials an agent's `authorization` metadata presents, as
/// `(token_id, secret)`: missing metadata, metadata that is not
/// `Bearer <token>`, and a token not shaped `oxde_<id>.<secret>` are each
/// refused with their own message.
pub fn agent_credentials(authorization: Option<&str>) -> (r: Result<(String, String), SessionRefusal>)
    ensures
        authorization is None ==> (r matches Err(SessionRefusal::Unauthenticated(m)) && m@
            == "missing authorization metadata"@),
        authorization is Some && !has_prefix(authorization->0@, "Bearer "@) ==> (r matches Err(
            SessionRefusal::Unauthenticated(m),
        ) && m@ == "malformed authorization metadata"@),
        authorization is Some && has_prefix(authorization->0@, "Bearer "@) ==> match parse_bearer_spec(
            authorization->0@.skip(7),
        ) {
            Some(p) => r matches Ok(c) && c.0@ == p.0 && c.1@ == p.1,
            None => r matches Err(SessionRefusal::Unauthenticated(m)) && m@
                == "malformed agent token"@,
        },
{
    proof {
        reveal_strlit("Bearer ");
    }
    let header = match authorization {
        Some(h) => h,
        None => return Err(SessionRefusal::Unauthenticated("missing authorization metadata".to_owned())),
    };
    let bearer = match strip_prefix_str(header, "Bearer ") {
        Some(b) => b,
        None => return Err(SessionRefusal::Unauthenticated("malformed authorization metadata".to_owned())),
    };
    match parse_bearer_value(bearer) {
        Some(parts) => Ok((parts.0.to_owned(), parts.1.to_owned())),
        None => Err(SessionRefusal::Unauthenticated("malformed agent token".to_owned())),
    }
}

/// The refusal for a host whose token is unknown or revoked.
pub fn unknown_agent_token() -> (r: SessionRefusal)
    ensures
        r matches SessionRefusal::Unauthenticated(m) && m@ == "unknown or revoked agent token"@,
{
    SessionRefusal::Unauthenticated("unknown or revoked agent token".to_owned())
}

/// The `authorization` metadata an agent sends: `Bearer <agent_token>`.
pub fn agent_authorization(agent_token: &str) -> (r: String)
    ensures
        r@ == "Bearer "@ + agent_token@,
{
    let mut s = "Bearer ".to_owned();
    s.append(agent_token);
    s
}

// ---------------------------------------------------------------------
// One live session per host
// ---------------------------------------------------------------------

/// The live sessions, keyed by host id, each with the handle requests to
/// that host go through.
pub struct AgentRegistry<T> {
    hosts: HashMap<i64, T>,
}

impl<T> View for AgentRegistry<T> {
    type V = Map<i64, T>;

    closed spec fn view(&self) -> Map<i64, T> {
        self.hosts@
    }
}

impl<T> AgentRegistry<T> {
    /// No live sessions.
    pub fn new() -> (r: Self)
        ensures
            r@ == Map::<i64, T>::empty(),
    {
        AgentRegistry { hosts: HashMap::new() }
    }

    /// Registers `link` for `host_id` unless the host already has a live
    /// session - `false` means the caller should refuse this connection
    /// rather than silently take over the live one.
    pub fn connect(&mut self, host_id: i64, link: T) -> (r: bool)
        ensures
            r == !old(self)@.contains_key(host_id),
            r ==> final(self)@ == old(self)@.insert(host_id, link),
            !r ==> final(self)@ == old(self)@,
    {
        if self.hosts.contains_key(&host_id) {
            false
        } else {
            self.hosts.insert(host_id, link);
            true
        }
    }

    /// Ends `host_id`'s session, if any.
    pub fn disconnect(&mut self, host_id: i64)
        ensures
            final(self)@ == old(self)@.remove(host_id),
    {
        self.hosts.remove(&host_id);
    }

    /// Whether `host_id` has a live session.
    pub fn is_connected(&self, host_id: i64) -> (r: bool)
        ensures
            r == self@.contains_key(host_id),
    {
        self.hosts.contains_key(&host_id)
    }

    /// The live session's handle for `host_id`, if any.
    pub fn for_host(&self, host_id: i64) -> (r: Option<&T>)
        ensures
            r matches Some(l) ==> self@.contains_key(host_id) && self@[host_id] == *l,
            r is None ==> !self@.contains_key(host_id),
    {
        self.hosts.get(&host_id)
    }
}

/// A second session for a connected host is refused and leaves the first
/// in place; once the first disconnects, the host may connect again.
pub proof fn lemma_one_session_per_host<T>(hosts: Map<i64, T>, host_id: i64, first: T, second: T)
    requires
        !hosts.contains_key(host_id),
    ensures
        hosts.insert(host_id, first).contains_key(host_id),
        hosts.insert(host_id, first)[host_id] == first,
        !hosts.insert(host_id, first).remove(host_id).contains_key(host_id),
{
}

/// The refusal a second session for a connected host gets.
pub fn already_connected() -> (r: SessionRefusal)
    ensures
        r matches SessionRefusal::AlreadyExists(m) && m@ == "this host already has an active session"@,
{
    SessionRefusal::AlreadyExists("this host already has an active session".to_owned())
}

// ---------------------------------------------------------------------
// Streamed requests in flight on an agent
// ---------------------------------------------------------------------

/// What to do with a streamed chunk for a request.
#[derive(Clone, Copy, Debug, PartialEq, Eq, Structural)]
pub enum ChunkRoute {
    /// First chunk of the request: start its handler with the new channel.
    Start,
    /// A later chunk: forward it into the request's existing channel.
    Forward,
}

/// In-flight streamed requests (uploads, relayed requests), keyed by
/// request id, each with the channel its chunks go into.
pub struct InFlight<T> {
    requests: HashMap<u64, T>,
}

impl<T> View for InFlight<T> {
    type V = Map<u64, T>;

    closed spec fn view(&self) -> Map<u64, T> {
        self.requests@
    }
}

impl<T> InFlight<T> {
    /// Nothing in flight.
    pub fn new() -> (r: Self)
        ensures
            r@ == Map::<u64, T>::empty(),
    {
        InFlight { requests: HashMap::new() }
    }

    /// Routes a chunk of `request_id`: the first registers `channel` and
    /// starts the handler; every later one is forwarded into the channel
    /// registered first (and `channel` is dropped).
    pub fn route(&mut self, request_id: u64, channel: T) -> (r: ChunkRoute)
        ensures
            old(self)@.contains_key(request_id) ==> r == ChunkRoute::Forward && final(self)@
                == old(self)@,
            !old(self)@.contains_key(request_id) ==> r == ChunkRoute::Start && final(self)@
                == old(self)@.insert(request_id, channel),
    {
        if self.requests.contains_key(&request_id) {
            ChunkRoute::Forward
        } else {
            self.requests.insert(request_id, channel);
            ChunkRoute::Start
        }
    }

    /// The channel of `request_id`, if it is in flight.
    pub fn channel(&self, request_id: u64) -> (r: Option<&T>)
        ensures
            r matches Some(c) ==> self@.contains_key(request_id) && self@[request_id] == *c,
            r is None ==> !self@.contains_key(request_id),
    {
        self.requests.get(&request_id)
    }

    /// The request's handler finished.
    pub fn finish(&mut self, request_id: u64)
        ensures
            final(self)@ == old(self)@.remove(request_id),
    {
        self.requests.remove(&request_id);
    }
}

// ---------------------------------------------------------------------
// Reconnecting
// ---------------------------------------------------------------------

/// Seconds before the first retry, and again after any session opened.
pub const INITIAL_RECONNECT_DELAY_SECS: u64 = 1;

/// The longest wait between attempts.
pub const MAX_RECONNECT_DELAY_SECS: u64 = 30;

/// The wait after a failed attempt: double the last, capped.
pub fn next_reconnect_delay(delay_secs: u64) -> (r: u64)
    ensures
        r == if 2 * delay_secs < MAX_RECONNECT_DELAY_SECS {
            2 * delay_secs
        } else {
            MAX_RECONNECT_DELAY_SECS as int
        },
{
    if delay_secs < MAX_RECONNECT_DELAY_SECS / 2 + 1 && 2 * delay_secs < MAX_RECONNECT_DELAY_SECS {
        2 * delay_secs
    } else {
        MAX_RECONNECT_DELAY_SECS
    }
}

/// The delay to wait after an attempt that started with `delay_secs`:
/// reset to the initial delay as soon as a session opened (so a brief blip
/// doesn't leave the agent waiting out a long backoff); left as it was when
/// dialing, the ping or opening the session failed.
pub fn delay_after_attempt(session_opened: bool, delay_secs: u64) -> (r: u64)
    ensures
        session_opened ==> r == INITIAL_RECONNECT_DELAY_SECS,
        !session_opened ==> r == delay_secs,
{
    if session_opened {
        INITIAL_RECONNECT_DELAY_SECS
    } else {
        delay_secs
    }
}

/// The wait after a failed attempt, as `next_reconnect_delay` computes it.
pub open spec fn backoff_spec(delay_secs: int) -> int {
    if 2 * delay_secs < MAX_RECONNECT_DELAY_SECS {
        2 * delay_secs
    } else {
        MAX_RECONNECT_DELAY_SECS as int
    }
}

/// The wait before retry `n` after attempts that never opened a session,
/// starting from the initial delay.
pub open spec fn backoff_after(n: nat) -> int
    decreases n,
{
    if n == 0 {
        INITIAL_RECONNECT_DELAY_SECS as int
    } else {
        backoff_spec(backoff_after((n - 1) as nat))
    }
}

/// The delay never exceeds the cap, and from the initial delay it grows
/// 1, 2, 4, 8, 16, then stays at 30.
pub proof fn lemma_backoff_bounded(delay_secs: u64, n: nat)
    ensures
        delay_secs <= MAX_RECONNECT_DELAY_SECS ==> backoff_spec(delay_secs as int)
            <= MAX_RECONNECT_DELAY_SECS,
        backoff_after(0) == 1 && backoff_after(1) == 2 && backoff_after(2) == 4,
        backoff_after(3) == 8 && backoff_after(4) == 16,
        n >= 5 ==> backoff_after(n) == 30,
    decreases n,
{
    reveal_with_fuel(backoff_after, 6);
    if n > 5 {
        lemma_backoff_bounded(delay_secs, (n - 1) as nat);
    }
}

/// The fingerprint to persist after connecting: only a trust-on-first-
/// connect (nothing pinned before) persists the one captured, so an
/// existing pin is never overwritten.
pub fn pin_to_persist(had_pin: bool, captured: Option<String>) -> (r: Option<String>)
    ensures
        had_pin ==> r is None,
        !had_pin ==> r == captured,
{
    if had_pin {
        None
    } else {
        captured
    }
}

} // verus!
