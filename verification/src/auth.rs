//! Sign-in state: per-IP login lockout, cookie sessions, bearer tokens,
//! and the same-origin check that guards cookie-authenticated writes.

use vstd::prelude::*;

use crate::accounts::AccountRole;
use crate::api_tokens::{parse_bearer_spec, parse_bearer_value};
use crate::crypto::{b64_url_char, b64_url_nopad_encode, random_32_bytes, spec_b64_url_nopad};
use crate::error::AppError;
use crate::git_fetch::IpAddress;
use crate::text::{
    has_prefix, i64_decimal, int_decimal, same_text, split_once_spec, split_once_str, split_spec,
    split_str, str_parts_view, strip_prefix_str, trim, trim_spec,
};

verus! {

/// Name of the session cookie.
pub const SESSION_COOKIE: &'static str = "oxde_session";

/// 30 days - also the cookie's `Max-Age`; a session past this age is
/// treated as expired and evicted on next use even if the process never
/// restarted.
pub const SESSION_MAX_AGE_SECS: i64 = 2_592_000;

/// Failed logins allowed from one IP within `LOGIN_LOCKOUT_WINDOW_SECS`
/// before it's locked out - see `check_login_lockout`.
pub const LOGIN_MAX_FAILURES: u32 = 10;

/// Length of the window failed logins are counted in.
pub const LOGIN_LOCKOUT_WINDOW_SECS: i64 = 900;

/// A signed-in browser session.
#[derive(Clone, Debug, PartialEq, Eq)]
pub struct Session {
    pub username: String,
    pub created_at: i64,
}

/// Failed logins from one IP: how many, since when.
#[derive(Clone, Copy, Debug, PartialEq, Eq)]
pub struct LoginAttempts {
    pub count: u32,
    pub window_start: i64,
}

// ---------------------------------------------------------------------
// Login lockout
// ---------------------------------------------------------------------

/// Whether a login from an IP with these recorded failures is refused at
/// `now`, and if so after how many whole minutes (rounded up) the window
/// rolls over: `None` means allowed.
pub open spec fn lockout_spec(attempts: Option<LoginAttempts>, now: int) -> Option<int> {
    match attempts {
        None => None,
        Some(a) => {
            let elapsed = now - a.window_start;
            if elapsed > 900 || a.count < 10 {
                None
            } else {
                Some((900 - elapsed + 59) / 60)
            }
        },
    }
}

/// Rejects a login attempt from an IP that has already failed
/// `LOGIN_MAX_FAILURES` times within the current window - including a
/// correct password: once locked out, nothing from that IP succeeds until
/// the window rolls over.
pub fn check_login_lockout(attempts: Option<LoginAttempts>, now: i64) -> (r: Result<(), AppError>)
    ensures
        r is Ok <==> lockout_spec(attempts, now as int) is None,
        r is Err ==> (r matches Err(AppError::TooManyLoginAttempts(m)) && lockout_spec(
            attempts,
            now as int,
        ) == Some(m as int)),
{
    match attempts {
        None => Ok(()),
        Some(a) => {
            let elapsed: i128 = (now as i128) - (a.window_start as i128);
            if elapsed > 900 || a.count < LOGIN_MAX_FAILURES {
                Ok(())
            } else {
                let retry_after_secs: i128 = 900 - elapsed;
                let retry_after_mins: i128 = (retry_after_secs + 59) / 60;
                Err(AppError::TooManyLoginAttempts(retry_after_mins as i64))
            }
        },
    }
}

/// The record after one more failed login at `now`: a fresh window when
/// there is none or the last one is over, else one more failure in the
/// current window (a count already at `u32::MAX` stays there).
pub open spec fn after_failure_spec(prev: Option<LoginAttempts>, now: i64) -> LoginAttempts {
    match prev {
        None => LoginAttempts { count: 1, window_start: now },
        Some(a) => if now - a.window_start > 900 {
            LoginAttempts { count: 1, window_start: now }
        } else {
            LoginAttempts {
                count: if a.count < u32::MAX {
                    (a.count + 1) as u32
                } else {
                    a.count
                },
                window_start: a.window_start,
            }
        },
    }
}

/// Counts one more failed login toward `check_login_lockout`.
pub fn after_failed_login(prev: Option<LoginAttempts>, now: i64) -> (r: LoginAttempts)
    ensures
        r == after_failure_spec(prev, now),
{
    match prev {
        None => LoginAttempts { count: 1, window_start: now },
        Some(a) => {
            if (now as i128) - (a.window_start as i128) > 900 {
                LoginAttempts { count: 1, window_start: now }
            } else {
                LoginAttempts { count: a.count.saturating_add(1), window_start: a.window_start }
            }
        },
    }
}

/// The record after `n` failed logins all at `now`, starting from none.
pub open spec fn failures_at(n: nat, now: i64) -> Option<LoginAttempts>
    decreases n,
{
    if n == 0 {
        None
    } else {
        Some(after_failure_spec(failures_at((n - 1) as nat, now), now))
    }
}

/// `n` failures in a row within one window count as `n`, and lock the IP
/// out exactly when `n` reaches `LOGIN_MAX_FAILURES` - then for the whole
/// 15-minute window.
pub proof fn lemma_lockout_threshold(n: nat, now: i64)
    requires
        n < u32::MAX,
    ensures
        n > 0 ==> failures_at(n, now) == Some(LoginAttempts { count: n as u32, window_start: now }),
        lockout_spec(failures_at(n, now), now as int) is None <==> n < 10,
        n >= 10 ==> lockout_spec(failures_at(n, now), now as int) == Some(15int),
    decreases n,
{
    if n > 0 {
        lemma_lockout_threshold((n - 1) as nat, now);
    }
}

/// The record after failed logins at `times`, in order, starting from
/// the record `prev` (none: never failed, or cleared by a successful
/// login).
pub open spec fn failures_over(prev: Option<LoginAttempts>, times: Seq<i64>) -> Option<LoginAttempts>
    decreases times.len(),
{
    if times.len() == 0 {
        prev
    } else {
        Some(after_failure_spec(failures_over(prev, times.drop_last()), times.last()))
    }
}

/// The count a record holds after `k` failures in one window.
pub open spec fn capped_count(k: nat) -> u32 {
    if k < u32::MAX {
        k as u32
    } else {
        u32::MAX
    }
}

/// Failures spread over one window count up in it: `k` failed logins, the
/// first at `times[0]` and all within the 15 minutes after it, starting
/// from no record or from one whose window was over by then, leave a
/// record of `k` failures (the count stops at `u32::MAX`) from `times[0]`;
/// a login at `now` within that window is refused exactly when `k` reaches
/// `LOGIN_MAX_FAILURES`, with the minutes left in the window, rounded up.
/// Failures from other IPs never touch this record (`lemma_lockout_per_ip`).
pub proof fn lemma_lockout_over_window(prev: Option<LoginAttempts>, times: Seq<i64>, now: i64)
    requires
        times.len() > 0,
        prev is None || times[0] - prev->0.window_start > 900,
        forall|i: int| 0 <= i < times.len() ==> 0 <= #[trigger] times[i] - times[0] <= 900,
    ensures
        failures_over(prev, times) == Some(
            LoginAttempts { count: capped_count(times.len()), window_start: times[0] },
        ),
        0 <= now - times[0] <= 900 ==> (lockout_spec(failures_over(prev, times), now as int) is None
            <==> times.len() < 10),
        times.len() >= 10 && 0 <= now - times[0] <= 900 ==> lockout_spec(
            failures_over(prev, times),
            now as int,
        ) == Some((900 - (now - times[0]) + 59) / 60),
    decreases times.len(),
{
    if times.len() == 1 {
        assert(times.drop_last().len() == 0);
        assert(failures_over(prev, times.drop_last()) == prev);
        assert(times.last() == times[0]);
    } else {
        let rest = times.drop_last();
        assert forall|i: int| 0 <= i < rest.len() implies 0 <= #[trigger] rest[i] - rest[0] <= 900 by {
            assert(rest[i] == times[i]);
        }
        assert(rest[0] == times[0]);
        lemma_lockout_over_window(prev, rest, now);
        let last = times[times.len() - 1];
        assert(times.last() == last);
        assert(0 <= last - times[0] <= 900);
    }
    assert(failures_over(prev, times) == Some(
        LoginAttempts { count: capped_count(times.len()), window_start: times[0] },
    ));
}

/// Once the window is over, any record lets logins through again; with no
/// record (never failed, or cleared after a successful login) nothing is
/// refused.
pub proof fn lemma_lockout_expires(attempts: Option<LoginAttempts>, now: int)
    ensures
        lockout_spec(None, now) is None,
        attempts matches Some(a) && now - a.window_start > 900 ==> lockout_spec(attempts, now) is None,
        attempts matches Some(a) && 0 <= now - a.window_start < 900 && a.count >= 10 ==> (
        lockout_spec(attempts, now) matches Some(m) && 1 <= m <= 15),
{
    if let Some(a) = attempts {
        let e = now - a.window_start;
        if 0 <= e < 900 {
            assert(1 <= (900 - e + 59) / 60 <= 15) by (nonlinear_arith)
                requires
                    0 <= e < 900,
            ;
        }
    }
}

/// The concurrent map type the platform keeps shared request state in.
#[verifier::external_type_specification]
#[verifier::external_body]
#[verifier::reject_recursive_types(K)]
#[verifier::reject_recursive_types(V)]
#[verifier::reject_recursive_types(S)]
pub struct ExConcurrentMap<K, V, S>(papaya::HashMap<K, V, S>);

/// Name for the records a map of failed logins holds, by IP.
pub uninterp spec fn spec_login_attempts(map: papaya::HashMap<IpAddress, LoginAttempts>) -> Map<
    IpAddress,
    LoginAttempts,
>;

/// The record `records` holds for `ip`, if any.
pub open spec fn record_for(records: Map<IpAddress, LoginAttempts>, ip: IpAddress) -> Option<
    LoginAttempts,
> {
    if records.dom().contains(ip) {
        Some(records[ip])
    } else {
        None
    }
}

/// Calls `papaya::HashMap::new`: a map with no records.
#[verifier::external_body]
fn attempts_new() -> (fresh: papaya::HashMap<IpAddress, LoginAttempts>)
    ensures
        spec_login_attempts(fresh).dom() == Set::<IpAddress>::empty(),
{
    papaya::HashMap::new()
}

/// Calls `get` on a pinned reference and copies the record found: the
/// record the map holds under `ip`.
#[verifier::external_body]
fn attempts_get(map: &papaya::HashMap<IpAddress, LoginAttempts>, ip: &IpAddress) -> (r: Option<
    LoginAttempts,
>)
    ensures
        r == record_for(spec_login_attempts(*map), *ip),
{
    map.pin().get(ip).copied()
}

/// Calls `remove` on a pinned reference: the record under `ip` is gone and
/// every other record stays.
#[verifier::external_body]
fn attempts_remove(map: &mut papaya::HashMap<IpAddress, LoginAttempts>, ip: &IpAddress)
    ensures
        spec_login_attempts(*final(map)) == spec_login_attempts(*old(map)).remove(*ip),
{
    map.pin().remove(ip);
}

/// Calls `update_or_insert_with` on a pinned reference, so that the record
/// under `ip` becomes what `after_failed_login` computes from the current
/// one (or from none); every other record stays.
#[verifier::external_body]
fn attempts_record_failure(
    map: &mut papaya::HashMap<IpAddress, LoginAttempts>,
    ip: IpAddress,
    now: i64,
)
    ensures
        spec_login_attempts(*final(map)) == spec_login_attempts(*old(map)).insert(
            ip,
            after_failure_spec(record_for(spec_login_attempts(*old(map)), ip), now),
        ),
{
    map.pin().update_or_insert_with(
        ip,
        |attempts| after_failed_login(Some(*attempts), now),
        || after_failed_login(None, now),
    );
}

/// Per-IP failed-login records, shared by every request handler. Per-IP
/// rather than per-username so an attacker can't lock the real admin out
/// by deliberately failing their username.
pub struct LoginThrottle {
    attempts: papaya::HashMap<IpAddress, LoginAttempts>,
}

impl View for LoginThrottle {
    type V = Map<IpAddress, LoginAttempts>;

    /// The failed-login record held for each IP.
    closed spec fn view(&self) -> Map<IpAddress, LoginAttempts> {
        spec_login_attempts(self.attempts)
    }
}

impl LoginThrottle {
    /// No failures recorded.
    pub fn new() -> (r: Self)
        ensures
            r@ == Map::<IpAddress, LoginAttempts>::empty(),
    {
        let r = LoginThrottle { attempts: attempts_new() };
        assert(r@ =~= Map::<IpAddress, LoginAttempts>::empty());
        r
    }

    /// `check_login_lockout` on the record held for `ip`: `Ok`, or too many
    /// attempts with the minutes to wait.
    pub fn check(&self, ip: IpAddress, now: i64) -> (r: Result<(), AppError>)
        ensures
            r is Ok <==> lockout_spec(record_for(self@, ip), now as int) is None,
            r is Err ==> (r matches Err(AppError::TooManyLoginAttempts(m)) && lockout_spec(
                record_for(self@, ip),
                now as int,
            ) == Some(m as int)),
    {
        let current = attempts_get(&self.attempts, &ip);
        check_login_lockout(current, now)
    }

    /// Counts one more failed login from `ip`; no other IP's record
    /// changes.
    pub fn record_failure(&mut self, ip: IpAddress, now: i64)
        ensures
            final(self)@ == old(self)@.insert(ip, after_failure_spec(record_for(old(self)@, ip), now)),
    {
        attempts_record_failure(&mut self.attempts, ip, now);
    }

    /// Clears `ip`'s failure count on a successful login; no other IP's
    /// record changes.
    pub fn clear(&mut self, ip: IpAddress)
        ensures
            final(self)@ == old(self)@.remove(ip),
    {
        attempts_remove(&mut self.attempts, &ip);
    }
}

/// Lockout is per IP: failures recorded from one IP leave every other IP's
/// standing as it was, and clearing an IP lets it log in again.
pub proof fn lemma_lockout_per_ip(
    records: Map<IpAddress, LoginAttempts>,
    failing: IpAddress,
    other: IpAddress,
    now: i64,
    later: int,
)
    requires
        failing != other,
    ensures
        record_for(records.insert(failing, after_failure_spec(record_for(records, failing), now)), other)
            == record_for(records, other),
        record_for(records.remove(failing), other) == record_for(records, other),
        lockout_spec(record_for(records.remove(failing), failing), later) is None,
{
}

// ---------------------------------------------------------------------
// Sessions
// ---------------------------------------------------------------------

/// A session created at `created_at` is past its age at `now`.
pub open spec fn session_expired_spec(created_at: int, now: int) -> bool {
    now - created_at > 2_592_000
}

/// Whether a session created at `created_at` is past
/// `SESSION_MAX_AGE_SECS` at `now`.
pub fn session_expired(created_at: i64, now: i64) -> (r: bool)
    ensures
        r == session_expired_spec(created_at as int, now as int),
{
    (now as i128) - (created_at as i128) > 2_592_000
}

/// Random 32-byte token, base64-encoded - opaque, unguessable, and doesn't
/// need to be looked up against a hash (unlike the password itself), since
/// losing it only grants what the session already grants.
pub fn generate_session_token() -> (r: String)
    ensures
        exists|b: Seq<u8>| b.len() == 32 && r@ == spec_b64_url_nopad(b),
        forall|i: int| 0 <= i < r@.len() ==> b64_url_char(#[trigger] r@[i]),
{
    let bytes = random_32_bytes();
    let r = b64_url_nopad_encode(&bytes);
    assert(bytes@.len() == 32);
    r
}

/// A session survives a revocation for `username` unless it belongs to
/// that user.
pub fn session_kept(session_username: &str, username: &str) -> (r: bool)
    ensures
        r == (session_username@ != username@),
{
    !same_text(session_username, username)
}

/// A session survives a revocation for `username` that spares
/// `keep_token` unless it belongs to that user under another token.
pub fn session_kept_except(
    token: &str,
    session_username: &str,
    username: &str,
    keep_token: &str,
) -> (r: bool)
    ensures
        r == (session_username@ != username@ || token@ == keep_token@),
{
    !same_text(session_username, username) || same_text(token, keep_token)
}

/// A session as the store holds it: the username's text and the creation
/// time.
pub open spec fn session_entry(session: Session) -> (Seq<char>, i64) {
    (session.username@, session.created_at)
}

/// Name for the sessions a session map holds, by token text.
pub uninterp spec fn spec_sessions(map: papaya::HashMap<String, Session>) -> Map<
    Seq<char>,
    (Seq<char>, i64),
>;

/// The sessions `sessions` keeps on a revocation for `username`: those of
/// other users, and the one under `keep` where given.
pub open spec fn kept_sessions(
    sessions: Map<Seq<char>, (Seq<char>, i64)>,
    username: Seq<char>,
    keep: Option<Seq<char>>,
) -> Map<Seq<char>, (Seq<char>, i64)> {
    sessions.restrict(
        sessions.dom().filter(|t: Seq<char>| sessions[t].0 != username || keep == Some(t)),
    )
}

/// Calls `papaya::HashMap::new`: a map with no sessions.
#[verifier::external_body]
fn sessions_new() -> (fresh: papaya::HashMap<String, Session>)
    ensures
        spec_sessions(fresh).dom() == Set::<Seq<char>>::empty(),
{
    papaya::HashMap::new()
}

/// Calls `get` on a pinned reference and clones the session found under
/// `token`.
#[verifier::external_body]
fn sessions_get(map: &papaya::HashMap<String, Session>, token: &String) -> (r: Option<Session>)
    ensures
        r is Some <==> spec_sessions(*map).dom().contains(token@),
        r matches Some(s) ==> session_entry(s) == spec_sessions(*map)[token@],
{
    map.pin().get(token).cloned()
}

/// Calls `insert` on a pinned reference, replacing any session under
/// `token`.
#[verifier::external_body]
fn sessions_insert(map: &mut papaya::HashMap<String, Session>, token: String, session: Session)
    ensures
        spec_sessions(*final(map)) == spec_sessions(*old(map)).insert(token@, session_entry(session)),
{
    map.pin().insert(token, session);
}

/// Calls `remove` on a pinned reference.
#[verifier::external_body]
fn sessions_remove(map: &mut papaya::HashMap<String, Session>, token: &String)
    ensures
        spec_sessions(*final(map)) == spec_sessions(*old(map)).remove(token@),
{
    map.pin().remove(token);
}

/// Calls `retain` on a pinned reference, keeping the sessions
/// `session_kept` keeps.
#[verifier::external_body]
fn sessions_retain_others(map: &mut papaya::HashMap<String, Session>, username: &str)
    ensures
        spec_sessions(*final(map)) == kept_sessions(spec_sessions(*old(map)), username@, None),
{
    map.pin().retain(|_, session| session_kept(&session.username, username));
}

/// Calls `retain` on a pinned reference, keeping the sessions
/// `session_kept_except` keeps.
#[verifier::external_body]
fn sessions_retain_except(map: &mut papaya::HashMap<String, Session>, username: &str, keep_token: &str)
    ensures
        spec_sessions(*final(map)) == kept_sessions(
            spec_sessions(*old(map)),
            username@,
            Some(keep_token@),
        ),
{
    map.pin().retain(|token, session| session_kept_except(token, &session.username, username, keep_token));
}

/// Signed-in sessions by token, shared by every request handler.
pub struct SessionStore {
    sessions: papaya::HashMap<String, Session>,
}

impl View for SessionStore {
    type V = Map<Seq<char>, (Seq<char>, i64)>;

    /// Each session by its token: the username and the creation time.
    closed spec fn view(&self) -> Map<Seq<char>, (Seq<char>, i64)> {
        spec_sessions(self.sessions)
    }
}

impl SessionStore {
    /// No sessions.
    pub fn new() -> (r: Self)
        ensures
            r@ == Map::<Seq<char>, (Seq<char>, i64)>::empty(),
    {
        let r = SessionStore { sessions: sessions_new() };
        assert(r@ =~= Map::<Seq<char>, (Seq<char>, i64)>::empty());
        r
    }

    /// Starts a session for `username` at `now`: returns its fresh token.
    pub fn create(&mut self, username: &str, now: i64) -> (r: String)
        ensures
            exists|b: Seq<u8>| b.len() == 32 && r@ == spec_b64_url_nopad(b),
            final(self)@ == old(self)@.insert(r@, (username@, now)),
    {
        let token = generate_session_token();
        sessions_insert(
            &mut self.sessions,
            token.clone(),
            Session { username: username.to_owned(), created_at: now },
        );
        token
    }

    /// Ends the session `token` names, if any.
    pub fn remove(&mut self, token: &str)
        ensures
            final(self)@ == old(self)@.remove(token@),
    {
        sessions_remove(&mut self.sessions, &token.to_owned());
    }

    /// The username a session cookie's token signs in as at `now`: no
    /// token, an unknown token and an expired session (which is evicted)
    /// are all unauthenticated.
    pub fn resolve(&mut self, token: Option<String>, now: i64) -> (r: Result<String, AppError>)
        ensures
            r is Err ==> r == Err::<String, AppError>(AppError::Unauthenticated),
            match token {
                None => r is Err && final(self)@ == old(self)@,
                Some(t) => if !old(self)@.dom().contains(t@) {
                    r is Err && final(self)@ == old(self)@
                } else if session_expired_spec(old(self)@[t@].1 as int, now as int) {
                    r is Err && final(self)@ == old(self)@.remove(t@)
                } else {
                    r matches Ok(u) && u@ == old(self)@[t@].0 && final(self)@ == old(self)@
                },
            },
    {
        let token = match token {
            Some(t) => t,
            None => return Err(AppError::Unauthenticated),
        };
        let session = match sessions_get(&self.sessions, &token) {
            Some(s) => s,
            None => return Err(AppError::Unauthenticated),
        };
        if session_expired(session.created_at, now) {
            sessions_remove(&mut self.sessions, &token);
            return Err(AppError::Unauthenticated);
        }
        Ok(session.username)
    }

    /// Invalidates every existing session for `username` - on role change,
    /// password change/reset, and account deletion.
    pub fn revoke_sessions_for(&mut self, username: &str)
        ensures
            final(self)@ == kept_sessions(old(self)@, username@, None),
    {
        sessions_retain_others(&mut self.sessions, username);
    }

    /// Like `revoke_sessions_for`, but keeps `keep_token`'s session alive.
    pub fn revoke_other_sessions_for(&mut self, username: &str, keep_token: &str)
        ensures
            final(self)@ == kept_sessions(old(self)@, username@, Some(keep_token@)),
    {
        sessions_retain_except(&mut self.sessions, username, keep_token);
    }
}

// ---------------------------------------------------------------------
// Request credentials
// ---------------------------------------------------------------------

/// The characters of an optional string.
pub open spec fn opt_chars(o: Option<&str>) -> Option<Seq<char>> {
    match o {
        Some(s) => Some(s@),
        None => None,
    }
}

/// The characters of an optional owned string.
pub open spec fn opt_string_chars(o: Option<String>) -> Option<Seq<char>> {
    match o {
        Some(s) => Some(s@),
        None => None,
    }
}

/// The value of the first `;`-separated pair, trimmed, whose key is
/// `name`.
pub open spec fn first_cookie(pairs: Seq<Seq<char>>, name: Seq<char>) -> Option<Seq<char>>
    decreases pairs.len(),
{
    if pairs.len() == 0 {
        None
    } else {
        match split_once_spec(trim_spec(pairs[0]), '=') {
            Some(kv) => if kv.0 == name {
                Some(kv.1)
            } else {
                first_cookie(pairs.drop_first(), name)
            },
            None => first_cookie(pairs.drop_first(), name),
        }
    }
}

/// The value a `Cookie` header gives `name`.
pub open spec fn cookie_spec(header: Option<Seq<char>>, name: Seq<char>) -> Option<Seq<char>> {
    match header {
        Some(h) => first_cookie(split_spec(h, ';'), name),
        None => None,
    }
}

/// The value of cookie `name` in a `Cookie` header (`None` when the header
/// is absent or not readable text).
pub fn cookie_value(cookie_header: Option<&str>, name: &str) -> (r: Option<String>)
    ensures
        opt_string_chars(r) == cookie_spec(opt_chars(cookie_header), name@),
{
    let header = match cookie_header {
        Some(h) => h,
        None => return None,
    };
    let parts = split_str(header, ';');
    let ghost all = split_spec(header@, ';');
    let mut i: usize = 0;
    assert(all.skip(0) =~= all);
    while i < parts.len()
        invariant
            0 <= i <= parts@.len(),
            cookie_header == Some(header),
            str_parts_view(parts@) == all,
            all == split_spec(header@, ';'),
            first_cookie(all, name@) == first_cookie(all.skip(i as int), name@),
        decreases parts@.len() - i,
    {
        let pair = trim(parts[i]);
        assert(all.skip(i as int)[0] == parts@[i as int]@);
        assert(all.skip(i as int).drop_first() =~= all.skip(i + 1));
        match split_once_str(pair, '=') {
            Some(kv) => {
                if same_text(kv.0, name) {
                    proof {
                        let rest = all.skip(i as int);
                        assert(pair@ == trim_spec(rest[0]));
                        assert(split_once_spec(pair@, '=') is Some);
                        assert(first_cookie(rest, name@) == Some(kv.1@));
                    }
                    return Some(kv.1.to_owned());
                }
            },
            None => {},
        }
        i = i + 1;
    }
    None
}

/// The token after `Bearer ` in an `Authorization` value.
pub open spec fn bearer_spec(authorization: Option<Seq<char>>) -> Option<Seq<char>> {
    match authorization {
        Some(a) => if has_prefix(a, "Bearer "@) {
            Some(a.skip(7))
        } else {
            None
        },
        None => None,
    }
}

/// The bearer token an `Authorization` header carries (`None` when the
/// header is absent, not readable text, or not `Bearer <token>`).
pub fn bearer_token(authorization: Option<&str>) -> (r: Option<String>)
    ensures
        opt_string_chars(r) == bearer_spec(opt_chars(authorization)),
{
    proof {
        reveal_strlit("Bearer ");
    }
    match authorization {
        Some(a) => match strip_prefix_str(a, "Bearer ") {
            Some(t) => Some(t.to_owned()),
            None => None,
        },
        None => None,
    }
}

/// The `(token_id, secret)` an `Authorization` header presents: `Ok(None)`
/// when there is no bearer token, unauthenticated when one is there but
/// malformed.
pub fn bearer_credentials(authorization: Option<&str>) -> (r: Result<
    Option<(String, String)>,
    AppError,
>)
    ensures
        bearer_spec(opt_chars(authorization)) is None ==> r == Ok::<
            Option<(String, String)>,
            AppError,
        >(None),
        bearer_spec(opt_chars(authorization)) matches Some(b) ==> match parse_bearer_spec(b) {
            Some(p) => r matches Ok(Some(c)) && c.0@ == p.0 && c.1@ == p.1,
            None => r == Err::<Option<(String, String)>, AppError>(AppError::Unauthenticated),
        },
{
    let bearer = match bearer_token(authorization) {
        Some(b) => b,
        None => return Ok(None),
    };
    match parse_bearer_value(bearer.as_str()) {
        Some(parts) => Ok(Some((parts.0.to_owned(), parts.1.to_owned()))),
        None => Err(AppError::Unauthenticated),
    }
}

/// Methods that never change state.
pub open spec fn safe_method(method: Seq<char>) -> bool {
    method == "GET"@ || method == "HEAD"@ || method == "OPTIONS"@
}

/// A request passes the CSRF check when its method is safe, it carries a
/// bearer token, it carries no session cookie, or the browser marks it
/// `Sec-Fetch-Site: same-origin`.
pub open spec fn same_origin_ok(
    method: Seq<char>,
    authorization: Option<Seq<char>>,
    cookie: Option<Seq<char>>,
    sec_fetch_site: Option<Seq<char>>,
) -> bool {
    ||| safe_method(method)
    ||| bearer_spec(authorization) is Some
    ||| cookie_spec(cookie, SESSION_COOKIE@) is None
    ||| sec_fetch_site == Some("same-origin"@)
}

/// CSRF check via the browser-set, JS-unforgeable `Sec-Fetch-Site` header -
/// needed because every deployed app is same-*site* as the dashboard
/// (subdomain-per-app), so `SameSite=Lax` alone doesn't block it, but no
/// app is same-*origin*. A missing header is treated as a rejection too.
/// Takes the method name and the readable values of the `Authorization`,
/// `Cookie` and `Sec-Fetch-Site` headers.
pub fn verify_same_origin(
    method: &str,
    authorization: Option<&str>,
    cookie: Option<&str>,
    sec_fetch_site: Option<&str>,
) -> (r: Result<(), AppError>)
    ensures
        r is Ok <==> same_origin_ok(
            method@,
            opt_chars(authorization),
            opt_chars(cookie),
            opt_chars(sec_fetch_site),
        ),
        r is Err ==> (r matches Err(AppError::Forbidden(m)) && m@ == "cross-origin request rejected"@),
{
    if same_text(method, "GET") || same_text(method, "HEAD") || same_text(method, "OPTIONS") {
        return Ok(());
    }
    if bearer_token(authorization).is_some() {
        return Ok(());
    }
    if cookie_value(cookie, SESSION_COOKIE).is_none() {
        return Ok(());
    }
    let same = match sec_fetch_site {
        Some(site) => same_text(site, "same-origin"),
        None => false,
    };
    if same {
        Ok(())
    } else {
        Err(AppError::Forbidden("cross-origin request rejected".to_owned()))
    }
}

/// Name of the header that sets a cookie.
pub const SET_COOKIE: &'static str = "set-cookie";

/// The `Set-Cookie` value for a session.
pub open spec fn session_cookie_spec(token: Seq<char>, max_age_secs: int) -> Seq<char> {
    SESSION_COOKIE@ + "="@ + token + "; Path=/; HttpOnly; Secure; SameSite=Lax; Max-Age="@
        + int_decimal(max_age_secs)
}

/// `httpOnly`/`Secure`/`SameSite=Lax`, scoped to the whole domain (not just
/// `/dashboard` or `/api`) so it's sent on every request.
pub fn session_cookie_header(token: &str, max_age_secs: i64) -> (r: (&'static str, String))
    ensures
        r.0@ == SET_COOKIE@,
        r.1@ == session_cookie_spec(token@, max_age_secs as int),
{
    let mut value = SESSION_COOKIE.to_owned();
    value.append("=");
    value.append(token);
    value.append("; Path=/; HttpOnly; Secure; SameSite=Lax; Max-Age=");
    let age = i64_decimal(max_age_secs);
    value.append(age.as_str());
    (SET_COOKIE, value)
}

/// The `Set-Cookie` value that clears the session cookie.
pub fn clear_session_cookie_header() -> (r: (&'static str, String))
    ensures
        r.0@ == SET_COOKIE@,
        r.1@ == SESSION_COOKIE@ + "=; Path=/; HttpOnly; Secure; SameSite=Lax; Max-Age=0"@,
{
    let mut value = SESSION_COOKIE.to_owned();
    value.append("=; Path=/; HttpOnly; Secure; SameSite=Lax; Max-Age=0");
    (SET_COOKIE, value)
}

// ---------------------------------------------------------------------
// Users
// ---------------------------------------------------------------------

/// The authenticated user for the current request, resolved from the
/// session cookie only - never a bearer token, so a token can never mint
/// or revoke other tokens (see `ApiUser` for routes that accept both).
#[derive(Debug, PartialEq, Eq)]
pub struct CurrentUser {
    pub id: i64,
    pub username: String,
    pub role: AccountRole,
}

impl CurrentUser {
    /// Only an admin passes.
    pub fn require_admin(&self) -> (r: Result<(), AppError>)
        ensures
            self.role == AccountRole::Admin ==> r is Ok,
            self.role == AccountRole::Member ==> (r matches Err(AppError::Forbidden(m)) && m@
                == "admin access required"@),
    {
        match self.role {
            AccountRole::Admin => Ok(()),
            AccountRole::Member => Err(AppError::Forbidden("admin access required".to_owned())),
        }
    }
}

/// Like `CurrentUser`, but also accepts an API bearer token, checked
/// before falling back to the cookie.
#[derive(Debug, PartialEq, Eq)]
pub struct ApiUser(pub CurrentUser);

/// Like `ApiUser`, but bearer-token only, no cookie fallback - for routes
/// whose clients are never a browser (e.g. MCP), so there's no session
/// cookie to protect from CSRF in the first place.
#[derive(Debug, PartialEq, Eq)]
pub struct BearerUser(pub CurrentUser);

} // verus!
