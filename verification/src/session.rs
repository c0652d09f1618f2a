//! Authenticated-session lifecycle for the solar-inverter cloud API.
//!
//! A `HoymilesState` owns the credentials-derived token and station session
//! id. It is created empty, filled by an initial acquisition, and refreshed
//! in place when the provider signals that the token expired. The transport
//! steps (region lookup, login, station listing) are the caller's concern;
//! this module owns every mutation of the session and guarantees the refresh
//! ordering: the stale session id is cleared before a new token is installed,
//! so no observer ever sees a fresh token paired with the pre-refresh id.

use vstd::prelude::*;

verus! {

/// The session for the solar-inverter cloud API: an opaque bearer token and
/// the station session id, each absent while unacquired or broken. The
/// session is usable only when both are present.
#[derive(Clone, Debug)]
pub struct HoymilesState {
    pub token: Option<String>,
    pub sid: Option<String>,
}

/// The state with its session id dropped and its token kept.
pub open spec fn spec_clear_sid(s: HoymilesState) -> HoymilesState {
    HoymilesState { token: s.token, sid: None }
}

/// The state with `token` installed; the session id stays absent.
pub open spec fn spec_with_token(s: HoymilesState, token: Option<String>) -> HoymilesState {
    HoymilesState { token, sid: None }
}

/// The state with `sid` installed and its token kept.
pub open spec fn spec_with_sid(s: HoymilesState, sid: Option<String>) -> HoymilesState {
    HoymilesState { token: s.token, sid }
}

/// The session state a full acquisition ends in, given what the two lookup
/// steps returned: the token as fetched, and the session id only if a token
/// was obtained at all (without one, the station listing is never attempted).
pub open spec fn spec_acquired(token: Option<String>, sid: Option<String>) -> HoymilesState {
    if token is Some {
        HoymilesState { token, sid }
    } else {
        HoymilesState { token: None, sid: None }
    }
}

/// Every session state observable during a refresh, in order: after the
/// stale id is cleared, after the new token is installed, and (when a token
/// was obtained) after the new session id is installed.
pub open spec fn spec_refresh_trace(
    s0: HoymilesState,
    token: Option<String>,
    sid: Option<String>,
) -> Seq<HoymilesState> {
    let s1 = spec_clear_sid(s0);
    let s2 = spec_with_token(s1, token);
    if token is Some {
        seq![s1, s2, spec_with_sid(s2, sid)]
    } else {
        seq![s1, s2]
    }
}

impl HoymilesState {
    /// Whether the session can be used for authenticated queries: both the
    /// token and the session id are present.
    pub open spec fn spec_usable(self) -> bool {
        self.token is Some && self.sid is Some
    }

    /// A fresh, unauthenticated session: no token, no session id.
    pub fn new() -> (s: Self)
        ensures
            s.token is None,
            s.sid is None,
    {
        HoymilesState { token: None, sid: None }
    }

    /// Whether the session can be used for authenticated queries.
    pub fn usable(&self) -> (r: bool)
        ensures
            r == self.spec_usable(),
    {
        self.token.is_some() && self.sid.is_some()
    }

    /// First step of a refresh: invalidate the session id, keeping the token
    /// untouched, so a caller checking for a session id never finds a stale
    /// one from here on.
    pub fn clear_sid(&mut self)
        ensures
            *final(self) == spec_clear_sid(*old(self)),
    {
        self.sid = None;
    }

    /// Second step of a refresh: install the token the login step returned
    /// (or record its absence). Only allowed while the session id is absent,
    /// which keeps a new token from ever sitting beside a stale id.
    pub fn set_token(&mut self, token: Option<String>)
        requires
            old(self).sid is None,
        ensures
            *final(self) == spec_with_token(*old(self), token),
    {
        self.token = token;
    }

    /// Last step of a refresh: install the session id the station listing
    /// returned (or record its absence). Only meaningful once a token is
    /// present.
    pub fn set_sid(&mut self, sid: Option<String>)
        requires
            old(self).token is Some,
        ensures
            *final(self) == spec_with_sid(*old(self), sid),
    {
        self.sid = sid;
    }

    /// Refresh the session in place from the results of the two lookup
    /// steps: the stale session id is dropped first, then the new token and
    /// (if one was obtained) the new session id are installed. Repeating a
    /// refresh whose lookups keep failing just reproduces the same empty
    /// session; it never raises an error.
    pub fn refresh(&mut self, token: Option<String>, sid: Option<String>)
        requires
            token is None ==> sid is None,
        ensures
            *final(self) == spec_acquired(token, sid),
            *final(self) == spec_refresh_trace(*old(self), token, sid).last(),
    {
        self.clear_sid();
        let has_token = token.is_some();
        self.set_token(token);
        if has_token {
            self.set_sid(sid);
        }
    }
}

/// Initial acquisition at process start: the same steps as a refresh,
/// starting from the empty session.
pub fn init(token: Option<String>, sid: Option<String>) -> (s: HoymilesState)
    requires
        token is None ==> sid is None,
    ensures
        s == spec_acquired(token, sid),
{
    let mut s = HoymilesState::new();
    s.refresh(token, sid);
    s
}

/// A caller never observes a new token paired with the pre-refresh session
/// id: every state a refresh passes through either has no session id at all
/// or already carries the freshly fetched one. In particular the very first
/// observable state of a refresh has the id cleared.
pub proof fn lemma_refresh_clears_sid_before_token(
    s0: HoymilesState,
    token: Option<String>,
    sid: Option<String>,
)
    ensures
        spec_refresh_trace(s0, token, sid)[0].sid is None,
        forall|i: int|
            0 <= i < spec_refresh_trace(s0, token, sid).len() ==> (#[trigger] spec_refresh_trace(
                s0,
                token,
                sid,
            )[i]).sid is None || spec_refresh_trace(s0, token, sid)[i].sid == sid,
{
}

/// A refresh ends exactly in the acquired state for what the lookups
/// returned, and refreshing is idempotent: starting from any two states,
/// the same lookup results give the same session.
pub proof fn lemma_refresh_idempotent(
    s0: HoymilesState,
    s1: HoymilesState,
    token: Option<String>,
    sid: Option<String>,
)
    ensures
        spec_refresh_trace(s0, token, sid).last() == spec_acquired(token, sid),
        spec_refresh_trace(s0, token, sid).last() == spec_refresh_trace(s1, token, sid).last(),
{
}

} // verus!
