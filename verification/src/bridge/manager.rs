use vstd::prelude::*;
use vstd::string::*;

use crate::bridge::api::{opt_str_view, BridgeFatalError, FatalErrorView};
use crate::text::str_eq;

verus! {

/// A session that runs work acknowledged by this bridge.
#[derive(Debug)]
pub struct ActiveSession {
    pub session_id: String,
    pub work_id: String,
    pub access_token: String,
    pub started_at: u64,
}

pub struct SessionView {
    pub session_id: Seq<char>,
    pub work_id: Seq<char>,
    pub access_token: Seq<char>,
    pub started_at: u64,
}

impl View for ActiveSession {
    type V = SessionView;

    open spec fn view(&self) -> SessionView {
        SessionView {
            session_id: self.session_id@,
            work_id: self.work_id@,
            access_token: self.access_token@,
            started_at: self.started_at,
        }
    }
}

impl ActiveSession {
    fn duplicate(&self) -> (r: ActiveSession)
        ensures
            r@ == self@,
    {
        ActiveSession {
            session_id: self.session_id.clone(),
            work_id: self.work_id.clone(),
            access_token: self.access_token.clone(),
            started_at: self.started_at,
        }
    }
}

/// The sessions that remain when the work `w` stops: every other session, in order.
pub open spec fn sessions_without(s: Seq<SessionView>, w: Seq<char>) -> Seq<SessionView>
    decreases s.len(),
{
    if s.len() == 0 {
        s
    } else {
        let rest = sessions_without(s.drop_last(), w);
        if s.last().work_id == w {
            rest
        } else {
            rest.push(s.last())
        }
    }
}

/// Bridge manager state: the registered environment, the sessions that run, and whether
/// the bridge runs.
#[derive(Debug)]
pub struct BridgeState {
    environment_id: Option<String>,
    environment_secret: Option<String>,
    active_sessions: Vec<ActiveSession>,
    is_running: bool,
}

pub struct BridgeStateView {
    pub environment_id: Option<Seq<char>>,
    pub environment_secret: Option<Seq<char>>,
    pub sessions: Seq<SessionView>,
    pub is_running: bool,
}

pub open spec fn sessions_view(v: Seq<ActiveSession>) -> Seq<SessionView> {
    Seq::new(v.len(), |i: int| v[i]@)
}

impl View for BridgeState {
    type V = BridgeStateView;

    closed spec fn view(&self) -> BridgeStateView {
        BridgeStateView {
            environment_id: opt_str_view(self.environment_id),
            environment_secret: opt_str_view(self.environment_secret),
            sessions: sessions_view(self.active_sessions@),
            is_running: self.is_running,
        }
    }
}

impl BridgeStateView {
    /// The state after a registration that returned `id` and `secret`.
    pub open spec fn started(self, id: Seq<char>, secret: Seq<char>) -> BridgeStateView {
        BridgeStateView {
            environment_id: Some(id),
            environment_secret: Some(secret),
            is_running: true,
            ..self
        }
    }

    /// The state after a stop: the bridge no longer runs; the environment is kept.
    pub open spec fn stopped(self) -> BridgeStateView {
        BridgeStateView { is_running: false, ..self }
    }

    /// The state after work was acknowledged: the session is added at the end.
    pub open spec fn with_session(self, s: SessionView) -> BridgeStateView {
        BridgeStateView { sessions: self.sessions.push(s), ..self }
    }

    /// The state after the work `w` was stopped.
    pub open spec fn without_work(self, w: Seq<char>) -> BridgeStateView {
        BridgeStateView { sessions: sessions_without(self.sessions, w), ..self }
    }

    /// Where a poll goes: the environment and its secret, once both are known.
    pub open spec fn poll_target(self) -> Option<(Seq<char>, Seq<char>)> {
        match (self.environment_id, self.environment_secret) {
            (Some(id), Some(secret)) => Some((id, secret)),
            _ => None,
        }
    }
}

fn copy_opt_string(s: &Option<String>) -> (r: Option<String>)
    ensures
        opt_str_view(r) == opt_str_view(*s),
{
    match s {
        Some(x) => Some(x.clone()),
        None => None,
    }
}

impl BridgeState {
    /// A bridge that is not registered and does not run.
    pub fn new() -> (r: BridgeState)
        ensures
            r@.environment_id is None,
            r@.environment_secret is None,
            r@.sessions.len() == 0,
            !r@.is_running,
    {
        let r = BridgeState {
            environment_id: None,
            environment_secret: None,
            active_sessions: Vec::new(),
            is_running: false,
        };
        assert(r@.sessions =~= Seq::<SessionView>::empty());
        r
    }

    /// Records a registration that returned `environment_id` and `environment_secret`.
    pub fn start_completed(&mut self, environment_id: String, environment_secret: String)
        ensures
            final(self)@ == old(self)@.started(environment_id@, environment_secret@),
    {
        self.environment_id = Some(environment_id);
        self.environment_secret = Some(environment_secret);
        self.is_running = true;
    }

    /// The environment to deregister when the bridge stops, if any.
    pub fn environment_id(&self) -> (r: Option<String>)
        ensures
            opt_str_view(r) == self@.environment_id,
    {
        copy_opt_string(&self.environment_id)
    }

    /// Records that the bridge stopped.
    pub fn stop_completed(&mut self)
        ensures
            final(self)@ == old(self)@.stopped(),
    {
        self.is_running = false;
    }

    /// Where a poll goes; nothing while the environment or its secret is unknown.
    pub fn poll_target(&self) -> (r: Option<(String, String)>)
        ensures
            match r {
                Some((id, secret)) => self@.poll_target() == Some((id@, secret@)),
                None => self@.poll_target() is None,
            },
    {
        match (&self.environment_id, &self.environment_secret) {
            (Some(id), Some(secret)) => Some((id.clone(), secret.clone())),
            _ => None,
        }
    }

    /// Records a session for acknowledged work.
    pub fn work_acknowledged(&mut self, work_id: String, session_token: String, session_id: String, started_at: u64)
        ensures
            final(self)@ == old(self)@.with_session(
                SessionView { session_id: session_id@, work_id: work_id@, access_token: session_token@, started_at },
            ),
    {
        self.active_sessions.push(ActiveSession { session_id, work_id, access_token: session_token, started_at });
        assert(sessions_view(self.active_sessions@) =~= sessions_view(old(self).active_sessions@).push(
            SessionView { session_id: session_id@, work_id: work_id@, access_token: session_token@, started_at },
        ));
    }

    /// Removes the sessions of stopped work.
    pub fn work_stopped(&mut self, work_id: &str)
        ensures
            final(self)@ == old(self)@.without_work(work_id@),
    {
        let ghost before = sessions_view(self.active_sessions@);
        let mut kept: Vec<ActiveSession> = Vec::new();
        let mut i: usize = 0;
        while i < self.active_sessions.len()
            invariant
                i <= self.active_sessions@.len(),
                before == sessions_view(self.active_sessions@),
                sessions_view(kept@) == sessions_without(before.take(i as int), work_id@),
            decreases self.active_sessions@.len() - i,
        {
            let ghost prefix = before.take(i as int);
            assert(before.take(i + 1).drop_last() =~= prefix);
            let s = &self.active_sessions[i];
            assert(before.take(i + 1).last() == before[i as int]);
            assert(before[i as int] == s@);
            if !str_eq(s.work_id.as_str(), work_id) {
                let ghost old_kept = kept@;
                kept.push(s.duplicate());
                assert(sessions_view(kept@) =~= sessions_view(old_kept).push(before[i as int]));
            }
            i = i + 1;
        }
        assert(before.take(before.len() as int) =~= before);
        self.active_sessions = kept;
    }

    /// The environment of a heartbeat, or `(false, "not_running")` when there is none.
    pub fn heartbeat_target(&self) -> (r: Result<String, (bool, String)>)
        ensures
            match r {
                Ok(id) => self@.environment_id == Some(id@),
                Err((lease, state)) => self@.environment_id is None && !lease && state@ == "not_running"@,
            },
    {
        match &self.environment_id {
            Some(id) => Ok(id.clone()),
            None => Err((false, String::from_str("not_running"))),
        }
    }

    /// The environment of a reconnection, or the error that the bridge does not run.
    pub fn reconnect_target(&self) -> (r: Result<String, BridgeFatalError>)
        ensures
            match r {
                Ok(id) => self@.environment_id == Some(id@),
                Err(e) => self@.environment_id is None && e@ == FatalErrorView::RequestError("Bridge not running"@),
            },
    {
        match &self.environment_id {
            Some(id) => Ok(id.clone()),
            None => Err(BridgeFatalError::RequestError(String::from_str("Bridge not running"))),
        }
    }

    /// Check if the bridge is running
    pub fn is_running(&self) -> (r: bool)
        ensures
            r == self@.is_running,
    {
        self.is_running
    }

    /// Get active session count
    pub fn active_session_count(&self) -> (r: usize)
        ensures
            r == self@.sessions.len(),
    {
        self.active_sessions.len()
    }
}

} // verus!

verus! {

/// Stopping the work of a session that was just acknowledged leaves the sessions as
/// stopping that work alone would have left them.
pub proof fn lemma_acknowledge_then_stop_work(v: BridgeStateView, s: SessionView)
    ensures
        v.with_session(s).without_work(s.work_id) == v.without_work(s.work_id),
{
    assert(v.sessions.push(s).drop_last() =~= v.sessions);
}

/// Stopping the same work twice is the same as stopping it once.
pub proof fn lemma_stop_work_idempotent(v: BridgeStateView, w: Seq<char>)
    ensures
        v.without_work(w).without_work(w) == v.without_work(w),
{
    lemma_sessions_without_idempotent(v.sessions, w);
}

proof fn lemma_sessions_without_idempotent(s: Seq<SessionView>, w: Seq<char>)
    ensures
        sessions_without(sessions_without(s, w), w) == sessions_without(s, w),
    decreases s.len(),
{
    if s.len() > 0 {
        lemma_sessions_without_idempotent(s.drop_last(), w);
        let rest = sessions_without(s.drop_last(), w);
        if s.last().work_id != w {
            assert(rest.push(s.last()).drop_last() =~= rest);
        }
    }
}

/// After work stops, no session of that work remains, and every session of other work
/// remains.
pub proof fn lemma_stop_work_keeps_exactly_other_work(v: BridgeStateView, w: Seq<char>)
    ensures
        forall|i: int|
            0 <= i < v.without_work(w).sessions.len() ==> (#[trigger] v.without_work(w).sessions[i]).work_id != w,
        forall|i: int|
            0 <= i < v.sessions.len() && (#[trigger] v.sessions[i]).work_id != w ==> v.without_work(w).sessions.contains(v.sessions[i]),
        v.without_work(w).sessions.len() <= v.sessions.len(),
{
    lemma_sessions_without_members(v.sessions, w);
}

proof fn lemma_sessions_without_members(s: Seq<SessionView>, w: Seq<char>)
    ensures
        forall|i: int| 0 <= i < sessions_without(s, w).len() ==> (#[trigger] sessions_without(s, w)[i]).work_id != w,
        forall|i: int| 0 <= i < s.len() && (#[trigger] s[i]).work_id != w ==> sessions_without(s, w).contains(s[i]),
        sessions_without(s, w).len() <= s.len(),
    decreases s.len(),
{
    if s.len() > 0 {
        let d = s.drop_last();
        lemma_sessions_without_members(d, w);
        let rest = sessions_without(d, w);
        assert forall|i: int| 0 <= i < s.len() && (#[trigger] s[i]).work_id != w implies sessions_without(s, w).contains(s[i]) by {
            if i < s.len() - 1 {
                assert(d[i] == s[i]);
                assert(rest.contains(s[i]));
                if s.last().work_id != w {
                    let j = choose|j: int| 0 <= j < rest.len() && rest[j] == s[i];
                    assert(rest.push(s.last())[j] == s[i]);
                }
            } else {
                assert(rest.push(s.last())[rest.len() as int] == s[i]);
            }
        }
    }
}

/// A bridge that started and then stopped no longer runs, yet keeps the environment it
/// registered: polls still go to it.
pub proof fn lemma_start_then_stop(v: BridgeStateView, id: Seq<char>, secret: Seq<char>)
    ensures
        !v.started(id, secret).stopped().is_running,
        v.started(id, secret).stopped().poll_target() == Some((id, secret)),
        v.started(id, secret).stopped().sessions == v.sessions,
{
}

} // verus!
