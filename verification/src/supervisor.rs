//! The two background tasks of a running agent, as state machines: the
//! session supervisor, which keeps the session alive, and the ownership
//! verifier, which watches the lock on the node's own record.
//!
//! Each function here takes the state of a task and what has just happened,
//! and returns the next state and what the task does next. The caller
//! performs the requests and waits.

use crate::consul::{is_error_status, ConsulError, SessionDuration, SessionId};
use crate::text::text_of;
use vstd::prelude::*;

verus! {

/// The states of the session supervisor.
#[derive(Clone, Copy, Debug, PartialEq, Eq, Structural)]
pub enum SessionState {
    /// The request that opens the session is under way.
    Opening,
    /// The session is open and is renewed on every tick.
    Live,
    /// The agent shuts down: the request that destroys the session is under
    /// way.
    Destroying,
    /// The supervisor has ended.
    Gone,
}

/// What the session supervisor is told.
#[derive(Clone, Copy, Debug, PartialEq, Eq, Structural)]
pub enum SessionEvent {
    /// The registry opened the session.
    Created,
    /// The registry did not open the session.
    CreateFailed,
    /// The renewal interval has passed.
    Tick,
    /// The registry renewed the session.
    Renewed,
    /// The renewal failed.
    RenewFailed,
    /// The agent asks the supervisor to end.
    Cancelled,
    /// The registry destroyed the session.
    Destroyed,
    /// The request to destroy the session failed.
    DestroyFailed,
}

/// What the session supervisor does next.
#[derive(Clone, Copy, Debug, PartialEq, Eq, Structural)]
pub enum SessionAction {
    /// Wait for the next tick or for cancellation.
    Wait,
    /// Ask the registry to renew the session.
    Renew,
    /// Ask the registry to destroy the session.
    Destroy,
    /// Cancel the whole agent, and end.
    CancelAgent,
    /// End.
    Stop,
}

/// The session supervisor's transitions. A session that was opened is
/// renewed once on every tick; the first renewal that fails cancels the
/// agent, with no second try; cancellation by the agent destroys the
/// session, and whatever the registry answers to that ends the supervisor.
pub open spec fn session_transition(state: SessionState, event: SessionEvent) -> (
    SessionState,
    SessionAction,
) {
    match (state, event) {
        (SessionState::Opening, SessionEvent::Created) => (SessionState::Live, SessionAction::Wait),
        (SessionState::Opening, SessionEvent::CreateFailed) => (
            SessionState::Gone,
            SessionAction::Stop,
        ),
        (SessionState::Opening, SessionEvent::Cancelled) => (
            SessionState::Gone,
            SessionAction::Stop,
        ),
        (SessionState::Opening, _) => (SessionState::Opening, SessionAction::Wait),
        (SessionState::Live, SessionEvent::Tick) => (SessionState::Live, SessionAction::Renew),
        (SessionState::Live, SessionEvent::RenewFailed) => (
            SessionState::Gone,
            SessionAction::CancelAgent,
        ),
        (SessionState::Live, SessionEvent::Cancelled) => (
            SessionState::Destroying,
            SessionAction::Destroy,
        ),
        (SessionState::Live, _) => (SessionState::Live, SessionAction::Wait),
        (SessionState::Destroying, SessionEvent::Destroyed) => (
            SessionState::Gone,
            SessionAction::Stop,
        ),
        (SessionState::Destroying, SessionEvent::DestroyFailed) => (
            SessionState::Gone,
            SessionAction::Stop,
        ),
        (SessionState::Destroying, _) => (SessionState::Destroying, SessionAction::Wait),
        (SessionState::Gone, _) => (SessionState::Gone, SessionAction::Stop),
    }
}

/// One step of the session supervisor.
pub fn session_step(state: SessionState, event: SessionEvent) -> (r: (SessionState, SessionAction))
    ensures
        r == session_transition(state, event),
{
    match state {
        SessionState::Gone => (SessionState::Gone, SessionAction::Stop),
        SessionState::Opening => match event {
            SessionEvent::Created => (SessionState::Live, SessionAction::Wait),
            SessionEvent::CreateFailed | SessionEvent::Cancelled => (
                SessionState::Gone,
                SessionAction::Stop,
            ),
            _ => (state, SessionAction::Wait),
        },
        SessionState::Live => match event {
            SessionEvent::Tick => (state, SessionAction::Renew),
            SessionEvent::RenewFailed => (SessionState::Gone, SessionAction::CancelAgent),
            SessionEvent::Cancelled => (SessionState::Destroying, SessionAction::Destroy),
            _ => (state, SessionAction::Wait),
        },
        SessionState::Destroying => match event {
            SessionEvent::Destroyed | SessionEvent::DestroyFailed => (
                SessionState::Gone,
                SessionAction::Stop,
            ),
            _ => (state, SessionAction::Wait),
        },
    }
}

/// The state of the session supervisor after a sequence of events.
pub open spec fn session_run(state: SessionState, events: Seq<SessionEvent>) -> SessionState
    decreases events.len(),
{
    if events.len() == 0 {
        state
    } else {
        session_transition(session_run(state, events.drop_last()), events.last()).0
    }
}

/// What the supervisor does: it renews only a live session and only on a
/// tick, it destroys the session only when a live supervisor is cancelled,
/// and it cancels the agent only when a renewal of a live session fails.
pub proof fn lemma_session_actions(state: SessionState, event: SessionEvent)
    ensures
        session_transition(state, event).1 == SessionAction::Renew <==> state
            == SessionState::Live && event == SessionEvent::Tick,
        session_transition(state, event).1 == SessionAction::Destroy <==> state
            == SessionState::Live && event == SessionEvent::Cancelled,
        session_transition(state, event).1 == SessionAction::CancelAgent <==> state
            == SessionState::Live && event == SessionEvent::RenewFailed,
        session_transition(state, event).1 == SessionAction::Stop ==> session_transition(
            state,
            event,
        ).0 == SessionState::Gone,
{
}

/// A supervisor that has ended stays ended: after a failed renewal nothing
/// is renewed again, whatever happens.
pub proof fn lemma_session_gone_is_final(events: Seq<SessionEvent>)
    ensures
        session_run(SessionState::Gone, events) == SessionState::Gone,
    decreases events.len(),
{
    if events.len() > 0 {
        lemma_session_gone_is_final(events.drop_last());
    }
}

/// The time between two renewals of a session, in milliseconds: half of the
/// time that the session lives without renewal.
pub fn renewal_interval_ms(ttl: SessionDuration) -> (r: u64)
    ensures
        r == ttl.secs() * 1000 / 2,
{
    match ttl {
        SessionDuration::Seconds(s) => (s as u64) * 500,
    }
}

/// How many reads of the own record may fail in a row before the verifier
/// cancels the agent.
pub const MAX_FAILED_FETCHES: u32 = 5;

/// How long the verifier waits before its first read, in milliseconds: the
/// time within which the registry's stale reads converge.
pub const VERIFIER_DELAY_MS: u64 = 50;

/// The shortest time between two reads of the verifier, in milliseconds.
pub const VERIFIER_PERIOD_MS: u64 = 1000;

/// The index that the registry sent with an answer.
pub enum IndexHeader {
    /// The answer had no index.
    Absent,
    /// The answer had an index that is no text.
    Unreadable,
    Value(String),
}

/// The registry's answer to a read of the node's own record.
pub enum KeyResponse {
    /// The registry could not be reached.
    Unreachable,
    /// The registry answered. `sessions` holds, for each entry of the
    /// answer's body, the session that holds the entry's lock, or is `None`
    /// where the body could not be read.
    Answer { status: u16, index: IndexHeader, sessions: Option<Vec<Option<SessionId>>> },
}

/// The session that holds the lock on the own record, as an answer says.
pub open spec fn lock_owner(response: KeyResponse) -> Result<SessionId, ConsulError> {
    match response {
        KeyResponse::Unreachable => Err(ConsulError::Transport),
        KeyResponse::Answer { status, index, sessions } => if is_error_status(status) {
            Err(ConsulError::Status(status))
        } else if index is Unreadable {
            Err(ConsulError::Decode)
        } else {
            match sessions {
                None => Err(ConsulError::Decode),
                Some(v) => if v@.len() == 0 {
                    Err(ConsulError::EmptyResponse)
                } else {
                    match v@[0] {
                        None => Err(ConsulError::Unlocked),
                        Some(id) => Ok(id),
                    }
                },
            }
        },
    }
}

/// The index to poll with after an answer: the index of the answer, where it
/// is a successful answer that has one, else the index as it was.
pub open spec fn index_after(index: Option<Seq<char>>, response: KeyResponse) -> Option<
    Seq<char>,
> {
    match response {
        KeyResponse::Answer { status, index: IndexHeader::Value(v), sessions } => if is_error_status(
            status,
        ) {
            index
        } else {
            Some(v@)
        },
        _ => index,
    }
}

/// The query with which the own record is read: the last index, once one is
/// known, so that the registry answers only when the record changes.
pub fn index_query(index: &Option<String>) -> (r: Option<(&'static str, String)>)
    ensures
        match r {
            Some((name, value)) => name@ == "index"@ && text_of(*index) == Some(value@),
            None => index is None,
        },
{
    match index {
        Some(i) => Some(("index", i.clone())),
        None => None,
    }
}

/// Reads from the registry's answer which session holds the lock on the own
/// record, and keeps the answer's index in `index` for the next read.
pub fn ensure_config_exists(index: &mut Option<String>, response: KeyResponse) -> (r: Result<
    SessionId,
    ConsulError,
>)
    ensures
        r == lock_owner(response),
        text_of(*final(index)) == index_after(text_of(*old(index)), response),
{
    match response {
        KeyResponse::Unreachable => Err(ConsulError::Transport),
        KeyResponse::Answer { status, index: header, sessions } => {
            if status >= 400 && status < 600 {
                return Err(ConsulError::Status(status));
            }
            match header {
                IndexHeader::Absent => {},
                IndexHeader::Unreadable => {
                    return Err(ConsulError::Decode);
                },
                IndexHeader::Value(v) => {
                    *index = Some(v);
                },
            }
            let sessions = match sessions {
                Some(v) => v,
                None => {
                    return Err(ConsulError::Decode);
                },
            };
            if sessions.len() == 0 {
                return Err(ConsulError::EmptyResponse);
            }
            match sessions[0] {
                Some(id) => Ok(id),
                None => Err(ConsulError::Unlocked),
            }
        },
    }
}

/// What the ownership verifier does after a read.
#[derive(Clone, Copy, Debug, PartialEq, Eq, Structural)]
pub enum VerifierAction {
    /// Read again after the pacing interval.
    Continue,
    /// Cancel the whole agent, and end.
    CancelAgent,
}

/// The number of failed reads in a row once one more has failed.
pub open spec fn one_more(failed_fetches: u32) -> u32 {
    if failed_fetches < u32::MAX {
        (failed_fetches + 1) as u32
    } else {
        failed_fetches
    }
}

/// The verifier's step. A read that succeeds clears the count of failed
/// reads; if it shows another session as the owner of the lock, the agent
/// is cancelled. A read that fails counts; the fifth in a row cancels the
/// agent.
pub open spec fn ownership_transition(
    failed_fetches: u32,
    session: SessionId,
    fetched: Result<SessionId, ConsulError>,
) -> (u32, VerifierAction) {
    match fetched {
        Ok(owner) => (
            0,
            if owner == session {
                VerifierAction::Continue
            } else {
                VerifierAction::CancelAgent
            },
        ),
        Err(_) => (
            one_more(failed_fetches),
            if one_more(failed_fetches) >= MAX_FAILED_FETCHES {
                VerifierAction::CancelAgent
            } else {
                VerifierAction::Continue
            },
        ),
    }
}

/// One step of the ownership verifier: from the count of failed reads in a
/// row, the agent's session and the outcome of a read to the new count and
/// what to do.
pub fn config_handler(
    failed_fetches: u32,
    session: SessionId,
    fetched: Result<SessionId, ConsulError>,
) -> (r: (u32, VerifierAction))
    ensures
        r == ownership_transition(failed_fetches, session, fetched),
{
    match fetched {
        Ok(owner) => {
            if owner == session {
                (0, VerifierAction::Continue)
            } else {
                (0, VerifierAction::CancelAgent)
            }
        },
        Err(_) => {
            let failed: u32 = if failed_fetches < u32::MAX {
                failed_fetches + 1
            } else {
                failed_fetches
            };
            if failed >= MAX_FAILED_FETCHES {
                (failed, VerifierAction::CancelAgent)
            } else {
                (failed, VerifierAction::Continue)
            }
        },
    }
}

/// The count of failed reads after `n` reads in a row have failed, starting
/// from a read that succeeded.
pub open spec fn failures_in_a_row(n: nat, session: SessionId, error: ConsulError) -> (
    u32,
    VerifierAction,
)
    decreases n,
{
    if n == 0 {
        (0, VerifierAction::Continue)
    } else {
        ownership_transition(
            failures_in_a_row((n - 1) as nat, session, error).0,
            session,
            Err(error),
        )
    }
}

/// The verifier bears four failed reads in a row and cancels the agent on
/// the fifth.
pub proof fn lemma_fifth_failure_cancels(n: nat, session: SessionId, error: ConsulError)
    requires
        n <= MAX_FAILED_FETCHES,
    ensures
        failures_in_a_row(n, session, error).0 == n,
        failures_in_a_row(n, session, error).1 == VerifierAction::CancelAgent <==> n
            == MAX_FAILED_FETCHES,
    decreases n,
{
    if n > 0 {
        lemma_fifth_failure_cancels((n - 1) as nat, session, error);
    }
}

/// A lock that another session holds cancels the agent at once, however
/// many reads failed before, and a lock that the agent's session holds
/// never does.
pub proof fn lemma_foreign_owner_cancels(failed_fetches: u32, session: SessionId, owner: SessionId)
    ensures
        ownership_transition(failed_fetches, session, Ok(owner)).1 == VerifierAction::CancelAgent
            <==> owner != session,
        ownership_transition(failed_fetches, session, Ok(owner)).0 == 0,
{
}

} // verus!
