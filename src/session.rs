//! Decisions of a connection session: what to do with each outcome of
//! accepting the next request stream on one connection.
use vstd::prelude::*;

verus! {

/// The severity that the framing layer attaches to an error.
#[derive(Clone, Copy, Debug, PartialEq, Eq, Structural)]
pub enum ErrorLevel {
    /// The whole connection is unusable.
    ConnectionError,
    /// Only one stream is affected.
    StreamError,
}

/// What one attempt to accept a request stream produced.
#[derive(Clone, Copy, Debug, PartialEq, Eq, Structural)]
pub enum AcceptOutcome {
    /// A new request stream with its decoded head.
    Request,
    /// The peer ended the connection gracefully.
    Closed,
    /// The framing layer reported an error of this severity.
    Failed(ErrorLevel),
}

/// What the session does next.
#[derive(Clone, Copy, Debug, PartialEq, Eq, Structural)]
pub enum SessionAction {
    /// Hand the stream to its own dispatcher and accept the next one.
    Dispatch,
    /// Log a warning and accept the next stream.
    Warn,
    /// Stop accepting: the session ends successfully.
    End,
    /// Stop accepting: the session ends with a connection error.
    Fail,
}

/// The action for one accept outcome.
pub open spec fn session_action(outcome: AcceptOutcome) -> SessionAction {
    match outcome {
        AcceptOutcome::Request => SessionAction::Dispatch,
        AcceptOutcome::Closed => SessionAction::End,
        AcceptOutcome::Failed(ErrorLevel::ConnectionError) => SessionAction::Fail,
        AcceptOutcome::Failed(ErrorLevel::StreamError) => SessionAction::Warn,
    }
}

/// Whether an action ends the session.
pub open spec fn ends_session(a: SessionAction) -> bool {
    a == SessionAction::End || a == SessionAction::Fail
}

/// The actions a session takes on a run of accept outcomes: one per outcome,
/// up to and including the first that ends the session.
pub open spec fn session_actions(outcomes: Seq<AcceptOutcome>) -> Seq<SessionAction>
    decreases outcomes.len(),
{
    if outcomes.len() == 0 {
        Seq::empty()
    } else {
        let a = session_action(outcomes[0]);
        if ends_session(a) {
            seq![a]
        } else {
            seq![a] + session_actions(outcomes.drop_first())
        }
    }
}

/// Decides what the session does with one accept outcome: a request is
/// dispatched, a stream-level error is logged and the session goes on, a
/// graceful close ends it, and a connection-level error ends it with an error.
pub fn on_accept(outcome: AcceptOutcome) -> (r: SessionAction)
    ensures
        r == session_action(outcome),
{
    match outcome {
        AcceptOutcome::Request => SessionAction::Dispatch,
        AcceptOutcome::Closed => SessionAction::End,
        AcceptOutcome::Failed(level) => match level {
            ErrorLevel::ConnectionError => SessionAction::Fail,
            ErrorLevel::StreamError => SessionAction::Warn,
        },
    }
}

/// Stream-level errors never end a session: on any run of outcomes without a
/// close or a connection-level error, the session acts on every outcome, and
/// every request, before or after a failed stream, is dispatched.
pub proof fn lemma_stream_errors_contained(outcomes: Seq<AcceptOutcome>)
    requires
        forall|i: int|
            0 <= i < outcomes.len() ==> outcomes[i] != AcceptOutcome::Closed && outcomes[i]
                != AcceptOutcome::Failed(ErrorLevel::ConnectionError),
    ensures
        session_actions(outcomes).len() == outcomes.len(),
        forall|i: int|
            0 <= i < outcomes.len() ==> (session_actions(outcomes)[i] == SessionAction::Dispatch
                <==> outcomes[i] == AcceptOutcome::Request),
    decreases outcomes.len(),
{
    if outcomes.len() > 0 {
        let rest = outcomes.drop_first();
        assert forall|i: int| 0 <= i < rest.len() implies rest[i] != AcceptOutcome::Closed
            && rest[i] != AcceptOutcome::Failed(ErrorLevel::ConnectionError) by {
            assert(rest[i] == outcomes[i + 1]);
        }
        lemma_stream_errors_contained(rest);
        let acts = session_actions(outcomes);
        assert(acts == seq![session_action(outcomes[0])] + session_actions(rest));
        assert forall|i: int| 0 <= i < outcomes.len() implies (acts[i] == SessionAction::Dispatch
            <==> outcomes[i] == AcceptOutcome::Request) by {
            if i > 0 {
                assert(acts[i] == session_actions(rest)[i - 1]);
                assert(outcomes[i] == rest[i - 1]);
            }
        }
    }
}

/// A connection-level error ends the session at once: no outcome after it is
/// acted on.
pub proof fn lemma_connection_error_ends(before: Seq<AcceptOutcome>, after: Seq<AcceptOutcome>)
    requires
        forall|i: int|
            0 <= i < before.len() ==> before[i] != AcceptOutcome::Closed && before[i]
                != AcceptOutcome::Failed(ErrorLevel::ConnectionError),
    ensures
        session_actions(before + seq![AcceptOutcome::Failed(ErrorLevel::ConnectionError)] + after)
            == session_actions(before) + seq![SessionAction::Fail],
    decreases before.len(),
{
    let all = before + seq![AcceptOutcome::Failed(ErrorLevel::ConnectionError)] + after;
    if before.len() == 0 {
        assert(all[0] == AcceptOutcome::Failed(ErrorLevel::ConnectionError));
        assert(session_actions(before) =~= Seq::empty());
        assert(session_actions(before) + seq![SessionAction::Fail] =~= seq![SessionAction::Fail]);
    } else {
        let rest = before.drop_first();
        assert forall|i: int| 0 <= i < rest.len() implies rest[i] != AcceptOutcome::Closed
            && rest[i] != AcceptOutcome::Failed(ErrorLevel::ConnectionError) by {
            assert(rest[i] == before[i + 1]);
        }
        lemma_connection_error_ends(rest, after);
        assert(all.drop_first() =~= rest + seq![AcceptOutcome::Failed(ErrorLevel::ConnectionError)]
            + after);
        assert(all[0] == before[0]);
        assert(session_actions(before) == seq![session_action(before[0])] + session_actions(rest));
        assert(session_actions(all) =~= session_actions(before) + seq![SessionAction::Fail]);
    }
}

} // verus!
