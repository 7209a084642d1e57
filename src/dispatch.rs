//! The order of writes that serves one request stream: the head frame, then
//! the body as a data frame when there is one, then the finish signal.
use vstd::prelude::*;

verus! {

/// One write on a request stream.
#[derive(Clone, Copy, Debug, PartialEq, Eq, Structural)]
pub enum Write {
    /// The status and headers.
    Head,
    /// The body bytes.
    Data,
    /// The end-of-stream signal.
    Finish,
}

/// How far the service of one stream has come.
#[derive(Clone, Copy, Debug, PartialEq, Eq, Structural)]
pub enum Stage {
    /// Nothing written yet.
    Start,
    /// The head frame went out.
    HeadSent,
    /// The body went out.
    DataSent,
    /// The stream was finished: the exchange is complete.
    Finished,
    /// A write failed: the stream is abandoned and nothing more is written.
    Failed,
}

/// The write that comes next at `stage`, for a response with or without a body.
pub open spec fn next_write_spec(stage: Stage, has_body: bool) -> Option<Write> {
    match stage {
        Stage::Start => Some(Write::Head),
        Stage::HeadSent => if has_body {
            Some(Write::Data)
        } else {
            Some(Write::Finish)
        },
        Stage::DataSent => Some(Write::Finish),
        Stage::Finished => None,
        Stage::Failed => None,
    }
}

/// The stage reached once the write due at `stage` has succeeded (`ok`) or failed.
pub open spec fn after_write_spec(stage: Stage, has_body: bool, ok: bool) -> Stage {
    if !ok {
        match stage {
            Stage::Finished => Stage::Finished,
            _ => Stage::Failed,
        }
    } else {
        match next_write_spec(stage, has_body) {
            Some(Write::Head) => Stage::HeadSent,
            Some(Write::Data) => Stage::DataSent,
            Some(Write::Finish) => Stage::Finished,
            None => stage,
        }
    }
}

/// The complete sequence of writes for a response.
pub open spec fn write_plan(has_body: bool) -> Seq<Write> {
    if has_body {
        seq![Write::Head, Write::Data, Write::Finish]
    } else {
        seq![Write::Head, Write::Finish]
    }
}

/// The writes a stream attempts from `stage` when the writes it attempts
/// report `results` in turn: each write is attempted only after the one before
/// it succeeded.
pub open spec fn attempted_writes(stage: Stage, has_body: bool, results: Seq<bool>) -> Seq<Write>
    decreases results.len(),
{
    match next_write_spec(stage, has_body) {
        None => Seq::empty(),
        Some(w) => if results.len() == 0 {
            Seq::empty()
        } else if results[0] {
            seq![w] + attempted_writes(after_write_spec(stage, has_body, true), has_body, results.drop_first())
        } else {
            seq![w]
        },
    }
}

/// The write due at `stage`, or `None` when the stream is finished or abandoned.
pub fn next_write(stage: Stage, has_body: bool) -> (r: Option<Write>)
    ensures
        r == next_write_spec(stage, has_body),
{
    match stage {
        Stage::Start => Some(Write::Head),
        Stage::HeadSent => if has_body {
            Some(Write::Data)
        } else {
            Some(Write::Finish)
        },
        Stage::DataSent => Some(Write::Finish),
        Stage::Finished => None,
        Stage::Failed => None,
    }
}

/// The stage after the write due at `stage` has reported `ok`.
pub fn after_write(stage: Stage, has_body: bool, ok: bool) -> (r: Stage)
    ensures
        r == after_write_spec(stage, has_body, ok),
{
    if !ok {
        match stage {
            Stage::Finished => Stage::Finished,
            _ => Stage::Failed,
        }
    } else {
        match next_write(stage, has_body) {
            Some(Write::Head) => Stage::HeadSent,
            Some(Write::Data) => Stage::DataSent,
            Some(Write::Finish) => Stage::Finished,
            None => stage,
        }
    }
}

/// The writes still due at `stage` when every write succeeds.
pub open spec fn plan_from(stage: Stage, has_body: bool) -> Seq<Write> {
    match stage {
        Stage::Start => write_plan(has_body),
        Stage::HeadSent => write_plan(has_body).drop_first(),
        Stage::DataSent => seq![Write::Finish],
        Stage::Finished => Seq::empty(),
        Stage::Failed => Seq::empty(),
    }
}

proof fn lemma_attempted_prefix(stage: Stage, has_body: bool, results: Seq<bool>)
    ensures
        attempted_writes(stage, has_body, results).len() <= plan_from(stage, has_body).len(),
        attempted_writes(stage, has_body, results) == plan_from(stage, has_body).take(
            attempted_writes(stage, has_body, results).len() as int,
        ),
        (forall|i: int| 0 <= i < results.len() ==> results[i]) && results.len() >= plan_from(
            stage,
            has_body,
        ).len() ==> attempted_writes(stage, has_body, results) == plan_from(stage, has_body),
    decreases results.len(),
{
    let p = plan_from(stage, has_body);
    let a = attempted_writes(stage, has_body, results);
    match next_write_spec(stage, has_body) {
        None => {
            assert(p =~= Seq::empty());
            assert(a =~= p.take(0));
        },
        Some(w) => {
            assert(p.len() > 0 && p[0] == w);
            if results.len() == 0 {
                assert(a =~= p.take(0));
            } else if results[0] {
                let s1 = after_write_spec(stage, has_body, true);
                let r1 = results.drop_first();
                assert(plan_from(s1, has_body) =~= p.drop_first());
                lemma_attempted_prefix(s1, has_body, r1);
                let a1 = attempted_writes(s1, has_body, r1);
                assert(a =~= seq![w] + a1);
                assert(a =~= p.take(a.len() as int));
                if (forall|i: int| 0 <= i < results.len() ==> results[i]) && results.len()
                    >= p.len() {
                    assert forall|i: int| 0 <= i < r1.len() implies r1[i] by {
                        assert(r1[i] == results[i + 1]);
                    }
                    assert(a =~= p);
                }
            } else {
                assert(a =~= p.take(1));
            }
        },
    }
}

/// Whatever the writes report, those attempted from the start are a prefix of
/// the plan: the head frame precedes every data frame, which precedes the
/// finish signal, and nothing is written after a failed write. When every
/// write succeeds, the whole plan is written.
pub proof fn lemma_write_order(has_body: bool, results: Seq<bool>)
    ensures
        attempted_writes(Stage::Start, has_body, results).len() <= write_plan(has_body).len(),
        attempted_writes(Stage::Start, has_body, results) == write_plan(has_body).take(
            attempted_writes(Stage::Start, has_body, results).len() as int,
        ),
        (forall|i: int| 0 <= i < results.len() ==> results[i]) && results.len() >= write_plan(
            has_body,
        ).len() ==> attempted_writes(Stage::Start, has_body, results) == write_plan(has_body),
{
    lemma_attempted_prefix(Stage::Start, has_body, results);
}

} // verus!
