//! Laws of the download-and-open session, stated over whole runs of the
//! state machine: what every successful call returns, that the directory
//! was created first, that only a reported I/O failure can fail a call,
//! and that a transport failure aborts the call before anything is
//! written.

use vstd::prelude::*;

use crate::messages::failure_message_spec;
use crate::paths::dest_path_spec;
use crate::session::ActionModel;
use crate::session::Model;
use crate::session::OutcomeModel;
use crate::session::Step;
use crate::session::action_for;
use crate::session::init_model;
use crate::session::is_io_step;
use crate::session::outcome_fits;
use crate::session::run_model;
use crate::session::step_index;
use crate::session::transition;
use crate::session::wf_model;

verus! {

/// A finished session stays finished: from a terminal step, no sequence
/// of outcomes moves the session anywhere.
pub proof fn lemma_terminal_absorbs(m: Model, outs: Seq<OutcomeModel>)
    requires
        !is_io_step(m.step),
    ensures
        run_model(m, outs) == m,
{
}

/// A run never changes the inputs of the call: the temporary directory,
/// the URL and the file name come out as they went in.
pub proof fn lemma_run_preserves_inputs(m: Model, outs: Seq<OutcomeModel>)
    ensures
        run_model(m, outs).temp_dir == m.temp_dir,
        run_model(m, outs).url == m.url,
        run_model(m, outs).file_name == m.file_name,
    decreases outs.len(),
{
    if outs.len() == 0 {
    } else if !outcome_fits(m.step, outs[0]) {
    } else {
        lemma_run_preserves_inputs(transition(m, outs[0]), outs.subrange(1, outs.len() as int));
    }
}

/// A single step fails exactly when the application reported a failure:
/// no input — a colliding file name included — can fail a step by itself.
pub proof fn lemma_failure_only_from_io_error(m: Model, o: OutcomeModel)
    requires
        outcome_fits(m.step, o),
    ensures
        transition(m, o).step == Step::Failed <==> o is Failure,
{
}

/// Two calls that share a temporary directory and a file name ask the
/// application to create the same destination file, whatever their URLs:
/// the later call overwrites the earlier one's file instead of erroring.
pub proof fn lemma_same_name_same_destination(m1: Model, m2: Model)
    requires
        m1.temp_dir == m2.temp_dir,
        m1.file_name == m2.file_name,
        m1.step == Step::Create,
        m2.step == Step::Create,
    ensures
        action_for(m1) == action_for(m2),
{
}

/// Well-formedness is an invariant of whole runs, not only of single
/// steps.
pub proof fn lemma_run_preserves_wf(m: Model, outs: Seq<OutcomeModel>)
    requires
        wf_model(m),
    ensures
        wf_model(run_model(m, outs)),
    decreases outs.len(),
{
    if outs.len() == 0 {
    } else if !outcome_fits(m.step, outs[0]) {
    } else {
        lemma_run_preserves_wf(transition(m, outs[0]), outs.subrange(1, outs.len() as int));
    }
}

/// Once the body has been read (the session is at `Create` or beyond),
/// a run neither changes the recorded body nor returns to an earlier
/// step.
pub proof fn lemma_body_frozen_after_read(m: Model, outs: Seq<OutcomeModel>)
    requires
        3 <= step_index(m.step),
    ensures
        run_model(m, outs).body == m.body,
        3 <= step_index(run_model(m, outs).step),
    decreases outs.len(),
{
    if outs.len() == 0 {
    } else if !outcome_fits(m.step, outs[0]) {
    } else {
        lemma_body_frozen_after_read(transition(m, outs[0]), outs.subrange(1, outs.len() as int));
    }
}

/// The outcomes of a run in which every step succeeds and the response
/// body is `b`.
pub open spec fn success_outcomes(b: Seq<u8>) -> Seq<OutcomeModel> {
    seq![
        OutcomeModel::Success,
        OutcomeModel::Success,
        OutcomeModel::Body(b),
        OutcomeModel::Success,
        OutcomeModel::Success,
        OutcomeModel::Success,
        OutcomeModel::Success,
    ]
}

/// A call whose every step succeeds finishes at `Done`, holds exactly
/// the fetched body, and returns the path `<temp_dir>/<file_name>`.
pub proof fn lemma_success_run(t: Seq<char>, u: Seq<char>, f: Seq<char>, b: Seq<u8>)
    ensures
        ({
            let end = run_model(init_model(t, u, f), success_outcomes(b));
            &&& end.step == Step::Done
            &&& end.body == Some(b)
            &&& end.error is None
            &&& action_for(end) == ActionModel::Finish(Ok(dest_path_spec(t, f)))
        }),
{
    let outs = success_outcomes(b);
    let m0 = init_model(t, u, f);
    let m1 = transition(m0, outs[0]);
    let s1 = outs.subrange(1, 7);
    assert(s1 =~= seq![
        OutcomeModel::Success,
        OutcomeModel::Body(b),
        OutcomeModel::Success,
        OutcomeModel::Success,
        OutcomeModel::Success,
        OutcomeModel::Success,
    ]);
    assert(run_model(m0, outs) == run_model(m1, s1));
    let m2 = transition(m1, s1[0]);
    let s2 = s1.subrange(1, 6);
    assert(s2 =~= seq![
        OutcomeModel::Body(b),
        OutcomeModel::Success,
        OutcomeModel::Success,
        OutcomeModel::Success,
        OutcomeModel::Success,
    ]);
    assert(run_model(m1, s1) == run_model(m2, s2));
    let m3 = transition(m2, s2[0]);
    let s3 = s2.subrange(1, 5);
    assert(s3 =~= seq![
        OutcomeModel::Success,
        OutcomeModel::Success,
        OutcomeModel::Success,
        OutcomeModel::Success,
    ]);
    assert(run_model(m2, s2) == run_model(m3, s3));
    let m4 = transition(m3, s3[0]);
    let s4 = s3.subrange(1, 4);
    assert(s4 =~= seq![OutcomeModel::Success, OutcomeModel::Success, OutcomeModel::Success]);
    assert(run_model(m3, s3) == run_model(m4, s4));
    let m5 = transition(m4, s4[0]);
    let s5 = s4.subrange(1, 3);
    assert(s5 =~= seq![OutcomeModel::Success, OutcomeModel::Success]);
    assert(run_model(m4, s4) == run_model(m5, s5));
    let m6 = transition(m5, s5[0]);
    let s6 = s5.subrange(1, 2);
    assert(s6 =~= seq![OutcomeModel::Success]);
    assert(run_model(m5, s5) == run_model(m6, s6));
    let m7 = transition(m6, s6[0]);
    let s7 = s6.subrange(1, 1);
    assert(s7.len() == 0);
    assert(run_model(m6, s6) == run_model(m7, s7));
    assert(run_model(m7, s7) == m7);
}

/// A run that ends at `Done` did not end at its first outcome: that
/// outcome fits the step the run was at, it is not a failure, and the
/// rest of the run still ends at `Done`.
proof fn lemma_done_prefix(m: Model, outs: Seq<OutcomeModel>)
    requires
        run_model(m, outs).step == Step::Done,
        m.step != Step::Done,
    ensures
        outs.len() >= 1,
        outcome_fits(m.step, outs[0]),
        !(outs[0] is Failure),
        run_model(m, outs) == run_model(
            transition(m, outs[0]),
            outs.subrange(1, outs.len() as int),
        ),
{
    if outs.len() == 0 {
        assert(false);
    }
    if !outcome_fits(m.step, outs[0]) {
        assert(false);
    }
    if outs[0] is Failure {
        lemma_terminal_absorbs(transition(m, outs[0]), outs.subrange(1, outs.len() as int));
        assert(false);
    }
}

/// Completeness of the success law: a run ends at `Done` only when every
/// one of the seven steps — the directory, the request, the read, the
/// file, the write, the flush, the open — was answered with success; the
/// session then holds exactly the fetched body and returns the path
/// `<temp_dir>/<file_name>`.
pub proof fn lemma_done_shape(t: Seq<char>, u: Seq<char>, f: Seq<char>, outs: Seq<OutcomeModel>)
    requires
        run_model(init_model(t, u, f), outs).step == Step::Done,
    ensures
        outs.len() >= 7,
        outs[2] is Body,
        outs.take(7) == success_outcomes(outs[2]->Body_0),
        run_model(init_model(t, u, f), outs).body == Some(outs[2]->Body_0),
        action_for(run_model(init_model(t, u, f), outs)) == ActionModel::Finish(
            Ok(dest_path_spec(t, f)),
        ),
{
    let m0 = init_model(t, u, f);
    let n = outs.len() as int;
    let end = run_model(m0, outs);
    lemma_run_preserves_inputs(m0, outs);

    lemma_done_prefix(m0, outs);
    let m1 = transition(m0, outs[0]);
    let s1 = outs.subrange(1, n);

    lemma_done_prefix(m1, s1);
    let m2 = transition(m1, s1[0]);
    let s2 = s1.subrange(1, s1.len() as int);
    assert(s2 =~= outs.subrange(2, n));

    lemma_done_prefix(m2, s2);
    let m3 = transition(m2, s2[0]);
    let s3 = s2.subrange(1, s2.len() as int);
    assert(s3 =~= outs.subrange(3, n));

    lemma_done_prefix(m3, s3);
    let m4 = transition(m3, s3[0]);
    let s4 = s3.subrange(1, s3.len() as int);
    assert(s4 =~= outs.subrange(4, n));

    lemma_done_prefix(m4, s4);
    let m5 = transition(m4, s4[0]);
    let s5 = s4.subrange(1, s4.len() as int);
    assert(s5 =~= outs.subrange(5, n));

    lemma_done_prefix(m5, s5);
    let m6 = transition(m5, s5[0]);
    let s6 = s5.subrange(1, s5.len() as int);
    assert(s6 =~= outs.subrange(6, n));

    lemma_done_prefix(m6, s6);
    let m7 = transition(m6, s6[0]);
    let s7 = s6.subrange(1, s6.len() as int);
    assert(s7 =~= outs.subrange(7, n));

    assert(m7.step == Step::Done);
    lemma_terminal_absorbs(m7, s7);
    assert(end == m7);
    assert(outs.take(7) =~= success_outcomes(outs[2]->Body_0));
}

/// A failed transport aborts the call: when the request's send step
/// fails, the call ends at `Failed` with the transport failure's message,
/// no body is ever recorded, and — whatever outcomes are still offered —
/// no state of the run ever reaches the step that writes the file.
pub proof fn lemma_transport_failure(
    t: Seq<char>,
    u: Seq<char>,
    f: Seq<char>,
    e: Seq<char>,
    rest: Seq<OutcomeModel>,
)
    ensures
        ({
            let outs = seq![OutcomeModel::Success, OutcomeModel::Failure(e)] + rest;
            let end = run_model(init_model(t, u, f), outs);
            &&& end.step == Step::Failed
            &&& end.error == Some(failure_message_spec(Step::Send, e))
            &&& end.body is None
            &&& action_for(end) == ActionModel::Finish(Err(failure_message_spec(Step::Send, e)))
            &&& forall|k: int|
                0 <= k <= outs.len() ==> (#[trigger] run_model(
                    init_model(t, u, f),
                    outs.take(k),
                )).step != Step::Write
        }),
{
    let outs = seq![OutcomeModel::Success, OutcomeModel::Failure(e)] + rest;
    let m0 = init_model(t, u, f);
    assert(outs[0] == OutcomeModel::Success);
    assert(outs[1] == OutcomeModel::Failure(e));
    let m1 = transition(m0, outs[0]);
    let s1 = outs.subrange(1, outs.len() as int);
    assert(run_model(m0, outs) == run_model(m1, s1));
    assert(s1[0] == outs[1]);
    let m2 = transition(m1, s1[0]);
    let s2 = s1.subrange(1, s1.len() as int);
    assert(run_model(m1, s1) == run_model(m2, s2));
    lemma_terminal_absorbs(m2, s2);
    assert(run_model(m0, outs) == m2);
    assert forall|k: int| 0 <= k <= outs.len() implies (#[trigger] run_model(
        m0,
        outs.take(k),
    )).step != Step::Write by {
        let p = outs.take(k);
        if k == 0 {
            assert(p.len() == 0);
            assert(run_model(m0, p) == m0);
        } else if k == 1 {
            assert(p[0] == outs[0]);
            let p1 = p.subrange(1, k);
            assert(run_model(m0, p) == run_model(transition(m0, p[0]), p1));
            assert(p1.len() == 0);
            assert(run_model(m0, p) == m1);
        } else {
            assert(p[0] == outs[0]);
            assert(p[1] == outs[1]);
            let p1 = p.subrange(1, k);
            assert(run_model(m0, p) == run_model(m1, p1));
            assert(p1[0] == p[1]);
            let p2 = p1.subrange(1, p1.len() as int);
            assert(run_model(m1, p1) == run_model(m2, p2));
            lemma_terminal_absorbs(m2, p2);
            assert(run_model(m0, p) == m2);
        }
    }
}

} // verus!
