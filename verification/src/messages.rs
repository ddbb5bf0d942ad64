//! The error taxonomy: every failure a download session can hit is surfaced
//! as a human-readable string, a fixed prefix for the step that failed
//! followed by the detail the embedding application reported.

use vstd::prelude::*;
use vstd::string::StringExecFns;

use crate::session::Step;

verus! {

/// The fixed message prefix of a failure at the given step. The two
/// terminal steps never fail, so their prefix is empty.
pub open spec fn failure_prefix_spec(step: Step) -> Seq<char> {
    match step {
        Step::EnsureDir => "Failed to create temp directory: "@,
        Step::Send => "Failed to download file: "@,
        Step::Read => "Failed to read response: "@,
        Step::Create => "Failed to create file: "@,
        Step::Write => "Failed to write file: "@,
        Step::Flush => "Failed to flush file: "@,
        Step::Open => "Failed to open file: "@,
        Step::Done => ""@,
        Step::Failed => ""@,
    }
}

/// The full message of a failure at the given step: its fixed prefix
/// followed by the reported detail.
pub open spec fn failure_message_spec(step: Step, detail: Seq<char>) -> Seq<char> {
    failure_prefix_spec(step) + detail
}

fn failure_prefix(step: Step) -> (r: &'static str)
    ensures
        r@ == failure_prefix_spec(step),
{
    match step {
        Step::EnsureDir => "Failed to create temp directory: ",
        Step::Send => "Failed to download file: ",
        Step::Read => "Failed to read response: ",
        Step::Create => "Failed to create file: ",
        Step::Write => "Failed to write file: ",
        Step::Flush => "Failed to flush file: ",
        Step::Open => "Failed to open file: ",
        Step::Done => "",
        Step::Failed => "",
    }
}

/// Wraps the reported detail of a failure at `step` in that step's message.
pub fn failure_message(step: Step, detail: &str) -> (r: String)
    ensures
        r@ == failure_message_spec(step, detail@),
{
    let mut r = failure_prefix(step).to_owned();
    r.append(detail);
    r
}

} // verus!
