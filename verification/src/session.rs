//! The download-and-open session: a state machine over the steps of one
//! call. The session owns every decision of the control flow — which step
//! comes next, which destination path is written, which message wraps a
//! failure — while the embedding application performs the I/O that each
//! step asks for and reports how it went.
//!
//! A session moves through the steps in a fixed linear order: create the
//! temporary directory, send the request, read the body, create the
//! destination file, write the body to it, flush it, open it. The first
//! failure aborts the remaining steps; there is no retry and no rollback.

use vstd::prelude::*;

use crate::messages::failure_message;
use crate::messages::failure_message_spec;
use crate::paths::dest_path;
use crate::paths::dest_path_spec;

verus! {

/// The step a session is at. The seven I/O steps come in the order they
/// are declared in; `Done` and `Failed` are terminal.
#[derive(Clone, Copy, Debug, PartialEq, Eq, Structural)]
pub enum Step {
    /// Create the temporary directory (idempotently).
    EnsureDir,
    /// Send the HTTP GET request.
    Send,
    /// Read the full response body.
    Read,
    /// Create the destination file.
    Create,
    /// Write the body to the destination file.
    Write,
    /// Flush the destination file.
    Flush,
    /// Hand the destination file to the OS default handler.
    Open,
    /// The call succeeded; the destination path is its result.
    Done,
    /// A step failed; the wrapped message is the call's result.
    Failed,
}

/// The position of a step in the fixed order. `Done` and `Failed` sort
/// after every I/O step.
pub open spec fn step_index(step: Step) -> int {
    match step {
        Step::EnsureDir => 0,
        Step::Send => 1,
        Step::Read => 2,
        Step::Create => 3,
        Step::Write => 4,
        Step::Flush => 5,
        Step::Open => 6,
        Step::Done => 7,
        Step::Failed => 8,
    }
}

/// Whether the step still asks the application for I/O.
pub open spec fn is_io_step(step: Step) -> bool {
    step != Step::Done && step != Step::Failed
}

/// The step that follows a successful I/O step; terminal steps stay put.
pub open spec fn next_step(step: Step) -> Step {
    match step {
        Step::EnsureDir => Step::Send,
        Step::Send => Step::Read,
        Step::Read => Step::Create,
        Step::Create => Step::Write,
        Step::Write => Step::Flush,
        Step::Flush => Step::Open,
        Step::Open => Step::Done,
        Step::Done => Step::Done,
        Step::Failed => Step::Failed,
    }
}

/// How one I/O step went, reported by the application: plain success,
/// success that produced the response body, or failure with a detail.
#[derive(Debug, PartialEq, Eq)]
pub enum Outcome {
    Success,
    Body(Vec<u8>),
    Failure(String),
}

/// The mathematical value of an [`Outcome`].
pub enum OutcomeModel {
    Success,
    Body(Seq<u8>),
    Failure(Seq<char>),
}

impl View for Outcome {
    type V = OutcomeModel;

    open spec fn view(&self) -> OutcomeModel {
        match self {
            Outcome::Success => OutcomeModel::Success,
            Outcome::Body(b) => OutcomeModel::Body(b@),
            Outcome::Failure(e) => OutcomeModel::Failure(e@),
        }
    }
}

/// What the application must do next for the session. Every payload the
/// application needs — the directory, the URL, the destination path, the
/// bytes to write — is handed out here, so the application holds no logic
/// of its own.
#[derive(Debug, PartialEq, Eq)]
pub enum Action {
    /// Create this directory, succeeding if it already exists.
    CreateDirAll(String),
    /// Send an HTTP GET request to this URL.
    HttpGet(String),
    /// Read the full body of the response.
    ReadBody,
    /// Create (or truncate) the file at this path.
    CreateFile(String),
    /// Write these bytes to the created file.
    WriteFile(Vec<u8>),
    /// Flush the created file.
    FlushFile,
    /// Spawn the OS default handler on this path, detached.
    SpawnOpen(String),
    /// The session is over; return this result to the caller.
    Finish(Result<String, String>),
}

/// The mathematical value of an [`Action`].
pub enum ActionModel {
    CreateDirAll(Seq<char>),
    HttpGet(Seq<char>),
    ReadBody,
    CreateFile(Seq<char>),
    WriteFile(Seq<u8>),
    FlushFile,
    SpawnOpen(Seq<char>),
    Finish(Result<Seq<char>, Seq<char>>),
}

impl View for Action {
    type V = ActionModel;

    open spec fn view(&self) -> ActionModel {
        match self {
            Action::CreateDirAll(d) => ActionModel::CreateDirAll(d@),
            Action::HttpGet(u) => ActionModel::HttpGet(u@),
            Action::ReadBody => ActionModel::ReadBody,
            Action::CreateFile(p) => ActionModel::CreateFile(p@),
            Action::WriteFile(b) => ActionModel::WriteFile(b@),
            Action::FlushFile => ActionModel::FlushFile,
            Action::SpawnOpen(p) => ActionModel::SpawnOpen(p@),
            Action::Finish(r) => match r {
                Ok(p) => ActionModel::Finish(Ok(p@)),
                Err(e) => ActionModel::Finish(Err(e@)),
            },
        }
    }
}

/// The mathematical state of a session: the three inputs of the call, the
/// step it is at, the body fetched so far, and the failure message if a
/// step failed.
#[verifier::ext_equal]
pub struct Model {
    pub temp_dir: Seq<char>,
    pub url: Seq<char>,
    pub file_name: Seq<char>,
    pub step: Step,
    pub body: Option<Seq<u8>>,
    pub error: Option<Seq<char>>,
}

/// The state a fresh session starts in.
pub open spec fn init_model(temp_dir: Seq<char>, url: Seq<char>, file_name: Seq<char>) -> Model {
    Model {
        temp_dir: temp_dir,
        url: url,
        file_name: file_name,
        step: Step::EnsureDir,
        body: None,
        error: None,
    }
}

/// A session state is well formed when it carries a failure message
/// exactly at the `Failed` step, and carries the response body from the
/// moment the body was read (the `Create` step) onwards.
pub open spec fn wf_model(m: Model) -> bool {
    &&& (m.step == Step::Failed <==> m.error is Some)
    &&& (3 <= step_index(m.step) && m.step != Step::Failed ==> m.body is Some)
}

/// Whether an outcome is one the session's current step can produce: a
/// body only from the `Read` step, plain success and failure from any I/O
/// step, and nothing from a terminal step.
pub open spec fn outcome_fits(step: Step, o: OutcomeModel) -> bool {
    match o {
        OutcomeModel::Success => is_io_step(step) && step != Step::Read,
        OutcomeModel::Body(b) => step == Step::Read,
        OutcomeModel::Failure(e) => is_io_step(step),
    }
}

/// How a session state advances on an outcome: success moves to the next
/// step (recording the body when one was read), and a failure moves to
/// `Failed` carrying the failed step's message around the reported detail.
pub open spec fn transition(m: Model, o: OutcomeModel) -> Model {
    match o {
        OutcomeModel::Success => Model {
            temp_dir: m.temp_dir,
            url: m.url,
            file_name: m.file_name,
            step: next_step(m.step),
            body: m.body,
            error: m.error,
        },
        OutcomeModel::Body(b) => Model {
            temp_dir: m.temp_dir,
            url: m.url,
            file_name: m.file_name,
            step: next_step(m.step),
            body: Some(b),
            error: m.error,
        },
        OutcomeModel::Failure(e) => Model {
            temp_dir: m.temp_dir,
            url: m.url,
            file_name: m.file_name,
            step: Step::Failed,
            body: m.body,
            error: Some(failure_message_spec(m.step, e)),
        },
    }
}

/// The action a session state asks of the application.
pub open spec fn action_for(m: Model) -> ActionModel {
    match m.step {
        Step::EnsureDir => ActionModel::CreateDirAll(m.temp_dir),
        Step::Send => ActionModel::HttpGet(m.url),
        Step::Read => ActionModel::ReadBody,
        Step::Create => ActionModel::CreateFile(dest_path_spec(m.temp_dir, m.file_name)),
        Step::Write => ActionModel::WriteFile(m.body.unwrap()),
        Step::Flush => ActionModel::FlushFile,
        Step::Open => ActionModel::SpawnOpen(dest_path_spec(m.temp_dir, m.file_name)),
        Step::Done => ActionModel::Finish(Ok(dest_path_spec(m.temp_dir, m.file_name))),
        Step::Failed => ActionModel::Finish(Err(m.error.unwrap())),
    }
}

/// The state a session reaches after a sequence of outcomes, one per
/// step in order. The run stops early at an outcome the current step
/// cannot produce — in particular at any outcome after a terminal step.
pub open spec fn run_model(m: Model, outs: Seq<OutcomeModel>) -> Model
    decreases outs.len(),
{
    if outs.len() == 0 {
        m
    } else if !outcome_fits(m.step, outs[0]) {
        m
    } else {
        run_model(transition(m, outs[0]), outs.subrange(1, outs.len() as int))
    }
}

/// One download-and-open call in progress. See the module doc: the
/// session decides, the application performs.
pub struct Session {
    temp_dir: String,
    url: String,
    file_name: String,
    step: Step,
    body: Option<Vec<u8>>,
    error: Option<String>,
}

impl View for Session {
    type V = Model;

    closed spec fn view(&self) -> Model {
        Model {
            temp_dir: self.temp_dir@,
            url: self.url@,
            file_name: self.file_name@,
            step: self.step,
            body: match self.body {
                Some(b) => Some(b@),
                None => None,
            },
            error: match self.error {
                Some(e) => Some(e@),
                None => None,
            },
        }
    }
}

impl Session {
    /// Well-formedness of the session's state.
    pub open spec fn wf(&self) -> bool {
        wf_model(self@)
    }

    /// Starts a session for one call: download `url` into
    /// `<temp_dir>/<file_name>` and open the result.
    pub fn new(temp_dir: String, url: String, file_name: String) -> (s: Session)
        ensures
            s.wf(),
            s@ == init_model(temp_dir@, url@, file_name@),
    {
        Session {
            temp_dir: temp_dir,
            url: url,
            file_name: file_name,
            step: Step::EnsureDir,
            body: None,
            error: None,
        }
    }

    /// The step the session is at.
    pub fn step(&self) -> (s: Step)
        ensures
            s == self@.step,
    {
        self.step
    }

    /// What the application must do next.
    pub fn current_action(&self) -> (a: Action)
        requires
            self.wf(),
        ensures
            a@ == action_for(self@),
    {
        match self.step {
            Step::EnsureDir => Action::CreateDirAll(self.temp_dir.clone()),
            Step::Send => Action::HttpGet(self.url.clone()),
            Step::Read => Action::ReadBody,
            Step::Create => Action::CreateFile(
                dest_path(self.temp_dir.as_str(), self.file_name.as_str()),
            ),
            Step::Write => match &self.body {
                Some(b) => Action::WriteFile(clone_bytes(b)),
                None => {
                    proof {
                        assert(false);
                    }
                    Action::ReadBody
                },
            },
            Step::Flush => Action::FlushFile,
            Step::Open => Action::SpawnOpen(
                dest_path(self.temp_dir.as_str(), self.file_name.as_str()),
            ),
            Step::Done => Action::Finish(
                Ok(dest_path(self.temp_dir.as_str(), self.file_name.as_str())),
            ),
            Step::Failed => match &self.error {
                Some(e) => Action::Finish(Err(e.clone())),
                None => {
                    proof {
                        assert(false);
                    }
                    Action::ReadBody
                },
            },
        }
    }

    /// Feeds the outcome of the step the application just performed back
    /// into the session, which advances as [`transition`] says.
    pub fn apply(&mut self, outcome: Outcome)
        requires
            old(self).wf(),
            outcome_fits(old(self)@.step, outcome@),
        ensures
            final(self).wf(),
            final(self)@ == transition(old(self)@, outcome@),
    {
        match outcome {
            Outcome::Success => {
                self.step = advance(self.step);
            },
            Outcome::Body(b) => {
                self.body = Some(b);
                self.step = advance(self.step);
            },
            Outcome::Failure(e) => {
                let msg = failure_message(self.step, e.as_str());
                self.error = Some(msg);
                self.step = Step::Failed;
            },
        }
    }
}

/// The executable mirror of [`next_step`].
fn advance(step: Step) -> (r: Step)
    ensures
        r == next_step(step),
{
    match step {
        Step::EnsureDir => Step::Send,
        Step::Send => Step::Read,
        Step::Read => Step::Create,
        Step::Create => Step::Write,
        Step::Write => Step::Flush,
        Step::Flush => Step::Open,
        Step::Open => Step::Done,
        Step::Done => Step::Done,
        Step::Failed => Step::Failed,
    }
}

/// An element-for-element copy of the fetched bytes.
fn clone_bytes(b: &Vec<u8>) -> (r: Vec<u8>)
    ensures
        r@ == b@,
{
    let mut r: Vec<u8> = Vec::new();
    let mut i: usize = 0;
    while i < b.len()
        invariant
            i <= b.len(),
            r@ == b@.subrange(0, i as int),
        decreases b.len() - i,
    {
        r.push(b[i]);
        proof {
            assert(b@.subrange(0, i + 1 as int) =~= b@.subrange(0, i as int).push(b@[i as int]));
        }
        i = i + 1;
    }
    proof {
        assert(b@.subrange(0, b@.len() as int) =~= b@);
    }
    r
}

} // verus!
