//! Running one command inside a container.
//!
//! The command is created, started attached, its output is collected where
//! the step asks for it, and, where the step is bounded, the daemon is asked
//! at short intervals whether the command still runs. The daemon is spoken to
//! by a driver; what to ask next, and what each answer means, is decided here.

use vstd::prelude::*;
use crate::docker::{PipelineStep, StepView};
use crate::error::{Error, ErrorView};
use crate::text::{clone_texts, concat_all, join_all, texts};

verus! {

/// The pause, in milliseconds, between two questions about a running command.
pub const POLL_INTERVAL_MILLIS: u64 = 20;

/// Where the execution of a command stands.
#[derive(Clone, Copy, Debug, PartialEq, Eq, Structural)]
pub enum ExecStage {
    /// The command is being created.
    Creating,
    /// The command is being started.
    Starting,
    /// The output of the command is being collected.
    Collecting,
    /// The daemon is being asked whether the command still runs.
    Polling,
    /// The command ran when last asked; the next question waits.
    Waiting,
    /// The execution has ended.
    Finished,
}

/// What the daemon says of a command.
#[derive(Clone, Copy, Debug, PartialEq, Eq, Structural)]
pub struct ExecStatus {
    /// Whether the command runs, where the daemon says so.
    pub running: Option<bool>,
    /// The exit status of the command, where the daemon gives one.
    pub exit_code: Option<i64>,
}

/// The execution of one step in one container.
pub struct Execution {
    container: String,
    step: PipelineStep,
    stage: ExecStage,
    exec_id: String,
    log: String,
    failure: Option<Error>,
}

/// What an [`Execution`] denotes.
pub struct ExecutionView {
    /// The name of the container.
    pub container: Seq<char>,
    /// The step that is executed.
    pub step: StepView,
    /// Where the execution stands.
    pub stage: ExecStage,
    /// The identifier that the daemon gave to the command.
    pub exec_id: Seq<char>,
    /// The output collected from the command.
    pub log: Seq<char>,
    /// Why the execution failed, if it did.
    pub failure: Option<ErrorView>,
}

/// What an execution asks of its driver.
#[derive(Debug, PartialEq, Eq)]
pub enum ExecAction {
    /// Create the command, with its output and its errors attached.
    CreateExec {
        container: String,
        working_dir: String,
        command: Vec<String>,
        attach_stdout: bool,
        attach_stderr: bool,
    },
    /// Start the command.
    StartExec { id: String, detach: bool },
    /// Read the output of the command to its end.
    CollectOutput { id: String },
    /// Ask the daemon for the status of the command. The answer is waited
    /// for until the time limit of the command, counted in seconds from the
    /// first such question, is used up, and no longer.
    Inspect { id: String, limit_secs: Option<u64> },
    /// Wait before asking again.
    Sleep { millis: u64 },
    /// Nothing more: this is the output of the command, or why it failed.
    Finished(Result<String, Error>),
}

/// What an [`ExecAction`] denotes.
pub enum ExecActionView {
    CreateExec {
        container: Seq<char>,
        working_dir: Seq<char>,
        command: Seq<Seq<char>>,
        attach_stdout: bool,
        attach_stderr: bool,
    },
    StartExec { id: Seq<char>, detach: bool },
    CollectOutput { id: Seq<char> },
    Inspect { id: Seq<char>, limit_secs: Option<u64> },
    Sleep { millis: u64 },
    Finished(Result<Seq<char>, ErrorView>),
}

impl View for ExecAction {
    type V = ExecActionView;

    open spec fn view(&self) -> ExecActionView {
        match *self {
            ExecAction::CreateExec {
                container,
                working_dir,
                command,
                attach_stdout,
                attach_stderr,
            } => ExecActionView::CreateExec {
                container: container@,
                working_dir: working_dir@,
                command: texts(command@),
                attach_stdout,
                attach_stderr,
            },
            ExecAction::StartExec { id, detach } => ExecActionView::StartExec { id: id@, detach },
            ExecAction::CollectOutput { id } => ExecActionView::CollectOutput { id: id@ },
            ExecAction::Inspect { id, limit_secs } => ExecActionView::Inspect {
                id: id@,
                limit_secs,
            },
            ExecAction::Sleep { millis } => ExecActionView::Sleep { millis },
            ExecAction::Finished(Ok(log)) => ExecActionView::Finished(Ok(log@)),
            ExecAction::Finished(Err(e)) => ExecActionView::Finished(Err(e@)),
        }
    }
}

/// What the driver of an execution answers.
#[derive(Debug, PartialEq, Eq)]
pub enum ExecEvent {
    /// The identifier of the created command, or the daemon's message where
    /// it was not created.
    Created(Result<String, String>),
    /// Whether the started command is attached, or the daemon's message
    /// where it was not started.
    Started(Result<bool, String>),
    /// The output of the command in the pieces in which it came, or the
    /// daemon's message where reading it failed.
    Output(Result<Vec<String>, String>),
    /// The status of the command, or `None` where the daemon gave none, and
    /// the time in milliseconds since the first question about the command.
    Inspected { status: Option<ExecStatus>, elapsed_millis: u64 },
    /// The daemon has not answered the question about the command in the
    /// time that was left for it; `elapsed_millis` is the time in
    /// milliseconds since the first question about the command.
    Unanswered { elapsed_millis: u64 },
    /// The pause is over.
    Slept,
}

/// What an [`ExecEvent`] denotes.
pub enum ExecEventView {
    Created(Result<Seq<char>, Seq<char>>),
    Started(Result<bool, Seq<char>>),
    Output(Result<Seq<Seq<char>>, Seq<char>>),
    Inspected { status: Option<ExecStatus>, elapsed_millis: u64 },
    Unanswered { elapsed_millis: u64 },
    Slept,
}

impl View for ExecEvent {
    type V = ExecEventView;

    open spec fn view(&self) -> ExecEventView {
        match *self {
            ExecEvent::Created(Ok(id)) => ExecEventView::Created(Ok(id@)),
            ExecEvent::Created(Err(m)) => ExecEventView::Created(Err(m@)),
            ExecEvent::Started(Ok(attached)) => ExecEventView::Started(Ok(attached)),
            ExecEvent::Started(Err(m)) => ExecEventView::Started(Err(m@)),
            ExecEvent::Output(Ok(pieces)) => ExecEventView::Output(Ok(texts(pieces@))),
            ExecEvent::Output(Err(m)) => ExecEventView::Output(Err(m@)),
            ExecEvent::Inspected { status, elapsed_millis } => ExecEventView::Inspected {
                status,
                elapsed_millis,
            },
            ExecEvent::Unanswered { elapsed_millis } => ExecEventView::Unanswered {
                elapsed_millis,
            },
            ExecEvent::Slept => ExecEventView::Slept,
        }
    }
}

/// The message of the failure of a command that was started detached.
pub open spec fn not_attached_message() -> Seq<char> {
    "execution not attached"@
}

/// Whether a command that still runs after `elapsed_millis` milliseconds has
/// used up a time limit of `timeout_secs` seconds.
pub open spec fn timed_out(timeout_secs: u64, elapsed_millis: u64) -> bool {
    elapsed_millis >= timeout_secs * 1000
}

impl ExecutionView {
    /// The state in which the execution of `step` in `container` begins.
    pub open spec fn initial(container: Seq<char>, step: StepView) -> ExecutionView {
        ExecutionView {
            container,
            step,
            stage: ExecStage::Creating,
            exec_id: Seq::empty(),
            log: Seq::empty(),
            failure: None,
        }
    }

    /// What the execution asks in this state.
    pub open spec fn pending(self) -> ExecActionView {
        match self.stage {
            ExecStage::Creating => ExecActionView::CreateExec {
                container: self.container,
                working_dir: self.step.working_dir,
                command: self.step.command,
                attach_stdout: true,
                attach_stderr: true,
            },
            ExecStage::Starting => ExecActionView::StartExec { id: self.exec_id, detach: false },
            ExecStage::Collecting => ExecActionView::CollectOutput { id: self.exec_id },
            ExecStage::Polling => ExecActionView::Inspect {
                id: self.exec_id,
                limit_secs: self.step.timeout_secs,
            },
            ExecStage::Waiting => ExecActionView::Sleep { millis: POLL_INTERVAL_MILLIS },
            ExecStage::Finished => ExecActionView::Finished(
                match self.failure {
                    Some(e) => Err(e),
                    None => Ok(self.log),
                },
            ),
        }
    }

    /// The execution ends with the failure `e`.
    pub open spec fn fail(self, e: ErrorView) -> ExecutionView {
        ExecutionView { stage: ExecStage::Finished, failure: Some(e), ..self }
    }

    /// The output is in hand: a bounded step goes on to ask whether the
    /// command still runs, an unbounded one ends.
    pub open spec fn collected(self, log: Seq<char>) -> ExecutionView {
        ExecutionView {
            log,
            stage: if self.step.timeout_secs is Some {
                ExecStage::Polling
            } else {
                ExecStage::Finished
            },
            ..self
        }
    }

    /// The command is not known to have ended after `elapsed_millis`
    /// milliseconds: it has timed out once its time limit is used up, and is
    /// asked about again after a pause before that.
    pub open spec fn unfinished(self, elapsed_millis: u64) -> ExecutionView {
        if self.step.timeout_secs is Some && !timed_out(
            self.step.timeout_secs->0,
            elapsed_millis,
        ) {
            ExecutionView { stage: ExecStage::Waiting, ..self }
        } else {
            self.fail(ErrorView::BuildTimeout)
        }
    }

    /// The state after the answer `event`.
    ///
    /// A command that cannot be created or started, or whose output cannot be
    /// read, fails the build with the daemon's message, and so does one that
    /// is started detached. Of a bounded command: where the daemon cannot be
    /// asked, it has failed, with the output as the log; while it runs, and
    /// while the daemon owes the answer, it has timed out once its time limit
    /// is used up, and is asked about again after a pause before that; once it
    /// no longer runs, it has failed with the output as the log if its exit
    /// status is not zero, and succeeded otherwise. An answer to a question
    /// that was not asked changes nothing.
    pub open spec fn step(self, event: ExecEventView) -> ExecutionView {
        match (self.stage, event) {
            (ExecStage::Creating, ExecEventView::Created(Ok(id))) => ExecutionView {
                exec_id: id,
                stage: ExecStage::Starting,
                ..self
            },
            (ExecStage::Creating, ExecEventView::Created(Err(m))) => self.fail(
                ErrorView::BuildFailure(m),
            ),
            (ExecStage::Starting, ExecEventView::Started(Ok(attached))) => {
                if !attached {
                    self.fail(ErrorView::BuildFailure(not_attached_message()))
                } else if self.step.capture_output {
                    ExecutionView { stage: ExecStage::Collecting, ..self }
                } else {
                    self.collected(Seq::empty())
                }
            },
            (ExecStage::Starting, ExecEventView::Started(Err(m))) => self.fail(
                ErrorView::BuildFailure(m),
            ),
            (ExecStage::Collecting, ExecEventView::Output(Ok(pieces))) => self.collected(
                concat_all(pieces),
            ),
            (ExecStage::Collecting, ExecEventView::Output(Err(m))) => self.fail(
                ErrorView::BuildFailure(m),
            ),
            (ExecStage::Polling, ExecEventView::Inspected { status: None, .. }) => self.fail(
                ErrorView::BuildFailureWithLogs(self.log),
            ),
            (ExecStage::Polling, ExecEventView::Inspected { status: Some(status), elapsed_millis }) => {
                if status.running == Some(true) {
                    self.unfinished(elapsed_millis)
                } else if status.exit_code is Some && status.exit_code->0 != 0 {
                    self.fail(ErrorView::BuildFailureWithLogs(self.log))
                } else {
                    ExecutionView { stage: ExecStage::Finished, ..self }
                }
            },
            (ExecStage::Polling, ExecEventView::Unanswered { elapsed_millis }) => self.unfinished(
                elapsed_millis,
            ),
            (ExecStage::Waiting, ExecEventView::Slept) => ExecutionView {
                stage: ExecStage::Polling,
                ..self
            },
            _ => self,
        }
    }
}

impl View for Execution {
    type V = ExecutionView;

    closed spec fn view(&self) -> ExecutionView {
        ExecutionView {
            container: self.container@,
            step: self.step@,
            stage: self.stage,
            exec_id: self.exec_id@,
            log: self.log@,
            failure: match self.failure {
                Some(e) => Some(e@),
                None => None,
            },
        }
    }
}

/// Begins the execution of `step` in the container `container_name`.
pub fn execute(container_name: &str, step: PipelineStep) -> (out: Execution)
    ensures
        out@ == ExecutionView::initial(container_name@, step@),
{
    Execution {
        container: container_name.to_owned(),
        step,
        stage: ExecStage::Creating,
        exec_id: String::new(),
        log: String::new(),
        failure: None,
    }
}

impl Execution {
    /// Whether the execution has ended.
    pub fn is_finished(&self) -> (out: bool)
        ensures
            out == (self@.stage == ExecStage::Finished),
    {
        self.stage == ExecStage::Finished
    }

    /// What the execution asks of its driver now.
    pub fn next_action(&self) -> (action: ExecAction)
        ensures
            action@ == self@.pending(),
    {
        match self.stage {
            ExecStage::Creating => ExecAction::CreateExec {
                container: self.container.clone(),
                working_dir: self.step.working_dir.clone(),
                command: clone_texts(&self.step.command),
                attach_stdout: true,
                attach_stderr: true,
            },
            ExecStage::Starting => ExecAction::StartExec { id: self.exec_id.clone(), detach: false },
            ExecStage::Collecting => ExecAction::CollectOutput { id: self.exec_id.clone() },
            ExecStage::Polling => ExecAction::Inspect {
                id: self.exec_id.clone(),
                limit_secs: self.step.timeout_secs,
            },
            ExecStage::Waiting => ExecAction::Sleep { millis: POLL_INTERVAL_MILLIS },
            ExecStage::Finished => match &self.failure {
                Some(e) => ExecAction::Finished(Err(e.clone())),
                None => ExecAction::Finished(Ok(self.log.clone())),
            },
        }
    }

    fn fail(&mut self, e: Error)
        ensures
            final(self)@ == old(self)@.fail(e@),
    {
        self.stage = ExecStage::Finished;
        self.failure = Some(e);
    }

    fn unfinished(&mut self, elapsed_millis: u64)
        ensures
            final(self)@ == old(self)@.unfinished(elapsed_millis),
    {
        let in_time = match self.step.timeout_secs {
            Some(limit) => elapsed_millis / 1000 < limit,
            None => false,
        };
        if in_time {
            self.stage = ExecStage::Waiting;
        } else {
            self.fail(Error::BuildTimeout);
        }
    }

    fn collected(&mut self, log: String)
        ensures
            final(self)@ == old(self)@.collected(log@),
    {
        self.log = log;
        self.stage = if self.step.timeout_secs.is_some() {
            ExecStage::Polling
        } else {
            ExecStage::Finished
        };
    }

    /// Takes the answer `event` to what was asked last, and returns what is
    /// asked next (see [`ExecutionView::step`]).
    pub fn step(&mut self, event: ExecEvent) -> (action: ExecAction)
        ensures
            final(self)@ == old(self)@.step(event@),
            action@ == final(self)@.pending(),
    {
        match (self.stage, event) {
            (ExecStage::Creating, ExecEvent::Created(Ok(id))) => {
                self.exec_id = id;
                self.stage = ExecStage::Starting;
            },
            (ExecStage::Creating, ExecEvent::Created(Err(m))) => {
                self.fail(Error::BuildFailure(m));
            },
            (ExecStage::Starting, ExecEvent::Started(Ok(attached))) => {
                if !attached {
                    self.fail(Error::BuildFailure("execution not attached".to_owned()));
                } else if self.step.capture_output {
                    self.stage = ExecStage::Collecting;
                } else {
                    self.collected(String::new());
                }
            },
            (ExecStage::Starting, ExecEvent::Started(Err(m))) => {
                self.fail(Error::BuildFailure(m));
            },
            (ExecStage::Collecting, ExecEvent::Output(Ok(pieces))) => {
                self.collected(join_all(&pieces));
            },
            (ExecStage::Collecting, ExecEvent::Output(Err(m))) => {
                self.fail(Error::BuildFailure(m));
            },
            (ExecStage::Polling, ExecEvent::Inspected { status: None, .. }) => {
                let log = self.log.clone();
                self.fail(Error::BuildFailureWithLogs(log));
            },
            (ExecStage::Polling, ExecEvent::Inspected { status: Some(status), elapsed_millis }) => {
                let runs = match status.running {
                    Some(runs) => runs,
                    None => false,
                };
                if runs {
                    self.unfinished(elapsed_millis);
                } else {
                    let failed = match status.exit_code {
                        Some(code) => code != 0,
                        None => false,
                    };
                    if failed {
                        let log = self.log.clone();
                        self.fail(Error::BuildFailureWithLogs(log));
                    } else {
                        self.stage = ExecStage::Finished;
                    }
                }
            },
            (ExecStage::Polling, ExecEvent::Unanswered { elapsed_millis }) => {
                self.unfinished(elapsed_millis);
            },
            (ExecStage::Waiting, ExecEvent::Slept) => {
                self.stage = ExecStage::Polling;
            },
            _ => {},
        }
        self.next_action()
    }
}

/// Running out of time and failing are told apart. Of a bounded command that
/// the daemon is being asked about: if it still runs when its time limit is
/// used up, the execution ends with a timeout; if it has ended with an exit
/// status other than zero, the execution ends with a build failure that
/// carries the output. The two are different errors.
pub proof fn lemma_timeout_differs_from_failure(
    s: ExecutionView,
    exit_code: i64,
    elapsed_millis: u64,
    late_millis: u64,
)
    requires
        s.stage == ExecStage::Polling,
        s.step.timeout_secs is Some,
        timed_out(s.step.timeout_secs->0, late_millis),
        exit_code != 0,
    ensures
        s.step(
            ExecEventView::Inspected {
                status: Some(ExecStatus { running: Some(true), exit_code: None }),
                elapsed_millis: late_millis,
            },
        ).pending() == ExecActionView::Finished(Err(ErrorView::BuildTimeout)),
        s.step(
            ExecEventView::Inspected {
                status: Some(ExecStatus { running: Some(false), exit_code: Some(exit_code) }),
                elapsed_millis,
            },
        ).pending() == ExecActionView::Finished(Err(ErrorView::BuildFailureWithLogs(s.log))),
        ErrorView::BuildTimeout != ErrorView::BuildFailureWithLogs(s.log),
{
}

/// A daemon that does not answer cannot keep a bounded command from ending:
/// once the time limit is used up without an answer, the execution ends with
/// a timeout.
pub proof fn lemma_a_silent_daemon_times_out(s: ExecutionView, late_millis: u64)
    requires
        s.stage == ExecStage::Polling,
        s.step.timeout_secs matches Some(limit) ==> timed_out(limit, late_millis),
    ensures
        s.step(ExecEventView::Unanswered { elapsed_millis: late_millis }).pending()
            == ExecActionView::Finished(Err(ErrorView::BuildTimeout)),
{
}

/// A finished execution stays as it is, whatever the driver answers.
pub proof fn lemma_finished_is_final(s: ExecutionView, event: ExecEventView)
    requires
        s.stage == ExecStage::Finished,
    ensures
        s.step(event) == s,
{
}

} // verus!
