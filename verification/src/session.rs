//! One request from its admission to its end.
//!
//! A request passes through three stages. While it is [`Pending`] it waits for a slot; once it is
//! [`Admitted`] it holds one and starts a helper; while it is [`Running`] the lines of the helper
//! are read. The caller performs what a stage asks for and hands back what came of it.
use std::io::Error as IoError;
use std::path::PathBuf;
use std::time::Duration;
use serde_json::Error as JsonError;
use tokio::sync::OwnedSemaphorePermit;
use vstd::prelude::*;
use vstd::string::StringExecFns;

use crate::bridge::{whole_seconds, Bridge};
use crate::error::{format_stderr, stderr_suffix, Error, ErrorView};
use crate::events::{
    interpret, line_answers, line_meaning, line_ready, parse_line, read_line, LineView,
};
use crate::text::{decimal, decimal_text, join2};
use crate::types::{
    empty_completion, Completion, CompletionView, EventView, Request, RequestView, StreamEvent,
};
use crate::validate::request_fault;
use crate::wire::{on_the_wire, WireRequest};

verus! {

/// A permit of a `tokio` semaphore. Dropping it gives the slot back.
#[verifier::external_type_specification]
#[verifier::external_body]
pub struct ExOwnedSemaphorePermit(tokio::sync::OwnedSemaphorePermit);

/// Whether an error of the operating system says that the other end of a pipe is gone.
pub uninterp spec fn is_broken_pipe(error: IoError) -> bool;

/// `std::io::Error::kind`, compared with `BrokenPipe`: what it says depends on the error alone.
#[verifier::external_body]
fn broken_pipe(error: &IoError) -> (r: bool)
    ensures
        r == is_broken_pipe(*error),
{
    error.kind() == std::io::ErrorKind::BrokenPipe
}

/// What is wanted of the helper.
#[derive(Debug)]
pub enum Task {
    /// The whole response at once.
    Complete(Request),
    /// The events of the response as they are produced.
    Stream(Request),
    /// Whether the model is ready.
    Probe,
}

/// A [`Task`] as a mathematical value.
pub enum TaskView {
    Complete(RequestView),
    Stream(RequestView),
    Probe,
}

impl View for Task {
    type V = TaskView;

    open spec fn view(&self) -> TaskView {
        match *self {
            Task::Complete(request) => TaskView::Complete(request@),
            Task::Stream(request) => TaskView::Stream(request@),
            Task::Probe => TaskView::Probe,
        }
    }
}

/// Why a task is refused before anything runs, if it is. `is_file` says whether the helper binary
/// is there.
pub open spec fn admission_fault(
    task: TaskView,
    binary: PathBuf,
    is_file: bool,
) -> Option<ErrorView> {
    match task_fault(task) {
        Some(error) => Some(error),
        None => if is_file {
            None
        } else {
            Some(ErrorView::BinaryNotFound(binary))
        },
    }
}

/// What is wrong with a task in itself, if anything is. A structured response is streamed only
/// where snapshots were asked for.
pub open spec fn task_fault(task: TaskView) -> Option<ErrorView> {
    match task {
        TaskView::Complete(request) => request_fault(request),
        TaskView::Stream(request) => match request_fault(request) {
            Some(error) => Some(error),
            None => if request.schema is Some && !request.stream_structured {
                Some(
                    ErrorView::BadRequest(
                        "structured requests cannot be streamed unless `Request::stream_structured(true)` is set; use `complete` instead"@,
                    ),
                )
            } else {
                None
            },
        },
        TaskView::Probe => None,
    }
}

/// A task that waits for a slot.
#[derive(Debug)]
pub struct Pending {
    task: Task,
    binary: PathBuf,
    timeout: Option<Duration>,
}

/// What a stage is about.
pub struct StageView {
    /// What is wanted of the helper.
    pub task: TaskView,
    /// The helper binary.
    pub binary: PathBuf,
    /// How long the request may take.
    pub timeout: Option<Duration>,
}

impl View for Pending {
    type V = StageView;

    closed spec fn view(&self) -> StageView {
        StageView { task: self.task@, binary: self.binary, timeout: self.timeout }
    }
}

/// How a task is admitted to the queue.
pub open spec fn queues(
    r: Result<Pending, Error>,
    bridge: Bridge,
    task: TaskView,
    is_file: bool,
) -> bool {
    match admission_fault(task, bridge@.binary, is_file) {
        Some(fault) => r matches Err(error) && error@ == fault,
        None => r matches Ok(pending) && pending@ == (StageView {
            task,
            binary: bridge@.binary,
            timeout: bridge@.timeout,
        }),
    }
}

impl Bridge {
    /// Whether the helper binary is there, given whether it is a file.
    pub fn ensure_binary(&self, is_file: bool) -> (r: Result<(), Error>)
        ensures
            match r {
                Ok(_) => is_file,
                Err(error) => !is_file && error@ == ErrorView::BinaryNotFound(self@.binary),
            },
    {
        if is_file {
            Ok(())
        } else {
            Err(Error::BinaryNotFound(self.binary_path().clone()))
        }
    }

    /// The stage that a task of this bridge starts in.
    fn pending(&self, task: Task) -> (r: Pending)
        ensures
            r@ == (StageView { task: task@, binary: self@.binary, timeout: self@.timeout }),
    {
        Pending { task, binary: self.binary_path().clone(), timeout: self.time_limit() }
    }

    /// Asks whether Apple Intelligence is usable, without generating anything.
    ///
    /// The probe succeeds where the helper says that the model is ready, and fails with the reason
    /// where it does not.
    ///
    /// Takes a concurrency slot like any other request, so a probe issued while the bridge is
    /// saturated waits its turn instead of adding an extra process.
    pub fn check_availability(&self, is_file: bool) -> (r: Result<Pending, Error>)
        ensures
            queues(r, *self, TaskView::Probe, is_file),
    {
        self.ensure_binary(is_file)?;
        Ok(self.pending(Task::Probe))
    }

    /// Asks for the whole response to a request at once.
    ///
    /// Works for both plain text and structured output. Malformed requests and invalid schemas are
    /// refused here, before a process is spawned.
    pub fn complete(&self, request: Request, is_file: bool) -> (r: Result<Pending, Error>)
        ensures
            queues(r, *self, TaskView::Complete(request@), is_file),
    {
        request.validate()?;
        self.ensure_binary(is_file)?;
        Ok(self.pending(Task::Complete(request)))
    }

    /// Asks for the events of a response as they are produced.
    ///
    /// Text generation streams incrementally. Structured generation streams only when
    /// [`Request::stream_structured`] is enabled; otherwise the caller almost certainly wanted
    /// [`complete`](Self::complete), and silently emitting a single structured event at the end
    /// would hide the mistake.
    pub fn stream(&self, request: Request, is_file: bool) -> (r: Result<Pending, Error>)
        ensures
            queues(r, *self, TaskView::Stream(request@), is_file),
    {
        request.validate()?;
        if request.schema.is_some() && !request.stream_structured {
            return Err(
                Error::BadRequest(
                    "structured requests cannot be streamed unless `Request::stream_structured(true)` is set; use `complete` instead".to_string(),
                ),
            );
        }
        self.ensure_binary(is_file)?;
        Ok(self.pending(Task::Stream(request)))
    }
}

/// How the wait for a slot ended.
#[derive(Debug)]
pub enum SlotOutcome {
    /// A slot came free.
    Granted(OwnedSemaphorePermit),
    /// The time ran out.
    Elapsed,
    /// The limiter hands out no slots any more.
    Closed,
}

/// The time that a request had.
pub open spec fn allotted(timeout: Option<Duration>) -> Duration {
    match timeout {
        Some(limit) => limit,
        None => whole_seconds(0),
    }
}

/// The error of a request that ran out of time.
pub fn timed_out(timeout: Option<Duration>) -> (r: Error)
    ensures
        r@ == ErrorView::Timeout(allotted(timeout)),
{
    match timeout {
        Some(limit) => Error::Timeout(limit),
        None => Error::Timeout(Duration::from_secs(0)),
    }
}

/// Takes the slot that was waited for.
///
/// Queued time is charged against the request timeout: if the bridge is saturated for longer than
/// that, the caller gets [`Error::Timeout`] rather than waiting forever.
pub fn acquire_slot(outcome: SlotOutcome, timeout: Option<Duration>) -> (r: Result<
    OwnedSemaphorePermit,
    Error,
>)
    ensures
        match outcome {
            SlotOutcome::Granted(permit) => r == Ok::<OwnedSemaphorePermit, Error>(permit),
            SlotOutcome::Elapsed => r matches Err(error) && error@ == ErrorView::Timeout(
                allotted(timeout),
            ),
            SlotOutcome::Closed => r matches Err(error) && error@ == ErrorView::Protocol(
                "concurrency limiter was closed"@,
            ),
        },
{
    match outcome {
        SlotOutcome::Granted(permit) => Ok(permit),
        SlotOutcome::Elapsed => Err(timed_out(timeout)),
        SlotOutcome::Closed => Err(Error::Protocol("concurrency limiter was closed".to_string())),
    }
}

/// A task that holds a slot and may start a helper.
#[derive(Debug)]
pub struct Admitted {
    task: Task,
    binary: PathBuf,
    timeout: Option<Duration>,
    permit: OwnedSemaphorePermit,
}

impl View for Admitted {
    type V = StageView;

    closed spec fn view(&self) -> StageView {
        StageView { task: self.task@, binary: self.binary, timeout: self.timeout }
    }
}

impl Admitted {
    /// The slot that the task holds.
    pub closed spec fn permit(self) -> OwnedSemaphorePermit {
        self.permit
    }
}

impl Pending {
    /// How long the request may take.
    pub fn time_limit(&self) -> (r: Option<Duration>)
        ensures
            r == self@.timeout,
    {
        self.timeout
    }

    /// Goes on once the wait for a slot has ended.
    pub fn take_slot(self, outcome: SlotOutcome) -> (r: Result<Admitted, Error>)
        ensures
            match outcome {
                SlotOutcome::Granted(permit) => {
                    &&& r matches Ok(admitted)
                    &&& admitted@ == self@
                    &&& admitted.permit() == permit
                },
                SlotOutcome::Elapsed => r matches Err(error) && error@ == ErrorView::Timeout(
                    allotted(self@.timeout),
                ),
                SlotOutcome::Closed => r matches Err(error) && error@ == ErrorView::Protocol(
                    "concurrency limiter was closed"@,
                ),
            },
    {
        match acquire_slot(outcome, self.timeout) {
            Ok(permit) => Ok(
                Admitted { task: self.task, binary: self.binary, timeout: self.timeout, permit },
            ),
            Err(error) => Err(error),
        }
    }
}

/// What came of starting a helper.
#[derive(Debug)]
pub enum StartOutcome {
    /// The helper runs and has the request.
    Started,
    /// The helper could not be launched.
    SpawnFailed(IoError),
    /// The request could not be encoded.
    EncodeFailed(JsonError),
    /// The request could not be written to the helper.
    WriteFailed(IoError),
    /// The task that writes the request failed, with the given account.
    WriterPanicked(String),
    /// The time ran out.
    Elapsed,
}

/// Why a start is no start, if it is none. A helper that exits before it reads the request is no
/// failure yet: the real reason is in how it exits.
pub open spec fn start_fault(outcome: StartOutcome, stage: StageView) -> Option<ErrorView> {
    match outcome {
        StartOutcome::Started => None,
        StartOutcome::SpawnFailed(source) => Some(ErrorView::Spawn { path: stage.binary, source }),
        StartOutcome::EncodeFailed(source) => Some(ErrorView::Json(source)),
        StartOutcome::WriteFailed(source) => if is_broken_pipe(source) {
            None
        } else {
            Some(ErrorView::Io(source))
        },
        StartOutcome::WriterPanicked(account) => Some(
            ErrorView::Protocol("stdin writer panicked: "@ + account@),
        ),
        StartOutcome::Elapsed => Some(ErrorView::Timeout(allotted(stage.timeout))),
    }
}

/// A task whose helper runs.
#[derive(Debug)]
pub struct Running {
    task: Task,
    timeout: Option<Duration>,
    permit: OwnedSemaphorePermit,
    completion: Completion,
    failure: Option<Error>,
    saw_ready: bool,
    saw_done: bool,
    ended: bool,
}

/// What a run has come to.
pub struct RunView {
    /// What is wanted of the helper.
    pub task: TaskView,
    /// How long the request may take.
    pub timeout: Option<Duration>,
    /// The response so far.
    pub completion: CompletionView,
    /// The failure that a probe reported last.
    pub failure: Option<ErrorView>,
    /// Whether the helper answered a probe.
    pub saw_ready: bool,
    /// Whether the helper said that it is done.
    pub saw_done: bool,
    /// Whether there is nothing more to read.
    pub ended: bool,
}

impl View for Running {
    type V = RunView;

    closed spec fn view(&self) -> RunView {
        RunView {
            task: self.task@,
            timeout: self.timeout,
            completion: self.completion@,
            failure: match self.failure {
                Some(error) => Some(error@),
                None => None,
            },
            saw_ready: self.saw_ready,
            saw_done: self.saw_done,
            ended: self.ended,
        }
    }
}

impl Running {
    /// The slot that the task holds.
    pub closed spec fn permit(self) -> OwnedSemaphorePermit {
        self.permit
    }
}

/// A run of which nothing was read yet.
pub open spec fn fresh_run(stage: StageView) -> RunView {
    RunView {
        task: stage.task,
        timeout: stage.timeout,
        completion: empty_completion(),
        failure: None,
        saw_ready: false,
        saw_done: false,
        ended: false,
    }
}

/// The request that is sent for a task. A response that is wanted at once is streamed by the
/// helper only where it is text: the snapshots of a structured one would be discarded.
pub open spec fn sent_for(task: TaskView) -> Option<crate::wire::WireRequestView> {
    match task {
        TaskView::Complete(request) => Some(on_the_wire(request, request.schema is None)),
        TaskView::Stream(request) => Some(on_the_wire(request, true)),
        TaskView::Probe => None,
    }
}

impl Admitted {
    /// The helper binary to start.
    pub fn binary_path(&self) -> (r: &PathBuf)
        ensures
            *r == self@.binary,
    {
        &self.binary
    }

    /// The request to send to the helper; a probe sends none.
    pub fn wire(&self) -> (r: Option<WireRequest<'_>>)
        ensures
            match r {
                Some(wire) => sent_for(self@.task) == Some(wire@),
                None => sent_for(self@.task) is None,
            },
    {
        match &self.task {
            Task::Complete(request) => {
                let stream = request.schema.is_none();
                Some(WireRequest::new(request, stream))
            },
            Task::Stream(request) => Some(WireRequest::new(request, true)),
            Task::Probe => None,
        }
    }

    /// Whether the task can go on after such a start.
    pub fn accepts(&self, outcome: &StartOutcome) -> (r: bool)
        ensures
            r == (start_fault(*outcome, self@) is None),
    {
        match outcome {
            StartOutcome::Started => true,
            StartOutcome::WriteFailed(source) => broken_pipe(source),
            _ => false,
        }
    }

    /// Goes on once the helper was started.
    pub fn started(self, outcome: StartOutcome) -> (r: Result<Running, Error>)
        ensures
            match start_fault(outcome, self@) {
                Some(fault) => r matches Err(error) && error@ == fault,
                None => {
                    &&& r matches Ok(running)
                    &&& running@ == fresh_run(self@)
                    &&& running.permit() == self.permit()
                },
            },
    {
        match outcome {
            StartOutcome::Started => {},
            StartOutcome::SpawnFailed(source) => {
                return Err(Error::Spawn { path: self.binary, source });
            },
            StartOutcome::EncodeFailed(source) => {
                return Err(Error::Json(source));
            },
            StartOutcome::WriteFailed(source) => {
                if !broken_pipe(&source) {
                    return Err(Error::Io(source));
                }
            },
            StartOutcome::WriterPanicked(account) => {
                return Err(Error::Protocol(join2("stdin writer panicked: ", account.as_str())));
            },
            StartOutcome::Elapsed => {
                return Err(timed_out(self.timeout));
            },
        }
        Ok(
            Running {
                task: self.task,
                timeout: self.timeout,
                permit: self.permit,
                completion: Completion::default(),
                failure: None,
                saw_ready: false,
                saw_done: false,
                ended: false,
            },
        )
    }
}

/// What came of reading a line of the helper.
#[derive(Debug)]
pub enum ReadOutcome {
    /// A line.
    Line(String),
    /// The output is over.
    End,
    /// Reading failed.
    Failed(IoError),
    /// The time ran out.
    Elapsed,
}

/// A [`ReadOutcome`] as a mathematical value.
pub enum ReadView {
    Line(Seq<char>),
    End,
    Failed(IoError),
    Elapsed,
}

impl View for ReadOutcome {
    type V = ReadView;

    open spec fn view(&self) -> ReadView {
        match *self {
            ReadOutcome::Line(line) => ReadView::Line(line@),
            ReadOutcome::End => ReadView::End,
            ReadOutcome::Failed(source) => ReadView::Failed(source),
            ReadOutcome::Elapsed => ReadView::Elapsed,
        }
    }
}

/// What to do after a line was read.
#[derive(Debug, PartialEq)]
pub enum Step {
    /// Read on.
    ReadOn,
    /// Hand out an event, then read on.
    Yield(StreamEvent),
    /// Hand out an event, then wait for the helper to exit.
    YieldLast(StreamEvent),
    /// Wait for the helper to exit.
    Reap,
}

/// A [`Step`] as a mathematical value.
pub enum StepView {
    ReadOn,
    Yield(EventView),
    YieldLast(EventView),
    Reap,
}

impl View for Step {
    type V = StepView;

    open spec fn view(&self) -> StepView {
        match *self {
            Step::ReadOn => StepView::ReadOn,
            Step::Yield(event) => StepView::Yield(event@),
            Step::YieldLast(event) => StepView::YieldLast(event@),
            Step::Reap => StepView::Reap,
        }
    }
}

/// A response with one more event in it.
pub open spec fn with_event(c: CompletionView, event: EventView) -> CompletionView {
    match event {
        EventView::Delta(text) => CompletionView { text: c.text + text, ..c },
        EventView::Snapshot(_) => c,
        EventView::Structured(value) => CompletionView { structured: Some(value), ..c },
        EventView::Done(usage) => CompletionView { usage, ..c },
    }
}

/// What a line does to a run that has not ended, and what to do after it.
pub open spec fn line_step(run: RunView, line: Seq<char>) -> (RunView, Result<StepView, ErrorView>) {
    let meaning = line_meaning(line);
    match run.task {
        TaskView::Complete(_) => match meaning {
            LineView::Nothing => (run, Ok(StepView::ReadOn)),
            LineView::Failure(error) => (run, Err(error)),
            LineView::Event(event) => {
                let done = event is Done;
                (
                    RunView {
                        completion: with_event(run.completion, event),
                        saw_done: run.saw_done || done,
                        ..run
                    },
                    Ok(
                        if done {
                            StepView::Reap
                        } else {
                            StepView::ReadOn
                        },
                    ),
                )
            },
        },
        TaskView::Stream(_) => match meaning {
            LineView::Nothing => (run, Ok(StepView::ReadOn)),
            LineView::Failure(error) => (run, Err(error)),
            LineView::Event(event) => {
                let done = event is Done;
                (
                    RunView { saw_done: run.saw_done || done, ..run },
                    Ok(
                        if done {
                            StepView::YieldLast(event)
                        } else {
                            StepView::Yield(event)
                        },
                    ),
                )
            },
        },
        TaskView::Probe => (
            RunView {
                failure: match meaning {
                    LineView::Failure(error) => Some(error),
                    _ => run.failure,
                },
                saw_ready: run.saw_ready || line_ready(line),
                ..run
            },
            Ok(
                if line_answers(line) {
                    StepView::Reap
                } else {
                    StepView::ReadOn
                },
            ),
        ),
    }
}

/// Whether there is nothing more to read after a step.
pub open spec fn ends(step: Result<StepView, ErrorView>) -> bool {
    match step {
        Ok(StepView::ReadOn) => false,
        Ok(StepView::Yield(_)) => false,
        _ => true,
    }
}

/// What reading does to a run, and what to do after it. A run that has ended stays as it is,
/// whatever is read.
pub open spec fn read_step(run: RunView, read: ReadView) -> (RunView, Result<StepView, ErrorView>) {
    if run.ended {
        (run, Ok(StepView::Reap))
    } else {
        let (next, step) = match read {
            ReadView::Line(line) => line_step(run, line),
            ReadView::End => (run, Ok(StepView::Reap)),
            ReadView::Failed(source) => (run, Err(ErrorView::Io(source))),
            ReadView::Elapsed => (run, Err(ErrorView::Timeout(allotted(run.timeout)))),
        };
        (RunView { ended: ends(step), ..next }, step)
    }
}

/// The outcome of a step as a mathematical value.
pub open spec fn step_view(r: Result<Step, Error>) -> Result<StepView, ErrorView> {
    match r {
        Ok(step) => Ok(step@),
        Err(error) => Err(error@),
    }
}

/// How a helper exited.
#[derive(Debug)]
pub struct Exit {
    /// Whether it exited with status zero.
    pub success: bool,
    /// The signal that killed it, if one did.
    pub signal: Option<i32>,
    /// The code that it exited with, if it did.
    pub code: Option<i32>,
    /// Whatever it wrote to stderr.
    pub stderr: String,
}

/// What came of waiting for a helper to exit.
#[derive(Debug)]
pub enum ReapOutcome {
    /// The helper exited.
    Exited(Exit),
    /// Waiting failed.
    Failed(IoError),
    /// The time ran out.
    Elapsed,
}

/// An exit status in words.
pub open spec fn status_text(signal: Option<i32>, code: Option<i32>) -> Seq<char> {
    match (signal, code) {
        (Some(signal), _) => "killed by signal "@ + decimal(signal as int),
        (None, Some(code)) => "exit code "@ + decimal(code as int),
        (None, None) => "unknown"@,
    }
}

/// An exit status in words.
pub fn describe_status(signal: Option<i32>, code: Option<i32>) -> (r: String)
    ensures
        r@ == status_text(signal, code),
{
    if let Some(signal) = signal {
        return join2("killed by signal ", decimal_text(signal).as_str());
    }
    match code {
        Some(code) => join2("exit code ", decimal_text(code).as_str()),
        None => "unknown".to_string(),
    }
}

/// Why an exit spoils a response, if it does.
pub open spec fn exit_fault(exit: Exit, saw_done: bool) -> Option<ErrorView> {
    if !exit.success {
        Some(
            ErrorView::ProcessFailed {
                status: status_text(exit.signal, exit.code),
                stderr: exit.stderr@,
            },
        )
    } else if !saw_done {
        Some(
            ErrorView::Protocol(
                "FMBridge exited without sending a completion event"@ + stderr_suffix(exit.stderr@),
            ),
        )
    } else {
        None
    }
}

/// Turns the exit of a helper into a verdict on its response.
///
/// A helper that already reported a typed error has been surfaced before; the raw exit counts only
/// where nothing was.
pub fn conclude(exit: Exit, saw_done: bool) -> (r: Result<(), Error>)
    ensures
        match r {
            Ok(_) => exit_fault(exit, saw_done) is None,
            Err(error) => exit_fault(exit, saw_done) == Some(error@),
        },
{
    if !exit.success {
        let status = describe_status(exit.signal, exit.code);
        return Err(Error::ProcessFailed { status, stderr: exit.stderr });
    }
    if !saw_done {
        return Err(
            Error::Protocol(
                join2(
                    "FMBridge exited without sending a completion event",
                    format_stderr(exit.stderr.as_str()).as_str(),
                ),
            ),
        );
    }
    Ok(())
}

/// Why an exit without an answer makes a probe fail.
pub open spec fn unanswered_fault(exit: Exit) -> ErrorView {
    if !exit.success {
        ErrorView::ProcessFailed {
            status: status_text(exit.signal, exit.code),
            stderr: exit.stderr@,
        }
    } else {
        ErrorView::Protocol(
            "FMBridge exited without answering the probe"@ + stderr_suffix(exit.stderr@),
        )
    }
}

/// Turns the exit of a helper that left a probe unanswered into the reason.
pub fn unanswered(exit: Exit) -> (r: Error)
    ensures
        r@ == unanswered_fault(exit),
{
    if !exit.success {
        let status = describe_status(exit.signal, exit.code);
        return Error::ProcessFailed { status, stderr: exit.stderr };
    }
    Error::Protocol(
        join2(
            "FMBridge exited without answering the probe",
            format_stderr(exit.stderr.as_str()).as_str(),
        ),
    )
}

/// Why a run fails at its end, if it does. A probe fails with the failure that was reported; where
/// none was, it succeeds once the helper said that the model is ready, whatever becomes of the
/// helper after that.
pub open spec fn final_fault(run: RunView, reaped: ReapOutcome) -> Option<ErrorView> {
    match run.task {
        TaskView::Probe => if run.failure is Some {
            run.failure
        } else if run.saw_ready {
            None
        } else {
            Some(
                match reaped {
                    ReapOutcome::Exited(exit) => unanswered_fault(exit),
                    ReapOutcome::Failed(source) => ErrorView::Io(source),
                    ReapOutcome::Elapsed => ErrorView::Timeout(allotted(run.timeout)),
                },
            )
        },
        _ => match reaped {
            ReapOutcome::Exited(exit) => exit_fault(exit, run.saw_done),
            ReapOutcome::Failed(source) => Some(ErrorView::Io(source)),
            ReapOutcome::Elapsed => Some(ErrorView::Timeout(allotted(run.timeout))),
        },
    }
}

impl Running {
    /// How long the request may take.
    pub fn time_limit(&self) -> (r: Option<Duration>)
        ensures
            r == self@.timeout,
    {
        self.timeout
    }

    /// Goes on once a line was read. Nothing is read after an error, after the last event, or once
    /// the helper is to be waited for.
    pub fn on_read(&mut self, read: ReadOutcome) -> (r: Result<Step, Error>)
        ensures
            (final(self)@, step_view(r)) == read_step(old(self)@, read@),
            final(self).permit() == old(self).permit(),
    {
        if self.ended {
            return Ok(Step::Reap);
        }
        let step = match read {
            ReadOutcome::Line(line) => self.on_line(line.as_str()),
            ReadOutcome::End => Ok(Step::Reap),
            ReadOutcome::Failed(source) => Err(Error::Io(source)),
            ReadOutcome::Elapsed => Err(timed_out(self.timeout)),
        };
        self.ended = match &step {
            Ok(Step::ReadOn) => false,
            Ok(Step::Yield(_)) => false,
            _ => true,
        };
        step
    }

    /// Goes on with a line.
    fn on_line(&mut self, line: &str) -> (r: Result<Step, Error>)
        ensures
            (final(self)@, step_view(r)) == line_step(old(self)@, line@),
            final(self).permit() == old(self).permit(),
    {
        match &self.task {
            Task::Complete(_) => match parse_line(line) {
                Ok(Some(event)) => Ok(self.collect(event)),
                Ok(None) => Ok(Step::ReadOn),
                Err(error) => Err(error),
            },
            Task::Stream(_) => match parse_line(line) {
                Ok(Some(event)) => {
                    if let StreamEvent::Done(_) = &event {
                        self.saw_done = true;
                        Ok(Step::YieldLast(event))
                    } else {
                        Ok(Step::Yield(event))
                    }
                },
                Ok(None) => Ok(Step::ReadOn),
                Err(error) => Err(error),
            },
            Task::Probe => {
                let mut answered = false;
                if let Some(fields) = read_line(line) {
                    answered = fields.ready;
                    self.saw_ready = self.saw_ready || fields.announces_ready();
                    if let Err(error) = interpret(fields) {
                        self.failure = Some(error);
                    }
                }
                if answered {
                    Ok(Step::Reap)
                } else {
                    Ok(Step::ReadOn)
                }
            },
        }
    }

    /// Puts an event into the response.
    fn collect(&mut self, event: StreamEvent) -> (r: Step)
        ensures
            final(self)@ == (RunView {
                completion: with_event(old(self)@.completion, event@),
                saw_done: old(self)@.saw_done || event@ is Done,
                ..old(self)@
            }),
            final(self).permit() == old(self).permit(),
            r@ == if event@ is Done {
                StepView::Reap
            } else {
                StepView::ReadOn
            },
    {
        match event {
            StreamEvent::Delta(delta) => {
                self.completion.text.append(delta.as_str());
                Step::ReadOn
            },
            StreamEvent::Snapshot(_) => Step::ReadOn,
            StreamEvent::Structured(value) => {
                self.completion.structured = Some(value);
                Step::ReadOn
            },
            StreamEvent::Done(usage) => {
                self.completion.usage = usage;
                self.saw_done = true;
                Step::Reap
            },
        }
    }

    /// Ends the run once the helper has exited: the response, or why there is none. Only a run
    /// that collects a response has something in it.
    pub fn finish(self, reaped: ReapOutcome) -> (r: Result<Completion, Error>)
        ensures
            match final_fault(self@, reaped) {
                Some(fault) => r matches Err(error) && error@ == fault,
                None => r matches Ok(completion) && completion@ == self@.completion,
            },
    {
        match &self.task {
            Task::Probe => match self.failure {
                Some(error) => Err(error),
                None => if self.saw_ready {
                    Ok(self.completion)
                } else {
                    match reaped {
                        ReapOutcome::Exited(exit) => Err(unanswered(exit)),
                        ReapOutcome::Failed(source) => Err(Error::Io(source)),
                        ReapOutcome::Elapsed => Err(timed_out(self.timeout)),
                    }
                },
            },
            _ => match reaped {
                ReapOutcome::Exited(exit) => match conclude(exit, self.saw_done) {
                    Ok(_) => Ok(self.completion),
                    Err(error) => Err(error),
                },
                ReapOutcome::Failed(source) => Err(Error::Io(source)),
                ReapOutcome::Elapsed => Err(timed_out(self.timeout)),
            },
        }
    }
}

} // verus!
