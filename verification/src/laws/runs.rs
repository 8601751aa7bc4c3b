//! Laws on how a request goes from its admission to its end.
use std::path::PathBuf;
use std::time::Duration;
use vstd::prelude::*;

use crate::bridge::{whole_seconds, Bridge};
use crate::error::{Error, ErrorView};
use crate::events::{line_answers, line_meaning, line_ready, LineView};
use crate::laws::errors::stderr_is_set_off_where_there_is_any;
use crate::laws::lines::{
    every_delta_is_a_chunk, line_holds, only_done_ends_a_response, says, says_done, says_something,
    JsonMembers,
};
use crate::session::{
    admission_fault, allotted, ends, exit_fault, final_fault, fresh_run, is_broken_pipe, queues,
    read_step, start_fault, status_text, step_view, task_fault, unanswered_fault, Exit, Pending,
    ReadOutcome, ReadView, ReapOutcome, RunView, StageView, StartOutcome, Step, StepView, Task,
    TaskView,
};
use crate::text::{blank, decimal, trimmed};
use crate::transcript::{
    a_response_is_what_its_helper_said, a_stream_hands_out_what_is_heard, delta_text, ends_done,
    events_heard, failure_heard, last_failure, last_structured, outcome, ready_heard, transcript,
};
use crate::types::{CompletionView, EventView, RequestView};
use crate::validate::request_fault;

verus! {

/// A task that is admitted is queued as it is, with the helper and the timeout of its bridge; a
/// task that is refused gives its fault.
pub proof fn admitted_tasks_are_queued_as_they_are(
    r: Result<Pending, Error>,
    bridge: Bridge,
    task: TaskView,
    is_file: bool,
)
    requires
        queues(r, bridge, task, is_file),
    ensures
        r is Ok <==> task_fault(task) is None && is_file,
        r matches Ok(pending) ==> {
            &&& pending@.task == task
            &&& pending@.binary == bridge@.binary
            &&& pending@.timeout == bridge@.timeout
        },
        r matches Err(error) ==> match task_fault(task) {
            Some(fault) => error@ == fault,
            None => error@ == ErrorView::BinaryNotFound(bridge@.binary),
        },
{
}

/// A task is refused for what is wrong with its request, then for streaming an object that was not
/// opted into, then for a helper that is not there; a probe only for the last.
pub proof fn tasks_are_refused_for_the_first_complaint(
    request: RequestView,
    binary: PathBuf,
    is_file: bool,
)
    ensures
        task_fault(TaskView::Probe) is None,
        task_fault(TaskView::Complete(request)) == request_fault(request),
        request_fault(request) is Some ==> task_fault(TaskView::Stream(request)) == request_fault(
            request,
        ),
        request_fault(request) is None && request.schema is Some && !request.stream_structured
            ==> task_fault(TaskView::Stream(request)) == Some(
            ErrorView::BadRequest(
                "structured requests cannot be streamed unless `Request::stream_structured(true)` is set; use `complete` instead"@,
            ),
        ),
        request_fault(request) is None && (request.schema is None || request.stream_structured)
            ==> task_fault(TaskView::Stream(request)) is None,
        admission_fault(TaskView::Probe, binary, is_file) is None <==> is_file,
        forall|task: TaskView|
            task_fault(task) is None && !is_file ==> #[trigger] admission_fault(
                task,
                binary,
                is_file,
            ) == Some(ErrorView::BinaryNotFound(binary)),
{
}

/// The time that a request had is what was allowed.
pub proof fn the_time_is_what_was_allowed(limit: Duration)
    ensures
        allotted(Some(limit)) == limit,
        allotted(None) == whole_seconds(0),
{
}

/// A start that went wrong says how; one that only failed to write because the helper was gone
/// goes on, and so does one that worked.
pub proof fn starts_say_what_went_wrong(
    stage: StageView,
    source: std::io::Error,
    json: serde_json::Error,
    account: String,
)
    ensures
        start_fault(StartOutcome::Started, stage) is None,
        start_fault(StartOutcome::SpawnFailed(source), stage) == Some(
            ErrorView::Spawn { path: stage.binary, source },
        ),
        start_fault(StartOutcome::EncodeFailed(json), stage) == Some(ErrorView::Json(json)),
        is_broken_pipe(source) ==> start_fault(StartOutcome::WriteFailed(source), stage) is None,
        !is_broken_pipe(source) ==> start_fault(StartOutcome::WriteFailed(source), stage) == Some(
            ErrorView::Io(source),
        ),
        start_fault(StartOutcome::WriterPanicked(account), stage) == Some(
            ErrorView::Protocol("stdin writer panicked: "@ + account@),
        ),
        stage.timeout matches Some(limit) ==> start_fault(StartOutcome::Elapsed, stage) == Some(
            ErrorView::Timeout(limit),
        ),
{
}

/// A run of which nothing was read has nothing in it, and it is the run of its task.
pub proof fn a_fresh_run_has_nothing_in_it(stage: StageView)
    ensures
        fresh_run(stage).task == stage.task,
        fresh_run(stage).timeout == stage.timeout,
        fresh_run(stage).completion.text.len() == 0,
        fresh_run(stage).completion.structured is None,
        fresh_run(stage).completion.usage.prompt_tokens == 0,
        fresh_run(stage).completion.usage.completion_tokens == 0,
        fresh_run(stage).failure is None,
        !fresh_run(stage).saw_ready,
        !fresh_run(stage).saw_done,
        !fresh_run(stage).ended,
{
}

/// Whether a run goes on as it was but for its response.
pub open spec fn goes_on_with(run: RunView, next: RunView, completion: CompletionView) -> bool {
    &&& next.task == run.task
    &&& next.timeout == run.timeout
    &&& next.completion == completion
    &&& next.failure == run.failure
    &&& next.saw_ready == run.saw_ready
}

/// A run that collects a response adds every chunk to the end of its text, takes the latest object,
/// skips snapshots and what means nothing, takes the usage at the end and reads no further, and
/// fails with the failure that a line reports.
pub proof fn collecting_takes_a_line_for_what_it_means(run: RunView, line: Seq<char>)
    requires
        run.task is Complete,
        !run.ended,
    ensures
        ({
            let (next, step) = read_step(run, ReadView::Line(line));
            let c = run.completion;
            match line_meaning(line) {
                LineView::Nothing => goes_on_with(run, next, c) && step == Ok::<
                    StepView,
                    ErrorView,
                >(StepView::ReadOn) && !next.ended && next.saw_done == run.saw_done,
                LineView::Failure(error) => goes_on_with(run, next, c) && step == Err::<
                    StepView,
                    ErrorView,
                >(error) && next.ended && next.saw_done == run.saw_done,
                LineView::Event(EventView::Delta(text)) => goes_on_with(
                    run,
                    next,
                    CompletionView {
                        text: c.text + text,
                        structured: c.structured,
                        usage: c.usage,
                    },
                ) && step == Ok::<StepView, ErrorView>(StepView::ReadOn) && !next.ended
                    && next.saw_done == run.saw_done,
                LineView::Event(EventView::Snapshot(_)) => goes_on_with(run, next, c) && step
                    == Ok::<StepView, ErrorView>(StepView::ReadOn) && !next.ended && next.saw_done
                    == run.saw_done,
                LineView::Event(EventView::Structured(value)) => goes_on_with(
                    run,
                    next,
                    CompletionView { text: c.text, structured: Some(value), usage: c.usage },
                ) && step == Ok::<StepView, ErrorView>(StepView::ReadOn) && !next.ended
                    && next.saw_done == run.saw_done,
                LineView::Event(EventView::Done(usage)) => goes_on_with(
                    run,
                    next,
                    CompletionView { text: c.text, structured: c.structured, usage },
                ) && step == Ok::<StepView, ErrorView>(StepView::Reap) && next.ended
                    && next.saw_done,
            }
        }),
{
}

/// A run that streams hands out every event as it is, skips what means nothing, reads no further
/// after the event that ends the response, and fails with the failure that a line reports.
pub proof fn streaming_takes_a_line_for_what_it_means(run: RunView, line: Seq<char>)
    requires
        run.task is Stream,
        !run.ended,
    ensures
        ({
            let (next, step) = read_step(run, ReadView::Line(line));
            &&& goes_on_with(run, next, run.completion)
            &&& match line_meaning(line) {
                LineView::Nothing => step == Ok::<StepView, ErrorView>(StepView::ReadOn)
                    && !next.ended && next.saw_done == run.saw_done,
                LineView::Failure(error) => step == Err::<StepView, ErrorView>(error) && next.ended
                    && next.saw_done == run.saw_done,
                LineView::Event(EventView::Done(usage)) => step == Ok::<StepView, ErrorView>(
                    StepView::YieldLast(EventView::Done(usage)),
                ) && next.ended && next.saw_done,
                LineView::Event(event) => step == Ok::<StepView, ErrorView>(StepView::Yield(event))
                    && !next.ended && next.saw_done == run.saw_done,
            }
        }),
{
}

/// A probe keeps the latest failure, stops at the answer, and takes the answer for a good one
/// exactly where it reports no failure.
pub proof fn probing_takes_a_line_for_what_it_means(run: RunView, line: Seq<char>)
    requires
        run.task is Probe,
        !run.ended,
    ensures
        ({
            let (next, step) = read_step(run, ReadView::Line(line));
            &&& next.task == run.task && next.timeout == run.timeout && next.completion
                == run.completion && next.saw_done == run.saw_done
            &&& line_meaning(line) matches LineView::Failure(error) ==> next.failure == Some(error)
            &&& !(line_meaning(line) is Failure) ==> next.failure == run.failure
            &&& next.saw_ready <==> run.saw_ready || line_ready(line)
            &&& next.ended <==> line_answers(line)
            &&& line_answers(line) ==> step == Ok::<StepView, ErrorView>(StepView::Reap)
            &&& !line_answers(line) ==> step == Ok::<StepView, ErrorView>(StepView::ReadOn)
        }),
{
}

/// Any run ends where its output is over, where reading fails, and where the time runs out, and its
/// response stays as it is.
pub proof fn runs_end_where_there_is_nothing_to_read(run: RunView, source: std::io::Error)
    requires
        !run.ended,
    ensures
        ({
            let (next, step) = read_step(run, ReadView::End);
            goes_on_with(run, next, run.completion) && next.ended && next.saw_done == run.saw_done
                && step == Ok::<StepView, ErrorView>(StepView::Reap)
        }),
        ({
            let (next, step) = read_step(run, ReadView::Failed(source));
            goes_on_with(run, next, run.completion) && next.ended && next.saw_done == run.saw_done
                && step == Err::<StepView, ErrorView>(ErrorView::Io(source))
        }),
        ({
            let (next, step) = read_step(run, ReadView::Elapsed);
            goes_on_with(run, next, run.completion) && next.ended && next.saw_done == run.saw_done
                && (run.timeout matches Some(limit) ==> step == Err::<StepView, ErrorView>(
                ErrorView::Timeout(limit),
            ))
        }),
{
}

/// A run that has ended stays as it is.
pub proof fn ended_runs_stay_as_they_are(run: RunView, read: ReadView)
    requires
        run.ended,
    ensures
        read_step(run, read).0 == run,
        read_step(run, read).1 == Ok::<StepView, ErrorView>(StepView::Reap),
{
}

/// Reading goes on after a step that says so and after an event that is not the last; no other.
pub proof fn steps_end_unless_they_go_on(step: Result<StepView, ErrorView>)
    ensures
        !ends(step) <==> {
            ||| step == Ok::<StepView, ErrorView>(StepView::ReadOn)
            ||| step matches Ok(StepView::Yield(_))
        },
{
}

/// What was read, what to do, and what is wanted are what they hold.
pub proof fn outcomes_are_what_they_hold(
    read: ReadOutcome,
    step: Step,
    error: Error,
    task: Task,
)
    ensures
        match read {
            ReadOutcome::Line(line) => read@ == ReadView::Line(line@),
            ReadOutcome::End => read@ == ReadView::End,
            ReadOutcome::Failed(source) => read@ == ReadView::Failed(source),
            ReadOutcome::Elapsed => read@ == ReadView::Elapsed,
        },
        match step {
            Step::ReadOn => step@ == StepView::ReadOn,
            Step::Yield(event) => step@ == StepView::Yield(event@),
            Step::YieldLast(event) => step@ == StepView::YieldLast(event@),
            Step::Reap => step@ == StepView::Reap,
        },
        match task {
            Task::Complete(request) => task@ == TaskView::Complete(request@),
            Task::Stream(request) => task@ == TaskView::Stream(request@),
            Task::Probe => task@ == TaskView::Probe,
        },
        step_view(Ok(step)) == Ok::<StepView, ErrorView>(step@),
        step_view(Err(error)) == Err::<StepView, ErrorView>(error@),
{
}

/// An exit status names the signal where there was one, else the code, as a number.
pub proof fn statuses_name_the_signal_or_the_code(signal: i32, code: i32, any: Option<i32>)
    ensures
        status_text(Some(signal), any) == "killed by signal "@ + decimal(signal as int),
        status_text(None, Some(code)) == "exit code "@ + decimal(code as int),
        status_text(None, None) == "unknown"@,
{
}

/// A response stands where the helper exited with status zero after it said that it is done. A bad
/// exit is reported with its status and all of stderr; a good one before the end as such, with
/// whatever stderr says.
pub proof fn exits_say_why_a_response_does_not_stand(exit: Exit, saw_done: bool)
    ensures
        exit_fault(exit, saw_done) is None <==> exit.success && saw_done,
        !exit.success ==> exit_fault(exit, saw_done) == Some(
            ErrorView::ProcessFailed {
                status: status_text(exit.signal, exit.code),
                stderr: exit.stderr@,
            },
        ),
        exit.success && !saw_done && blank(exit.stderr@) ==> exit_fault(exit, saw_done) == Some(
            ErrorView::Protocol("FMBridge exited without sending a completion event"@),
        ),
        exit.success && !saw_done && !blank(exit.stderr@) ==> exit_fault(exit, saw_done) == Some(
            ErrorView::Protocol(
                "FMBridge exited without sending a completion event"@ + seq![':', ' '] + trimmed(
                    exit.stderr@,
                ),
            ),
        ),
        !exit.success ==> unanswered_fault(exit) == (ErrorView::ProcessFailed {
            status: status_text(exit.signal, exit.code),
            stderr: exit.stderr@,
        }),
        exit.success && blank(exit.stderr@) ==> unanswered_fault(exit) == ErrorView::Protocol(
            "FMBridge exited without answering the probe"@,
        ),
        exit.success && !blank(exit.stderr@) ==> unanswered_fault(exit) == ErrorView::Protocol(
            "FMBridge exited without answering the probe"@ + seq![':', ' '] + trimmed(exit.stderr@),
        ),
{
    stderr_is_set_off_where_there_is_any(exit.stderr@);
    let done = "FMBridge exited without sending a completion event"@;
    let asked = "FMBridge exited without answering the probe"@;
    let suffix = crate::error::stderr_suffix(exit.stderr@);
    if blank(exit.stderr@) {
        assert(done + suffix =~= done);
        assert(asked + suffix =~= asked);
    } else {
        assert(done + suffix =~= done + seq![':', ' '] + trimmed(exit.stderr@));
        assert(asked + suffix =~= asked + seq![':', ' '] + trimmed(exit.stderr@));
    }
}

/// At its end a run is judged by the exit, by the wait that failed, or by the time that ran out; a
/// probe first by the failure that it kept, and by none of these once it had a good answer.
pub proof fn runs_are_judged_at_their_end(run: RunView, exit: Exit, source: std::io::Error)
    ensures
        !(run.task is Probe) ==> {
            &&& final_fault(run, ReapOutcome::Exited(exit)) == exit_fault(exit, run.saw_done)
            &&& final_fault(run, ReapOutcome::Failed(source)) == Some(ErrorView::Io(source))
            &&& run.timeout matches Some(limit) ==> final_fault(run, ReapOutcome::Elapsed) == Some(
                ErrorView::Timeout(limit),
            )
        },
        run.task is Probe && run.failure is Some ==> {
            &&& final_fault(run, ReapOutcome::Exited(exit)) == run.failure
            &&& final_fault(run, ReapOutcome::Failed(source)) == run.failure
            &&& final_fault(run, ReapOutcome::Elapsed) == run.failure
        },
        run.task is Probe && run.failure is None && run.saw_ready ==> {
            &&& final_fault(run, ReapOutcome::Exited(exit)) is None
            &&& final_fault(run, ReapOutcome::Failed(source)) is None
            &&& final_fault(run, ReapOutcome::Elapsed) is None
        },
        run.task is Probe && run.failure is None && !run.saw_ready ==> {
            &&& final_fault(run, ReapOutcome::Exited(exit)) == Some(unanswered_fault(exit))
            &&& final_fault(run, ReapOutcome::Failed(source)) == Some(ErrorView::Io(source))
            &&& run.timeout matches Some(limit) ==> final_fault(run, ReapOutcome::Elapsed) == Some(
                ErrorView::Timeout(limit),
            )
        },
{
}

/// The chunks that events carry: the text of a chunk, and none of any other event.
pub open spec fn chunks(events: Seq<EventView>) -> Seq<Seq<char>> {
    Seq::new(
        events.len(),
        |i: int|
            match events[i] {
                EventView::Delta(text) => text,
                _ => Seq::empty(),
            },
    )
}

/// The text of a response is its chunks, one after another, with nothing between them and nothing
/// left out.
pub proof fn chunks_make_up_the_text(events: Seq<EventView>)
    ensures
        delta_text(events) == chunks(events).flatten(),
    decreases events.len(),
{
    if events.len() > 0 {
        chunks_make_up_the_text(events.drop_first());
        assert(chunks(events).drop_first() =~= chunks(events.drop_first()));
        assert(chunks(events).first() == match events[0] {
            EventView::Delta(text) => text,
            _ => Seq::empty(),
        });
    }
}

/// The object of a response is the one that was sent last.
pub proof fn the_last_object_counts(
    events: Seq<EventView>,
    event: EventView,
    before: Option<serde_json::Value>,
)
    ensures
        last_structured(Seq::empty(), before) == before,
        last_structured(events.push(event), before) == match event {
            EventView::Structured(value) => Some(value),
            _ => last_structured(events, before),
        },
    decreases events.len(),
{
    let all = events.push(event);
    if events.len() == 0 {
        assert(all.drop_first() =~= Seq::<EventView>::empty());
        reveal_with_fuel(last_structured, 2);
    } else {
        let held = match events[0] {
            EventView::Structured(value) => Some(value),
            _ => before,
        };
        the_last_object_counts(events.drop_first(), event, held);
        assert(all.drop_first() =~= events.drop_first().push(event));
        assert(all[0] == events[0]);
    }
}

/// What is heard of an output is heard line by line: a line that means nothing adds nothing, an
/// event is heard before what follows, and nothing follows the end or a failure.
pub proof fn output_is_heard_line_by_line(line: Seq<char>, rest: Seq<Seq<char>>)
    ensures
        events_heard(Seq::empty()).len() == 0,
        failure_heard(Seq::empty()) is None,
        match line_meaning(line) {
            LineView::Nothing => {
                &&& events_heard(seq![line] + rest) == events_heard(rest)
                &&& failure_heard(seq![line] + rest) == failure_heard(rest)
            },
            LineView::Failure(error) => {
                &&& events_heard(seq![line] + rest).len() == 0
                &&& failure_heard(seq![line] + rest) == Some(error)
            },
            LineView::Event(EventView::Done(usage)) => {
                &&& events_heard(seq![line] + rest) == seq![EventView::Done(usage)]
                &&& failure_heard(seq![line] + rest) is None
            },
            LineView::Event(event) => {
                &&& events_heard(seq![line] + rest) == seq![event] + events_heard(rest)
                &&& failure_heard(seq![line] + rest) == failure_heard(rest)
            },
        },
        ends_done(events_heard(rest)) <==> events_heard(rest).len() > 0 && events_heard(
            rest,
        ).last() is Done,
{
    assert((seq![line] + rest)[0] == line);
    assert((seq![line] + rest).drop_first() =~= rest);
}

/// What a probe hears is heard line by line: up to the answer, the latest failure counts.
pub proof fn probes_are_heard_line_by_line(
    line: Seq<char>,
    rest: Seq<Seq<char>>,
    before: Option<ErrorView>,
)
    ensures
        last_failure(Seq::empty(), before) == before,
        !ready_heard(Seq::empty()),
        line_answers(line) ==> {
            &&& ready_heard(seq![line] + rest) == line_ready(line)
            &&& line_meaning(line) matches LineView::Failure(error) ==> last_failure(
                seq![line] + rest,
                before,
            ) == Some(error)
            &&& !(line_meaning(line) is Failure) ==> last_failure(seq![line] + rest, before)
                == before
        },
        !line_answers(line) ==> {
            &&& ready_heard(seq![line] + rest) == ready_heard(rest)
            &&& line_meaning(line) matches LineView::Failure(error) ==> last_failure(
                seq![line] + rest,
                before,
            ) == last_failure(rest, Some(error))
            &&& !(line_meaning(line) is Failure) ==> last_failure(seq![line] + rest, before)
                == last_failure(rest, before)
        },
{
    assert((seq![line] + rest)[0] == line);
    assert((seq![line] + rest).drop_first() =~= rest);
}

/// Whether a line is a JSON object that carries the chunk `text` and nothing that outranks it.
pub open spec fn carries_chunk(line: Seq<char>, text: Seq<char>) -> bool {
    exists|members: JsonMembers|
        {
            &&& #[trigger] line_holds(line, members)
            &&& says(members, "delta"@, text)
            &&& !says_something(members, "error"@)
            &&& !says_done(members)
            &&& !members.contains_key("structured"@)
            &&& !members.contains_key("snapshot"@)
        }
}

/// Whether a line is a JSON object that says `done` and reports no failure.
pub open spec fn carries_end(line: Seq<char>) -> bool {
    exists|members: JsonMembers|
        {
            &&& #[trigger] line_holds(line, members)
            &&& says_done(members)
            &&& !says_something(members, "error"@)
        }
}

proof fn lemma_chunks_are_heard(lines: Seq<Seq<char>>, texts: Seq<Seq<char>>, last: Seq<char>)
    requires
        lines.len() == texts.len(),
        forall|i: int|
            #![trigger lines[i]]
            0 <= i < lines.len() ==> line_meaning(lines[i]) == LineView::Event(
                EventView::Delta(texts[i]),
            ),
        line_meaning(last) matches LineView::Event(event) && event is Done,
    ensures
        failure_heard(lines.push(last)) is None,
        events_heard(lines.push(last)).len() == texts.len() + 1,
        forall|i: int|
            0 <= i < texts.len() ==> #[trigger] events_heard(lines.push(last))[i]
                == EventView::Delta(texts[i]),
        ends_done(events_heard(lines.push(last))),
    decreases lines.len(),
{
    let all = lines.push(last);
    if lines.len() == 0 {
        assert(all[0] == last);
    } else {
        let rest = lines.drop_first();
        let rest_texts = texts.drop_first();
        assert forall|i: int| #![trigger rest[i]] 0 <= i < rest.len() implies line_meaning(rest[i])
            == LineView::Event(EventView::Delta(rest_texts[i])) by {
            assert(rest[i] == lines[i + 1]);
        }
        lemma_chunks_are_heard(rest, rest_texts, last);
        assert(all.drop_first() =~= rest.push(last));
        assert(all[0] == lines[0]);
        let tail = events_heard(rest.push(last));
        assert(events_heard(all) == seq![EventView::Delta(texts[0])] + tail);
        assert forall|i: int| 0 <= i < texts.len() implies #[trigger] events_heard(all)[i]
            == EventView::Delta(texts[i]) by {
            if i > 0 {
                assert(events_heard(all)[i] == tail[i - 1]);
                assert(rest_texts[i - 1] == texts[i]);
            }
        }
        assert(events_heard(all).last() == tail.last());
    }
}

proof fn lemma_carried_chunks_mean_chunks(line: Seq<char>, text: Seq<char>)
    requires
        carries_chunk(line, text),
    ensures
        line_meaning(line) == LineView::Event(EventView::Delta(text)),
{
    let members = choose|members: JsonMembers|
        {
            &&& #[trigger] line_holds(line, members)
            &&& says(members, "delta"@, text)
            &&& !says_something(members, "error"@)
            &&& !says_done(members)
            &&& !members.contains_key("structured"@)
            &&& !members.contains_key("snapshot"@)
        };
    every_delta_is_a_chunk(line, members, text);
}

/// Whatever chunks the helper writes before it says that it is done, blank and empty ones too, the
/// collected text is those chunks one after another, and a stream hands out each of them.
pub proof fn every_chunk_reaches_the_caller(
    request: RequestView,
    stage: StageView,
    lines: Seq<Seq<char>>,
    texts: Seq<Seq<char>>,
    last: Seq<char>,
    exit: Exit,
)
    requires
        lines.len() == texts.len(),
        forall|i: int|
            #![trigger lines[i]]
            0 <= i < lines.len() ==> carries_chunk(lines[i], texts[i]),
        carries_end(last),
        exit.success,
    ensures
        ({
            let collecting = fresh_run(StageView { task: TaskView::Complete(request), ..stage });
            let streaming = fresh_run(StageView { task: TaskView::Stream(request), ..stage });
            let yielded = transcript(streaming, lines.push(last)).yielded;
            &&& outcome(collecting, lines.push(last), exit) matches Ok(response)
            &&& response.text == texts.flatten()
            &&& yielded.len() == texts.len() + 1
            &&& forall|i: int|
                0 <= i < texts.len() ==> #[trigger] yielded[i] == EventView::Delta(texts[i])
            &&& yielded.last() is Done
        }),
{
    assert forall|i: int| #![trigger lines[i]] 0 <= i < lines.len() implies line_meaning(lines[i])
        == LineView::Event(EventView::Delta(texts[i])) by {
        lemma_carried_chunks_mean_chunks(lines[i], texts[i]);
    }
    let members = choose|members: JsonMembers|
        {
            &&& #[trigger] line_holds(last, members)
            &&& says_done(members)
            &&& !says_something(members, "error"@)
        };
    only_done_ends_a_response(last, members);
    lemma_chunks_are_heard(lines, texts, last);
    let all = lines.push(last);
    let events = events_heard(all);
    let collecting = StageView { task: TaskView::Complete(request), ..stage };
    let streaming = StageView { task: TaskView::Stream(request), ..stage };
    a_response_is_what_its_helper_said(request, collecting, all, exit);
    a_stream_hands_out_what_is_heard(fresh_run(streaming), all);
    chunks_make_up_the_text(events);
    assert(chunks(events) =~= texts.push(Seq::empty()));
    texts.lemma_flatten_push(Seq::empty());
    assert(texts.flatten() + Seq::<char>::empty() =~= texts.flatten());
}

} // verus!
