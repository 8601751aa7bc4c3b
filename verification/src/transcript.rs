//! What a helper's whole output comes to.
use std::path::PathBuf;
use vstd::prelude::*;

use crate::error::{retryable, ErrorView};
use crate::events::{line_answers, line_meaning, line_ready, LineView};
use crate::session::{
    admission_fault, allotted, ends, exit_fault, final_fault, fresh_run, read_step, sent_for,
    start_fault, task_fault, unanswered_fault, Exit, ReadView, ReapOutcome, RunView, StageView,
    StartOutcome, StepView, TaskView,
};
use crate::types::{CompletionView, EventView, RequestView};
use crate::validate::request_fault;

verus! {

/// What became of a run that read lines until it was told to stop or there were no more.
pub struct TranscriptView {
    /// The run after the last line that was read.
    pub run: RunView,
    /// The events that were handed out, in order.
    pub yielded: Seq<EventView>,
    /// The error that ended the run, if one did.
    pub failed: Option<ErrorView>,
}

/// A run that reads `lines` one after another.
pub open spec fn transcript(run: RunView, lines: Seq<Seq<char>>) -> TranscriptView
    decreases lines.len(),
{
    if lines.len() == 0 {
        TranscriptView { run, yielded: Seq::empty(), failed: None }
    } else {
        let (next, step) = read_step(run, ReadView::Line(lines[0]));
        match step {
            Err(error) => TranscriptView { run: next, yielded: Seq::empty(), failed: Some(error) },
            Ok(StepView::Reap) => TranscriptView {
                run: next,
                yielded: Seq::empty(),
                failed: None,
            },
            Ok(StepView::YieldLast(event)) => TranscriptView {
                run: next,
                yielded: seq![event],
                failed: None,
            },
            Ok(StepView::Yield(event)) => {
                let rest = transcript(next, lines.drop_first());
                TranscriptView { yielded: seq![event] + rest.yielded, ..rest }
            },
            Ok(StepView::ReadOn) => transcript(next, lines.drop_first()),
        }
    }
}

/// The events that the lines hold, up to the first that ends the response or the first failure.
pub open spec fn events_heard(lines: Seq<Seq<char>>) -> Seq<EventView>
    decreases lines.len(),
{
    if lines.len() == 0 {
        Seq::empty()
    } else {
        match line_meaning(lines[0]) {
            LineView::Nothing => events_heard(lines.drop_first()),
            LineView::Failure(_) => Seq::empty(),
            LineView::Event(event) => if event is Done {
                seq![event]
            } else {
                seq![event] + events_heard(lines.drop_first())
            },
        }
    }
}

/// The failure that the lines report before the response ends, if they report one.
pub open spec fn failure_heard(lines: Seq<Seq<char>>) -> Option<ErrorView>
    decreases lines.len(),
{
    if lines.len() == 0 {
        None
    } else {
        match line_meaning(lines[0]) {
            LineView::Failure(error) => Some(error),
            LineView::Event(EventView::Done(_)) => None,
            _ => failure_heard(lines.drop_first()),
        }
    }
}

/// The text of the chunks among `events`, one after another.
pub open spec fn delta_text(events: Seq<EventView>) -> Seq<char>
    decreases events.len(),
{
    if events.len() == 0 {
        Seq::empty()
    } else {
        (match events[0] {
            EventView::Delta(text) => text,
            _ => Seq::empty(),
        }) + delta_text(events.drop_first())
    }
}

/// The last finished object among `events`, or `before` where there is none.
pub open spec fn last_structured(
    events: Seq<EventView>,
    before: Option<serde_json::Value>,
) -> Option<serde_json::Value>
    decreases events.len(),
{
    if events.len() == 0 {
        before
    } else {
        last_structured(
            events.drop_first(),
            match events[0] {
                EventView::Structured(value) => Some(value),
                _ => before,
            },
        )
    }
}

/// Whether the response ended.
pub open spec fn ends_done(events: Seq<EventView>) -> bool {
    events.len() > 0 && events.last() is Done
}

/// A response without chunks has no text, and it has an object exactly where one was sent: the text
/// of a structured response is empty.
pub proof fn a_response_holds_only_what_was_sent(
    events: Seq<EventView>,
    before: Option<serde_json::Value>,
)
    ensures
        (forall|i: int| 0 <= i < events.len() ==> !(#[trigger] events[i] is Delta)) ==> delta_text(
            events,
        ).len() == 0,
        last_structured(events, before) is Some <==> before is Some || exists|i: int|
            0 <= i < events.len() && #[trigger] events[i] is Structured,
    decreases events.len(),
{
    if events.len() > 0 {
        let rest = events.drop_first();
        let held = match events[0] {
            EventView::Structured(value) => Some(value),
            _ => before,
        };
        a_response_holds_only_what_was_sent(rest, held);
        assert forall|i: int| 0 <= i < rest.len() implies #[trigger] rest[i] == events[i + 1] by {}
        if exists|i: int| 0 <= i < events.len() && #[trigger] events[i] is Structured {
            let i = choose|i: int| 0 <= i < events.len() && #[trigger] events[i] is Structured;
            if i > 0 {
                assert(rest[i - 1] is Structured);
            }
        }
        if exists|i: int| 0 <= i < rest.len() && #[trigger] rest[i] is Structured {
            let i = choose|i: int| 0 <= i < rest.len() && #[trigger] rest[i] is Structured;
            assert(events[i + 1] is Structured);
        }
    }
}

/// Only the last event that is heard can end the response.
pub proof fn only_the_last_event_is_done(lines: Seq<Seq<char>>)
    ensures
        forall|i: int|
            0 <= i < events_heard(lines).len() - 1 ==> !(#[trigger] events_heard(lines)[i] is Done),
        ends_done(events_heard(lines)) ==> failure_heard(lines) is None,
    decreases lines.len(),
{
    if lines.len() > 0 {
        only_the_last_event_is_done(lines.drop_first());
        if let LineView::Event(event) = line_meaning(lines[0]) {
            if !(event is Done) {
                let rest = events_heard(lines.drop_first());
                let all = seq![event] + rest;
                assert forall|i: int| 0 <= i < all.len() - 1 implies !(#[trigger] all[i] is Done) by {
                    if i > 0 {
                        assert(all[i] == rest[i - 1]);
                    }
                }
                if rest.len() > 0 {
                    assert(all.last() == rest.last());
                }
            }
        }
    }
}

/// A stream hands out the events that the helper sends, in the order in which it sends them, up to
/// the one that ends the response and nothing after it; a failure that the helper reports before
/// that is the failure of the stream.
pub proof fn a_stream_hands_out_what_is_heard(run: RunView, lines: Seq<Seq<char>>)
    requires
        run.task is Stream,
        !run.ended,
    ensures
        transcript(run, lines).yielded == events_heard(lines),
        transcript(run, lines).failed == failure_heard(lines),
        transcript(run, lines).run.saw_done == (run.saw_done || ends_done(events_heard(lines))),
        transcript(run, lines).run.task == run.task,
    decreases lines.len(),
{
    if lines.len() > 0 {
        let (next, step) = read_step(run, ReadView::Line(lines[0]));
        if !next.ended {
            a_stream_hands_out_what_is_heard(next, lines.drop_first());
        }
        let rest = events_heard(lines.drop_first());
        if let LineView::Event(event) = line_meaning(lines[0]) {
            if rest.len() > 0 {
                assert((seq![event] + rest).last() == rest.last());
            } else {
                assert((seq![event] + rest).last() == event);
            }
        }
    }
}

/// A collected response holds the chunks of text that the helper sends, one after another, the
/// last finished object, and the usage that came with the end; a failure that the helper reports
/// before the end is the failure of the request.
pub proof fn a_response_collects_what_is_heard(run: RunView, lines: Seq<Seq<char>>)
    requires
        run.task is Complete,
        !run.ended,
    ensures
        transcript(run, lines).failed == failure_heard(lines),
        transcript(run, lines).run.completion.text == run.completion.text + delta_text(
            events_heard(lines),
        ),
        transcript(run, lines).run.completion.structured == last_structured(
            events_heard(lines),
            run.completion.structured,
        ),
        transcript(run, lines).run.completion.usage == if ends_done(events_heard(lines)) {
            events_heard(lines).last()->Done_0
        } else {
            run.completion.usage
        },
        transcript(run, lines).run.saw_done == (run.saw_done || ends_done(events_heard(lines))),
        transcript(run, lines).yielded.len() == 0,
        transcript(run, lines).run.task == run.task,
    decreases lines.len(),
{
    let heard = events_heard(lines);
    if lines.len() == 0 {
        assert(run.completion.text + delta_text(heard) =~= run.completion.text);
    } else {
        let (next, step) = read_step(run, ReadView::Line(lines[0]));
        if !next.ended {
            a_response_collects_what_is_heard(next, lines.drop_first());
        }
        let rest = events_heard(lines.drop_first());
        match line_meaning(lines[0]) {
            LineView::Nothing => {},
            LineView::Failure(_) => {
                assert(run.completion.text + delta_text(heard) =~= run.completion.text);
            },
            LineView::Event(event) => {
                if event is Done {
                    assert(heard.drop_first() =~= Seq::<EventView>::empty());
                    reveal_with_fuel(delta_text, 2);
                    reveal_with_fuel(last_structured, 2);
                    assert(run.completion.text + delta_text(heard) =~= run.completion.text);
                } else {
                    assert(heard.drop_first() =~= rest);
                    assert(run.completion.text + delta_text(heard) =~= next.completion.text
                        + delta_text(rest));
                    if rest.len() > 0 {
                        assert(heard.last() == rest.last());
                    } else {
                        assert(heard.last() == event);
                    }
                }
            },
        }
    }
}

/// What comes of a run whose helper writes `lines` and then exits.
pub open spec fn outcome(run: RunView, lines: Seq<Seq<char>>, exit: Exit) -> Result<
    CompletionView,
    ErrorView,
> {
    match transcript(run, lines).failed {
        Some(error) => Err(error),
        None => match final_fault(transcript(run, lines).run, ReapOutcome::Exited(exit)) {
            Some(error) => Err(error),
            None => Ok(transcript(run, lines).run.completion),
        },
    }
}

/// The response to a request is what its helper said: all of its text, its last object and its
/// usage, where it said that it is done and exited well; else the failure that it reported, else
/// how it exited.
pub proof fn a_response_is_what_its_helper_said(
    request: RequestView,
    stage: StageView,
    lines: Seq<Seq<char>>,
    exit: Exit,
)
    requires
        stage.task == TaskView::Complete(request),
    ensures
        outcome(fresh_run(stage), lines, exit) == match failure_heard(lines) {
            Some(error) => Err(error),
            None => match exit_fault(exit, ends_done(events_heard(lines))) {
                Some(error) => Err(error),
                None => Ok(
                    CompletionView {
                        text: delta_text(events_heard(lines)),
                        structured: last_structured(events_heard(lines), None),
                        usage: events_heard(lines).last()->Done_0,
                    },
                ),
            },
        },
{
    let run = fresh_run(stage);
    a_response_collects_what_is_heard(run, lines);
    assert(run.completion.text + delta_text(events_heard(lines)) =~= delta_text(
        events_heard(lines),
    ));
}

/// Of one output, a stream and a collected response give the same: they fail alike, and the chunks
/// that the stream hands out spell the collected text.
pub proof fn streaming_and_collecting_agree(
    request: RequestView,
    stage: StageView,
    lines: Seq<Seq<char>>,
)
    ensures
        ({
            let streamed = transcript(
                fresh_run(StageView { task: TaskView::Stream(request), ..stage }),
                lines,
            );
            let collected = transcript(
                fresh_run(StageView { task: TaskView::Complete(request), ..stage }),
                lines,
            );
            &&& streamed.failed == collected.failed
            &&& streamed.run.saw_done == collected.run.saw_done
            &&& delta_text(streamed.yielded) == collected.run.completion.text
            &&& last_structured(streamed.yielded, None) == collected.run.completion.structured
        }),
{
    let s = fresh_run(StageView { task: TaskView::Stream(request), ..stage });
    let c = fresh_run(StageView { task: TaskView::Complete(request), ..stage });
    a_stream_hands_out_what_is_heard(s, lines);
    a_response_collects_what_is_heard(c, lines);
    assert(c.completion.text + delta_text(events_heard(lines)) =~= delta_text(events_heard(lines)));
}

/// Stray output cannot corrupt a response: a line that means nothing can stand anywhere in the
/// output without changing what comes of it.
pub proof fn stray_lines_change_nothing(
    run: RunView,
    before: Seq<Seq<char>>,
    stray: Seq<char>,
    after: Seq<Seq<char>>,
)
    requires
        !(run.task is Probe),
        line_meaning(stray) is Nothing,
    ensures
        transcript(run, before + seq![stray] + after) == transcript(run, before + after),
    decreases before.len(),
{
    let noisy = before + seq![stray] + after;
    let clean = before + after;
    if before.len() == 0 {
        assert(noisy[0] == stray);
        assert(noisy.drop_first() =~= after);
        assert(clean =~= after);
    } else {
        let (next, step) = read_step(run, ReadView::Line(before[0]));
        assert(noisy[0] == before[0] && clean[0] == before[0]);
        assert(noisy.drop_first() =~= before.drop_first() + seq![stray] + after);
        assert(clean.drop_first() =~= before.drop_first() + after);
        stray_lines_change_nothing(next, before.drop_first(), stray, after);
    }
}

/// Once the response has ended or a failure was reported, what the helper writes after that does
/// not matter.
pub proof fn nothing_is_read_after_the_end(
    run: RunView,
    lines: Seq<Seq<char>>,
    after: Seq<Seq<char>>,
)
    requires
        !(run.task is Probe),
        ends_done(events_heard(lines)) || failure_heard(lines) is Some,
    ensures
        transcript(run, lines + after) == transcript(run, lines),
    decreases lines.len(),
{
    if lines.len() > 0 {
        let (next, step) = read_step(run, ReadView::Line(lines[0]));
        let all = lines + after;
        assert(all[0] == lines[0]);
        assert(all.drop_first() =~= lines.drop_first() + after);
        let rest = events_heard(lines.drop_first());
        match line_meaning(lines[0]) {
            LineView::Nothing => {
                nothing_is_read_after_the_end(next, lines.drop_first(), after);
            },
            LineView::Failure(_) => {},
            LineView::Event(event) => {
                if !(event is Done) {
                    if rest.len() == 0 {
                        assert((seq![event] + rest).last() == event);
                    } else {
                        assert((seq![event] + rest).last() == rest.last());
                    }
                    nothing_is_read_after_the_end(next, lines.drop_first(), after);
                }
            },
        }
    }
}

/// The steps of a run on which reading goes on no matter what.
pub open spec fn steps(run: RunView, reads: Seq<ReadView>) -> Seq<Result<StepView, ErrorView>>
    decreases reads.len(),
{
    if reads.len() == 0 {
        Seq::empty()
    } else {
        let (next, step) = read_step(run, reads[0]);
        seq![step] + steps(next, reads.drop_first())
    }
}

/// A run after reading went on no matter what.
pub open spec fn after_reads(run: RunView, reads: Seq<ReadView>) -> RunView
    decreases reads.len(),
{
    if reads.len() == 0 {
        run
    } else {
        after_reads(read_step(run, reads[0]).0, reads.drop_first())
    }
}

proof fn lemma_an_ended_run_stays(run: RunView, reads: Seq<ReadView>)
    requires
        run.ended,
    ensures
        after_reads(run, reads) == run,
        steps(run, reads).len() == reads.len(),
        forall|i: int|
            0 <= i < reads.len() ==> #[trigger] steps(run, reads)[i] == Ok::<StepView, ErrorView>(
                StepView::Reap,
            ),
    decreases reads.len(),
{
    if reads.len() > 0 {
        let rest = reads.drop_first();
        lemma_an_ended_run_stays(run, rest);
        assert forall|i: int| 0 <= i < reads.len() implies #[trigger] steps(run, reads)[i] == Ok::<
            StepView,
            ErrorView,
        >(StepView::Reap) by {
            if i > 0 {
                assert(steps(run, reads)[i] == steps(run, rest)[i - 1]);
            }
        }
    }
}

/// Nothing comes after the end: once a read failed, ran out of time, gave a failure or the last
/// event, or found the output over, every further read gives nothing and changes nothing.
pub proof fn nothing_comes_after_the_end(run: RunView, reads: Seq<ReadView>, at: int)
    requires
        0 <= at < reads.len(),
    ensures
        steps(run, reads).len() == reads.len(),
        ends(steps(run, reads)[at]) ==> {
            &&& forall|i: int|
                at < i < reads.len() ==> #[trigger] steps(run, reads)[i] == Ok::<
                    StepView,
                    ErrorView,
                >(StepView::Reap)
            &&& after_reads(run, reads) == after_reads(run, reads.take(at + 1))
        },
    decreases reads.len(),
{
    let rest = reads.drop_first();
    let (next, step) = read_step(run, reads[0]);
    let upto = reads.take(at + 1);
    assert(upto[0] == reads[0]);
    assert(steps(run, reads) == seq![step] + steps(next, rest));
    if at == 0 {
        assert(upto.drop_first() =~= Seq::<ReadView>::empty());
        reveal_with_fuel(after_reads, 2);
        lemma_steps_len(next, rest);
        if ends(step) {
            lemma_an_ended_run_stays(next, rest);
            assert forall|i: int| at < i < reads.len() implies #[trigger] steps(run, reads)[i]
                == Ok::<StepView, ErrorView>(StepView::Reap) by {
                assert(steps(run, reads)[i] == steps(next, rest)[i - 1]);
            }
        }
    } else {
        nothing_comes_after_the_end(next, rest, at - 1);
        assert(upto.drop_first() =~= rest.take(at));
        assert(steps(run, reads)[at] == steps(next, rest)[at - 1]);
        if ends(steps(run, reads)[at]) {
            assert forall|i: int| at < i < reads.len() implies #[trigger] steps(run, reads)[i]
                == Ok::<StepView, ErrorView>(StepView::Reap) by {
                assert(steps(run, reads)[i] == steps(next, rest)[i - 1]);
            }
        }
    }
}

proof fn lemma_steps_len(run: RunView, reads: Seq<ReadView>)
    ensures
        steps(run, reads).len() == reads.len(),
    decreases reads.len(),
{
    if reads.len() > 0 {
        lemma_steps_len(read_step(run, reads[0]).0, reads.drop_first());
    }
}

/// A run on which a read gave an error succeeds on no account, however its helper exits.
pub proof fn a_failed_run_never_succeeds(
    stage: StageView,
    reads: Seq<ReadView>,
    at: int,
    reaped: ReapOutcome,
)
    requires
        0 <= at < reads.len(),
        steps(fresh_run(stage), reads)[at] is Err,
    ensures
        final_fault(after_reads(fresh_run(stage), reads), reaped) is Some,
{
    lemma_failed_run_has_no_answer(fresh_run(stage), reads, at);
}

proof fn lemma_failed_run_has_no_answer(run: RunView, reads: Seq<ReadView>, at: int)
    requires
        0 <= at < reads.len(),
        steps(run, reads)[at] is Err,
        !run.saw_done,
        !run.saw_ready,
    ensures
        !after_reads(run, reads).saw_done,
        !after_reads(run, reads).saw_ready,
    decreases reads.len(),
{
    let rest = reads.drop_first();
    let (next, step) = read_step(run, reads[0]);
    lemma_steps_len(next, rest);
    assert(steps(run, reads)[0] == step);
    if next.ended {
        lemma_an_ended_run_stays(next, rest);
        if at > 0 {
            assert(steps(run, reads)[at] == steps(next, rest)[at - 1]);
        }
    } else {
        assert(steps(run, reads)[at] == steps(next, rest)[at - 1]);
        lemma_failed_run_has_no_answer(next, rest, at - 1);
    }
}

/// A response stands exactly where the helper said that it is done and exited with status zero.
pub proof fn a_response_stands_exactly_where_the_helper_finished(run: RunView, exit: Exit)
    requires
        !(run.task is Probe),
    ensures
        final_fault(run, ReapOutcome::Exited(exit)) is None <==> exit.success && run.saw_done,
        !exit.success ==> (final_fault(run, ReapOutcome::Exited(exit)) matches Some(
            ErrorView::ProcessFailed { stderr, .. },
        ) && stderr == exit.stderr@),
        exit.success && !run.saw_done ==> final_fault(run, ReapOutcome::Exited(exit))->0
            is Protocol,
{
}

/// The failure that a probe hears last before the answer, or `before` where it hears none.
pub open spec fn last_failure(
    lines: Seq<Seq<char>>,
    before: Option<ErrorView>,
) -> Option<ErrorView>
    decreases lines.len(),
{
    if lines.len() == 0 {
        before
    } else {
        let here = match line_meaning(lines[0]) {
            LineView::Failure(error) => Some(error),
            _ => before,
        };
        if line_answers(lines[0]) {
            here
        } else {
            last_failure(lines.drop_first(), here)
        }
    }
}

/// Whether the answer to a probe is there and says that the model is ready.
pub open spec fn ready_heard(lines: Seq<Seq<char>>) -> bool
    decreases lines.len(),
{
    if lines.len() == 0 {
        false
    } else if line_answers(lines[0]) {
        line_ready(lines[0])
    } else {
        ready_heard(lines.drop_first())
    }
}

/// Whether a line says that the model is ready and none before it reports a failure.
pub open spec fn ready_without_failure(lines: Seq<Seq<char>>) -> bool {
    exists|at: int|
        {
            &&& 0 <= at < lines.len()
            &&& #[trigger] line_ready(lines[at])
            &&& forall|i: int| 0 <= i < at ==> !(#[trigger] line_meaning(lines[i]) is Failure)
        }
}

/// A probe reads up to the answer. It fails with the failure that came last before that; where none
/// came, it succeeds on the answer, and fails with how the helper ended where there was no answer.
pub proof fn a_probe_reports_the_last_failure(
    run: RunView,
    lines: Seq<Seq<char>>,
    reaped: ReapOutcome,
)
    requires
        run.task is Probe,
        !run.ended,
    ensures
        transcript(run, lines).failed is None,
        transcript(run, lines).yielded.len() == 0,
        transcript(run, lines).run.failure == last_failure(lines, run.failure),
        transcript(run, lines).run.saw_ready == (run.saw_ready || ready_heard(lines)),
        transcript(run, lines).run.task == run.task,
        transcript(run, lines).run.timeout == run.timeout,
        final_fault(transcript(run, lines).run, reaped) == match last_failure(lines, run.failure) {
            Some(error) => Some(error),
            None => if run.saw_ready || ready_heard(lines) {
                None
            } else {
                Some(
                    match reaped {
                        ReapOutcome::Exited(exit) => unanswered_fault(exit),
                        ReapOutcome::Failed(source) => ErrorView::Io(source),
                        ReapOutcome::Elapsed => ErrorView::Timeout(allotted(run.timeout)),
                    },
                )
            },
        },
    decreases lines.len(),
{
    if lines.len() > 0 {
        let (next, step) = read_step(run, ReadView::Line(lines[0]));
        if !next.ended {
            a_probe_reports_the_last_failure(next, lines.drop_first(), reaped);
        }
    }
}

/// An answer either says that the model is ready or reports a failure.
proof fn lemma_answers_are_ready_or_failures(line: Seq<char>)
    ensures
        line_ready(line) <==> line_answers(line) && !(line_meaning(line) is Failure),
{
}

/// A failure that was heard is not forgotten.
proof fn lemma_failure_stays(lines: Seq<Seq<char>>, before: Option<ErrorView>)
    ensures
        before is Some ==> last_failure(lines, before) is Some,
    decreases lines.len(),
{
    if lines.len() > 0 {
        let here = match line_meaning(lines[0]) {
            LineView::Failure(error) => Some(error),
            _ => before,
        };
        lemma_failure_stays(lines.drop_first(), here);
    }
}

proof fn lemma_ready_without_failure(lines: Seq<Seq<char>>)
    ensures
        ready_without_failure(lines) <==> ready_heard(lines) && last_failure(lines, None) is None,
    decreases lines.len(),
{
    if lines.len() > 0 {
        let rest = lines.drop_first();
        let first = lines[0];
        lemma_answers_are_ready_or_failures(first);
        lemma_ready_without_failure(rest);
        if line_meaning(first) is Failure {
            lemma_failure_stays(rest, Some(line_meaning(first)->Failure_0));
        }
        assert(ready_without_failure(lines) <==> line_ready(first) || (!(line_meaning(
            first,
        ) is Failure) && ready_without_failure(rest))) by {
            if ready_without_failure(lines) && !line_ready(first) {
                let at = choose|at: int|
                    {
                        &&& 0 <= at < lines.len()
                        &&& #[trigger] line_ready(lines[at])
                        &&& forall|i: int|
                            0 <= i < at ==> !(#[trigger] line_meaning(lines[i]) is Failure)
                    };
                assert(!(line_meaning(lines[0]) is Failure));
                assert(line_ready(rest[at - 1]));
                assert forall|i: int| 0 <= i < at - 1 implies !(#[trigger] line_meaning(
                    rest[i],
                ) is Failure) by {
                    assert(rest[i] == lines[i + 1]);
                }
            }
            if ready_without_failure(rest) && !(line_meaning(first) is Failure) {
                let at = choose|at: int|
                    {
                        &&& 0 <= at < rest.len()
                        &&& #[trigger] line_ready(rest[at])
                        &&& forall|i: int|
                            0 <= i < at ==> !(#[trigger] line_meaning(rest[i]) is Failure)
                    };
                assert(line_ready(lines[at + 1]));
                assert forall|i: int| 0 <= i < at + 1 implies !(#[trigger] line_meaning(
                    lines[i],
                ) is Failure) by {
                    if i > 0 {
                        assert(lines[i] == rest[i - 1]);
                    }
                }
            }
            if line_ready(first) {
                assert(line_ready(lines[0]));
            }
        }
    }
}

/// A probe succeeds exactly where the helper said that the model is ready and reported no failure
/// before that: silence, stray output and a bad exit are no answer.
pub proof fn a_probe_succeeds_exactly_where_the_model_is_ready(
    stage: StageView,
    lines: Seq<Seq<char>>,
    reaped: ReapOutcome,
)
    requires
        stage.task is Probe,
    ensures
        final_fault(transcript(fresh_run(stage), lines).run, reaped) is None
            <==> ready_without_failure(lines),
{
    a_probe_reports_the_last_failure(fresh_run(stage), lines, reaped);
    lemma_ready_without_failure(lines);
}

/// A task that is wrong in itself is refused before anything is looked at: whether the helper is
/// there makes no difference.
pub proof fn malformed_tasks_never_reach_a_helper(task: TaskView, binary: PathBuf, is_file: bool)
    ensures
        task_fault(task) is Some ==> admission_fault(task, binary, is_file) == task_fault(task),
        admission_fault(task, binary, is_file) is None <==> task_fault(task) is None && is_file,
{
}

/// A structured response streams only where the caller opted into snapshots; text always streams,
/// and a response that is collected needs no opting in.
pub proof fn structured_streams_need_opting_in(request: RequestView)
    requires
        request_fault(request) is None,
    ensures
        task_fault(TaskView::Stream(request)) is None <==> (request.schema is None
            || request.stream_structured),
        task_fault(TaskView::Stream(request)) matches Some(error) ==> error is BadRequest,
        task_fault(TaskView::Complete(request)) is None,
{
}

/// A collected response is streamed by the helper exactly where it is text, and no snapshots are
/// asked for of a structured one; a stream always streams.
pub proof fn only_text_is_collected_from_a_stream(request: RequestView)
    ensures
        sent_for(TaskView::Complete(request))->0.stream <==> request.schema is None,
        request.schema is Some ==> !sent_for(TaskView::Complete(request))->0.stream_structured,
        sent_for(TaskView::Stream(request))->0.stream,
        sent_for(TaskView::Probe) is None,
{
}

/// A request that runs out of time ends with the time that it had, wherever the time went: while
/// its helper starts, writes or exits. Such a request may be tried again.
pub proof fn running_out_of_time_is_retryable(stage: StageView, run: RunView)
    ensures
        start_fault(StartOutcome::Elapsed, stage) == Some(
            ErrorView::Timeout(allotted(stage.timeout)),
        ),
        !run.ended ==> read_step(run, ReadView::Elapsed).1 == Err::<StepView, ErrorView>(
            ErrorView::Timeout(allotted(run.timeout)),
        ),
        !(run.task is Probe) || (run.failure is None && !run.saw_ready) ==> final_fault(
            run,
            ReapOutcome::Elapsed,
        ) == Some(ErrorView::Timeout(allotted(run.timeout))),
        retryable(ErrorView::Timeout(allotted(run.timeout))),
{
}

} // verus!
