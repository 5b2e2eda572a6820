use crate::response::ProbeOutcomeView;
use crate::run::{sink_of, ActionView, EventView, Mode, Phase, RunView, Sink};
use crate::workspace::opened_target;
use vstd::prelude::*;

verus! {

/// Where the run that starts in `start` stands after `events`, and the
/// actions that it asked for on the way, in order.
pub open spec fn run_from(start: RunView, events: Seq<EventView>) -> (RunView, Seq<ActionView>)
    decreases events.len(),
{
    if events.len() == 0 {
        (start, Seq::empty())
    } else {
        let before = run_from(start, events.drop_last());
        let after = before.0.step(events.last());
        (after.0, before.1.push(after.1))
    }
}

/// How often `trace` asks for the deletion of the scratch folder.
pub open spec fn closes(trace: Seq<ActionView>) -> nat
    decreases trace.len(),
{
    if trace.len() == 0 {
        0
    } else {
        closes(trace.drop_last()) + if trace.last() is DeleteFolder {
            1nat
        } else {
            0nat
        }
    }
}

/// The lines that `trace` writes to the list `sink`, in the order in which it
/// writes them.
pub open spec fn lines_to(trace: Seq<ActionView>, sink: Sink) -> Seq<Seq<char>>
    decreases trace.len(),
{
    if trace.len() == 0 {
        Seq::empty()
    } else {
        let before = lines_to(trace.drop_last(), sink);
        match trace.last() {
            ActionView::Record { sink: Some(list), line, .. } => if list == sink {
                before.push(line)
            } else {
                before
            },
            _ => before,
        }
    }
}

/// The names among the first `outcomes.len()` of `names` whose verdict goes to
/// the list `sink`, in the order of the names.
pub open spec fn routed(
    names: Seq<Seq<char>>,
    outcomes: Seq<ProbeOutcomeView>,
    forbidden_sink: bool,
    failure_sink: bool,
    sink: Sink,
) -> Seq<Seq<char>>
    decreases outcomes.len(),
{
    if outcomes.len() == 0 {
        Seq::empty()
    } else {
        let before = routed(names, outcomes.drop_last(), forbidden_sink, failure_sink, sink);
        if sink_of(outcomes.last(), forbidden_sink, failure_sink) == Some(sink) {
            before.push(names[outcomes.len() - 1])
        } else {
            before
        }
    }
}

impl RunView {
    /// Whether two runs are over the same names with the same settings.
    pub open spec fn same_task(self, other: RunView) -> bool {
        &&& self.mode == other.mode
        &&& self.session == other.session
        &&& self.names == other.names
        &&& self.forbidden_sink == other.forbidden_sink
        &&& self.failure_sink == other.failure_sink
        &&& self.interval == other.interval
    }
}

/// Whether the first of `events` opens a scratch folder.
pub open spec fn opens(events: Seq<EventView>) -> bool {
    events.len() > 0 && opened_target(events[0].folder_reply()) is Ok
}

/// Whether the lines that `trace` writes to `sink` are the names of `end`
/// whose verdict goes there.
spec fn lines_match(end: RunView, trace: Seq<ActionView>, sink: Sink) -> bool {
    lines_to(trace, sink) == routed(
        end.names,
        end.outcomes,
        end.forbidden_sink,
        end.failure_sink,
        sink,
    )
}

/// What holds of every run after any events.
spec fn reached(start: RunView, events: Seq<EventView>, end: RunView, trace: Seq<ActionView>)
    -> bool {
    &&& end.same_task(start)
    &&& end.outcomes.len() <= end.names.len() || end.mode == Mode::Single
    &&& end.mode == Mode::Bulk ==> lines_match(end, trace, Sink::Forbidden) && lines_match(
        end,
        trace,
        Sink::Failed,
    )
    &&& match end.phase {
        Phase::Opening => closes(trace) == 0 && events.len() == 0 && end.is_start(),
        Phase::Probing { .. } => {
            &&& closes(trace) == 0
            &&& opens(events)
            &&& end.outcomes.len() == end.next
            &&& end.next < end.names.len()
            &&& end.failed is None
        },
        Phase::Recording { .. } => {
            &&& closes(trace) == 0
            &&& opens(events)
            &&& end.outcomes.len() == end.next + 1
            &&& end.next < end.names.len()
            &&& end.mode == Mode::Bulk
            &&& end.failed is None
        },
        Phase::Pausing { .. } => {
            &&& closes(trace) == 0
            &&& opens(events)
            &&& end.outcomes.len() == end.next + 1
            &&& end.next < end.names.len()
            &&& end.mode == Mode::Bulk
            &&& end.failed is None
        },
        Phase::Closing { .. } => {
            &&& closes(trace) == 1
            &&& opens(events)
            &&& end.mode == Mode::Bulk && end.failed is None ==> end.outcomes.len()
                == end.names.len()
        },
        Phase::Finished { target: Some(_) } => {
            &&& closes(trace) == 1
            &&& opens(events)
            &&& end.mode == Mode::Bulk && end.failed is None ==> end.outcomes.len()
                == end.names.len()
        },
        Phase::Finished { target: None } => {
            &&& closes(trace) == 0
            &&& events.len() > 0
            &&& !opens(events)
            &&& end.failed is Some
        },
    }
}

/// What one more action adds to a trace.
proof fn lemma_trace_push(trace: Seq<ActionView>, action: ActionView, sink: Sink)
    ensures
        closes(trace.push(action)) == closes(trace) + if action is DeleteFolder {
            1nat
        } else {
            0nat
        },
        lines_to(trace.push(action), sink) == match action {
            ActionView::Record { sink: Some(list), line, .. } => if list == sink {
                lines_to(trace, sink).push(line)
            } else {
                lines_to(trace, sink)
            },
            _ => lines_to(trace, sink),
        },
{
    assert(trace.push(action).drop_last() =~= trace);
}

/// What one more verdict adds to the names that go to a list.
proof fn lemma_routed_push(
    names: Seq<Seq<char>>,
    outcomes: Seq<ProbeOutcomeView>,
    outcome: ProbeOutcomeView,
    forbidden_sink: bool,
    failure_sink: bool,
    sink: Sink,
)
    ensures
        routed(names, outcomes.push(outcome), forbidden_sink, failure_sink, sink) == if sink_of(
            outcome,
            forbidden_sink,
            failure_sink,
        ) == Some(sink) {
            routed(names, outcomes, forbidden_sink, failure_sink, sink).push(
                names[outcomes.len() as int],
            )
        } else {
            routed(names, outcomes, forbidden_sink, failure_sink, sink)
        },
{
    assert(outcomes.push(outcome).drop_last() =~= outcomes);
}

/// Turning to closing keeps what holds, for a run that has its folder and has
/// not asked for its deletion.
proof fn lemma_close_keeps(
    start: RunView,
    events: Seq<EventView>,
    run: RunView,
    trace: Seq<ActionView>,
    target: crate::workspace::ProbeTarget,
    failure: Option<crate::error::CheckError>,
)
    requires
        run.same_task(start),
        run.outcomes.len() <= run.names.len() || run.mode == Mode::Single,
        run.mode == Mode::Bulk ==> lines_match(run, trace, Sink::Forbidden) && lines_match(
            run,
            trace,
            Sink::Failed,
        ),
        closes(trace) == 0,
        opens(events),
        run.mode == Mode::Bulk && failure is None ==> run.outcomes.len() == run.names.len(),
    ensures
        reached(start, events, run.close(target, failure).0, trace.push(run.close(target, failure).1)),
{
    let after = run.close(target, failure);
    lemma_trace_push(trace, after.1, Sink::Forbidden);
    lemma_trace_push(trace, after.1, Sink::Failed);
}

/// Taking down a verdict keeps what holds, for a run that stands at a name.
proof fn lemma_record_keeps(
    start: RunView,
    events: Seq<EventView>,
    run: RunView,
    trace: Seq<ActionView>,
    target: crate::workspace::ProbeTarget,
    outcome: ProbeOutcomeView,
)
    requires
        run.same_task(start),
        run.mode == Mode::Bulk ==> lines_match(run, trace, Sink::Forbidden) && lines_match(
            run,
            trace,
            Sink::Failed,
        ),
        closes(trace) == 0,
        opens(events),
        run.outcomes.len() == run.next,
        run.next < run.names.len(),
        run.failed is None,
    ensures
        reached(
            start,
            events,
            run.record(target, outcome).0,
            trace.push(run.record(target, outcome).1),
        ),
{
    let after = run.record(target, outcome);
    let taken = RunView { outcomes: run.outcomes.push(outcome), ..run };
    lemma_routed_push(
        run.names,
        run.outcomes,
        outcome,
        run.forbidden_sink,
        run.failure_sink,
        Sink::Forbidden,
    );
    lemma_routed_push(
        run.names,
        run.outcomes,
        outcome,
        run.forbidden_sink,
        run.failure_sink,
        Sink::Failed,
    );
    match run.mode {
        Mode::Single => {
            lemma_close_keeps(start, events, taken, trace, target, None);
        },
        Mode::Bulk => {
            lemma_trace_push(trace, after.1, Sink::Forbidden);
            lemma_trace_push(trace, after.1, Sink::Failed);
        },
    }
}

/// Taking up the current name keeps what holds, for a run that has a verdict
/// on every name before it.
proof fn lemma_begin_item_keeps(
    start: RunView,
    events: Seq<EventView>,
    run: RunView,
    trace: Seq<ActionView>,
    target: crate::workspace::ProbeTarget,
)
    requires
        run.same_task(start),
        run.mode == Mode::Bulk ==> lines_match(run, trace, Sink::Forbidden) && lines_match(
            run,
            trace,
            Sink::Failed,
        ),
        closes(trace) == 0,
        opens(events),
        run.outcomes.len() == run.next,
        run.next <= run.names.len(),
        run.failed is None,
    ensures
        reached(start, events, run.begin_item(target).0, trace.push(run.begin_item(target).1)),
{
    let after = run.begin_item(target);
    if run.next >= run.names.len() {
        lemma_close_keeps(start, events, run, trace, target, None);
    } else {
        let hash = crate::dummies::fabricated(run.hashes.seed, run.hashes.serial);
        let drawn = RunView { hashes: run.hashes.advanced(), ..run };
        match crate::upload::upload_request(
            run.session,
            run.name(),
            crate::run::FILE_SIZE@,
            hash,
            hash,
            target.id,
        ) {
            Ok(request) => {
                lemma_trace_push(trace, after.1, Sink::Forbidden);
                lemma_trace_push(trace, after.1, Sink::Failed);
            },
            Err(e) => {
                lemma_record_keeps(
                    start,
                    events,
                    drawn,
                    trace,
                    target,
                    ProbeOutcomeView::of_error(e),
                );
            },
        }
    }
}

/// One step keeps what holds.
proof fn lemma_step_keeps(
    start: RunView,
    events: Seq<EventView>,
    run: RunView,
    trace: Seq<ActionView>,
    event: EventView,
)
    requires
        reached(start, events, run, trace),
    ensures
        reached(start, events.push(event), run.step(event).0, trace.push(run.step(event).1)),
{
    let after = run.step(event);
    let later = events.push(event);
    assert(events.len() > 0 ==> later[0] == events[0]);
    assert(events.len() == 0 ==> later[0] == event);
    match run.phase {
        Phase::Opening => {
            match opened_target(event.folder_reply()) {
                Ok(target) => {
                    lemma_begin_item_keeps(start, later, run, trace, target);
                },
                Err(e) => {
                    lemma_trace_push(trace, after.1, Sink::Forbidden);
                    lemma_trace_push(trace, after.1, Sink::Failed);
                },
            }
        },
        Phase::Probing { target } => {
            lemma_record_keeps(
                start,
                later,
                run,
                trace,
                target,
                crate::response::probe_verdict(event.probe_reply()),
            );
        },
        Phase::Recording { target, wrote } => {
            if wrote && !event.written() {
                lemma_close_keeps(
                    start,
                    later,
                    run,
                    trace,
                    target,
                    Some(crate::error::CheckError::SinkWriteFailed),
                );
            } else {
                lemma_trace_push(trace, after.1, Sink::Forbidden);
                lemma_trace_push(trace, after.1, Sink::Failed);
            }
        },
        Phase::Pausing { target } => {
            lemma_begin_item_keeps(start, later, run.advanced(), trace, target);
        },
        Phase::Closing { .. } => {
            lemma_trace_push(trace, after.1, Sink::Forbidden);
            lemma_trace_push(trace, after.1, Sink::Failed);
        },
        Phase::Finished { .. } => {
            lemma_trace_push(trace, after.1, Sink::Forbidden);
            lemma_trace_push(trace, after.1, Sink::Failed);
        },
    }
}

proof fn lemma_reached(start: RunView, events: Seq<EventView>)
    requires
        start.is_start(),
    ensures
        reached(start, events, run_from(start, events).0, run_from(start, events).1),
    decreases events.len(),
{
    if events.len() == 0 {
        assert(start.outcomes =~= Seq::empty());
    } else {
        let earlier = events.drop_last();
        lemma_reached(start, earlier);
        let before = run_from(start, earlier);
        lemma_step_keeps(start, earlier, before.0, before.1, events.last());
        assert(earlier.push(events.last()) =~= events);
    }
}

/// The scratch folder is closed exactly once: whatever happens to a run, it
/// asks at most once for the deletion of its scratch folder, and a run that
/// is over has asked for it exactly once if it got a folder, and never if it
/// got none. That holds of a check of one name and of a bulk check, and also
/// where every probe of the run fails.
pub proof fn lemma_closed_exactly_once(start: RunView, events: Seq<EventView>)
    requires
        start.is_start(),
    ensures
        closes(run_from(start, events).1) <= 1,
        run_from(start, events).0.phase is Finished ==> closes(run_from(start, events).1) == (
        if opens(events) {
            1nat
        } else {
            0nat
        }),
        run_from(start, events).0.phase is Closing ==> closes(run_from(start, events).1) == 1,
{
    lemma_reached(start, events);
}

/// A bulk run writes to each output list the names whose verdict goes there,
/// in the order of the input: at every moment the lines written to a list are
/// the names checked so far whose verdict the list takes, none left out, none
/// twice, none out of order. The verdicts stand in the order of the names.
pub proof fn lemma_sinks_keep_input_order(start: RunView, events: Seq<EventView>, sink: Sink)
    requires
        start.is_start(),
        start.mode == Mode::Bulk,
    ensures
        run_from(start, events).0.same_task(start),
        run_from(start, events).0.outcomes.len() <= start.names.len(),
        lines_to(run_from(start, events).1, sink) == routed(
            start.names,
            run_from(start, events).0.outcomes,
            start.forbidden_sink,
            start.failure_sink,
            sink,
        ),
{
    lemma_reached(start, events);
}

/// A bulk run that ends without an error has a verdict on every name: a
/// failed check of one name does not keep the run from the names after it.
pub proof fn lemma_bulk_checks_every_name(start: RunView, events: Seq<EventView>)
    requires
        start.is_start(),
        start.mode == Mode::Bulk,
        run_from(start, events).0.phase is Finished,
        run_from(start, events).0.bulk_result() is Ok,
    ensures
        run_from(start, events).0.outcomes.len() == start.names.len(),
{
    lemma_reached(start, events);
}

/// Where the run has the list of the forbidden and every verdict is a
/// rejection, the names that go to that list are all the names checked, in
/// the order of the input.
pub proof fn lemma_all_forbidden_routes_all(
    names: Seq<Seq<char>>,
    outcomes: Seq<ProbeOutcomeView>,
    failure_sink: bool,
)
    requires
        outcomes.len() <= names.len(),
        forall|i: int| 0 <= i < outcomes.len() ==> outcomes[i] is Forbidden,
    ensures
        routed(names, outcomes, true, failure_sink, Sink::Forbidden) == names.take(
            outcomes.len() as int,
        ),
        routed(names, outcomes, true, failure_sink, Sink::Failed) == Seq::<Seq<char>>::empty(),
    decreases outcomes.len(),
{
    if outcomes.len() > 0 {
        lemma_all_forbidden_routes_all(names, outcomes.drop_last(), failure_sink);
        assert(names.take(outcomes.len() as int) =~= names.take(outcomes.len() - 1).push(
            names[outcomes.len() - 1],
        ));
    } else {
        assert(names.take(0) =~= Seq::<Seq<char>>::empty());
    }
}

/// Whether `early` is what `late` begins with.
pub open spec fn begins_with(late: Seq<ProbeOutcomeView>, early: Seq<ProbeOutcomeView>) -> bool {
    early.len() <= late.len() && late.take(early.len() as int) == early
}

/// One step takes down at most one verdict, behind those that stand.
proof fn lemma_step_appends(run: RunView, event: EventView)
    ensures
        begins_with(run.step(event).0.outcomes, run.outcomes),
        run.step(event).0.outcomes.len() <= run.outcomes.len() + 1,
        run.phase is Probing ==> run.step(event).0.outcomes == run.outcomes.push(
            crate::response::probe_verdict(event.probe_reply()),
        ),
{
    let after = run.step(event).0.outcomes;
    assert(after.take(run.outcomes.len() as int) =~= run.outcomes);
}

/// A verdict that has been taken down stands: the verdicts after the first
/// `count` events are what the verdicts after all events begin with.
pub proof fn lemma_verdicts_stand(start: RunView, events: Seq<EventView>, count: int)
    requires
        0 <= count <= events.len(),
    ensures
        begins_with(
            run_from(start, events).0.outcomes,
            run_from(start, events.take(count)).0.outcomes,
        ),
    decreases events.len(),
{
    let early = run_from(start, events.take(count)).0.outcomes;
    if count == events.len() {
        assert(events.take(count) =~= events);
        assert(early.take(early.len() as int) =~= early);
    } else {
        let shorter = events.drop_last();
        lemma_verdicts_stand(start, shorter, count);
        assert(shorter.take(count) =~= events.take(count));
        let before = run_from(start, shorter).0;
        lemma_step_appends(before, events.last());
        let late = run_from(start, events).0.outcomes;
        assert(late.take(early.len() as int) =~= before.outcomes.take(early.len() as int));
    }
}

/// Each verdict is the classification of what the probe of its name brought:
/// where the run waits for a probe after `count` events, the next event
/// settles the verdict on the current name, which stands from then on at the
/// place of that name.
pub proof fn lemma_verdict_follows_probe(start: RunView, events: Seq<EventView>, count: int)
    requires
        start.is_start(),
        0 <= count < events.len(),
        run_from(start, events.take(count)).0.phase is Probing,
    ensures
        run_from(start, events.take(count)).0.next < start.names.len(),
        run_from(start, events.take(count)).0.next < run_from(start, events).0.outcomes.len(),
        run_from(start, events).0.outcomes[run_from(start, events.take(count)).0.next as int]
            == crate::response::probe_verdict(events[count].probe_reply()),
{
    let before = run_from(start, events.take(count)).0;
    lemma_reached(start, events.take(count));
    let through = events.take(count + 1);
    assert(through.drop_last() =~= events.take(count));
    assert(through.last() == events[count]);
    lemma_step_appends(before, events[count]);
    lemma_verdicts_stand(start, events, count + 1);
    let settled = run_from(start, through).0.outcomes;
    let late = run_from(start, events).0.outcomes;
    assert(late.take(settled.len() as int)[before.next as int] == late[before.next as int]);
}

} // verus!
