//! What holds of a discovery task over its whole life.

use vstd::prelude::*;
use crate::addr::NodeId;
use crate::error::DiscoveryError;
use crate::liveness::{discovery_needed, ConnectionInfo, Interval};
use crate::task::{
    has_terminal, no_results, success, useful_records, Phase, StreamEvent, TaskAction, TaskState,
};

verus! {

/// A task is coherent when it is created.
pub proof fn lemma_created_is_coherent(node_id: NodeId, delay: Option<Interval>)
    ensures
        TaskState::created(node_id, delay).coherent(),
        TaskState::created(node_id, delay).first_arrived().is_none(),
{
}

/// One of the events ends a running task exactly if the first one does or one
/// of the others does.
pub proof fn lemma_has_terminal_split(events: Seq<StreamEvent>)
    requires
        events.len() > 0,
    ensures
        has_terminal(events) == (events[0].is_terminal() || has_terminal(events.skip(1))),
{
    let rest = events.skip(1);
    if has_terminal(events) {
        let i = choose|i: int| 0 <= i < events.len() && (#[trigger] events[i]).is_terminal();
        if i > 0 {
            assert(rest[i - 1] == events[i]);
            assert(rest[i - 1].is_terminal());
        }
    }
    if has_terminal(rest) {
        let j = choose|j: int| 0 <= j < rest.len() && (#[trigger] rest[j]).is_terminal();
        assert(events[j + 1] == rest[j]);
        assert(events[j + 1].is_terminal());
    }
    if events[0].is_terminal() {
        assert(has_terminal(events));
    }
}

/// A task that is not running takes no notice of events: its state stays as it
/// is, whatever is reported, and the driver is told to stop.
pub proof fn lemma_idle_task_ignores_events(s: TaskState, events: Seq<StreamEvent>)
    requires
        s.phase != Phase::Running,
    ensures
        s.run(events) == s,
        forall|event: StreamEvent| #[trigger] s.action(event) == TaskAction::Stop,
    decreases events.len(),
{
    if events.len() > 0 {
        lemma_idle_task_ignores_events(s, events.skip(1));
    }
}

/// No transition changes a first-result signal that is resolved, a task that
/// has ended by itself never changes again, and a task that ends has resolved
/// the signal: the signal is resolved exactly once.
pub proof fn lemma_signal_resolved_once(
    s: TaskState,
    info: Option<ConnectionInfo>,
    failure: Option<DiscoveryError>,
    event: StreamEvent,
)
    requires
        s.coherent(),
    ensures
        s.after_delay(info).coherent(),
        s.begun(failure).coherent(),
        s.step(event).coherent(),
        s.cancelled().coherent(),
        s.first_result.is_some() ==> s.after_delay(info).first_result == s.first_result
            && s.begun(failure).first_result == s.first_result && s.step(event).first_result
            == s.first_result && s.cancelled().first_result == s.first_result,
        s.phase == Phase::Finished ==> s.after_delay(info) == s && s.begun(failure) == s && s.step(
            event,
        ) == s && s.cancelled() == s,
{
}

/// Whatever is reported to a coherent task, it stays coherent.
pub proof fn lemma_run_keeps_coherence(s: TaskState, events: Seq<StreamEvent>)
    requires
        s.coherent(),
    ensures
        s.run(events).coherent(),
    decreases events.len(),
{
    if events.len() > 0 {
        lemma_signal_resolved_once(s, None, None, events[0]);
        lemma_run_keeps_coherence(s.step(events[0]), events.skip(1));
    }
}

/// Over any sequence of events a resolved first-result signal stays what it is.
pub proof fn lemma_signal_is_kept(s: TaskState, events: Seq<StreamEvent>)
    requires
        s.first_result.is_some(),
    ensures
        s.run(events).first_result == s.first_result,
    decreases events.len(),
{
    if events.len() > 0 {
        lemma_signal_is_kept(s.step(events[0]), events.skip(1));
    }
}

/// The records counted as useful all carry address information.
pub proof fn lemma_useful_records_are_not_empty(events: Seq<StreamEvent>)
    ensures
        forall|i: int|
            0 <= i < useful_records(events).len() ==> !(#[trigger] useful_records(
                events,
            )[i]).is_empty(),
    decreases events.len(),
{
    if events.len() > 0 && !events[0].is_terminal() {
        let rest = useful_records(events.skip(1));
        lemma_useful_records_are_not_empty(events.skip(1));
        if events[0].is_useful() {
            let first = events[0]->Item_0.addr_info@;
            assert forall|i: int| 0 <= i < useful_records(events).len() implies !(
            #[trigger] useful_records(events)[i]).is_empty() by {
                if i > 0 {
                    assert(useful_records(events)[i] == rest[i - 1]);
                } else {
                    assert(useful_records(events)[i] == first);
                }
            }
        }
    }
}

/// What a running task has become after a sequence of events: it has handed on
/// exactly the useful records that came before the first event that ends it, in
/// their order; it has ended exactly if such an event came; and its first-result
/// signal is success if it has handed on any address, an error if it ended
/// without one, and unresolved otherwise.
pub proof fn lemma_run(s: TaskState, events: Seq<StreamEvent>)
    requires
        s.consistent(),
    ensures
        s.run(events).node_id == s.node_id,
        s.run(events).delay == s.delay,
        s.run(events).delivered == s.delivered + useful_records(events),
        s.run(events).phase == (if has_terminal(events) {
            Phase::Finished
        } else {
            Phase::Running
        }),
        s.run(events).first_result == (if s.delivered.len() + useful_records(events).len() > 0 {
            success()
        } else if has_terminal(events) {
            no_results(s.node_id)
        } else {
            None
        }),
    decreases events.len(),
{
    if events.len() == 0 {
        assert(s.delivered + useful_records(events) =~= s.delivered);
    } else {
        let first = events[0];
        let rest = events.skip(1);
        let next = s.step(first);
        lemma_has_terminal_split(events);
        if first.is_terminal() {
            lemma_idle_task_ignores_events(next, rest);
            assert(s.delivered + useful_records(events) =~= s.delivered);
        } else if first.is_useful() {
            lemma_run(next, rest);
            assert(next.delivered + useful_records(rest) =~= s.delivered + useful_records(events));
        } else {
            lemma_run(next, rest);
        }
    }
}

/// The first-result signal of a task that ran from the start of its stream to
/// an event that ended it is resolved, and it is success exactly if a record
/// with address information was consumed before that event.
pub proof fn lemma_first_result_exact(
    node_id: NodeId,
    delay: Option<Interval>,
    events: Seq<StreamEvent>,
)
    requires
        has_terminal(events),
    ensures
        ({
            let end = TaskState::running(node_id, delay).run(events);
            &&& end.phase == Phase::Finished
            &&& end.first_result.is_some()
            &&& end.first_result == success() <==> useful_records(events).len() > 0
            &&& end.first_result == no_results(node_id) <==> useful_records(events).len() == 0
            &&& end.first_arrived() == end.first_result
        }),
{
    lemma_run(TaskState::running(node_id, delay), events);
}

/// A record without address information changes nothing: the task stays as it
/// is, the first-result signal included, and nothing is handed on.
pub proof fn lemma_empty_record_is_passed_over(s: TaskState, event: StreamEvent)
    requires
        event is Item,
        event->Item_0.addr_info@.is_empty(),
    ensures
        s.step(event) == s,
        !(s.action(event) is Deliver),
{
}

/// Nothing but records with address information is handed on, and only they
/// resolve the signal with success: a task that was fed nothing else has handed
/// on nothing and has not succeeded.
pub proof fn lemma_only_useful_records_count(
    node_id: NodeId,
    delay: Option<Interval>,
    events: Seq<StreamEvent>,
)
    requires
        forall|i: int| 0 <= i < events.len() ==> !(#[trigger] events[i]).is_useful(),
    ensures
        TaskState::running(node_id, delay).run(events).delivered == Seq::<
            crate::addr::AddrInfoView,
        >::empty(),
        TaskState::running(node_id, delay).run(events).first_result != success(),
{
    lemma_run(TaskState::running(node_id, delay), events);
    lemma_no_useful_records(events);
}

/// Events of which none is a record with address information hold no useful
/// record.
pub proof fn lemma_no_useful_records(events: Seq<StreamEvent>)
    requires
        forall|i: int| 0 <= i < events.len() ==> !(#[trigger] events[i]).is_useful(),
    ensures
        useful_records(events).len() == 0,
    decreases events.len(),
{
    if events.len() > 0 && !events[0].is_terminal() {
        let rest = events.skip(1);
        assert forall|i: int| 0 <= i < rest.len() implies !(#[trigger] rest[i]).is_useful() by {
            assert(rest[i] == events[i + 1]);
        }
        lemma_no_useful_records(rest);
    }
}

/// A record with address information that comes before any event that ends the
/// task is counted as useful.
pub proof fn lemma_useful_record_is_counted(events: Seq<StreamEvent>, at: int)
    requires
        0 <= at < events.len(),
        events[at].is_useful(),
        forall|j: int| 0 <= j < at ==> !(#[trigger] events[j]).is_terminal(),
    ensures
        useful_records(events).len() > 0,
    decreases events.len(),
{
    if at > 0 {
        let rest = events.skip(1);
        assert(rest[at - 1] == events[at]);
        assert forall|j: int| 0 <= j < at - 1 implies !(#[trigger] rest[j]).is_terminal() by {
            assert(rest[j] == events[j + 1]);
        }
        lemma_useful_record_is_counted(rest, at - 1);
    }
}

/// Whatever else the merged stream yields, a record with address information
/// that arrives before the stream fails, ends or is shut down makes the first
/// result a success.
pub proof fn lemma_good_record_wins(
    node_id: NodeId,
    delay: Option<Interval>,
    events: Seq<StreamEvent>,
    at: int,
)
    requires
        0 <= at < events.len(),
        events[at].is_useful(),
        forall|j: int| 0 <= j < at ==> !(#[trigger] events[j]).is_terminal(),
    ensures
        TaskState::running(node_id, delay).run(events).first_result == success(),
        TaskState::running(node_id, delay).run(events).first_arrived() == success(),
{
    lemma_useful_record_is_counted(events, at);
    lemma_run(TaskState::running(node_id, delay), events);
}

/// A task created with a delay that finds a fresh path when the delay has
/// passed ends with success, never asks for a stream, and hands on nothing,
/// whatever is reported to it afterwards.
pub proof fn lemma_delay_gating(
    node_id: NodeId,
    delay: Interval,
    info: Option<ConnectionInfo>,
    failure: Option<DiscoveryError>,
    events: Seq<StreamEvent>,
)
    requires
        !discovery_needed(info),
    ensures
        ({
            let end = TaskState::created(node_id, Some(delay)).after_delay(info);
            &&& end.phase == Phase::Finished
            &&& end.first_arrived() == success()
            &&& end.delivered.len() == 0
            &&& end.begun(failure) == end
            &&& end.run(events) == end
        }),
{
    let end = TaskState::created(node_id, Some(delay)).after_delay(info);
    lemma_idle_task_ignores_events(end, events);
}

/// After a cancellation nothing more is handed on for the address book: the
/// task ignores every event, and a waiter sees the signal as it was resolved
/// before, or else a closed channel.
pub proof fn lemma_cancelled_task_is_silent(s: TaskState, events: Seq<StreamEvent>)
    requires
        s.coherent(),
    ensures
        s.cancelled().run(events) == s.cancelled(),
        s.cancelled().run(events).delivered == s.delivered,
        forall|event: StreamEvent| #[trigger] s.cancelled().action(event) == TaskAction::Stop,
        s.cancelled().first_arrived() == (match s.first_result {
            Some(outcome) => Some(outcome),
            None => Some(Err(DiscoveryError::ChannelClosed)),
        }),
{
    lemma_idle_task_ignores_events(s.cancelled(), events);
}

} // verus!
