//! The discovery task: one lookup for one node, as a state machine.
//!
//! The task itself never waits. Whoever drives it sleeps, polls the candidate
//! stream and watches for shutdown, and reports each outcome to the task; the
//! task answers with what to do next and keeps the first-result signal.

use vstd::prelude::*;
use crate::addr::{AddrInfoView, NodeAddr, NodeId};
use crate::error::DiscoveryError;
use crate::liveness::{discovery_needed, needs_discovery, ConnectionInfo, Interval};
use crate::provider::{Discovery, DiscoveryItem};

verus! {

/// Where a task stands in its life.
#[derive(Clone, Copy, Debug, PartialEq, Eq, Structural)]
pub enum Phase {
    /// Waiting for the delay to pass before looking at the telemetry again.
    Delayed,
    /// About to obtain the candidate stream.
    Starting,
    /// Consuming the candidate stream.
    Running,
    /// Ended by itself. The first-result signal is resolved.
    Finished,
    /// Aborted through its handle.
    Aborted,
}

/// What the driver observed while it waited on behalf of a running task.
#[derive(Clone, Debug)]
pub enum StreamEvent {
    /// The endpoint is shutting down.
    Shutdown,
    /// The stream yielded a candidate record.
    Item(DiscoveryItem),
    /// The stream yielded an error.
    Failed,
    /// The stream has ended.
    Ended,
}

impl StreamEvent {
    /// Whether the event ends a running task.
    pub open spec fn is_terminal(self) -> bool {
        !(self is Item)
    }

    /// Whether the event is a record that carries address information.
    pub open spec fn is_useful(self) -> bool {
        self is Item && !self->Item_0.addr_info@.is_empty()
    }
}

/// What the driver has to do after it reported an event.
#[derive(Clone, Debug)]
pub enum TaskAction {
    /// Nothing to hand on: wait for the next event.
    Skip,
    /// Insert the address into the address book, ignoring a failure to do so, and
    /// wait for the next event.
    Deliver(NodeAddr),
    /// Stop waiting: the task is over or was never running.
    Stop,
}

/// The outcome that a waiter on the first result observes.
pub type FirstResult = Option<Result<(), DiscoveryError>>;

/// The first-result signal of success.
pub open spec fn success() -> Option<Result<(), DiscoveryError>> {
    Some(Ok(()))
}

/// The first-result signal of a task that ended without a usable record.
pub open spec fn no_results(node_id: NodeId) -> Option<Result<(), DiscoveryError>> {
    Some(Err(DiscoveryError::NoResults(node_id)))
}

/// What a [`DiscoveryTask`] means.
pub ghost struct TaskState {
    /// The node that is looked up.
    pub node_id: NodeId,
    /// The delay that the task was created with.
    pub delay: Option<Interval>,
    /// Where the task stands.
    pub phase: Phase,
    /// The first-result signal: `None` until it is resolved.
    pub first_result: FirstResult,
    /// The address information handed on for the address book so far.
    pub delivered: Seq<AddrInfoView>,
}

impl TaskState {
    /// What holds of every task from its creation on: before it runs it has
    /// neither resolved its first-result signal nor handed on an address; while
    /// it runs the signal is unresolved or success; once it has handed on an
    /// address the signal is success; and once it has ended by itself the signal
    /// is resolved.
    pub open spec fn coherent(self) -> bool {
        &&& self.phase == Phase::Delayed || self.phase == Phase::Starting
            ==> self.first_result.is_none() && self.delivered.len() == 0
        &&& self.phase == Phase::Running ==> self.first_result.is_none() || self.first_result
            == success()
        &&& self.delivered.len() > 0 ==> self.first_result == success()
        &&& self.phase == Phase::Finished ==> self.first_result.is_some()
    }

    /// The state of a task that has just been created.
    pub open spec fn created(node_id: NodeId, delay: Option<Interval>) -> TaskState {
        TaskState {
            node_id,
            delay,
            phase: if delay.is_some() {
                Phase::Delayed
            } else {
                Phase::Starting
            },
            first_result: None,
            delivered: Seq::empty(),
        }
    }

    /// The state of a task that has just obtained its stream.
    pub open spec fn running(node_id: NodeId, delay: Option<Interval>) -> TaskState {
        TaskState {
            node_id,
            delay,
            phase: Phase::Running,
            first_result: None,
            delivered: Seq::empty(),
        }
    }

    /// The state after the delay has passed, given the telemetry of that moment.
    pub open spec fn after_delay(self, info: Option<ConnectionInfo>) -> TaskState {
        if self.phase != Phase::Delayed {
            self
        } else if discovery_needed(info) {
            TaskState { phase: Phase::Starting, ..self }
        } else {
            TaskState { phase: Phase::Finished, first_result: Some(Ok(())), ..self }
        }
    }

    /// The state after the attempt to obtain the stream.
    pub open spec fn begun(self, failure: Option<DiscoveryError>) -> TaskState {
        if self.phase != Phase::Starting {
            self
        } else {
            match failure {
                None => TaskState { phase: Phase::Running, ..self },
                Some(err) => TaskState {
                    phase: Phase::Finished,
                    first_result: Some(Err(err)),
                    ..self
                },
            }
        }
    }

    /// The first-result signal of a task that ends now.
    pub open spec fn signal_at_end(self) -> FirstResult {
        match self.first_result {
            Some(outcome) => Some(outcome),
            None => Some(Err(DiscoveryError::NoResults(self.node_id))),
        }
    }

    /// The state after one event.
    pub open spec fn step(self, event: StreamEvent) -> TaskState {
        if self.phase != Phase::Running {
            self
        } else if event.is_useful() {
            TaskState {
                first_result: match self.first_result {
                    Some(outcome) => Some(outcome),
                    None => Some(Ok(())),
                },
                delivered: self.delivered.push(event->Item_0.addr_info@),
                ..self
            }
        } else if event is Item {
            self
        } else {
            TaskState { phase: Phase::Finished, first_result: self.signal_at_end(), ..self }
        }
    }

    /// What the driver is told after one event.
    pub open spec fn action(self, event: StreamEvent) -> TaskAction {
        if self.phase != Phase::Running {
            TaskAction::Stop
        } else if event.is_useful() {
            TaskAction::Deliver(NodeAddr { node_id: self.node_id, info: event->Item_0.addr_info })
        } else if event is Item {
            TaskAction::Skip
        } else {
            TaskAction::Stop
        }
    }

    /// The state after the handle cancelled the task or was dropped.
    pub open spec fn cancelled(self) -> TaskState {
        if self.phase == Phase::Finished {
            self
        } else {
            TaskState { phase: Phase::Aborted, ..self }
        }
    }

    /// What a waiter on the first result observes: nothing yet, the resolved
    /// signal, or a closed channel where the task was aborted before it resolved
    /// the signal.
    pub open spec fn first_arrived(self) -> FirstResult {
        match self.first_result {
            Some(outcome) => Some(outcome),
            None => if self.phase == Phase::Aborted {
                Some(Err(DiscoveryError::ChannelClosed))
            } else {
                None
            },
        }
    }

    /// The state after a sequence of events, reported one after the other.
    pub open spec fn run(self, events: Seq<StreamEvent>) -> TaskState
        decreases events.len(),
    {
        if events.len() == 0 {
            self
        } else {
            self.step(events[0]).run(events.skip(1))
        }
    }

    /// A running task has resolved the signal exactly when it has handed on an
    /// address, and then with success.
    pub open spec fn consistent(self) -> bool {
        self.phase == Phase::Running && self.first_result == (if self.delivered.len() > 0 {
            Some(Ok::<(), DiscoveryError>(()))
        } else {
            None
        })
    }
}

/// Whether one of the events ends a running task.
pub open spec fn has_terminal(events: Seq<StreamEvent>) -> bool {
    exists|i: int| 0 <= i < events.len() && (#[trigger] events[i]).is_terminal()
}

/// The address information of the useful records among the events that a
/// running task consumes: those before the first event that ends it.
pub open spec fn useful_records(events: Seq<StreamEvent>) -> Seq<AddrInfoView>
    decreases events.len(),
{
    if events.len() == 0 || events[0].is_terminal() {
        Seq::empty()
    } else if events[0].is_useful() {
        seq![events[0]->Item_0.addr_info@] + useful_records(events.skip(1))
    } else {
        useful_records(events.skip(1))
    }
}

/// What a task hands on for the address book over a sequence of events, in the
/// order of the events.
pub open spec fn deliveries(s: TaskState, events: Seq<StreamEvent>) -> Seq<NodeAddr>
    decreases events.len(),
{
    if events.len() == 0 {
        Seq::empty()
    } else {
        let rest = deliveries(s.step(events[0]), events.skip(1));
        match s.action(events[0]) {
            TaskAction::Deliver(addr) => seq![addr] + rest,
            _ => rest,
        }
    }
}

/// A discovery task for one node.
pub struct DiscoveryTask {
    node_id: NodeId,
    delay: Option<Interval>,
    phase: Phase,
    first_result: Option<Result<(), DiscoveryError>>,
    delivered: Ghost<Seq<AddrInfoView>>,
}

impl View for DiscoveryTask {
    type V = TaskState;

    closed spec fn view(&self) -> TaskState {
        TaskState {
            node_id: self.node_id,
            delay: self.delay,
            phase: self.phase,
            first_result: self.first_result,
            delivered: self.delivered@,
        }
    }
}

/// The stream that a provider's answer gives, or the error for a provider that
/// declined.
pub open spec fn stream_or_refusal<S>(answer: Option<S>, node_id: NodeId) -> Result<
    S,
    DiscoveryError,
> {
    match answer {
        Some(stream) => Ok(stream),
        None => Err(DiscoveryError::NoResolver(node_id)),
    }
}

impl DiscoveryTask {
    /// Starts a task at once. Fails where the endpoint has no provider.
    pub fn start(has_discovery: bool, node_id: NodeId) -> (task: Result<
        DiscoveryTask,
        DiscoveryError,
    >)
        ensures
            task.is_ok() == has_discovery,
            task.is_ok() ==> task->Ok_0@ == TaskState::created(node_id, None) && task->Ok_0@.coherent(),
            task.is_err() ==> task->Err_0 == DiscoveryError::NoDiscoveryConfigured,
    {
        if !has_discovery {
            return Err(DiscoveryError::NoDiscoveryConfigured);
        }
        Ok(
            DiscoveryTask {
                node_id,
                delay: None,
                phase: Phase::Starting,
                first_result: None,
                delivered: Ghost(Seq::empty()),
            },
        )
    }

    /// Starts a task only if no path to the node was recently active, and after
    /// a delay if one is given.
    ///
    /// Returns no task where the telemetry shows a fresh path. Otherwise fails
    /// where the endpoint has no provider. A task created with a delay waits for
    /// it and then looks at the telemetry again, see [`DiscoveryTask::after_delay`].
    pub fn maybe_start_after_delay(
        info: Option<ConnectionInfo>,
        has_discovery: bool,
        node_id: NodeId,
        delay: Option<Interval>,
    ) -> (task: Result<Option<DiscoveryTask>, DiscoveryError>)
        ensures
            !discovery_needed(info) ==> task == Ok::<Option<DiscoveryTask>, DiscoveryError>(None),
            discovery_needed(info) && !has_discovery ==> task == Err::<
                Option<DiscoveryTask>,
                DiscoveryError,
            >(DiscoveryError::NoDiscoveryConfigured),
            discovery_needed(info) && has_discovery ==> task.is_ok() && task->Ok_0.is_some()
                && task->Ok_0->Some_0@ == TaskState::created(node_id, delay)
                && task->Ok_0->Some_0@.coherent(),
    {
        if !needs_discovery(info) {
            return Ok(None);
        }
        if !has_discovery {
            return Err(DiscoveryError::NoDiscoveryConfigured);
        }
        let phase = match delay {
            Some(_) => Phase::Delayed,
            None => Phase::Starting,
        };
        Ok(
            Some(
                DiscoveryTask {
                    node_id,
                    delay,
                    phase,
                    first_result: None,
                    delivered: Ghost(Seq::empty()),
                },
            ),
        )
    }

    /// The node that the task looks up.
    pub fn node_id(&self) -> (node_id: NodeId)
        ensures
            node_id == self@.node_id,
    {
        self.node_id
    }

    /// The delay that the task was created with.
    pub fn delay(&self) -> (delay: Option<Interval>)
        ensures
            delay == self@.delay,
    {
        self.delay
    }

    /// Where the task stands.
    pub fn phase(&self) -> (phase: Phase)
        ensures
            phase == self@.phase,
    {
        self.phase
    }

    /// Reports that the delay has passed, with the telemetry of this moment. A
    /// fresh path ends the task with success, and no provider is asked. Returns
    /// whether the task goes on to obtain its stream.
    pub fn after_delay(&mut self, info: Option<ConnectionInfo>) -> (proceed: bool)
        ensures
            final(self)@ == old(self)@.after_delay(info),
            proceed == (final(self)@.phase == Phase::Starting),
            old(self)@.coherent() ==> final(self)@.coherent(),
    {
        match self.phase {
            Phase::Delayed => {
                if needs_discovery(info) {
                    self.phase = Phase::Starting;
                    true
                } else {
                    self.first_result = Some(Ok(()));
                    self.phase = Phase::Finished;
                    false
                }
            },
            Phase::Starting => true,
            _ => false,
        }
    }

    /// Turns a provider's answer into the stream to consume, or into the error
    /// for a provider that declined to resolve the node.
    pub fn stream_or_error<S>(answer: Option<S>, node_id: NodeId) -> (stream: Result<
        S,
        DiscoveryError,
    >)
        ensures
            stream == stream_or_refusal(answer, node_id),
    {
        match answer {
            Some(stream) => Ok(stream),
            None => Err(DiscoveryError::NoResolver(node_id)),
        }
    }

    /// Asks the endpoint's provider for the candidate stream of the node, on
    /// behalf of this endpoint. Fails where the endpoint has no provider, and
    /// exactly where the provider declines; else the stream is the provider's
    /// answer.
    pub fn create_stream<D: Discovery>(
        discovery: Option<&D>,
        endpoint: &D::Endpoint,
        node_id: NodeId,
    ) -> (stream: Result<D::Stream, DiscoveryError>)
        ensures
            discovery.is_none() ==> stream == Err::<D::Stream, DiscoveryError>(
                DiscoveryError::NoDiscoveryConfigured,
            ),
            discovery.is_some() && stream.is_err() ==> stream->Err_0
                == DiscoveryError::NoResolver(node_id),
            discovery.is_some() ==> exists|answer: Option<D::Stream>|
                #[trigger] discovery.unwrap().may_answer(endpoint, node_id, answer) && stream
                    == stream_or_refusal(answer, node_id),
    {
        match discovery {
            None => Err(DiscoveryError::NoDiscoveryConfigured),
            Some(provider) => {
                let answer = provider.resolve(endpoint, node_id);
                Self::stream_or_error(answer, node_id)
            },
        }
    }

    /// Reports the attempt to obtain the stream: `None` where the stream is
    /// there, else the error. An error ends the task and becomes the first
    /// result. Returns whether the task is running now.
    pub fn begin(&mut self, failure: Option<DiscoveryError>) -> (running: bool)
        ensures
            final(self)@ == old(self)@.begun(failure),
            running == (final(self)@.phase == Phase::Running),
            old(self)@.coherent() ==> final(self)@.coherent(),
    {
        match self.phase {
            Phase::Starting => {
                match failure {
                    None => {
                        self.phase = Phase::Running;
                        true
                    },
                    Some(err) => {
                        self.first_result = Some(Err(err));
                        self.phase = Phase::Finished;
                        false
                    },
                }
            },
            Phase::Running => true,
            _ => false,
        }
    }

    /// Reports one event to a running task and says what to do next.
    ///
    /// A record without address information is passed over. A record with
    /// address information is handed on for the address book, and resolves the
    /// first-result signal with success if it is still unresolved. Shutdown, a
    /// stream error and the end of the stream end the task; the first-result
    /// signal is then resolved with an error if it is still unresolved. A task
    /// that is not running ignores the event.
    pub fn on_event(&mut self, event: StreamEvent) -> (action: TaskAction)
        ensures
            final(self)@ == old(self)@.step(event),
            action == old(self)@.action(event),
            old(self)@.coherent() ==> final(self)@.coherent(),
    {
        match self.phase {
            Phase::Running => {},
            _ => {
                return TaskAction::Stop;
            },
        }
        match event {
            StreamEvent::Item(item) => {
                if item.addr_info.is_empty() {
                    return TaskAction::Skip;
                }
                proof {
                    self.delivered@ = self.delivered@.push(item.addr_info@);
                }
                if self.first_result.is_none() {
                    self.first_result = Some(Ok(()));
                }
                TaskAction::Deliver(NodeAddr { node_id: self.node_id, info: item.addr_info })
            },
            _ => {
                if self.first_result.is_none() {
                    self.first_result = Some(Err(DiscoveryError::NoResults(self.node_id)));
                }
                self.phase = Phase::Finished;
                TaskAction::Stop
            },
        }
    }

    /// Reports a recorded sequence of events, one after the other, and returns
    /// what the task handed on for the address book, in that order. Events
    /// behind the one that ends the task are ignored.
    pub fn run(&mut self, events: Vec<StreamEvent>) -> (handed_on: Vec<NodeAddr>)
        ensures
            final(self)@ == old(self)@.run(events@),
            handed_on@ == deliveries(old(self)@, events@),
            old(self)@.coherent() ==> final(self)@.coherent(),
    {
        let mut handed_on: Vec<NodeAddr> = Vec::new();
        proof {
            assert(events@.skip(0) =~= events@);
            assert(handed_on@ + deliveries(self@, events@) =~= deliveries(self@, events@));
        }
        for event in iter: events
            invariant
                iter.seq() == events@,
                old(self)@.coherent() ==> self@.coherent(),
                self@.run(events@.skip(iter.index() as int)) == old(self)@.run(events@),
                handed_on@ + deliveries(self@, events@.skip(iter.index() as int)) == deliveries(
                    old(self)@,
                    events@,
                ),
        {
            let ghost before = self@;
            let ghost rest = events@.skip(iter.index() as int);
            proof {
                assert(rest[0] == event);
                assert(rest.skip(1) =~= events@.skip(iter.index() + 1));
            }
            let action = self.on_event(event);
            match action {
                TaskAction::Deliver(addr) => {
                    proof {
                        assert((handed_on@.push(addr)) + deliveries(self@, rest.skip(1))
                            =~= handed_on@ + deliveries(before, rest));
                    }
                    handed_on.push(addr);
                },
                _ => {},
            }
        }
        proof {
            assert(events@.skip(events@.len() as int) =~= Seq::<StreamEvent>::empty());
            assert(handed_on@ + Seq::<NodeAddr>::empty() =~= handed_on@);
        }
        handed_on
    }

    /// What a waiter on the first result observes now: `None` while the signal is
    /// unresolved and the task alive, the resolved signal, or a closed channel
    /// where the task was aborted before it resolved the signal.
    pub fn first_arrived(&self) -> (outcome: Option<Result<(), DiscoveryError>>)
        ensures
            outcome == self@.first_arrived(),
    {
        match self.first_result {
            Some(outcome) => Some(outcome),
            None => {
                match self.phase {
                    Phase::Aborted => Some(Err(DiscoveryError::ChannelClosed)),
                    _ => None,
                }
            },
        }
    }

    /// Reports that the channel of the first result was closed: the task is gone.
    /// Aborts the task and returns what the waiter observes, the signal as it
    /// was resolved before, or else the error of a closed channel.
    pub fn close(&mut self) -> (outcome: Result<(), DiscoveryError>)
        ensures
            final(self)@ == old(self)@.cancelled(),
            outcome == (match old(self)@.first_result {
                Some(resolved) => resolved,
                None => Err(DiscoveryError::ChannelClosed),
            }),
            old(self)@.coherent() ==> final(self)@.coherent() && final(self)@.first_arrived()
                == Some(outcome),
    {
        self.cancel();
        match self.first_result {
            Some(resolved) => resolved,
            None => Err(DiscoveryError::ChannelClosed),
        }
    }

    /// Aborts the task. A task that has ended by itself stays as it is.
    pub fn cancel(&mut self)
        ensures
            final(self)@ == old(self)@.cancelled(),
            old(self)@.coherent() ==> final(self)@.coherent(),
    {
        match self.phase {
            Phase::Finished => {},
            _ => {
                self.phase = Phase::Aborted;
            },
        }
    }
}

} // verus!
