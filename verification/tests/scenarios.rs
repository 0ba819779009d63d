use std::cell::RefCell;
use std::collections::HashMap;
use std::rc::Rc;
use std::time::SystemTime;

use node_discovery::addr::{AddrInfo, DirectAddr, NodeAddr, NodeId};
use node_discovery::error::DiscoveryError;
use node_discovery::liveness::{ConnectionInfo, Interval};
use node_discovery::merge::{Arrival, MergedStream, SubstreamEvent};
use node_discovery::provider::{
    collect_streams, keep_answer, ConcurrentDiscovery, Discovery, DiscoveryItem, PublishLog,
};
use node_discovery::task::{DiscoveryTask, Phase, StreamEvent, TaskAction};

type Records = Vec<Result<DiscoveryItem, String>>;

fn system_time_now() -> u64 {
    SystemTime::now()
        .duration_since(SystemTime::UNIX_EPOCH)
        .expect("time drift")
        .as_micros() as u64
}

fn node(tag: u8) -> NodeId {
    NodeId::from_bytes([tag; 32])
}

fn relay_info(url: &str) -> AddrInfo {
    let mut info = AddrInfo::new();
    info.set_relay_url(Some(url.to_string()));
    info
}

fn direct_info(addr: DirectAddr) -> AddrInfo {
    let mut info = AddrInfo::new();
    info.add_direct_address(addr);
    info
}

/// 240.0.0.0/4 is reserved and unreachable.
fn bogus_addr(port: u16) -> DirectAddr {
    DirectAddr::V4 { octets: 0xF000_0001, port }
}

#[derive(Clone, Default)]
struct Shared {
    nodes: Rc<RefCell<HashMap<NodeId, (AddrInfo, u64)>>>,
    publishes: Rc<RefCell<Vec<(NodeId, u64)>>>,
    resolves: Rc<RefCell<usize>>,
}

impl Shared {
    fn create_discovery(&self, node_id: NodeId) -> TestProvider {
        TestProvider::Backend(TestDiscovery {
            node_id,
            shared: self.clone(),
            publish: true,
            resolve_wrong: false,
        })
    }

    fn create_lying_discovery(&self, node_id: NodeId) -> TestProvider {
        TestProvider::Backend(TestDiscovery {
            node_id,
            shared: self.clone(),
            publish: false,
            resolve_wrong: true,
        })
    }
}

struct TestDiscovery {
    node_id: NodeId,
    shared: Shared,
    publish: bool,
    resolve_wrong: bool,
}

enum TestProvider {
    /// Resolves every node to a stream without records.
    Empty,
    /// Declines every node.
    Declining,
    /// Resolves every node to a stream that fails at once.
    Failing,
    /// Publishes to and resolves from a shared table, or lies.
    Backend(TestDiscovery),
}

impl Discovery for TestProvider {
    type Endpoint = NodeId;
    type Stream = Records;

    fn published(&self) -> PublishLog {
        unreachable!("the log exists in proofs only")
    }

    fn publish(&mut self, info: &AddrInfo) {
        if let TestProvider::Backend(disco) = self {
            let now = system_time_now();
            disco.shared.publishes.borrow_mut().push((disco.node_id, now));
            if disco.publish {
                disco.shared.nodes.borrow_mut().insert(disco.node_id, (info.clone(), now));
            }
        }
    }

    fn resolve(&self, _endpoint: &NodeId, node_id: NodeId) -> Option<Records> {
        match self {
            TestProvider::Empty => Some(Vec::new()),
            TestProvider::Declining => None,
            TestProvider::Failing => Some(vec![Err("backend is down".to_string())]),
            TestProvider::Backend(disco) => {
                *disco.shared.resolves.borrow_mut() += 1;
                let found = if disco.resolve_wrong {
                    Some((direct_info(bogus_addr(12_345)), system_time_now() - 100_000))
                } else {
                    disco.shared.nodes.borrow().get(&node_id).cloned()
                };
                Some(match found {
                    Some((addr_info, ts)) => {
                        vec![Ok(DiscoveryItem::new("test-disco", Some(ts), addr_info))]
                    }
                    None => Vec::new(),
                })
            }
        }
    }
}

/// The events that a task sees on the stream of a single provider.
fn single_events(records: Records) -> Vec<StreamEvent> {
    let mut events = Vec::new();
    for record in records {
        match record {
            Ok(item) => events.push(StreamEvent::Item(item)),
            Err(_) => {
                events.push(StreamEvent::Failed);
                return events;
            }
        }
    }
    events.push(StreamEvent::Ended);
    events
}

/// The events that a task sees on the merge of several streams, the substreams
/// taking turns.
fn merged_events(streams: Vec<Records>) -> Vec<StreamEvent> {
    let mut merge = MergedStream::new(streams.len());
    let mut events = Vec::new();
    if merge.is_exhausted() {
        events.push(StreamEvent::Ended);
        return events;
    }
    let mut sources: Vec<std::vec::IntoIter<Result<DiscoveryItem, String>>> =
        streams.into_iter().map(|records| records.into_iter()).collect();
    while !merge.is_exhausted() {
        for (child, source) in sources.iter_mut().enumerate() {
            let event = match source.next() {
                Some(Ok(item)) => SubstreamEvent::Item(item),
                Some(Err(_)) => SubstreamEvent::Failed,
                None => SubstreamEvent::Ended,
            };
            if let Some(yielded) = merge.on_child_event(child, event) {
                events.push(yielded);
            }
        }
    }
    events
}

/// An endpoint as far as discovery is concerned.
struct Endpoint {
    node_id: NodeId,
    discovery: Option<ConcurrentDiscovery<TestProvider>>,
    address_book: Vec<NodeAddr>,
    telemetry: HashMap<NodeId, ConnectionInfo>,
    reachable_at: AddrInfo,
}

impl Endpoint {
    fn new(node_id: NodeId, providers: Vec<TestProvider>, reachable_at: AddrInfo) -> Endpoint {
        let mut discovery = ConcurrentDiscovery::from_services(providers);
        discovery.publish(&reachable_at);
        Endpoint {
            node_id,
            discovery: Some(discovery),
            address_book: Vec::new(),
            telemetry: HashMap::new(),
            reachable_at,
        }
    }

    fn run_discovery(&mut self, task: &mut DiscoveryTask) {
        let stream = DiscoveryTask::create_stream(
            self.discovery.as_ref(),
            &self.node_id,
            task.node_id(),
        );
        match stream {
            Ok(streams) => {
                assert!(task.begin(None));
                let handed_on = task.run(merged_events(streams));
                self.address_book.extend(handed_on);
            }
            Err(err) => {
                assert!(!task.begin(Some(err)));
            }
        }
    }

    /// Whether the address book holds an address at which the peer listens.
    fn can_reach(&self, peer: &Endpoint) -> bool {
        self.address_book.iter().any(|addr| {
            addr.node_id == peer.node_id
                && (addr.info.relay_url().is_some()
                    && addr.info.relay_url() == peer.reachable_at.relay_url()
                    || addr
                        .info
                        .direct_addresses()
                        .iter()
                        .any(|a| peer.reachable_at.direct_addresses().contains(a)))
        })
    }

    /// Dials the peer by its identifier alone.
    fn connect(&mut self, peer: &Endpoint) -> Result<Result<(), DiscoveryError>, String> {
        let info = self.telemetry.get(&peer.node_id).copied();
        let started = DiscoveryTask::maybe_start_after_delay(
            info,
            self.discovery.is_some(),
            peer.node_id,
            Some(Interval::from_millis(500)),
        );
        let mut task = match started {
            Ok(Some(task)) => task,
            Ok(None) => return Err("no discovery task".to_string()),
            Err(err) => return Err(err.message()),
        };
        if task.after_delay(info) {
            self.run_discovery(&mut task);
        }
        let first = task.first_arrived().expect("the task has ended");
        if self.can_reach(peer) {
            Ok(first)
        } else {
            Err(format!("timeout, first result: {:?}", first))
        }
    }
}

#[test]
fn magic_endpoint_discovery_simple_shared() {
    let shared = Shared::default();
    let ep1 = Endpoint::new(node(1), vec![shared.create_discovery(node(1))], relay_info("r1"));
    let mut ep2 = Endpoint::new(node(2), vec![shared.create_discovery(node(2))], relay_info("r2"));
    assert_eq!(ep2.connect(&ep1), Ok(Ok(())));
    assert_eq!(ep2.address_book.len(), 1);
    assert_eq!(ep2.address_book[0].node_id, node(1));
    assert_eq!(ep2.address_book[0].info.relay_url().map(|u| u.as_str()), Some("r1"));
    assert!(ep2.address_book[0].info.direct_addresses().is_empty());
    let records = shared.create_discovery(node(2)).resolve(&node(2), node(1)).unwrap();
    assert_eq!(records.len(), 1);
    assert_eq!(records[0].as_ref().unwrap().provenance, "test-disco");
}

#[test]
fn magic_endpoint_discovery_combined_with_empty() {
    let shared = Shared::default();
    let ep1 = Endpoint::new(node(1), vec![shared.create_discovery(node(1))], relay_info("r1"));
    let mut ep2 = Endpoint::new(
        node(2),
        vec![TestProvider::Empty, shared.create_discovery(node(2))],
        relay_info("r2"),
    );
    assert_eq!(ep2.connect(&ep1), Ok(Ok(())));
    assert_eq!(ep2.address_book.len(), 1);
}

#[test]
fn magic_endpoint_discovery_combined_with_empty_and_wrong() {
    let shared = Shared::default();
    let ep1 = Endpoint::new(node(1), vec![shared.create_discovery(node(1))], relay_info("r1"));
    let mut ep2 = Endpoint::new(
        node(2),
        vec![
            TestProvider::Empty,
            shared.create_lying_discovery(node(2)),
            shared.create_discovery(node(2)),
        ],
        relay_info("r2"),
    );
    assert_eq!(ep2.connect(&ep1), Ok(Ok(())));
    assert_eq!(ep2.address_book.len(), 2);
    assert_eq!(ep2.address_book[0].info.direct_addresses(), &vec![bogus_addr(12_345)]);
    assert_eq!(ep2.address_book[1].info.relay_url().map(|u| u.as_str()), Some("r1"));
}

#[test]
fn magic_endpoint_discovery_combined_wrong_only() {
    let shared = Shared::default();
    let ep1 = Endpoint::new(node(1), vec![shared.create_discovery(node(1))], relay_info("r1"));
    let mut ep2 =
        Endpoint::new(node(2), vec![shared.create_lying_discovery(node(2))], relay_info("r2"));
    let res = ep2.connect(&ep1);
    assert!(res.is_err());
    // The lookup itself delivered an address: only the dial fails.
    assert_eq!(res, Err("timeout, first result: Ok(())".to_string()));
    assert_eq!(ep2.address_book.len(), 1);
}

#[test]
fn magic_endpoint_discovery_with_wrong_existing_addr() {
    let shared = Shared::default();
    let ep1 = Endpoint::new(node(1), vec![shared.create_discovery(node(1))], relay_info("r1"));
    let mut ep2 = Endpoint::new(node(2), vec![shared.create_discovery(node(2))], relay_info("r2"));
    ep2.address_book.push(NodeAddr { node_id: node(1), info: direct_info(bogus_addr(1000)) });
    ep2.telemetry.insert(node(1), ConnectionInfo::new(None, None));
    assert!(!ep2.can_reach(&ep1));
    assert_eq!(ep2.connect(&ep1), Ok(Ok(())));
    assert_eq!(ep2.address_book.len(), 2);
}

#[test]
fn discovery_without_provider() {
    assert_eq!(
        DiscoveryTask::start(false, node(1)).err(),
        Some(DiscoveryError::NoDiscoveryConfigured)
    );
    let stale = Some(ConnectionInfo::new(Some(Interval::from_secs(11)), None));
    let fresh = Some(ConnectionInfo::new(Some(Interval::from_secs(1)), None));
    let delay = Some(Interval::from_millis(500));
    assert_eq!(
        DiscoveryTask::maybe_start_after_delay(stale, false, node(1), delay).err(),
        Some(DiscoveryError::NoDiscoveryConfigured)
    );
    assert_eq!(
        DiscoveryTask::maybe_start_after_delay(None, false, node(1), None).err(),
        Some(DiscoveryError::NoDiscoveryConfigured)
    );
    assert!(matches!(
        DiscoveryTask::maybe_start_after_delay(fresh, false, node(1), delay),
        Ok(None)
    ));
    assert!(matches!(
        DiscoveryTask::maybe_start_after_delay(fresh, true, node(1), delay),
        Ok(None)
    ));
    assert!(matches!(
        DiscoveryTask::maybe_start_after_delay(stale, true, node(1), delay),
        Ok(Some(_))
    ));
    let none: Option<&TestProvider> = None;
    assert_eq!(
        DiscoveryTask::create_stream(none, &node(2), node(1)).err(),
        Some(DiscoveryError::NoDiscoveryConfigured)
    );
}

#[test]
fn provider_that_declines() {
    let declining = TestProvider::Declining;
    assert_eq!(
        DiscoveryTask::create_stream(Some(&declining), &node(2), node(1)).err(),
        Some(DiscoveryError::NoResolver(node(1)))
    );
    assert_eq!(
        DiscoveryTask::stream_or_error::<Records>(None, node(1)).err(),
        Some(DiscoveryError::NoResolver(node(1)))
    );
    assert_eq!(DiscoveryTask::stream_or_error(Some(7u8), node(1)), Ok(7u8));
    let mut task = DiscoveryTask::start(true, node(1)).ok().unwrap();
    assert_eq!(task.phase(), Phase::Starting);
    assert!(!task.begin(Some(DiscoveryError::NoResolver(node(1)))));
    assert_eq!(task.phase(), Phase::Finished);
    assert_eq!(task.first_arrived(), Some(Err(DiscoveryError::NoResolver(node(1)))));
}

#[test]
fn aggregator_of_declining_providers_still_gives_a_stream() {
    let all_decline =
        ConcurrentDiscovery::from_services(vec![TestProvider::Declining, TestProvider::Declining]);
    let streams = all_decline.resolve(&node(2), node(1));
    assert_eq!(streams.as_ref().map(|s| s.len()), Some(0));
    let nothing: ConcurrentDiscovery<TestProvider> = ConcurrentDiscovery::empty();
    assert_eq!(nothing.len(), 0);
    assert_eq!(nothing.resolve(&node(2), node(1)).map(|s| s.len()), Some(0));
    // The task then ends without results.
    let mut task = DiscoveryTask::start(true, node(1)).ok().unwrap();
    assert!(task.begin(None));
    let handed_on = task.run(merged_events(streams.unwrap()));
    assert!(handed_on.is_empty());
    assert_eq!(task.phase(), Phase::Finished);
    assert_eq!(task.first_arrived(), Some(Err(DiscoveryError::NoResults(node(1)))));
}

#[test]
fn aggregator_keeps_streams_in_order_of_registration() {
    let shared = Shared::default();
    shared.create_discovery(node(1)).publish(&relay_info("r1"));
    let mut disco = ConcurrentDiscovery::empty();
    disco.add(TestProvider::Declining);
    disco.add(shared.create_lying_discovery(node(2)));
    disco.add(TestProvider::Empty);
    disco.add(shared.create_discovery(node(2)));
    disco.add(TestProvider::Failing);
    assert_eq!(disco.len(), 5);
    assert!(matches!(disco.service(2), TestProvider::Empty));
    let streams = disco.resolve(&node(2), node(1)).unwrap();
    assert_eq!(streams.len(), 4);
    assert_eq!(
        streams[0][0].as_ref().unwrap().addr_info.direct_addresses(),
        &vec![bogus_addr(12_345)]
    );
    assert!(streams[1].is_empty());
    assert_eq!(
        streams[2][0].as_ref().unwrap().addr_info.relay_url().map(|u| u.as_str()),
        Some("r1")
    );
    assert!(streams[3][0].is_err());
}

#[test]
fn aggregator_publishes_to_each_child_once() {
    let shared = Shared::default();
    let mut disco = ConcurrentDiscovery::from_services(vec![
        shared.create_discovery(node(1)),
        TestProvider::Empty,
        shared.create_discovery(node(2)),
        shared.create_lying_discovery(node(3)),
    ]);
    disco.publish(&relay_info("r1"));
    let seen: Vec<NodeId> = shared.publishes.borrow().iter().map(|p| p.0).collect();
    assert_eq!(seen, vec![node(1), node(2), node(3)]);
    disco.publish(&relay_info("r1"));
    assert_eq!(shared.publishes.borrow().len(), 6);
    assert_eq!(shared.nodes.borrow().len(), 2);
    // An aggregator of aggregators reaches the leaves.
    let inner = ConcurrentDiscovery::from_services(vec![shared.create_discovery(node(4))]);
    let mut outer = ConcurrentDiscovery::from_services(vec![inner]);
    outer.publish(&relay_info("r4"));
    assert_eq!(shared.publishes.borrow().len(), 7);
    assert!(shared.nodes.borrow().contains_key(&node(4)));
}

#[test]
fn merge_survives_a_failing_sibling() {
    let shared = Shared::default();
    let ep1 = Endpoint::new(node(1), vec![shared.create_discovery(node(1))], relay_info("r1"));
    let mut ep2 = Endpoint::new(
        node(2),
        vec![TestProvider::Failing, shared.create_discovery(node(2)), TestProvider::Failing],
        relay_info("r2"),
    );
    assert_eq!(ep2.connect(&ep1), Ok(Ok(())));
}

#[test]
fn merge_closes_a_substream_on_its_error_only() {
    let mut merge = MergedStream::new(3);
    assert!(!merge.is_exhausted());
    assert!(merge.on_child_event(1, SubstreamEvent::Failed).is_none());
    let good = DiscoveryItem::new("test-disco", None, relay_info("r1"));
    // A closed substream yields nothing more.
    assert!(merge.on_child_event(1, SubstreamEvent::Item(good.clone())).is_none());
    // An unknown substream yields nothing.
    assert!(merge.on_child_event(3, SubstreamEvent::Item(good.clone())).is_none());
    match merge.on_child_event(0, SubstreamEvent::Item(good.clone())) {
        Some(StreamEvent::Item(item)) => {
            assert_eq!(item.provenance, "test-disco");
            assert_eq!(item.addr_info.relay_url().map(|u| u.as_str()), Some("r1"));
        }
        other => panic!("unexpected {:?}", other),
    }
    assert!(merge.on_child_event(0, SubstreamEvent::Ended).is_none());
    assert!(!merge.is_exhausted());
    assert!(matches!(merge.on_child_event(2, SubstreamEvent::Failed), Some(StreamEvent::Ended)));
    assert!(merge.is_exhausted());
    assert!(merge.on_child_event(2, SubstreamEvent::Ended).is_none());
    assert!(MergedStream::new(0).is_exhausted());
}

#[test]
fn single_backend_error_ends_the_task() {
    let mut task = DiscoveryTask::start(true, node(1)).ok().unwrap();
    assert!(task.begin(None));
    let records: Records = TestProvider::Failing.resolve(&node(2), node(1)).unwrap();
    let handed_on = task.run(single_events(records));
    assert!(handed_on.is_empty());
    assert_eq!(task.phase(), Phase::Finished);
    let first = task.first_arrived();
    assert_eq!(first, Some(Err(DiscoveryError::NoResults(node(1)))));
    assert_eq!(
        first.unwrap().unwrap_err().message(),
        "discovery produced no results for aeaqcaibaeaqcaib"
    );
}

#[test]
fn empty_records_are_passed_over() {
    let mut task = DiscoveryTask::start(true, node(1)).ok().unwrap();
    assert!(task.begin(None));
    let empty = DiscoveryItem::new("test-disco", None, AddrInfo::new());
    assert!(matches!(task.on_event(StreamEvent::Item(empty.clone())), TaskAction::Skip));
    assert_eq!(task.first_arrived(), None);
    assert_eq!(task.phase(), Phase::Running);
    let good = DiscoveryItem::new("test-disco", Some(5), relay_info("r1"));
    match task.on_event(StreamEvent::Item(good)) {
        TaskAction::Deliver(addr) => {
            assert_eq!(addr.node_id, node(1));
            assert_eq!(addr.info.relay_url().map(|u| u.as_str()), Some("r1"));
        }
        other => panic!("unexpected {:?}", other),
    }
    assert_eq!(task.first_arrived(), Some(Ok(())));
    assert_eq!(task.phase(), Phase::Running);
    // Further updates are still accepted, and the signal stays.
    assert!(matches!(task.on_event(StreamEvent::Item(empty)), TaskAction::Skip));
    let more = DiscoveryItem::new("test-disco", None, direct_info(bogus_addr(1)));
    assert!(matches!(task.on_event(StreamEvent::Item(more)), TaskAction::Deliver(_)));
    assert!(matches!(task.on_event(StreamEvent::Failed), TaskAction::Stop));
    assert_eq!(task.phase(), Phase::Finished);
    assert_eq!(task.first_arrived(), Some(Ok(())));
}

#[test]
fn only_empty_records_give_no_results() {
    let mut task = DiscoveryTask::start(true, node(1)).ok().unwrap();
    assert!(task.begin(None));
    let empty = DiscoveryItem::new("test-disco", None, AddrInfo::new());
    let events = vec![
        StreamEvent::Item(empty.clone()),
        StreamEvent::Item(empty),
        StreamEvent::Ended,
    ];
    assert!(task.run(events).is_empty());
    assert_eq!(task.first_arrived(), Some(Err(DiscoveryError::NoResults(node(1)))));
}

#[test]
fn shutdown_ends_the_task() {
    let mut task = DiscoveryTask::start(true, node(1)).ok().unwrap();
    assert!(task.begin(None));
    let good = DiscoveryItem::new("test-disco", None, relay_info("r1"));
    let events = vec![StreamEvent::Shutdown, StreamEvent::Item(good)];
    assert!(task.run(events).is_empty());
    assert_eq!(task.phase(), Phase::Finished);
    assert_eq!(task.first_arrived(), Some(Err(DiscoveryError::NoResults(node(1)))));
}

#[test]
fn fresh_telemetry_within_the_delay_ends_the_task_with_success() {
    let shared = Shared::default();
    let stale = Some(ConnectionInfo::new(Some(Interval::from_secs(30)), None));
    let fresh = Some(ConnectionInfo::new(Some(Interval::from_secs(30)), Some(Interval::new(0, 5))));
    let delay = Interval::from_millis(500);
    let mut task = DiscoveryTask::maybe_start_after_delay(stale, true, node(1), Some(delay))
        .ok()
        .unwrap()
        .unwrap();
    assert_eq!(task.phase(), Phase::Delayed);
    assert_eq!(task.delay(), Some(delay));
    assert_eq!(task.first_arrived(), None);
    assert!(!task.after_delay(fresh));
    assert_eq!(task.phase(), Phase::Finished);
    assert_eq!(task.first_arrived(), Some(Ok(())));
    assert_eq!(*shared.resolves.borrow(), 0);
    assert!(!task.begin(None));
    let good = DiscoveryItem::new("test-disco", None, relay_info("r1"));
    assert!(matches!(task.on_event(StreamEvent::Item(good)), TaskAction::Stop));
}

#[test]
fn stale_telemetry_after_the_delay_starts_the_lookup() {
    let stale = Some(ConnectionInfo::new(Some(Interval::from_secs(30)), None));
    let mut task =
        DiscoveryTask::maybe_start_after_delay(stale, true, node(1), Some(Interval::from_secs(1)))
            .ok()
            .unwrap()
            .unwrap();
    assert!(task.after_delay(stale));
    assert_eq!(task.phase(), Phase::Starting);
    let mut at_once = DiscoveryTask::maybe_start_after_delay(None, true, node(1), None)
        .ok()
        .unwrap()
        .unwrap();
    assert_eq!(at_once.phase(), Phase::Starting);
    assert_eq!(at_once.delay(), None);
    assert!(at_once.after_delay(None));
    assert!(at_once.begin(None));
    assert_eq!(at_once.phase(), Phase::Running);
}

#[test]
fn cancelled_task_hands_on_nothing() {
    let mut task = DiscoveryTask::start(true, node(1)).ok().unwrap();
    assert!(task.begin(None));
    task.cancel();
    assert_eq!(task.phase(), Phase::Aborted);
    assert_eq!(task.first_arrived(), Some(Err(DiscoveryError::ChannelClosed)));
    let good = DiscoveryItem::new("test-disco", None, relay_info("r1"));
    assert!(matches!(task.on_event(StreamEvent::Item(good.clone())), TaskAction::Stop));
    assert!(task.run(vec![StreamEvent::Item(good), StreamEvent::Ended]).is_empty());
    assert_eq!(task.phase(), Phase::Aborted);
    assert_eq!(task.first_arrived(), Some(Err(DiscoveryError::ChannelClosed)));
}

#[test]
fn cancel_keeps_a_resolved_signal() {
    let mut task = DiscoveryTask::start(true, node(1)).ok().unwrap();
    assert!(task.begin(None));
    let good = DiscoveryItem::new("test-disco", None, relay_info("r1"));
    assert_eq!(task.run(vec![StreamEvent::Item(good)]).len(), 1);
    task.cancel();
    assert_eq!(task.phase(), Phase::Aborted);
    assert_eq!(task.first_arrived(), Some(Ok(())));
    let mut done = DiscoveryTask::start(true, node(1)).ok().unwrap();
    assert!(done.begin(None));
    assert!(matches!(done.on_event(StreamEvent::Ended), TaskAction::Stop));
    done.cancel();
    assert_eq!(done.phase(), Phase::Finished);
    assert_eq!(done.first_arrived(), Some(Err(DiscoveryError::NoResults(node(1)))));
}

#[test]
fn merge_of_recorded_arrivals() {
    let good = DiscoveryItem::new("test-disco", None, relay_info("r1"));
    let bogus = DiscoveryItem::new("liar", None, direct_info(bogus_addr(7)));
    let arrivals = vec![
        Arrival { child: 1, event: SubstreamEvent::Failed },
        Arrival { child: 2, event: SubstreamEvent::Item(bogus.clone()) },
        Arrival { child: 1, event: SubstreamEvent::Item(bogus.clone()) },
        Arrival { child: 0, event: SubstreamEvent::Item(good.clone()) },
        Arrival { child: 2, event: SubstreamEvent::Ended },
        Arrival { child: 0, event: SubstreamEvent::Ended },
        Arrival { child: 0, event: SubstreamEvent::Item(good.clone()) },
    ];
    let mut merge = MergedStream::new(3);
    let yielded = merge.run(arrivals);
    assert_eq!(yielded.len(), 3);
    assert!(matches!(&yielded[0], StreamEvent::Item(item) if *item == bogus));
    assert!(matches!(&yielded[1], StreamEvent::Item(item) if *item == good));
    assert!(matches!(&yielded[2], StreamEvent::Ended));
    assert!(merge.is_exhausted());
    let mut task = DiscoveryTask::start(true, node(1)).ok().unwrap();
    assert!(task.begin(None));
    let handed_on = task.run(yielded);
    assert_eq!(
        handed_on,
        vec![
            NodeAddr { node_id: node(1), info: direct_info(bogus_addr(7)) },
            NodeAddr { node_id: node(1), info: relay_info("r1") },
        ]
    );
    assert_eq!(task.first_arrived(), Some(Ok(())));
    assert_eq!(task.phase(), Phase::Finished);
}

#[test]
fn aggregator_from_a_list_of_providers() {
    let shared = Shared::default();
    let disco = ConcurrentDiscovery::from(vec![
        shared.create_discovery(node(1)),
        TestProvider::Empty,
    ]);
    assert_eq!(disco.len(), 2);
    assert!(matches!(disco.service(1), TestProvider::Empty));
    assert!(matches!(disco.service(0), TestProvider::Backend(_)));
}

#[test]
fn refusals_are_dropped_and_streams_keep_their_order() {
    assert_eq!(collect_streams(vec![None, Some(1u8), None, Some(2u8), Some(3u8)]), vec![1, 2, 3]);
    assert_eq!(collect_streams::<u8>(vec![None, None]), Vec::<u8>::new());
    assert_eq!(collect_streams::<u8>(Vec::new()), Vec::<u8>::new());
    let mut streams = vec![7u8];
    keep_answer(&mut streams, None);
    assert_eq!(streams, vec![7]);
    keep_answer(&mut streams, Some(9));
    assert_eq!(streams, vec![7, 9]);
}

#[test]
fn closed_channel_gives_the_resolved_signal_or_its_own_error() {
    let mut task = DiscoveryTask::start(true, node(1)).ok().unwrap();
    assert!(task.begin(None));
    assert_eq!(task.close(), Err(DiscoveryError::ChannelClosed));
    assert_eq!(task.phase(), Phase::Aborted);
    assert_eq!(task.first_arrived(), Some(Err(DiscoveryError::ChannelClosed)));
    let mut served = DiscoveryTask::start(true, node(1)).ok().unwrap();
    assert!(served.begin(None));
    let good = DiscoveryItem::new("test-disco", None, relay_info("r1"));
    assert_eq!(served.run(vec![StreamEvent::Item(good)]).len(), 1);
    assert_eq!(served.close(), Ok(()));
    assert_eq!(served.phase(), Phase::Aborted);
    let mut ended = DiscoveryTask::start(true, node(1)).ok().unwrap();
    assert!(ended.begin(None));
    assert!(ended.run(vec![StreamEvent::Ended]).is_empty());
    assert_eq!(ended.close(), Err(DiscoveryError::NoResults(node(1))));
    assert_eq!(ended.phase(), Phase::Finished);
}
