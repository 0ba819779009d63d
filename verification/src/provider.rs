//! The discovery capability and the aggregator that runs several providers
//! side by side.

use vstd::prelude::*;
use crate::addr::{AddrInfo, AddrInfoView, NodeId};

verus! {

/// A candidate record that a provider found for a node.
#[derive(Clone, Debug, PartialEq)]
pub struct DiscoveryItem {
    /// Short name of the provider that produced the record.
    pub provenance: &'static str,
    /// When the provider last refreshed the record, in microseconds since the
    /// Unix epoch, if it knows.
    pub last_updated: Option<u64>,
    /// The address information found for the node.
    pub addr_info: AddrInfo,
}

/// What a [`DiscoveryItem`] means.
pub ghost struct DiscoveryItemView {
    pub provenance: Seq<char>,
    pub last_updated: Option<u64>,
    pub addr_info: AddrInfoView,
}

impl View for DiscoveryItem {
    type V = DiscoveryItemView;

    open spec fn view(&self) -> DiscoveryItemView {
        DiscoveryItemView {
            provenance: self.provenance@,
            last_updated: self.last_updated,
            addr_info: self.addr_info@,
        }
    }
}

impl DiscoveryItem {
    /// A record with the given parts.
    pub fn new(provenance: &'static str, last_updated: Option<u64>, addr_info: AddrInfo) -> (item:
        DiscoveryItem)
        ensures
            item.provenance == provenance,
            item.last_updated == last_updated,
            item.addr_info == addr_info,
    {
        DiscoveryItem { provenance, last_updated, addr_info }
    }
}

/// The address information handed to a provider, oldest first.
pub type PublishLog = Seq<AddrInfoView>;

/// A provider of address information.
///
/// The endpoint publishes its own address information to the provider whenever it
/// changes, and asks the provider to resolve the nodes that it wants to dial.
pub trait Discovery {
    /// What the provider needs of the endpoint on whose behalf it resolves.
    type Endpoint;

    /// The lazy sequence of candidate records that a lookup yields.
    type Stream;

    /// The address information handed to this provider so far, oldest first.
    /// The log exists in proofs only: nothing ever calls this function when the
    /// program runs.
    spec fn published(&self) -> PublishLog;

    /// Tells the provider that the local address information has changed. The
    /// call does not wait for the provider's own work.
    fn publish(&mut self, info: &AddrInfo)
        ensures
            final(self).published() == old(self).published().push(info@),
    ;

    /// What the provider says of its own answers: whether a lookup of the node on
    /// behalf of the endpoint may give this answer. A provider that says nothing
    /// admits every answer.
    open spec fn may_answer(
        &self,
        endpoint: &Self::Endpoint,
        node_id: NodeId,
        answer: Option<Self::Stream>,
    ) -> bool {
        true
    }

    /// Begins a lookup of the node. `None` means that the provider declines to
    /// resolve this node. The lookup leaves the record of what was published
    /// untouched.
    fn resolve(&self, endpoint: &Self::Endpoint, node_id: NodeId) -> (stream: Option<
        Self::Stream,
    >)
        ensures
            self.may_answer(endpoint, node_id, stream),
    ;
}

/// Whether the given answers are answers that the providers may give to a lookup
/// of the node, provider by provider.
pub open spec fn answers_of<D: Discovery>(
    providers: Seq<D>,
    endpoint: &D::Endpoint,
    node_id: NodeId,
    answers: Seq<Option<D::Stream>>,
) -> bool {
    &&& answers.len() == providers.len()
    &&& forall|i: int|
        0 <= i < providers.len() ==> (#[trigger] providers[i]).may_answer(
            endpoint,
            node_id,
            answers[i],
        )
}

/// Whether the given streams are what a lookup of the node on the providers may
/// gather: the answers of all the providers, in their order, without the
/// refusals.
pub open spec fn gathered_from<D: Discovery>(
    providers: Seq<D>,
    endpoint: &D::Endpoint,
    node_id: NodeId,
    streams: Seq<D::Stream>,
) -> bool {
    exists|answers: Seq<Option<D::Stream>>|
        answers_of(providers, endpoint, node_id, answers) && streams == #[trigger] accepted(
            answers,
        )
}

/// What remains of the streams gathered so far once the next provider has
/// answered: its stream is appended, unless it declined.
pub open spec fn with_answer<S>(streams: Seq<S>, answer: Option<S>) -> Seq<S> {
    match answer {
        Some(stream) => streams.push(stream),
        None => streams,
    }
}

/// The streams of the providers that did not decline, in the order of the
/// providers.
pub open spec fn accepted<S>(answers: Seq<Option<S>>) -> Seq<S>
    decreases answers.len(),
{
    if answers.len() == 0 {
        Seq::empty()
    } else {
        with_answer(accepted(answers.drop_last()), answers.last())
    }
}

/// Adds a provider's answer to the streams gathered so far: a stream is kept
/// behind those of the providers asked before, a refusal is dropped.
pub fn keep_answer<S>(streams: &mut Vec<S>, answer: Option<S>)
    ensures
        final(streams)@ == with_answer(old(streams)@, answer),
{
    match answer {
        Some(stream) => {
            streams.push(stream);
        },
        None => {},
    }
}

/// No more streams are kept than there were answers.
pub proof fn lemma_accepted_len<S>(answers: Seq<Option<S>>)
    ensures
        accepted(answers).len() <= answers.len(),
    decreases answers.len(),
{
    if answers.len() > 0 {
        lemma_accepted_len(answers.drop_last());
    }
}

/// Gathers the streams to merge from the answers of the providers: the streams
/// of those that did not decline, in the order of the providers.
pub fn collect_streams<S>(answers: Vec<Option<S>>) -> (streams: Vec<S>)
    ensures
        streams@ == accepted(answers@),
{
    let mut streams: Vec<S> = Vec::new();
    proof {
        assert(answers@.take(0) =~= Seq::<Option<S>>::empty());
    }
    for answer in iter: answers
        invariant
            iter.seq() == answers@,
            streams@ == accepted(answers@.take(iter.index() as int)),
    {
        proof {
            let next = answers@.take(iter.index() + 1);
            assert(next.drop_last() =~= answers@.take(iter.index() as int));
            assert(next.last() == answer);
        }
        keep_answer(&mut streams, answer);
    }
    proof {
        assert(answers@.take(answers@.len() as int) =~= answers@);
    }
    streams
}

/// A provider that combines several providers. Publishing reaches each of them,
/// and a lookup runs on all of them side by side.
pub struct ConcurrentDiscovery<D: Discovery> {
    services: Vec<D>,
    log: Ghost<Seq<AddrInfoView>>,
}

impl<D: Discovery> ConcurrentDiscovery<D> {
    /// The combined providers, in the order in which they were registered.
    pub closed spec fn children(&self) -> Seq<D> {
        self.services@
    }

    /// An aggregator without providers.
    pub fn empty() -> (this: Self)
        ensures
            this.children() == Seq::<D>::empty(),
            this.published() == Seq::<AddrInfoView>::empty(),
    {
        ConcurrentDiscovery { services: Vec::new(), log: Ghost(Seq::empty()) }
    }

    /// An aggregator of the given providers, in their order.
    pub fn from_services(services: Vec<D>) -> (this: Self)
        ensures
            this.children() == services@,
            this.published() == Seq::<AddrInfoView>::empty(),
    {
        ConcurrentDiscovery { services, log: Ghost(Seq::empty()) }
    }

    /// Registers one more provider behind those that are there.
    pub fn add(&mut self, service: D)
        ensures
            final(self).children() == old(self).children().push(service),
            final(self).published() == old(self).published(),
    {
        self.services.push(service);
    }

    /// The number of combined providers.
    pub fn len(&self) -> (n: usize)
        ensures
            n == self.children().len(),
    {
        self.services.len()
    }

    /// The provider at the given place.
    pub fn service(&self, index: usize) -> (service: &D)
        requires
            index < self.children().len(),
        ensures
            *service == self.children()[index as int],
    {
        &self.services[index]
    }
}

impl<D: Discovery> From<Vec<D>> for ConcurrentDiscovery<D> {
    /// An aggregator of the given providers, in their order.
    fn from(services: Vec<D>) -> (this: Self) {
        ConcurrentDiscovery { services, log: Ghost(Seq::empty()) }
    }
}

impl<D: Discovery> vstd::std_specs::convert::FromSpecImpl<Vec<D>> for ConcurrentDiscovery<D> {
    open spec fn obeys_from_spec() -> bool {
        true
    }

    closed spec fn from_spec(services: Vec<D>) -> Self {
        ConcurrentDiscovery { services, log: Ghost(Seq::empty()) }
    }
}

/// The aggregator made from a list of providers combines exactly these, in
/// their order, and nothing has been published to it.
pub proof fn lemma_from_services<D: Discovery>(services: Vec<D>)
    ensures
        (<ConcurrentDiscovery<D> as vstd::std_specs::convert::FromSpec<Vec<D>>>::from_spec(
            services,
        )).children() == services@,
        (<ConcurrentDiscovery<D> as vstd::std_specs::convert::FromSpec<Vec<D>>>::from_spec(
            services,
        )).published() == Seq::<AddrInfoView>::empty(),
{
}

impl<D: Discovery> Discovery for ConcurrentDiscovery<D> {
    type Endpoint = D::Endpoint;

    type Stream = Vec<D::Stream>;

    closed spec fn published(&self) -> PublishLog {
        self.log@
    }

    /// Hands the address information to every provider, once each, in the order
    /// of registration.
    fn publish(&mut self, info: &AddrInfo)
        ensures
            final(self).children().len() == old(self).children().len(),
            forall|i: int|
                0 <= i < old(self).children().len() ==> (#[trigger] final(self).children()[i]).published()
                    == old(self).children()[i].published().push(info@),
    {
        let n: usize = self.services.len();
        let mut i: usize = 0;
        while i < n
            invariant
                i <= n,
                n == self.services@.len(),
                n == old(self).services@.len(),
                self.log == old(self).log,
                forall|j: int|
                    0 <= j < i ==> (#[trigger] self.services@[j]).published() == old(
                        self,
                    ).services@[j].published().push(info@),
                forall|j: int| i <= j < n ==> #[trigger] self.services@[j] == old(self).services@[j],
            decreases n - i,
        {
            let service = &mut self.services[i];
            service.publish(info);
            i += 1;
        }
        self.log = Ghost(self.log@.push(info@));
    }

    /// The aggregator never declines, and its answer holds what its providers
    /// answered, in their order, without the refusals.
    open spec fn may_answer(
        &self,
        endpoint: &D::Endpoint,
        node_id: NodeId,
        answer: Option<Vec<D::Stream>>,
    ) -> bool {
        answer.is_some() && gathered_from(self.children(), endpoint, node_id, answer->Some_0@)
    }

    /// Asks every provider once, in the order of registration, and gathers the
    /// streams of those that do not decline, see [`collect_streams`]. The answer
    /// is a set of streams to be merged even when it is empty.
    fn resolve(&self, endpoint: &D::Endpoint, node_id: NodeId) -> (stream: Option<
        Vec<D::Stream>,
    >)
        ensures
            stream.is_some(),
            stream->Some_0@.len() <= self.children().len(),
            gathered_from(self.children(), endpoint, node_id, stream->Some_0@),
    {
        let mut answers: Vec<Option<D::Stream>> = Vec::new();
        let mut i: usize = 0;
        while i < self.services.len()
            invariant
                i <= self.services@.len(),
                answers@.len() == i,
                forall|j: int|
                    0 <= j < i ==> (#[trigger] self.services@[j]).may_answer(
                        endpoint,
                        node_id,
                        answers@[j],
                    ),
            decreases self.services@.len() - i,
        {
            answers.push(self.services[i].resolve(endpoint, node_id));
            i += 1;
        }
        proof {
            lemma_accepted_len(answers@);
            assert(answers_of(self.children(), endpoint, node_id, answers@));
        }
        Some(collect_streams(answers))
    }
}

} // verus!
