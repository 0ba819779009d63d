//! Merging the candidate streams of several providers into one.
//!
//! The merged stream yields every record of every substream as soon as it
//! arrives. A substream that fails or ends is closed and nothing more is taken
//! from it; its siblings go on. The merged stream ends when its last substream
//! has been closed.

use vstd::prelude::*;
use crate::addr::NodeId;
use crate::liveness::Interval;
use crate::provider::DiscoveryItem;
use crate::task::{success, useful_records, StreamEvent, TaskState};

verus! {

/// What a substream yields.
#[derive(Clone, Debug)]
pub enum SubstreamEvent {
    /// A candidate record.
    Item(DiscoveryItem),
    /// An error. It is the last thing the substream yields.
    Failed,
    /// The end of the substream.
    Ended,
}

/// An event of one substream: which substream, and what it yielded.
#[derive(Clone, Debug)]
pub struct Arrival {
    /// The place of the substream among those that are merged.
    pub child: usize,
    /// What it yielded.
    pub event: SubstreamEvent,
}

/// Whether any substream is open.
pub open spec fn any_open(open: Seq<bool>) -> bool {
    exists|i: int| 0 <= i < open.len() && #[trigger] open[i]
}

/// Whether the substream at the given place is one of the merged substreams and
/// still open.
pub open spec fn is_open(open: Seq<bool>, child: usize) -> bool {
    child < open.len() && open[child as int]
}

/// The open substreams after one arrival: a substream that failed or ended is
/// closed.
pub open spec fn merge_step(open: Seq<bool>, arrival: Arrival) -> Seq<bool> {
    if is_open(open, arrival.child) && !(arrival.event is Item) {
        open.update(arrival.child as int, false)
    } else {
        open
    }
}

/// What the merged stream yields on one arrival: the record of an open
/// substream; the end, when the last open substream is closed; else nothing.
pub open spec fn merge_output(open: Seq<bool>, arrival: Arrival) -> Option<StreamEvent> {
    if !is_open(open, arrival.child) {
        None
    } else {
        match arrival.event {
            SubstreamEvent::Item(item) => Some(StreamEvent::Item(item)),
            _ => if any_open(merge_step(open, arrival)) {
                None
            } else {
                Some(StreamEvent::Ended)
            },
        }
    }
}

/// What the merged stream yields over a sequence of arrivals.
pub open spec fn merged(open: Seq<bool>, arrivals: Seq<Arrival>) -> Seq<StreamEvent>
    decreases arrivals.len(),
{
    if arrivals.len() == 0 {
        Seq::empty()
    } else {
        let rest = merged(merge_step(open, arrivals[0]), arrivals.skip(1));
        match merge_output(open, arrivals[0]) {
            Some(event) => seq![event] + rest,
            None => rest,
        }
    }
}

/// Which substreams are open after a sequence of arrivals.
pub open spec fn closed_after(open: Seq<bool>, arrivals: Seq<Arrival>) -> Seq<bool>
    decreases arrivals.len(),
{
    if arrivals.len() == 0 {
        open
    } else {
        closed_after(merge_step(open, arrivals[0]), arrivals.skip(1))
    }
}

/// The merge of a number of substreams: which of them are still open.
pub struct MergedStream {
    open: Vec<bool>,
}

impl View for MergedStream {
    type V = Seq<bool>;

    closed spec fn view(&self) -> Seq<bool> {
        self.open@
    }
}

impl MergedStream {
    /// The merge of the given number of substreams, all of them open.
    pub fn new(substreams: usize) -> (stream: MergedStream)
        ensures
            stream@ == Seq::new(substreams as nat, |i: int| true),
    {
        let mut open: Vec<bool> = Vec::new();
        while open.len() < substreams
            invariant
                open@.len() <= substreams,
                forall|i: int| 0 <= i < open@.len() ==> open@[i],
            decreases substreams - open@.len(),
        {
            open.push(true);
        }
        assert(open@ =~= Seq::new(substreams as nat, |i: int| true));
        MergedStream { open }
    }

    /// Whether the merged stream has ended: no substream is open. The merge of
    /// no substreams has ended from the start.
    pub fn is_exhausted(&self) -> (exhausted: bool)
        ensures
            exhausted == !any_open(self@),
    {
        let mut i: usize = 0;
        while i < self.open.len()
            invariant
                i <= self.open@.len(),
                forall|j: int| 0 <= j < i ==> !self.open@[j],
            decreases self.open@.len() - i,
        {
            if self.open[i] {
                return false;
            }
            i += 1;
        }
        true
    }

    /// Reports what a substream yielded and returns what the merged stream
    /// yields on it, if anything.
    ///
    /// A record of an open substream is yielded as it is. An error or the end of
    /// a substream closes it, its siblings stay open, and the merged stream
    /// yields its end if that was the last open substream. What a closed or
    /// unknown substream yields is dropped.
    pub fn on_child_event(&mut self, child: usize, event: SubstreamEvent) -> (yielded: Option<
        StreamEvent,
    >)
        ensures
            final(self)@ == merge_step(old(self)@, Arrival { child, event }),
            yielded == merge_output(old(self)@, Arrival { child, event }),
    {
        if child >= self.open.len() || !self.open[child] {
            return None;
        }
        match event {
            SubstreamEvent::Item(item) => Some(StreamEvent::Item(item)),
            _ => {
                self.open.set(child, false);
                if self.is_exhausted() {
                    Some(StreamEvent::Ended)
                } else {
                    None
                }
            },
        }
    }

    /// Reports a recorded sequence of arrivals, one after the other, and returns
    /// what the merged stream yields on them, in that order.
    pub fn run(&mut self, arrivals: Vec<Arrival>) -> (yielded: Vec<StreamEvent>)
        ensures
            yielded@ == merged(old(self)@, arrivals@),
            final(self)@ == closed_after(old(self)@, arrivals@),
    {
        let mut yielded: Vec<StreamEvent> = Vec::new();
        proof {
            assert(arrivals@.skip(0) =~= arrivals@);
            assert(yielded@ + merged(self@, arrivals@) =~= merged(self@, arrivals@));
        }
        for arrival in iter: arrivals
            invariant
                iter.seq() == arrivals@,
                closed_after(self@, arrivals@.skip(iter.index() as int)) == closed_after(
                    old(self)@,
                    arrivals@,
                ),
                yielded@ + merged(self@, arrivals@.skip(iter.index() as int)) == merged(
                    old(self)@,
                    arrivals@,
                ),
        {
            let ghost before = self@;
            let ghost rest = arrivals@.skip(iter.index() as int);
            proof {
                assert(rest[0] == arrival);
                assert(rest.skip(1) =~= arrivals@.skip(iter.index() + 1));
            }
            let Arrival { child, event } = arrival;
            match self.on_child_event(child, event) {
                Some(out) => {
                    proof {
                        assert((yielded@.push(out)) + merged(self@, rest.skip(1)) =~= yielded@
                            + merged(before, rest));
                    }
                    yielded.push(out);
                },
                None => {},
            }
        }
        proof {
            assert(arrivals@.skip(arrivals@.len() as int) =~= Seq::<Arrival>::empty());
            assert(yielded@ + Seq::<StreamEvent>::empty() =~= yielded@);
        }
        yielded
    }
}

/// The merged stream never yields an error or a shutdown: the failure of a
/// substream stays with that substream.
pub proof fn lemma_merge_absorbs_failures(open: Seq<bool>, arrivals: Seq<Arrival>)
    ensures
        forall|k: int|
            0 <= k < merged(open, arrivals).len() ==> (#[trigger] merged(open, arrivals)[k]) is Item
                || merged(open, arrivals)[k] is Ended,
    decreases arrivals.len(),
{
    if arrivals.len() > 0 {
        let rest = merged(merge_step(open, arrivals[0]), arrivals.skip(1));
        lemma_merge_absorbs_failures(merge_step(open, arrivals[0]), arrivals.skip(1));
        match merge_output(open, arrivals[0]) {
            Some(event) => {
                assert forall|k: int| 0 <= k < merged(open, arrivals).len() implies (
                #[trigger] merged(open, arrivals)[k]) is Item || merged(open, arrivals)[k] is Ended by {
                    if k > 0 {
                        assert(merged(open, arrivals)[k] == rest[k - 1]);
                    }
                }
            },
            None => {},
        }
    }
}

/// A record with address information that an open substream yields before it
/// fails or ends is counted among the useful records of the merged stream,
/// whatever the other substreams do before.
pub proof fn lemma_merge_keeps_good_record(open: Seq<bool>, arrivals: Seq<Arrival>, at: int)
    requires
        0 <= at < arrivals.len(),
        is_open(open, arrivals[at].child),
        arrivals[at].event is Item,
        !arrivals[at].event->Item_0.addr_info@.is_empty(),
        forall|j: int|
            0 <= j < at && (#[trigger] arrivals[j]).child == arrivals[at].child
                ==> arrivals[j].event is Item,
    ensures
        useful_records(merged(open, arrivals)).len() > 0,
    decreases arrivals.len(),
{
    let first = arrivals[0];
    let rest_arrivals = arrivals.skip(1);
    let rest = merged(merge_step(open, first), rest_arrivals);
    if at == 0 {
        let event = StreamEvent::Item(first.event->Item_0);
        assert(merge_output(open, first) == Some(event));
        assert(merged(open, arrivals)[0] == event);
        assert(event.is_useful());
    } else {
        let child = arrivals[at].child;
        assert(rest_arrivals[at - 1] == arrivals[at]);
        assert forall|j: int|
            0 <= j < at - 1 && (#[trigger] rest_arrivals[j]).child == child implies rest_arrivals[j].event is Item by {
            assert(rest_arrivals[j] == arrivals[j + 1]);
        }
        assert(is_open(merge_step(open, first), child));
        lemma_merge_keeps_good_record(merge_step(open, first), rest_arrivals, at - 1);
        match merge_output(open, first) {
            Some(event) => {
                if event is Ended {
                    assert(merge_step(open, first)[child as int]);
                    assert(any_open(merge_step(open, first)));
                }
                assert(event is Item);
                assert(merged(open, arrivals) == seq![event] + rest);
                assert(merged(open, arrivals)[0] == event);
                assert(merged(open, arrivals).skip(1) =~= rest);
            },
            None => {},
        }
    }
}

/// Merging is resilient: where one substream yields a record with address
/// information before it fails or ends, a task that consumes the merged stream
/// resolves its first result with success, even if every other substream fails.
pub proof fn lemma_merge_resilience(
    node_id: NodeId,
    delay: Option<Interval>,
    open: Seq<bool>,
    arrivals: Seq<Arrival>,
    at: int,
)
    requires
        0 <= at < arrivals.len(),
        is_open(open, arrivals[at].child),
        arrivals[at].event is Item,
        !arrivals[at].event->Item_0.addr_info@.is_empty(),
        forall|j: int|
            0 <= j < at && (#[trigger] arrivals[j]).child == arrivals[at].child
                ==> arrivals[j].event is Item,
    ensures
        TaskState::running(node_id, delay).run(merged(open, arrivals)).first_result == success(),
        TaskState::running(node_id, delay).run(merged(open, arrivals)).first_arrived()
            == success(),
{
    lemma_merge_keeps_good_record(open, arrivals, at);
    crate::lifecycle::lemma_run(TaskState::running(node_id, delay), merged(open, arrivals));
}

} // verus!
