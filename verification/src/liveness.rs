//! When a lookup is warranted: the rule over a peer's liveness telemetry.

use vstd::prelude::*;

verus! {

/// Nanoseconds in a second.
pub const NANOS_PER_SEC: u128 = 1_000_000_000;

/// The longest time since the last message received from a node on a path for
/// which the path still counts as alive, in seconds.
pub const MAX_AGE_SECS: u64 = 10;

/// The same threshold in nanoseconds.
pub open spec fn max_age_nanos() -> nat {
    10_000_000_000
}

/// A span of time: whole seconds and additional nanoseconds.
#[derive(Clone, Copy, Debug, PartialEq, Eq, Structural)]
pub struct Interval {
    /// Whole seconds.
    pub secs: u64,
    /// Nanoseconds on top of the whole seconds.
    pub subsec_nanos: u32,
}

impl Interval {
    /// The span in nanoseconds.
    pub open spec fn as_nanos(self) -> nat {
        (self.secs as nat) * 1_000_000_000 + self.subsec_nanos as nat
    }

    /// Whether the span is strictly longer than the threshold.
    pub open spec fn is_stale(self) -> bool {
        self.as_nanos() > max_age_nanos()
    }

    /// A span of whole seconds and additional nanoseconds.
    pub fn new(secs: u64, subsec_nanos: u32) -> (span: Interval)
        ensures
            span.secs == secs,
            span.subsec_nanos == subsec_nanos,
    {
        Interval { secs, subsec_nanos }
    }

    /// A span of whole seconds.
    pub fn from_secs(secs: u64) -> (span: Interval)
        ensures
            span.as_nanos() == secs as nat * 1_000_000_000,
            span.secs == secs,
            span.subsec_nanos == 0,
    {
        Interval { secs, subsec_nanos: 0 }
    }

    /// A span of milliseconds.
    pub fn from_millis(millis: u64) -> (span: Interval)
        ensures
            span.secs == millis / 1000,
            span.subsec_nanos == (millis % 1000) * 1_000_000,
            span.as_nanos() == millis as nat * 1_000_000,
    {
        let secs: u64 = millis / 1000;
        let rest: u64 = millis % 1000;
        let subsec_nanos: u32 = (rest * 1_000_000) as u32;
        assert(millis as nat * 1_000_000 == (secs as nat) * 1_000_000_000 + (rest as nat)
            * 1_000_000) by (nonlinear_arith)
            requires
                secs == millis / 1000,
                rest == millis % 1000,
        ;
        Interval { secs, subsec_nanos }
    }

    /// Whether the span is strictly longer than the threshold of ten seconds.
    pub fn exceeds_max_age(&self) -> (stale: bool)
        ensures
            stale == self.is_stale(),
    {
        let total: u128 = (self.secs as u128) * NANOS_PER_SEC + (self.subsec_nanos as u128);
        total > (MAX_AGE_SECS as u128) * NANOS_PER_SEC
    }
}

/// What the transport knows of its paths to a node.
#[derive(Clone, Copy, Debug, PartialEq, Eq, Structural)]
pub struct ConnectionInfo {
    /// Time since traffic was last received from the node on a direct address.
    pub last_received: Option<Interval>,
    /// Time since the node was last known alive on the relay path.
    pub last_alive_relay: Option<Interval>,
}

impl ConnectionInfo {
    /// Telemetry with the two times given.
    pub fn new(last_received: Option<Interval>, last_alive_relay: Option<Interval>) -> (info:
        ConnectionInfo)
        ensures
            info.last_received == last_received,
            info.last_alive_relay == last_alive_relay,
    {
        ConnectionInfo { last_received, last_alive_relay }
    }
}

/// A path counts as reachable when it has seen traffic and that traffic is no
/// older than the threshold.
pub open spec fn path_is_fresh(elapsed: Option<Interval>) -> bool {
    match elapsed {
        Some(span) => !span.is_stale(),
        None => false,
    }
}

/// Discovery is needed unless some path to the node is fresh. A node that the
/// telemetry does not know has no path.
pub open spec fn discovery_needed(info: Option<ConnectionInfo>) -> bool {
    match info {
        None => true,
        Some(info) => !path_is_fresh(info.last_received) && !path_is_fresh(
            info.last_alive_relay,
        ),
    }
}

/// Decides from the telemetry of a node whether a lookup is warranted: when the
/// node is unknown, when no path has ever seen traffic, and when every path that
/// has seen traffic has been silent for longer than the threshold.
pub fn needs_discovery(info: Option<ConnectionInfo>) -> (needed: bool)
    ensures
        needed == discovery_needed(info),
{
    match info {
        None => true,
        Some(info) => {
            match (info.last_received, info.last_alive_relay) {
                (None, None) => true,
                (Some(elapsed), Some(elapsed_relay)) => {
                    elapsed.exceeds_max_age() && elapsed_relay.exceeds_max_age()
                },
                (Some(elapsed), None) => elapsed.exceeds_max_age(),
                (None, Some(elapsed)) => elapsed.exceeds_max_age(),
            }
        },
    }
}

/// The rule, case by case: an unknown node and a node without any path need
/// discovery; with one path known, its age decides; with both known, both must
/// be stale.
pub proof fn lemma_decision_table(info: Option<ConnectionInfo>)
    ensures
        info.is_none() ==> discovery_needed(info),
        info.is_some() ==> (match (info.unwrap().last_received, info.unwrap().last_alive_relay) {
            (None, None) => discovery_needed(info),
            (Some(direct), None) => discovery_needed(info) == direct.is_stale(),
            (None, Some(relay)) => discovery_needed(info) == relay.is_stale(),
            (Some(direct), Some(relay)) => discovery_needed(info) == (direct.is_stale()
                && relay.is_stale()),
        }),
{
}

/// A path that saw traffic within the threshold makes discovery unnecessary,
/// whatever the other path says.
pub proof fn lemma_fresh_path_suffices(info: ConnectionInfo)
    requires
        path_is_fresh(info.last_received) || path_is_fresh(info.last_alive_relay),
    ensures
        !discovery_needed(Some(info)),
{
}

} // verus!
