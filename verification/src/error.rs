//! Errors of discovery.

use vstd::prelude::*;
use vstd::string::StringExecFns;
use crate::addr::{full_form, short_form, NodeId};

verus! {

/// Why a discovery task could not start or did not deliver.
#[derive(Clone, Copy, Debug, PartialEq, Eq)]
pub enum DiscoveryError {
    /// The endpoint has no discovery provider.
    NoDiscoveryConfigured,
    /// The provider declined to resolve the node.
    NoResolver(NodeId),
    /// The candidate stream ended, failed or was shut down before it delivered a
    /// usable record for the node.
    NoResults(NodeId),
    /// The task was aborted before it resolved the first-result signal.
    ChannelClosed,
}

/// The text of the error for a task that delivered no usable record, given the
/// short form of the node's identifier.
pub open spec fn no_results_text(short: Seq<char>) -> Seq<char> {
    "discovery produced no results for "@ + short
}

/// The text of the error for a node that the provider declined to resolve, given
/// the full form of the node's identifier.
pub open spec fn no_resolver_text(full: Seq<char>) -> Seq<char> {
    "No discovery service can resolve node "@ + full
}

/// The text for a task that delivered no usable record.
pub fn no_results_message(short: &str) -> (text: String)
    ensures
        text@ == no_results_text(short@),
{
    String::from_str("discovery produced no results for ").concat(short)
}

/// The text for a node that the provider declined to resolve.
pub fn no_resolver_message(full: &str) -> (text: String)
    ensures
        text@ == no_resolver_text(full@),
{
    String::from_str("No discovery service can resolve node ").concat(full)
}

impl DiscoveryError {
    /// The text that describes the error.
    pub open spec fn text(self) -> Seq<char> {
        match self {
            DiscoveryError::NoDiscoveryConfigured => "no discovery services configured"@,
            DiscoveryError::NoResolver(node_id) => no_resolver_text(full_form(node_id@)),
            DiscoveryError::NoResults(node_id) => no_results_text(short_form(node_id@)),
            DiscoveryError::ChannelClosed => "channel closed"@,
        }
    }

    /// Describes the error in words.
    pub fn message(&self) -> (text: String)
        ensures
            text@ == self.text(),
    {
        match self {
            DiscoveryError::NoDiscoveryConfigured => String::from_str(
                "no discovery services configured",
            ),
            DiscoveryError::NoResolver(node_id) => {
                let full = node_id.fmt_full();
                no_resolver_message(full.as_str())
            },
            DiscoveryError::NoResults(node_id) => {
                let short = node_id.fmt_short();
                no_results_message(short.as_str())
            },
            DiscoveryError::ChannelClosed => String::from_str("channel closed"),
        }
    }
}

} // verus!
