//! The registered-client set and series registration planning.
//!
//! The external metrics sink wants every series registered exactly once,
//! before its first sample. [`MetricsRegistry`] remembers which client
//! ids already have their four series registered; registration is
//! planned lazily the first time a client is observed and never
//! repeated. Clients are never removed: a disconnected client simply
//! stops receiving samples.

use std::collections::HashSet;
use vstd::prelude::*;

use crate::identity::{derived_id, display_name_seq, MetricKind};
use crate::identity::{derived_identifier, display_name};

verus! {

broadcast use vstd::std_specs::hash::group_hash_axioms;

/// How many samples of a series the sink keeps before evicting the
/// oldest.
pub const HISTORY_CAPACITY: usize = 20;

/// Everything the external sink needs to register one metric series:
/// its 128-bit key, its human-readable name, and the rolling-history
/// capacity.
pub struct SeriesDescriptor {
    /// The 128-bit key of the series.
    pub identifier: u128,
    /// The human-readable name of the series.
    pub name: String,
    /// How many samples the sink keeps for the series.
    pub history_capacity: usize,
}

/// `descriptor` registers exactly client `client_id`'s series of kind
/// `kind`: derived identifier, derived display name, standard history
/// capacity.
pub open spec fn describes_series(
    descriptor: SeriesDescriptor,
    kind: MetricKind,
    client_id: u64,
) -> bool {
    &&& descriptor.identifier == derived_id(kind, client_id)
    &&& descriptor.name@ == display_name_seq(kind, client_id)
    &&& descriptor.history_capacity == HISTORY_CAPACITY
}

/// `descriptors` registers client `client_id`'s four series, one per
/// metric kind, in the fixed kind order.
pub open spec fn registrations_for(descriptors: Seq<SeriesDescriptor>, client_id: u64) -> bool {
    &&& descriptors.len() == 4
    &&& describes_series(descriptors[0], MetricKind::Rtt, client_id)
    &&& describes_series(descriptors[1], MetricKind::SentKbps, client_id)
    &&& describes_series(descriptors[2], MetricKind::ReceivedKbps, client_id)
    &&& describes_series(descriptors[3], MetricKind::PacketLoss, client_id)
}

/// The descriptor of client `client_id`'s series of kind `kind`.
pub fn series_descriptor(kind: MetricKind, client_id: u64) -> (descriptor: SeriesDescriptor)
    ensures
        describes_series(descriptor, kind, client_id),
{
    SeriesDescriptor {
        identifier: derived_identifier(kind, client_id),
        name: display_name(kind, client_id),
        history_capacity: HISTORY_CAPACITY,
    }
}

/// The set of client ids whose series are already registered with the
/// sink. Its view is the mathematical set of those ids.
pub struct MetricsRegistry {
    added_client_ids: HashSet<u64>,
}

impl View for MetricsRegistry {
    type V = Set<u64>;

    closed spec fn view(&self) -> Set<u64> {
        self.added_client_ids@
    }
}

impl MetricsRegistry {
    /// An empty registry: no client has any series registered yet.
    pub fn new() -> (registry: MetricsRegistry)
        ensures
            registry@ == Set::<u64>::empty(),
    {
        MetricsRegistry { added_client_ids: HashSet::new() }
    }

    /// Whether `client_id`'s series are already registered.
    pub fn is_registered(&self, client_id: u64) -> (registered: bool)
        ensures
            registered == self@.contains(client_id),
    {
        self.added_client_ids.contains(&client_id)
    }

    /// Plan the registration of `client_id`'s four series, exactly once
    /// per client lifetime: the first call for a client id returns the
    /// four descriptors to hand to the sink and records the id; any
    /// later call for the same id changes nothing and returns no
    /// descriptors.
    pub fn ensure_registered(&mut self, client_id: u64) -> (registrations: Vec<SeriesDescriptor>)
        ensures
            final(self)@ == old(self)@.insert(client_id),
            old(self)@.contains(client_id) ==> registrations@.len() == 0,
            !old(self)@.contains(client_id) ==> registrations_for(registrations@, client_id),
    {
        if self.added_client_ids.contains(&client_id) {
            proof {
                assert(old(self)@.insert(client_id) =~= old(self)@);
            }
            Vec::new()
        } else {
            let mut registrations: Vec<SeriesDescriptor> = Vec::new();
            registrations.push(series_descriptor(MetricKind::Rtt, client_id));
            registrations.push(series_descriptor(MetricKind::SentKbps, client_id));
            registrations.push(series_descriptor(MetricKind::ReceivedKbps, client_id));
            registrations.push(series_descriptor(MetricKind::PacketLoss, client_id));
            self.added_client_ids.insert(client_id);
            registrations
        }
    }
}

/// Registering a client is idempotent: a repeat registration of
/// `client_id` leaves the registry state unchanged, and since the
/// registry already contains the id at that point,
/// [`MetricsRegistry::ensure_registered`] issues descriptors to the sink
/// only on the first call.
pub proof fn lemma_ensure_registered_idempotent(initial: Set<u64>, client_id: u64)
    ensures
        initial.insert(client_id).insert(client_id) == initial.insert(client_id),
        initial.insert(client_id).contains(client_id),
{
    assert(initial.insert(client_id).insert(client_id) =~= initial.insert(client_id));
}

} // verus!
