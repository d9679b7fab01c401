//! Per-tick sampling plans.
//!
//! Once per scheduler tick the host reads the network statistics and
//! executes a plan computed here. In single-connection mode the plan is
//! fixed: the four base series, registered once at startup and sampled
//! every tick. In server mode the host reports, for every currently
//! connected client id, whether a network-info snapshot is available;
//! the planner silently skips clients without one, lazily registers the
//! series of clients seen with info for the first time, and names the
//! four series each remaining client's samples go to.

use vstd::prelude::*;

use crate::identity::{base_id, base_name, derived_id, MetricKind};
use crate::identity::{base_identifier, base_name_str, derived_identifier};
use crate::registry::{registrations_for, HISTORY_CAPACITY};
use crate::registry::{MetricsRegistry, SeriesDescriptor};

verus! {

/// `descriptor` registers exactly the single-connection series of kind
/// `kind`: base identifier, base name, standard history capacity.
pub open spec fn describes_base_series(descriptor: SeriesDescriptor, kind: MetricKind) -> bool {
    &&& descriptor.identifier == base_id(kind)
    &&& descriptor.name@ == base_name(kind)
    &&& descriptor.history_capacity == HISTORY_CAPACITY
}

/// The descriptor of the single-connection series of kind `kind`.
pub fn base_series_descriptor(kind: MetricKind) -> (descriptor: SeriesDescriptor)
    ensures
        describes_base_series(descriptor, kind),
{
    SeriesDescriptor {
        identifier: base_identifier(kind),
        name: String::from_str(base_name_str(kind)),
        history_capacity: HISTORY_CAPACITY,
    }
}

/// The registrations the single-connection startup phase hands to the
/// sink: the four base series, one per metric kind, in the fixed kind
/// order.
pub fn base_series() -> (series: Vec<SeriesDescriptor>)
    ensures
        series@.len() == 4,
        describes_base_series(series@[0], MetricKind::Rtt),
        describes_base_series(series@[1], MetricKind::SentKbps),
        describes_base_series(series@[2], MetricKind::ReceivedKbps),
        describes_base_series(series@[3], MetricKind::PacketLoss),
{
    let mut series: Vec<SeriesDescriptor> = Vec::new();
    series.push(base_series_descriptor(MetricKind::Rtt));
    series.push(base_series_descriptor(MetricKind::SentKbps));
    series.push(base_series_descriptor(MetricKind::ReceivedKbps));
    series.push(base_series_descriptor(MetricKind::PacketLoss));
    series
}

/// The series identifiers a single-connection sampling tick pushes its
/// four values to: the base identifiers, in the fixed kind order.
pub fn base_sample_targets() -> (targets: Vec<u128>)
    ensures
        targets@.len() == 4,
        targets@[0] == base_id(MetricKind::Rtt),
        targets@[1] == base_id(MetricKind::SentKbps),
        targets@[2] == base_id(MetricKind::ReceivedKbps),
        targets@[3] == base_id(MetricKind::PacketLoss),
{
    let mut targets: Vec<u128> = Vec::new();
    targets.push(base_identifier(MetricKind::Rtt));
    targets.push(base_identifier(MetricKind::SentKbps));
    targets.push(base_identifier(MetricKind::ReceivedKbps));
    targets.push(base_identifier(MetricKind::PacketLoss));
    targets
}

/// `targets` names client `client_id`'s four series, one per metric
/// kind, in the fixed kind order.
pub open spec fn sample_targets_for(targets: Seq<u128>, client_id: u64) -> bool {
    &&& targets.len() == 4
    &&& targets[0] == derived_id(MetricKind::Rtt, client_id)
    &&& targets[1] == derived_id(MetricKind::SentKbps, client_id)
    &&& targets[2] == derived_id(MetricKind::ReceivedKbps, client_id)
    &&& targets[3] == derived_id(MetricKind::PacketLoss, client_id)
}

/// The series identifiers one sampling tick pushes client `client_id`'s
/// four values to: the derived identifiers, in the fixed kind order.
pub fn client_sample_targets(client_id: u64) -> (targets: Vec<u128>)
    ensures
        sample_targets_for(targets@, client_id),
{
    let mut targets: Vec<u128> = Vec::new();
    targets.push(derived_identifier(MetricKind::Rtt, client_id));
    targets.push(derived_identifier(MetricKind::SentKbps, client_id));
    targets.push(derived_identifier(MetricKind::ReceivedKbps, client_id));
    targets.push(derived_identifier(MetricKind::PacketLoss, client_id));
    targets
}

/// What the host saw of one connected client this tick: its id, and
/// whether a network-info snapshot was available for it.
#[derive(Clone, Copy, Debug, PartialEq, Eq, Structural)]
pub struct ClientObservation {
    /// The client id the networking layer assigned to the connection.
    pub client_id: u64,
    /// Whether the networking layer had a network-info snapshot for the
    /// client this tick.
    pub info_present: bool,
}

/// What the host must do for one observed client this tick: register
/// these series with the sink (first sight only), then push the
/// client's four sample values to these series, in the fixed kind
/// order. Both lists are empty for a client whose info was absent.
pub struct ClientTickActions {
    /// The series to register with the sink before pushing samples.
    pub registrations: Vec<SeriesDescriptor>,
    /// The series to push this tick's four sample values to.
    pub sample_targets: Vec<u128>,
}

/// `actions` is the correct response to `observation` when the set of
/// already-registered client ids is `known`: skipped entirely without
/// info; otherwise sampled on all four derived series, with the four
/// registrations issued exactly when the client is seen for the first
/// time.
pub open spec fn actions_match(
    actions: ClientTickActions,
    observation: ClientObservation,
    known: Set<u64>,
) -> bool {
    if observation.info_present {
        &&& sample_targets_for(actions.sample_targets@, observation.client_id)
        &&& if known.contains(observation.client_id) {
            actions.registrations@.len() == 0
        } else {
            registrations_for(actions.registrations@, observation.client_id)
        }
    } else {
        &&& actions.registrations@.len() == 0
        &&& actions.sample_targets@.len() == 0
    }
}

/// Plan this tick's actions for one observed client. A client without
/// network info is skipped silently and leaves the registry unchanged;
/// a client with info is recorded in the registry, gets its four series
/// registered if this is its first sighting, and gets its four sample
/// targets named.
pub fn observe_client(registry: &mut MetricsRegistry, client_id: u64, info_present: bool) -> (actions: ClientTickActions)
    ensures
        info_present ==> final(registry)@ == old(registry)@.insert(client_id),
        !info_present ==> final(registry)@ == old(registry)@,
        actions_match(actions, (ClientObservation { client_id, info_present }), old(registry)@),
{
    if info_present {
        let registrations = registry.ensure_registered(client_id);
        let sample_targets = client_sample_targets(client_id);
        ClientTickActions { registrations, sample_targets }
    } else {
        ClientTickActions { registrations: Vec::new(), sample_targets: Vec::new() }
    }
}

/// The set of registered client ids after the first `i` of the
/// `observations` have been handled, starting from `initial`: each
/// observed client with info present is added in turn.
pub open spec fn known_after(
    initial: Set<u64>,
    observations: Seq<ClientObservation>,
    i: int,
) -> Set<u64>
    decreases i,
{
    if i <= 0 {
        initial
    } else {
        let prior = known_after(initial, observations, i - 1);
        let observation = observations[i - 1];
        if observation.info_present {
            prior.insert(observation.client_id)
        } else {
            prior
        }
    }
}

/// Plan one whole server-mode tick: handle every observed client in
/// order. The plan has one entry per observation, each correct for the
/// registry state as it stood when that client was reached, and the
/// registry ends up knowing exactly the clients it knew before plus
/// those observed with info this tick.
pub fn server_tick(registry: &mut MetricsRegistry, observations: &Vec<ClientObservation>) -> (plans: Vec<ClientTickActions>)
    ensures
        plans@.len() == observations@.len(),
        final(registry)@ == known_after(old(registry)@, observations@, observations@.len() as int),
        forall|i: int|
            0 <= i < observations@.len() ==> actions_match(
                #[trigger] plans@[i],
                observations@[i],
                known_after(old(registry)@, observations@, i),
            ),
{
    let ghost initial: Set<u64> = registry@;
    let mut plans: Vec<ClientTickActions> = Vec::new();
    let mut idx: usize = 0;
    while idx < observations.len()
        invariant
            idx <= observations@.len(),
            plans@.len() == idx,
            registry@ == known_after(initial, observations@, idx as int),
            forall|i: int|
                0 <= i < idx ==> actions_match(
                    #[trigger] plans@[i],
                    observations@[i],
                    known_after(initial, observations@, i),
                ),
        decreases observations@.len() - idx,
    {
        let observation = observations[idx];
        let actions = observe_client(registry, observation.client_id, observation.info_present);
        plans.push(actions);
        idx = idx + 1;
    }
    plans
}

} // verus!
