//! Metric kinds, base identifiers and derived per-client identifiers.
//!
//! Every metric series the adapter publishes is keyed by a 128-bit
//! identifier. The four single-connection series use four fixed base
//! identifiers; a per-client series for client id `c` uses
//! `base + c`. Because the base identifiers are spaced more than
//! `u64::MAX` apart, derived identifiers never collide with each other
//! nor with the base identifiers (see the lemmas at the bottom).

use vstd::prelude::*;
use vstd::string::*;

verus! {

/// The four network statistics the adapter publishes.
#[derive(Clone, Copy, Debug, PartialEq, Eq, Structural)]
pub enum MetricKind {
    /// Round-trip time of the connection.
    Rtt,
    /// Outgoing throughput in kilobits per second.
    SentKbps,
    /// Incoming throughput in kilobits per second.
    ReceivedKbps,
    /// Fraction of packets lost.
    PacketLoss,
}

/// Base identifier of the round-trip-time series.
pub const BASE_RTT_ID: u128 = 41_598_154_451_286_296_937_086_289_020_957_009_281;

/// Base identifier of the sent-throughput series.
pub const BASE_SENT_KBPS_ID: u128 = 90_848_304_625_986_116_817_112_626_213_519_895_727;

/// Base identifier of the received-throughput series.
pub const BASE_RECEIVED_KBPS_ID: u128 = 31_519_729_826_609_147_865_210_468_700_944_359_742;

/// Base identifier of the packet-loss series.
pub const BASE_PACKET_LOSS_ID: u128 = 74_946_797_489_629_323_601_504_027_060_352_742_281;

/// The base identifier assigned to a metric kind.
pub open spec fn base_id(kind: MetricKind) -> u128 {
    match kind {
        MetricKind::Rtt => BASE_RTT_ID,
        MetricKind::SentKbps => BASE_SENT_KBPS_ID,
        MetricKind::ReceivedKbps => BASE_RECEIVED_KBPS_ID,
        MetricKind::PacketLoss => BASE_PACKET_LOSS_ID,
    }
}

/// The identifier of client `client_id`'s series of kind `kind`:
/// the kind's base identifier offset by the client id, without wraparound.
pub open spec fn derived_id(kind: MetricKind, client_id: u64) -> int {
    base_id(kind) + client_id
}

/// The base identifier assigned to a metric kind.
pub fn base_identifier(kind: MetricKind) -> (id: u128)
    ensures
        id == base_id(kind),
{
    match kind {
        MetricKind::Rtt => BASE_RTT_ID,
        MetricKind::SentKbps => BASE_SENT_KBPS_ID,
        MetricKind::ReceivedKbps => BASE_RECEIVED_KBPS_ID,
        MetricKind::PacketLoss => BASE_PACKET_LOSS_ID,
    }
}

/// The identifier of client `client_id`'s series of kind `kind`.
/// The addition cannot overflow: every base identifier leaves more than
/// `u64::MAX` of headroom below `u128::MAX`.
pub fn derived_identifier(kind: MetricKind, client_id: u64) -> (id: u128)
    ensures
        id == derived_id(kind, client_id),
{
    base_identifier(kind) + (client_id as u128)
}

/// The base display name assigned to a metric kind.
pub open spec fn base_name(kind: MetricKind) -> Seq<char> {
    match kind {
        MetricKind::Rtt => "network_rtt"@,
        MetricKind::SentKbps => "network_sent_kbps"@,
        MetricKind::ReceivedKbps => "network_received_kbps"@,
        MetricKind::PacketLoss => "network_packet_loss"@,
    }
}

/// The base display name assigned to a metric kind.
pub fn base_name_str(kind: MetricKind) -> (name: &'static str)
    ensures
        name@ == base_name(kind),
{
    match kind {
        MetricKind::Rtt => "network_rtt",
        MetricKind::SentKbps => "network_sent_kbps",
        MetricKind::ReceivedKbps => "network_received_kbps",
        MetricKind::PacketLoss => "network_packet_loss",
    }
}

/// The decimal digit character for a value below ten.
pub open spec fn decimal_digit(d: int) -> char {
    if d == 0 {
        '0'
    } else if d == 1 {
        '1'
    } else if d == 2 {
        '2'
    } else if d == 3 {
        '3'
    } else if d == 4 {
        '4'
    } else if d == 5 {
        '5'
    } else if d == 6 {
        '6'
    } else if d == 7 {
        '7'
    } else if d == 8 {
        '8'
    } else {
        '9'
    }
}

/// The usual decimal rendering of `n`: most significant digit first, no
/// leading zeros (except for `n == 0` itself).
pub open spec fn decimal_rep(n: nat) -> Seq<char>
    decreases n,
{
    if n < 10 {
        seq![decimal_digit(n as int)]
    } else {
        decimal_rep(n / 10).push(decimal_digit((n % 10) as int))
    }
}

/// The one-character string of the decimal digit `d`.
fn decimal_digit_str(d: u64) -> (s: &'static str)
    requires
        d < 10,
    ensures
        s@ == seq![decimal_digit(d as int)],
{
    let s: &'static str = if d == 0 {
        "0"
    } else if d == 1 {
        "1"
    } else if d == 2 {
        "2"
    } else if d == 3 {
        "3"
    } else if d == 4 {
        "4"
    } else if d == 5 {
        "5"
    } else if d == 6 {
        "6"
    } else if d == 7 {
        "7"
    } else if d == 8 {
        "8"
    } else {
        "9"
    };
    proof {
        reveal_strlit("0");
        reveal_strlit("1");
        reveal_strlit("2");
        reveal_strlit("3");
        reveal_strlit("4");
        reveal_strlit("5");
        reveal_strlit("6");
        reveal_strlit("7");
        reveal_strlit("8");
        reveal_strlit("9");
        assert(s@ =~= seq![decimal_digit(d as int)]);
    }
    s
}

/// Append the decimal rendering of `n` to `out`.
pub fn push_decimal(n: u64, out: &mut String)
    ensures
        final(out)@ == old(out)@ + decimal_rep(n as nat),
    decreases n,
{
    if n >= 10 {
        push_decimal(n / 10, out);
        out.append(decimal_digit_str(n % 10));
        proof {
            assert(out@ =~= old(out)@ + decimal_rep(n as nat));
        }
    } else {
        out.append(decimal_digit_str(n));
        proof {
            assert(out@ =~= old(out)@ + decimal_rep(n as nat));
        }
    }
}

/// The display name of client `client_id`'s series of kind `kind`: the
/// kind's base name, an underscore, and the client id in decimal.
pub open spec fn display_name_seq(kind: MetricKind, client_id: u64) -> Seq<char> {
    base_name(kind) + "_"@ + decimal_rep(client_id as nat)
}

/// The display name of client `client_id`'s series of kind `kind`,
/// e.g. the round-trip-time series of client 7 is named
/// `network_rtt_7`.
pub fn display_name(kind: MetricKind, client_id: u64) -> (name: String)
    ensures
        name@ == display_name_seq(kind, client_id),
{
    let mut name = String::from_str(base_name_str(kind));
    name.append("_");
    push_decimal(client_id, &mut name);
    name
}

/// Derived identifiers determine the (kind, client id) pair they were
/// derived from: two equal derived identifiers come from the same kind
/// and the same client. This holds because the four base identifiers
/// are pairwise more than `u64::MAX` apart.
pub proof fn lemma_derived_id_injective(k1: MetricKind, c1: u64, k2: MetricKind, c2: u64)
    ensures
        derived_id(k1, c1) == derived_id(k2, c2) ==> (k1 == k2 && c1 == c2),
{
}

/// For one metric kind, distinct client ids get distinct derived
/// identifiers.
pub proof fn lemma_distinct_clients_distinct_ids(kind: MetricKind, c1: u64, c2: u64)
    requires
        c1 != c2,
    ensures
        derived_id(kind, c1) != derived_id(kind, c2),
{
    lemma_derived_id_injective(kind, c1, kind, c2);
}

/// For one client id, distinct metric kinds get distinct derived
/// identifiers.
pub proof fn lemma_distinct_kinds_distinct_ids(k1: MetricKind, k2: MetricKind, client_id: u64)
    requires
        k1 != k2,
    ensures
        derived_id(k1, client_id) != derived_id(k2, client_id),
{
    lemma_derived_id_injective(k1, client_id, k2, client_id);
}

/// A derived identifier collides with a base identifier only in the
/// degenerate case of the same kind and client id zero; in particular a
/// nonzero client id never shadows a single-connection series.
pub proof fn lemma_derived_id_avoids_bases(k1: MetricKind, client_id: u64, k2: MetricKind)
    ensures
        derived_id(k1, client_id) == base_id(k2) ==> (k1 == k2 && client_id == 0),
{
}

} // verus!
