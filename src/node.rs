use vstd::prelude::*;
use vstd::string::*;
use crate::alert::{centi_tokens, tokens2, Alert, AlertKind, AlertView, KEY_PREFIX_LEN};
use crate::epoch::{more_than_half_left, more_than_half_left_of, EpochInfo};
use crate::settings::NodeCheckSettings;
use crate::stats::{
    cluster_rates_of, lemma_sums_bounded, missed, skip_rate, skip_rate_of, total_stake,
    BlockProduction, VoteAccountStake,
};
use crate::text::{
    center, centered, decimal, decimal_of, fixed_point, fixed_point_text, left, left_aligned,
    prefix, prefix_of,
};

verus! {

/// The condition for a critical skip-rate alert: the validator's skip rate is
/// at least the cluster's plus the allowed excess, more than half of the epoch
/// is still ahead, and more than half of the expected slots were produced.
/// An unknown rate, of either side, never meets it.
pub open spec fn critical_skip_of(
    skip: Option<u64>,
    cluster: Option<u64>,
    excess: u64,
    epoch: EpochInfo,
    expected: u64,
    produced: u64,
) -> bool {
    match (skip, cluster) {
        (Some(s), Some(c)) => s >= c + excess && more_than_half_left_of(epoch) && 2 * produced
            > expected,
        _ => false,
    }
}

/// Decides the critical skip-rate condition.
pub fn critical_skip_rate(
    skip: Option<u64>,
    cluster: Option<u64>,
    excess: u64,
    epoch: &EpochInfo,
    expected: u64,
    produced: u64,
) -> (r: bool)
    ensures
        r == critical_skip_of(skip, cluster, excess, *epoch, expected, produced),
{
    match (skip, cluster) {
        (Some(s), Some(c)) => (s as u128) >= (c as u128) + (excess as u128) && more_than_half_left(
            epoch,
        ) && 2 * (produced as u128) > expected as u128,
        _ => false,
    }
}

/// The health shown in a status report.
#[derive(Clone, Copy, Debug, PartialEq, Eq, Structural)]
pub enum Health {
    Critical,
    Delinquent,
    Healthy,
}

pub open spec fn health_of(critical: bool, delinquent: Option<bool>) -> Health {
    if critical {
        Health::Critical
    } else if delinquent == Some(true) {
        Health::Delinquent
    } else {
        Health::Healthy
    }
}

/// Critical first, then delinquent, else healthy; an unknown liveness counts
/// as healthy here.
pub fn node_health(critical: bool, delinquent: Option<bool>) -> (r: Health)
    ensures
        r == health_of(critical, delinquent),
{
    if critical {
        Health::Critical
    } else if delinquent == Some(true) {
        Health::Delinquent
    } else {
        Health::Healthy
    }
}

pub open spec fn low_balance_of(identity_balance: Option<u64>, minimum: u64) -> bool {
    match identity_balance {
        Some(b) => b < minimum,
        None => false,
    }
}

/// A known identity balance under the threshold; an unknown one never is.
pub fn low_balance(identity_balance: Option<u64>, minimum: u64) -> (r: bool)
    ensures
        r == low_balance_of(identity_balance, minimum),
{
    match identity_balance {
        Some(b) => b < minimum,
        None => false,
    }
}

/// Everything sampled about one validator in a stats cycle.
#[derive(Clone, Debug)]
pub struct NodeStats {
    /// Node software version, "?" when unknown.
    pub version: String,
    /// Balances in lamports.
    pub identity_balance: Option<u64>,
    pub vote_balance: Option<u64>,
    pub delinquent: Option<bool>,
    /// Leader slots so far this epoch, and the blocks produced in them.
    pub leader_slots: u64,
    pub blocks_produced: u64,
    /// Leader slots of the whole epoch.
    pub slot_count: u64,
    /// The cluster's (simple, stake-weighted) skip rates, when known.
    pub cluster: Option<(u64, u64)>,
    pub epoch: EpochInfo,
    /// The estimated time left in the epoch, as text.
    pub epoch_eta: String,
    /// Place and credits in this epoch's credit ranking.
    pub place: usize,
    pub credits: u64,
    /// Active stake in lamports.
    pub activated_stake: Option<u64>,
}

/// What a stats cycle yields for one validator, in sending order: the critical
/// alert, the status report (for `Channel::Normal`), the low-balance alert.
pub struct NodeReport {
    pub health: Health,
    pub critical_alert: Option<Alert>,
    pub status: String,
    pub low_balance_alert: Option<Alert>,
}

pub open spec fn weighted_of(cluster: Option<(u64, u64)>) -> Option<u64> {
    match cluster {
        Some((_, w)) => Some(w),
        None => None,
    }
}

pub open spec fn critical_of(node: NodeCheckSettings, st: NodeStats) -> bool {
    critical_skip_of(
        skip_rate_of(st.leader_slots, st.blocks_produced),
        weighted_of(st.cluster),
        node.critical_excess_of_skip_rate,
        st.epoch,
        st.leader_slots,
        st.blocks_produced,
    )
}

pub open spec fn alert_view_of(node: NodeCheckSettings, kind: AlertKind) -> AlertView {
    AlertView { name: node.validator.name@, identity: node.validator.identity@, kind }
}

pub open spec fn option_alert_view(a: Option<Alert>) -> Option<AlertView> {
    match a {
        Some(x) => Some(x@),
        None => None,
    }
}

pub open spec fn dashes() -> Seq<char> {
    "-----------------------------------\n"@
}

pub open spec fn glyph_of(h: Health) -> Seq<char> {
    match h {
        Health::Healthy => "\u{1F7E2}"@,
        _ => "\u{1F534}"@,
    }
}

/// A token amount with two decimals, "?" when unknown.
pub open spec fn tokens2_or_unknown(v: Option<u64>) -> Seq<char> {
    match v {
        Some(l) => fixed_point(centi_tokens(l), 2),
        None => "?"@,
    }
}

/// A rate as a percentage with two decimals, "?" when unknown.
pub open spec fn rate_or_unknown(v: Option<u64>) -> Seq<char> {
    match v {
        Some(r) => fixed_point(r as nat, 2),
        None => "?"@,
    }
}

/// The status report of one validator.
pub open spec fn status_text_of(node: NodeCheckSettings, st: NodeStats, h: Health) -> Seq<char> {
    "<b>"@ + node.validator.name@ + " ["@ + st.version@ + "]</b> "@ + glyph_of(h) + "\n\n<code>"@
        + "    identity     |       vote      \n"@ + dashes() + left_aligned(
        prefix_of(node.validator.identity@, KEY_PREFIX_LEN as nat),
        16,
    ) + " | "@ + left_aligned(prefix_of(node.validator.vote@, KEY_PREFIX_LEN as nat), 16) + "\n"@
        + centered(tokens2_or_unknown(st.identity_balance), 16) + " | "@ + centered(
        tokens2_or_unknown(st.vote_balance),
        16,
    ) + "\n"@ + dashes() + " place: "@ + centered(decimal_of(st.place as nat), 8)
        + " | credits: "@ + centered(decimal_of(st.credits as nat), 7) + "\n"@ + dashes()
        + " progress | skip | skip% | cluster%\n"@ + dashes() + centered(
        decimal_of(st.slot_count as nat) + "/"@ + decimal_of(st.leader_slots as nat),
        10,
    ) + "|"@ + centered(decimal_of(missed(st.leader_slots, st.blocks_produced) as nat), 6) + "|"@
        + centered(rate_or_unknown(skip_rate_of(st.leader_slots, st.blocks_produced)), 7) + "|"@
        + centered(rate_or_unknown(weighted_of(st.cluster)), 9) + "\n"@ + dashes() + "epoch:"@
        + centered(decimal_of(st.epoch.epoch as nat), 4) + "|"@ + centered(st.epoch_eta@, 25)
        + "\n"@ + dashes() + "Active stake |"@ + centered(
        tokens2_or_unknown(st.activated_stake),
        22,
    ) + "\n"@ + dashes() + "</code>"@
}

fn tokens2_text(v: Option<u64>) -> (r: String)
    ensures
        r@ == tokens2_or_unknown(v),
{
    match v {
        Some(l) => tokens2(l),
        None => String::from_str("?"),
    }
}

fn rate_text(v: Option<u64>) -> (r: String)
    ensures
        r@ == rate_or_unknown(v),
{
    match v {
        Some(x) => fixed_point_text(x, 2),
        None => String::from_str("?"),
    }
}

fn append_centered(s: &mut String, t: &str, width: usize)
    ensures
        final(s)@ == old(s)@ + centered(t@, width as nat),
{
    let c = center(t, width);
    s.append(c.as_str());
}

fn status_text(node: &NodeCheckSettings, st: &NodeStats, h: Health) -> (r: String)
    ensures
        r@ == status_text_of(*node, *st, h),
{
    let dash = "-----------------------------------\n";
    let mut s = String::from_str("<b>");
    s.append(node.validator.name.as_str());
    s.append(" [");
    s.append(st.version.as_str());
    s.append("]</b> ");
    match h {
        Health::Healthy => s.append("\u{1F7E2}"),
        _ => s.append("\u{1F534}"),
    }
    s.append("\n\n<code>");
    s.append("    identity     |       vote      \n");
    s.append(dash);
    let id = prefix(node.validator.identity.as_str(), KEY_PREFIX_LEN);
    let id = left(id.as_str(), 16);
    s.append(id.as_str());
    s.append(" | ");
    let vote = prefix(node.validator.vote.as_str(), KEY_PREFIX_LEN);
    let vote = left(vote.as_str(), 16);
    s.append(vote.as_str());
    s.append("\n");
    let ib = tokens2_text(st.identity_balance);
    append_centered(&mut s, ib.as_str(), 16);
    s.append(" | ");
    let vb = tokens2_text(st.vote_balance);
    append_centered(&mut s, vb.as_str(), 16);
    s.append("\n");
    s.append(dash);
    s.append(" place: ");
    let place = decimal(st.place as u64);
    append_centered(&mut s, place.as_str(), 8);
    s.append(" | credits: ");
    let credits = decimal(st.credits);
    append_centered(&mut s, credits.as_str(), 7);
    s.append("\n");
    s.append(dash);
    s.append(" progress | skip | skip% | cluster%\n");
    s.append(dash);
    let mut progress = decimal(st.slot_count);
    progress.append("/");
    let so_far = decimal(st.leader_slots);
    progress.append(so_far.as_str());
    append_centered(&mut s, progress.as_str(), 10);
    s.append("|");
    let m: u64 = if st.blocks_produced <= st.leader_slots {
        st.leader_slots - st.blocks_produced
    } else {
        0
    };
    let m = decimal(m);
    append_centered(&mut s, m.as_str(), 6);
    s.append("|");
    let skip = rate_text(skip_rate(st.leader_slots, st.blocks_produced));
    append_centered(&mut s, skip.as_str(), 7);
    s.append("|");
    let weighted = match st.cluster {
        Some((_, w)) => Some(w),
        None => None,
    };
    let cluster = rate_text(weighted);
    append_centered(&mut s, cluster.as_str(), 9);
    s.append("\n");
    s.append(dash);
    s.append("epoch:");
    let epoch = decimal(st.epoch.epoch);
    append_centered(&mut s, epoch.as_str(), 4);
    s.append("|");
    append_centered(&mut s, st.epoch_eta.as_str(), 25);
    s.append("\n");
    s.append(dash);
    s.append("Active stake |");
    let stake = tokens2_text(st.activated_stake);
    append_centered(&mut s, stake.as_str(), 22);
    s.append("\n");
    s.append(dash);
    s.append("</code>");
    s
}

/// One stats cycle for one validator. The report is always produced; a
/// critical alert carries the skip rate when the critical condition holds, and
/// a low-balance alert carries the identity balance when it is known and under
/// the threshold.
pub fn evaluate_node(node: &NodeCheckSettings, st: &NodeStats) -> (r: NodeReport)
    ensures
        r.health == health_of(critical_of(*node, *st), st.delinquent),
        option_alert_view(r.critical_alert) == if critical_of(*node, *st) {
            Some(
                alert_view_of(
                    *node,
                    AlertKind::CriticalSkipRate(
                        skip_rate_of(st.leader_slots, st.blocks_produced)->Some_0,
                    ),
                ),
            )
        } else {
            None
        },
        r.status@ == status_text_of(*node, *st, r.health),
        option_alert_view(r.low_balance_alert) == if low_balance_of(
            st.identity_balance,
            node.min_balance_amount,
        ) {
            Some(alert_view_of(*node, AlertKind::LowBalance(st.identity_balance->Some_0)))
        } else {
            None
        },
{
    let skip = skip_rate(st.leader_slots, st.blocks_produced);
    let weighted = match st.cluster {
        Some((_, w)) => Some(w),
        None => None,
    };
    let critical = critical_skip_rate(
        skip,
        weighted,
        node.critical_excess_of_skip_rate,
        &st.epoch,
        st.leader_slots,
        st.blocks_produced,
    );
    let health = node_health(critical, st.delinquent);
    let critical_alert = if critical {
        match skip {
            Some(rate) => Some(
                Alert {
                    name: node.validator.name.clone(),
                    identity: node.validator.identity.clone(),
                    kind: AlertKind::CriticalSkipRate(rate),
                },
            ),
            None => None,
        }
    } else {
        None
    };
    let status = status_text(node, st, health);
    let low_balance_alert = if low_balance(st.identity_balance, node.min_balance_amount) {
        match st.identity_balance {
            Some(b) => Some(
                Alert {
                    name: node.validator.name.clone(),
                    identity: node.validator.identity.clone(),
                    kind: AlertKind::LowBalance(b),
                },
            ),
            None => None,
        }
    } else {
        None
    };
    NodeReport { health, critical_alert, status, low_balance_alert }
}

/// With no stake behind the vote accounts (none at all, or all of zero
/// stake) the cluster's skip rates are unknown, so the stake-weighted rate is
/// the `UNKNOWN_RATE` sentinel and no critical skip-rate alert can follow from
/// it, whatever the validator's own figures.
pub proof fn lemma_no_stake_is_never_critical(
    prod: Seq<BlockProduction>,
    acc: Seq<VoteAccountStake>,
    skip: Option<u64>,
    excess: u64,
    epoch: EpochInfo,
    expected: u64,
    produced: u64,
)
    requires
        total_stake(acc) == 0,
    ensures
        cluster_rates_of(prod, acc) is None,
        !critical_skip_of(
            skip,
            weighted_of(cluster_rates_of(prod, acc)),
            excess,
            epoch,
            expected,
            produced,
        ),
{
    lemma_sums_bounded(prod, acc);
}

/// A node as the cluster's gossip lists it.
#[derive(Clone, Debug)]
pub struct ContactInfo {
    pub pubkey: String,
    pub version: Option<String>,
}

/// The version of the first node listed under `key`; "?" when there is none
/// or it reports no version.
pub open spec fn version_of(nodes: Seq<ContactInfo>, key: Seq<char>) -> Seq<char>
    decreases nodes.len(),
{
    if nodes.len() == 0 {
        "?"@
    } else if nodes[0].pubkey@ == key {
        match nodes[0].version {
            Some(v) => v@,
            None => "?"@,
        }
    } else {
        version_of(nodes.drop_first(), key)
    }
}

/// Looks up the software version of the node `identity`.
pub fn node_version(nodes: &Vec<ContactInfo>, identity: &String) -> (r: String)
    ensures
        r@ == version_of(nodes@, identity@),
{
    let mut i: usize = 0;
    assert(nodes@.skip(0) =~= nodes@);
    while i < nodes.len()
        invariant
            i <= nodes@.len(),
            version_of(nodes@, identity@) == version_of(nodes@.skip(i as int), identity@),
        decreases nodes@.len() - i,
    {
        assert(nodes@.skip(i as int).drop_first() =~= nodes@.skip(i + 1));
        assert(nodes@.skip(i as int)[0] == nodes@[i as int]);
        if nodes[i].pubkey == *identity {
            return match &nodes[i].version {
                Some(v) => v.clone(),
                None => String::from_str("?"),
            };
        }
        i = i + 1;
    }
    String::from_str("?")
}

} // verus!
