use vstd::prelude::*;

verus! {

/// Rates are kept in hundredths of a percent: `FULL_RATE` is 100%.
pub const FULL_RATE: u64 = 10_000;

/// The cluster rate reported when no validator has a known skip rate or the
/// ones that do hold no stake: "unknown", never a real condition.
pub const UNKNOWN_RATE: u64 = 10_000;

/// Leader slots that produced no block; none when more were produced than expected.
pub open spec fn missed(expected: u64, produced: u64) -> int {
    if produced <= expected { expected - produced } else { 0 }
}

/// 100% × missed / expected, rounded down; unknown while no slot was expected,
/// and unknown for an impossible sample with more blocks than expected slots.
pub open spec fn skip_rate_of(expected: u64, produced: u64) -> Option<u64> {
    if expected == 0 || produced > expected {
        None
    } else {
        Some((FULL_RATE * missed(expected, produced) / (expected as int)) as u64)
    }
}

proof fn lemma_rate_bounded(expected: u64, produced: u64)
    requires
        expected > 0,
    ensures
        0 <= FULL_RATE * missed(expected, produced) / (expected as int) <= FULL_RATE,
{
    let m = missed(expected, produced);
    let e = expected as int;
    assert(0 <= m <= e);
    assert(0 <= 10_000 * m <= 10_000 * e) by (nonlinear_arith)
        requires
            0 <= m <= e,
    ;
    assert((10_000 * m) / e <= 10_000) by (nonlinear_arith)
        requires
            0 <= 10_000 * m <= 10_000 * e,
            e > 0,
    ;
    assert((10_000 * m) / e >= 0) by (nonlinear_arith)
        requires
            0 <= 10_000 * m,
            e > 0,
    ;
}

/// The skip rate of a validator with `expected` leader slots of which
/// `produced` yielded a block; `None` when no slot was expected or more blocks
/// than expected slots are reported.
pub fn skip_rate(expected: u64, produced: u64) -> (r: Option<u64>)
    ensures
        r == skip_rate_of(expected, produced),
        r matches Some(v) ==> v <= FULL_RATE,
{
    if expected == 0 || produced > expected {
        None
    } else {
        proof {
            lemma_rate_bounded(expected, produced);
        }
        let m: u64 = expected - produced;
        let v: u128 = (FULL_RATE as u128) * (m as u128) / (expected as u128);
        Some(v as u64)
    }
}

/// Leader slots and produced blocks of one validator identity in this epoch.
#[derive(Clone, Debug)]
pub struct BlockProduction {
    pub identity: String,
    pub leader_slots: u64,
    pub blocks_produced: u64,
}

/// A vote account's node identity and its active stake, in lamports.
#[derive(Clone, Debug)]
pub struct VoteAccountStake {
    pub node_pubkey: String,
    pub activated_stake: u64,
}

/// The first production entry of `key`, as (leader slots, produced blocks).
pub open spec fn production_of(prod: Seq<BlockProduction>, key: Seq<char>) -> Option<(u64, u64)>
    decreases prod.len(),
{
    if prod.len() == 0 {
        None
    } else {
        match production_of(prod.drop_last(), key) {
            Some(p) => Some(p),
            None => if prod.last().identity@ == key {
                Some((prod.last().leader_slots, prod.last().blocks_produced))
            } else {
                None
            },
        }
    }
}

/// A validator's skip rate as the cluster averages count it: known whenever it
/// had leader slots, with more blocks than slots counting as no slot missed.
pub open spec fn cluster_rate_of(slots: u64, produced: u64) -> Option<u64> {
    if slots == 0 {
        None
    } else {
        Some((FULL_RATE * missed(slots, produced) / (slots as int)) as u64)
    }
}

/// The skip rate of the node `key`, known when it has an entry with leader slots.
pub open spec fn known_rate(prod: Seq<BlockProduction>, key: Seq<char>) -> Option<u64> {
    match production_of(prod, key) {
        Some((slots, produced)) => cluster_rate_of(slots, produced),
        None => None,
    }
}

fn cluster_rate(slots: u64, produced: u64) -> (r: Option<u64>)
    ensures
        r == cluster_rate_of(slots, produced),
        r matches Some(v) ==> v <= FULL_RATE,
{
    if slots == 0 {
        None
    } else {
        proof {
            lemma_rate_bounded(slots, produced);
        }
        let m: u64 = if produced <= slots { slots - produced } else { 0 };
        let v: u128 = (FULL_RATE as u128) * (m as u128) / (slots as u128);
        Some(v as u64)
    }
}

/// Stake of all the accounts.
pub open spec fn total_stake(acc: Seq<VoteAccountStake>) -> int
    decreases acc.len(),
{
    if acc.len() == 0 { 0 } else { total_stake(acc.drop_last()) + acc.last().activated_stake }
}

/// How many accounts have a known skip rate.
pub open spec fn known_count(prod: Seq<BlockProduction>, acc: Seq<VoteAccountStake>) -> int
    decreases acc.len(),
{
    if acc.len() == 0 {
        0
    } else {
        known_count(prod, acc.drop_last()) + if known_rate(prod, acc.last().node_pubkey@) is Some {
            1int
        } else {
            0int
        }
    }
}

/// Sum of the known skip rates.
pub open spec fn rate_sum(prod: Seq<BlockProduction>, acc: Seq<VoteAccountStake>) -> int
    decreases acc.len(),
{
    if acc.len() == 0 {
        0
    } else {
        rate_sum(prod, acc.drop_last()) + match known_rate(prod, acc.last().node_pubkey@) {
            Some(r) => r as int,
            None => 0int,
        }
    }
}

/// Stake of the accounts with a known skip rate.
pub open spec fn known_stake(prod: Seq<BlockProduction>, acc: Seq<VoteAccountStake>) -> int
    decreases acc.len(),
{
    if acc.len() == 0 {
        0
    } else {
        known_stake(prod, acc.drop_last()) + match known_rate(prod, acc.last().node_pubkey@) {
            Some(r) => acc.last().activated_stake as int,
            None => 0int,
        }
    }
}

/// Sum of skip rate × stake over the accounts with a known skip rate.
pub open spec fn weighted_sum(prod: Seq<BlockProduction>, acc: Seq<VoteAccountStake>) -> int
    decreases acc.len(),
{
    if acc.len() == 0 {
        0
    } else {
        weighted_sum(prod, acc.drop_last()) + match known_rate(prod, acc.last().node_pubkey@) {
            Some(r) => r * acc.last().activated_stake,
            None => 0int,
        }
    }
}

/// (simple average, stake-weighted average) of the known skip rates, rounded
/// down; `None` when no rate is known or the accounts that have one hold no stake.
pub open spec fn cluster_rates_of(prod: Seq<BlockProduction>, acc: Seq<VoteAccountStake>) -> Option<
    (u64, u64),
> {
    if known_count(prod, acc) > 0 && known_stake(prod, acc) > 0 {
        Some(
            (
                (rate_sum(prod, acc) / known_count(prod, acc)) as u64,
                (weighted_sum(prod, acc) / known_stake(prod, acc)) as u64,
            ),
        )
    } else {
        None
    }
}

pub(crate) proof fn lemma_sums_bounded(prod: Seq<BlockProduction>, acc: Seq<VoteAccountStake>)
    ensures
        0 <= known_count(prod, acc) <= acc.len(),
        0 <= rate_sum(prod, acc) <= FULL_RATE * known_count(prod, acc),
        0 <= known_stake(prod, acc) <= total_stake(acc),
        0 <= weighted_sum(prod, acc) <= FULL_RATE * known_stake(prod, acc),
    decreases acc.len(),
{
    if acc.len() > 0 {
        let init = acc.drop_last();
        lemma_sums_bounded(prod, init);
        let a = acc.last();
        match known_rate(prod, a.node_pubkey@) {
            Some(r) => {
                let (slots, produced) = production_of(prod, a.node_pubkey@)->Some_0;
                lemma_rate_bounded(slots, produced);
                let st = a.activated_stake as int;
                let ri = r as int;
                assert(0 <= ri * st <= 10_000 * st) by (nonlinear_arith)
                    requires
                        0 <= ri <= 10_000,
                        0 <= st,
                ;
            },
            None => {},
        }
    }
}

proof fn lemma_prefix_stake(acc: Seq<VoteAccountStake>, i: int)
    requires
        0 <= i <= acc.len(),
    ensures
        total_stake(acc.take(i)) <= total_stake(acc),
    decreases acc.len() - i,
{
    if i < acc.len() {
        lemma_prefix_stake(acc, i + 1);
        assert(acc.take(i + 1).drop_last() =~= acc.take(i));
    } else {
        assert(acc.take(i) =~= acc);
    }
}

fn production_lookup(prod: &Vec<BlockProduction>, key: &String) -> (r: Option<(u64, u64)>)
    ensures
        r == production_of(prod@, key@),
{
    let mut r: Option<(u64, u64)> = None;
    let mut i: usize = 0;
    while i < prod.len()
        invariant
            i <= prod@.len(),
            r == production_of(prod@.take(i as int), key@),
        decreases prod@.len() - i,
    {
        assert(prod@.take(i + 1).drop_last() =~= prod@.take(i as int));
        if r.is_none() && prod[i].identity == *key {
            r = Some((prod[i].leader_slots, prod[i].blocks_produced));
        }
        i = i + 1;
    }
    assert(prod@.take(prod@.len() as int) =~= prod@);
    r
}

/// Simple and stake-weighted average skip rate over the vote accounts `acc`
/// (current and delinquent), with the skip rate of each looked up by its node
/// identity in `prod`; `None` when no rate is known or no stake stands behind
/// the known ones.
pub fn cluster_skip_rates(prod: &Vec<BlockProduction>, acc: &Vec<VoteAccountStake>) -> (r: Option<
    (u64, u64),
>)
    requires
        total_stake(acc@) <= u64::MAX,
    ensures
        r == cluster_rates_of(prod@, acc@),
        r matches Some((s, w)) ==> s <= FULL_RATE && w <= FULL_RATE,
{
    let mut count: u64 = 0;
    let mut sum: u128 = 0;
    let mut stake: u64 = 0;
    let mut weighted: u128 = 0;
    let mut i: usize = 0;
    while i < acc.len()
        invariant
            i <= acc@.len(),
            total_stake(acc@) <= u64::MAX,
            count == known_count(prod@, acc@.take(i as int)),
            sum == rate_sum(prod@, acc@.take(i as int)),
            stake == known_stake(prod@, acc@.take(i as int)),
            weighted == weighted_sum(prod@, acc@.take(i as int)),
        decreases acc@.len() - i,
    {
        let ghost next = acc@.take(i + 1);
        proof {
            assert(next.drop_last() =~= acc@.take(i as int));
            lemma_sums_bounded(prod@, next);
            lemma_prefix_stake(acc@, i + 1);
        }
        let a = &acc[i];
        let rate = match production_lookup(prod, &a.node_pubkey) {
            Some((slots, produced)) => cluster_rate(slots, produced),
            None => None,
        };
        if let Some(rt) = rate {
            assert(count + 1 == known_count(prod@, next));
            assert(rate_sum(prod@, next) <= 10_000 * known_count(prod@, next));
            assert(known_count(prod@, next) <= i + 1);
            count = count + 1;
            sum = sum + rt as u128;
            stake = stake + a.activated_stake;
            weighted = weighted + (rt as u128) * (a.activated_stake as u128);
        }
        i = i + 1;
    }
    assert(acc@.take(acc@.len() as int) =~= acc@);
    proof {
        lemma_sums_bounded(prod@, acc@);
    }
    if count > 0 && stake > 0 {
        let s = sum / (count as u128);
        let w = weighted / (stake as u128);
        assert(s <= 10_000) by (nonlinear_arith)
            requires
                s == sum / (count as u128),
                sum <= 10_000 * count,
                count > 0,
        ;
        assert(w <= 10_000) by (nonlinear_arith)
            requires
                w == weighted / (stake as u128),
                weighted <= 10_000 * stake,
                stake > 0,
        ;
        Some((s as u64, w as u64))
    } else {
        None
    }
}

/// The cluster's (simple, stake-weighted) skip rates, or `UNKNOWN_RATE` for
/// both when they cannot be computed.
pub fn stake_weighted_skip_rate(prod: &Vec<BlockProduction>, acc: &Vec<VoteAccountStake>) -> (r: (
    u64,
    u64,
))
    requires
        total_stake(acc@) <= u64::MAX,
    ensures
        r == match cluster_rates_of(prod@, acc@) {
            Some(p) => p,
            None => (UNKNOWN_RATE, UNKNOWN_RATE),
        },
{
    match cluster_skip_rates(prod, acc) {
        Some(p) => p,
        None => (UNKNOWN_RATE, UNKNOWN_RATE),
    }
}

} // verus!
