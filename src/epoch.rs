use vstd::prelude::*;
use vstd::string::*;

verus! {

/// Where the cluster stands in the current epoch.
#[derive(Clone, Copy, Debug, PartialEq, Eq, Structural)]
pub struct EpochInfo {
    pub epoch: u64,
    pub slot_index: u64,
    pub slots_in_epoch: u64,
}

/// One recent performance sample: slots completed in a sampling period.
#[derive(Clone, Copy, Debug, PartialEq, Eq, Structural)]
pub struct PerformanceSample {
    pub num_slots: u64,
    pub sample_period_secs: u16,
}

/// Slots left in the epoch.
pub open spec fn remaining_slots_of(e: EpochInfo) -> int {
    if e.slot_index <= e.slots_in_epoch { e.slots_in_epoch - e.slot_index } else { 0 }
}

/// More than half of the epoch is still ahead.
pub open spec fn more_than_half_left_of(e: EpochInfo) -> bool {
    2 * remaining_slots_of(e) > e.slots_in_epoch
}

pub open spec fn slot_total(s: Seq<PerformanceSample>) -> int
    decreases s.len(),
{
    if s.len() == 0 { 0 } else { slot_total(s.drop_last()) + s.last().num_slots }
}

pub open spec fn secs_total(s: Seq<PerformanceSample>) -> int
    decreases s.len(),
{
    if s.len() == 0 { 0 } else { secs_total(s.drop_last()) + s.last().sample_period_secs }
}

/// Average slot duration in milliseconds over the samples, rounded down;
/// unknown when they cover no slot.
pub open spec fn average_slot_ms_of(s: Seq<PerformanceSample>) -> Option<int> {
    if slot_total(s) == 0 { None } else { Some(secs_total(s) * 1000 / slot_total(s)) }
}

/// Estimated time left in the epoch, in milliseconds.
pub open spec fn remaining_ms_of(e: EpochInfo, s: Seq<PerformanceSample>) -> Option<int> {
    match average_slot_ms_of(s) {
        Some(a) => Some(remaining_slots_of(e) * a),
        None => None,
    }
}

/// The estimate when it is known and fits in a `u64`.
pub open spec fn remaining_ms_u64_of(e: EpochInfo, s: Seq<PerformanceSample>) -> Option<u64> {
    match remaining_ms_of(e, s) {
        Some(v) => if v <= u64::MAX { Some(v as u64) } else { None },
        None => None,
    }
}

/// Slots left in the epoch.
pub fn remaining_slots(e: &EpochInfo) -> (r: u64)
    ensures
        r == remaining_slots_of(*e),
{
    if e.slot_index <= e.slots_in_epoch { e.slots_in_epoch - e.slot_index } else { 0 }
}

/// Whether more than half of the epoch is still ahead.
pub fn more_than_half_left(e: &EpochInfo) -> (r: bool)
    ensures
        r == more_than_half_left_of(*e),
{
    let rem = remaining_slots(e);
    (rem as u128) * 2 > e.slots_in_epoch as u128
}

proof fn lemma_totals_bounded(s: Seq<PerformanceSample>)
    ensures
        0 <= slot_total(s) <= s.len() * u64::MAX,
        0 <= secs_total(s) <= s.len() * u16::MAX,
    decreases s.len(),
{
    if s.len() > 0 {
        lemma_totals_bounded(s.drop_last());
    }
}

/// Estimated milliseconds left in the epoch: the slots left times the average
/// slot duration of the samples; `None` when the samples cover no slot or the
/// estimate does not fit in a `u64`.
pub fn epoch_remaining_ms(e: &EpochInfo, samples: &Vec<PerformanceSample>) -> (r: Option<u64>)
    ensures
        r == remaining_ms_u64_of(*e, samples@),
{
    let mut slots: u128 = 0;
    let mut secs: u128 = 0;
    let mut i: usize = 0;
    while i < samples.len()
        invariant
            i <= samples@.len(),
            slots == slot_total(samples@.take(i as int)),
            secs == secs_total(samples@.take(i as int)),
        decreases samples@.len() - i,
    {
        proof {
            assert(samples@.take(i + 1).drop_last() =~= samples@.take(i as int));
            lemma_totals_bounded(samples@.take(i + 1));
            assert((i + 1) * u64::MAX <= u128::MAX) by (nonlinear_arith)
                requires
                    i < usize::MAX,
            ;
            assert((i + 1) * u16::MAX <= (i + 1) * u64::MAX) by (nonlinear_arith)
                requires
                    i >= 0,
            ;
        }
        slots = slots + samples[i].num_slots as u128;
        secs = secs + samples[i].sample_period_secs as u128;
        i = i + 1;
    }
    assert(samples@.take(samples@.len() as int) =~= samples@);
    if slots == 0 {
        return None;
    }
    proof {
        lemma_totals_bounded(samples@);
        assert(samples@.len() * u16::MAX * 1000 <= u128::MAX) by (nonlinear_arith)
            requires
                samples@.len() <= usize::MAX,
        ;
        assert(secs * 1000 <= samples@.len() * u16::MAX * 1000) by (nonlinear_arith)
            requires
                secs <= samples@.len() * u16::MAX,
        ;
    }
    let average: u128 = secs * 1000 / slots;
    let rem = remaining_slots(e);
    match (rem as u128).checked_mul(average) {
        Some(v) => {
            if v <= u64::MAX as u128 {
                Some(v as u64)
            } else {
                None
            }
        },
        None => None,
    }
}

/// What the `humantime` crate writes for a duration of `ms` milliseconds.
pub uninterp spec fn duration_text(ms: int) -> Seq<char>;

/// Relies on humantime::format_duration, whose `Display` writes the duration
/// as a human-readable text that depends on the duration alone.
#[verifier::external_body]
fn format_duration_ms(ms: u64) -> (r: String)
    ensures
        r@ == duration_text(ms as int),
{
    humantime::format_duration(std::time::Duration::from_millis(ms)).to_string()
}

/// The time left in the epoch as text: `duration_text` of the estimate, or
/// "?" when there is none.
pub open spec fn eta_text_of(e: EpochInfo, s: Seq<PerformanceSample>) -> Seq<char> {
    match remaining_ms_u64_of(e, s) {
        Some(v) => duration_text(v as int),
        None => "?"@,
    }
}

/// Writes the estimated time left in the epoch.
pub fn epoch_eta_text(e: &EpochInfo, samples: &Vec<PerformanceSample>) -> (r: String)
    ensures
        r@ == eta_text_of(*e, samples@),
{
    match epoch_remaining_ms(e, samples) {
        Some(v) => format_duration_ms(v),
        None => String::from_str("?"),
    }
}

} // verus!
