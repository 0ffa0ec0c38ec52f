use vstd::prelude::*;
use crate::alert::{Alert, AlertKind, AlertView};
use crate::settings::Validator;

verus! {

/// Largest change of a balance between two cycles, in lamports, that raises no
/// alert: 0.05 of a whole token. The same tolerance holds for the identity and
/// the vote balance.
pub const DRIFT_TOLERANCE: u64 = 50_000_000;

/// The last known-good pair of balances of one validator, in lamports.
#[derive(Clone, Copy, Debug, PartialEq, Eq, Structural)]
pub struct BalanceSnapshot {
    pub identity: u64,
    pub vote: u64,
}

/// One cycle's reading of a validator's balances; `None` where the query failed.
#[derive(Clone, Copy, Debug, PartialEq, Eq, Structural)]
pub struct BalanceSample {
    pub identity: Option<u64>,
    pub vote: Option<u64>,
}

/// Which of the two balances moved.
#[derive(Clone, Copy, Debug, PartialEq, Eq, Structural)]
pub enum BalanceKind {
    Identity,
    Vote,
}

/// A material change of one balance since the stored snapshot.
#[derive(Clone, Copy, Debug, PartialEq, Eq, Structural)]
pub struct BalanceChange {
    pub kind: BalanceKind,
    pub previous: u64,
    pub current: u64,
}

pub open spec fn abs_diff(a: u64, b: u64) -> int {
    if a >= b { a - b } else { b - a }
}

/// A valid current reading that is more than the tolerance away from `previous`.
pub open spec fn drifted(previous: u64, current: Option<u64>) -> bool {
    match current {
        Some(c) => abs_diff(previous, c) > DRIFT_TOLERANCE,
        None => false,
    }
}

pub open spec fn change_of(kind: BalanceKind, previous: u64, current: Option<u64>) -> Seq<BalanceChange> {
    if drifted(previous, current) {
        seq![BalanceChange { kind, previous, current: current->Some_0 }]
    } else {
        seq![]
    }
}

/// The changes one sample shows against the stored snapshot: identity first,
/// then vote; none while no snapshot exists.
pub open spec fn changes_of(prev: Option<BalanceSnapshot>, s: BalanceSample) -> Seq<BalanceChange> {
    match prev {
        None => seq![],
        Some(p) => change_of(BalanceKind::Identity, p.identity, s.identity) + change_of(
            BalanceKind::Vote,
            p.vote,
            s.vote,
        ),
    }
}

/// The snapshot a sample leaves: replaced only when both readings are valid.
pub open spec fn next_snapshot_of(prev: Option<BalanceSnapshot>, s: BalanceSample) -> Option<BalanceSnapshot> {
    match (s.identity, s.vote) {
        (Some(i), Some(v)) => Some(BalanceSnapshot { identity: i, vote: v }),
        _ => prev,
    }
}

fn change(kind: BalanceKind, previous: u64, current: Option<u64>, out: &mut Vec<BalanceChange>)
    ensures
        final(out)@ == old(out)@ + change_of(kind, previous, current),
{
    if let Some(c) = current {
        let diff = if previous >= c { previous - c } else { c - previous };
        if diff > DRIFT_TOLERANCE {
            out.push(BalanceChange { kind, previous, current: c });
        }
    }
    assert(final(out)@ =~= old(out)@ + change_of(kind, previous, current));
}

/// The alerts a sample raises against the previous snapshot.
pub fn balance_changes(prev: Option<BalanceSnapshot>, sample: BalanceSample) -> (r: Vec<BalanceChange>)
    ensures
        r@ == changes_of(prev, sample),
{
    let mut out: Vec<BalanceChange> = Vec::new();
    if let Some(p) = prev {
        change(BalanceKind::Identity, p.identity, sample.identity, &mut out);
        change(BalanceKind::Vote, p.vote, sample.vote, &mut out);
    }
    assert(out@ =~= changes_of(prev, sample));
    out
}

/// The snapshot to keep after `sample`: missing readings never erase history.
pub fn next_snapshot(prev: Option<BalanceSnapshot>, sample: BalanceSample) -> (r: Option<BalanceSnapshot>)
    ensures
        r == next_snapshot_of(prev, sample),
{
    match (sample.identity, sample.vote) {
        (Some(i), Some(v)) => Some(BalanceSnapshot { identity: i, vote: v }),
        _ => prev,
    }
}

/// The stored snapshot of `name`, if any.
pub open spec fn lookup(m: Map<Seq<char>, BalanceSnapshot>, name: Seq<char>) -> Option<BalanceSnapshot> {
    if m.contains_key(name) { Some(m[name]) } else { None }
}

/// The snapshots after one sample of `name`.
pub open spec fn observed(
    m: Map<Seq<char>, BalanceSnapshot>,
    name: Seq<char>,
    s: BalanceSample,
) -> Map<Seq<char>, BalanceSnapshot> {
    match next_snapshot_of(lookup(m, name), s) {
        Some(n) => m.insert(name, n),
        None => m,
    }
}

/// The last-seen balances of each validator, keyed by name.
pub struct BalanceMonitor {
    names: Vec<String>,
    snapshots: Vec<BalanceSnapshot>,
    contents: Ghost<Map<Seq<char>, BalanceSnapshot>>,
}

impl View for BalanceMonitor {
    type V = Map<Seq<char>, BalanceSnapshot>;

    closed spec fn view(&self) -> Map<Seq<char>, BalanceSnapshot> {
        self.contents@
    }
}

impl BalanceMonitor {
    /// Names are unique and each one maps to the snapshot stored beside it.
    pub closed spec fn wf(&self) -> bool {
        &&& self.names@.len() == self.snapshots@.len()
        &&& forall|i: int, j: int|
            0 <= i < j < self.names@.len() ==> self.names@[i]@ != self.names@[j]@
        &&& forall|k: Seq<char>|
            self.contents@.contains_key(k) <==> exists|i: int|
                0 <= i < self.names@.len() && self.names@[i]@ == k
        &&& forall|i: int|
            0 <= i < self.names@.len() ==> #[trigger] self.contents@[self.names@[i]@]
                == self.snapshots@[i]
    }

    /// A monitor that has seen nothing yet.
    pub fn new() -> (r: BalanceMonitor)
        ensures
            r.wf(),
            r@ == Map::<Seq<char>, BalanceSnapshot>::empty(),
    {
        BalanceMonitor { names: Vec::new(), snapshots: Vec::new(), contents: Ghost(Map::empty()) }
    }

    fn position(&self, name: &String) -> (r: Option<usize>)
        requires
            self.wf(),
        ensures
            match r {
                Some(i) => i < self.names@.len() && self.names@[i as int]@ == name@,
                None => forall|i: int| 0 <= i < self.names@.len() ==> self.names@[i]@ != name@,
            },
    {
        let mut i: usize = 0;
        while i < self.names.len()
            invariant
                i <= self.names@.len(),
                forall|j: int| 0 <= j < i ==> self.names@[j]@ != name@,
            decreases self.names@.len() - i,
        {
            if self.names[i] == *name {
                return Some(i);
            }
            i = i + 1;
        }
        None
    }

    /// The stored snapshot of `name`.
    pub fn snapshot(&self, name: &String) -> (r: Option<BalanceSnapshot>)
        requires
            self.wf(),
        ensures
            r == lookup(self@, name@),
    {
        match self.position(name) {
            Some(i) => Some(self.snapshots[i]),
            None => {
                assert(!self@.contains_key(name@));
                None
            },
        }
    }

    /// Takes one cycle's sample of `name`: returns the changes against the
    /// stored snapshot and keeps the sample when both readings are valid.
    pub fn observe(&mut self, name: &String, sample: BalanceSample) -> (r: Vec<BalanceChange>)
        requires
            old(self).wf(),
        ensures
            final(self).wf(),
            r@ == changes_of(lookup(old(self)@, name@), sample),
            final(self)@ == observed(old(self)@, name@, sample),
    {
        let pos = self.position(name);
        let prev = match pos {
            Some(i) => Some(self.snapshots[i]),
            None => None,
        };
        assert(prev == lookup(self@, name@));
        let r = balance_changes(prev, sample);
        if let (Some(identity), Some(vote)) = (sample.identity, sample.vote) {
            let snap = BalanceSnapshot { identity, vote };
            match pos {
                Some(i) => {
                    self.snapshots.set(i, snap);
                    self.contents = Ghost(self.contents@.insert(name@, snap));
                    assert forall|j: int| 0 <= j < self.names@.len() implies
                        #[trigger] self.contents@[self.names@[j]@] == self.snapshots@[j] by {
                        if j != i {
                            assert(self.names@[j]@ != name@);
                        }
                    }
                },
                None => {
                    let ghost old_names = self.names@;
                    self.names.push(name.clone());
                    self.snapshots.push(snap);
                    self.contents = Ghost(self.contents@.insert(name@, snap));
                    assert forall|k: Seq<char>|
                        self.contents@.contains_key(k) implies exists|i: int|
                            0 <= i < self.names@.len() && self.names@[i]@ == k by {
                        if k == name@ {
                            assert(self.names@[old_names.len() as int]@ == k);
                        } else {
                            let i = choose|i: int| 0 <= i < old_names.len() && old_names[i]@ == k;
                            assert(self.names@[i]@ == k);
                        }
                    }
                    assert forall|k: Seq<char>|
                        (exists|i: int| 0 <= i < self.names@.len() && self.names@[i]@ == k)
                        implies self.contents@.contains_key(k) by {
                        let i = choose|i: int| 0 <= i < self.names@.len() && self.names@[i]@ == k;
                        if i < old_names.len() {
                            assert(old_names[i]@ == k);
                        }
                    }
                },
            }
        }
        r
    }
}

/// The alert raised for a change of `v`'s balance.
pub open spec fn change_alert_of(v: Validator, c: BalanceChange) -> AlertView {
    AlertView { name: v.name@, identity: v.identity@, kind: AlertKind::BalanceChanged(c) }
}

impl BalanceMonitor {
    /// One balance cycle for `validator`: an alert for each change against its
    /// stored snapshot, which is then updated as `observe` does.
    pub fn check(&mut self, validator: &Validator, sample: BalanceSample) -> (r: Vec<Alert>)
        requires
            old(self).wf(),
        ensures
            final(self).wf(),
            final(self)@ == observed(old(self)@, validator.name@, sample),
            r@.map_values(|a: Alert| a@) == changes_of(
                lookup(old(self)@, validator.name@),
                sample,
            ).map_values(|c: BalanceChange| change_alert_of(*validator, c)),
    {
        let changes = self.observe(&validator.name, sample);
        let mut out: Vec<Alert> = Vec::new();
        let mut i: usize = 0;
        while i < changes.len()
            invariant
                i <= changes@.len(),
                out@.len() == i,
                forall|k: int|
                    0 <= k < i ==> (#[trigger] out@[k])@ == change_alert_of(*validator, changes@[k]),
            decreases changes@.len() - i,
        {
            out.push(
                Alert {
                    name: validator.name.clone(),
                    identity: validator.identity.clone(),
                    kind: AlertKind::BalanceChanged(changes[i]),
                },
            );
            i = i + 1;
        }
        assert(out@.map_values(|a: Alert| a@) =~= changes@.map_values(
            |c: BalanceChange| change_alert_of(*validator, c),
        ));
        out
    }
}

/// Both readings of a sample are valid.
pub open spec fn complete(s: BalanceSample) -> bool {
    s.identity is Some && s.vote is Some
}

/// Every change raised when `name` is sampled once per cycle with `samples`,
/// starting from the snapshots `m`: the concatenation of what successive
/// `observe` (or `check`) calls return, by their contracts.
pub open spec fn changes_over(
    m: Map<Seq<char>, BalanceSnapshot>,
    name: Seq<char>,
    samples: Seq<BalanceSample>,
) -> Seq<BalanceChange>
    decreases samples.len(),
{
    if samples.len() == 0 {
        seq![]
    } else {
        changes_of(lookup(m, name), samples[0]) + changes_over(
            observed(m, name, samples[0]),
            name,
            samples.drop_first(),
        )
    }
}

/// When every sample is complete and the identity balance never moves by more
/// than the tolerance from one cycle to the next (the stored snapshot counting
/// as the cycle before the first), no identity change is ever reported.
pub proof fn lemma_steady_identity_is_quiet(
    m: Map<Seq<char>, BalanceSnapshot>,
    name: Seq<char>,
    samples: Seq<BalanceSample>,
)
    requires
        forall|i: int| 0 <= i < samples.len() ==> complete(#[trigger] samples[i]),
        forall|i: int|
            0 < i < samples.len() ==> abs_diff(
                samples[i - 1].identity->Some_0,
                (#[trigger] samples[i]).identity->Some_0,
            ) <= DRIFT_TOLERANCE,
        m.contains_key(name) && samples.len() > 0 ==> abs_diff(
            m[name].identity,
            samples[0].identity->Some_0,
        ) <= DRIFT_TOLERANCE,
    ensures
        forall|k: int|
            0 <= k < changes_over(m, name, samples).len() ==> (#[trigger] changes_over(
                m,
                name,
                samples,
            )[k]).kind != BalanceKind::Identity,
    decreases samples.len(),
{
    if samples.len() > 0 {
        let s0 = samples[0];
        assert(complete(s0));
        let m1 = observed(m, name, s0);
        let rest = samples.drop_first();
        assert(lookup(m1, name) == Some(
            BalanceSnapshot { identity: s0.identity->Some_0, vote: s0.vote->Some_0 },
        ));
        assert forall|i: int| 0 < i < rest.len() implies abs_diff(
            rest[i - 1].identity->Some_0,
            (#[trigger] rest[i]).identity->Some_0,
        ) <= DRIFT_TOLERANCE by {
            assert(samples[i + 1] == rest[i]);
        }
        if rest.len() > 0 {
            assert(samples[1] == rest[0]);
        }
        lemma_steady_identity_is_quiet(m1, name, rest);
        let head = changes_of(lookup(m, name), s0);
        let tail = changes_over(m1, name, rest);
        assert(changes_over(m, name, samples) == head + tail);
        assert forall|k: int| 0 <= k < head.len() implies (#[trigger] head[k]).kind
            != BalanceKind::Identity by {
            if m.contains_key(name) {
                let p = m[name];
                assert(!drifted(p.identity, s0.identity));
                assert(change_of(BalanceKind::Identity, p.identity, s0.identity).len() == 0);
                assert(head =~= change_of(BalanceKind::Vote, p.vote, s0.vote));
            }
        }
        assert forall|k: int| 0 <= k < (head + tail).len() implies (#[trigger] (head
            + tail)[k]).kind != BalanceKind::Identity by {
            if k >= head.len() {
                assert((head + tail)[k] == tail[k - head.len()]);
            }
        }
    }
}

/// Feeding the same complete sample of `name` cycle after cycle raises changes
/// in the first cycle only (none at all when no snapshot was stored yet), and
/// after the first cycle the snapshots stay as they are.
pub proof fn lemma_repeated_sample_is_quiet(
    m: Map<Seq<char>, BalanceSnapshot>,
    name: Seq<char>,
    s: BalanceSample,
    n: nat,
)
    requires
        complete(s),
    ensures
        changes_over(m, name, Seq::new(n + 1, |i: int| s)) == changes_of(lookup(m, name), s),
        !m.contains_key(name) ==> changes_over(m, name, Seq::new(n + 1, |i: int| s))
            == Seq::<BalanceChange>::empty(),
        observed(observed(m, name, s), name, s) == observed(m, name, s),
{
    let m1 = observed(m, name, s);
    let snap = BalanceSnapshot { identity: s.identity->Some_0, vote: s.vote->Some_0 };
    assert(m1 == m.insert(name, snap));
    assert(m1.insert(name, snap) =~= m1);
    lemma_stored_sample_is_quiet(m1, name, s, n);
    assert(Seq::new(n + 1, |i: int| s).drop_first() =~= Seq::new(n, |i: int| s));
    assert(changes_of(lookup(m, name), s) + Seq::<BalanceChange>::empty() =~= changes_of(
        lookup(m, name),
        s,
    ));
}

proof fn lemma_stored_sample_is_quiet(
    m: Map<Seq<char>, BalanceSnapshot>,
    name: Seq<char>,
    s: BalanceSample,
    n: nat,
)
    requires
        complete(s),
        lookup(m, name) == Some(
            BalanceSnapshot { identity: s.identity->Some_0, vote: s.vote->Some_0 },
        ),
    ensures
        changes_over(m, name, Seq::new(n, |i: int| s)) == Seq::<BalanceChange>::empty(),
    decreases n,
{
    let samples = Seq::new(n, |i: int| s);
    if n > 0 {
        let snap = BalanceSnapshot { identity: s.identity->Some_0, vote: s.vote->Some_0 };
        assert(m.insert(name, snap) =~= m);
        assert(samples.drop_first() =~= Seq::new((n - 1) as nat, |i: int| s));
        lemma_stored_sample_is_quiet(m, name, s, (n - 1) as nat);
        assert(changes_of(lookup(m, name), s) =~= Seq::<BalanceChange>::empty());
        assert(changes_over(m, name, samples) =~= Seq::<BalanceChange>::empty());
    }
}

} // verus!
