use vstd::prelude::*;
use crate::alert::{Alert, AlertKind, AlertView};
use crate::settings::Validator;

verus! {

/// What one liveness query says of a validator.
#[derive(Clone, Copy, Debug, PartialEq, Eq, Structural)]
pub enum Liveness {
    /// The query failed: nothing is known, nothing is raised.
    Unknown,
    Healthy,
    Delinquent,
}

pub open spec fn liveness_of(status: Option<bool>) -> Liveness {
    match status {
        None => Liveness::Unknown,
        Some(false) => Liveness::Healthy,
        Some(true) => Liveness::Delinquent,
    }
}

/// Reads the answer of a delinquency query; a failed query is `Unknown`,
/// distinct from a healthy answer.
pub fn liveness(status: Option<bool>) -> (r: Liveness)
    ensures
        r == liveness_of(status),
{
    match status {
        None => Liveness::Unknown,
        Some(false) => Liveness::Healthy,
        Some(true) => Liveness::Delinquent,
    }
}

/// The alerts of one cycle over `roster[..n]`: one `Delinquent` alert for
/// each validator whose query answered `Some(true)`, in roster order.
pub open spec fn delinquency_alerts_of(
    roster: Seq<Validator>,
    statuses: Seq<Option<bool>>,
    n: int,
) -> Seq<AlertView>
    decreases n,
{
    if n <= 0 {
        seq![]
    } else {
        delinquency_alerts_of(roster, statuses, n - 1) + if statuses[n - 1] == Some(true) {
            seq![
                AlertView {
                    name: roster[n - 1].name@,
                    identity: roster[n - 1].identity@,
                    kind: AlertKind::Delinquent,
                },
            ]
        } else {
            seq![]
        }
    }
}

/// One delinquency cycle: `statuses[i]` is the answer for `roster[i]`. Every
/// validator that is delinquent is alerted on, every cycle it stays so; a
/// healthy answer or a failed query raises nothing.
pub fn delinquency_alerts(roster: &Vec<Validator>, statuses: &Vec<Option<bool>>) -> (r: Vec<Alert>)
    requires
        roster@.len() == statuses@.len(),
    ensures
        r@.map_values(|a: Alert| a@) == delinquency_alerts_of(
            roster@,
            statuses@,
            roster@.len() as int,
        ),
{
    let mut out: Vec<Alert> = Vec::new();
    let mut i: usize = 0;
    while i < roster.len()
        invariant
            i <= roster@.len() == statuses@.len(),
            out@.map_values(|a: Alert| a@) == delinquency_alerts_of(roster@, statuses@, i as int),
        decreases roster@.len() - i,
    {
        let ghost before = out@;
        if liveness(statuses[i]) == Liveness::Delinquent {
            let a = Alert {
                name: roster[i].name.clone(),
                identity: roster[i].identity.clone(),
                kind: AlertKind::Delinquent,
            };
            out.push(a);
            assert(out@.map_values(|a: Alert| a@) =~= before.map_values(|a: Alert| a@) + seq![
                a@,
            ]);
        } else {
            assert(delinquency_alerts_of(roster@, statuses@, i + 1) =~= delinquency_alerts_of(
                roster@,
                statuses@,
                i as int,
            ));
        }
        i = i + 1;
    }
    out
}

} // verus!
