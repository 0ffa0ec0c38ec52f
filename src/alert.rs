use vstd::prelude::*;
use vstd::string::*;
use crate::balance::{BalanceChange, BalanceKind};
use crate::text::{fixed_point, fixed_point_text, prefix, prefix_of};

verus! {

/// Lamports in one whole token.
pub const LAMPORTS_PER_TOKEN: u64 = 1_000_000_000;

/// Characters of a key shown in a message.
pub const KEY_PREFIX_LEN: usize = 16;

/// Where a message is delivered.
#[derive(Clone, Copy, Debug, PartialEq, Eq, Structural)]
pub enum Channel {
    /// Routine status reports.
    Normal,
    /// Alerts.
    Critical,
}

/// What an alert is about.
#[derive(Clone, Copy, Debug, PartialEq, Eq, Structural)]
pub enum AlertKind {
    /// The network flags the validator as delinquent.
    Delinquent,
    /// A balance moved by more than the tolerance.
    BalanceChanged(BalanceChange),
    /// The skip rate, in hundredths of a percent, is critical.
    CriticalSkipRate(u64),
    /// The identity balance, in lamports, is under its threshold.
    LowBalance(u64),
}

/// An alert for the critical channel about one validator.
#[derive(Clone, Debug)]
pub struct Alert {
    pub name: String,
    pub identity: String,
    pub kind: AlertKind,
}

pub struct AlertView {
    pub name: Seq<char>,
    pub identity: Seq<char>,
    pub kind: AlertKind,
}

impl View for Alert {
    type V = AlertView;

    open spec fn view(&self) -> AlertView {
        AlertView { name: self.name@, identity: self.identity@, kind: self.kind }
    }
}

/// `lamports` in thousandths of a token, rounded half up.
pub open spec fn milli_tokens(lamports: u64) -> nat {
    ((lamports + 500_000) / 1_000_000) as nat
}

/// `lamports` in hundredths of a token, rounded half up.
pub open spec fn centi_tokens(lamports: u64) -> nat {
    ((lamports + 5_000_000) / 10_000_000) as nat
}

/// A token amount with three decimals.
pub open spec fn tokens3_text(lamports: u64) -> Seq<char> {
    fixed_point(milli_tokens(lamports), 3)
}

/// The signed difference `current - previous` with three decimals.
pub open spec fn delta3_text(previous: u64, current: u64) -> Seq<char> {
    if current >= previous {
        tokens3_text((current - previous) as u64)
    } else {
        seq!['-'] + tokens3_text((previous - current) as u64)
    }
}

pub open spec fn body_of(kind: AlertKind) -> Seq<char> {
    match kind {
        AlertKind::Delinquent => "DELINQUENT!!!"@,
        AlertKind::BalanceChanged(c) => (match c.kind {
            BalanceKind::Identity => "Identity"@,
            BalanceKind::Vote => "Vote"@,
        }) + " balance changed!!! "@ + tokens3_text(c.previous) + ";"@ + tokens3_text(c.current)
            + ";"@ + delta3_text(c.previous, c.current),
        AlertKind::CriticalSkipRate(r) => "CRITICAL_SKIP_RATE => "@ + fixed_point(r as nat, 2)
            + "!!!"@,
        AlertKind::LowBalance(b) => "SMALL AMOUNT => "@ + tokens3_text(b) + "!!!"@,
    }
}

/// The message of an alert: the validator's name in bold, the first characters
/// of its identity key, and what happened.
pub open spec fn alert_text_of(a: AlertView) -> Seq<char> {
    "<b>"@ + a.name + "</b>\npubkey -> "@ + prefix_of(a.identity, KEY_PREFIX_LEN as nat)
        + "\n<b>"@ + body_of(a.kind) + "</b>!!!"@
}

/// Writes a lamport amount as tokens with three decimals.
pub fn tokens3(lamports: u64) -> (r: String)
    ensures
        r@ == tokens3_text(lamports),
{
    let milli: u128 = ((lamports as u128) + 500_000) / 1_000_000;
    fixed_point_text(milli as u64, 3)
}

/// Writes a lamport amount as tokens with two decimals.
pub fn tokens2(lamports: u64) -> (r: String)
    ensures
        r@ == fixed_point(centi_tokens(lamports), 2),
{
    let centi: u128 = ((lamports as u128) + 5_000_000) / 10_000_000;
    fixed_point_text(centi as u64, 2)
}

fn delta3(previous: u64, current: u64) -> (r: String)
    ensures
        r@ == delta3_text(previous, current),
{
    if current >= previous {
        tokens3(current - previous)
    } else {
        let mut s = String::from_str("-");
        proof {
            reveal_strlit("-");
        }
        let t = tokens3(previous - current);
        s.append(t.as_str());
        s
    }
}

fn body(kind: AlertKind) -> (r: String)
    ensures
        r@ == body_of(kind),
{
    match kind {
        AlertKind::Delinquent => String::from_str("DELINQUENT!!!"),
        AlertKind::BalanceChanged(c) => {
            let mut s = match c.kind {
                BalanceKind::Identity => String::from_str("Identity"),
                BalanceKind::Vote => String::from_str("Vote"),
            };
            s.append(" balance changed!!! ");
            let p = tokens3(c.previous);
            s.append(p.as_str());
            s.append(";");
            let n = tokens3(c.current);
            s.append(n.as_str());
            s.append(";");
            let d = delta3(c.previous, c.current);
            s.append(d.as_str());
            s
        },
        AlertKind::CriticalSkipRate(r) => {
            let mut s = String::from_str("CRITICAL_SKIP_RATE => ");
            let v = fixed_point_text(r, 2);
            s.append(v.as_str());
            s.append("!!!");
            s
        },
        AlertKind::LowBalance(b) => {
            let mut s = String::from_str("SMALL AMOUNT => ");
            let v = tokens3(b);
            s.append(v.as_str());
            s.append("!!!");
            s
        },
    }
}

impl Alert {
    /// Every alert goes to the critical channel.
    pub fn channel(&self) -> (r: Channel)
        ensures
            r == Channel::Critical,
    {
        Channel::Critical
    }

    /// The message to send for this alert.
    pub fn text(&self) -> (r: String)
        ensures
            r@ == alert_text_of(self@),
    {
        let mut s = String::from_str("<b>");
        s.append(self.name.as_str());
        s.append("</b>\npubkey -> ");
        let key = prefix(self.identity.as_str(), KEY_PREFIX_LEN);
        s.append(key.as_str());
        s.append("\n<b>");
        let b = body(self.kind);
        s.append(b.as_str());
        s.append("</b>!!!");
        s
    }
}

} // verus!
