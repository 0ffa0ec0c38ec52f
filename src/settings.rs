use vstd::prelude::*;
use crate::alert::Channel;

verus! {

/// Where messages go: one chat for routine reports, one for alerts.
#[derive(Clone, Debug, Default, PartialEq)]
pub struct Telegram {
    pub token: String,
    pub chat_id: i64,
    pub alert_chat_id: i64,
}

impl Telegram {
    /// The chat that messages of `channel` are sent to.
    pub fn chat_for(&self, channel: Channel) -> (r: i64)
        ensures
            r == match channel {
                Channel::Normal => self.chat_id,
                Channel::Critical => self.alert_chat_id,
            },
    {
        match channel {
            Channel::Normal => self.chat_id,
            Channel::Critical => self.alert_chat_id,
        }
    }
}

/// Periods of the two fast check loops, in milliseconds.
#[derive(Clone, Copy, Debug, PartialEq, Eq, Structural)]
pub struct Timeouts {
    pub deliquency_check_period: u64,
    pub balance_check_period: u64,
}

pub const DEFAULT_DELINQUENCY_PERIOD_MS: u64 = 10_000;

pub const DEFAULT_BALANCE_PERIOD_MS: u64 = 5_000;

impl Default for Timeouts {
    fn default() -> (r: Timeouts)
        ensures
            r.deliquency_check_period == DEFAULT_DELINQUENCY_PERIOD_MS,
            r.balance_check_period == DEFAULT_BALANCE_PERIOD_MS,
    {
        Timeouts {
            deliquency_check_period: DEFAULT_DELINQUENCY_PERIOD_MS,
            balance_check_period: DEFAULT_BALANCE_PERIOD_MS,
        }
    }
}

/// The keys and endpoint of one monitored validator.
#[derive(Clone, Debug, Default, PartialEq)]
pub struct Validator {
    pub name: String,
    pub identity: String,
    pub vote: String,
    pub rpc: String,
}

/// A validator together with its alert thresholds.
#[derive(Clone, Debug, Default, PartialEq)]
pub struct NodeCheckSettings {
    pub validator: Validator,
    /// Identity balance, in lamports, under which a low-balance alert is raised.
    pub min_balance_amount: u64,
    /// How far, in hundredths of a percent, the validator's skip rate may exceed
    /// the cluster's before it is critical.
    pub critical_excess_of_skip_rate: u64,
}

/// Everything the monitors are configured with; fixed for the process lifetime.
#[derive(Clone, Debug, Default, PartialEq)]
pub struct Settings {
    pub telegram: Telegram,
    pub timeouts: Timeouts,
    pub nodes: Vec<NodeCheckSettings>,
    pub balances: Vec<String>,
}

} // verus!
