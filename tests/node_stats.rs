use solana_bot::alert::AlertKind;
use solana_bot::credits::{credits_and_place, VoteAccountCredits};
use solana_bot::epoch::{
    epoch_eta_text, epoch_remaining_ms, more_than_half_left, remaining_slots, EpochInfo,
    PerformanceSample,
};
use solana_bot::node::{
    critical_skip_rate, evaluate_node, low_balance, node_health, node_version, ContactInfo, Health,
    NodeStats,
};
use solana_bot::stats::{
    cluster_skip_rates, skip_rate, stake_weighted_skip_rate, BlockProduction, VoteAccountStake,
    UNKNOWN_RATE,
};
use solana_bot::{NodeCheckSettings, Validator};

const TOKEN: u64 = 1_000_000_000;

fn epoch_at(slot_index: u64, slots_in_epoch: u64) -> EpochInfo {
    EpochInfo { epoch: 512, slot_index, slots_in_epoch }
}

fn production(identity: &str, leader_slots: u64, blocks_produced: u64) -> BlockProduction {
    BlockProduction { identity: identity.to_string(), leader_slots, blocks_produced }
}

fn stake(node: &str, activated_stake: u64) -> VoteAccountStake {
    VoteAccountStake { node_pubkey: node.to_string(), activated_stake }
}

fn credits(node: &str, earned: u64) -> VoteAccountCredits {
    VoteAccountCredits { node_pubkey: node.to_string(), credits: 1_000 + earned, previous_credits: 1_000 }
}

#[test]
fn skip_rate_formula() {
    assert_eq!(skip_rate(100, 40), Some(6_000));
    assert_eq!(skip_rate(3, 2), Some(3_333));
    assert_eq!(skip_rate(10, 10), Some(0));
}

#[test]
fn skip_rate_unknown_without_slots() {
    assert_eq!(skip_rate(0, 0), None);
}

#[test]
fn skip_rate_unknown_for_more_blocks_than_slots() {
    assert_eq!(skip_rate(10, 12), None);
    assert_eq!(skip_rate(2, 3), None);
    let e = epoch_at(0, 1_000);
    assert!(!critical_skip_rate(skip_rate(2, 3), Some(0), 0, &e, 2, 3));
    let prod = vec![production("A", 2, 3), production("B", 10, 5)];
    let acc = vec![stake("A", 100), stake("B", 100)];
    assert_eq!(cluster_skip_rates(&prod, &acc), Some((2_500, 2_500)));
    let only_surplus = vec![stake("A", 100)];
    assert_eq!(cluster_skip_rates(&prod, &only_surplus), Some((0, 0)));
}

#[test]
fn cluster_rates_count_surplus_blocks_as_no_miss() {
    let prod = vec![production("A", 10, 5), production("B", 10, 20)];
    let acc = vec![stake("A", 1), stake("B", 1)];
    assert_eq!(cluster_skip_rates(&prod, &acc), Some((2_500, 2_500)));
    assert_eq!(stake_weighted_skip_rate(&prod, &acc), (2_500, 2_500));
}

#[test]
fn low_ratio_guard_blocks_critical() {
    let e = epoch_at(300, 1_000);
    assert!(!critical_skip_rate(Some(6_000), Some(3_000), 2_000, &e, 100, 40));
}

#[test]
fn high_ratio_makes_critical() {
    let e = epoch_at(300, 1_000);
    assert!(critical_skip_rate(Some(6_000), Some(3_000), 2_000, &e, 100, 60));
}

#[test]
fn critical_needs_most_of_epoch_ahead() {
    assert!(!critical_skip_rate(Some(6_000), Some(3_000), 2_000, &epoch_at(500, 1_000), 100, 60));
    assert!(critical_skip_rate(Some(6_000), Some(3_000), 2_000, &epoch_at(499, 1_000), 100, 60));
    assert!(!critical_skip_rate(Some(4_999), Some(3_000), 2_000, &epoch_at(0, 1_000), 100, 60));
}

#[test]
fn unknown_rates_are_never_critical() {
    let e = epoch_at(0, 1_000);
    assert!(!critical_skip_rate(None, Some(0), 0, &e, 100, 100));
    assert!(!critical_skip_rate(Some(10_000), None, 0, &e, 100, 100));
}

#[test]
fn cluster_rates_empty_and_zero_stake_give_sentinel() {
    let prod = vec![production("A", 10, 5)];
    assert_eq!(cluster_skip_rates(&prod, &vec![]), None);
    assert_eq!(stake_weighted_skip_rate(&prod, &vec![]), (UNKNOWN_RATE, UNKNOWN_RATE));
    let zero = vec![stake("A", 0), stake("B", 0)];
    assert_eq!(cluster_skip_rates(&prod, &zero), None);
    assert_eq!(stake_weighted_skip_rate(&prod, &zero), (10_000, 10_000));
}

#[test]
fn cluster_rates_weighted_by_known_stake() {
    let prod = vec![production("A", 100, 90), production("B", 200, 100), production("C", 0, 0)];
    let acc = vec![stake("A", 300), stake("B", 100), stake("C", 600), stake("D", 50)];
    assert_eq!(cluster_skip_rates(&prod, &acc), Some((3_000, 2_000)));
    assert_eq!(stake_weighted_skip_rate(&prod, &acc), (3_000, 2_000));
}

#[test]
fn cluster_rates_use_first_production_entry() {
    let prod = vec![production("A", 10, 10), production("A", 10, 0)];
    let acc = vec![stake("A", 5)];
    assert_eq!(cluster_skip_rates(&prod, &acc), Some((0, 0)));
}

#[test]
fn credits_ranking_places_by_earned_descending() {
    let acc = vec![credits("A", 500), credits("B", 300), credits("C", 800)];
    assert_eq!(credits_and_place(&acc, &"C".to_string()), (1, 800));
    assert_eq!(credits_and_place(&acc, &"A".to_string()), (2, 500));
    assert_eq!(credits_and_place(&acc, &"B".to_string()), (3, 300));
}

#[test]
fn credits_ranking_absent_validator() {
    let acc = vec![credits("A", 500), credits("B", 300), credits("C", 800)];
    assert_eq!(credits_and_place(&acc, &"Z".to_string()), (0, 0));
    assert_eq!(credits_and_place(&vec![], &"Z".to_string()), (0, 0));
}

#[test]
fn credits_ranking_ties_keep_original_order() {
    let acc = vec![credits("A", 400), credits("B", 400), credits("C", 100)];
    assert_eq!(credits_and_place(&acc, &"A".to_string()), (1, 400));
    assert_eq!(credits_and_place(&acc, &"B".to_string()), (2, 400));
    assert_eq!(credits_and_place(&acc, &"C".to_string()), (3, 100));
}

#[test]
fn epoch_estimates() {
    let e = epoch_at(0, 1_000);
    assert_eq!(remaining_slots(&e), 1_000);
    assert!(more_than_half_left(&e));
    assert!(!more_than_half_left(&epoch_at(500, 1_000)));
    let samples = vec![
        PerformanceSample { num_slots: 100, sample_period_secs: 40 },
        PerformanceSample { num_slots: 100, sample_period_secs: 40 },
    ];
    assert_eq!(epoch_remaining_ms(&e, &samples), Some(400_000));
    assert_eq!(epoch_eta_text(&e, &samples), "6m 40s");
    assert_eq!(epoch_remaining_ms(&e, &vec![]), None);
    assert_eq!(epoch_eta_text(&e, &vec![]), "?");
    let idle = vec![PerformanceSample { num_slots: 0, sample_period_secs: 60 }];
    assert_eq!(epoch_remaining_ms(&e, &idle), None);
}

#[test]
fn health_and_low_balance() {
    assert_eq!(node_health(true, Some(true)), Health::Critical);
    assert_eq!(node_health(false, Some(true)), Health::Delinquent);
    assert_eq!(node_health(false, Some(false)), Health::Healthy);
    assert_eq!(node_health(false, None), Health::Healthy);
    assert!(low_balance(Some(TOKEN - 1), TOKEN));
    assert!(!low_balance(Some(TOKEN), TOKEN));
    assert!(!low_balance(None, TOKEN));
}

#[test]
fn node_version_lookup() {
    let nodes = vec![
        ContactInfo { pubkey: "A".to_string(), version: None },
        ContactInfo { pubkey: "B".to_string(), version: Some("1.18.26".to_string()) },
        ContactInfo { pubkey: "B".to_string(), version: Some("2.0.0".to_string()) },
    ];
    assert_eq!(node_version(&nodes, &"B".to_string()), "1.18.26");
    assert_eq!(node_version(&nodes, &"A".to_string()), "?");
    assert_eq!(node_version(&nodes, &"C".to_string()), "?");
}

fn node() -> NodeCheckSettings {
    NodeCheckSettings {
        validator: Validator {
            name: "main".to_string(),
            identity: "IdentityKey1234567890abcdefghijk".to_string(),
            vote: "VoteKey1234567890abcdefghijklmno".to_string(),
            rpc: String::new(),
        },
        min_balance_amount: 2 * TOKEN,
        critical_excess_of_skip_rate: 2_000,
    }
}

fn stats(leader_slots: u64, blocks_produced: u64, identity_balance: Option<u64>) -> NodeStats {
    NodeStats {
        version: "1.18.26".to_string(),
        identity_balance,
        vote_balance: Some(1_234_567_890),
        delinquent: Some(false),
        leader_slots,
        blocks_produced,
        slot_count: 200,
        cluster: Some((1_500, 1_000)),
        epoch: epoch_at(300, 1_000),
        epoch_eta: "1day 2h".to_string(),
        place: 7,
        credits: 123_456,
        activated_stake: Some(50_000 * TOKEN),
    }
}

#[test]
fn critical_node_alerts_and_still_reports() {
    let report = evaluate_node(&node(), &stats(100, 60, Some(5 * TOKEN)));
    assert_eq!(report.health, Health::Critical);
    let alert = report.critical_alert.expect("critical alert");
    assert_eq!(alert.kind, AlertKind::CriticalSkipRate(4_000));
    assert_eq!(
        alert.text(),
        "<b>main</b>\npubkey -> IdentityKey12345\n<b>CRITICAL_SKIP_RATE => 40.00!!!</b>!!!"
    );
    assert!(report.status.starts_with("<b>main [1.18.26]</b> \u{1F534}"));
    assert!(report.low_balance_alert.is_none());
}

#[test]
fn healthy_node_report_layout() {
    let report = evaluate_node(&node(), &stats(100, 95, Some(5 * TOKEN)));
    assert_eq!(report.health, Health::Healthy);
    assert!(report.critical_alert.is_none());
    let dashes = format!("{:-<35}\n", "");
    let expected = format!(
        "<b>main [1.18.26]</b> \u{1F7E2}\n\n<code>{:^16} | {:^16}\n{d}{:<16} | {:<16}\n{:^16} | {:^16}\n{d} place: {:^8} | credits: {:^7}\n{d} progress | skip | skip% | cluster%\n{d}{:^10}|{:^6}|{:^7}|{:^9}\n{d}epoch:{:^4}|{:^25}\n{d}Active stake |{:^22}\n{d}</code>",
        "identity", "vote", "IdentityKey12345", "VoteKey123456789", "5.00", "1.23", 7, 123456,
        "200/100", 5, "5.00", "10.00", 512, "1day 2h", "50000.00",
        d = dashes
    );
    assert_eq!(report.status, expected);
}

#[test]
fn low_balance_alert_after_report() {
    let report = evaluate_node(&node(), &stats(100, 95, Some(TOKEN + 500_000)));
    let alert = report.low_balance_alert.expect("low balance alert");
    assert_eq!(alert.kind, AlertKind::LowBalance(TOKEN + 500_000));
    assert_eq!(alert.text(), "<b>main</b>\npubkey -> IdentityKey12345\n<b>SMALL AMOUNT => 1.001!!!</b>!!!");
    let unknown = evaluate_node(&node(), &stats(100, 95, None));
    assert!(unknown.low_balance_alert.is_none());
    assert!(unknown.status.contains(&format!("\n{:^16} | {:^16}\n", "?", "1.23")));
}

#[test]
fn delinquent_node_shows_red_without_extra_alert() {
    let mut st = stats(100, 95, Some(5 * TOKEN));
    st.delinquent = Some(true);
    let report = evaluate_node(&node(), &st);
    assert_eq!(report.health, Health::Delinquent);
    assert!(report.critical_alert.is_none());
    assert!(report.status.starts_with("<b>main [1.18.26]</b> \u{1F534}"));
}
