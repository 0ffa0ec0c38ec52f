use solana_bot::delinquency::{delinquency_alerts, liveness, Liveness};
use solana_bot::Validator;

fn validator(name: &str, identity: &str) -> Validator {
    Validator {
        name: name.to_string(),
        identity: identity.to_string(),
        vote: "vote".to_string(),
        rpc: String::new(),
    }
}

#[test]
fn failed_query_is_unknown_not_healthy() {
    assert_eq!(liveness(None), Liveness::Unknown);
    assert_eq!(liveness(Some(false)), Liveness::Healthy);
    assert_eq!(liveness(Some(true)), Liveness::Delinquent);
}

#[test]
fn failed_query_raises_nothing() {
    let roster = vec![validator("a", "AAAAAAAAAAAAAAAAAAAAAAAA")];
    assert!(delinquency_alerts(&roster, &vec![None]).is_empty());
    assert!(delinquency_alerts(&roster, &vec![Some(false)]).is_empty());
}

#[test]
fn delinquent_validators_alert_in_roster_order() {
    let roster = vec![
        validator("a", "AAAAAAAAAAAAAAAAAAAAAAAA"),
        validator("b", "BBBBBBBBBBBBBBBBBBBBBBBB"),
        validator("c", "CCCCCCCCCCCCCCCCCCCCCCCC"),
    ];
    let alerts = delinquency_alerts(&roster, &vec![Some(true), None, Some(true)]);
    assert_eq!(alerts.len(), 2);
    assert_eq!(alerts[0].text(), "<b>a</b>\npubkey -> AAAAAAAAAAAAAAAA\n<b>DELINQUENT!!!</b>!!!");
    assert_eq!(alerts[1].name, "c");
    assert_eq!(alerts[1].channel(), solana_bot::alert::Channel::Critical);
    // level-triggered: the same answers alert again the next cycle
    assert_eq!(delinquency_alerts(&roster, &vec![Some(true), None, Some(true)]).len(), 2);
}

#[test]
fn short_identity_is_shown_whole() {
    let roster = vec![validator("x", "short")];
    let alerts = delinquency_alerts(&roster, &vec![Some(true)]);
    assert_eq!(alerts[0].text(), "<b>x</b>\npubkey -> short\n<b>DELINQUENT!!!</b>!!!");
}
