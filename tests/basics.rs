use solana_bot::alert::{tokens2, tokens3};
use solana_bot::schedule::{seconds_to_next_hour, seconds_until_next_hour};
use solana_bot::text::{blanks, center, decimal, fixed_point_text, left, prefix, zero_pad};
use solana_bot::Timeouts;

#[test]
fn decimal_text() {
    assert_eq!(decimal(0), "0");
    assert_eq!(decimal(7), "7");
    assert_eq!(decimal(1_234_567), "1234567");
    assert_eq!(decimal(u64::MAX), u64::MAX.to_string());
}

#[test]
fn padded_and_fixed_point_text() {
    assert_eq!(zero_pad(7, 3), "007");
    assert_eq!(zero_pad(1234, 2), "1234");
    assert_eq!(fixed_point_text(6_000, 2), "60.00");
    assert_eq!(fixed_point_text(5, 3), "0.005");
    assert_eq!(fixed_point_text(1_234_567_890, 9), "1.234567890");
    assert_eq!(fixed_point_text(u64::MAX, 19), "1.8446744073709551615");
    assert_eq!(fixed_point_text(42, 19), "0.0000000000000000042");
}

#[test]
fn token_amounts_round_half_up() {
    assert_eq!(tokens3(10_060_000_000), "10.060");
    assert_eq!(tokens3(1_499_999), "0.001");
    assert_eq!(tokens3(1_500_000), "0.002");
    assert_eq!(tokens2(1_234_567_890), "1.23");
    assert_eq!(tokens2(u64::MAX), "18446744073.71");
}

#[test]
fn alignment_matches_std_formatting() {
    for s in ["", "a", "ab", "abc", "identity", "exactly-sixteen!", "longer than sixteen"] {
        assert_eq!(center(s, 16), format!("{:^16}", s));
        assert_eq!(center(s, 7), format!("{:^7}", s));
        assert_eq!(left(s, 16), format!("{:<16}", s));
    }
    assert_eq!(blanks(3), "   ");
}

#[test]
fn key_prefix() {
    assert_eq!(prefix("IdentityKey1234567890", 16), "IdentityKey12345");
    assert_eq!(prefix("short", 16), "short");
}

#[test]
fn hour_alignment() {
    assert_eq!(seconds_to_next_hour(0, 0), 3600);
    assert_eq!(seconds_to_next_hour(59, 59), 1);
    assert_eq!(seconds_to_next_hour(30, 15), 1785);
    let s = seconds_until_next_hour();
    assert!((1..=3600).contains(&s));
}

#[test]
fn default_timeouts() {
    let t = Timeouts::default();
    assert_eq!(t.deliquency_check_period, 10_000);
    assert_eq!(t.balance_check_period, 5_000);
}

#[test]
fn channels_map_to_chats() {
    let t = solana_bot::Telegram { token: "SECRET-REDACTED".to_string(), chat_id: 11, alert_chat_id: -22 };
    assert_eq!(t.chat_for(solana_bot::alert::Channel::Normal), 11);
    assert_eq!(t.chat_for(solana_bot::alert::Channel::Critical), -22);
}
