use tray_accounts::text::{push_decimal, strip_prefix_text, text_lt};
use tray_accounts::usage::{percent, push_usage_suffix, UsageCounter, UsageStats};

fn counter(used: Option<u64>, limit: Option<u64>) -> UsageCounter {
    UsageCounter { used, limit }
}

#[test]
fn half_used_is_fifty_percent() {
    assert_eq!(percent(&counter(Some(30), Some(60))), 50);
}

#[test]
fn zero_limit_divides_by_one() {
    assert_eq!(percent(&counter(Some(30), Some(0))), 3000);
}

#[test]
fn missing_limit_divides_by_one() {
    assert_eq!(percent(&counter(Some(2), None)), 200);
}

#[test]
fn missing_used_is_zero() {
    assert_eq!(percent(&counter(None, Some(60))), 0);
    assert_eq!(percent(&counter(None, None)), 0);
}

#[test]
fn percent_rounds_to_nearest() {
    assert_eq!(percent(&counter(Some(1), Some(3))), 33);
    assert_eq!(percent(&counter(Some(2), Some(3))), 67);
    assert_eq!(percent(&counter(Some(11), Some(12))), 92);
}

#[test]
fn percent_ties_go_to_even() {
    assert_eq!(percent(&counter(Some(1), Some(8))), 12);
    assert_eq!(percent(&counter(Some(3), Some(8))), 38);
    assert_eq!(percent(&counter(Some(1), Some(200))), 0);
    assert_eq!(percent(&counter(Some(3), Some(200))), 2);
    assert_eq!(percent(&counter(Some(45), Some(40))), 112);
}

#[test]
fn percent_of_largest_figure() {
    assert_eq!(percent(&counter(Some(u64::MAX), Some(1))), (u64::MAX as u128) * 100);
    assert_eq!(percent(&counter(Some(u64::MAX), Some(u64::MAX))), 100);
}

#[test]
fn usage_suffix_text() {
    let stats = UsageStats { five_hour: counter(Some(30), Some(60)), weekly: counter(Some(1), None) };
    let mut label = "acct".to_string();
    push_usage_suffix(&mut label, &stats);
    assert_eq!(label, "acct [5h: 50% / W: 100%]");
}

#[test]
fn decimal_rendering() {
    let mut s = String::new();
    push_decimal(&mut s, 0);
    assert_eq!(s, "0");
    let mut s = "n=".to_string();
    push_decimal(&mut s, 1203);
    assert_eq!(s, "n=1203");
    let mut s = String::new();
    push_decimal(&mut s, u128::MAX);
    assert_eq!(s, u128::MAX.to_string());
}

#[test]
fn text_order() {
    assert!(text_lt("a", "b"));
    assert!(!text_lt("b", "a"));
    assert!(text_lt("a", "ab"));
    assert!(!text_lt("ab", "a"));
    assert!(!text_lt("same", "same"));
    assert!(text_lt("", "x"));
    assert!(text_lt("Z", "a"));
    assert!(text_lt("z", "é"));
}

#[test]
fn prefix_stripping() {
    assert_eq!(strip_prefix_text("switch:work", "switch:"), Some("work".to_string()));
    assert_eq!(strip_prefix_text("switch:", "switch:"), Some(String::new()));
    assert_eq!(strip_prefix_text("swit", "switch:"), None);
    assert_eq!(strip_prefix_text("Switch:work", "switch:"), None);
}
