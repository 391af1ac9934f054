use lettermint::testing::emails::{custom, Scenario, DOMAIN};

#[test]
fn scenario_emails() {
    assert_eq!(Scenario::Delivered.email(), "ok@testing.lettermint.co");
    assert_eq!(Scenario::SoftBounce.email(), "softbounce@testing.lettermint.co");
    assert_eq!(Scenario::HardBounce.email(), "hardbounce@testing.lettermint.co");
    assert_eq!(Scenario::SpamComplaint.email(), "spamcomplaint@testing.lettermint.co");
    assert_eq!(Scenario::Dsn.email(), "dsn@testing.lettermint.co");
}

#[test]
fn custom_builds_address() {
    assert_eq!(custom("hello"), "hello@testing.lettermint.co");
    assert_eq!(custom("ok+tag"), "ok+tag@testing.lettermint.co");
}

#[test]
fn unique_email_format_and_distinctness() {
    let a = Scenario::Delivered.unique_email(1700000000123456789, 42, 0);
    let b = Scenario::Delivered.unique_email(1700000000123456789, 42, 1);
    assert_eq!(a, "ok+1700000000123456789-42-0@testing.lettermint.co");
    assert_ne!(a, b);
    assert!(a.starts_with("ok+"));
    assert!(a.ends_with(&format!("@{DOMAIN}")));
    let bounce = Scenario::HardBounce.unique_email(0, 0, 0);
    assert_eq!(bounce, "hardbounce+0-0-0@testing.lettermint.co");
}

#[test]
fn local_parts() {
    assert_eq!(Scenario::Delivered.local_part(), "ok");
    assert_eq!(Scenario::Dsn.local_part(), "dsn");
}
