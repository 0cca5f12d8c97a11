use modem_supervisor::codec::ModemState;
use modem_supervisor::snapshot::{extract_state, PropertyValue, StatusSnapshot};

#[test]
fn missing_state_key_yields_none() {
    let mut s = StatusSnapshot::new();
    s.push("signal".to_owned(), PropertyValue::Number(42));
    assert_eq!(extract_state(&s), None);
}

#[test]
fn empty_snapshot_yields_none() {
    let s = StatusSnapshot::new();
    assert_eq!(extract_state(&s), None);
}

#[test]
fn non_numeric_state_yields_none_not_a_crash() {
    let mut s = StatusSnapshot::new();
    s.push("state".to_owned(), PropertyValue::Other);
    assert_eq!(extract_state(&s), None);
}

#[test]
fn numeric_state_decodes() {
    let mut s = StatusSnapshot::new();
    s.push("vendor".to_owned(), PropertyValue::Other);
    s.push("state".to_owned(), PropertyValue::Number(8));
    assert_eq!(extract_state(&s), Some(ModemState::Registered));
}

#[test]
fn undecodable_state_code_yields_none() {
    let mut s = StatusSnapshot::new();
    s.push("state".to_owned(), PropertyValue::Number(12));
    assert_eq!(extract_state(&s), None);

    let mut big = StatusSnapshot::new();
    big.push("state".to_owned(), PropertyValue::Number(u32::MAX));
    assert_eq!(extract_state(&big), None);
}

#[test]
fn first_state_property_wins() {
    let mut s = StatusSnapshot::new();
    s.push("state".to_owned(), PropertyValue::Number(11));
    s.push("state".to_owned(), PropertyValue::Number(3));
    assert_eq!(extract_state(&s), Some(ModemState::Connected));
}
