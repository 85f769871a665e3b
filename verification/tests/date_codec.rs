use spira::date::{encode_date, parse_date, Timestamp};
use spira::SpiraError;

#[test]
fn bracketed_form_parses() {
    let t = parse_date("/Date(1707863960317-0600)/").unwrap();
    assert_eq!(t, Timestamp { epoch_millis: 1707863960317, offset_minutes: -360 });
}

#[test]
fn raw_form_parses() {
    let t = parse_date("1707863960317-0600").unwrap();
    assert_eq!(t, Timestamp { epoch_millis: 1707863960317, offset_minutes: -360 });
}

#[test]
fn both_forms_give_the_identical_instant() {
    let bracketed = parse_date("/Date(1707863960317-0600)/").unwrap();
    let raw = parse_date("1707863960317-0600").unwrap();
    assert_eq!(bracketed, raw);
    assert_eq!(bracketed.epoch_millis, raw.epoch_millis);
}

#[test]
fn positive_offset_parses() {
    let t = parse_date("/Date(1707863960317+0130)/").unwrap();
    assert_eq!(t, Timestamp { epoch_millis: 1707863960317, offset_minutes: 90 });
}

#[test]
fn malformed_dates_are_reported_not_defaulted() {
    for raw in [
        "",
        "garbage",
        "/Date(1707863960317-0600)",
        "/Date(-0600)/",
        "/Date(1707863960317)/",
        "1707863960317",
        "1707863960317-9900",
        "1707863960317-0075",
        "99999999999999999999999-0600",
    ] {
        match parse_date(raw) {
            Err(SpiraError::DateFormatError { raw_input }) => assert_eq!(raw_input, raw),
            other => panic!("expected DateFormatError for {:?}, got {:?}", raw, other),
        }
    }
}

#[test]
fn encode_then_parse_is_identity() {
    let t = Timestamp { epoch_millis: 1707863960317, offset_minutes: -360 };
    let s = encode_date(&t);
    assert_eq!(s, "/Date(1707863960317-0600)/");
    assert_eq!(parse_date(&s).unwrap(), t);
    let zero = Timestamp { epoch_millis: 0, offset_minutes: 0 };
    assert_eq!(encode_date(&zero), "/Date(0+0000)/");
    assert_eq!(parse_date(&encode_date(&zero)).unwrap(), zero);
}
