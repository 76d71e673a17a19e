use gateway_model::activity::ActivityButton;
use gateway_model::buttons::decode_button;
use gateway_model::buttons::decode_buttons;
use gateway_model::buttons::encode_button;
use gateway_model::buttons::encode_buttons;
use gateway_model::error::DecodeError;
use gateway_model::wire::WireValue;

fn text(s: &str) -> WireValue {
    WireValue::Text(String::from(s))
}

fn record(members: Vec<(&str, WireValue)>) -> WireValue {
    WireValue::Record(members.into_iter().map(|(k, v)| (String::from(k), v)).collect())
}

fn pairs(buttons: &[ActivityButton]) -> Vec<(String, String)> {
    buttons.iter().map(|b| (b.label.clone(), b.url.clone())).collect()
}

fn pair(label: &str, url: &str) -> (String, String) {
    (String::from(label), String::from(url))
}

#[test]
fn absent_buttons_are_none() {
    assert_eq!(pairs(&decode_buttons(None).unwrap()), vec![]);
}

#[test]
fn null_buttons_are_none() {
    assert_eq!(pairs(&decode_buttons(Some(&WireValue::Null)).unwrap()), vec![]);
}

#[test]
fn empty_list_of_buttons_is_none() {
    assert_eq!(pairs(&decode_buttons(Some(&WireValue::List(vec![]))).unwrap()), vec![]);
}

#[test]
fn bare_label_is_a_button_without_address() {
    let wire = WireValue::List(vec![text("go")]);
    assert_eq!(pairs(&decode_buttons(Some(&wire)).unwrap()), vec![pair("go", "")]);
}

#[test]
fn record_is_a_button_with_its_address() {
    let wire = WireValue::List(vec![record(vec![("label", text("go")), ("url", text("http://x"))])]);
    assert_eq!(pairs(&decode_buttons(Some(&wire)).unwrap()), vec![pair("go", "http://x")]);
}

#[test]
fn number_among_buttons_fails_the_field() {
    let wire = WireValue::List(vec![WireValue::Unsigned(42)]);
    assert_eq!(decode_buttons(Some(&wire)).err(), Some(DecodeError::WrongShape));
}

#[test]
fn other_values_among_buttons_fail_the_field() {
    for item in [
        WireValue::Null,
        WireValue::Bool(true),
        WireValue::Negative(-1),
        WireValue::Fraction,
        WireValue::List(vec![text("go")]),
    ] {
        let wire = WireValue::List(vec![item]);
        assert_eq!(decode_buttons(Some(&wire)).err(), Some(DecodeError::WrongShape));
    }
}

#[test]
fn buttons_that_are_no_list_fail() {
    for wire in [
        text("go"),
        WireValue::Unsigned(0),
        WireValue::Bool(false),
        record(vec![("label", text("go"))]),
    ] {
        assert_eq!(decode_buttons(Some(&wire)).err(), Some(DecodeError::WrongShape));
    }
}

#[test]
fn record_without_address_has_empty_address() {
    let wire = record(vec![("label", text("join"))]);
    let button = decode_button(&wire).unwrap();
    assert_eq!(button.label, "join");
    assert_eq!(button.url, "");
}

#[test]
fn record_without_label_lacks_a_required_field() {
    let wire = record(vec![("url", text("http://x"))]);
    assert_eq!(decode_button(&wire).err(), Some(DecodeError::MissingRequiredField));
    assert_eq!(decode_button(&record(vec![])).err(), Some(DecodeError::MissingRequiredField));
}

#[test]
fn record_with_members_of_other_types_is_refused() {
    let label = record(vec![("label", WireValue::Unsigned(1)), ("url", text("http://x"))]);
    assert_eq!(decode_button(&label).err(), Some(DecodeError::WrongShape));
    let url = record(vec![("label", text("go")), ("url", WireValue::Null)]);
    assert_eq!(decode_button(&url).err(), Some(DecodeError::WrongShape));
    let url = record(vec![("label", text("go")), ("url", WireValue::Unsigned(4))]);
    assert_eq!(decode_button(&url).err(), Some(DecodeError::WrongShape));
}

#[test]
fn record_ignores_members_it_does_not_know() {
    let wire = record(vec![
        ("style", WireValue::Unsigned(5)),
        ("label", text("go")),
        ("emoji", WireValue::Null),
        ("url", text("http://x")),
    ]);
    let button = decode_button(&wire).unwrap();
    assert_eq!((button.label, button.url), pair("go", "http://x"));
}

#[test]
fn later_member_of_the_same_name_counts() {
    let wire = record(vec![("label", text("first")), ("label", text("second"))]);
    assert_eq!(decode_button(&wire).unwrap().label, "second");
    let wire = record(vec![("label", text("first")), ("label", WireValue::Null)]);
    assert_eq!(decode_button(&wire).err(), Some(DecodeError::WrongShape));
}

#[test]
fn buttons_keep_their_order_in_either_shape() {
    let labels = WireValue::List(vec![text("one"), text("two"), text("three")]);
    assert_eq!(
        pairs(&decode_buttons(Some(&labels)).unwrap()),
        vec![pair("one", ""), pair("two", ""), pair("three", "")]
    );
    let mixed = WireValue::List(vec![
        record(vec![("label", text("one")), ("url", text("a:b"))]),
        text("two"),
    ]);
    assert_eq!(
        pairs(&decode_buttons(Some(&mixed)).unwrap()),
        vec![pair("one", "a:b"), pair("two", "")]
    );
}

#[test]
fn first_failing_button_decides_the_failure() {
    let wire = WireValue::List(vec![
        text("fine"),
        record(vec![("url", text("http://x"))]),
        WireValue::Unsigned(42),
    ]);
    assert_eq!(decode_buttons(Some(&wire)).err(), Some(DecodeError::MissingRequiredField));
    let wire = WireValue::List(vec![
        text("fine"),
        WireValue::Unsigned(42),
        record(vec![("url", text("http://x"))]),
    ]);
    assert_eq!(decode_buttons(Some(&wire)).err(), Some(DecodeError::WrongShape));
}

#[test]
fn encoded_button_is_a_record_of_label_and_address() {
    let wire = encode_button(ActivityButton { label: String::from("go"), url: String::from("http://x") });
    assert_eq!(wire.get("label").and_then(|v| v.as_text()).map(|s| s.as_str()), Some("go"));
    assert_eq!(wire.get("url").and_then(|v| v.as_text()).map(|s| s.as_str()), Some("http://x"));
    assert!(wire.get("style").is_none());
}

#[test]
fn encoded_buttons_decode_to_themselves() {
    let buttons = vec![
        ActivityButton { label: String::from("one"), url: String::new() },
        ActivityButton { label: String::from("two"), url: String::from("https://example.org/") },
    ];
    let wire = encode_buttons(buttons.clone());
    assert_eq!(wire.as_list().map(|l| l.len()), Some(2));
    assert_eq!(pairs(&decode_buttons(Some(&wire)).unwrap()), pairs(&buttons));
    let none = encode_buttons(vec![]);
    assert_eq!(none.as_list().map(|l| l.len()), Some(0));
}

#[test]
fn lookup_reads_records_only() {
    let wire = record(vec![("a", WireValue::Unsigned(1)), ("b", WireValue::Null)]);
    assert_eq!(wire.get("a").and_then(|v| v.as_unsigned()), Some(1));
    assert!(wire.get("b").map(|v| v.is_null()).unwrap_or(false));
    assert!(wire.get("c").is_none());
    assert!(wire.get("").is_none());
    assert!(text("a").get("a").is_none());
    assert!(WireValue::List(vec![text("a")]).get("a").is_none());
    assert!(text("a").as_unsigned().is_none());
    assert!(WireValue::Unsigned(1).as_text().is_none());
    assert!(WireValue::Null.as_list().is_none());
    assert!(!WireValue::Bool(false).is_null());
}
