use dynamo_attrs::attribute::{get_str_from_attribute, attribute_text, AttributeValue, DecodeError};
use dynamo_attrs::record::normalize_record;

fn text(s: &str) -> AttributeValue {
    AttributeValue { s: Some(String::from(s)), ..Default::default() }
}

fn number(n: &str) -> AttributeValue {
    AttributeValue { n: Some(String::from(n)), ..Default::default() }
}

fn binary(b: &[u8]) -> AttributeValue {
    AttributeValue { b: Some(b.to_vec()), ..Default::default() }
}

#[test]
fn string_reads_verbatim() {
    assert_eq!(get_str_from_attribute(&text("28-000006b4e9ca")), Ok(Some(String::from("28-000006b4e9ca"))));
}

#[test]
fn number_keeps_stored_digits() {
    assert_eq!(get_str_from_attribute(&number("15.880")), Ok(Some(String::from("15.880"))));
    assert_eq!(get_str_from_attribute(&number("1606148715")), Ok(Some(String::from("1606148715"))));
}

#[test]
fn binary_decodes_as_utf8() {
    assert_eq!(get_str_from_attribute(&binary(b"hello")), Ok(Some(String::from("hello"))));
    assert_eq!(
        get_str_from_attribute(&binary("gr\u{fc}n".as_bytes())),
        Ok(Some(String::from("gr\u{fc}n")))
    );
}

#[test]
fn empty_binary_reads_as_empty_text() {
    assert_eq!(get_str_from_attribute(&binary(b"")), Ok(Some(String::new())));
}

#[test]
fn invalid_utf8_binary_is_an_error() {
    assert_eq!(get_str_from_attribute(&binary(&[0xff, 0xfe, 0x41])), Err(DecodeError));
}

#[test]
fn other_variants_read_as_nothing() {
    let flag = AttributeValue { bool: Some(true), ..Default::default() };
    let null = AttributeValue { null: Some(true), ..Default::default() };
    let set = AttributeValue { ss: Some(vec![String::from("a")]), ..Default::default() };
    let list = AttributeValue { l: Some(vec![text("a")]), ..Default::default() };
    assert_eq!(get_str_from_attribute(&flag), Ok(None));
    assert_eq!(get_str_from_attribute(&null), Ok(None));
    assert_eq!(get_str_from_attribute(&set), Ok(None));
    assert_eq!(get_str_from_attribute(&list), Ok(None));
    assert_eq!(get_str_from_attribute(&AttributeValue::default()), Ok(None));
}

#[test]
fn binary_wins_over_string() {
    let both = AttributeValue {
        b: Some(b"from-binary".to_vec()),
        s: Some(String::from("from-string")),
        ..Default::default()
    };
    assert_eq!(get_str_from_attribute(&both), Ok(Some(String::from("from-binary"))));
}

#[test]
fn invalid_binary_is_an_error_even_beside_a_string() {
    let both = AttributeValue {
        b: Some(vec![0xc3, 0x28]),
        s: Some(String::from("from-string")),
        ..Default::default()
    };
    assert_eq!(get_str_from_attribute(&both), Err(DecodeError));
}

#[test]
fn string_wins_over_number() {
    let both = AttributeValue {
        s: Some(String::from("s")),
        n: Some(String::from("7")),
        ..Default::default()
    };
    assert_eq!(get_str_from_attribute(&both), Ok(Some(String::from("s"))));
}

#[test]
fn attribute_text_uses_given_binary_text() {
    let bin = binary(b"raw");
    assert_eq!(attribute_text(&bin, Some(String::from("decoded"))), Ok(Some(String::from("decoded"))));
    assert_eq!(attribute_text(&bin, None), Err(DecodeError));
    assert_eq!(attribute_text(&text("t"), Some(String::from("ignored"))), Ok(Some(String::from("t"))));
    assert_eq!(attribute_text(&number("3"), None), Ok(Some(String::from("3"))));
}

#[test]
fn record_drops_values_without_text() {
    let rec = vec![
        (String::from("SensorId"), text("28-000006b4e9ca")),
        (String::from("EpochTime"), number("1606148715")),
        (String::from("Flag"), AttributeValue { bool: Some(true), ..Default::default() }),
    ];
    let out = normalize_record(&rec).unwrap();
    assert_eq!(
        out,
        vec![
            (String::from("SensorId"), String::from("28-000006b4e9ca")),
            (String::from("EpochTime"), String::from("1606148715")),
        ]
    );
    assert!(!out.iter().any(|(k, _)| k == "Flag"));
}

#[test]
fn record_fails_whole_on_invalid_binary() {
    let rec = vec![
        (String::from("SensorId"), text("28-000006b4e9ca")),
        (String::from("Blob"), binary(&[0x80])),
        (String::from("EpochTime"), number("1606148715")),
    ];
    assert_eq!(normalize_record(&rec), Err(DecodeError));
}

#[test]
fn empty_record_normalizes_to_empty() {
    assert_eq!(normalize_record(&Vec::new()), Ok(Vec::new()));
}

#[test]
fn record_keeps_names_distinct_and_in_order() {
    let rec = vec![
        (String::from("z"), number("1")),
        (String::from("a"), AttributeValue::default()),
        (String::from("m"), text("x")),
    ];
    let out = normalize_record(&rec).unwrap();
    let names: Vec<&str> = out.iter().map(|(k, _)| k.as_str()).collect();
    assert_eq!(names, vec!["z", "m"]);
}
