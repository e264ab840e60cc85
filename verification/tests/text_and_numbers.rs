use solo_machine::numeric::{parse_u64, u64_to_decimal};
use solo_machine::output::{parse_output_type, OutputType, ParseOutputTypeError};
use solo_machine::text::{concat2, owned, str_eq};

#[test]
fn output_type_parses_known_names() {
    assert_eq!(parse_output_type("text"), Ok(OutputType::Text));
    assert_eq!(parse_output_type("json"), Ok(OutputType::Json));
}

#[test]
fn output_type_ignores_case_and_surrounding_space() {
    assert_eq!(parse_output_type("  JSON\t"), Ok(OutputType::Json));
    assert_eq!(parse_output_type("Text "), Ok(OutputType::Text));
}

#[test]
fn output_type_rejects_unknown_names() {
    assert_eq!(parse_output_type("yaml"), Err(ParseOutputTypeError::InvalidOutputType));
    assert_eq!(parse_output_type(""), Err(ParseOutputTypeError::InvalidOutputType));
    assert_eq!(parse_output_type("te xt"), Err(ParseOutputTypeError::InvalidOutputType));
}

#[test]
fn output_type_name_round_trips() {
    for t in [OutputType::Text, OutputType::Json] {
        assert_eq!(parse_output_type(t.as_str()), Ok(t));
    }
    assert_eq!(OutputType::Text.as_str(), "text");
    assert_eq!(OutputType::Json.as_str(), "json");
}

#[test]
fn output_type_from_str_agrees() {
    let t: OutputType = "json".parse().unwrap();
    assert_eq!(t, OutputType::Json);
    assert!("csv".parse::<OutputType>().is_err());
}

#[test]
fn parse_u64_reads_decimal_numbers() {
    assert_eq!(parse_u64("0"), Some(0));
    assert_eq!(parse_u64("300000"), Some(300000));
    assert_eq!(parse_u64("+7"), Some(7));
    assert_eq!(parse_u64("18446744073709551615"), Some(u64::MAX));
}

#[test]
fn parse_u64_refuses_other_text() {
    assert_eq!(parse_u64(""), None);
    assert_eq!(parse_u64("+"), None);
    assert_eq!(parse_u64("-1"), None);
    assert_eq!(parse_u64("12a"), None);
    assert_eq!(parse_u64(" 1"), None);
    assert_eq!(parse_u64("18446744073709551616"), None);
}

#[test]
fn u64_text_round_trips() {
    for n in [0u64, 9, 10, 1234, 300000, u64::MAX] {
        let text = u64_to_decimal(n);
        assert_eq!(text, n.to_string());
        assert_eq!(parse_u64(&text), Some(n));
    }
}

#[test]
fn text_helpers() {
    assert!(str_eq("abc", "abc"));
    assert!(!str_eq("abc", "abd"));
    assert!(!str_eq("abc", "ab"));
    assert_eq!(owned("x"), "x".to_string());
    assert_eq!(concat2("sqlite:", "/tmp/db"), "sqlite:/tmp/db");
}

#[test]
fn unknown_output_type_reports_invalid_output_type() {
    let e = "xml".parse::<OutputType>().unwrap_err();
    assert_eq!(e, ParseOutputTypeError::InvalidOutputType);
    assert_eq!(e.message(), "invalid output type");
}
