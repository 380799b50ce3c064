use multipathd_exporter::deserializers::{deferred_failback, hex_string, optional_string,
    queueing_value};
use multipathd_exporter::map::QueueingValue;

#[test]
fn test_deserialize_optional_string_with_undefined() {
    let result = optional_string("[undef]");
    assert_eq!(result, None);
}

#[test]
fn test_deserialize_optional_string_with_value() {
    let result = optional_string("actual value");
    assert_eq!(result, Some("actual value".to_owned()));
}

#[test]
fn test_deserialize_optional_string_with_empty_string() {
    let result = optional_string("");
    assert_eq!(result, Some("".to_owned()));
}

#[test]
fn test_deserialize_deferred_failback() {
    let result = deferred_failback("deferred:42");
    assert_eq!(result.unwrap(), 42);
}

#[test]
fn test_deserialize_deferred_failback_invalid_format() {
    let result = deferred_failback("not_deferred");
    assert!(result.is_err());
}

#[test]
fn test_deserialize_deferred_failback_invalid_number() {
    let result = deferred_failback("deferred:not_a_number");
    assert!(result.is_err());
}

#[test]
fn test_deserialize_queueing_seconds() {
    let result = queueing_value("42 sec");
    assert_eq!(result.unwrap(), QueueingValue::Seconds(42));
}

#[test]
fn test_deserialize_queueing_checks() {
    let result = queueing_value("5 chk");
    assert_eq!(result.unwrap(), QueueingValue::Checks(5));
}

#[test]
fn test_deserialize_queueing_invalid_format() {
    let result = queueing_value("invalid");
    assert!(result.is_err());
}

#[test]
fn test_deserialize_queueing_invalid_number() {
    let result = queueing_value("abc sec");
    assert!(result.is_err());
}

#[test]
fn optional_string_keeps_non_sentinel_text() {
    assert_eq!(optional_string("undef"), Some("undef".to_owned()));
    assert_eq!(optional_string("[undef] "), Some("[undef] ".to_owned()));
}

#[test]
fn hex_string_decodes_prefixed_digits() {
    assert_eq!(hex_string("0x000e000000000000").unwrap(), 0x000e000000000000);
    assert_eq!(hex_string("0x1f").unwrap(), 31);
    assert_eq!(hex_string("0xFF").unwrap(), 255);
}

#[test]
fn hex_string_decodes_bare_digits() {
    assert_eq!(hex_string("ff").unwrap(), 255);
    assert_eq!(hex_string("0").unwrap(), 0);
    assert_eq!(hex_string("ffffffffffffffff").unwrap(), u64::MAX);
}

#[test]
fn hex_string_rejects_non_hex() {
    assert!(hex_string("0xzz").is_err());
    assert!(hex_string("12g4").is_err());
    assert!(hex_string("").is_err());
    assert!(hex_string("0x").is_err());
    assert!(hex_string(" ff").is_err());
}

#[test]
fn hex_string_rejects_overflow() {
    assert!(hex_string("0x10000000000000000").is_err());
    assert!(hex_string("ffffffffffffffff0").is_err());
}

#[test]
fn deferred_failback_decodes_signed_values() {
    assert_eq!(deferred_failback("deferred:-5").unwrap(), -5);
    assert_eq!(deferred_failback("deferred:0").unwrap(), 0);
    assert_eq!(deferred_failback("deferred:2147483647").unwrap(), i32::MAX);
    assert_eq!(deferred_failback("deferred:-2147483648").unwrap(), i32::MIN);
}

#[test]
fn deferred_failback_rejects_out_of_range() {
    assert!(deferred_failback("deferred:2147483648").is_err());
    assert!(deferred_failback("deferred:-2147483649").is_err());
    assert!(deferred_failback("deferred:").is_err());
}

#[test]
fn queueing_value_rejects_bad_numbers() {
    assert!(queueing_value("-1 sec").is_err());
    assert!(queueing_value("4294967296 sec").is_err());
    assert!(queueing_value("5 min").is_err());
    assert!(queueing_value(" sec").is_err());
}

#[test]
fn queueing_value_decodes_zero() {
    assert_eq!(queueing_value("0 sec").unwrap(), QueueingValue::Seconds(0));
    assert_eq!(queueing_value("0 chk").unwrap(), QueueingValue::Checks(0));
}
