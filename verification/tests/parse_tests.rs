use sidecar_supervisor::data::SidecarData;
use sidecar_supervisor::milli::Milli;
use sidecar_supervisor::parse::{LineParse, parse_snapshot_line};

fn expect_snapshot(line: &str) -> SidecarData {
    match parse_snapshot_line(line) {
        LineParse::Snapshot(d) => d,
        LineParse::Blank => panic!("line unexpectedly blank: {}", line),
        LineParse::Malformed => panic!("line unexpectedly malformed: {}", line),
    }
}

#[test]
fn test_parse_sidecar_json() {
    let json = r#"{"cpu":{"name":"Intel Core i5","temperature":65.0,"package_temperature":65.0,"core_temperatures":[60.0,62.0],"power":35.5},"gpu":[],"timestamp":1234567890}"#;
    let data = expect_snapshot(json);
    assert!(data.cpu.is_some());
    assert_eq!(data.cpu.as_ref().unwrap().temperature, Some(Milli::from_int(65)));
}

#[test]
fn test_parse_error_json() {
    let json = r#"{"gpu":[],"timestamp":1234567890,"error":"Admin rights required"}"#;
    let data = expect_snapshot(json);
    assert!(data.error.is_some());
}

#[test]
fn test_blank_lines_are_blank() {
    assert!(matches!(parse_snapshot_line(""), LineParse::Blank));
    assert!(matches!(parse_snapshot_line("   \t  "), LineParse::Blank));
    assert!(matches!(parse_snapshot_line("\r\n"), LineParse::Blank));
}

#[test]
fn test_malformed_lines_are_malformed() {
    assert!(matches!(parse_snapshot_line("not json"), LineParse::Malformed));
    assert!(matches!(parse_snapshot_line("{"), LineParse::Malformed));
    assert!(matches!(parse_snapshot_line("{}"), LineParse::Malformed)); // no timestamp
    assert!(matches!(parse_snapshot_line("[1,2]"), LineParse::Malformed));
    assert!(matches!(parse_snapshot_line("{\"timestamp\":123} trailing"), LineParse::Malformed));
}

#[test]
fn test_minimal_snapshot_decodes_absent_as_none() {
    let data = expect_snapshot("{\"timestamp\":1000}");
    assert!(data.cpu.is_none());
    assert!(data.gpu.is_empty());
    assert!(data.error.is_none());
    assert_eq!(data.timestamp, 1000);
}

#[test]
fn test_present_fields_decode_exactly() {
    let json = r#"{"cpu":{"name":"X","temperature":42.5,"package_temperature":43.25,"core_temperatures":[40.0,null,41.125],"max_temperature":90,"power":12.5,"core_powers":[null,6.25]},"gpu":[{"name":"G","vendor":"V","temperature":61.5,"hot_spot_temperature":70,"power":100.125,"core_clock":1500,"memory_clock":7000,"fan_speed":33,"load":55.5}],"timestamp":5000,"error":"oops"}"#;
    let data = expect_snapshot(json);
    let cpu = data.cpu.as_ref().unwrap();
    assert_eq!(cpu.name.as_deref(), Some("X"));
    assert_eq!(cpu.temperature, Some(Milli(42_500)));
    assert_eq!(cpu.package_temperature, Some(Milli(43_250)));
    assert_eq!(cpu.core_temperatures, vec![Some(Milli(40_000)), None, Some(Milli(41_125))]);
    assert_eq!(cpu.max_temperature, Some(Milli(90_000)));
    assert_eq!(cpu.power, Some(Milli(12_500)));
    assert_eq!(cpu.core_powers, vec![None, Some(Milli(6_250))]);
    assert_eq!(data.gpu.len(), 1);
    let g = &data.gpu[0];
    assert_eq!(g.name.as_deref(), Some("G"));
    assert_eq!(g.vendor.as_deref(), Some("V"));
    assert_eq!(g.temperature, Some(Milli(61_500)));
    assert_eq!(g.hot_spot_temperature, Some(Milli(70_000)));
    assert_eq!(g.power, Some(Milli(100_125)));
    assert_eq!(g.core_clock, Some(Milli(1_500_000)));
    assert_eq!(g.memory_clock, Some(Milli(7_000_000)));
    assert_eq!(g.fan_speed, Some(Milli(33_000)));
    assert_eq!(g.load, Some(Milli(55_500)));
    assert_eq!(data.timestamp, 5000);
    assert_eq!(data.error.as_deref(), Some("oops"));
}

#[test]
fn test_null_scalar_fields_decode_as_none() {
    let json = r#"{"cpu":{"name":null,"temperature":null},"timestamp":2000}"#;
    let data = expect_snapshot(json);
    let cpu = data.cpu.as_ref().unwrap();
    assert!(cpu.name.is_none());
    assert!(cpu.temperature.is_none());
}

#[test]
fn test_null_cpu_block_decodes_as_none() {
    let data = expect_snapshot(r#"{"cpu":null,"timestamp":2000}"#);
    assert!(data.cpu.is_none());
}

#[test]
fn test_negative_numbers() {
    let data = expect_snapshot(r#"{"cpu":{"temperature":-12.5},"timestamp":3000}"#);
    assert_eq!(data.cpu.unwrap().temperature, Some(Milli(-12_500)));
}

#[test]
fn test_negative_timestamp() {
    let data = expect_snapshot(r#"{"timestamp":-5000}"#);
    assert_eq!(data.timestamp, -5000);
}

#[test]
fn test_number_grammar_limits() {
    // more than three fraction digits is rejected
    assert!(matches!(
        parse_snapshot_line(r#"{"cpu":{"temperature":1.2345},"timestamp":1000}"#),
        LineParse::Malformed
    ));
    // exponents are rejected
    assert!(matches!(
        parse_snapshot_line(r#"{"cpu":{"temperature":1e3},"timestamp":1000}"#),
        LineParse::Malformed
    ));
    // a fractional timestamp is rejected
    assert!(matches!(
        parse_snapshot_line(r#"{"timestamp":1000.5}"#),
        LineParse::Malformed
    ));
    // a bare dot or missing integer part is rejected
    assert!(matches!(
        parse_snapshot_line(r#"{"cpu":{"temperature":.5},"timestamp":1000}"#),
        LineParse::Malformed
    ));
}

#[test]
fn test_unknown_keys_are_skipped() {
    let json = r#"{"version":2,"extra":{"nested":[true,false,null,"s",{"k":1}]},"timestamp":4000,"flag":true}"#;
    let data = expect_snapshot(json);
    assert_eq!(data.timestamp, 4000);
    assert!(data.cpu.is_none());
}

#[test]
fn test_whitespace_is_tolerated() {
    let json = "  { \"cpu\" : { \"temperature\" : 50 } ,\t\"timestamp\" : 1000 }  ";
    let data = expect_snapshot(json);
    assert_eq!(data.cpu.unwrap().temperature, Some(Milli(50_000)));
}

#[test]
fn test_string_escapes() {
    let json = r#"{"error":"a\"b\\c\nd\te","timestamp":1000}"#;
    let data = expect_snapshot(json);
    assert_eq!(data.error.as_deref(), Some("a\"b\\c\nd\te"));
}

#[test]
fn test_unicode_escape_is_rejected() {
    assert!(matches!(
        parse_snapshot_line("{\"error\":\"a\\u0041b\",\"timestamp\":1000}"),
        LineParse::Malformed
    ));
}

#[test]
fn test_repeated_key_overwrites() {
    let data = expect_snapshot(r#"{"timestamp":1000,"timestamp":2000}"#);
    assert_eq!(data.timestamp, 2000);
}

#[test]
fn test_empty_gpu_array() {
    let data = expect_snapshot(r#"{"gpu":[],"timestamp":1000}"#);
    assert!(data.gpu.is_empty());
}

#[test]
fn test_two_gpu_entries_keep_order() {
    let json = r#"{"gpu":[{"name":"A"},{"name":"B"}],"timestamp":1000}"#;
    let data = expect_snapshot(json);
    assert_eq!(data.gpu.len(), 2);
    assert_eq!(data.gpu[0].name.as_deref(), Some("A"));
    assert_eq!(data.gpu[1].name.as_deref(), Some("B"));
}
