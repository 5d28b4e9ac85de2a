//! Packs of readings, and scaling of their literals.
use pv_matter::senml::{pack_from_records, parse_pack, scale_decimal, PackError, RawRecord, Value};

#[test]
fn scales_contract_examples_exactly() {
    // The publisher's example pack, into Matter milli-units.
    assert_eq!(scale_decimal("2450", 3), Some(2_450_000)); // W → mW
    assert_eq!(scale_decimal("236.40", 3), Some(236_400)); // V → mV
    assert_eq!(scale_decimal("10.370", 3), Some(10_370)); // A → mA
    assert_eq!(scale_decimal("49.98", 3), Some(49_980)); // Hz → mHz
    assert_eq!(scale_decimal("41784321", 3), Some(41_784_321_000)); // Wh → mWh
    assert_eq!(scale_decimal("41.30", 2), Some(4_130)); // Cel → centi-°C
}

#[test]
fn scales_signs_zero_shift_and_rounding() {
    assert_eq!(scale_decimal("-3.5", 3), Some(-3_500));
    assert_eq!(scale_decimal("1751625000", 0), Some(1_751_625_000));
    // Surplus precision rounds half-away-from-zero.
    assert_eq!(scale_decimal("1.2345", 3), Some(1_235));
    assert_eq!(scale_decimal("-1.2345", 3), Some(-1_235));
    assert_eq!(scale_decimal("1.2344", 3), Some(1_234));
}

#[test]
fn rejects_non_decimal_forms() {
    assert_eq!(scale_decimal("1e3", 3), None);
    assert_eq!(scale_decimal("", 3), None);
    assert_eq!(scale_decimal(".", 3), None);
    assert_eq!(scale_decimal("abc", 3), None);
    // i64 overflow is refused, not wrapped.
    assert_eq!(scale_decimal("99999999999999999999", 3), None);
}

#[test]
fn parses_the_contract_example_pack() {
    let payload = br#"[
      {"bn": "urn:dev:ser:2130012345:", "bt": 1751625000, "bu": "W"},
      {"n": "ac/total_power",                        "v": 2450},
      {"n": "ac/l1/voltage",            "u": "V",    "v": 236.40},
      {"n": "dc/s1/power",              "t": -10,    "v": 1310},
      {"n": "energy/total",             "u": "Wh",   "v": 41784321},
      {"n": "device/status",                         "vs": "ok"},
      {"n": "device/grid_relay",                     "vs": "closed"}
    ]"#;
    let pack = parse_pack(payload).unwrap();
    assert_eq!(pack.base_time, 1_751_625_000);
    assert_eq!(pack.records.len(), 6);

    let power = &pack.records[0];
    assert_eq!(power.name, "ac/total_power");
    // Watt records omit `u`; the pack default (`bu`) applies.
    assert_eq!(power.unit.as_deref(), Some("W"));
    assert_eq!(power.value, Value::Number("2450".into()));

    let voltage = &pack.records[1];
    assert_eq!(voltage.unit.as_deref(), Some("V"));
    // Trailing zeros survive byte-for-byte.
    assert_eq!(voltage.value, Value::Number("236.40".into()));

    let dc = &pack.records[2];
    assert_eq!(dc.time_offset, -10);

    let relay = &pack.records[5];
    assert_eq!(relay.value, Value::Text("closed".into()));
}

#[test]
fn pack_without_header_is_an_error() {
    let payload = br#"[{"n": "ac/total_power", "v": 1}]"#;
    assert!(matches!(parse_pack(payload), Err(PackError::MissingHeader)));
}

#[test]
fn scales_at_the_edges_of_the_range() {
    assert_eq!(scale_decimal("9223372036854775807", 0), Some(i64::MAX));
    assert_eq!(scale_decimal("9223372036854775.807", 3), Some(i64::MAX));
    assert_eq!(scale_decimal("9223372036854775808", 0), None);
    assert_eq!(scale_decimal("-9223372036854775807", 0), Some(-i64::MAX));
    // The negative of every result is one too.
    assert_eq!(scale_decimal("-9223372036854775808", 0), None);
    assert_eq!(scale_decimal("9223372036854775806.5", 0), Some(i64::MAX));
    assert_eq!(scale_decimal("9223372036854775807.5", 0), None);
}

#[test]
fn only_plain_decimals_are_scaled() {
    for raw in [
        "+5", "+3.5", " 5", "5 ", " 12 ", "\t5", ".5", "-.5", "5.", "-5.", "-", "-.", "+-1", "--1",
        "1 2", "1.2.3", "1.-2", "1e3", "0x1", "1_000", "\u{0663}", "5\n",
    ] {
        for exp in [0, 1, 3] {
            assert_eq!(scale_decimal(raw, exp), None, "{raw:?} {exp}");
        }
    }
    assert_eq!(scale_decimal("-0", 3), Some(0));
    assert_eq!(scale_decimal("-0.4", 0), Some(0));
    assert_eq!(scale_decimal("-0.5", 1), Some(-5));
    assert_eq!(scale_decimal("007.50", 1), Some(75));
}

#[test]
fn halves_go_away_from_zero() {
    assert_eq!(scale_decimal("0.5", 0), Some(1));
    assert_eq!(scale_decimal("-0.5", 0), Some(-1));
    assert_eq!(scale_decimal("0.4999999999999999999999999", 0), Some(0));
    assert_eq!(scale_decimal("2.5", 0), Some(3));
}

#[test]
fn digits_beyond_the_shift_do_not_overflow() {
    assert_eq!(
        scale_decimal("1.00000000000000000000000000000000000000001", 3),
        Some(1_000)
    );
    assert_eq!(scale_decimal("0000000000000000000000000007", 3), Some(7_000));
    assert_eq!(scale_decimal("1", 18), Some(1_000_000_000_000_000_000));
    assert_eq!(scale_decimal("1", 19), None);
    assert_eq!(scale_decimal("0", 100), Some(0));
}

#[test]
fn base_fields_apply_from_their_record_on() {
    let pack = parse_pack(
        br#"[{"n": "a", "v": 1},
             {"bt": 5, "bu": "V", "n": "b", "v": 2},
             {"n": "c", "v": 3, "u": "A"},
             {"bt": 6.5, "bu": "W"},
             {"n": "d", "v": 4}]"#,
    )
    .unwrap();
    assert_eq!(pack.base_time, 7);
    let units: Vec<Option<&str>> = pack.records.iter().map(|r| r.unit.as_deref()).collect();
    assert_eq!(units, vec![None, Some("V"), Some("A"), Some("W")]);
}

#[test]
fn records_without_name_or_value_are_skipped() {
    let pack = parse_pack(
        br#"[{"bt": 1}, {"n": "nameless no more"}, {"v": 3}, {"vs": "x"}, {},
             {"n": "both", "v": 1.50, "vs": "x"}, {"n": "n", "v": null, "vs": "y"}]"#,
    )
    .unwrap();
    assert_eq!(pack.records.len(), 2);
    assert_eq!(pack.records[0].value, Value::Number("1.50".into()));
    assert_eq!(pack.records[1].value, Value::Text("y".into()));
}

#[test]
fn times_are_not_guessed() {
    // A record whose time cannot be read is skipped.
    let pack =
        parse_pack(br#"[{"bt":1},{"n":"a","t":1e3,"v":5},{"n":"b","v":6}]"#).unwrap();
    assert_eq!(pack.base_time, 1);
    assert_eq!(pack.records.len(), 1);
    assert_eq!(pack.records[0].name, "b");
    assert_eq!(pack.records[0].time_offset, 0);
    // Behind a base time that cannot be read there is none.
    assert!(matches!(
        parse_pack(br#"[{"bt": 7}, {"bt": 1e3, "n": "a", "v": 1}]"#),
        Err(PackError::MissingHeader)
    ));
    assert!(matches!(
        parse_pack(br#"[{"bt": 1e3}, {"n": "a", "v": 1}]"#),
        Err(PackError::MissingHeader)
    ));
    let pack = parse_pack(br#"[{"bt": 1e3}, {"bt": 7, "n": "a", "v": 1}]"#).unwrap();
    assert_eq!(pack.base_time, 7);
    assert_eq!(pack.records.len(), 1);
    assert!(matches!(
        parse_pack(br#"[{"bt": 99999999999999999999}]"#),
        Err(PackError::MissingHeader)
    ));
}

#[test]
fn digits_survive_as_they_are_published() {
    for literal in [
        "0", "-0", "236.40", "10.370", "-3.500", "0.0000", "18446744073709551616",
        "-9223372036854775809", "123456789012345678901234567890.10",
    ] {
        let payload = format!(r#"[{{"bt": 1, "n": "a", "v":  {literal} }}]"#);
        let pack = parse_pack(payload.as_bytes()).unwrap();
        assert_eq!(pack.records[0].value, Value::Number(literal.into()));
    }
    // An exponent is kept too, but for how it is marked.
    for (literal, kept) in [("1.50E+3", "1.50e+3"), ("1e3", "1e+3"), ("1E-2", "1e-2")] {
        let payload = format!(r#"[{{"bt": 1, "n": "a", "v": {literal}}}]"#);
        let pack = parse_pack(payload.as_bytes()).unwrap();
        assert_eq!(pack.records[0].value, Value::Number(kept.into()));
    }
}

#[test]
fn payloads_of_another_shape_are_refused() {
    for payload in [
        &b""[..],
        b"null",
        b"{}",
        b"nope",
        b"[",
        b"[{}",
        b"[{}] x",
        b"[{},]",
        b"[{} {}]",
        b"[7]",
        b"[null]",
        b"[[]]",
        br#"[{"bt": "1"}]"#,
        br#"[{"n": 7}]"#,
        br#"[{"v": "1"}]"#,
        br#"[{"n" "a"}]"#,
        br#"[{"n": "a",}]"#,
        br#"[{n: "a"}]"#,
        br#"[{null: "a"}]"#,
        br#"[{"n": "a", "n": "b"}]"#,
        br#"[{"\u006e": "a", "n": "b"}]"#,
        br#"[{"v": 01}]"#,
        br#"[{"n": "\q"}]"#,
    ] {
        assert!(
            matches!(parse_pack(payload), Err(PackError::Json(_))),
            "{payload:?}"
        );
    }
}

#[test]
fn json_is_read_in_all_its_forms() {
    // Escapes in names and texts, white space, nested values that are not read.
    let pack = parse_pack(
        b"\r\n\t [ { \"\\u0062t\" : 3 , \"x\":{\"a\":[1,{\"b\":\"],}\"}]} } , {\"n\":\"\\u00e4\",\"vs\":\"a\\\"b\"} ] \n",
    )
    .unwrap();
    assert_eq!(pack.base_time, 3);
    assert_eq!(pack.records[0].name, "\u{e4}");
    assert_eq!(pack.records[0].value, Value::Text("a\"b".into()));
    // What is not read need not be UTF-8.
    let pack = parse_pack(b"[{\"bt\": 1, \"x\": \"\xff\"}]").unwrap();
    assert_eq!(pack.base_time, 1);
    assert!(parse_pack(b"[{\"bt\": 1, \"n\": \"\xff\"}]").is_err());
    // A record may be an array of all its fields.
    let pack = parse_pack(br#"[["bn", 9, "W", "n", null, -2, 1.0, null]]"#).unwrap();
    assert_eq!(pack.base_time, 9);
    assert_eq!(pack.records[0].time_offset, -2);
    assert_eq!(pack.records[0].unit.as_deref(), Some("W"));
    assert!(matches!(parse_pack(b"[]"), Err(PackError::MissingHeader)));
}

#[test]
fn packs_are_made_of_records() {
    let header = RawRecord {
        bn: None,
        bt: Some("12".into()),
        bu: None,
        n: None,
        u: None,
        t: None,
        v: None,
        vs: None,
    };
    let mut reading = header.clone();
    reading.bt = None;
    reading.n = Some("a".into());
    reading.v = Some("1".into());
    let pack = pack_from_records(vec![header, reading.clone()]).unwrap();
    assert_eq!(pack.base_time, 12);
    assert_eq!(pack.records.len(), 1);
    assert!(matches!(
        pack_from_records(vec![reading]),
        Err(PackError::MissingHeader)
    ));
}

#[test]
fn errors_tell_what_is_wrong() {
    assert_eq!(
        PackError::MissingHeader.message(),
        "senml pack has no base-time header record"
    );
    let error = parse_pack(b"[").unwrap_err();
    assert!(error.message().starts_with("senml pack is not valid JSON: "));
    assert!(error.message().len() > "senml pack is not valid JSON: ".len());
}
