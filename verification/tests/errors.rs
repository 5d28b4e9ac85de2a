//! What is told of payloads that are refused. Each is compared with what a plain
//! `serde` reader of the same shape tells.
use std::collections::BTreeMap;
use std::fmt;

use serde::de::{Error, IgnoredAny, MapAccess, SeqAccess, Visitor};
use serde::{Deserialize, Deserializer};

use pv_matter::domain::InverterInfo;
use pv_matter::faults::{
    expecting_message, in_place, length_message, repeated_message, tell_at,
};
use pv_matter::senml::{parse_pack, PackError};

/// A field of a structure, by its place among the names.
struct Key(Option<usize>);

struct KeyVisitor {
    names: &'static [&'static str],
}

impl<'de> Visitor<'de> for KeyVisitor {
    type Value = Key;

    fn expecting(&self, f: &mut fmt::Formatter<'_>) -> fmt::Result {
        f.write_str("field identifier")
    }

    fn visit_str<E: Error>(self, value: &str) -> Result<Key, E> {
        Ok(Key(self.names.iter().position(|name| *name == value)))
    }
}

struct RecordKey(Key);

impl<'de> Deserialize<'de> for RecordKey {
    fn deserialize<D: Deserializer<'de>>(deserializer: D) -> Result<Self, D::Error> {
        let visitor = KeyVisitor { names: RECORD };
        Ok(RecordKey(deserializer.deserialize_identifier(visitor)?))
    }
}

struct InfoKey(Key);

impl<'de> Deserialize<'de> for InfoKey {
    fn deserialize<D: Deserializer<'de>>(deserializer: D) -> Result<Self, D::Error> {
        let visitor = KeyVisitor { names: INFO };
        Ok(InfoKey(deserializer.deserialize_identifier(visitor)?))
    }
}

const RECORD: &[&str] = &["bn", "bt", "bu", "n", "u", "t", "v", "vs"];

const INFO: &[&str] = &[
    "schema",
    "serial",
    "name",
    "device_model",
    "lines",
    "strings",
    "max_power_watts",
];

struct Record;

struct RecordVisitor;

impl<'de> Visitor<'de> for RecordVisitor {
    type Value = Record;

    fn expecting(&self, f: &mut fmt::Formatter<'_>) -> fmt::Result {
        f.write_str("struct RawRecord")
    }

    fn visit_seq<A: SeqAccess<'de>>(self, mut seq: A) -> Result<Record, A::Error> {
        for i in 0..8 {
            let there = match i {
                1 | 5 | 6 => seq.next_element::<Option<serde_json::Number>>()?.is_some(),
                _ => seq.next_element::<Option<String>>()?.is_some(),
            };
            if !there {
                return Err(A::Error::invalid_length(
                    i,
                    &"struct RawRecord with 8 elements",
                ));
            }
        }
        Ok(Record)
    }

    fn visit_map<A: MapAccess<'de>>(self, mut map: A) -> Result<Record, A::Error> {
        let mut seen = [false; 8];
        while let Some(RecordKey(Key(key))) = map.next_key()? {
            let Some(i) = key else {
                map.next_value::<IgnoredAny>()?;
                continue;
            };
            if seen[i] {
                return Err(A::Error::duplicate_field(RECORD[i]));
            }
            seen[i] = true;
            match i {
                1 | 5 | 6 => {
                    map.next_value::<Option<serde_json::Number>>()?;
                }
                _ => {
                    map.next_value::<Option<String>>()?;
                }
            }
        }
        Ok(Record)
    }
}

impl<'de> Deserialize<'de> for Record {
    fn deserialize<D: Deserializer<'de>>(deserializer: D) -> Result<Self, D::Error> {
        deserializer.deserialize_struct("RawRecord", RECORD, RecordVisitor)
    }
}

struct Info;

struct InfoVisitor;

impl<'de> Visitor<'de> for InfoVisitor {
    type Value = Info;

    fn expecting(&self, f: &mut fmt::Formatter<'_>) -> fmt::Result {
        f.write_str("struct Raw")
    }

    fn visit_seq<A: SeqAccess<'de>>(self, mut seq: A) -> Result<Info, A::Error> {
        for i in 0..7 {
            let there = match i {
                0 | 4 | 5 => seq.next_element::<Option<u32>>()?.is_some(),
                1 => seq.next_element::<Option<u64>>()?.is_some(),
                6 => seq
                    .next_element::<Option<BTreeMap<String, u32>>>()?
                    .is_some(),
                _ => seq.next_element::<Option<String>>()?.is_some(),
            };
            if !there {
                return Err(A::Error::invalid_length(
                    i,
                    &"struct Raw with 7 elements",
                ));
            }
        }
        Ok(Info)
    }

    fn visit_map<A: MapAccess<'de>>(self, mut map: A) -> Result<Info, A::Error> {
        let mut seen = [false; 7];
        while let Some(InfoKey(Key(key))) = map.next_key()? {
            let Some(i) = key else {
                map.next_value::<IgnoredAny>()?;
                continue;
            };
            if seen[i] {
                return Err(A::Error::duplicate_field(INFO[i]));
            }
            seen[i] = true;
            match i {
                0 | 4 | 5 => {
                    map.next_value::<Option<u32>>()?;
                }
                1 => {
                    map.next_value::<Option<u64>>()?;
                }
                6 => {
                    map.next_value::<Option<BTreeMap<String, u32>>>()?;
                }
                _ => {
                    map.next_value::<Option<String>>()?;
                }
            }
        }
        Ok(Info)
    }
}

impl<'de> Deserialize<'de> for Info {
    fn deserialize<D: Deserializer<'de>>(deserializer: D) -> Result<Self, D::Error> {
        deserializer.deserialize_struct("Raw", INFO, InfoVisitor)
    }
}

/// What a plain reader tells of a pack.
fn plain_pack(payload: &[u8]) -> Option<String> {
    let read: Result<Vec<Record>, serde_json::Error> = serde_json::from_slice(payload);
    read.err().map(|error| error.to_string())
}

fn told_of_pack(payload: &[u8]) -> Option<String> {
    match parse_pack(payload) {
        Err(PackError::Json(error)) => Some(error.to_string()),
        _ => None,
    }
}

fn plain_info(payload: &[u8]) -> Option<String> {
    let read: Result<Info, serde_json::Error> = serde_json::from_slice(payload);
    read.err().map(|error| error.to_string())
}

fn told_of_info(payload: &[u8]) -> Option<String> {
    InverterInfo::parse(payload)
        .err()
        .map(|error| error.to_string())
}

#[test]
fn refused_packs_are_told_with_their_place() {
    for payload in [
        &b""[..],
        b" \n ",
        b"null",
        b"{}",
        b"7",
        b"\"x\"",
        b"nope",
        b"nul",
        b"[",
        b"[ ",
        b"[{}",
        b"[{} ",
        b"[{},",
        b"[{},]",
        b"[{} {}]",
        b"[{}}",
        b"[{}] x",
        b"[{}]]",
        b"[,]",
        b"[7]",
        b"[null]",
        b"[true]",
        b"[\"x\"]",
        b"[01]",
        b"[-]",
        b"[nul]",
        b"[tru",
        b"[{]",
        b"[{\"n\"]",
        b"[{\"n\":]",
        b"[{\"n\":\"a\"]",
        b"[{\"n\":\"a\",]",
        b"[{\"n\":\"a\",",
        b"[{\"n\":\"a\"",
        b"[{\"n\":",
        b"[{\"n\"",
        b"[{\"n",
        b"[{",
        br#"[{"bt": "1"}]"#,
        br#"[{"n": 7}]"#,
        br#"[{"n": true}]"#,
        br#"[{"n": [1]}]"#,
        br#"[{"v": "1"}]"#,
        br#"[{"v": {}}]"#,
        br#"[{"v": 1.}]"#,
        br#"[{"v": 1e}]"#,
        br#"[{"v": 01}]"#,
        br#"[{"v": -}]"#,
        br#"[{"n" "a"}]"#,
        br#"[{"n": "a",}]"#,
        br#"[{"n": "a" "u": "b"}]"#,
        br#"[{n: "a"}]"#,
        br#"[{"n": "a", 7: 8}]"#,
        br#"[{null: "a"}]"#,
        br#"[{"n": "a", "n": "b"}]"#,
        br#"[{"n": "a", "n" : "b"}]"#,
        br#"[{"n": "a", "n": "b"}]"#,
        br#"[{"n": "a", "u": "b", "u": "c", "n": "d"}]"#,
        br#"[{"n": 7, "n": "b"}]"#,
        br#"[{"n": "\q"}]"#,
        br#"[{"n": "\ud800"}]"#,
        br#"[{"\ud800": 1}]"#,
        br#"[{"x": "\q"}]"#,
        br#"[{"x": [1, 2,]}]"#,
        br#"[{"x": {"a": 1,}}]"#,
        b"[{\"n\": \"a\tb\"}]",
        b"[{\"n\": \"\xff\"}]",
        b"[{\"\xff\": 1}]",
        b"[\n  {\"bt\": 1},\n  {\"n\": 7}\n]",
        b"[\n  {\"bt\": 1},\n  {\"n\": \"a\",\n   \"n\": \"b\"}\n]",
        b"[\n  {\"bt\": 1},\n  {\"n\": \"a\",\n  }\n]",
        b"[\n  {\"bt\": 1}\n  {\"n\": \"a\"}\n]",
        b"[{\"v\": 1x}]",
        b"[{\"v\": 1 x}]",
        b"[{\"n\": nullx}]",
        b"[{\"x\": 1x}]",
        b"[{\"n\": \"a\" x}]",
        b"[{\"x\": \"a\tb\"}]",
        b"[\"expected a map at line 7\"]",
        b"[\"\\q\"]",
        // The first of two faults is told.
        br#"[{"v": "x", "n": 7}]"#,
        br#"[{"vs": 1, "bn": 2}]"#,
        br#"[{"v": "x", "n": "a", "n": "b"}]"#,
        br#"[{"n": "a", "n": "b", "v": "x"}]"#,
        br#"[{"n": [1,}]"#,
        br#"[{"n": {"a": 1,}}]"#,
        br#"[{"v": [1,}]"#,
        br#"[{"x": [1,}]"#,
        br#"[{"n": "a", "n": [1,}]"#,
        br#"[{"x": "\ud800", "n": 7}]"#,
        b"[{\"x\": \"\xff\", \"n\": 7}]",
        b"[{\"x\": \"\xff\", \"n\": \"\xff\"}]",
        br#"[{"n": 7, "v": }]"#,
        br#"[{"n": "a", "n": "b", }]"#,
        br#"[{"n": "a", "n": "b"]"#,
        br#"[[7, }]"#,
        br#"[{"n": 7}, {"n": 8}]"#,
        br#"[{"n": 7}, {"n": }]"#,
        br#"[{"n": 7},]"#,
        br#"[{"n": 7}] x"#,
        // Records in the form of an array.
        b"[[]]",
        br#"[[null, null]]"#,
        b"[[null,\n null ]]",
        br#"[[null, null, null, null, null, null, null, null, 9]]"#,
        b"[[null, null, null, null, null, null, null, null,\n 9, 10]]",
        br#"[[7, null, null, null, null, null, null, null]]"#,
        br#"[[null,]]"#,
        br#"[[null"#,
    ] {
        let plain = plain_pack(payload);
        assert!(plain.is_some(), "{}", String::from_utf8_lossy(payload));
        assert_eq!(
            told_of_pack(payload),
            plain,
            "{}",
            String::from_utf8_lossy(payload)
        );
    }
}

#[test]
fn refused_infos_are_told_with_their_place() {
    for payload in [
        &b""[..],
        b"null",
        b"7",
        b"\"x\"",
        b"nope",
        b"{",
        b"{ ",
        b"{}}",
        b"{} x",
        br#"{"serial""#,
        br#"{"serial":"#,
        br#"{"serial":1"#,
        br#"{"serial":1,"#,
        br#"{"serial":1,}"#,
        br#"{"serial":1 "name":"x"}"#,
        br#"{"serial":"1"}"#,
        br#"{"serial":-1}"#,
        br#"{"serial":1.5}"#,
        br#"{"serial":18446744073709551616}"#,
        br#"{"lines":4294967296}"#,
        br#"{"lines":1e3}"#,
        br#"{"name":7}"#,
        br#"{"name":"a","name":"b"}"#,
        b"{\n\"name\": \"a\",\n  \"name\" : \"b\"}",
        br#"{"max_power_watts":[]}"#,
        br#"{"max_power_watts":{"l1":"x"}}"#,
        br#"{"max_power_watts":{"l1":5000,"l2":-1}}"#,
        br#"{"max_power_watts":{"l1":5000,}}"#,
        br#"{"max_power_watts":{"l1":5000,"l1":"x"}}"#,
        br#"{"max_power_watts":{"l1":5000"#,
        br#"{"max_power_watts":{l1:5000}}"#,
        br#"{"lines":"x","serial":"1"}"#,
        br#"{"name":"a\tb","serial":"1"}"#,
        b"{\"name\":\"a\tb\"}",
        br#"{"serial":"1","name":}"#,
        br#"{"serial":"1","serial":2}"#,
        b"[]",
        b"[1, 2, \"a\"]",
        br#"[1, 2, "a", "b", 3, 4, null, 5]"#,
        br#"[1, 2, "a", "b", 3, 4, {"l1": 0.5}]"#,
    ] {
        let plain = plain_info(payload);
        assert!(plain.is_some(), "{}", String::from_utf8_lossy(payload));
        assert_eq!(
            told_of_info(payload),
            plain,
            "{}",
            String::from_utf8_lossy(payload)
        );
    }
}

#[test]
fn messages_have_their_words() {
    assert_eq!(
        parse_pack(b"nope").unwrap_err().message(),
        "senml pack is not valid JSON: expected ident at line 1 column 2"
    );
    assert_eq!(
        told_of_pack(br#"[{"n": "a", "n": "b"}]"#).as_deref(),
        Some("duplicate field `n` at line 1 column 15")
    );
    assert_eq!(
        told_of_pack(b"[[]]").as_deref(),
        Some("invalid length 0, expected struct RawRecord with 8 elements at line 1 column 3")
    );
    assert_eq!(
        told_of_pack(b"[{}, ]").as_deref(),
        Some("trailing comma at line 1 column 6")
    );
    assert_eq!(
        told_of_info(b"{\"serial\":\n \"1\"}").as_deref(),
        Some("invalid type: string \"1\", expected u64 at line 2 column 4")
    );
}

#[test]
fn parts_keep_their_place() {
    assert_eq!(in_place(b"ab\ncd\nef", 4, 7), b"  \n d\ne".to_vec());
    assert_eq!(in_place(b"ab", 0, 2), b"ab".to_vec());
    assert_eq!(in_place(b"", 0, 0), Vec::<u8>::new());
    assert_eq!(
        tell_at("x".into(), b"ab\ncd", 4, false),
        "x at line 2 column 1"
    );
    assert_eq!(tell_at("x".into(), b"ab\ncd", 4, true), "x at line 2 column 2");
    assert_eq!(tell_at("x".into(), b"ab", 0, false), "x at line 1 column 0");
    assert_eq!(tell_at("x".into(), b"\n\n\n", 2, false), "x at line 3 column 0");
    assert_eq!(repeated_message("n"), "duplicate field `n`");
    assert_eq!(
        length_message(2, "Raw", 7),
        "invalid length 2, expected struct Raw with 7 elements"
    );
    assert_eq!(
        expecting_message("expected a map at line 1, expected a map at line 2", "Raw").as_deref(),
        Some("expected a map at line 1, expected struct Raw at line 2")
    );
    assert_eq!(expecting_message("expected a map", "Raw"), None);
}
