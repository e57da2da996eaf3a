//! Row decoding: name and index paths agree for every supported value
//! variant, and a stored value that disagrees with the expected type is an
//! error, never a coercion.

use rorm::max_str::{MaxStr, MaxStrDecoder, OptionMaxStrDecoder};
use rorm::row::ChoicesDecoder;
use rorm::row::{DecodeCause, Decoder, DirectDecoder, NoopDecoder, Row};
use rorm::value::{NaiveDate, NaiveDateTime, NaiveTime, NullType, Value};

fn sample_row() -> Row {
    let mut row = Row::new();
    row.push("flag".to_string(), Value::Bool(true));
    row.push("small".to_string(), Value::I16(-3));
    row.push("medium".to_string(), Value::I32(70_000));
    row.push("big".to_string(), Value::I64(1 << 40));
    row.push("name".to_string(), Value::String("Bob".to_string()));
    row.push("blob".to_string(), Value::Binary(vec![1, 2, 3]));
    row.push(
        "born".to_string(),
        Value::Date(NaiveDate { year: 1990, month: 4, day: 1 }),
    );
    row.push(
        "at".to_string(),
        Value::Time(NaiveTime { hour: 12, minute: 30, second: 5 }),
    );
    row.push(
        "seen".to_string(),
        Value::DateTime(NaiveDateTime {
            date: NaiveDate { year: 2021, month: 1, day: 2 },
            time: NaiveTime { hour: 3, minute: 4, second: 5 },
        }),
    );
    row
}

#[test]
fn by_name_and_by_index_agree_on_bool() {
    let row = sample_row();
    let d: DirectDecoder<bool> = DirectDecoder::new("flag".to_string(), 0);
    assert_eq!(d.by_name(&row).unwrap(), d.by_index(&row).unwrap());
    assert!(d.by_name(&row).unwrap());
}

#[test]
fn by_name_and_by_index_agree_on_integers() {
    let row = sample_row();
    let d16: DirectDecoder<i16> = DirectDecoder::new("small".to_string(), 1);
    assert_eq!(d16.by_name(&row).unwrap(), d16.by_index(&row).unwrap());
    assert_eq!(d16.by_name(&row).unwrap(), -3);
    let d32: DirectDecoder<i32> = DirectDecoder::new("medium".to_string(), 2);
    assert_eq!(d32.by_name(&row).unwrap(), d32.by_index(&row).unwrap());
    let d64: DirectDecoder<i64> = DirectDecoder::new("big".to_string(), 3);
    assert_eq!(d64.by_name(&row).unwrap(), d64.by_index(&row).unwrap());
}

#[test]
fn by_name_and_by_index_agree_on_string_and_binary() {
    let row = sample_row();
    let ds: DirectDecoder<String> = DirectDecoder::new("name".to_string(), 4);
    assert_eq!(ds.by_name(&row).unwrap(), ds.by_index(&row).unwrap());
    assert_eq!(ds.by_name(&row).unwrap(), "Bob");
    let db: DirectDecoder<Vec<u8>> = DirectDecoder::new("blob".to_string(), 5);
    assert_eq!(db.by_name(&row).unwrap(), db.by_index(&row).unwrap());
    assert_eq!(db.by_name(&row).unwrap(), vec![1, 2, 3]);
}

#[test]
fn by_name_and_by_index_agree_on_dates_and_times() {
    let row = sample_row();
    let dd: DirectDecoder<NaiveDate> = DirectDecoder::new("born".to_string(), 6);
    assert_eq!(dd.by_name(&row).unwrap(), dd.by_index(&row).unwrap());
    let dt: DirectDecoder<NaiveTime> = DirectDecoder::new("at".to_string(), 7);
    assert_eq!(dt.by_name(&row).unwrap(), dt.by_index(&row).unwrap());
    let ddt: DirectDecoder<NaiveDateTime> = DirectDecoder::new("seen".to_string(), 8);
    assert_eq!(ddt.by_name(&row).unwrap(), ddt.by_index(&row).unwrap());
}

#[test]
fn type_mismatch_is_an_error_not_a_coercion() {
    let row = sample_row();
    let d: DirectDecoder<i64> = DirectDecoder::new("name".to_string(), 4);
    let e = d.by_name(&row).unwrap_err();
    assert_eq!(e.cause, DecodeCause::TypeMismatch);
}

#[test]
fn missing_column_is_reported() {
    let row = sample_row();
    let d: DirectDecoder<i64> = DirectDecoder::new("absent".to_string(), 99);
    assert_eq!(d.by_name(&row).unwrap_err().cause, DecodeCause::NoSuchColumn);
    assert_eq!(d.by_index(&row).unwrap_err().cause, DecodeCause::NoSuchColumn);
}

#[test]
fn by_name_picks_the_first_matching_column() {
    let mut row = Row::new();
    row.push("x".to_string(), Value::I64(1));
    row.push("x".to_string(), Value::I64(2));
    let d: DirectDecoder<i64> = DirectDecoder::new("x".to_string(), 0);
    assert_eq!(d.by_name(&row).unwrap(), 1);
}

#[test]
fn noop_decoder_ignores_the_row() {
    let row = sample_row();
    let d: NoopDecoder<u8> = NoopDecoder { value: 7 };
    assert_eq!(d.by_name(&row).unwrap(), 7);
    assert_eq!(d.by_index(&row).unwrap(), 7);
}

#[test]
fn bounded_string_decodes_within_bound() {
    let mut row = Row::new();
    row.push("name".to_string(), Value::String("Bob".to_string()));
    let d: MaxStrDecoder<255> = MaxStrDecoder { column: "name".to_string(), index: 0 };
    let by_name = d.by_name(&row).unwrap();
    let by_index = d.by_index(&row).unwrap();
    assert_eq!(by_name.as_ref(), "Bob");
    assert_eq!(by_index.as_ref(), "Bob");
}

#[test]
fn overlong_stored_string_is_a_decode_error() {
    // Scenario: a column bounded at 255 holds a stored value of length 300.
    let stored = "x".repeat(300);
    let mut row = Row::new();
    row.push("name".to_string(), Value::String(stored));
    let d: MaxStrDecoder<255> = MaxStrDecoder { column: "name".to_string(), index: 0 };
    let e = d.by_name(&row).unwrap_err();
    assert_eq!(e.cause, DecodeCause::TooLong { max: 255, got: 300 });
    let e = d.by_index(&row).unwrap_err();
    assert_eq!(e.cause, DecodeCause::TooLong { max: 255, got: 300 });
}

#[test]
fn nullable_bounded_string_decodes_null_as_none() {
    let mut row = Row::new();
    row.push("name".to_string(), Value::Null(NullType::String));
    let d: OptionMaxStrDecoder<255> = OptionMaxStrDecoder { column: "name".to_string(), index: 0 };
    assert!(d.by_name(&row).unwrap().is_none());
    assert!(d.by_index(&row).unwrap().is_none());
}

#[test]
fn nullable_bounded_string_still_enforces_the_bound() {
    let mut row = Row::new();
    row.push("name".to_string(), Value::String("y".repeat(300)));
    let d: OptionMaxStrDecoder<255> = OptionMaxStrDecoder { column: "name".to_string(), index: 0 };
    assert_eq!(
        d.by_name(&row).unwrap_err().cause,
        DecodeCause::TooLong { max: 255, got: 300 }
    );
}

#[test]
fn max_str_construction_enforces_the_bound() {
    let ok: Result<MaxStr<5>, _> = MaxStr::new("abcde".to_string());
    assert_eq!(ok.unwrap().len(), 5);
    let too_long: Result<MaxStr<5>, _> = MaxStr::new("abcdef".to_string());
    let e = too_long.unwrap_err();
    assert_eq!(e.max, 5);
    assert_eq!(e.got, 6);
    assert_eq!(e.string, "abcdef");
}

#[test]
fn max_str_measures_bytes_not_characters() {
    // Two characters, four bytes.
    let s = "äö".to_string();
    assert!(MaxStr::<4>::new(s.clone()).is_ok());
    assert!(MaxStr::<3>::new(s).is_err());
}

#[test]
fn choice_decoder_accepts_a_known_tag() {
    let mut row = Row::new();
    row.push("role".to_string(), Value::String("admin".to_string()));
    let d = ChoicesDecoder {
        column: "role".to_string(),
        index: 0,
        choices: vec!["user".to_string(), "admin".to_string()],
    };
    assert_eq!(d.by_name(&row).unwrap(), "admin");
    assert_eq!(d.by_index(&row).unwrap(), "admin");
}

#[test]
fn unknown_choice_tag_signals_schema_drift() {
    let mut row = Row::new();
    row.push("role".to_string(), Value::String("root".to_string()));
    let d = ChoicesDecoder {
        column: "role".to_string(),
        index: 0,
        choices: vec!["user".to_string(), "admin".to_string()],
    };
    assert_eq!(d.by_name(&row).unwrap_err().cause, DecodeCause::UnknownChoice);
    assert_eq!(d.by_index(&row).unwrap_err().cause, DecodeCause::UnknownChoice);
}
