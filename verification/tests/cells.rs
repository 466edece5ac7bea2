use sqlout::gfm::GfmConv;
use sqlout::json::{escape_json, JsonCell, JsonConv};
use sqlout::strutil::{char_repeat, i64_to_dec, u64_to_dec, u64_to_dec_padded};
use sqlout::value::{Date, DateTime, DateTimeTz, NumText, Time, Value};
use sqlout::xlsx::{XlsxConv, XlsxOp, XF};

fn num(text: &str, tok: Option<&str>) -> NumText {
    NumText { text: String::from(text), num: tok.map(String::from) }
}

fn date() -> Date {
    Date { year: 2024, month: 1, day: 15 }
}

fn time() -> Time {
    Time { hour: 12, minute: 34, second: 56 }
}

fn stamp() -> DateTime {
    DateTime { date: date(), time: time() }
}

#[test]
fn decimal_notation_of_integers() {
    assert_eq!(u64_to_dec(0), "0");
    assert_eq!(u64_to_dec(42), "42");
    assert_eq!(u64_to_dec(u64::MAX), "18446744073709551615");
    assert_eq!(i64_to_dec(-1), "-1");
    assert_eq!(i64_to_dec(i64::MIN), "-9223372036854775808");
    assert_eq!(i64_to_dec(i64::MAX), "9223372036854775807");
    assert_eq!(u64_to_dec_padded(7, 4), "0007");
    assert_eq!(u64_to_dec_padded(12345, 4), "12345");
    assert_eq!(char_repeat('-', 3), "---");
}

#[test]
fn temporal_rendering() {
    assert_eq!(date().render(), "2024-01-15");
    assert_eq!(time().render(), "12:34:56");
    assert_eq!(stamp().render(), "2024-01-15 12:34:56");
    let east = DateTimeTz { local: stamp(), offset_minutes: 120 };
    assert_eq!(east.render(), "2024-01-15 12:34:56 +02:00");
    let west = DateTimeTz { local: stamp(), offset_minutes: -330 };
    assert_eq!(west.render(), "2024-01-15 12:34:56 -05:30");
    let utc = DateTimeTz { local: stamp(), offset_minutes: 0 };
    assert_eq!(utc.render(), "2024-01-15 12:34:56 +00:00");
}

#[test]
fn text_table_cells() {
    assert_eq!(GfmConv::I8.apply(&Value::I8(-5)), "-5");
    assert_eq!(GfmConv::I16.apply(&Value::I16(300)), "300");
    assert_eq!(GfmConv::I32.apply(&Value::I32(42)), "42");
    assert_eq!(GfmConv::I64.apply(&Value::I64(i64::MIN)), "-9223372036854775808");
    assert_eq!(GfmConv::F32.apply(&Value::F32(num("3.5", Some("3.5")))), "3.5");
    assert_eq!(GfmConv::F64.apply(&Value::F64(num("2.25", Some("2.25")))), "2.25");
    assert_eq!(GfmConv::Str.apply(&Value::Str(String::from("Ann"))), "Ann");
    assert_eq!(GfmConv::Bool.apply(&Value::Bool(true)), "true");
    assert_eq!(GfmConv::Bool.apply(&Value::Bool(false)), "false");
    assert_eq!(GfmConv::Dec.apply(&Value::Dec(num("1.10", Some("1.1")))), "1.10");
    assert_eq!(GfmConv::Date.apply(&Value::Date(Some(date()))), "2024-01-15");
    assert_eq!(GfmConv::Time.apply(&Value::Time(Some(time()))), "12:34:56");
    assert_eq!(GfmConv::DateTime.apply(&Value::DateTime(Some(stamp()))), "2024-01-15 12:34:56");
    let tz = DateTimeTz { local: stamp(), offset_minutes: 60 };
    assert_eq!(
        GfmConv::DateTimeTz.apply(&Value::DateTimeTz(Some(tz))),
        "2024-01-15 12:34:56 +01:00"
    );
    assert_eq!(
        GfmConv::Json.apply(&Value::Json(String::from("{\"a\":1}"))),
        "{\"a\":1}"
    );
}

#[test]
fn text_table_null_temporals_are_absent() {
    assert_eq!(GfmConv::Date.apply(&Value::Date(None)), "");
    assert_eq!(GfmConv::Time.apply(&Value::Time(None)), "");
    assert_eq!(GfmConv::DateTime.apply(&Value::DateTime(None)), "");
    assert_eq!(GfmConv::DateTimeTz.apply(&Value::DateTimeTz(None)), "");
}

#[test]
fn document_cells() {
    assert_eq!(JsonConv::I32.apply(&Value::I32(42)), JsonCell::Num(String::from("42")));
    assert_eq!(
        JsonConv::I64.apply(&Value::I64(-7)),
        JsonCell::Num(String::from("-7"))
    );
    assert_eq!(
        JsonConv::F32.apply(&Value::F32(num("3.5", Some("3.5")))),
        JsonCell::Num(String::from("3.5"))
    );
    assert_eq!(JsonConv::F32.apply(&Value::F32(num("NaN", None))), JsonCell::Null);
    assert_eq!(
        JsonConv::Str.apply(&Value::Str(String::from("Ann"))),
        JsonCell::Str(String::from("Ann"))
    );
    assert_eq!(JsonConv::Bool.apply(&Value::Bool(true)), JsonCell::Bool(true));
    assert_eq!(
        JsonConv::Dec.apply(&Value::Dec(num("1.10", Some("1.1")))),
        JsonCell::Num(String::from("1.1"))
    );
    assert_eq!(
        JsonConv::Date.apply(&Value::Date(Some(date()))),
        JsonCell::Str(String::from("2024-01-15"))
    );
    assert_eq!(JsonConv::Date.apply(&Value::Date(None)), JsonCell::Null);
    assert_eq!(JsonConv::Time.apply(&Value::Time(None)), JsonCell::Null);
    assert_eq!(JsonConv::DateTime.apply(&Value::DateTime(None)), JsonCell::Null);
    assert_eq!(JsonConv::DateTimeTz.apply(&Value::DateTimeTz(None)), JsonCell::Null);
    assert_eq!(
        JsonConv::Json.apply(&Value::Json(String::from("[1,2]"))),
        JsonCell::Raw(String::from("[1,2]"))
    );
}

#[test]
fn document_cell_serialization() {
    assert_eq!(JsonCell::Null.render(), "null");
    assert_eq!(JsonCell::Bool(true).render(), "true");
    assert_eq!(JsonCell::Bool(false).render(), "false");
    assert_eq!(JsonCell::Num(String::from("42")).render(), "42");
    assert_eq!(JsonCell::Str(String::from("Ann")).render(), "\"Ann\"");
    assert_eq!(
        JsonCell::Str(String::from("a\"b\\c")).render(),
        "\"a\\\"b\\\\c\""
    );
    assert_eq!(JsonCell::Raw(String::from("{\"a\":1}")).render(), "{\"a\":1}");
}

#[test]
fn escaping_matches_reference_serializer() {
    for s in [
        "plain",
        "with \"quotes\" and \\backslash\\",
        "control\u{1}\u{1f}chars",
        "newline\nand\ttab\rand\u{8}\u{c}",
        "unicode \u{e9}\u{4e16}\u{1f600}",
        "",
    ] {
        let reference = serde_json::to_string(s).unwrap();
        let ours = format!("\"{}\"", escape_json(s));
        assert_eq!(ours, reference, "escaping of {s:?}");
    }
}

#[test]
fn spreadsheet_cells() {
    assert_eq!(
        XlsxConv::I32.apply(2, 1, &Value::I32(42)),
        Some(XlsxOp::NumberCell { row: 2, col: 1, num: String::from("42"), fmt: XF::Int })
    );
    assert_eq!(
        XlsxConv::I64.apply(1, 0, &Value::I64(1 << 60)),
        Some(XlsxOp::NumberCell {
            row: 1,
            col: 0,
            num: String::from("1152921504606846976"),
            fmt: XF::Int
        })
    );
    assert_eq!(
        XlsxConv::F64.apply(1, 2, &Value::F64(num("2.25", Some("2.25")))),
        Some(XlsxOp::NumberCell { row: 1, col: 2, num: String::from("2.25"), fmt: XF::Eur })
    );
    assert_eq!(
        XlsxConv::Dec.apply(1, 3, &Value::Dec(num("1.10", Some("1.1")))),
        Some(XlsxOp::NumberCell { row: 1, col: 3, num: String::from("1.1"), fmt: XF::Eur })
    );
    assert_eq!(
        XlsxConv::Str.apply(3, 0, &Value::Str(String::from("Ann"))),
        Some(XlsxOp::TextCell { row: 3, col: 0, text: String::from("Ann") })
    );
    assert_eq!(
        XlsxConv::Bool.apply(1, 1, &Value::Bool(false)),
        Some(XlsxOp::BoolCell { row: 1, col: 1, b: false })
    );
    assert_eq!(
        XlsxConv::Date.apply(1, 0, &Value::Date(Some(date()))),
        Some(XlsxOp::DateCell { row: 1, col: 0, date: date() })
    );
    assert_eq!(
        XlsxConv::Time.apply(1, 0, &Value::Time(Some(time()))),
        Some(XlsxOp::TimeCell { row: 1, col: 0, time: time() })
    );
    assert_eq!(
        XlsxConv::DateTime.apply(1, 0, &Value::DateTime(Some(stamp()))),
        Some(XlsxOp::StampCell { row: 1, col: 0, stamp: stamp() })
    );
    let tz = DateTimeTz { local: stamp(), offset_minutes: 600 };
    assert_eq!(
        XlsxConv::DateTimeTz.apply(1, 0, &Value::DateTimeTz(Some(tz))),
        Some(XlsxOp::StampCell { row: 1, col: 0, stamp: stamp() })
    );
    assert_eq!(
        XlsxConv::Json.apply(1, 0, &Value::Json(String::from("[1]"))),
        Some(XlsxOp::TextCell { row: 1, col: 0, text: String::from("[1]") })
    );
}

#[test]
fn spreadsheet_null_temporals_are_omitted() {
    assert_eq!(XlsxConv::Date.apply(1, 0, &Value::Date(None)), None);
    assert_eq!(XlsxConv::Time.apply(1, 0, &Value::Time(None)), None);
    assert_eq!(XlsxConv::DateTime.apply(1, 0, &Value::DateTime(None)), None);
    assert_eq!(XlsxConv::DateTimeTz.apply(1, 0, &Value::DateTimeTz(None)), None);
}

#[test]
fn format_palette_patterns() {
    assert_eq!(XF::Bold.pattern(), "");
    assert_eq!(XF::Int.pattern(), "#,##0");
    assert_eq!(XF::Eur.pattern(), "#,##0.00");
    assert_eq!(XF::Date.pattern(), "dd/mm/yyyy");
    assert_eq!(XF::Time.pattern(), "hh:mm");
    assert_eq!(XF::Stamp.pattern(), "dd/mm/yyyy hh:mm:ss");
}
