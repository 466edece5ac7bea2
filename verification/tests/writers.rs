use sqlout::fields::{Field, FieldKind};
use sqlout::gfm::{GfmConv, GFM};
use sqlout::json::{JsonConv, NumError, JSON};
use sqlout::report::ConvError;
use sqlout::value::{Date, NumText, ResultSet, Value};
use sqlout::xlsx::{XlsxConv, XlsxOp, XF, XLSX};

fn field(name: &str, kind: FieldKind) -> Field {
    Field { name: String::from(name), kind }
}

fn dec(text: &str, tok: Option<&str>) -> Value {
    Value::Dec(NumText { text: String::from(text), num: tok.map(String::from) })
}

/// One row `{id: 1, name: "Ann", joined: 2024-01-15}`.
fn ann() -> ResultSet {
    ResultSet {
        columns: vec![
            field("id", FieldKind::INT32),
            field("name", FieldKind::STR),
            field("joined", FieldKind::DATE),
        ],
        rows: vec![vec![
            Value::I32(1),
            Value::Str(String::from("Ann")),
            Value::Date(Some(Date { year: 2024, month: 1, day: 15 })),
        ]],
    }
}

#[test]
fn renderer_selection_per_format() {
    let ok = field("n", FieldKind::INT32);
    assert_eq!(GFM::convert(&ok), Ok(GfmConv::I32));
    assert_eq!(JSON::convert(&ok), Ok(JsonConv::I32));
    assert_eq!(XLSX::convert(&ok), Ok(XlsxConv::I32));

    let unsigned = field("u", FieldKind::UINT64);
    let expect_unimpl = ConvError::Unimplemented { kind: FieldKind::UINT64 };
    assert_eq!(GFM::convert(&unsigned).unwrap_err(), expect_unimpl);
    assert_eq!(JSON::convert(&unsigned).unwrap_err(), expect_unimpl);
    assert_eq!(XLSX::convert(&unsigned).unwrap_err(), expect_unimpl);

    let unknown = field("i", FieldKind::UNKNOWN(String::from("interval")));
    let expect_unknown = ConvError::UnknownType { name: String::from("interval") };
    assert_eq!(GFM::convert(&unknown).unwrap_err(), expect_unknown);
    assert_eq!(JSON::convert(&unknown).unwrap_err(), expect_unknown);
    assert_eq!(XLSX::convert(&unknown).unwrap_err(), expect_unknown);
}

#[test]
fn text_table_three_records() {
    let rs = ResultSet {
        columns: vec![field("abc", FieldKind::STR), field("n", FieldKind::INT32)],
        rows: vec![
            vec![Value::Str(String::from("0123456789")), Value::I32(7)],
            vec![Value::Str(String::from("x")), Value::I32(-42)],
        ],
    };
    let (lines, diags) = GFM::write(&rs);
    assert!(diags.is_empty());
    assert_eq!(lines.len(), 4);
    // Width of the first column is its longest cell (10), of the second its
    // header (1 > len("-42") is false, so 3).
    assert_eq!(lines[0], format!("| {:<10} | {:<3} |", "abc", "n"));
    assert_eq!(lines[1], format!("| {} | {} |", "-".repeat(10), "-".repeat(3)));
    assert_eq!(lines[2], format!("| {:<10} | {:<3} |", "0123456789", "7"));
    assert_eq!(lines[3], format!("| {:<10} | {:<3} |", "x", "-42"));
}

#[test]
fn text_table_width_is_ten() {
    // Longest rendered value 10 characters, header 3: the separator is ten
    // dashes and every data cell is padded to width 10.
    let rs = ResultSet {
        columns: vec![field("abc", FieldKind::STR)],
        rows: vec![
            vec![Value::Str(String::from("0123456789"))],
            vec![Value::Str(String::from("short"))],
        ],
    };
    let (lines, _) = GFM::write(&rs);
    assert_eq!(lines[1], "| ---------- |");
    assert_eq!(lines[0], "| abc        |");
    assert_eq!(lines[2], "| 0123456789 |");
    assert_eq!(lines[3], "| short      |");
}

#[test]
fn text_table_null_date_is_empty_cell() {
    let rs = ResultSet {
        columns: vec![field("d", FieldKind::DATE)],
        rows: vec![vec![Value::Date(None)]],
    };
    let (lines, _) = GFM::write(&rs);
    assert_eq!(lines[0], "| d |");
    assert_eq!(lines[2], "|   |");
}

#[test]
fn text_table_empty_result_has_no_lines() {
    let rs = ResultSet { columns: vec![field("a", FieldKind::INT32)], rows: vec![] };
    let (lines, diags) = GFM::write(&rs);
    assert!(lines.is_empty());
    assert!(diags.is_empty());
}

#[test]
fn text_table_unknown_column_degrades() {
    let rs = ResultSet {
        columns: vec![
            field("a", FieldKind::INT32),
            field("weird", FieldKind::UNKNOWN(String::from("interval"))),
        ],
        rows: vec![vec![Value::I32(1), Value::Null]],
    };
    let (lines, diags) = GFM::write(&rs);
    assert_eq!(diags.len(), 1);
    assert_eq!(diags[0].column, "weird");
    assert_eq!(
        diags[0].error,
        ConvError::UnknownType { name: String::from("interval") }
    );
    // The header still names both columns; the unsupported column renders
    // as empty cells.
    assert_eq!(lines[0], "| a | weird |");
    assert_eq!(lines[2], "| 1 |       |");
}

#[test]
fn document_round_trip_ann() {
    let (text, diags) = JSON::write(&ann()).unwrap();
    assert!(diags.is_empty());
    // One object, string value for the temporal column, followed by the
    // documented trailing-delimiter artifact.
    assert_eq!(
        text,
        "[\n{\"id\":1,\"name\":\"Ann\",\"joined\":\"2024-01-15\"},\n]\n"
    );
}

#[test]
fn document_parses_with_reference_parser() {
    let (text, _) = JSON::write(&ann()).unwrap();
    // Undo the trailing-delimiter artifact, then the document is plain JSON.
    let fixed = text.replace("},\n]", "}\n]");
    let v: serde_json::Value = serde_json::from_str(&fixed).unwrap();
    assert_eq!(v[0]["id"], serde_json::Value::from(1));
    assert_eq!(v[0]["name"], serde_json::Value::from("Ann"));
    assert_eq!(v[0]["joined"], serde_json::Value::from("2024-01-15"));
}

#[test]
fn document_empty_result_is_empty_array() {
    let rs = ResultSet { columns: vec![], rows: vec![] };
    let (text, diags) = JSON::write(&rs).unwrap();
    assert_eq!(text, "[\n]\n");
    assert!(diags.is_empty());
}

#[test]
fn document_null_temporals_and_unknown_column() {
    let rs = ResultSet {
        columns: vec![
            field("d", FieldKind::DATE),
            field("t", FieldKind::TIME),
            field("s", FieldKind::DATETIME),
            field("z", FieldKind::DATETIMETZ),
            field("u", FieldKind::UINT8),
        ],
        rows: vec![vec![
            Value::Date(None),
            Value::Time(None),
            Value::DateTime(None),
            Value::DateTimeTz(None),
            Value::Null,
        ]],
    };
    let (text, diags) = JSON::write(&rs).unwrap();
    assert_eq!(
        text,
        "[\n{\"d\":null,\"t\":null,\"s\":null,\"z\":null,\"u\":null},\n]\n"
    );
    assert_eq!(diags.len(), 1);
    assert_eq!(diags[0].column, "u");
    assert_eq!(
        diags[0].error,
        ConvError::Unimplemented { kind: FieldKind::UINT8 }
    );
}

#[test]
fn document_unrepresentable_decimal_is_fatal() {
    let rs = ResultSet {
        columns: vec![field("a", FieldKind::INT32), field("m", FieldKind::DECIMAL)],
        rows: vec![
            vec![Value::I32(1), dec("1.5", Some("1.5"))],
            vec![Value::I32(2), dec("overflow", None)],
        ],
    };
    let err = JSON::write(&rs).unwrap_err();
    assert_eq!(
        err,
        NumError { row: 1, col: 1, column: String::from("m") }
    );
}

#[test]
fn document_escapes_keys_and_strings() {
    let rs = ResultSet {
        columns: vec![field("na\"me", FieldKind::STR)],
        rows: vec![vec![Value::Str(String::from("line\nbreak"))]],
    };
    let (text, _) = JSON::write(&rs).unwrap();
    assert_eq!(text, "[\n{\"na\\\"me\":\"line\\nbreak\"},\n]\n");
}

#[test]
fn spreadsheet_ops_ann() {
    let (ops, diags) = XLSX::write(&ann()).unwrap();
    assert!(diags.is_empty());
    assert_eq!(
        ops,
        vec![
            XlsxOp::FreezeHeader,
            XlsxOp::HeaderText { row: 0, col: 0, text: String::from("id") },
            XlsxOp::HeaderText { row: 0, col: 1, text: String::from("name") },
            XlsxOp::HeaderText { row: 0, col: 2, text: String::from("joined") },
            XlsxOp::NumberCell { row: 1, col: 0, num: String::from("1"), fmt: XF::Int },
            XlsxOp::TextCell { row: 1, col: 1, text: String::from("Ann") },
            XlsxOp::DateCell { row: 1, col: 2, date: Date { year: 2024, month: 1, day: 15 } },
            XlsxOp::Autofilter { last_row: 1, last_col: 2 },
            XlsxOp::Autofit,
        ]
    );
}

#[test]
fn spreadsheet_empty_result_has_no_ops() {
    let rs = ResultSet { columns: vec![field("a", FieldKind::INT32)], rows: vec![] };
    let (ops, diags) = XLSX::write(&rs).unwrap();
    assert!(ops.is_empty());
    assert!(diags.is_empty());
}

#[test]
fn spreadsheet_null_date_and_unknown_column_omit_cells() {
    let rs = ResultSet {
        columns: vec![
            field("d", FieldKind::DATE),
            field("weird", FieldKind::UNKNOWN(String::from("interval"))),
        ],
        rows: vec![vec![Value::Date(None), Value::Null]],
    };
    let (ops, diags) = XLSX::write(&rs).unwrap();
    assert_eq!(diags.len(), 1);
    assert_eq!(diags[0].column, "weird");
    // Headers for both columns, no cell write at all, then the region ops.
    assert_eq!(
        ops,
        vec![
            XlsxOp::FreezeHeader,
            XlsxOp::HeaderText { row: 0, col: 0, text: String::from("d") },
            XlsxOp::HeaderText { row: 0, col: 1, text: String::from("weird") },
            XlsxOp::Autofilter { last_row: 1, last_col: 1 },
            XlsxOp::Autofit,
        ]
    );
}

#[test]
fn spreadsheet_unrepresentable_decimal_is_fatal() {
    let rs = ResultSet {
        columns: vec![field("m", FieldKind::DECIMAL)],
        rows: vec![vec![dec("overflow", None)]],
    };
    let err = XLSX::write(&rs).unwrap_err();
    assert_eq!(err, NumError { row: 0, col: 0, column: String::from("m") });
}

#[test]
fn every_writer_emits_all_column_names_in_order() {
    let rs = ann();
    let (lines, _) = GFM::write(&rs);
    let header: Vec<&str> = lines[0].trim_matches('|').split('|').map(|c| c.trim()).collect();
    assert_eq!(header, vec!["id", "name", "joined"]);

    let (text, _) = JSON::write(&rs).unwrap();
    let id_pos = text.find("\"id\"").unwrap();
    let name_pos = text.find("\"name\"").unwrap();
    let joined_pos = text.find("\"joined\"").unwrap();
    assert!(id_pos < name_pos && name_pos < joined_pos);

    let (ops, _) = XLSX::write(&rs).unwrap();
    let names: Vec<String> = ops
        .iter()
        .filter_map(|op| match op {
            XlsxOp::HeaderText { text, .. } => Some(text.clone()),
            _ => None,
        })
        .collect();
    assert_eq!(names, vec!["id", "name", "joined"]);
}
