use sqlout::fields::{classify, get_common_type, Backend, Field, FieldKind};

#[test]
fn common_table_strings() {
    for name in [
        "string",
        "varchar",
        "tinytext",
        "text",
        "mediumtext",
        "longtext",
        "char",
        "bpchar",
    ] {
        assert_eq!(get_common_type(name), FieldKind::STR, "{name}");
    }
}

#[test]
fn common_table_integers() {
    assert_eq!(get_common_type("tinyint"), FieldKind::INT8);
    assert_eq!(get_common_type("int2"), FieldKind::INT16);
    assert_eq!(get_common_type("smallint"), FieldKind::INT16);
    assert_eq!(get_common_type("int4"), FieldKind::INT32);
    assert_eq!(get_common_type("int"), FieldKind::INT32);
    assert_eq!(get_common_type("mediumint"), FieldKind::INT32);
    assert_eq!(get_common_type("int8"), FieldKind::INT64);
    assert_eq!(get_common_type("bigint"), FieldKind::INT64);
}

#[test]
fn common_table_unsigned() {
    assert_eq!(get_common_type("tinyint unsigned"), FieldKind::UINT8);
    assert_eq!(get_common_type("smallint unsigned"), FieldKind::UINT16);
    assert_eq!(get_common_type("int unsigned"), FieldKind::UINT32);
    assert_eq!(get_common_type("mediumint unsigned"), FieldKind::UINT32);
    assert_eq!(get_common_type("bigint unsigned"), FieldKind::UINT64);
}

#[test]
fn common_table_numeric_and_misc() {
    assert_eq!(get_common_type("float4"), FieldKind::FLOAT32);
    assert_eq!(get_common_type("float"), FieldKind::FLOAT32);
    assert_eq!(get_common_type("float8"), FieldKind::FLOAT64);
    assert_eq!(get_common_type("double"), FieldKind::FLOAT64);
    assert_eq!(get_common_type("decimal"), FieldKind::DECIMAL);
    assert_eq!(get_common_type("numeric"), FieldKind::DECIMAL);
    assert_eq!(get_common_type("json"), FieldKind::JSON);
    assert_eq!(get_common_type("jsonb"), FieldKind::JSON);
    assert_eq!(get_common_type("bool"), FieldKind::BOOL);
    assert_eq!(get_common_type("boolean"), FieldKind::BOOL);
    assert_eq!(get_common_type("date"), FieldKind::DATE);
    assert_eq!(get_common_type("time"), FieldKind::TIME);
    assert_eq!(get_common_type("datetime"), FieldKind::DATETIME);
    assert_eq!(get_common_type("timestamptz"), FieldKind::DATETIMETZ);
}

#[test]
fn unknown_name_carries_itself() {
    assert_eq!(
        get_common_type("interval"),
        FieldKind::UNKNOWN(String::from("interval"))
    );
    assert_eq!(
        classify("interval", Backend::Postgres),
        FieldKind::UNKNOWN(String::from("interval"))
    );
    assert_eq!(
        classify("interval", Backend::MySql),
        FieldKind::UNKNOWN(String::from("interval"))
    );
}

#[test]
fn timestamp_is_backend_sensitive() {
    assert_eq!(classify("timestamp", Backend::Postgres), FieldKind::DATETIME);
    assert_eq!(classify("timestamp", Backend::MySql), FieldKind::DATETIMETZ);
    assert_ne!(
        classify("timestamp", Backend::Postgres),
        classify("timestamp", Backend::MySql)
    );
}

#[test]
fn classify_falls_through_to_common_table() {
    assert_eq!(classify("varchar", Backend::MySql), FieldKind::STR);
    assert_eq!(classify("int4", Backend::Postgres), FieldKind::INT32);
    assert_eq!(classify("timestamptz", Backend::Postgres), FieldKind::DATETIMETZ);
}

#[test]
fn field_from_column_keeps_name_and_kind() {
    let f: Field = Field::from_column("joined", "date", Backend::Postgres);
    assert_eq!(f.name, "joined");
    assert_eq!(f.kind, FieldKind::DATE);
    let g = Field::from_column("stamp", "timestamp", Backend::MySql);
    assert_eq!(g.kind, FieldKind::DATETIMETZ);
}
