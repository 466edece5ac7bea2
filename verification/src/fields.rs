//! The type classifier: maps a backend-reported column type name (plus the
//! backend identity) to the canonical, backend-independent [`FieldKind`].

use vstd::prelude::*;

use crate::strutil::str_eq;

verus! {

/// The relational backend whose column type names are being normalized.
#[derive(Clone, Copy, Debug, PartialEq, Eq)]
pub enum Backend {
    Postgres,
    MySql,
}

/// Canonical classification of a database column's value type.
///
/// The unsigned integer variants are reserved: they are classified but no
/// renderer exists for them in any output format, so selecting a renderer
/// for them reports an unimplemented-feature condition. `UNKNOWN` carries
/// the unrecognized type name; it is a valid terminal classification whose
/// only legal renderer action is to report an unsupported-type condition.
#[allow(non_camel_case_types)]
#[derive(Clone, Debug, PartialEq, Eq)]
pub enum FieldKind {
    INT8,
    INT16,
    INT32,
    INT64,
    UINT8,
    UINT16,
    UINT32,
    UINT64,
    FLOAT32,
    FLOAT64,
    STR,
    BOOL,
    DECIMAL,
    DATE,
    TIME,
    DATETIME,
    DATETIMETZ,
    JSON,
    UNKNOWN(String),
}

/// Spec-level mirror of [`FieldKind`], with the unrecognized type name as a
/// character sequence.
#[allow(non_camel_case_types)]
pub enum KindV {
    INT8,
    INT16,
    INT32,
    INT64,
    UINT8,
    UINT16,
    UINT32,
    UINT64,
    FLOAT32,
    FLOAT64,
    STR,
    BOOL,
    DECIMAL,
    DATE,
    TIME,
    DATETIME,
    DATETIMETZ,
    JSON,
    UNKNOWN(Seq<char>),
}

impl View for FieldKind {
    type V = KindV;

    open spec fn view(&self) -> KindV {
        match self {
            FieldKind::INT8 => KindV::INT8,
            FieldKind::INT16 => KindV::INT16,
            FieldKind::INT32 => KindV::INT32,
            FieldKind::INT64 => KindV::INT64,
            FieldKind::UINT8 => KindV::UINT8,
            FieldKind::UINT16 => KindV::UINT16,
            FieldKind::UINT32 => KindV::UINT32,
            FieldKind::UINT64 => KindV::UINT64,
            FieldKind::FLOAT32 => KindV::FLOAT32,
            FieldKind::FLOAT64 => KindV::FLOAT64,
            FieldKind::STR => KindV::STR,
            FieldKind::BOOL => KindV::BOOL,
            FieldKind::DECIMAL => KindV::DECIMAL,
            FieldKind::DATE => KindV::DATE,
            FieldKind::TIME => KindV::TIME,
            FieldKind::DATETIME => KindV::DATETIME,
            FieldKind::DATETIMETZ => KindV::DATETIMETZ,
            FieldKind::JSON => KindV::JSON,
            FieldKind::UNKNOWN(s) => KindV::UNKNOWN(s@),
        }
    }
}

/// The shared lookup table of type-name spellings common to both backends.
/// Any name outside the table classifies to `UNKNOWN` carrying that name.
pub open spec fn common_kind(name: Seq<char>) -> KindV {
    if name == "string"@ || name == "varchar"@ || name == "tinytext"@ || name == "text"@
        || name == "mediumtext"@ || name == "longtext"@ || name == "char"@
        || name == "bpchar"@ {
        KindV::STR
    } else if name == "tinyint"@ {
        KindV::INT8
    } else if name == "int2"@ || name == "smallint"@ {
        KindV::INT16
    } else if name == "int4"@ || name == "int"@ || name == "mediumint"@ {
        KindV::INT32
    } else if name == "int8"@ || name == "bigint"@ {
        KindV::INT64
    } else if name == "tinyint unsigned"@ {
        KindV::UINT8
    } else if name == "smallint unsigned"@ {
        KindV::UINT16
    } else if name == "int unsigned"@ || name == "mediumint unsigned"@ {
        KindV::UINT32
    } else if name == "bigint unsigned"@ {
        KindV::UINT64
    } else if name == "float4"@ || name == "float"@ {
        KindV::FLOAT32
    } else if name == "float8"@ || name == "double"@ {
        KindV::FLOAT64
    } else if name == "decimal"@ || name == "numeric"@ {
        KindV::DECIMAL
    } else if name == "json"@ || name == "jsonb"@ {
        KindV::JSON
    } else if name == "bool"@ || name == "boolean"@ {
        KindV::BOOL
    } else if name == "date"@ {
        KindV::DATE
    } else if name == "time"@ {
        KindV::TIME
    } else if name == "datetime"@ {
        KindV::DATETIME
    } else if name == "timestamptz"@ {
        KindV::DATETIMETZ
    } else {
        KindV::UNKNOWN(name)
    }
}

/// The full classification: the bare name `"timestamp"` is ambiguous across
/// backends, so it is dispatched on the backend identity before falling
/// through to the shared table. Postgres reports `"timestamp"` for a
/// timezone-naive datetime; MySQL reports it for a timezone-aware one.
pub open spec fn classify_kind(name: Seq<char>, backend: Backend) -> KindV {
    if name == "timestamp"@ {
        match backend {
            Backend::Postgres => KindV::DATETIME,
            Backend::MySql => KindV::DATETIMETZ,
        }
    } else {
        common_kind(name)
    }
}

/// Looks the lower-cased type name up in the shared table.
pub fn get_common_type(name: &str) -> (r: FieldKind)
    ensures
        r@ == common_kind(name@),
{
    if str_eq(name, "string") || str_eq(name, "varchar") || str_eq(name, "tinytext")
        || str_eq(name, "text") || str_eq(name, "mediumtext") || str_eq(name, "longtext")
        || str_eq(name, "char") || str_eq(name, "bpchar") {
        FieldKind::STR
    } else if str_eq(name, "tinyint") {
        FieldKind::INT8
    } else if str_eq(name, "int2") || str_eq(name, "smallint") {
        FieldKind::INT16
    } else if str_eq(name, "int4") || str_eq(name, "int") || str_eq(name, "mediumint") {
        FieldKind::INT32
    } else if str_eq(name, "int8") || str_eq(name, "bigint") {
        FieldKind::INT64
    } else if str_eq(name, "tinyint unsigned") {
        FieldKind::UINT8
    } else if str_eq(name, "smallint unsigned") {
        FieldKind::UINT16
    } else if str_eq(name, "int unsigned") || str_eq(name, "mediumint unsigned") {
        FieldKind::UINT32
    } else if str_eq(name, "bigint unsigned") {
        FieldKind::UINT64
    } else if str_eq(name, "float4") || str_eq(name, "float") {
        FieldKind::FLOAT32
    } else if str_eq(name, "float8") || str_eq(name, "double") {
        FieldKind::FLOAT64
    } else if str_eq(name, "decimal") || str_eq(name, "numeric") {
        FieldKind::DECIMAL
    } else if str_eq(name, "json") || str_eq(name, "jsonb") {
        FieldKind::JSON
    } else if str_eq(name, "bool") || str_eq(name, "boolean") {
        FieldKind::BOOL
    } else if str_eq(name, "date") {
        FieldKind::DATE
    } else if str_eq(name, "time") {
        FieldKind::TIME
    } else if str_eq(name, "datetime") {
        FieldKind::DATETIME
    } else if str_eq(name, "timestamptz") {
        FieldKind::DATETIMETZ
    } else {
        FieldKind::UNKNOWN(name.to_owned())
    }
}

/// Classifies the lower-cased backend type name `name` under `backend`.
pub fn classify(name: &str, backend: Backend) -> (r: FieldKind)
    ensures
        r@ == classify_kind(name@, backend),
{
    if str_eq(name, "timestamp") {
        match backend {
            Backend::Postgres => FieldKind::DATETIME,
            Backend::MySql => FieldKind::DATETIMETZ,
        }
    } else {
        get_common_type(name)
    }
}

/// One column of a result set: its name and its canonical kind. Built once
/// per result set from the backend's column metadata, immutable afterwards.
#[derive(Clone, Debug)]
pub struct Field {
    pub name: String,
    pub kind: FieldKind,
}

/// Spec-level mirror of [`Field`].
pub struct FieldV {
    pub name: Seq<char>,
    pub kind: KindV,
}

impl View for Field {
    type V = FieldV;

    open spec fn view(&self) -> FieldV {
        FieldV { name: self.name@, kind: self.kind@ }
    }
}

impl Field {
    /// Builds the column description for one piece of backend column
    /// metadata: the column's name and its lower-cased reported type name.
    pub fn from_column(name: &str, ty: &str, backend: Backend) -> (r: Field)
        ensures
            r@.name == name@,
            r@.kind == classify_kind(ty@, backend),
    {
        Field { name: name.to_owned(), kind: classify(ty, backend) }
    }
}

} // verus!
