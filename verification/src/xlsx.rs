//! The spreadsheet writer: renders a result set as a sequence of typed,
//! positioned write operations against one sheet — bolded header cells at
//! row zero, data rows offset by one, a filter region spanning the full
//! data extent, auto-sized columns and a frozen header row. The operation
//! sequence is what the destination sink consumes; numbers travel as their
//! numeric token, temporal cells as plain calendar/clock fields, so the
//! sink can write natively typed, display-formatted cells.
//!
//! A decimal value is written as a number through its floating-point
//! token; a decimal that has none is fatal to the whole export, exactly as
//! in the structured-document writer. A 64-bit integer is written as a
//! floating-point number; the precision loss on large magnitudes is
//! accepted, not corrected.

use vstd::prelude::*;
use vstd::string::*;

use crate::fields::{Field, FieldKind, FieldV, KindV};
use crate::json::{dec_cell_bad, first_bad_dec, first_bad_in_row, NumError};
use crate::report::{
    diags_of, lemma_diags_of_take, missing_conv_error, missing_error, ConvError,
    Diag, DiagV,
};
use crate::strutil::{dec_int, i64_to_dec};
use crate::value::{
    value_matches_kind, Date, DateTime, DateV, DateTimeV, NumTextV, ResultSet, ResultSetV, Time,
    TimeV, Value, ValueV,
};

verus! {

/// The display-format palette of the spreadsheet writer, constructed once
/// per export and shared read-only across all cell writes.
#[derive(Clone, Copy, Debug, PartialEq, Eq)]
pub enum XF {
    Bold,
    Int,
    Eur,
    Date,
    Time,
    Stamp,
}

/// The number-format pattern of one palette entry; the bold entry is a
/// font style, not a number format, so its pattern is empty.
pub open spec fn xf_pattern(x: XF) -> Seq<char> {
    match x {
        XF::Bold => ""@,
        XF::Int => "#,##0"@,
        XF::Eur => "#,##0.00"@,
        XF::Date => "dd/mm/yyyy"@,
        XF::Time => "hh:mm"@,
        XF::Stamp => "dd/mm/yyyy hh:mm:ss"@,
    }
}

impl XF {
    /// The number-format pattern this palette entry carries.
    pub fn pattern(&self) -> (r: &'static str)
        ensures
            r@ == xf_pattern(*self),
    {
        match self {
            XF::Bold => "",
            XF::Int => "#,##0",
            XF::Eur => "#,##0.00",
            XF::Date => "dd/mm/yyyy",
            XF::Time => "hh:mm",
            XF::Stamp => "dd/mm/yyyy hh:mm:ss",
        }
    }
}

/// One typed write operation against the sheet. `row`/`col` are sheet
/// positions (the header occupies row zero). A `NumberCell` carries its
/// value as a numeric token for the sink to parse, and the palette entry
/// giving its display format; temporal cells carry their calendar/clock
/// fields and imply their palette entry.
#[derive(Clone, Debug, PartialEq, Eq)]
pub enum XlsxOp {
    FreezeHeader,
    HeaderText { row: u32, col: u16, text: String },
    NumberCell { row: u32, col: u16, num: String, fmt: XF },
    TextCell { row: u32, col: u16, text: String },
    BoolCell { row: u32, col: u16, b: bool },
    DateCell { row: u32, col: u16, date: Date },
    TimeCell { row: u32, col: u16, time: Time },
    StampCell { row: u32, col: u16, stamp: DateTime },
    Autofilter { last_row: u32, last_col: u16 },
    Autofit,
}

/// Spec-level mirror of [`XlsxOp`].
pub enum XlsxOpV {
    FreezeHeader,
    HeaderText { row: int, col: int, text: Seq<char> },
    NumberCell { row: int, col: int, num: Seq<char>, fmt: XF },
    TextCell { row: int, col: int, text: Seq<char> },
    BoolCell { row: int, col: int, b: bool },
    DateCell { row: int, col: int, date: DateV },
    TimeCell { row: int, col: int, time: TimeV },
    StampCell { row: int, col: int, stamp: DateTimeV },
    Autofilter { last_row: int, last_col: int },
    Autofit,
}

impl View for XlsxOp {
    type V = XlsxOpV;

    open spec fn view(&self) -> XlsxOpV {
        match self {
            XlsxOp::FreezeHeader => XlsxOpV::FreezeHeader,
            XlsxOp::HeaderText { row, col, text } => XlsxOpV::HeaderText {
                row: *row as int,
                col: *col as int,
                text: text@,
            },
            XlsxOp::NumberCell { row, col, num, fmt } => XlsxOpV::NumberCell {
                row: *row as int,
                col: *col as int,
                num: num@,
                fmt: *fmt,
            },
            XlsxOp::TextCell { row, col, text } => XlsxOpV::TextCell {
                row: *row as int,
                col: *col as int,
                text: text@,
            },
            XlsxOp::BoolCell { row, col, b } => XlsxOpV::BoolCell {
                row: *row as int,
                col: *col as int,
                b: *b,
            },
            XlsxOp::DateCell { row, col, date } => XlsxOpV::DateCell {
                row: *row as int,
                col: *col as int,
                date: date@,
            },
            XlsxOp::TimeCell { row, col, time } => XlsxOpV::TimeCell {
                row: *row as int,
                col: *col as int,
                time: time@,
            },
            XlsxOp::StampCell { row, col, stamp } => XlsxOpV::StampCell {
                row: *row as int,
                col: *col as int,
                stamp: stamp@,
            },
            XlsxOp::Autofilter { last_row, last_col } => XlsxOpV::Autofilter {
                last_row: *last_row as int,
                last_col: *last_col as int,
            },
            XlsxOp::Autofit => XlsxOpV::Autofit,
        }
    }
}

/// The renderer bound to one column for the lifetime of one export.
#[derive(Clone, Copy, Debug, PartialEq, Eq)]
pub enum XlsxConv {
    I8,
    I16,
    I32,
    I64,
    F32,
    F64,
    Str,
    Bool,
    Dec,
    Date,
    Time,
    DateTime,
    DateTimeTz,
    Json,
}

/// The renderer the spreadsheet format selects for a column kind: `None`
/// exactly for the kinds without a renderer.
pub open spec fn xlsx_conv_of(k: KindV) -> Option<XlsxConv> {
    match k {
        KindV::INT8 => Some(XlsxConv::I8),
        KindV::INT16 => Some(XlsxConv::I16),
        KindV::INT32 => Some(XlsxConv::I32),
        KindV::INT64 => Some(XlsxConv::I64),
        KindV::UINT8 => None,
        KindV::UINT16 => None,
        KindV::UINT32 => None,
        KindV::UINT64 => None,
        KindV::FLOAT32 => Some(XlsxConv::F32),
        KindV::FLOAT64 => Some(XlsxConv::F64),
        KindV::STR => Some(XlsxConv::Str),
        KindV::BOOL => Some(XlsxConv::Bool),
        KindV::DECIMAL => Some(XlsxConv::Dec),
        KindV::DATE => Some(XlsxConv::Date),
        KindV::TIME => Some(XlsxConv::Time),
        KindV::DATETIME => Some(XlsxConv::DateTime),
        KindV::DATETIMETZ => Some(XlsxConv::DateTimeTz),
        KindV::JSON => Some(XlsxConv::Json),
        KindV::UNKNOWN(_) => None,
    }
}

/// Whether a raw value has the shape the renderer `c` reads.
pub open spec fn conv_matches(c: XlsxConv, v: ValueV) -> bool {
    match c {
        XlsxConv::I8 => v is I8,
        XlsxConv::I16 => v is I16,
        XlsxConv::I32 => v is I32,
        XlsxConv::I64 => v is I64,
        XlsxConv::F32 => v is F32,
        XlsxConv::F64 => v is F64,
        XlsxConv::Str => v is Str,
        XlsxConv::Bool => v is Bool,
        XlsxConv::Dec => v is Dec,
        XlsxConv::Date => v is Date,
        XlsxConv::Time => v is Time,
        XlsxConv::DateTime => v is DateTime,
        XlsxConv::DateTimeTz => v is DateTimeTz,
        XlsxConv::Json => v is Json,
    }
}

/// The numeric token a floating-point cell is written with: its
/// floating-point token where one exists, else its decimal text.
pub open spec fn float_token(n: NumTextV) -> Seq<char> {
    match n.num {
        Some(t) => t,
        None => n.text,
    }
}

/// The write operation the renderer `c` produces at sheet position
/// (`row`, `col`) for the value `v`: integers and floating-point values as
/// numbers with the integer or two-decimal display format, strings and
/// stringified JSON as plain text, booleans as raw booleans, temporal
/// values as typed cells with their display formats, a timezone-aware
/// datetime by its local wall-clock value. A null temporal value — and a
/// decimal without a floating-point token, which the writer reports as
/// fatal before rendering — produces no operation: the cell is omitted.
pub open spec fn cell_op(c: XlsxConv, row: int, col: int, v: ValueV) -> Option<XlsxOpV> {
    match (c, v) {
        (XlsxConv::I8, ValueV::I8(x)) => Some(
            XlsxOpV::NumberCell { row, col, num: dec_int(x), fmt: XF::Int },
        ),
        (XlsxConv::I16, ValueV::I16(x)) => Some(
            XlsxOpV::NumberCell { row, col, num: dec_int(x), fmt: XF::Int },
        ),
        (XlsxConv::I32, ValueV::I32(x)) => Some(
            XlsxOpV::NumberCell { row, col, num: dec_int(x), fmt: XF::Int },
        ),
        (XlsxConv::I64, ValueV::I64(x)) => Some(
            XlsxOpV::NumberCell { row, col, num: dec_int(x), fmt: XF::Int },
        ),
        (XlsxConv::F32, ValueV::F32(n)) => Some(
            XlsxOpV::NumberCell { row, col, num: float_token(n), fmt: XF::Eur },
        ),
        (XlsxConv::F64, ValueV::F64(n)) => Some(
            XlsxOpV::NumberCell { row, col, num: float_token(n), fmt: XF::Eur },
        ),
        (XlsxConv::Str, ValueV::Str(s)) => Some(XlsxOpV::TextCell { row, col, text: s }),
        (XlsxConv::Bool, ValueV::Bool(b)) => Some(XlsxOpV::BoolCell { row, col, b }),
        (XlsxConv::Dec, ValueV::Dec(n)) => match n.num {
            Some(t) => Some(XlsxOpV::NumberCell { row, col, num: t, fmt: XF::Eur }),
            None => None,
        },
        (XlsxConv::Date, ValueV::Date(d)) => match d {
            Some(d) => Some(XlsxOpV::DateCell { row, col, date: d }),
            None => None,
        },
        (XlsxConv::Time, ValueV::Time(t)) => match t {
            Some(t) => Some(XlsxOpV::TimeCell { row, col, time: t }),
            None => None,
        },
        (XlsxConv::DateTime, ValueV::DateTime(dt)) => match dt {
            Some(dt) => Some(XlsxOpV::StampCell { row, col, stamp: dt }),
            None => None,
        },
        (XlsxConv::DateTimeTz, ValueV::DateTimeTz(dt)) => match dt {
            Some(dt) => Some(XlsxOpV::StampCell { row, col, stamp: dt.local }),
            None => None,
        },
        (XlsxConv::Json, ValueV::Json(s)) => Some(XlsxOpV::TextCell { row, col, text: s }),
        _ => None,
    }
}

/// The operation for a value of kind `k`: what the selected renderer
/// produces, or nothing where the kind has no renderer (the no-op
/// placeholder: the column's header still stands, its cells are omitted).
pub open spec fn xlsx_cell(k: KindV, row: int, col: int, v: ValueV) -> Option<XlsxOpV> {
    match xlsx_conv_of(k) {
        Some(c) => cell_op(c, row, col, v),
        None => None,
    }
}

/// An optional operation as a sequence: empty where there is none.
pub open spec fn opt_to_seq(o: Option<XlsxOpV>) -> Seq<XlsxOpV> {
    match o {
        Some(op) => seq![op],
        None => Seq::empty(),
    }
}

/// The bolded header writes for the first `j` columns, at row zero.
pub open spec fn header_ops(cols: Seq<FieldV>, j: int) -> Seq<XlsxOpV>
    decreases j,
{
    if j <= 0 {
        Seq::empty()
    } else {
        header_ops(cols, j - 1) + seq![
            XlsxOpV::HeaderText { row: 0, col: j - 1, text: cols[j - 1].name },
        ]
    }
}

/// The cell writes of one data row at sheet row `sheet_row`, for the first
/// `j` columns, omitted cells skipped.
pub open spec fn row_ops(cols: Seq<FieldV>, row: Seq<ValueV>, sheet_row: int, j: int) -> Seq<
    XlsxOpV,
>
    decreases j,
{
    if j <= 0 {
        Seq::empty()
    } else {
        row_ops(cols, row, sheet_row, j - 1) + opt_to_seq(
            xlsx_cell(cols[j - 1].kind, sheet_row, j - 1, row[j - 1]),
        )
    }
}

/// The cell writes of the first `i` data rows; data row `i` sits at sheet
/// row `i + 1`, below the header.
pub open spec fn data_ops(cols: Seq<FieldV>, rows: Seq<Seq<ValueV>>, i: int) -> Seq<XlsxOpV>
    decreases i,
{
    if i <= 0 {
        Seq::empty()
    } else {
        data_ops(cols, rows, i - 1) + row_ops(cols, rows[i - 1], i, cols.len() as int)
    }
}

/// The whole export: freeze the header row, write every bolded header
/// cell, write every data cell, then the filter region over the full data
/// extent and the column auto-fit. An empty result set produces no
/// operations: nothing is ever persisted for it.
pub open spec fn xlsx_ops(rs: ResultSetV) -> Seq<XlsxOpV> {
    if rs.rows.len() == 0 {
        Seq::empty()
    } else {
        seq![XlsxOpV::FreezeHeader] + header_ops(rs.columns, rs.columns.len() as int) + data_ops(
            rs.columns,
            rs.rows,
            rs.rows.len() as int,
        ) + seq![
            XlsxOpV::Autofilter {
                last_row: rs.rows.len() as int,
                last_col: rs.columns.len() as int - 1,
            },
            XlsxOpV::Autofit,
        ]
    }
}

/// A renderer selected for a kind reads exactly the value shape that kind
/// stores.
proof fn lemma_conv_matches(k: KindV, c: XlsxConv, v: ValueV)
    requires
        xlsx_conv_of(k) == Some(c),
        value_matches_kind(v, k),
    ensures
        conv_matches(c, v),
{
}

impl XlsxConv {
    /// Renders one cell of the bound column into its write operation, or
    /// nothing where the cell is omitted.
    pub fn apply(&self, row: u32, col: u16, v: &Value) -> (r: Option<XlsxOp>)
        requires
            conv_matches(*self, v@),
        ensures
            match r {
                Some(op) => cell_op(*self, row as int, col as int, v@) == Some(op@),
                None => cell_op(*self, row as int, col as int, v@) is None,
            },
    {
        match (self, v) {
            (XlsxConv::I8, Value::I8(x)) => Some(
                XlsxOp::NumberCell { row, col, num: i64_to_dec(*x as i64), fmt: XF::Int },
            ),
            (XlsxConv::I16, Value::I16(x)) => Some(
                XlsxOp::NumberCell { row, col, num: i64_to_dec(*x as i64), fmt: XF::Int },
            ),
            (XlsxConv::I32, Value::I32(x)) => Some(
                XlsxOp::NumberCell { row, col, num: i64_to_dec(*x as i64), fmt: XF::Int },
            ),
            (XlsxConv::I64, Value::I64(x)) => Some(
                XlsxOp::NumberCell { row, col, num: i64_to_dec(*x), fmt: XF::Int },
            ),
            (XlsxConv::F32, Value::F32(n)) => {
                let num = match &n.num {
                    Some(t) => t.clone(),
                    None => n.text.clone(),
                };
                Some(XlsxOp::NumberCell { row, col, num, fmt: XF::Eur })
            },
            (XlsxConv::F64, Value::F64(n)) => {
                let num = match &n.num {
                    Some(t) => t.clone(),
                    None => n.text.clone(),
                };
                Some(XlsxOp::NumberCell { row, col, num, fmt: XF::Eur })
            },
            (XlsxConv::Str, Value::Str(s)) => Some(
                XlsxOp::TextCell { row, col, text: s.clone() },
            ),
            (XlsxConv::Bool, Value::Bool(b)) => Some(XlsxOp::BoolCell { row, col, b: *b }),
            (XlsxConv::Dec, Value::Dec(n)) => match &n.num {
                Some(t) => Some(XlsxOp::NumberCell { row, col, num: t.clone(), fmt: XF::Eur }),
                None => None,
            },
            (XlsxConv::Date, Value::Date(d)) => match d {
                Some(d) => Some(XlsxOp::DateCell { row, col, date: *d }),
                None => None,
            },
            (XlsxConv::Time, Value::Time(t)) => match t {
                Some(t) => Some(XlsxOp::TimeCell { row, col, time: *t }),
                None => None,
            },
            (XlsxConv::DateTime, Value::DateTime(dt)) => match dt {
                Some(dt) => Some(XlsxOp::StampCell { row, col, stamp: *dt }),
                None => None,
            },
            (XlsxConv::DateTimeTz, Value::DateTimeTz(dt)) => match dt {
                Some(dt) => Some(XlsxOp::StampCell { row, col, stamp: dt.local }),
                None => None,
            },
            (XlsxConv::Json, Value::Json(s)) => Some(
                XlsxOp::TextCell { row, col, text: s.clone() },
            ),
            _ => unreached(),
        }
    }
}

/// The spreadsheet writer.
pub struct XLSX;

impl XLSX {
    /// Selects the spreadsheet renderer for one column, or reports the
    /// unsupported-type condition where the column's kind has none.
    pub fn convert(field: &Field) -> (r: Result<XlsxConv, ConvError>)
        ensures
            match r {
                Ok(c) => xlsx_conv_of(field@.kind) == Some(c),
                Err(e) => xlsx_conv_of(field@.kind) is None && e@ == missing_error(field@.kind),
            },
    {
        match &field.kind {
            FieldKind::INT8 => Ok(XlsxConv::I8),
            FieldKind::INT16 => Ok(XlsxConv::I16),
            FieldKind::INT32 => Ok(XlsxConv::I32),
            FieldKind::INT64 => Ok(XlsxConv::I64),
            FieldKind::FLOAT32 => Ok(XlsxConv::F32),
            FieldKind::FLOAT64 => Ok(XlsxConv::F64),
            FieldKind::STR => Ok(XlsxConv::Str),
            FieldKind::BOOL => Ok(XlsxConv::Bool),
            FieldKind::DECIMAL => Ok(XlsxConv::Dec),
            FieldKind::DATE => Ok(XlsxConv::Date),
            FieldKind::TIME => Ok(XlsxConv::Time),
            FieldKind::DATETIME => Ok(XlsxConv::DateTime),
            FieldKind::DATETIMETZ => Ok(XlsxConv::DateTimeTz),
            FieldKind::JSON => Ok(XlsxConv::Json),
            _ => Err(missing_conv_error(field)),
        }
    }

    /// Renders the whole result set as its sequence of write operations:
    /// freeze the header row, one bolded header write per column in column
    /// order, every cell write in row-major order with null temporal cells
    /// omitted, then the filter region and the auto-fit. An empty result
    /// set produces no operations and no reported conditions. Alongside the
    /// operations it returns one unsupported-type condition per column
    /// without a renderer, in column order; such a column keeps its header
    /// and gets no cell writes. The export fails, producing no operations,
    /// exactly when some `DECIMAL` cell has no floating-point
    /// representation; the reported condition names the first such cell in
    /// row-major order and its column.
    pub fn write(rs: &ResultSet) -> (r: Result<(Vec<XlsxOp>, Vec<Diag>), NumError>)
        requires
            rs@.wf(),
            rs@.rows.len() <= 0xFFFF_FFFF,
            rs@.columns.len() <= 0x1_0000,
            rs@.rows.len() > 0 ==> rs@.columns.len() > 0,
        ensures
            match r {
                Ok(p) => first_bad_dec(rs@.columns, rs@.rows, 0) is None && p.0@.map_values(
                    |op: XlsxOp| op@,
                ) == xlsx_ops(rs@) && p.1@.map_values(|d: Diag| d@) == if rs@.rows.len() == 0 {
                    Seq::<DiagV>::empty()
                } else {
                    diags_of(rs@.columns)
                },
                Err(e) => first_bad_dec(rs@.columns, rs@.rows, 0) == Some(
                    (e.row as int, e.col as int),
                ) && e.column@ == rs@.columns[e.col as int].name,
            },
    {
        let mut ops: Vec<XlsxOp> = Vec::new();
        let mut diags: Vec<Diag> = Vec::new();
        if rs.rows.len() == 0 {
            proof {
                assert(ops@.map_values(|op: XlsxOp| op@) =~= xlsx_ops(rs@));
                assert(diags@.map_values(|d: Diag| d@) =~= Seq::<DiagV>::empty());
            }
            return Ok((ops, diags));
        }
        let ncols = rs.columns.len();
        let nrows = rs.rows.len();

        // Bind one renderer per column, reporting the columns that have none.
        let mut convs: Vec<Option<XlsxConv>> = Vec::new();
        let mut j: usize = 0;
        while j < ncols
            invariant
                j <= ncols,
                ncols == rs@.columns.len(),
                convs@.len() == j,
                forall|i: int|
                    0 <= i < j ==> #[trigger] convs@[i] == xlsx_conv_of(rs@.columns[i].kind),
                diags@.map_values(|d: Diag| d@) == diags_of(rs@.columns.take(j as int)),
            decreases ncols - j,
        {
            match XLSX::convert(&rs.columns[j]) {
                Ok(c) => {
                    convs.push(Some(c));
                },
                Err(e) => {
                    diags.push(Diag { column: rs.columns[j].name.clone(), error: e });
                    convs.push(None);
                },
            }
            proof {
                lemma_diags_of_take(rs@.columns, j as int);
                assert(diags@.map_values(|d: Diag| d@) =~= diags_of(
                    rs@.columns.take(j as int + 1),
                ));
            }
            j = j + 1;
        }
        proof {
            assert(rs@.columns.take(ncols as int) =~= rs@.columns);
        }

        // Freeze the header row, then write the bolded header cells.
        ops.push(XlsxOp::FreezeHeader);
        let mut j: usize = 0;
        while j < ncols
            invariant
                j <= ncols,
                ncols == rs@.columns.len(),
                ncols <= 0x1_0000,
                ops@.map_values(|op: XlsxOp| op@) == seq![XlsxOpV::FreezeHeader] + header_ops(
                    rs@.columns,
                    j as int,
                ),
            decreases ncols - j,
        {
            let op = XlsxOp::HeaderText { row: 0, col: j as u16, text: rs.columns[j].name.clone() };
            proof {
                assert(op@ == XlsxOpV::HeaderText {
                    row: 0,
                    col: j as int,
                    text: rs@.columns[j as int].name,
                });
            }
            let ghost before = ops@.map_values(|op: XlsxOp| op@);
            ops.push(op);
            proof {
                assert(ops@.map_values(|op: XlsxOp| op@) =~= before.push(op@));
                assert(header_ops(rs@.columns, j as int + 1) == header_ops(rs@.columns, j as int)
                    + seq![op@]);
                assert(ops@.map_values(|op: XlsxOp| op@) =~= seq![XlsxOpV::FreezeHeader]
                    + header_ops(rs@.columns, j as int + 1));
            }
            j = j + 1;
        }

        // Write every data cell, row-major, one sheet row below its data row.
        let ghost base = seq![XlsxOpV::FreezeHeader] + header_ops(rs@.columns, ncols as int);
        let mut r: usize = 0;
        while r < nrows
            invariant
                r <= nrows,
                rs@.wf(),
                ncols == rs@.columns.len(),
                nrows == rs@.rows.len(),
                ncols <= 0x1_0000,
                nrows <= 0xFFFF_FFFF,
                convs@.len() == ncols,
                forall|i: int|
                    0 <= i < ncols ==> #[trigger] convs@[i] == xlsx_conv_of(rs@.columns[i].kind),
                base == seq![XlsxOpV::FreezeHeader] + header_ops(rs@.columns, ncols as int),
                ops@.map_values(|op: XlsxOp| op@) == base + data_ops(
                    rs@.columns,
                    rs@.rows,
                    r as int,
                ),
                first_bad_dec(rs@.columns, rs@.rows, 0) == first_bad_dec(
                    rs@.columns,
                    rs@.rows,
                    r as int,
                ),
            decreases nrows - r,
        {
            let mut j: usize = 0;
            while j < ncols
                invariant
                    j <= ncols,
                    r < nrows,
                    rs@.wf(),
                    ncols == rs@.columns.len(),
                    nrows == rs@.rows.len(),
                    ncols <= 0x1_0000,
                    nrows <= 0xFFFF_FFFF,
                    convs@.len() == ncols,
                    forall|i: int|
                        0 <= i < ncols ==> #[trigger] convs@[i] == xlsx_conv_of(
                            rs@.columns[i].kind,
                        ),
                    ops@.map_values(|op: XlsxOp| op@) == base + data_ops(
                        rs@.columns,
                        rs@.rows,
                        r as int,
                    ) + row_ops(rs@.columns, rs@.rows[r as int], r as int + 1, j as int),
                    first_bad_in_row(rs@.columns, rs@.rows[r as int], 0) == first_bad_in_row(
                        rs@.columns,
                        rs@.rows[r as int],
                        j as int,
                    ),
                    first_bad_dec(rs@.columns, rs@.rows, 0) == first_bad_dec(
                        rs@.columns,
                        rs@.rows,
                        r as int,
                    ),
                decreases ncols - j,
            {
                proof {
                    assert(rs@.rows[r as int].len() == rs@.columns.len());
                    assert(value_matches_kind(
                        rs@.rows[r as int][j as int],
                        rs@.columns[j as int].kind,
                    ));
                }
                let bad = match (convs[j], &rs.rows[r][j]) {
                    (Some(XlsxConv::Dec), Value::Dec(n)) => n.num.is_none(),
                    _ => false,
                };
                proof {
                    assert(bad == dec_cell_bad(
                        rs@.columns[j as int].kind,
                        rs@.rows[r as int][j as int],
                    ));
                }
                if bad {
                    proof {
                        assert(first_bad_in_row(rs@.columns, rs@.rows[r as int], j as int)
                            == Some(j as int));
                        assert(first_bad_dec(rs@.columns, rs@.rows, r as int) == Some(
                            (r as int, j as int),
                        ));
                    }
                    return Err(NumError { row: r, col: j, column: rs.columns[j].name.clone() });
                }
                let ghost before = ops@.map_values(|op: XlsxOp| op@);
                let ghost piece = xlsx_cell(
                    rs@.columns[j as int].kind,
                    r as int + 1,
                    j as int,
                    rs@.rows[r as int][j as int],
                );
                match convs[j] {
                    Some(c) => {
                        proof {
                            lemma_conv_matches(
                                rs@.columns[j as int].kind,
                                c,
                                rs@.rows[r as int][j as int],
                            );
                        }
                        match c.apply((r + 1) as u32, j as u16, &rs.rows[r][j]) {
                            Some(op) => {
                                proof {
                                    assert(piece == Some(op@));
                                }
                                ops.push(op);
                            },
                            None => (),
                        }
                    },
                    None => (),
                }
                proof {
                    assert(ops@.map_values(|op: XlsxOp| op@) =~= before + opt_to_seq(piece));
                    assert(ops@.map_values(|op: XlsxOp| op@) =~= base + data_ops(
                        rs@.columns,
                        rs@.rows,
                        r as int,
                    ) + row_ops(rs@.columns, rs@.rows[r as int], r as int + 1, j as int + 1));
                }
                j = j + 1;
            }
            proof {
                assert(ops@.map_values(|op: XlsxOp| op@) =~= base + data_ops(
                    rs@.columns,
                    rs@.rows,
                    r as int + 1,
                ));
            }
            r = r + 1;
        }

        // The filter region over the full data extent, and the auto-fit.
        ops.push(XlsxOp::Autofilter { last_row: nrows as u32, last_col: (ncols - 1) as u16 });
        ops.push(XlsxOp::Autofit);
        proof {
            assert(ops@.map_values(|op: XlsxOp| op@) =~= xlsx_ops(rs@));
        }
        Ok((ops, diags))
    }
}

} // verus!
