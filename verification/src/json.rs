//! The structured-document writer: renders a result set as a JSON-style
//! document, one object per row, keys in column order.
//!
//! The document opens with an array delimiter, emits one object per row,
//! and closes the array — but a `,` separator follows every object,
//! including the last. With at least one row the output is therefore not
//! valid self-describing array syntax; this trailing-separator artifact is
//! kept deliberately: consumers of this wire format expect it byte for byte.
//!
//! A decimal value is rendered as a number through its floating-point
//! token; a decimal that has none (it cannot be represented as floating
//! point) is fatal to the whole export: the writer reports the first such
//! cell in row-major order and produces no document.

use vstd::prelude::*;
use vstd::string::*;

use crate::fields::{Field, FieldKind, FieldV, KindV};
use crate::report::{
    diags_of, lemma_diags_of_take, missing_conv_error, missing_error, ConvError,
    Diag, DiagV,
};
use crate::strutil::{dec_int, digit_char, i64_to_dec, push_char};
use crate::value::{
    date_chars, datetime_chars, datetimetz_chars, time_chars, value_matches_kind, ResultSet,
    ResultSetV, Value, ValueV,
};

verus! {

/// The character for a hexadecimal digit below sixteen, lower case.
pub open spec fn hex_char(d: int) -> char {
    if d < 10 {
        digit_char(d)
    } else if d == 10 {
        'a'
    } else if d == 11 {
        'b'
    } else if d == 12 {
        'c'
    } else if d == 13 {
        'd'
    } else if d == 14 {
        'e'
    } else {
        'f'
    }
}

/// The escape of one character inside a JSON string literal: quote and
/// backslash are escaped, the common control characters get their short
/// escapes, any other control character a `\u00..` escape, and everything
/// else stands as itself.
pub open spec fn esc_char(c: char) -> Seq<char> {
    if c == '"' {
        seq!['\\', '"']
    } else if c == '\\' {
        seq!['\\', '\\']
    } else if c == '\u{8}' {
        seq!['\\', 'b']
    } else if c == '\t' {
        seq!['\\', 't']
    } else if c == '\n' {
        seq!['\\', 'n']
    } else if c == '\u{c}' {
        seq!['\\', 'f']
    } else if c == '\r' {
        seq!['\\', 'r']
    } else if (c as u32) < 32 {
        seq!['\\', 'u', '0', '0', hex_char((c as u32) as int / 16), hex_char(
            (c as u32) as int % 16,
        )]
    } else {
        seq![c]
    }
}

/// A whole character sequence escaped for a JSON string literal.
pub open spec fn esc(s: Seq<char>) -> Seq<char>
    decreases s.len(),
{
    if s.len() == 0 {
        Seq::empty()
    } else {
        esc(s.drop_last()) + esc_char(s.last())
    }
}

/// The character for a hexadecimal digit below sixteen, lower case.
fn hex_of(d: u8) -> (c: char)
    requires
        d < 16,
    ensures
        c == hex_char(d as int),
{
    if d == 0 {
        '0'
    } else if d == 1 {
        '1'
    } else if d == 2 {
        '2'
    } else if d == 3 {
        '3'
    } else if d == 4 {
        '4'
    } else if d == 5 {
        '5'
    } else if d == 6 {
        '6'
    } else if d == 7 {
        '7'
    } else if d == 8 {
        '8'
    } else if d == 9 {
        '9'
    } else if d == 10 {
        'a'
    } else if d == 11 {
        'b'
    } else if d == 12 {
        'c'
    } else if d == 13 {
        'd'
    } else if d == 14 {
        'e'
    } else {
        'f'
    }
}

/// Escapes a string for inclusion in a JSON string literal.
pub fn escape_json(s: &str) -> (r: String)
    ensures
        r@ == esc(s@),
{
    let n = s.unicode_len();
    let mut out = String::new();
    let mut i: usize = 0;
    while i < n
        invariant
            i <= n,
            n == s@.len(),
            out@ == esc(s@.take(i as int)),
        decreases n - i,
    {
        let c = s.get_char(i);
        if c == '"' {
            push_char(&mut out, '\\');
            push_char(&mut out, '"');
        } else if c == '\\' {
            push_char(&mut out, '\\');
            push_char(&mut out, '\\');
        } else if c == '\u{8}' {
            push_char(&mut out, '\\');
            push_char(&mut out, 'b');
        } else if c == '\t' {
            push_char(&mut out, '\\');
            push_char(&mut out, 't');
        } else if c == '\n' {
            push_char(&mut out, '\\');
            push_char(&mut out, 'n');
        } else if c == '\u{c}' {
            push_char(&mut out, '\\');
            push_char(&mut out, 'f');
        } else if c == '\r' {
            push_char(&mut out, '\\');
            push_char(&mut out, 'r');
        } else if (c as u32) < 32 {
            let x = c as u32;
            push_char(&mut out, '\\');
            push_char(&mut out, 'u');
            push_char(&mut out, '0');
            push_char(&mut out, '0');
            push_char(&mut out, hex_of((x / 16) as u8));
            push_char(&mut out, hex_of((x % 16) as u8));
        } else {
            push_char(&mut out, c);
        }
        proof {
            assert(s@.take(i as int + 1).drop_last() =~= s@.take(i as int));
            assert(s@.take(i as int + 1).last() == s@[i as int]);
            assert(out@ =~= esc(s@.take(i as int + 1)));
        }
        i = i + 1;
    }
    proof {
        assert(s@.take(n as int) =~= s@);
    }
    out
}

/// One rendered cell of the structured document: a tagged JSON value.
/// `Num` carries a ready numeric token, `Raw` a cell passed through as
/// already-serialized JSON text.
#[derive(Clone, Debug, PartialEq, Eq)]
pub enum JsonCell {
    Null,
    Bool(bool),
    Num(String),
    Str(String),
    Raw(String),
}

/// Spec-level mirror of [`JsonCell`].
pub enum JsonCellV {
    Null,
    Bool(bool),
    Num(Seq<char>),
    Str(Seq<char>),
    Raw(Seq<char>),
}

impl View for JsonCell {
    type V = JsonCellV;

    open spec fn view(&self) -> JsonCellV {
        match self {
            JsonCell::Null => JsonCellV::Null,
            JsonCell::Bool(b) => JsonCellV::Bool(*b),
            JsonCell::Num(s) => JsonCellV::Num(s@),
            JsonCell::Str(s) => JsonCellV::Str(s@),
            JsonCell::Raw(s) => JsonCellV::Raw(s@),
        }
    }
}

/// The serialized text of one cell: `null`, a boolean word, a numeric
/// token, an escaped and quoted string, or raw passthrough text.
pub open spec fn cell_chars(c: JsonCellV) -> Seq<char> {
    match c {
        JsonCellV::Null => "null"@,
        JsonCellV::Bool(b) => if b {
            "true"@
        } else {
            "false"@
        },
        JsonCellV::Num(s) => s,
        JsonCellV::Str(s) => seq!['"'] + esc(s) + seq!['"'],
        JsonCellV::Raw(s) => s,
    }
}

impl JsonCell {
    /// Serializes this cell.
    pub fn render(&self) -> (r: String)
        ensures
            r@ == cell_chars(self@),
    {
        match self {
            JsonCell::Null => String::from_str("null"),
            JsonCell::Bool(b) => if *b {
                String::from_str("true")
            } else {
                String::from_str("false")
            },
            JsonCell::Num(s) => s.clone(),
            JsonCell::Str(s) => {
                let mut out = String::new();
                push_char(&mut out, '"');
                let escaped = escape_json(s.as_str());
                out.append(escaped.as_str());
                push_char(&mut out, '"');
                proof {
                    assert(out@ =~= cell_chars(self@));
                }
                out
            },
            JsonCell::Raw(s) => s.clone(),
        }
    }
}

/// The renderer bound to one column for the lifetime of one export.
#[derive(Clone, Copy, Debug, PartialEq, Eq)]
pub enum JsonConv {
    I8,
    I16,
    I32,
    I64,
    F32,
    F64,
    Str,
    Bool,
    Dec,
    Date,
    Time,
    DateTime,
    DateTimeTz,
    Json,
}

/// The renderer the structured-document format selects for a column kind:
/// `None` exactly for the kinds without a renderer.
pub open spec fn json_conv_of(k: KindV) -> Option<JsonConv> {
    match k {
        KindV::INT8 => Some(JsonConv::I8),
        KindV::INT16 => Some(JsonConv::I16),
        KindV::INT32 => Some(JsonConv::I32),
        KindV::INT64 => Some(JsonConv::I64),
        KindV::UINT8 => None,
        KindV::UINT16 => None,
        KindV::UINT32 => None,
        KindV::UINT64 => None,
        KindV::FLOAT32 => Some(JsonConv::F32),
        KindV::FLOAT64 => Some(JsonConv::F64),
        KindV::STR => Some(JsonConv::Str),
        KindV::BOOL => Some(JsonConv::Bool),
        KindV::DECIMAL => Some(JsonConv::Dec),
        KindV::DATE => Some(JsonConv::Date),
        KindV::TIME => Some(JsonConv::Time),
        KindV::DATETIME => Some(JsonConv::DateTime),
        KindV::DATETIMETZ => Some(JsonConv::DateTimeTz),
        KindV::JSON => Some(JsonConv::Json),
        KindV::UNKNOWN(_) => None,
    }
}

/// Whether a raw value has the shape the renderer `c` reads.
pub open spec fn conv_matches(c: JsonConv, v: ValueV) -> bool {
    match c {
        JsonConv::I8 => v is I8,
        JsonConv::I16 => v is I16,
        JsonConv::I32 => v is I32,
        JsonConv::I64 => v is I64,
        JsonConv::F32 => v is F32,
        JsonConv::F64 => v is F64,
        JsonConv::Str => v is Str,
        JsonConv::Bool => v is Bool,
        JsonConv::Dec => v is Dec,
        JsonConv::Date => v is Date,
        JsonConv::Time => v is Time,
        JsonConv::DateTime => v is DateTime,
        JsonConv::DateTimeTz => v is DateTimeTz,
        JsonConv::Json => v is Json,
    }
}

/// The document cell the renderer `c` produces for the value `v`:
/// integers and representable floating-point or decimal values as numbers
/// (a floating-point value without a finite token becomes `null`, since
/// no JSON number can carry it), strings as strings, booleans as booleans,
/// temporal values as their rendered text with a null becoming JSON
/// `null`, and a JSON value passed through unchanged.
pub open spec fn conv_cell(c: JsonConv, v: ValueV) -> JsonCellV {
    match (c, v) {
        (JsonConv::I8, ValueV::I8(x)) => JsonCellV::Num(dec_int(x)),
        (JsonConv::I16, ValueV::I16(x)) => JsonCellV::Num(dec_int(x)),
        (JsonConv::I32, ValueV::I32(x)) => JsonCellV::Num(dec_int(x)),
        (JsonConv::I64, ValueV::I64(x)) => JsonCellV::Num(dec_int(x)),
        (JsonConv::F32, ValueV::F32(n)) => match n.num {
            Some(t) => JsonCellV::Num(t),
            None => JsonCellV::Null,
        },
        (JsonConv::F64, ValueV::F64(n)) => match n.num {
            Some(t) => JsonCellV::Num(t),
            None => JsonCellV::Null,
        },
        (JsonConv::Str, ValueV::Str(s)) => JsonCellV::Str(s),
        (JsonConv::Bool, ValueV::Bool(b)) => JsonCellV::Bool(b),
        (JsonConv::Dec, ValueV::Dec(n)) => match n.num {
            Some(t) => JsonCellV::Num(t),
            None => JsonCellV::Null,
        },
        (JsonConv::Date, ValueV::Date(d)) => match d {
            Some(d) => JsonCellV::Str(date_chars(d)),
            None => JsonCellV::Null,
        },
        (JsonConv::Time, ValueV::Time(t)) => match t {
            Some(t) => JsonCellV::Str(time_chars(t)),
            None => JsonCellV::Null,
        },
        (JsonConv::DateTime, ValueV::DateTime(dt)) => match dt {
            Some(dt) => JsonCellV::Str(datetime_chars(dt)),
            None => JsonCellV::Null,
        },
        (JsonConv::DateTimeTz, ValueV::DateTimeTz(dt)) => match dt {
            Some(dt) => JsonCellV::Str(datetimetz_chars(dt)),
            None => JsonCellV::Null,
        },
        (JsonConv::Json, ValueV::Json(s)) => JsonCellV::Raw(s),
        _ => JsonCellV::Null,
    }
}

/// The cell for a value of kind `k`: what the selected renderer produces,
/// or the no-op placeholder (JSON `null`) where the kind has no renderer —
/// the column's key is still emitted.
pub open spec fn json_cell(k: KindV, v: ValueV) -> JsonCellV {
    match json_conv_of(k) {
        Some(c) => conv_cell(c, v),
        None => JsonCellV::Null,
    }
}

/// A renderer selected for a kind reads exactly the value shape that kind
/// stores.
proof fn lemma_conv_matches(k: KindV, c: JsonConv, v: ValueV)
    requires
        json_conv_of(k) == Some(c),
        value_matches_kind(v, k),
    ensures
        conv_matches(c, v),
{
}

impl JsonConv {
    /// Renders one cell of the bound column.
    pub fn apply(&self, v: &Value) -> (r: JsonCell)
        requires
            conv_matches(*self, v@),
        ensures
            r@ == conv_cell(*self, v@),
    {
        match (self, v) {
            (JsonConv::I8, Value::I8(x)) => JsonCell::Num(i64_to_dec(*x as i64)),
            (JsonConv::I16, Value::I16(x)) => JsonCell::Num(i64_to_dec(*x as i64)),
            (JsonConv::I32, Value::I32(x)) => JsonCell::Num(i64_to_dec(*x as i64)),
            (JsonConv::I64, Value::I64(x)) => JsonCell::Num(i64_to_dec(*x)),
            (JsonConv::F32, Value::F32(n)) => match &n.num {
                Some(t) => JsonCell::Num(t.clone()),
                None => JsonCell::Null,
            },
            (JsonConv::F64, Value::F64(n)) => match &n.num {
                Some(t) => JsonCell::Num(t.clone()),
                None => JsonCell::Null,
            },
            (JsonConv::Str, Value::Str(s)) => JsonCell::Str(s.clone()),
            (JsonConv::Bool, Value::Bool(b)) => JsonCell::Bool(*b),
            (JsonConv::Dec, Value::Dec(n)) => match &n.num {
                Some(t) => JsonCell::Num(t.clone()),
                None => JsonCell::Null,
            },
            (JsonConv::Date, Value::Date(d)) => match d {
                Some(d) => JsonCell::Str(d.render()),
                None => JsonCell::Null,
            },
            (JsonConv::Time, Value::Time(t)) => match t {
                Some(t) => JsonCell::Str(t.render()),
                None => JsonCell::Null,
            },
            (JsonConv::DateTime, Value::DateTime(dt)) => match dt {
                Some(dt) => JsonCell::Str(dt.render()),
                None => JsonCell::Null,
            },
            (JsonConv::DateTimeTz, Value::DateTimeTz(dt)) => match dt {
                Some(dt) => JsonCell::Str(dt.render()),
                None => JsonCell::Null,
            },
            (JsonConv::Json, Value::Json(s)) => JsonCell::Raw(s.clone()),
            _ => unreached(),
        }
    }
}

/// One key/value pair of a row object: the quoted, escaped column name, a
/// colon, the serialized cell.
pub open spec fn pair_chars(col: FieldV, v: ValueV) -> Seq<char> {
    seq!['"'] + esc(col.name) + seq!['"', ':'] + cell_chars(json_cell(col.kind, v))
}

/// The pairs of one row object, in column order, joined with `,`.
pub open spec fn joined_pairs(cols: Seq<FieldV>, row: Seq<ValueV>) -> Seq<char>
    decreases cols.len(),
{
    if cols.len() == 0 {
        Seq::empty()
    } else if cols.len() == 1 {
        pair_chars(cols[0], row[0])
    } else {
        joined_pairs(cols.drop_last(), row.drop_last()) + seq![','] + pair_chars(
            cols.last(),
            row[cols.len() - 1],
        )
    }
}

/// One row as an object.
pub open spec fn obj_chars(cols: Seq<FieldV>, row: Seq<ValueV>) -> Seq<char> {
    seq!['{'] + joined_pairs(cols, row) + seq!['}']
}

/// Every row object, each followed by the `,` separator and a newline —
/// including the last (the kept trailing-separator artifact).
pub open spec fn rows_chars(cols: Seq<FieldV>, rows: Seq<Seq<ValueV>>) -> Seq<char>
    decreases rows.len(),
{
    if rows.len() == 0 {
        Seq::empty()
    } else {
        rows_chars(cols, rows.drop_last()) + obj_chars(cols, rows.last()) + seq![',', '\n']
    }
}

/// The whole document: the opening array delimiter, every row object with
/// its trailing separator, the closing delimiter.
pub open spec fn json_doc(rs: ResultSetV) -> Seq<char> {
    seq!['[', '\n'] + rows_chars(rs.columns, rs.rows) + seq![']', '\n']
}

/// Whether the cell at a `DECIMAL` column has no floating-point token, the
/// condition fatal to the whole export.
pub open spec fn dec_cell_bad(k: KindV, v: ValueV) -> bool {
    k is DECIMAL && match v {
        ValueV::Dec(n) => n.num is None,
        _ => false,
    }
}

/// The first unrepresentable-decimal cell of `row` at or after column `j`.
pub open spec fn first_bad_in_row(cols: Seq<FieldV>, row: Seq<ValueV>, j: int) -> Option<int>
    decreases cols.len() - j,
{
    if j < 0 || j >= cols.len() {
        None
    } else if dec_cell_bad(cols[j].kind, row[j]) {
        Some(j)
    } else {
        first_bad_in_row(cols, row, j + 1)
    }
}

/// The first unrepresentable-decimal cell at or after row `r`, in
/// row-major order.
pub open spec fn first_bad_dec(cols: Seq<FieldV>, rows: Seq<Seq<ValueV>>, r: int) -> Option<
    (int, int),
>
    decreases rows.len() - r,
{
    if r < 0 || r >= rows.len() {
        None
    } else {
        match first_bad_in_row(cols, rows[r], 0) {
            Some(j) => Some((r, j)),
            None => first_bad_dec(cols, rows, r + 1),
        }
    }
}

/// The fatal numeric-conversion condition: the first cell, in row-major
/// order, whose decimal value cannot be represented as floating point.
#[derive(Clone, Debug, PartialEq, Eq)]
pub struct NumError {
    pub row: usize,
    pub col: usize,
    pub column: String,
}

/// The structured-document writer.
pub struct JSON;

/// Appending one pair extends the joined pairs by a separator (after the
/// first pair) and that pair.
proof fn lemma_joined_pairs_take(cols: Seq<FieldV>, row: Seq<ValueV>, j: int)
    requires
        0 <= j < cols.len(),
        cols.len() <= row.len(),
    ensures
        joined_pairs(cols.take(j + 1), row.take(j + 1)) == if j == 0 {
            pair_chars(cols[0], row[0])
        } else {
            joined_pairs(cols.take(j), row.take(j)) + seq![','] + pair_chars(cols[j], row[j])
        },
{
    assert(cols.take(j + 1).drop_last() =~= cols.take(j));
    assert(row.take(j + 1).drop_last() =~= row.take(j));
    assert(cols.take(j + 1).last() == cols[j]);
    assert(row.take(j + 1)[j] == row[j]);
}

impl JSON {
    /// Selects the structured-document renderer for one column, or reports
    /// the unsupported-type condition where the column's kind has none.
    pub fn convert(field: &Field) -> (r: Result<JsonConv, ConvError>)
        ensures
            match r {
                Ok(c) => json_conv_of(field@.kind) == Some(c),
                Err(e) => json_conv_of(field@.kind) is None && e@ == missing_error(field@.kind),
            },
    {
        match &field.kind {
            FieldKind::INT8 => Ok(JsonConv::I8),
            FieldKind::INT16 => Ok(JsonConv::I16),
            FieldKind::INT32 => Ok(JsonConv::I32),
            FieldKind::INT64 => Ok(JsonConv::I64),
            FieldKind::FLOAT32 => Ok(JsonConv::F32),
            FieldKind::FLOAT64 => Ok(JsonConv::F64),
            FieldKind::STR => Ok(JsonConv::Str),
            FieldKind::BOOL => Ok(JsonConv::Bool),
            FieldKind::DECIMAL => Ok(JsonConv::Dec),
            FieldKind::DATE => Ok(JsonConv::Date),
            FieldKind::TIME => Ok(JsonConv::Time),
            FieldKind::DATETIME => Ok(JsonConv::DateTime),
            FieldKind::DATETIMETZ => Ok(JsonConv::DateTimeTz),
            FieldKind::JSON => Ok(JsonConv::Json),
            _ => Err(missing_conv_error(field)),
        }
    }

    /// Renders the whole result set as one document: the opening array
    /// delimiter, then — in source order — one object per row whose keys
    /// are the column names in column order, each object followed by the
    /// separator (the kept trailing-separator artifact), then the closing
    /// delimiter. An empty result set produces the empty document and no
    /// reported conditions. Alongside the text it returns one
    /// unsupported-type condition per column without a renderer, in column
    /// order; such a column's key carries the `null` placeholder. The
    /// export fails, producing no document, exactly when some `DECIMAL`
    /// cell has no floating-point representation; the reported condition
    /// names the first such cell in row-major order and its column.
    pub fn write(rs: &ResultSet) -> (r: Result<(String, Vec<Diag>), NumError>)
        requires
            rs@.wf(),
        ensures
            match r {
                Ok(p) => first_bad_dec(rs@.columns, rs@.rows, 0) is None && p.0@ == json_doc(rs@)
                    && p.1@.map_values(|d: Diag| d@) == if rs@.rows.len() == 0 {
                    Seq::<DiagV>::empty()
                } else {
                    diags_of(rs@.columns)
                },
                Err(e) => first_bad_dec(rs@.columns, rs@.rows, 0) == Some(
                    (e.row as int, e.col as int),
                ) && e.column@ == rs@.columns[e.col as int].name,
            },
    {
        let mut out = String::new();
        push_char(&mut out, '[');
        push_char(&mut out, '\n');
        let mut diags: Vec<Diag> = Vec::new();
        if rs.rows.len() == 0 {
            push_char(&mut out, ']');
            push_char(&mut out, '\n');
            proof {
                assert(out@ =~= json_doc(rs@));
                assert(diags@.map_values(|d: Diag| d@) =~= Seq::<DiagV>::empty());
            }
            return Ok((out, diags));
        }
        let ncols = rs.columns.len();
        let nrows = rs.rows.len();

        // Bind one renderer per column, reporting the columns that have none.
        let mut convs: Vec<Option<JsonConv>> = Vec::new();
        let mut j: usize = 0;
        while j < ncols
            invariant
                j <= ncols,
                ncols == rs@.columns.len(),
                convs@.len() == j,
                forall|i: int|
                    0 <= i < j ==> #[trigger] convs@[i] == json_conv_of(rs@.columns[i].kind),
                diags@.map_values(|d: Diag| d@) == diags_of(rs@.columns.take(j as int)),
            decreases ncols - j,
        {
            match JSON::convert(&rs.columns[j]) {
                Ok(c) => {
                    convs.push(Some(c));
                },
                Err(e) => {
                    diags.push(Diag { column: rs.columns[j].name.clone(), error: e });
                    convs.push(None);
                },
            }
            proof {
                lemma_diags_of_take(rs@.columns, j as int);
                assert(diags@.map_values(|d: Diag| d@) =~= diags_of(
                    rs@.columns.take(j as int + 1),
                ));
            }
            j = j + 1;
        }
        proof {
            assert(rs@.columns.take(ncols as int) =~= rs@.columns);
        }

        // One streaming pass over the rows.
        let mut r: usize = 0;
        while r < nrows
            invariant
                r <= nrows,
                rs@.wf(),
                ncols == rs@.columns.len(),
                nrows == rs@.rows.len(),
                convs@.len() == ncols,
                forall|i: int|
                    0 <= i < ncols ==> #[trigger] convs@[i] == json_conv_of(rs@.columns[i].kind),
                out@ == seq!['[', '\n'] + rows_chars(rs@.columns, rs@.rows.take(r as int)),
                first_bad_dec(rs@.columns, rs@.rows, 0) == first_bad_dec(
                    rs@.columns,
                    rs@.rows,
                    r as int,
                ),
            decreases nrows - r,
        {
            let mut obj = String::new();
            push_char(&mut obj, '{');
            let mut j: usize = 0;
            while j < ncols
                invariant
                    j <= ncols,
                    r < nrows,
                    rs@.wf(),
                    ncols == rs@.columns.len(),
                    nrows == rs@.rows.len(),
                    convs@.len() == ncols,
                    forall|i: int|
                        0 <= i < ncols ==> #[trigger] convs@[i] == json_conv_of(
                            rs@.columns[i].kind,
                        ),
                    obj@ == seq!['{'] + joined_pairs(
                        rs@.columns.take(j as int),
                        rs@.rows[r as int].take(j as int),
                    ),
                    first_bad_in_row(rs@.columns, rs@.rows[r as int], 0) == first_bad_in_row(
                        rs@.columns,
                        rs@.rows[r as int],
                        j as int,
                    ),
                    first_bad_dec(rs@.columns, rs@.rows, 0) == first_bad_dec(
                        rs@.columns,
                        rs@.rows,
                        r as int,
                    ),
                decreases ncols - j,
            {
                proof {
                    assert(rs@.rows[r as int].len() == rs@.columns.len());
                    assert(value_matches_kind(
                        rs@.rows[r as int][j as int],
                        rs@.columns[j as int].kind,
                    ));
                }
                let bad = match (convs[j], &rs.rows[r][j]) {
                    (Some(JsonConv::Dec), Value::Dec(n)) => n.num.is_none(),
                    _ => false,
                };
                proof {
                    assert(bad == dec_cell_bad(
                        rs@.columns[j as int].kind,
                        rs@.rows[r as int][j as int],
                    ));
                }
                if bad {
                    proof {
                        assert(first_bad_in_row(rs@.columns, rs@.rows[r as int], j as int)
                            == Some(j as int));
                        assert(first_bad_dec(rs@.columns, rs@.rows, r as int) == Some(
                            (r as int, j as int),
                        ));
                    }
                    return Err(
                        NumError { row: r, col: j, column: rs.columns[j].name.clone() },
                    );
                }
                if j > 0 {
                    push_char(&mut obj, ',');
                }
                push_char(&mut obj, '"');
                let name_esc = escape_json(rs.columns[j].name.as_str());
                obj.append(name_esc.as_str());
                push_char(&mut obj, '"');
                push_char(&mut obj, ':');
                let cell = match convs[j] {
                    Some(c) => {
                        proof {
                            lemma_conv_matches(
                                rs@.columns[j as int].kind,
                                c,
                                rs@.rows[r as int][j as int],
                            );
                        }
                        c.apply(&rs.rows[r][j])
                    },
                    None => JsonCell::Null,
                };
                let cell_text = cell.render();
                obj.append(cell_text.as_str());
                proof {
                    lemma_joined_pairs_take(rs@.columns, rs@.rows[r as int], j as int);
                    assert(obj@ =~= seq!['{'] + joined_pairs(
                        rs@.columns.take(j as int + 1),
                        rs@.rows[r as int].take(j as int + 1),
                    ));
                }
                j = j + 1;
            }
            push_char(&mut obj, '}');
            out.append(obj.as_str());
            push_char(&mut out, ',');
            push_char(&mut out, '\n');
            proof {
                assert(rs@.columns.take(ncols as int) =~= rs@.columns);
                assert(rs@.rows[r as int].take(ncols as int) =~= rs@.rows[r as int]);
                assert(obj@ == obj_chars(rs@.columns, rs@.rows[r as int]));
                assert(rs@.rows.take(r as int + 1).drop_last() =~= rs@.rows.take(r as int));
                assert(rs@.rows.take(r as int + 1).last() == rs@.rows[r as int]);
                assert(out@ =~= seq!['[', '\n'] + rows_chars(
                    rs@.columns,
                    rs@.rows.take(r as int + 1),
                ));
            }
            r = r + 1;
        }
        push_char(&mut out, ']');
        push_char(&mut out, '\n');
        proof {
            assert(rs@.rows.take(nrows as int) =~= rs@.rows);
            assert(out@ =~= json_doc(rs@));
        }
        Ok((out, diags))
    }
}

} // verus!
