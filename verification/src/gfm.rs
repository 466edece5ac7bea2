//! The text-table writer: renders a result set as an aligned plain-text
//! table, one line per row, every cell padded to its column's width.
//!
//! The algorithm is two full passes over the data: one to render every
//! cell, one to size every column. This is intentional: the format
//! requires column alignment, which is only knowable after all cells are
//! rendered. A column's width is the maximum rendered length across the
//! header name and all of its data cells; the separator row repeats a dash
//! to exactly that width.

use vstd::prelude::*;
use vstd::string::*;

use crate::fields::{Field, FieldKind, FieldV, KindV};
use crate::report::{
    diags_of, lemma_diags_of_take, missing_conv_error, missing_error, ConvError,
    Diag, DiagV,
};
use crate::strutil::{char_repeat, dec_int, i64_to_dec, nats, push_char, repeat_char, strs};
use crate::value::{
    date_chars, datetime_chars, datetimetz_chars, time_chars, value_matches_kind, ResultSet,
    ResultSetV, Value, ValueV,
};

verus! {

/// The alignment palette of the text-table format. Reserved: the writer
/// currently left-aligns every cell.
#[derive(Clone, Copy, Debug, PartialEq, Eq)]
pub enum MF {
    Left,
    Center,
    Right,
}

/// The renderer bound to one column for the lifetime of one export: a
/// sealed strategy, one per supported [`crate::fields::FieldKind`].
#[derive(Clone, Copy, Debug, PartialEq, Eq)]
pub enum GfmConv {
    I8,
    I16,
    I32,
    I64,
    F32,
    F64,
    Str,
    Bool,
    Dec,
    Date,
    Time,
    DateTime,
    DateTimeTz,
    Json,
}

/// The renderer the text-table format selects for a column kind: `None`
/// exactly for the kinds without a renderer.
pub open spec fn gfm_conv_of(k: KindV) -> Option<GfmConv> {
    match k {
        KindV::INT8 => Some(GfmConv::I8),
        KindV::INT16 => Some(GfmConv::I16),
        KindV::INT32 => Some(GfmConv::I32),
        KindV::INT64 => Some(GfmConv::I64),
        KindV::UINT8 => None,
        KindV::UINT16 => None,
        KindV::UINT32 => None,
        KindV::UINT64 => None,
        KindV::FLOAT32 => Some(GfmConv::F32),
        KindV::FLOAT64 => Some(GfmConv::F64),
        KindV::STR => Some(GfmConv::Str),
        KindV::BOOL => Some(GfmConv::Bool),
        KindV::DECIMAL => Some(GfmConv::Dec),
        KindV::DATE => Some(GfmConv::Date),
        KindV::TIME => Some(GfmConv::Time),
        KindV::DATETIME => Some(GfmConv::DateTime),
        KindV::DATETIMETZ => Some(GfmConv::DateTimeTz),
        KindV::JSON => Some(GfmConv::Json),
        KindV::UNKNOWN(_) => None,
    }
}

/// Whether a raw value has the shape the renderer `c` reads.
pub open spec fn conv_matches(c: GfmConv, v: ValueV) -> bool {
    match c {
        GfmConv::I8 => v is I8,
        GfmConv::I16 => v is I16,
        GfmConv::I32 => v is I32,
        GfmConv::I64 => v is I64,
        GfmConv::F32 => v is F32,
        GfmConv::F64 => v is F64,
        GfmConv::Str => v is Str,
        GfmConv::Bool => v is Bool,
        GfmConv::Dec => v is Dec,
        GfmConv::Date => v is Date,
        GfmConv::Time => v is Time,
        GfmConv::DateTime => v is DateTime,
        GfmConv::DateTimeTz => v is DateTimeTz,
        GfmConv::Json => v is Json,
    }
}

/// The text cell the renderer `c` produces for the value `v`: integers in
/// decimal notation, floating-point and decimal values by their decimal
/// text, booleans as `true`/`false`, temporal values in ISO-style
/// notation with a null rendered as the absent (empty) cell, and a JSON
/// value by its raw serialized text.
pub open spec fn conv_cell(c: GfmConv, v: ValueV) -> Seq<char> {
    match (c, v) {
        (GfmConv::I8, ValueV::I8(x)) => dec_int(x),
        (GfmConv::I16, ValueV::I16(x)) => dec_int(x),
        (GfmConv::I32, ValueV::I32(x)) => dec_int(x),
        (GfmConv::I64, ValueV::I64(x)) => dec_int(x),
        (GfmConv::F32, ValueV::F32(n)) => n.text,
        (GfmConv::F64, ValueV::F64(n)) => n.text,
        (GfmConv::Str, ValueV::Str(s)) => s,
        (GfmConv::Bool, ValueV::Bool(b)) => if b {
            "true"@
        } else {
            "false"@
        },
        (GfmConv::Dec, ValueV::Dec(n)) => n.text,
        (GfmConv::Date, ValueV::Date(d)) => match d {
            Some(d) => date_chars(d),
            None => Seq::empty(),
        },
        (GfmConv::Time, ValueV::Time(t)) => match t {
            Some(t) => time_chars(t),
            None => Seq::empty(),
        },
        (GfmConv::DateTime, ValueV::DateTime(dt)) => match dt {
            Some(dt) => datetime_chars(dt),
            None => Seq::empty(),
        },
        (GfmConv::DateTimeTz, ValueV::DateTimeTz(dt)) => match dt {
            Some(dt) => datetimetz_chars(dt),
            None => Seq::empty(),
        },
        (GfmConv::Json, ValueV::Json(s)) => s,
        _ => Seq::empty(),
    }
}

/// The text cell for a value of kind `k`: what the selected renderer
/// produces, or the no-op placeholder (the empty cell) where the kind has
/// no renderer.
pub open spec fn gfm_cell(k: KindV, v: ValueV) -> Seq<char> {
    match gfm_conv_of(k) {
        Some(c) => conv_cell(c, v),
        None => Seq::empty(),
    }
}

/// The header row: every column name, in column order.
pub open spec fn header_cells(cols: Seq<FieldV>) -> Seq<Seq<char>> {
    cols.map_values(|f: FieldV| f.name)
}

/// One rendered data row.
pub open spec fn row_cells(cols: Seq<FieldV>, row: Seq<ValueV>) -> Seq<Seq<char>> {
    Seq::new(cols.len(), |j: int| gfm_cell(cols[j].kind, row[j]))
}

/// The longest rendered data cell of column `j` across `rows`.
pub open spec fn max_data_width(cols: Seq<FieldV>, rows: Seq<Seq<ValueV>>, j: int) -> nat
    decreases rows.len(),
{
    if rows.len() == 0 {
        0
    } else {
        let prev = max_data_width(cols, rows.drop_last(), j);
        let cur = gfm_cell(cols[j].kind, rows.last()[j]).len();
        if cur > prev {
            cur
        } else {
            prev
        }
    }
}

/// The width of column `j`: the maximum rendered length across its header
/// name and all of its data cells.
pub open spec fn col_width(cols: Seq<FieldV>, rows: Seq<Seq<ValueV>>, j: int) -> nat {
    let header = cols[j].name.len();
    let data = max_data_width(cols, rows, j);
    if data > header {
        data
    } else {
        header
    }
}

/// All column widths, in column order.
pub open spec fn col_widths(cols: Seq<FieldV>, rows: Seq<Seq<ValueV>>) -> Seq<nat> {
    Seq::new(cols.len(), |j: int| col_width(cols, rows, j))
}

/// A cell padded on the right with spaces to width `w`.
pub open spec fn pad_right(s: Seq<char>, w: nat) -> Seq<char> {
    if s.len() >= w {
        s
    } else {
        s + repeat_char(' ', (w - s.len()) as nat)
    }
}

/// One cell as it stands in a line: a space, the padded cell, a space.
pub open spec fn cell_piece(s: Seq<char>, w: nat) -> Seq<char> {
    seq![' '] + pad_right(s, w) + seq![' ']
}

/// The cells of one line, padded and joined with `|`.
pub open spec fn joined_cells(cells: Seq<Seq<char>>, ws: Seq<nat>) -> Seq<char>
    decreases cells.len(),
{
    if cells.len() == 0 {
        Seq::empty()
    } else if cells.len() == 1 {
        cell_piece(cells[0], ws[0])
    } else {
        joined_cells(cells.drop_last(), ws.drop_last()) + seq!['|'] + cell_piece(
            cells.last(),
            ws[cells.len() - 1],
        )
    }
}

/// One full line of the table: the joined cells wrapped in `|`.
pub open spec fn table_line(cells: Seq<Seq<char>>, ws: Seq<nat>) -> Seq<char> {
    seq!['|'] + joined_cells(cells, ws) + seq!['|']
}

/// The separator row: for each column, a dash repeated to its width.
pub open spec fn dash_cells(ws: Seq<nat>) -> Seq<Seq<char>> {
    ws.map_values(|w: nat| repeat_char('-', w))
}

/// The whole text table: the header line, the separator line, then one
/// line per data row — or no lines at all for an empty result set.
pub open spec fn gfm_lines(rs: ResultSetV) -> Seq<Seq<char>> {
    if rs.rows.len() == 0 {
        Seq::empty()
    } else {
        let ws = col_widths(rs.columns, rs.rows);
        seq![
            table_line(header_cells(rs.columns), ws),
            table_line(dash_cells(ws), ws),
        ] + rs.rows.map_values(|row: Seq<ValueV>| table_line(row_cells(rs.columns, row), ws))
    }
}

/// A renderer selected for a kind reads exactly the value shape that kind
/// stores.
proof fn lemma_conv_matches(k: KindV, c: GfmConv, v: ValueV)
    requires
        gfm_conv_of(k) == Some(c),
        value_matches_kind(v, k),
    ensures
        conv_matches(c, v),
{
}

/// Appending one cell extends the joined line by a separator (after the
/// first cell) and that cell's piece.
proof fn lemma_joined_cells_take(cells: Seq<Seq<char>>, ws: Seq<nat>, j: int)
    requires
        0 <= j < cells.len(),
        cells.len() <= ws.len(),
    ensures
        joined_cells(cells.take(j + 1), ws.take(j + 1)) == if j == 0 {
            cell_piece(cells[0], ws[0])
        } else {
            joined_cells(cells.take(j), ws.take(j)) + seq!['|'] + cell_piece(cells[j], ws[j])
        },
{
    assert(cells.take(j + 1).drop_last() =~= cells.take(j));
    assert(ws.take(j + 1).drop_last() =~= ws.take(j));
    assert(cells.take(j + 1).last() == cells[j]);
    assert(ws.take(j + 1)[j] == ws[j]);
}

/// The text-table writer.
pub struct GFM;

impl GFM {
    /// Selects the text-table renderer for one column, or reports the
    /// unsupported-type condition where the column's kind has none.
    pub fn convert(field: &Field) -> (r: Result<GfmConv, ConvError>)
        ensures
            match r {
                Ok(c) => gfm_conv_of(field@.kind) == Some(c),
                Err(e) => gfm_conv_of(field@.kind) is None && e@ == missing_error(field@.kind),
            },
    {
        match &field.kind {
            FieldKind::INT8 => Ok(GfmConv::I8),
            FieldKind::INT16 => Ok(GfmConv::I16),
            FieldKind::INT32 => Ok(GfmConv::I32),
            FieldKind::INT64 => Ok(GfmConv::I64),
            FieldKind::FLOAT32 => Ok(GfmConv::F32),
            FieldKind::FLOAT64 => Ok(GfmConv::F64),
            FieldKind::STR => Ok(GfmConv::Str),
            FieldKind::BOOL => Ok(GfmConv::Bool),
            FieldKind::DECIMAL => Ok(GfmConv::Dec),
            FieldKind::DATE => Ok(GfmConv::Date),
            FieldKind::TIME => Ok(GfmConv::Time),
            FieldKind::DATETIME => Ok(GfmConv::DateTime),
            FieldKind::DATETIMETZ => Ok(GfmConv::DateTimeTz),
            FieldKind::JSON => Ok(GfmConv::Json),
            _ => Err(missing_conv_error(field)),
        }
    }
}

impl GfmConv {
    /// Renders one cell of the bound column.
    pub fn apply(&self, v: &Value) -> (r: String)
        requires
            conv_matches(*self, v@),
        ensures
            r@ == conv_cell(*self, v@),
    {
        match (self, v) {
            (GfmConv::I8, Value::I8(x)) => i64_to_dec(*x as i64),
            (GfmConv::I16, Value::I16(x)) => i64_to_dec(*x as i64),
            (GfmConv::I32, Value::I32(x)) => i64_to_dec(*x as i64),
            (GfmConv::I64, Value::I64(x)) => i64_to_dec(*x),
            (GfmConv::F32, Value::F32(n)) => n.text.clone(),
            (GfmConv::F64, Value::F64(n)) => n.text.clone(),
            (GfmConv::Str, Value::Str(s)) => s.clone(),
            (GfmConv::Bool, Value::Bool(b)) => if *b {
                String::from_str("true")
            } else {
                String::from_str("false")
            },
            (GfmConv::Dec, Value::Dec(n)) => n.text.clone(),
            (GfmConv::Date, Value::Date(d)) => match d {
                Some(d) => d.render(),
                None => String::new(),
            },
            (GfmConv::Time, Value::Time(t)) => match t {
                Some(t) => t.render(),
                None => String::new(),
            },
            (GfmConv::DateTime, Value::DateTime(dt)) => match dt {
                Some(dt) => dt.render(),
                None => String::new(),
            },
            (GfmConv::DateTimeTz, Value::DateTimeTz(dt)) => match dt {
                Some(dt) => dt.render(),
                None => String::new(),
            },
            (GfmConv::Json, Value::Json(s)) => s.clone(),
            _ => unreached(),
        }
    }
}

/// Extending the sized rows by one row raises each column width to that
/// row's cell where it is longer.
proof fn lemma_col_width_take(cols: Seq<FieldV>, rows: Seq<Seq<ValueV>>, r: int, j: int)
    requires
        0 <= r < rows.len(),
    ensures
        col_width(cols, rows.take(r + 1), j) == ({
            let prev = col_width(cols, rows.take(r), j);
            let cur = gfm_cell(cols[j].kind, rows[r][j]).len();
            if cur > prev {
                cur
            } else {
                prev
            }
        }),
{
    assert(rows.take(r + 1).drop_last() =~= rows.take(r));
    assert(rows.take(r + 1).last() == rows[r]);
}

impl GFM {
    /// Renders the whole result set as the lines of an aligned text table:
    /// a header line holding every column name in column order, a separator
    /// line of dashes sized to each column's width, then one line per data
    /// row, every cell padded to its column's width. An empty result set
    /// produces no lines and no reported conditions. Alongside the lines it
    /// returns one unsupported-type condition per column without a
    /// renderer, in column order; such a column is rendered as empty cells.
    pub fn write(rs: &ResultSet) -> (r: (Vec<String>, Vec<Diag>))
        requires
            rs@.wf(),
        ensures
            strs(r.0@) == gfm_lines(rs@),
            r.1@.map_values(|d: Diag| d@) == if rs@.rows.len() == 0 {
                Seq::<DiagV>::empty()
            } else {
                diags_of(rs@.columns)
            },
    {
        let mut lines: Vec<String> = Vec::new();
        let mut diags: Vec<Diag> = Vec::new();
        if rs.rows.len() == 0 {
            proof {
                assert(strs(lines@) =~= gfm_lines(rs@));
                assert(diags@.map_values(|d: Diag| d@) =~= Seq::<DiagV>::empty());
            }
            return (lines, diags);
        }
        let ncols = rs.columns.len();
        let nrows = rs.rows.len();

        // Bind one renderer per column, reporting the columns that have none.
        let mut convs: Vec<Option<GfmConv>> = Vec::new();
        let mut j: usize = 0;
        while j < ncols
            invariant
                j <= ncols,
                ncols == rs@.columns.len(),
                convs@.len() == j,
                forall|i: int|
                    0 <= i < j ==> #[trigger] convs@[i] == gfm_conv_of(rs@.columns[i].kind),
                diags@.map_values(|d: Diag| d@) == diags_of(rs@.columns.take(j as int)),
            decreases ncols - j,
        {
            match GFM::convert(&rs.columns[j]) {
                Ok(c) => {
                    convs.push(Some(c));
                },
                Err(e) => {
                    diags.push(Diag { column: rs.columns[j].name.clone(), error: e });
                    convs.push(None);
                },
            }
            proof {
                lemma_diags_of_take(rs@.columns, j as int);
                assert(diags@.map_values(|d: Diag| d@) =~= diags_of(
                    rs@.columns.take(j as int + 1),
                ));
            }
            j = j + 1;
        }
        proof {
            assert(rs@.columns.take(ncols as int) =~= rs@.columns);
        }

        // First pass: render every cell.
        let mut body: Vec<Vec<String>> = Vec::new();
        let mut r: usize = 0;
        while r < nrows
            invariant
                r <= nrows,
                rs@.wf(),
                ncols == rs@.columns.len(),
                nrows == rs@.rows.len(),
                convs@.len() == ncols,
                forall|i: int|
                    0 <= i < ncols ==> #[trigger] convs@[i] == gfm_conv_of(rs@.columns[i].kind),
                body@.len() == r,
                forall|i: int|
                    0 <= i < r ==> strs(#[trigger] body@[i]@) == row_cells(
                        rs@.columns,
                        rs@.rows[i],
                    ),
            decreases nrows - r,
        {
            let mut rowout: Vec<String> = Vec::new();
            let mut j: usize = 0;
            while j < ncols
                invariant
                    j <= ncols,
                    r < nrows,
                    rs@.wf(),
                    ncols == rs@.columns.len(),
                    nrows == rs@.rows.len(),
                    convs@.len() == ncols,
                    forall|i: int|
                        0 <= i < ncols ==> #[trigger] convs@[i] == gfm_conv_of(
                            rs@.columns[i].kind,
                        ),
                    rowout@.len() == j,
                    forall|i: int|
                        0 <= i < j ==> #[trigger] rowout@[i]@ == row_cells(
                            rs@.columns,
                            rs@.rows[r as int],
                        )[i],
                decreases ncols - j,
            {
                proof {
                    assert(rs@.rows[r as int].len() == rs@.columns.len());
                    assert(value_matches_kind(
                        rs@.rows[r as int][j as int],
                        rs@.columns[j as int].kind,
                    ));
                }
                let cell = match convs[j] {
                    Some(c) => {
                        proof {
                            lemma_conv_matches(
                                rs@.columns[j as int].kind,
                                c,
                                rs@.rows[r as int][j as int],
                            );
                        }
                        c.apply(&rs.rows[r][j])
                    },
                    None => String::new(),
                };
                rowout.push(cell);
                j = j + 1;
            }
            proof {
                assert(strs(rowout@) =~= row_cells(rs@.columns, rs@.rows[r as int]));
            }
            body.push(rowout);
            r = r + 1;
        }

        // Second pass: size every column over the header and all its cells.
        let mut lens: Vec<usize> = Vec::new();
        let mut j: usize = 0;
        while j < ncols
            invariant
                j <= ncols,
                ncols == rs@.columns.len(),
                lens@.len() == j,
                forall|i: int|
                    0 <= i < j ==> #[trigger] lens@[i] as nat == rs@.columns[i].name.len(),
            decreases ncols - j,
        {
            lens.push(rs.columns[j].name.as_str().unicode_len());
            j = j + 1;
        }
        let mut r: usize = 0;
        while r < nrows
            invariant
                r <= nrows,
                rs@.wf(),
                ncols == rs@.columns.len(),
                nrows == rs@.rows.len(),
                body@.len() == nrows,
                forall|i: int|
                    0 <= i < nrows ==> strs(#[trigger] body@[i]@) == row_cells(
                        rs@.columns,
                        rs@.rows[i],
                    ),
                lens@.len() == ncols,
                forall|i: int|
                    0 <= i < ncols ==> #[trigger] lens@[i] as nat == col_width(
                        rs@.columns,
                        rs@.rows.take(r as int),
                        i,
                    ),
            decreases nrows - r,
        {
            let mut j: usize = 0;
            while j < ncols
                invariant
                    j <= ncols,
                    r < nrows,
                    rs@.wf(),
                    ncols == rs@.columns.len(),
                    nrows == rs@.rows.len(),
                    body@.len() == nrows,
                    forall|i: int|
                        0 <= i < nrows ==> strs(#[trigger] body@[i]@) == row_cells(
                            rs@.columns,
                            rs@.rows[i],
                        ),
                    lens@.len() == ncols,
                    forall|i: int|
                        0 <= i < j ==> #[trigger] lens@[i] as nat == col_width(
                            rs@.columns,
                            rs@.rows.take(r as int + 1),
                            i,
                        ),
                    forall|i: int|
                        j <= i < ncols ==> #[trigger] lens@[i] as nat == col_width(
                            rs@.columns,
                            rs@.rows.take(r as int),
                            i,
                        ),
                decreases ncols - j,
            {
                let l = body[r][j].as_str().unicode_len();
                proof {
                    assert(body@[r as int]@[j as int]@ == row_cells(
                        rs@.columns,
                        rs@.rows[r as int],
                    )[j as int]);
                    lemma_col_width_take(rs@.columns, rs@.rows, r as int, j as int);
                }
                if l > lens[j] {
                    lens.set(j, l);
                }
                j = j + 1;
            }
            r = r + 1;
        }
        proof {
            assert(rs@.rows.take(nrows as int) =~= rs@.rows);
            assert(nats(lens@) =~= col_widths(rs@.columns, rs@.rows));
        }

        // The header and separator rows.
        let mut head: Vec<String> = Vec::new();
        let mut j: usize = 0;
        while j < ncols
            invariant
                j <= ncols,
                ncols == rs@.columns.len(),
                head@.len() == j,
                forall|i: int| 0 <= i < j ==> #[trigger] head@[i]@ == rs@.columns[i].name,
            decreases ncols - j,
        {
            head.push(rs.columns[j].name.clone());
            j = j + 1;
        }
        let mut dash: Vec<String> = Vec::new();
        let mut j: usize = 0;
        while j < ncols
            invariant
                j <= ncols,
                ncols == rs@.columns.len(),
                lens@.len() == ncols,
                dash@.len() == j,
                forall|i: int|
                    0 <= i < j ==> #[trigger] dash@[i]@ == repeat_char('-', lens@[i] as nat),
            decreases ncols - j,
        {
            dash.push(char_repeat('-', lens[j]));
            j = j + 1;
        }
        proof {
            assert(strs(head@) =~= header_cells(rs@.columns));
            assert(strs(dash@) =~= dash_cells(nats(lens@)));
        }

        // Emit every line.
        let ghost ws = col_widths(rs@.columns, rs@.rows);
        lines.push(bar_line(&head, &lens));
        lines.push(bar_line(&dash, &lens));
        let mut r: usize = 0;
        while r < nrows
            invariant
                r <= nrows,
                rs@.wf(),
                ncols == rs@.columns.len(),
                nrows == rs@.rows.len(),
                body@.len() == nrows,
                forall|i: int|
                    0 <= i < nrows ==> strs(#[trigger] body@[i]@) == row_cells(
                        rs@.columns,
                        rs@.rows[i],
                    ),
                lens@.len() == ncols,
                nats(lens@) == ws,
                ws == col_widths(rs@.columns, rs@.rows),
                lines@.len() == 2 + r,
                lines@[0]@ == table_line(header_cells(rs@.columns), ws),
                lines@[1]@ == table_line(dash_cells(ws), ws),
                forall|i: int|
                    0 <= i < r ==> #[trigger] lines@[2 + i]@ == table_line(
                        row_cells(rs@.columns, rs@.rows[i]),
                        ws,
                    ),
            decreases nrows - r,
        {
            proof {
                assert(strs(body@[r as int]@).len() == ncols);
            }
            lines.push(bar_line(&body[r], &lens));
            r = r + 1;
        }
        proof {
            assert forall|i: int| 0 <= i < strs(lines@).len() implies strs(lines@)[i]
                == gfm_lines(rs@)[i] by {
                if i >= 2 {
                    assert(lines@[2 + (i - 2)]@ == table_line(
                        row_cells(rs@.columns, rs@.rows[i - 2]),
                        ws,
                    ));
                }
            }
            assert(strs(lines@) =~= gfm_lines(rs@));
        }
        (lines, diags)
    }
}

/// One line of the table: each cell padded with spaces to its column's
/// width, set off with spaces, joined with `|` and wrapped in `|`.
fn bar_line(cells: &Vec<String>, lens: &Vec<usize>) -> (r: String)
    requires
        cells@.len() == lens@.len(),
    ensures
        r@ == table_line(strs(cells@), nats(lens@)),
{
    let n = cells.len();
    let mut out = String::new();
    push_char(&mut out, '|');
    let mut j: usize = 0;
    while j < n
        invariant
            j <= n,
            n == cells@.len(),
            n == lens@.len(),
            out@ == seq!['|'] + joined_cells(strs(cells@).take(j as int), nats(lens@).take(j as int)),
        decreases n - j,
    {
        if j > 0 {
            push_char(&mut out, '|');
        }
        push_char(&mut out, ' ');
        out.append(cells[j].as_str());
        let l = cells[j].as_str().unicode_len();
        if l < lens[j] {
            let pad = char_repeat(' ', lens[j] - l);
            out.append(pad.as_str());
        }
        push_char(&mut out, ' ');
        proof {
            lemma_joined_cells_take(strs(cells@), nats(lens@), j as int);
            assert(out@ =~= seq!['|'] + joined_cells(
                strs(cells@).take(j + 1),
                nats(lens@).take(j + 1),
            ));
        }
        j = j + 1;
    }
    push_char(&mut out, '|');
    proof {
        assert(strs(cells@).take(n as int) =~= strs(cells@));
        assert(nats(lens@).take(n as int) =~= nats(lens@));
        assert(out@ =~= table_line(strs(cells@), nats(lens@)));
    }
    out
}

} // verus!
