//! General laws of the conversion engine, stated once and proved: how the
//! three writers treat null temporal values, unknown type names, column
//! headers, column widths and empty result sets.

use vstd::prelude::*;

use crate::fields::{classify_kind, Backend, FieldV, KindV};
use crate::gfm::{
    col_width, col_widths, dash_cells, gfm_cell, gfm_conv_of, gfm_lines, header_cells,
    max_data_width, pad_right, row_cells, table_line,
};
use crate::json::{json_cell, json_conv_of, json_doc, JsonCellV};
use crate::report::{missing_error, renderer_missing, ConvErrorV};
use crate::strutil::repeat_char;
use crate::value::{DateTimeTzV, DateTimeV, DateV, ResultSetV, TimeV, ValueV};
use crate::xlsx::{header_ops, xlsx_cell, xlsx_conv_of, xlsx_ops, XlsxOpV};

verus! {

/// Null handling: a null temporal value produces an omitted cell in the
/// text-table and spreadsheet output, and a JSON null in the
/// structured-document output, for every nullable kind.
pub proof fn lemma_null_temporal_omitted(k: KindV, v: ValueV)
    requires
        (k is DATE && v == ValueV::Date(None::<DateV>)) || (k is TIME && v == ValueV::Time(
            None::<TimeV>,
        )) || (k is DATETIME && v == ValueV::DateTime(None::<DateTimeV>)) || (k is DATETIMETZ
            && v == ValueV::DateTimeTz(None::<DateTimeTzV>)),
    ensures
        gfm_cell(k, v) == Seq::<char>::empty(),
        json_cell(k, v) == JsonCellV::Null,
        forall|row: int, col: int| #[trigger] xlsx_cell(k, row, col, v) is None,
{
}

/// Unknown type names classify to `UNKNOWN` carrying the name itself, and
/// take the unsupported-type degradation path in every writer: no format
/// selects a renderer for them, and each reports the unknown name.
pub proof fn lemma_unknown_type_degrades(name: Seq<char>, backend: Backend)
    requires
        classify_kind(name, backend) is UNKNOWN,
    ensures
        classify_kind(name, backend) == KindV::UNKNOWN(name),
        renderer_missing(classify_kind(name, backend)),
        gfm_conv_of(classify_kind(name, backend)) is None,
        json_conv_of(classify_kind(name, backend)) is None,
        xlsx_conv_of(classify_kind(name, backend)) is None,
        missing_error(classify_kind(name, backend)) == (ConvErrorV::UnknownType { name }),
{
}

/// The reserved unsigned kinds have no renderer in any format either, but
/// report the unimplemented-feature condition, distinct from `UNKNOWN`.
pub proof fn lemma_unsigned_unimplemented(k: KindV)
    requires
        k is UINT8 || k is UINT16 || k is UINT32 || k is UINT64,
    ensures
        renderer_missing(k),
        gfm_conv_of(k) is None,
        json_conv_of(k) is None,
        xlsx_conv_of(k) is None,
        missing_error(k) == (ConvErrorV::Unimplemented { kind: k }),
{
}

/// Header fidelity, text table: with any data present, the first emitted
/// line is the header line, whose cells are exactly the column names, in
/// column order.
pub proof fn lemma_gfm_header_fidelity(rs: ResultSetV)
    requires
        rs.rows.len() > 0,
    ensures
        gfm_lines(rs).len() == 2 + rs.rows.len(),
        gfm_lines(rs)[0] == table_line(header_cells(rs.columns), col_widths(rs.columns, rs.rows)),
        header_cells(rs.columns).len() == rs.columns.len(),
        forall|j: int|
            0 <= j < rs.columns.len() ==> #[trigger] header_cells(rs.columns)[j]
                == rs.columns[j].name,
{
}

/// The bolded header writes of the spreadsheet export are exactly the
/// column names, in column order, at row zero.
pub proof fn lemma_header_ops_names(cols: Seq<FieldV>, j: int)
    requires
        0 <= j <= cols.len(),
    ensures
        header_ops(cols, j).len() == j,
        forall|i: int|
            0 <= i < j ==> #[trigger] header_ops(cols, j)[i] == (XlsxOpV::HeaderText {
                row: 0,
                col: i,
                text: cols[i].name,
            }),
    decreases j,
{
    if j > 0 {
        lemma_header_ops_names(cols, j - 1);
    }
}

/// Header fidelity, spreadsheet: with any data present, the operations
/// open with the header freeze followed by one bolded header write per
/// column, in column order, each carrying that column's name.
pub proof fn lemma_xlsx_header_fidelity(rs: ResultSetV)
    requires
        rs.rows.len() > 0,
    ensures
        xlsx_ops(rs)[0] == XlsxOpV::FreezeHeader,
        forall|j: int|
            0 <= j < rs.columns.len() ==> #[trigger] xlsx_ops(rs)[1 + j] == (XlsxOpV::HeaderText {
                row: 0,
                col: j,
                text: rs.columns[j].name,
            }),
{
    lemma_header_ops_names(rs.columns, rs.columns.len() as int);
    assert forall|j: int| 0 <= j < rs.columns.len() implies #[trigger] xlsx_ops(rs)[1 + j]
        == (XlsxOpV::HeaderText { row: 0, col: j, text: rs.columns[j].name }) by {
        assert(header_ops(rs.columns, rs.columns.len() as int)[j] == (XlsxOpV::HeaderText {
            row: 0,
            col: j,
            text: rs.columns[j].name,
        }));
    }
}

/// The repeated character sequence has exactly the requested length, and
/// holds that character everywhere.
pub proof fn lemma_repeat_char_len(c: char, n: nat)
    ensures
        repeat_char(c, n).len() == n,
        forall|i: int| 0 <= i < n ==> repeat_char(c, n)[i] == c,
    decreases n,
{
    if n > 0 {
        lemma_repeat_char_len(c, (n - 1) as nat);
    }
}

/// No data cell of column `j` is longer than the column's recorded
/// longest data cell.
pub proof fn lemma_max_data_width_bound(
    cols: Seq<FieldV>,
    rows: Seq<Seq<ValueV>>,
    j: int,
    r: int,
)
    requires
        0 <= r < rows.len(),
    ensures
        gfm_cell(cols[j].kind, rows[r][j]).len() <= max_data_width(cols, rows, j),
    decreases rows.len(),
{
    if r == rows.len() - 1 {
        assert(rows.last() == rows[r]);
    } else {
        lemma_max_data_width_bound(cols, rows.drop_last(), j, r);
        assert(rows.drop_last()[r] == rows[r]);
    }
}

/// The recorded longest data cell length is attained: it is zero for no
/// rows, else the length of some row's cell.
pub proof fn lemma_max_data_width_attained(cols: Seq<FieldV>, rows: Seq<Seq<ValueV>>, j: int)
    ensures
        rows.len() == 0 ==> max_data_width(cols, rows, j) == 0,
        rows.len() > 0 ==> exists|r: int|
            0 <= r < rows.len() && max_data_width(cols, rows, j) == gfm_cell(
                cols[j].kind,
                #[trigger] rows[r][j],
            ).len(),
    decreases rows.len(),
{
    if rows.len() > 0 {
        lemma_max_data_width_attained(cols, rows.drop_last(), j);
        let prev = max_data_width(cols, rows.drop_last(), j);
        let cur = gfm_cell(cols[j].kind, rows.last()[j]).len();
        if cur > prev {
            assert(rows[rows.len() - 1] == rows.last());
        } else if rows.drop_last().len() > 0 {
            let r0 = choose|r: int|
                0 <= r < rows.drop_last().len() && prev == gfm_cell(
                    cols[j].kind,
                    #[trigger] rows.drop_last()[r][j],
                ).len();
            assert(rows.drop_last()[r0] == rows[r0]);
        } else {
            assert(prev == 0);
            assert(rows[rows.len() - 1] == rows.last());
        }
    }
}

/// Width computation, text table: a column's width is the longest rendered
/// length across its header and all its data cells — every one of them
/// fits, and the width is attained by one of them. The separator cell for
/// the column is a dash repeated to exactly that width, and every cell of
/// the column padded to it has exactly that width in its line.
pub proof fn lemma_gfm_column_width(rs: ResultSetV, j: int)
    requires
        0 <= j < rs.columns.len(),
    ensures
        col_widths(rs.columns, rs.rows)[j] == col_width(rs.columns, rs.rows, j),
        col_width(rs.columns, rs.rows, j) >= rs.columns[j].name.len(),
        forall|r: int|
            0 <= r < rs.rows.len() ==> gfm_cell(rs.columns[j].kind, #[trigger] rs.rows[r][j]).len()
                <= col_width(rs.columns, rs.rows, j),
        col_width(rs.columns, rs.rows, j) == rs.columns[j].name.len() || exists|r: int|
            0 <= r < rs.rows.len() && col_width(rs.columns, rs.rows, j) == gfm_cell(
                rs.columns[j].kind,
                #[trigger] rs.rows[r][j],
            ).len(),
        dash_cells(col_widths(rs.columns, rs.rows))[j].len() == col_width(rs.columns, rs.rows, j),
        forall|r: int|
            0 <= r < rs.rows.len() ==> pad_right(
                row_cells(rs.columns, rs.rows[r])[j],
                col_width(rs.columns, rs.rows, j),
            ).len() == col_width(rs.columns, rs.rows, j),
        pad_right(rs.columns[j].name, col_width(rs.columns, rs.rows, j)).len() == col_width(
            rs.columns,
            rs.rows,
            j,
        ),
{
    let w = col_width(rs.columns, rs.rows, j);
    assert forall|r: int| 0 <= r < rs.rows.len() implies gfm_cell(
        rs.columns[j].kind,
        #[trigger] rs.rows[r][j],
    ).len() <= w by {
        lemma_max_data_width_bound(rs.columns, rs.rows, j, r);
    }
    lemma_max_data_width_attained(rs.columns, rs.rows, j);
    lemma_repeat_char_len('-', w);
    assert forall|r: int| 0 <= r < rs.rows.len() implies pad_right(
        row_cells(rs.columns, rs.rows[r])[j],
        w,
    ).len() == w by {
        let cell = row_cells(rs.columns, rs.rows[r])[j];
        assert(cell == gfm_cell(rs.columns[j].kind, rs.rows[r][j]));
        if cell.len() < w {
            lemma_repeat_char_len(' ', (w - cell.len()) as nat);
        }
    }
    if rs.columns[j].name.len() < w {
        lemma_repeat_char_len(' ', (w - rs.columns[j].name.len()) as nat);
    }
}

/// Empty-result-set behavior: a zero-row result set produces the empty
/// line sequence in the text table, the empty-but-valid array in the
/// structured document, and no spreadsheet operations.
pub proof fn lemma_empty_result(rs: ResultSetV)
    requires
        rs.rows.len() == 0,
    ensures
        gfm_lines(rs) == Seq::<Seq<char>>::empty(),
        json_doc(rs) == seq!['[', '\n', ']', '\n'],
        xlsx_ops(rs) == Seq::<XlsxOpV>::empty(),
{
    assert(json_doc(rs) =~= seq!['[', '\n', ']', '\n']);
}

} // verus!
