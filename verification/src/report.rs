//! Per-column unsupported-type reporting.
//!
//! A column whose kind has no renderer in the requested format is not
//! fatal: the condition is reported at renderer-selection time, once per
//! offending column, and the column is rendered as a no-op placeholder so
//! that the export of all known-good columns still completes.

use vstd::prelude::*;

use crate::fields::{Field, FieldKind, FieldV, KindV};

verus! {

/// Why a column has no renderer: its kind is reserved but unimplemented
/// (the unsigned integer widths), or its reported type name was not
/// recognized at classification time.
#[derive(Clone, Debug, PartialEq, Eq)]
pub enum ConvError {
    Unimplemented { kind: FieldKind },
    UnknownType { name: String },
}

/// Spec-level mirror of [`ConvError`].
pub enum ConvErrorV {
    Unimplemented { kind: KindV },
    UnknownType { name: Seq<char> },
}

impl View for ConvError {
    type V = ConvErrorV;

    open spec fn view(&self) -> ConvErrorV {
        match self {
            ConvError::Unimplemented { kind } => ConvErrorV::Unimplemented { kind: kind@ },
            ConvError::UnknownType { name } => ConvErrorV::UnknownType { name: name@ },
        }
    }
}

/// One reported unsupported-type condition: the offending column's name
/// and the reason its kind has no renderer.
#[derive(Clone, Debug, PartialEq, Eq)]
pub struct Diag {
    pub column: String,
    pub error: ConvError,
}

/// Spec-level mirror of [`Diag`].
pub struct DiagV {
    pub column: Seq<char>,
    pub error: ConvErrorV,
}

impl View for Diag {
    type V = DiagV;

    open spec fn view(&self) -> DiagV {
        DiagV { column: self.column@, error: self.error@ }
    }
}

/// The kinds that have no renderer in any output format.
pub open spec fn renderer_missing(k: KindV) -> bool {
    match k {
        KindV::UINT8 => true,
        KindV::UINT16 => true,
        KindV::UINT32 => true,
        KindV::UINT64 => true,
        KindV::UNKNOWN(_) => true,
        _ => false,
    }
}

/// The condition reported for a kind without a renderer.
pub open spec fn missing_error(k: KindV) -> ConvErrorV {
    match k {
        KindV::UNKNOWN(n) => ConvErrorV::UnknownType { name: n },
        _ => ConvErrorV::Unimplemented { kind: k },
    }
}

/// The conditions a schema gives rise to: one per column whose kind has no
/// renderer, in column order.
pub open spec fn diags_of(cols: Seq<FieldV>) -> Seq<DiagV>
    decreases cols.len(),
{
    if cols.len() == 0 {
        Seq::empty()
    } else {
        diags_of(cols.drop_last()) + if renderer_missing(cols.last().kind) {
            seq![DiagV { column: cols.last().name, error: missing_error(cols.last().kind) }]
        } else {
            Seq::empty()
        }
    }
}

/// Extending a schema by one column extends its conditions by that
/// column's condition, if any.
pub proof fn lemma_diags_of_take(cols: Seq<FieldV>, j: int)
    requires
        0 <= j < cols.len(),
    ensures
        diags_of(cols.take(j + 1)) == diags_of(cols.take(j)) + if renderer_missing(
            cols[j].kind,
        ) {
            seq![DiagV { column: cols[j].name, error: missing_error(cols[j].kind) }]
        } else {
            Seq::<DiagV>::empty()
        },
{
    assert(cols.take(j + 1).drop_last() =~= cols.take(j));
    assert(cols.take(j + 1).last() == cols[j]);
}

/// The reported condition for a column whose kind has no renderer.
pub fn missing_conv_error(field: &Field) -> (e: ConvError)
    requires
        renderer_missing(field@.kind),
    ensures
        e@ == missing_error(field@.kind),
{
    match &field.kind {
        FieldKind::UNKNOWN(n) => ConvError::UnknownType { name: n.clone() },
        FieldKind::UINT8 => ConvError::Unimplemented { kind: FieldKind::UINT8 },
        FieldKind::UINT16 => ConvError::Unimplemented { kind: FieldKind::UINT16 },
        FieldKind::UINT32 => ConvError::Unimplemented { kind: FieldKind::UINT32 },
        FieldKind::UINT64 => ConvError::Unimplemented { kind: FieldKind::UINT64 },
        _ => unreached(),
    }
}

} // verus!
