//! Tables as plain values: what is written to the store.

use vstd::prelude::*;

verus! {

/// The store's type code of a column of 64-bit integers.
pub const RAY_I64: i8 = 5;

/// The store's type code of a column of symbols.
pub const RAY_SYM: i8 = 12;

/// The cells of one column.
#[derive(Debug)]
pub enum Cells {
    I64(Vec<i64>),
    Sym(Vec<String>),
}

/// A named column.
#[derive(Debug)]
pub struct Column {
    pub name: &'static str,
    pub cells: Cells,
}

/// A labelled table.
#[derive(Debug)]
pub struct Table {
    pub label: &'static str,
    pub columns: Vec<Column>,
}

/// `Cells` as sequences.
#[verifier::ext_equal]
pub enum CellsView {
    I64(Seq<i64>),
    Sym(Seq<Seq<char>>),
}

/// A `Column` as sequences.
#[verifier::ext_equal]
pub struct ColumnView {
    pub name: Seq<char>,
    pub cells: CellsView,
}

/// A `Table` as sequences.
#[verifier::ext_equal]
pub struct TableView {
    pub label: Seq<char>,
    pub columns: Seq<ColumnView>,
}

/// The texts of a sequence of strings.
pub open spec fn texts(strings: Seq<String>) -> Seq<Seq<char>> {
    strings.map_values(|s: String| s@)
}

/// Mapping a sequence that grew by one element maps that element too.
pub broadcast proof fn lemma_map_push<A, B>(s: Seq<A>, f: spec_fn(A) -> B, a: A)
    ensures
        #[trigger] s.push(a).map_values(f) == s.map_values(f).push(f(a)),
{
    assert(s.push(a).map_values(f) =~= s.map_values(f).push(f(a)));
}

impl CellsView {
    /// How many cells there are.
    pub open spec fn len(self) -> nat {
        match self {
            CellsView::I64(values) => values.len(),
            CellsView::Sym(values) => values.len(),
        }
    }

    /// The type code of a column with these cells.
    pub open spec fn type_code(self) -> i8 {
        match self {
            CellsView::I64(_) => RAY_I64,
            CellsView::Sym(_) => RAY_SYM,
        }
    }
}

impl View for Cells {
    type V = CellsView;

    open spec fn view(&self) -> CellsView {
        match *self {
            Cells::I64(values) => CellsView::I64(values@),
            Cells::Sym(values) => CellsView::Sym(texts(values@)),
        }
    }
}

impl View for Column {
    type V = ColumnView;

    open spec fn view(&self) -> ColumnView {
        ColumnView { name: self.name@, cells: self.cells@ }
    }
}

/// The columns of a sequence, each by its view.
pub open spec fn column_views(columns: Seq<Column>) -> Seq<ColumnView> {
    columns.map_values(|c: Column| c@)
}

impl View for Table {
    type V = TableView;

    open spec fn view(&self) -> TableView {
        TableView { label: self.label@, columns: column_views(self.columns@) }
    }
}

/// Cells that exist are countable.
pub(crate) proof fn lemma_cells_fit(table: Table)
    ensures
        table@.columns.len() <= usize::MAX,
        forall|c: int|
            0 <= c < table@.columns.len() ==> (#[trigger] table@.columns[c]).cells.len()
                <= usize::MAX,
{
    assert(table.columns.len() == table@.columns.len());
    assert forall|c: int| 0 <= c < table@.columns.len() implies (
    #[trigger] table@.columns[c]).cells.len() <= usize::MAX by {
        match table.columns@[c].cells {
            Cells::I64(values) => assert(values.len() == values@.len()),
            Cells::Sym(values) => assert(values.len() == values@.len()),
        }
    }
}

impl Cells {
    /// How many cells there are.
    pub fn len(&self) -> (res: usize)
        ensures
            res == self@.len(),
    {
        match self {
            Cells::I64(values) => values.len(),
            Cells::Sym(values) => values.len(),
        }
    }

    /// The type code of a column with these cells.
    pub fn type_code(&self) -> (res: i8)
        ensures
            res == self@.type_code(),
    {
        match self {
            Cells::I64(_) => RAY_I64,
            Cells::Sym(_) => RAY_SYM,
        }
    }
}

} // verus!
