//! Building a table in the store, column by column and cell by cell.

use vstd::prelude::*;

use crate::error::{ErrorView, RayforceAdapterError};
use crate::protocol::{action_view, fits, Action, ActionView, Object, Reply, ReplyView};
use crate::table::{lemma_cells_fit, Cells, CellsView, Table, TableView};

verus! {

/// How far a table has been built: what it is that the store was asked for.
#[derive(Clone, Copy, Debug, PartialEq, Eq, Structural)]
pub enum BuildPoint {
    /// The table itself.
    Table,
    /// The vector of a column.
    Column { col: usize },
    /// A cell: an integer appended, or the id of its symbol.
    Cell { col: usize, row: usize },
    /// The symbol of a cell appended by its id.
    Symbol { col: usize, row: usize, id: i64 },
    /// The id of a column's name.
    Name { col: usize },
    /// The column added to the table.
    Attach { col: usize, id: i64 },
    /// Nothing: the table is complete.
    Built,
}

/// A table on its way into the store.
#[derive(Debug)]
pub struct TableBuilder {
    table: Table,
    at: BuildPoint,
}

/// A `TableBuilder` by the view of its table.
#[verifier::ext_equal]
pub struct BuilderView {
    pub table: TableView,
    pub at: BuildPoint,
}

impl View for TableBuilder {
    type V = BuilderView;

    closed spec fn view(&self) -> BuilderView {
        BuilderView { table: self.table@, at: self.at }
    }
}

impl BuilderView {
    /// The start of building `table`.
    pub open spec fn start(table: TableView) -> BuilderView {
        BuilderView { table, at: BuildPoint::Table }
    }

    /// The cells of a column.
    pub open spec fn cells(self, col: usize) -> CellsView {
        self.table.columns[col as int].cells
    }

    /// Whether the point lies within the table.
    pub open spec fn wf(self) -> bool {
        &&& self.table.columns.len() <= usize::MAX
        &&& forall|c: int|
            0 <= c < self.table.columns.len() ==> (#[trigger] self.table.columns[c]).cells.len()
                <= usize::MAX
        &&& match self.at {
            BuildPoint::Table | BuildPoint::Built => true,
            BuildPoint::Column { col }
            | BuildPoint::Name { col }
            | BuildPoint::Attach { col, .. } => col < self.table.columns.len(),
            BuildPoint::Cell { col, row } => col < self.table.columns.len() && row < self.cells(
                col,
            ).len(),
            BuildPoint::Symbol { col, row, .. } => {
                &&& col < self.table.columns.len()
                &&& row < self.cells(col).len()
                &&& self.cells(col) is Sym
            },
        }
    }

    /// What the store is asked for at this point.
    pub open spec fn action(self) -> Option<ActionView> {
        match self.at {
            BuildPoint::Table => Some(ActionView::TableNew(self.table.columns.len() as i64)),
            BuildPoint::Column { col } => Some(
                ActionView::VecNew {
                    type_code: self.cells(col).type_code(),
                    capacity: self.cells(col).len() as i64,
                },
            ),
            BuildPoint::Cell { col, row } => match self.cells(col) {
                CellsView::I64(values) => Some(ActionView::VecAppend(values[row as int])),
                CellsView::Sym(values) => Some(ActionView::SymIntern(values[row as int])),
            },
            BuildPoint::Symbol { id, .. } => Some(ActionView::VecAppend(id)),
            BuildPoint::Name { col } => Some(
                ActionView::SymIntern(self.table.columns[col as int].name),
            ),
            BuildPoint::Attach { id, .. } => Some(ActionView::TableAddCol(id)),
            BuildPoint::Built => None,
        }
    }

    /// The point at which column `col` starts, or the end after the last one.
    pub open spec fn at_column(self, col: int) -> BuilderView {
        BuilderView {
            at: if col < self.table.columns.len() {
                BuildPoint::Column { col: col as usize }
            } else {
                BuildPoint::Built
            },
            ..self
        }
    }

    /// The point of cell `row` of column `col`, or of the column's name after
    /// its last cell.
    pub open spec fn at_cell(self, col: usize, row: int) -> BuilderView {
        BuilderView {
            at: if row < self.cells(col).len() {
                BuildPoint::Cell { col, row: row as usize }
            } else {
                BuildPoint::Name { col }
            },
            ..self
        }
    }

    /// Where the answer to the request of this point leads: on, unless the store
    /// gave no object.
    pub open spec fn advance(self, reply: ReplyView) -> Result<BuilderView, ErrorView> {
        match (self.at, reply) {
            (_, ReplyView::Object(Object::Null)) => Err(ErrorView::Allocation(self.table.label)),
            (BuildPoint::Table, _) => Ok(self.at_column(0)),
            (BuildPoint::Column { col }, _) => Ok(self.at_cell(col, 0)),
            (BuildPoint::Cell { col, row }, ReplyView::Symbol(id)) => Ok(
                BuilderView { at: BuildPoint::Symbol { col, row, id }, ..self },
            ),
            (BuildPoint::Cell { col, row }, _) => Ok(self.at_cell(col, row + 1)),
            (BuildPoint::Symbol { col, row, .. }, _) => Ok(self.at_cell(col, row + 1)),
            (BuildPoint::Name { col }, ReplyView::Symbol(id)) => Ok(
                BuilderView { at: BuildPoint::Attach { col, id }, ..self },
            ),
            (BuildPoint::Attach { col, .. }, _) => Ok(self.at_column(col + 1)),
            _ => Ok(self),
        }
    }
}

/// The view of a builder that may have failed.
pub open spec fn builder_result(res: Result<TableBuilder, RayforceAdapterError>) -> Result<
    BuilderView,
    ErrorView,
> {
    match res {
        Ok(builder) => Ok(builder@),
        Err(err) => Err(err@),
    }
}

impl TableBuilder {
    #[verifier::type_invariant]
    spec fn inv(self) -> bool {
        self@.wf()
    }

    /// Starts to build `table`.
    pub fn new(table: Table) -> (res: Self)
        ensures
            res@ == BuilderView::start(table@),
    {
        proof {
            lemma_cells_fit(table);
        }
        TableBuilder { table, at: BuildPoint::Table }
    }

    /// The request that this process waits on, or none once the table is built.
    pub fn action(&self) -> (res: Option<Action>)
        ensures
            action_view(res) == self@.action(),
    {
        proof {
            use_type_invariant(self);
        }
        match self.at {
            BuildPoint::Table => Some(Action::TableNew(self.table.columns.len() as i64)),
            BuildPoint::Column { col } => {
                let cells = &self.table.columns[col].cells;
                Some(
                    Action::VecNew { type_code: cells.type_code(), capacity: cells.len() as i64 },
                )
            },
            BuildPoint::Cell { col, row } => match &self.table.columns[col].cells {
                Cells::I64(values) => Some(Action::VecAppend(values[row])),
                Cells::Sym(values) => Some(Action::SymIntern(values[row].clone())),
            },
            BuildPoint::Symbol { id, .. } => Some(Action::VecAppend(id)),
            BuildPoint::Name { col } => Some(
                Action::SymIntern(self.table.columns[col].name.to_owned()),
            ),
            BuildPoint::Attach { id, .. } => Some(Action::TableAddCol(id)),
            BuildPoint::Built => None,
        }
    }

    fn at_column(self, col: usize) -> (res: Self)
        ensures
            res@ == self@.at_column(col as int),
    {
        proof {
            use_type_invariant(&self);
        }
        let at = if col < self.table.columns.len() {
            BuildPoint::Column { col }
        } else {
            BuildPoint::Built
        };
        TableBuilder { at, ..self }
    }

    fn at_cell(self, col: usize, row: usize) -> (res: Self)
        requires
            col < self@.table.columns.len(),
        ensures
            res@ == self@.at_cell(col, row as int),
    {
        proof {
            use_type_invariant(&self);
        }
        let at = if row < self.table.columns[col].cells.len() {
            BuildPoint::Cell { col, row }
        } else {
            BuildPoint::Name { col }
        };
        TableBuilder { at, ..self }
    }

    /// Takes the answer to the request of `action`.
    pub fn advance(self, reply: Reply) -> (res: Result<Self, RayforceAdapterError>)
        requires
            fits(self@.action(), reply@),
        ensures
            builder_result(res) == self@.advance(reply@),
    {
        proof {
            use_type_invariant(&self);
        }
        if let Reply::Object(Object::Null) = reply {
            return Err(RayforceAdapterError::Allocation(self.table.label));
        }
        Ok(
            match (self.at, reply) {
                (BuildPoint::Table, _) => self.at_column(0),
                (BuildPoint::Column { col }, _) => self.at_cell(col, 0),
                (BuildPoint::Cell { col, row }, Reply::Symbol(id)) => TableBuilder {
                    at: BuildPoint::Symbol { col, row, id },
                    ..self
                },
                (BuildPoint::Cell { col, row }, _) => self.at_cell(col, row + 1),
                (BuildPoint::Symbol { col, row, .. }, _) => self.at_cell(col, row + 1),
                (BuildPoint::Name { col }, Reply::Symbol(id)) => TableBuilder {
                    at: BuildPoint::Attach { col, id },
                    ..self
                },
                (BuildPoint::Attach { col, .. }, _) => self.at_column(col + 1),
                _ => self,
            },
        )
    }
}

} // verus!
