//! Opening a saved table and finding its columns.

use std::path::PathBuf;
use vstd::prelude::*;

use crate::error::{ErrorView, RayforceAdapterError};
use crate::path::{c_bytes, c_safe, c_string, path_lossy, path_to_cstring};
use crate::protocol::{
    action_view, fits, Action, ActionView, Reply, ReplyView, TableKind, RAY_OK,
};

verus! {

/// The label of a table.
pub open spec fn label_of(kind: TableKind) -> Seq<char> {
    match kind {
        TableKind::Tx => "tx"@,
        TableKind::Datom => "datom"@,
    }
}

/// The columns that are read of a table, in the order in which they are looked
/// up.
pub open spec fn columns_read(kind: TableKind) -> Seq<Seq<char>> {
    match kind {
        TableKind::Tx => seq![
            "tx_id"@,
            "tx_time"@,
            "actor"@,
            "actor_kind"@,
            "command"@,
            "idempotency_key"@,
            "metadata_json"@,
        ],
        TableKind::Datom => seq!["tx_id"@, "entity"@, "attr"@, "value_json"@, "added"@],
    }
}

/// The label of a table.
pub fn table_label(kind: TableKind) -> (res: &'static str)
    ensures
        res@ == label_of(kind),
{
    match kind {
        TableKind::Tx => "tx",
        TableKind::Datom => "datom",
    }
}

/// How many columns are read of a table.
pub fn column_count(kind: TableKind) -> (res: usize)
    ensures
        res == columns_read(kind).len(),
{
    match kind {
        TableKind::Tx => 7,
        TableKind::Datom => 5,
    }
}

/// The name of the `col`th column that is read of a table.
pub fn column_name(kind: TableKind, col: usize) -> (res: &'static str)
    requires
        col < columns_read(kind).len(),
    ensures
        res@ == columns_read(kind)[col as int],
{
    match kind {
        TableKind::Tx => match col {
            0 => "tx_id",
            1 => "tx_time",
            2 => "actor",
            3 => "actor_kind",
            4 => "command",
            5 => "idempotency_key",
            _ => "metadata_json",
        },
        TableKind::Datom => match col {
            0 => "tx_id",
            1 => "entity",
            2 => "attr",
            3 => "value_json",
            _ => "added",
        },
    }
}

/// How far a table has been opened: what it is that was asked for.
#[derive(Clone, Copy, Debug, PartialEq, Eq, Structural)]
pub enum OpenPoint {
    /// Is there a directory?
    CheckDir,
    /// Is there a symbol file?
    CheckSym,
    /// The symbols loaded.
    LoadSym,
    /// The table read.
    Read,
    /// Nothing: there is no table.
    Absent,
    /// Nothing: the table is open.
    Opened,
}

/// A saved table being opened.
#[derive(Debug)]
pub struct TableReader {
    kind: TableKind,
    dir: PathBuf,
    sym_path: PathBuf,
    at: OpenPoint,
}

/// A `TableReader` with its parts in the open.
#[verifier::ext_equal]
pub struct ReaderView {
    pub kind: TableKind,
    pub dir: PathBuf,
    pub sym_path: PathBuf,
    pub at: OpenPoint,
}

impl View for TableReader {
    type V = ReaderView;

    closed spec fn view(&self) -> ReaderView {
        ReaderView { kind: self.kind, dir: self.dir, sym_path: self.sym_path, at: self.at }
    }
}

impl ReaderView {
    /// The start of opening the table in `dir`.
    pub open spec fn start(kind: TableKind, dir: PathBuf, sym_path: PathBuf) -> ReaderView {
        ReaderView { kind, dir, sym_path, at: OpenPoint::CheckDir }
    }

    /// What is asked for at this point.
    pub open spec fn action(self) -> Option<ActionView> {
        match self.at {
            OpenPoint::CheckDir => Some(ActionView::PathExists(self.dir)),
            OpenPoint::CheckSym => Some(ActionView::PathExists(self.sym_path)),
            OpenPoint::LoadSym => Some(ActionView::SymLoad(c_bytes(self.sym_path))),
            OpenPoint::Read => Some(
                ActionView::ReadSplayed {
                    table: self.kind,
                    dir: c_bytes(self.dir),
                    sym: c_bytes(self.sym_path),
                },
            ),
            OpenPoint::Absent | OpenPoint::Opened => None,
        }
    }

    /// The same opening at another point.
    pub open spec fn at_point(self, at: OpenPoint) -> ReaderView {
        ReaderView { at, ..self }
    }

    /// The point at which the table is read, if its paths can be handed over.
    pub open spec fn at_read(self) -> Result<ReaderView, ErrorView> {
        if !c_safe(self.dir) {
            Err(ErrorView::NulPath(path_lossy(self.dir)))
        } else if !c_safe(self.sym_path) {
            Err(ErrorView::NulPath(path_lossy(self.sym_path)))
        } else {
            Ok(self.at_point(OpenPoint::Read))
        }
    }

    /// Where the answer to the request of this point leads.
    pub open spec fn advance(self, reply: ReplyView) -> Result<ReaderView, ErrorView> {
        match (self.at, reply) {
            (OpenPoint::CheckDir, ReplyView::Flag(found)) => Ok(
                self.at_point(
                    if found {
                        OpenPoint::CheckSym
                    } else {
                        OpenPoint::Absent
                    },
                ),
            ),
            (OpenPoint::CheckSym, ReplyView::Flag(found)) => if !found {
                self.at_read()
            } else if !c_safe(self.sym_path) {
                Err(ErrorView::NulPath(path_lossy(self.sym_path)))
            } else {
                Ok(self.at_point(OpenPoint::LoadSym))
            },
            (OpenPoint::LoadSym, ReplyView::Code(code)) => if code != RAY_OK {
                Err(ErrorView::SymLoad { path: self.sym_path, code })
            } else {
                self.at_read()
            },
            (OpenPoint::Read, ReplyView::Object(object)) => if object.usable() {
                Ok(self.at_point(OpenPoint::Opened))
            } else {
                Err(ErrorView::RayforceRead(label_of(self.kind)))
            },
            _ => Ok(self),
        }
    }
}

/// The view of an opening that may have failed.
pub open spec fn reader_result(res: Result<TableReader, RayforceAdapterError>) -> Result<
    ReaderView,
    ErrorView,
> {
    match res {
        Ok(reader) => Ok(reader@),
        Err(err) => Err(err@),
    }
}

impl TableReader {
    /// Starts to open the table in `dir`.
    pub fn open(kind: TableKind, dir: PathBuf, sym_path: PathBuf) -> (res: Self)
        ensures
            res@ == ReaderView::start(kind, dir, sym_path),
    {
        TableReader { kind, dir, sym_path, at: OpenPoint::CheckDir }
    }

    /// The request that this process waits on, or none once it is known whether
    /// there is a table and it is open.
    pub fn action(&self) -> (res: Option<Action>)
        ensures
            action_view(res) == self@.action(),
    {
        match self.at {
            OpenPoint::CheckDir => Some(Action::PathExists(self.dir.clone())),
            OpenPoint::CheckSym => Some(Action::PathExists(self.sym_path.clone())),
            OpenPoint::LoadSym => Some(Action::SymLoad(c_string(&self.sym_path))),
            OpenPoint::Read => Some(
                Action::ReadSplayed {
                    table: self.kind,
                    dir: c_string(&self.dir),
                    sym: c_string(&self.sym_path),
                },
            ),
            OpenPoint::Absent | OpenPoint::Opened => None,
        }
    }

    /// Whether there is a table.
    pub fn found(&self) -> (res: bool)
        ensures
            res == (self@.at != OpenPoint::Absent),
    {
        self.at != OpenPoint::Absent
    }

    fn at_point(self, at: OpenPoint) -> (res: Self)
        ensures
            res@ == self@.at_point(at),
    {
        TableReader { at, ..self }
    }

    fn at_read(self) -> (res: Result<Self, RayforceAdapterError>)
        ensures
            reader_result(res) == self@.at_read(),
    {
        let _dir = path_to_cstring(&self.dir)?;
        let _sym = path_to_cstring(&self.sym_path)?;
        Ok(self.at_point(OpenPoint::Read))
    }

    /// Takes the answer to the request of `action`.
    pub fn advance(self, reply: Reply) -> (res: Result<Self, RayforceAdapterError>)
        requires
            fits(self@.action(), reply@),
        ensures
            reader_result(res) == self@.advance(reply@),
    {
        match (self.at, reply) {
            (OpenPoint::CheckDir, Reply::Flag(true)) => Ok(self.at_point(OpenPoint::CheckSym)),
            (OpenPoint::CheckDir, _) => Ok(self.at_point(OpenPoint::Absent)),
            (OpenPoint::CheckSym, Reply::Flag(true)) => {
                let _sym = path_to_cstring(&self.sym_path)?;
                Ok(self.at_point(OpenPoint::LoadSym))
            },
            (OpenPoint::CheckSym, _) => self.at_read(),
            (OpenPoint::LoadSym, Reply::Code(code)) => {
                if code != RAY_OK {
                    return Err(RayforceAdapterError::SymLoad { path: self.sym_path, code });
                }
                self.at_read()
            },
            (OpenPoint::Read, Reply::Object(object)) => {
                if !object.is_usable() {
                    return Err(RayforceAdapterError::RayforceRead(table_label(self.kind)));
                }
                Ok(self.at_point(OpenPoint::Opened))
            },
            _ => Ok(self),
        }
    }
}

/// The columns of an open table being looked up, one after the other.
#[derive(Debug)]
pub struct ColumnLookup {
    kind: TableKind,
    col: usize,
    name_id: Option<i64>,
}

/// A `ColumnLookup` with its parts in the open: the columns before `col` are
/// found, and `name_id` is the id of the name of `col`, once known.
#[verifier::ext_equal]
pub struct LookupView {
    pub kind: TableKind,
    pub col: int,
    pub name_id: Option<i64>,
}

impl View for ColumnLookup {
    type V = LookupView;

    closed spec fn view(&self) -> LookupView {
        LookupView { kind: self.kind, col: self.col as int, name_id: self.name_id }
    }
}

impl LookupView {
    /// The start of looking up the columns of a table.
    pub open spec fn start(kind: TableKind) -> LookupView {
        LookupView { kind, col: 0, name_id: None }
    }

    /// Whether a column is left to be found.
    pub open spec fn pending(self) -> bool {
        self.col < columns_read(self.kind).len()
    }

    /// What is asked for at this point.
    pub open spec fn action(self) -> Option<ActionView> {
        if !self.pending() {
            None
        } else {
            match self.name_id {
                None => Some(ActionView::SymFind(columns_read(self.kind)[self.col])),
                Some(name_id) => Some(ActionView::GetColumn { table: self.kind, name_id }),
            }
        }
    }

    /// The failure to find the column.
    pub open spec fn missing(self) -> ErrorView {
        ErrorView::MissingColumn {
            table: label_of(self.kind),
            column: columns_read(self.kind)[self.col],
        }
    }

    /// Where the answer to the request of this point leads.
    pub open spec fn advance(self, reply: ReplyView) -> Result<LookupView, ErrorView> {
        match reply {
            ReplyView::Symbol(id) => if id < 0 {
                Err(self.missing())
            } else {
                Ok(LookupView { name_id: Some(id), ..self })
            },
            ReplyView::Object(object) => if object.usable() {
                Ok(LookupView { kind: self.kind, col: self.col + 1, name_id: None })
            } else {
                Err(self.missing())
            },
            _ => Ok(self),
        }
    }
}

/// The view of a lookup that may have failed.
pub open spec fn lookup_result(res: Result<ColumnLookup, RayforceAdapterError>) -> Result<
    LookupView,
    ErrorView,
> {
    match res {
        Ok(lookup) => Ok(lookup@),
        Err(err) => Err(err@),
    }
}

impl ColumnLookup {
    /// Starts to look up the columns that are read of a table.
    pub fn new(kind: TableKind) -> (res: Self)
        ensures
            res@ == LookupView::start(kind),
    {
        ColumnLookup { kind, col: 0, name_id: None }
    }

    /// The request that this process waits on, or none once all are found.
    pub fn action(&self) -> (res: Option<Action>)
        ensures
            action_view(res) == self@.action(),
    {
        if self.col >= column_count(self.kind) {
            return None;
        }
        match self.name_id {
            None => Some(Action::SymFind(column_name(self.kind, self.col))),
            Some(name_id) => Some(Action::GetColumn { table: self.kind, name_id }),
        }
    }

    /// Takes the answer to the request of `action`.
    pub fn advance(self, reply: Reply) -> (res: Result<Self, RayforceAdapterError>)
        requires
            fits(self@.action(), reply@),
        ensures
            lookup_result(res) == self@.advance(reply@),
    {
        match reply {
            Reply::Symbol(id) => {
                if id < 0 {
                    return Err(self.missing());
                }
                Ok(ColumnLookup { name_id: Some(id), ..self })
            },
            Reply::Object(object) => {
                if !object.is_usable() {
                    return Err(self.missing());
                }
                Ok(ColumnLookup { kind: self.kind, col: self.col + 1, name_id: None })
            },
            _ => Ok(self),
        }
    }

    fn missing(&self) -> (res: RayforceAdapterError)
        requires
            self@.pending(),
        ensures
            res@ == self@.missing(),
    {
        RayforceAdapterError::MissingColumn {
            table: table_label(self.kind),
            column: column_name(self.kind, self.col),
        }
    }
}

} // verus!
