//! The requests that the log makes of its store, and the answers.
//!
//! A process (building and saving tables, opening a log, loading it) shows the
//! request it waits on and is handed the answer, one at a time.

use std::path::PathBuf;
use vstd::prelude::*;

use crate::decode::{
    datom_row_views, parsed_view, tx_row_views, DatomRow, DatomRowView, TxRow, TxRowView,
};
use crate::error::{ErrorView, RayforceAdapterError};
use crate::log::{DatomValue, DatomValueView};

verus! {

/// The code with which the store reports success.
pub const RAY_OK: i32 = 0;

/// The type code of an error object.
pub const RAY_ERROR: i8 = 127;

/// Which of the two tables.
#[derive(Clone, Copy, Debug, PartialEq, Eq, Structural)]
pub enum TableKind {
    Tx,
    Datom,
}

/// What a call of the store that gives an object came to: none, or one with
/// that type code.
#[derive(Clone, Copy, Debug, PartialEq, Eq, Structural)]
pub enum Object {
    Null,
    Typed(i8),
}

/// One thing asked of the store or of the file system. Paths for the store are
/// the bytes of C strings.
#[allow(inconsistent_fields)]
#[derive(Debug)]
pub enum Action {
    /// Set up the symbol table. Answered by a code.
    SymInit,
    /// Does the path exist? Answered by a flag.
    PathExists(PathBuf),
    /// Create the directory and all its parents. Answered by an I/O result.
    CreateDirAll(PathBuf),
    /// Remove the directory and all it holds; failure does not matter.
    RemoveDirAll(PathBuf),
    /// Move a directory. Answered by an I/O result.
    Rename { from: PathBuf, to: PathBuf },
    /// Load the symbol table from a file. Answered by a code.
    SymLoad(Vec<u8>),
    /// Save the symbol table to a file. Answered by a code.
    SymSave(Vec<u8>),
    /// Read a splayed table. Answered by an object.
    ReadSplayed { table: TableKind, dir: Vec<u8>, sym: Vec<u8> },
    /// The id of a symbol that must exist already. Answered by a symbol id,
    /// negative where there is none.
    SymFind(&'static str),
    /// Look up a column of a table that was read. Answered by an object.
    GetColumn { table: TableKind, name_id: i64 },
    /// Hand over all rows of the `datom` table that was read, by the columns
    /// looked up. Answered by `datom` rows.
    ReadDatomRows,
    /// Hand over all rows of the `tx` table that was read, by the columns looked
    /// up. Answered by `tx` rows.
    ReadTxRows,
    /// Parse the JSON text of a datom's value. Answered by a parse result.
    ParseValue(String),
    /// Start a table for that many columns. Answered by an object.
    TableNew(i64),
    /// Start a column vector. Answered by an object.
    VecNew { type_code: i8, capacity: i64 },
    /// Append an integer, or a symbol by its id, to the vector. Answered by an
    /// object.
    VecAppend(i64),
    /// The id of a symbol, new or not. Answered by a symbol id.
    SymIntern(String),
    /// Add the vector to the table under that name, and release the vector.
    /// Answered by an object.
    TableAddCol(i64),
    /// Save the table as a splayed table. Answered by a code.
    SplaySave { dir: Vec<u8>, sym: Vec<u8> },
}

/// An answer.
#[derive(Debug)]
pub enum Reply {
    Code(i32),
    Flag(bool),
    Io(Result<(), std::io::Error>),
    Done,
    Object(Object),
    Symbol(i64),
    DatomRows(Vec<DatomRow>),
    TxRows(Vec<TxRow>),
    Parsed(Result<DatomValue, serde_json::Error>),
}

/// An `Action` with its bytes and texts as sequences.
#[allow(inconsistent_fields)]
#[verifier::ext_equal]
pub enum ActionView {
    SymInit,
    PathExists(PathBuf),
    CreateDirAll(PathBuf),
    RemoveDirAll(PathBuf),
    Rename { from: PathBuf, to: PathBuf },
    SymLoad(Seq<u8>),
    SymSave(Seq<u8>),
    ReadSplayed { table: TableKind, dir: Seq<u8>, sym: Seq<u8> },
    SymFind(Seq<char>),
    GetColumn { table: TableKind, name_id: i64 },
    ReadDatomRows,
    ReadTxRows,
    ParseValue(Seq<char>),
    TableNew(i64),
    VecNew { type_code: i8, capacity: i64 },
    VecAppend(i64),
    SymIntern(Seq<char>),
    TableAddCol(i64),
    SplaySave { dir: Seq<u8>, sym: Seq<u8> },
}

/// A `Reply` with its rows and values by their views.
#[verifier::ext_equal]
pub enum ReplyView {
    Code(i32),
    Flag(bool),
    Io(Result<(), std::io::Error>),
    Done,
    Object(Object),
    Symbol(i64),
    DatomRows(Seq<DatomRowView>),
    TxRows(Seq<TxRowView>),
    Parsed(Result<DatomValueView, serde_json::Error>),
}

impl View for Action {
    type V = ActionView;

    open spec fn view(&self) -> ActionView {
        match *self {
            Action::SymInit => ActionView::SymInit,
            Action::PathExists(path) => ActionView::PathExists(path),
            Action::CreateDirAll(path) => ActionView::CreateDirAll(path),
            Action::RemoveDirAll(path) => ActionView::RemoveDirAll(path),
            Action::Rename { from, to } => ActionView::Rename { from, to },
            Action::SymLoad(path) => ActionView::SymLoad(path@),
            Action::SymSave(path) => ActionView::SymSave(path@),
            Action::ReadSplayed { table, dir, sym } => ActionView::ReadSplayed {
                table,
                dir: dir@,
                sym: sym@,
            },
            Action::SymFind(name) => ActionView::SymFind(name@),
            Action::GetColumn { table, name_id } => ActionView::GetColumn { table, name_id },
            Action::ReadDatomRows => ActionView::ReadDatomRows,
            Action::ReadTxRows => ActionView::ReadTxRows,
            Action::ParseValue(json) => ActionView::ParseValue(json@),
            Action::TableNew(columns) => ActionView::TableNew(columns),
            Action::VecNew { type_code, capacity } => ActionView::VecNew { type_code, capacity },
            Action::VecAppend(cell) => ActionView::VecAppend(cell),
            Action::SymIntern(text) => ActionView::SymIntern(text@),
            Action::TableAddCol(name_id) => ActionView::TableAddCol(name_id),
            Action::SplaySave { dir, sym } => ActionView::SplaySave { dir: dir@, sym: sym@ },
        }
    }
}

impl View for Reply {
    type V = ReplyView;

    open spec fn view(&self) -> ReplyView {
        match *self {
            Reply::Code(code) => ReplyView::Code(code),
            Reply::Flag(flag) => ReplyView::Flag(flag),
            Reply::Io(result) => ReplyView::Io(result),
            Reply::Done => ReplyView::Done,
            Reply::Object(object) => ReplyView::Object(object),
            Reply::Symbol(id) => ReplyView::Symbol(id),
            Reply::DatomRows(rows) => ReplyView::DatomRows(datom_row_views(rows@)),
            Reply::TxRows(rows) => ReplyView::TxRows(tx_row_views(rows@)),
            Reply::Parsed(parsed) => ReplyView::Parsed(parsed_view(parsed)),
        }
    }
}

impl ActionView {
    /// Whether the reply is of the kind that answers this request.
    pub open spec fn answered_by(self, reply: ReplyView) -> bool {
        match self {
            ActionView::SymInit
            | ActionView::SymLoad(_)
            | ActionView::SymSave(_)
            | ActionView::SplaySave { .. } => reply is Code,
            ActionView::PathExists(_) => reply is Flag,
            ActionView::CreateDirAll(_) | ActionView::Rename { .. } => reply is Io,
            ActionView::RemoveDirAll(_) => reply is Done,
            ActionView::ReadSplayed { .. }
            | ActionView::GetColumn { .. }
            | ActionView::TableNew(_)
            | ActionView::VecNew { .. }
            | ActionView::VecAppend(_)
            | ActionView::TableAddCol(_) => reply is Object,
            ActionView::SymFind(_) | ActionView::SymIntern(_) => reply is Symbol,
            ActionView::ReadDatomRows => reply is DatomRows,
            ActionView::ReadTxRows => reply is TxRows,
            ActionView::ParseValue(_) => reply is Parsed,
        }
    }
}

/// The request of a process that may have none left.
pub open spec fn action_view(action: Option<Action>) -> Option<ActionView> {
    match action {
        Some(action) => Some(action@),
        None => None,
    }
}

/// Whether a process that waits on `action` may be handed `reply`.
pub open spec fn fits(action: Option<ActionView>, reply: ReplyView) -> bool {
    action matches Some(action) && action.answered_by(reply)
}

/// Whether a type code is that of an error object.
pub fn ray_is_error(type_code: i8) -> (res: bool)
    ensures
        res == (type_code == RAY_ERROR),
{
    type_code == RAY_ERROR
}

impl Object {
    /// Whether there is an object and it is no error object.
    pub open spec fn usable(self) -> bool {
        match self {
            Object::Null => false,
            Object::Typed(type_code) => type_code != RAY_ERROR,
        }
    }

    /// Whether there is an object and it is no error object.
    pub fn is_usable(self) -> (res: bool)
        ensures
            res == self.usable(),
    {
        match self {
            Object::Null => false,
            Object::Typed(type_code) => !ray_is_error(type_code),
        }
    }
}

/// What the outcome of setting up the symbol table means.
pub open spec fn sym_init_outcome(code: i32) -> Result<(), ErrorView> {
    if code == RAY_OK {
        Ok(())
    } else {
        Err(ErrorView::SymInit(code))
    }
}

/// The view of a result that carries no value.
pub open spec fn unit_result(res: Result<(), RayforceAdapterError>) -> Result<(), ErrorView> {
    match res {
        Ok(_) => Ok(()),
        Err(err) => Err(err@),
    }
}

/// Judges the code with which the symbol table was set up.
pub fn ensure_sym_init(code: i32) -> (res: Result<(), RayforceAdapterError>)
    ensures
        unit_result(res) == sym_init_outcome(code),
{
    if code != RAY_OK {
        return Err(RayforceAdapterError::SymInit(code));
    }
    Ok(())
}

} // verus!
