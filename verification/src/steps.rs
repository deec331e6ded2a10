//! What each process asks for and where each answer leads.

use std::path::PathBuf;
use vstd::prelude::*;

use crate::builder::{BuildPoint, BuilderView};
use crate::decode::{assembled, datom_of_row, value_text_of_row, DatomRowView};
use crate::encode::{datom_table_of, tx_table_of};
use crate::error::ErrorView;
use crate::layout::TxLogLayout;
use crate::load::{LoadPointView, LoadView};
use crate::log::{DatomView, EnvelopeView};
use crate::path::{c_bytes, c_safe, path_joined, path_lossy, path_with_extension};
use crate::projection::{OpeningPointView, OpeningView};
use crate::protocol::{fits, ActionView, Object, ReplyView, TableKind};
use crate::reader::{columns_read, LookupView, OpenPoint, ReaderView};
use crate::rebuild::{RebuildPointView, RebuildView};
use crate::save::{SavePoint, SaveView};
use crate::table::{CellsView, TableView};

verus! {

/// Whether an answer is an object that cannot be used: none, or an error object.
pub open spec fn no_object(reply: ReplyView) -> bool {
    reply == ReplyView::Object(Object::Null) || reply == ReplyView::Object(Object::Typed(127))
}

/// Where the log of a layout lies: the tables under `tx` and `datom`, the symbols
/// under `sym.ray`, all joined to the root.
pub proof fn law_log_lies_under_its_root(layout: TxLogLayout)
    ensures
        layout.tx_dir() == path_joined(layout.root_path(), "tx"@),
        layout.datom_dir() == path_joined(layout.root_path(), "datom"@),
        layout.sym_file() == path_joined(layout.root_path(), "sym.ray"@),
{
}

/// Building asks for the table, then for each column for its vector, for every
/// cell in it, for the id of its name, and to have it added.
pub proof fn law_building_asks(process: BuilderView, table: TableView)
    ensures
        BuilderView::start(table).table == table,
        BuilderView::start(table).at == BuildPoint::Table,
        match process.at {
            BuildPoint::Table => process.action() == Some(
                ActionView::TableNew(process.table.columns.len() as i64),
            ),
            BuildPoint::Column { col } => process.action() == Some(
                ActionView::VecNew {
                    type_code: match process.table.columns[col as int].cells {
                        CellsView::I64(_) => 5i8,
                        CellsView::Sym(_) => 12i8,
                    },
                    capacity: process.table.columns[col as int].cells.len() as i64,
                },
            ),
            BuildPoint::Cell { col, row } => process.action() == Some(
                match process.table.columns[col as int].cells {
                    CellsView::I64(values) => ActionView::VecAppend(values[row as int]),
                    CellsView::Sym(values) => ActionView::SymIntern(values[row as int]),
                },
            ),
            BuildPoint::Symbol { id, .. } => process.action() == Some(ActionView::VecAppend(id)),
            BuildPoint::Name { col } => process.action() == Some(
                ActionView::SymIntern(process.table.columns[col as int].name),
            ),
            BuildPoint::Attach { id, .. } => process.action() == Some(ActionView::TableAddCol(id)),
            BuildPoint::Built => process.action() is None,
        },
{
}

/// Building fails exactly on an answer without an object, for want of memory for
/// its table; on any other it goes on to the next cell, name or column, with the
/// same table.
pub proof fn law_building_goes_on(process: BuilderView, reply: ReplyView)
    requires
        fits(process.action(), reply),
    ensures
        reply == ReplyView::Object(Object::Null) ==> process.advance(reply) == Err::<
            BuilderView,
            ErrorView,
        >(ErrorView::Allocation(process.table.label)),
        reply != ReplyView::Object(Object::Null) ==> (process.advance(reply) matches Ok(next) && {
            let columns = process.table.columns;
            &&& next.table == process.table
            &&& match process.at {
                BuildPoint::Table => if columns.len() > 0 {
                    next.at == (BuildPoint::Column { col: 0 })
                } else {
                    next.at == BuildPoint::Built
                },
                BuildPoint::Column { col } => if columns[col as int].cells.len() > 0 {
                    next.at == (BuildPoint::Cell { col, row: 0 })
                } else {
                    next.at == (BuildPoint::Name { col })
                },
                BuildPoint::Cell { col, row } if columns[col as int].cells is Sym => {
                    reply matches ReplyView::Symbol(id) && next.at == (BuildPoint::Symbol {
                        col,
                        row,
                        id,
                    })
                },
                BuildPoint::Cell { col, row } | BuildPoint::Symbol { col, row, .. } => if row + 1
                    < columns[col as int].cells.len() {
                    next.at == (BuildPoint::Cell { col, row: (row + 1) as usize })
                } else {
                    next.at == (BuildPoint::Name { col })
                },
                BuildPoint::Name { col } => reply matches ReplyView::Symbol(id) && next.at == (
                BuildPoint::Attach { col, id }),
                BuildPoint::Attach { col, .. } => if col + 1 < columns.len() {
                    next.at == (BuildPoint::Column { col: (col + 1) as usize })
                } else {
                    next.at == BuildPoint::Built
                },
                BuildPoint::Built => false,
            }
        }),
{
}

/// Saving starts with the question whether a new directory is there; the new and
/// the old directory are the live one with the extensions `new` and `old`.
pub proof fn law_saving_starts(dir: PathBuf, sym_path: PathBuf)
    ensures
        SaveView::start(dir, sym_path).dir == dir,
        SaveView::start(dir, sym_path).new_dir == path_with_extension(dir, "new"@),
        SaveView::start(dir, sym_path).old_dir == path_with_extension(dir, "old"@),
        SaveView::start(dir, sym_path).sym_path == sym_path,
        SaveView::start(dir, sym_path).action() == Some(
            ActionView::PathExists(path_with_extension(dir, "new"@)),
        ),
{
}

/// What saving asks for at each point.
pub proof fn law_saving_asks(process: SaveView)
    ensures
        process.action() == match process.at {
            SavePoint::CheckNew => Some(ActionView::PathExists(process.new_dir)),
            SavePoint::RemoveNew => Some(ActionView::RemoveDirAll(process.new_dir)),
            SavePoint::CreateNew => Some(ActionView::CreateDirAll(process.new_dir)),
            SavePoint::Splay => Some(
                ActionView::SplaySave {
                    dir: c_bytes(process.new_dir),
                    sym: c_bytes(process.sym_path),
                },
            ),
            SavePoint::CheckLive => Some(ActionView::PathExists(process.dir)),
            SavePoint::CheckOld => Some(ActionView::PathExists(process.old_dir)),
            SavePoint::RemoveOld => Some(ActionView::RemoveDirAll(process.old_dir)),
            SavePoint::Retire => Some(
                ActionView::Rename { from: process.dir, to: process.old_dir },
            ),
            SavePoint::Promote => Some(
                ActionView::Rename { from: process.new_dir, to: process.dir },
            ),
            SavePoint::CheckLeftover => Some(ActionView::PathExists(process.old_dir)),
            SavePoint::RemoveLeftover => Some(ActionView::RemoveDirAll(process.old_dir)),
            SavePoint::Saved => None,
        },
{
}

/// Saving fails exactly if the new directory cannot be created or named to C, if
/// the table is not written, or if a rename fails; and it says so.
pub proof fn law_saving_fails(process: SaveView, reply: ReplyView, err: ErrorView)
    requires
        fits(process.action(), reply),
    ensures
        process.advance(reply) == Err::<SaveView, ErrorView>(err) <==> match (process.at, reply) {
            (SavePoint::CreateNew, ReplyView::Io(Err(source))) => err == (ErrorView::CreateDir {
                path: process.new_dir,
                source,
            }),
            (SavePoint::CreateNew, ReplyView::Io(Ok(_))) => if !c_safe(process.new_dir) {
                err == ErrorView::NulPath(path_lossy(process.new_dir))
            } else {
                !c_safe(process.sym_path) && err == ErrorView::NulPath(
                    path_lossy(process.sym_path),
                )
            },
            (SavePoint::Splay, ReplyView::Code(code)) => code != 0 && err == (
            ErrorView::SplaySave { dir: process.new_dir, code }),
            (SavePoint::Retire, ReplyView::Io(Err(source))) => err == (ErrorView::Rename {
                from: process.dir,
                to: process.old_dir,
                source,
            }),
            (SavePoint::Promote, ReplyView::Io(Err(source))) => err == (ErrorView::Rename {
                from: process.new_dir,
                to: process.dir,
                source,
            }),
            _ => false,
        },
{
}

/// Saving that does not fail goes on: a directory that is there is removed before
/// its name is used, the table is written before the live directory is touched,
/// and the live directory is moved aside before the new one takes its place.
pub proof fn law_saving_goes_on(process: SaveView, reply: ReplyView)
    requires
        fits(process.action(), reply),
        process.advance(reply) is Ok,
    ensures
        process.advance(reply) matches Ok(next) && {
            let found = reply == ReplyView::Flag(true);
            &&& next.dir == process.dir
            &&& next.new_dir == process.new_dir
            &&& next.old_dir == process.old_dir
            &&& next.sym_path == process.sym_path
            &&& next.at == match process.at {
                SavePoint::CheckNew => if found {
                    SavePoint::RemoveNew
                } else {
                    SavePoint::CreateNew
                },
                SavePoint::RemoveNew => SavePoint::CreateNew,
                SavePoint::CreateNew => SavePoint::Splay,
                SavePoint::Splay => SavePoint::CheckLive,
                SavePoint::CheckLive => if found {
                    SavePoint::CheckOld
                } else {
                    SavePoint::Promote
                },
                SavePoint::CheckOld => if found {
                    SavePoint::RemoveOld
                } else {
                    SavePoint::Retire
                },
                SavePoint::RemoveOld => SavePoint::Retire,
                SavePoint::Retire => SavePoint::Promote,
                SavePoint::Promote => SavePoint::CheckLeftover,
                SavePoint::CheckLeftover => if found {
                    SavePoint::RemoveLeftover
                } else {
                    SavePoint::Saved
                },
                SavePoint::RemoveLeftover => SavePoint::Saved,
                SavePoint::Saved => SavePoint::Saved,
            }
        },
{
}

/// What opening a table asks for at each point.
pub proof fn law_reading_asks(
    process: ReaderView,
    kind: TableKind,
    dir: PathBuf,
    sym_path: PathBuf,
)
    ensures
        ReaderView::start(kind, dir, sym_path) == (ReaderView {
            kind,
            dir,
            sym_path,
            at: OpenPoint::CheckDir,
        }),
        process.action() == match process.at {
            OpenPoint::CheckDir => Some(ActionView::PathExists(process.dir)),
            OpenPoint::CheckSym => Some(ActionView::PathExists(process.sym_path)),
            OpenPoint::LoadSym => Some(ActionView::SymLoad(c_bytes(process.sym_path))),
            OpenPoint::Read => Some(
                ActionView::ReadSplayed {
                    table: process.kind,
                    dir: c_bytes(process.dir),
                    sym: c_bytes(process.sym_path),
                },
            ),
            OpenPoint::Absent | OpenPoint::Opened => None,
        },
{
}

/// Opening a table fails exactly if the symbols are not loaded, if a path cannot
/// be named to C, or if no object that can be used is read; and it says so.
pub proof fn law_reading_fails(process: ReaderView, reply: ReplyView, err: ErrorView)
    requires
        fits(process.action(), reply),
    ensures
        process.advance(reply) == Err::<ReaderView, ErrorView>(err) <==> match process.at {
            OpenPoint::CheckSym if reply == ReplyView::Flag(true) => !c_safe(process.sym_path)
                && err == ErrorView::NulPath(path_lossy(process.sym_path)),
            OpenPoint::LoadSym if reply != ReplyView::Code(0) => reply matches ReplyView::Code(code)
                && err == (ErrorView::SymLoad { path: process.sym_path, code }),
            OpenPoint::CheckSym | OpenPoint::LoadSym => if !c_safe(process.dir) {
                err == ErrorView::NulPath(path_lossy(process.dir))
            } else {
                !c_safe(process.sym_path) && err == ErrorView::NulPath(
                    path_lossy(process.sym_path),
                )
            },
            OpenPoint::Read => no_object(reply) && err == ErrorView::RayforceRead(
                match process.kind {
                    TableKind::Tx => "tx"@,
                    TableKind::Datom => "datom"@,
                },
            ),
            _ => false,
        },
{
}

/// Opening a table that does not fail goes on: it finds no table exactly if it is
/// told that there is no directory, loads the symbols exactly if there are any,
/// and is done once the table is read.
pub proof fn law_reading_goes_on(process: ReaderView, reply: ReplyView)
    requires
        fits(process.action(), reply),
        process.advance(reply) is Ok,
    ensures
        process.advance(reply) matches Ok(next) && {
            let found = reply == ReplyView::Flag(true);
            &&& next.kind == process.kind
            &&& next.dir == process.dir
            &&& next.sym_path == process.sym_path
            &&& next.at == match process.at {
                OpenPoint::CheckDir => if found {
                    OpenPoint::CheckSym
                } else {
                    OpenPoint::Absent
                },
                OpenPoint::CheckSym => if found {
                    OpenPoint::LoadSym
                } else {
                    OpenPoint::Read
                },
                OpenPoint::LoadSym => OpenPoint::Read,
                OpenPoint::Read => OpenPoint::Opened,
                OpenPoint::Absent => OpenPoint::Absent,
                OpenPoint::Opened => OpenPoint::Opened,
            }
        },
{
}

/// A table is found to be missing only by the answer that its directory is not
/// there, and found to be open only by an object that can be used.
pub proof fn law_table_is_missing_only_if_told(process: ReaderView, reply: ReplyView)
    requires
        fits(process.action(), reply),
    ensures
        process.advance(reply) matches Ok(next) ==> {
            &&& next.at == OpenPoint::Absent ==> process.action() == Some(
                ActionView::PathExists(process.dir),
            ) && reply == ReplyView::Flag(false)
            &&& next.at == OpenPoint::Opened ==> process.action() == Some(
                ActionView::ReadSplayed {
                    table: process.kind,
                    dir: c_bytes(process.dir),
                    sym: c_bytes(process.sym_path),
                },
            ) && reply is Object && !no_object(reply)
        },
{
}

/// The columns of a table are looked up one after the other, each by the id of its
/// name; a name without an id, or an id without an object that can be used, is a
/// missing column.
pub proof fn law_lookup_goes_on(process: LookupView, reply: ReplyView, kind: TableKind)
    requires
        fits(process.action(), reply),
    ensures
        LookupView::start(kind) == (LookupView { kind, col: 0, name_id: None }),
        process.col < columns_read(process.kind).len(),
        process.action() == match process.name_id {
            None => Some(ActionView::SymFind(columns_read(process.kind)[process.col])),
            Some(name_id) => Some(ActionView::GetColumn { table: process.kind, name_id }),
        },
        process.advance(reply) == match process.name_id {
            None => if reply->Symbol_0 < 0 {
                Err(
                    ErrorView::MissingColumn {
                        table: match process.kind {
                            TableKind::Tx => "tx"@,
                            TableKind::Datom => "datom"@,
                        },
                        column: columns_read(process.kind)[process.col],
                    },
                )
            } else {
                Ok(LookupView { name_id: Some(reply->Symbol_0), ..process })
            },
            Some(_) => if no_object(reply) {
                Err(
                    ErrorView::MissingColumn {
                        table: match process.kind {
                            TableKind::Tx => "tx"@,
                            TableKind::Datom => "datom"@,
                        },
                        column: columns_read(process.kind)[process.col],
                    },
                )
            } else {
                Ok(LookupView { kind: process.kind, col: process.col + 1, name_id: None })
            },
        },
{
}

/// The search for columns is over exactly when all have been found.
pub proof fn law_lookup_finds_all(process: LookupView)
    ensures
        process.action() is None <==> process.col >= columns_read(process.kind).len(),
        process.pending() <==> process.col < columns_read(process.kind).len(),
{
}

/// What loading asks for at each point.
pub proof fn law_loading_asks(process: LoadView, layout: TxLogLayout)
    ensures
        LoadView::start(layout) == (LoadView { layout, at: LoadPointView::Init }),
        process.action() == match process.at {
            LoadPointView::Init => Some(ActionView::SymInit),
            LoadPointView::OpenTx(reader) => reader.action(),
            LoadPointView::OpenDatom(reader) => reader.action(),
            LoadPointView::TxColumns { lookup, .. } => lookup.action(),
            LoadPointView::DatomColumns(lookup) => lookup.action(),
            LoadPointView::DatomRows => Some(ActionView::ReadDatomRows),
            LoadPointView::Values { json, .. } => Some(ActionView::ParseValue(json)),
            LoadPointView::TxRows(_) => Some(ActionView::ReadTxRows),
            LoadPointView::Done(_) => None,
        },
{
}

/// The point at which datom row `next` is taken up: its value is handed to the
/// parser, unless the row has failed; after the last row those of `tx` are read.
pub open spec fn takes_up_row(
    outcome: Result<LoadView, ErrorView>,
    layout: TxLogLayout,
    rows: Seq<DatomRowView>,
    next: int,
    datoms: Seq<DatomView>,
) -> bool {
    if next >= rows.len() {
        outcome matches Ok(load) && load.layout == layout && load.at == LoadPointView::TxRows(
            datoms,
        )
    } else {
        match value_text_of_row(rows[next]) {
            Err(err) => outcome matches Err(failed) && failed == err,
            Ok(json) => outcome matches Ok(load) && load.layout == layout && load.at == (
            LoadPointView::Values { rows, next, json, datoms }),
        }
    }
}

/// Where each answer leads a load: the symbols are set up; the `tx` table is
/// opened, and without it the log is empty; then the `datom` table, which may be
/// missing; then the columns of `tx` are found, and those of `datom` if it is
/// there; then the rows of `datom` are read and decoded one by one; and last the
/// rows of `tx`, with which the log is put together.
pub proof fn law_loading_goes_on(process: LoadView, reply: ReplyView)
    requires
        fits(process.action(), reply),
    ensures
        process.advance(reply) matches Ok(next) ==> next.layout == process.layout,
        match process.at {
            LoadPointView::Init => if reply == ReplyView::Code(0) {
                process.advance(reply) matches Ok(next) && next.at == LoadPointView::OpenTx(
                    ReaderView {
                        kind: TableKind::Tx,
                        dir: path_joined(process.layout.root_path(), "tx"@),
                        sym_path: path_joined(process.layout.root_path(), "sym.ray"@),
                        at: OpenPoint::CheckDir,
                    },
                )
            } else {
                process.advance(reply) matches Err(err) && err == ErrorView::SymInit(
                    reply->Code_0,
                )
            },
            LoadPointView::OpenTx(reader) => match reader.advance(reply) {
                Err(err) => process.advance(reply) matches Err(failed) && failed == err,
                Ok(reader) => process.advance(reply) matches Ok(next) && next.at
                    == match reader.at {
                    OpenPoint::Absent => LoadPointView::Done(Seq::empty()),
                    OpenPoint::Opened => LoadPointView::OpenDatom(
                        ReaderView {
                            kind: TableKind::Datom,
                            dir: path_joined(process.layout.root_path(), "datom"@),
                            sym_path: path_joined(process.layout.root_path(), "sym.ray"@),
                            at: OpenPoint::CheckDir,
                        },
                    ),
                    _ => LoadPointView::OpenTx(reader),
                },
            },
            LoadPointView::OpenDatom(reader) => match reader.advance(reply) {
                Err(err) => process.advance(reply) matches Err(failed) && failed == err,
                Ok(reader) => process.advance(reply) matches Ok(next) && next.at
                    == match reader.at {
                    OpenPoint::Absent => LoadPointView::TxColumns {
                        lookup: LookupView { kind: TableKind::Tx, col: 0, name_id: None },
                        with_datoms: false,
                    },
                    OpenPoint::Opened => LoadPointView::TxColumns {
                        lookup: LookupView { kind: TableKind::Tx, col: 0, name_id: None },
                        with_datoms: true,
                    },
                    _ => LoadPointView::OpenDatom(reader),
                },
            },
            LoadPointView::TxColumns { lookup, with_datoms } => match lookup.advance(reply) {
                Err(err) => process.advance(reply) matches Err(failed) && failed == err,
                Ok(lookup) => process.advance(reply) matches Ok(next) && next.at
                    == if lookup.col < columns_read(lookup.kind).len() {
                    LoadPointView::TxColumns { lookup, with_datoms }
                } else if with_datoms {
                    LoadPointView::DatomColumns(
                        LookupView { kind: TableKind::Datom, col: 0, name_id: None },
                    )
                } else {
                    LoadPointView::TxRows(Seq::empty())
                },
            },
            LoadPointView::DatomColumns(lookup) => match lookup.advance(reply) {
                Err(err) => process.advance(reply) matches Err(failed) && failed == err,
                Ok(lookup) => process.advance(reply) matches Ok(next) && next.at
                    == if lookup.col < columns_read(lookup.kind).len() {
                    LoadPointView::DatomColumns(lookup)
                } else {
                    LoadPointView::DatomRows
                },
            },
            LoadPointView::DatomRows => takes_up_row(
                process.advance(reply),
                process.layout,
                reply->DatomRows_0,
                0,
                Seq::empty(),
            ),
            LoadPointView::Values { rows, next, datoms, .. } => match datom_of_row(
                rows[next],
                reply->Parsed_0,
            ) {
                Err(err) => process.advance(reply) matches Err(failed) && failed == err,
                Ok(datom) => takes_up_row(
                    process.advance(reply),
                    process.layout,
                    rows,
                    next + 1,
                    datoms.push(datom),
                ),
            },
            LoadPointView::TxRows(datoms) => match assembled(reply->TxRows_0, datoms) {
                Err(err) => process.advance(reply) matches Err(failed) && failed == err,
                Ok(log) => process.advance(reply) matches Ok(next) && next.at
                    == LoadPointView::Done(log),
            },
            LoadPointView::Done(_) => false,
        },
{
}

/// A rebuild starts with the tables of its log, and what it asks for at each point.
pub proof fn law_rebuilding_asks(
    process: RebuildView,
    layout: TxLogLayout,
    log: Seq<EnvelopeView>,
)
    ensures
        RebuildView::start(layout, log).layout == layout,
        RebuildView::start(layout, log).at == (RebuildPointView::Init {
            tx: tx_table_of(log),
            datoms: datom_table_of(log),
        }),
        process.action() == match process.at {
            RebuildPointView::Init { .. } => Some(ActionView::SymInit),
            RebuildPointView::BuildTx { builder, .. } => builder.action(),
            RebuildPointView::SaveTx { save, .. } => save.action(),
            RebuildPointView::BuildDatoms(builder) => builder.action(),
            RebuildPointView::SaveDatoms(save) => save.action(),
            RebuildPointView::SaveSyms => Some(
                ActionView::SymSave(c_bytes(path_joined(process.layout.root_path(), "sym.ray"@))),
            ),
            RebuildPointView::Done => None,
        },
{
}

/// Where each answer leads a rebuild: the symbols are set up, the `tx` table is
/// built and saved, then the `datom` table, then the symbols are saved; and the
/// first failure ends it.
pub proof fn law_rebuilding_goes_on(process: RebuildView, reply: ReplyView)
    requires
        fits(process.action(), reply),
    ensures
        process.advance(reply) matches Ok(next) ==> next.layout == process.layout,
        match process.at {
            RebuildPointView::Init { tx, datoms } => if reply == ReplyView::Code(0) {
                process.advance(reply) matches Ok(next) && next.at == (RebuildPointView::BuildTx {
                    builder: BuilderView { table: tx, at: BuildPoint::Table },
                    datoms,
                })
            } else {
                process.advance(reply) matches Err(err) && err == ErrorView::SymInit(
                    reply->Code_0,
                )
            },
            RebuildPointView::BuildTx { builder, datoms } => match builder.advance(reply) {
                Err(err) => process.advance(reply) matches Err(failed) && failed == err,
                Ok(builder) => process.advance(reply) matches Ok(next) && next.at
                    == if builder.at == BuildPoint::Built {
                    RebuildPointView::SaveTx {
                        save: SaveView::start(
                            path_joined(process.layout.root_path(), "tx"@),
                            path_joined(process.layout.root_path(), "sym.ray"@),
                        ),
                        datoms,
                    }
                } else {
                    RebuildPointView::BuildTx { builder, datoms }
                },
            },
            RebuildPointView::SaveTx { save, datoms } => match save.advance(reply) {
                Err(err) => process.advance(reply) matches Err(failed) && failed == err,
                Ok(save) => process.advance(reply) matches Ok(next) && next.at == if save.at
                    == SavePoint::Saved {
                    RebuildPointView::BuildDatoms(
                        BuilderView { table: datoms, at: BuildPoint::Table },
                    )
                } else {
                    RebuildPointView::SaveTx { save, datoms }
                },
            },
            RebuildPointView::BuildDatoms(builder) => match builder.advance(reply) {
                Err(err) => process.advance(reply) matches Err(failed) && failed == err,
                Ok(builder) => process.advance(reply) matches Ok(next) && next.at
                    == if builder.at == BuildPoint::Built {
                    RebuildPointView::SaveDatoms(
                        SaveView::start(
                            path_joined(process.layout.root_path(), "datom"@),
                            path_joined(process.layout.root_path(), "sym.ray"@),
                        ),
                    )
                } else {
                    RebuildPointView::BuildDatoms(builder)
                },
            },
            RebuildPointView::SaveDatoms(save) => match save.advance(reply) {
                Err(err) => process.advance(reply) matches Err(failed) && failed == err,
                Ok(save) => if save.at != SavePoint::Saved {
                    process.advance(reply) matches Ok(next) && next.at
                        == RebuildPointView::SaveDatoms(save)
                } else if c_safe(path_joined(process.layout.root_path(), "sym.ray"@)) {
                    process.advance(reply) matches Ok(next) && next.at
                        == RebuildPointView::SaveSyms
                } else {
                    process.advance(reply) matches Err(err) && err == ErrorView::NulPath(
                        path_lossy(path_joined(process.layout.root_path(), "sym.ray"@)),
                    )
                },
            },
            RebuildPointView::SaveSyms => if reply == ReplyView::Code(0) {
                process.advance(reply) matches Ok(next) && next.at == RebuildPointView::Done
            } else {
                process.advance(reply) matches Err(err) && err == (ErrorView::SymSave {
                    path: path_joined(process.layout.root_path(), "sym.ray"@),
                    code: reply->Code_0,
                })
            },
            RebuildPointView::Done => false,
        },
{
}

/// What opening a projection asks for, and where each answer leads: the symbols
/// are set up, the root is created, and then a projection that starts anew is open
/// with an empty log, while one over the log on disk loads it.
pub proof fn law_opening_goes_on(process: OpeningView, reply: ReplyView)
    requires
        fits(process.action(), reply),
    ensures
        process.action() == match process.at {
            OpeningPointView::Init => Some(ActionView::SymInit),
            OpeningPointView::CreateRoot => Some(
                ActionView::CreateDirAll(process.layout.root_path()),
            ),
            OpeningPointView::Loading(load) => load.action(),
            OpeningPointView::Ready(_) => None,
        },
        process.advance(reply) matches Ok(next) ==> next.layout == process.layout && next.existing
            == process.existing,
        match process.at {
            OpeningPointView::Init => if reply == ReplyView::Code(0) {
                process.advance(reply) matches Ok(next) && next.at == OpeningPointView::CreateRoot
            } else {
                process.advance(reply) matches Err(err) && err == ErrorView::SymInit(
                    reply->Code_0,
                )
            },
            OpeningPointView::CreateRoot => match reply {
                ReplyView::Io(Err(source)) => process.advance(reply) matches Err(err) && err == (
                ErrorView::CreateDir { path: process.layout.root_path(), source }),
                _ => process.advance(reply) matches Ok(next) && next.at == if process.existing {
                    OpeningPointView::Loading(
                        LoadView { layout: process.layout, at: LoadPointView::Init },
                    )
                } else {
                    OpeningPointView::Ready(Seq::empty())
                },
            },
            OpeningPointView::Loading(load) => match load.advance(reply) {
                Err(err) => process.advance(reply) matches Err(failed) && failed == err,
                Ok(load) => process.advance(reply) matches Ok(next) && next.at == match load.at {
                    LoadPointView::Done(log) => OpeningPointView::Ready(log),
                    _ => OpeningPointView::Loading(load),
                },
            },
            OpeningPointView::Ready(_) => false,
        },
{
}

} // verus!
