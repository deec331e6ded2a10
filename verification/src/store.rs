//! A store that does what it is asked: the ground on which the log's processes
//! are judged as a whole.
//!
//! A place on disk is known by the bytes by which a C function finds it. Where the
//! file system finds a path is up to the store: it need not be where C finds the
//! path's text. Symbols are known by their place in the order in which they were
//! interned. Directories and
//! files last; symbols that were not saved, and tables that were not, do not.

use std::path::PathBuf;
use vstd::prelude::*;

use crate::laws::{column_named, datom_rows, tx_rows, ValueParser};
use crate::protocol::{ActionView, Object, ReplyView, TableKind, RAY_OK};
use crate::table::{CellsView, ColumnView, RAY_I64};

verus! {

/// Where the file system finds a path.
pub type Place = spec_fn(PathBuf) -> Seq<u8>;

/// What a store holds.
pub struct StoreView {
    /// Where the file system finds a path.
    pub place: Place,
    /// The symbols.
    pub syms: Seq<Seq<char>>,
    /// The files, each with the symbols saved in it.
    pub files: Map<Seq<u8>, Seq<Seq<char>>>,
    /// The directories, each with the columns of the table saved in it. Parents
    /// that are created on the way are not counted.
    pub dirs: Map<Seq<u8>, Option<Seq<ColumnView>>>,
    /// The table being built.
    pub table: Seq<ColumnView>,
    /// The type code and the cells of the vector being built.
    pub vector: (i8, Seq<i64>),
    /// The tables that were read.
    pub read: Map<TableKind, Seq<ColumnView>>,
    /// What parses the values of datoms.
    pub parse: ValueParser,
}

/// The type code of an object that is no error.
pub open spec fn plain_object() -> ReplyView {
    ReplyView::Object(Object::Typed(0))
}

/// The cells that a vector holds: its integers, or the symbols that they are ids
/// of.
pub open spec fn vector_cells(vector: (i8, Seq<i64>), syms: Seq<Seq<char>>) -> CellsView {
    if vector.0 == RAY_I64 {
        CellsView::I64(vector.1)
    } else {
        CellsView::Sym(vector.1.map_values(|id: i64| syms[id as int]))
    }
}

impl StoreView {
    /// The store after a symbol was interned.
    pub open spec fn interned(self, text: Seq<char>) -> StoreView {
        if self.syms.contains(text) {
            self
        } else {
            StoreView { syms: self.syms.push(text), ..self }
        }
    }

    /// The store after symbols were interned one after the other.
    pub open spec fn interned_all(self, texts: Seq<Seq<char>>) -> StoreView
        decreases texts.len(),
    {
        if texts.len() == 0 {
            self
        } else {
            self.interned_all(texts.drop_last()).interned(texts.last())
        }
    }

    /// The id of a symbol, negative where there is none.
    pub open spec fn sym_id(self, text: Seq<char>) -> i64 {
        if self.syms.contains(text) {
            self.syms.index_of(text) as i64
        } else {
            (-1) as i64
        }
    }

    /// Whether there is something at that path.
    pub open spec fn exists_at(self, path: PathBuf) -> bool {
        self.dirs.contains_key((self.place)(path)) || self.files.contains_key((self.place)(path))
    }

    /// The store after it did what it was asked.
    pub open spec fn after(self, action: ActionView) -> StoreView {
        match action {
            ActionView::CreateDirAll(path) => if self.dirs.contains_key((self.place)(path)) {
                self
            } else {
                StoreView { dirs: self.dirs.insert((self.place)(path), None), ..self }
            },
            ActionView::RemoveDirAll(path) => StoreView {
                dirs: self.dirs.remove((self.place)(path)),
                ..self
            },
            ActionView::Rename { from, to } => StoreView {
                dirs: self.dirs.remove((self.place)(from)).insert(
                    (self.place)(to),
                    self.dirs[(self.place)(from)],
                ),
                ..self
            },
            ActionView::SymLoad(path) => if self.files.contains_key(path) {
                self.interned_all(self.files[path])
            } else {
                self
            },
            ActionView::SymSave(path) => StoreView {
                files: self.files.insert(path, self.syms),
                ..self
            },
            ActionView::ReadSplayed { table, dir, .. } => match self.dirs[dir] {
                Some(columns) => StoreView { read: self.read.insert(table, columns), ..self },
                None => self,
            },
            ActionView::TableNew(_) => StoreView { table: Seq::empty(), ..self },
            ActionView::VecNew { type_code, .. } => StoreView {
                vector: (type_code, Seq::empty()),
                ..self
            },
            ActionView::VecAppend(cell) => StoreView {
                vector: (self.vector.0, self.vector.1.push(cell)),
                ..self
            },
            ActionView::SymIntern(text) => self.interned(text),
            ActionView::TableAddCol(name_id) => StoreView {
                table: self.table.push(
                    ColumnView {
                        name: self.syms[name_id as int],
                        cells: vector_cells(self.vector, self.syms),
                    },
                ),
                ..self
            },
            ActionView::SplaySave { dir, .. } => StoreView {
                dirs: self.dirs.insert(dir, Some(self.table)),
                ..self
            },
            _ => self,
        }
    }

    /// The store's answer.
    pub open spec fn reply(self, action: ActionView) -> ReplyView {
        match action {
            ActionView::SymInit
            | ActionView::SymSave(_)
            | ActionView::SplaySave { .. } => ReplyView::Code(RAY_OK),
            ActionView::SymLoad(path) => ReplyView::Code(
                if self.files.contains_key(path) {
                    RAY_OK
                } else {
                    1
                },
            ),
            ActionView::PathExists(path) => ReplyView::Flag(self.exists_at(path)),
            ActionView::CreateDirAll(_) | ActionView::Rename { .. } => ReplyView::Io(Ok(())),
            ActionView::RemoveDirAll(_) => ReplyView::Done,
            ActionView::ReadSplayed { dir, .. } => if self.dirs.contains_key(dir)
                && self.dirs[dir] is Some {
                plain_object()
            } else {
                ReplyView::Object(Object::Null)
            },
            ActionView::GetColumn { table, name_id } => if 0 <= name_id < self.syms.len()
                && self.read.contains_key(table) && column_named(
                self.read[table],
                self.syms[name_id as int],
            ) is Some {
                plain_object()
            } else {
                ReplyView::Object(Object::Null)
            },
            ActionView::TableNew(_)
            | ActionView::VecNew { .. }
            | ActionView::VecAppend(_)
            | ActionView::TableAddCol(_) => plain_object(),
            ActionView::SymFind(text) => ReplyView::Symbol(self.sym_id(text)),
            ActionView::SymIntern(text) => ReplyView::Symbol(self.interned(text).sym_id(text)),
            ActionView::ReadDatomRows => ReplyView::DatomRows(
                datom_rows(self.read[TableKind::Datom]),
            ),
            ActionView::ReadTxRows => ReplyView::TxRows(tx_rows(self.read[TableKind::Tx])),
            ActionView::ParseValue(json) => ReplyView::Parsed((self.parse)(json)),
        }
    }
}

} // verus!
