//! Saving a built table so that it replaces the one on disk in one step.
//!
//! The table is written beside the live directory, under the extension `new`.
//! Only then is the live directory moved aside, under the extension `old`, and
//! the new one moved into its place.

use std::path::PathBuf;
use vstd::prelude::*;

use crate::error::{ErrorView, RayforceAdapterError};
use crate::path::{
    c_bytes, c_safe, c_string, path_lossy, path_to_cstring, path_with_extension, with_extension,
};
use crate::protocol::{action_view, fits, Action, ActionView, Reply, ReplyView, RAY_OK};

verus! {

/// How far a table has been saved: what it is that was asked for.
#[derive(Clone, Copy, Debug, PartialEq, Eq, Structural)]
pub enum SavePoint {
    /// Is there a new directory from an earlier attempt?
    CheckNew,
    /// Its removal.
    RemoveNew,
    /// The new directory.
    CreateNew,
    /// The table written into the new directory.
    Splay,
    /// Is there a live directory?
    CheckLive,
    /// Is there an old directory from an earlier attempt?
    CheckOld,
    /// Its removal.
    RemoveOld,
    /// The live directory moved aside.
    Retire,
    /// The new directory moved into the live one's place.
    Promote,
    /// Is there an old directory left?
    CheckLeftover,
    /// Its removal.
    RemoveLeftover,
    /// Nothing: the table is saved.
    Saved,
}

/// A built table on its way to disk.
#[derive(Debug)]
pub struct TableSave {
    dir: PathBuf,
    new_dir: PathBuf,
    old_dir: PathBuf,
    sym_path: PathBuf,
    at: SavePoint,
}

/// A `TableSave` with its parts in the open.
#[verifier::ext_equal]
pub struct SaveView {
    pub dir: PathBuf,
    pub new_dir: PathBuf,
    pub old_dir: PathBuf,
    pub sym_path: PathBuf,
    pub at: SavePoint,
}

impl View for TableSave {
    type V = SaveView;

    closed spec fn view(&self) -> SaveView {
        SaveView {
            dir: self.dir,
            new_dir: self.new_dir,
            old_dir: self.old_dir,
            sym_path: self.sym_path,
            at: self.at,
        }
    }
}

impl SaveView {
    /// The start of saving a table to `dir`.
    pub open spec fn start(dir: PathBuf, sym_path: PathBuf) -> SaveView {
        SaveView {
            dir,
            new_dir: path_with_extension(dir, "new"@),
            old_dir: path_with_extension(dir, "old"@),
            sym_path,
            at: SavePoint::CheckNew,
        }
    }

    /// What is asked for at this point.
    pub open spec fn action(self) -> Option<ActionView> {
        match self.at {
            SavePoint::CheckNew => Some(ActionView::PathExists(self.new_dir)),
            SavePoint::RemoveNew => Some(ActionView::RemoveDirAll(self.new_dir)),
            SavePoint::CreateNew => Some(ActionView::CreateDirAll(self.new_dir)),
            SavePoint::Splay => Some(
                ActionView::SplaySave { dir: c_bytes(self.new_dir), sym: c_bytes(self.sym_path) },
            ),
            SavePoint::CheckLive => Some(ActionView::PathExists(self.dir)),
            SavePoint::CheckOld => Some(ActionView::PathExists(self.old_dir)),
            SavePoint::RemoveOld => Some(ActionView::RemoveDirAll(self.old_dir)),
            SavePoint::Retire => Some(ActionView::Rename { from: self.dir, to: self.old_dir }),
            SavePoint::Promote => Some(ActionView::Rename { from: self.new_dir, to: self.dir }),
            SavePoint::CheckLeftover => Some(ActionView::PathExists(self.old_dir)),
            SavePoint::RemoveLeftover => Some(ActionView::RemoveDirAll(self.old_dir)),
            SavePoint::Saved => None,
        }
    }

    /// The same save at another point.
    pub open spec fn at_point(self, at: SavePoint) -> SaveView {
        SaveView { at, ..self }
    }

    /// Where the answer to the request of this point leads.
    pub open spec fn advance(self, reply: ReplyView) -> Result<SaveView, ErrorView> {
        match (self.at, reply) {
            (SavePoint::CheckNew, ReplyView::Flag(found)) => Ok(
                self.at_point(
                    if found {
                        SavePoint::RemoveNew
                    } else {
                        SavePoint::CreateNew
                    },
                ),
            ),
            (SavePoint::RemoveNew, _) => Ok(self.at_point(SavePoint::CreateNew)),
            (SavePoint::CreateNew, ReplyView::Io(Err(source))) => Err(
                ErrorView::CreateDir { path: self.new_dir, source },
            ),
            (SavePoint::CreateNew, _) => if !c_safe(self.new_dir) {
                Err(ErrorView::NulPath(path_lossy(self.new_dir)))
            } else if !c_safe(self.sym_path) {
                Err(ErrorView::NulPath(path_lossy(self.sym_path)))
            } else {
                Ok(self.at_point(SavePoint::Splay))
            },
            (SavePoint::Splay, ReplyView::Code(code)) => if code != RAY_OK {
                Err(ErrorView::SplaySave { dir: self.new_dir, code })
            } else {
                Ok(self.at_point(SavePoint::CheckLive))
            },
            (SavePoint::CheckLive, ReplyView::Flag(found)) => Ok(
                self.at_point(
                    if found {
                        SavePoint::CheckOld
                    } else {
                        SavePoint::Promote
                    },
                ),
            ),
            (SavePoint::CheckOld, ReplyView::Flag(found)) => Ok(
                self.at_point(
                    if found {
                        SavePoint::RemoveOld
                    } else {
                        SavePoint::Retire
                    },
                ),
            ),
            (SavePoint::RemoveOld, _) => Ok(self.at_point(SavePoint::Retire)),
            (SavePoint::Retire, ReplyView::Io(Err(source))) => Err(
                ErrorView::Rename { from: self.dir, to: self.old_dir, source },
            ),
            (SavePoint::Retire, _) => Ok(self.at_point(SavePoint::Promote)),
            (SavePoint::Promote, ReplyView::Io(Err(source))) => Err(
                ErrorView::Rename { from: self.new_dir, to: self.dir, source },
            ),
            (SavePoint::Promote, _) => Ok(self.at_point(SavePoint::CheckLeftover)),
            (SavePoint::CheckLeftover, ReplyView::Flag(found)) => Ok(
                self.at_point(
                    if found {
                        SavePoint::RemoveLeftover
                    } else {
                        SavePoint::Saved
                    },
                ),
            ),
            (SavePoint::RemoveLeftover, _) => Ok(self.at_point(SavePoint::Saved)),
            _ => Ok(self),
        }
    }
}

/// The view of a save that may have failed.
pub open spec fn save_result(res: Result<TableSave, RayforceAdapterError>) -> Result<
    SaveView,
    ErrorView,
> {
    match res {
        Ok(save) => Ok(save@),
        Err(err) => Err(err@),
    }
}

impl TableSave {
    /// Starts to save the table that the store has just built to `dir`.
    pub fn new(dir: PathBuf, sym_path: PathBuf) -> (res: Self)
        ensures
            res@ == SaveView::start(dir, sym_path),
    {
        proof {
            reveal_strlit("new");
            reveal_strlit("old");
        }
        let new_dir = with_extension(&dir, "new");
        let old_dir = with_extension(&dir, "old");
        TableSave { dir, new_dir, old_dir, sym_path, at: SavePoint::CheckNew }
    }

    /// The request that this process waits on, or none once the table is saved.
    pub fn action(&self) -> (res: Option<Action>)
        ensures
            action_view(res) == self@.action(),
    {
        match self.at {
            SavePoint::CheckNew => Some(Action::PathExists(self.new_dir.clone())),
            SavePoint::RemoveNew => Some(Action::RemoveDirAll(self.new_dir.clone())),
            SavePoint::CreateNew => Some(Action::CreateDirAll(self.new_dir.clone())),
            SavePoint::Splay => Some(
                Action::SplaySave { dir: c_string(&self.new_dir), sym: c_string(&self.sym_path) },
            ),
            SavePoint::CheckLive => Some(Action::PathExists(self.dir.clone())),
            SavePoint::CheckOld => Some(Action::PathExists(self.old_dir.clone())),
            SavePoint::RemoveOld => Some(Action::RemoveDirAll(self.old_dir.clone())),
            SavePoint::Retire => Some(
                Action::Rename { from: self.dir.clone(), to: self.old_dir.clone() },
            ),
            SavePoint::Promote => Some(
                Action::Rename { from: self.new_dir.clone(), to: self.dir.clone() },
            ),
            SavePoint::CheckLeftover => Some(Action::PathExists(self.old_dir.clone())),
            SavePoint::RemoveLeftover => Some(Action::RemoveDirAll(self.old_dir.clone())),
            SavePoint::Saved => None,
        }
    }

    fn at_point(self, at: SavePoint) -> (res: Self)
        ensures
            res@ == self@.at_point(at),
    {
        TableSave { at, ..self }
    }

    /// Takes the answer to the request of `action`.
    pub fn advance(self, reply: Reply) -> (res: Result<Self, RayforceAdapterError>)
        requires
            fits(self@.action(), reply@),
        ensures
            save_result(res) == self@.advance(reply@),
    {
        match (self.at, reply) {
            (SavePoint::CheckNew, Reply::Flag(true)) => Ok(self.at_point(SavePoint::RemoveNew)),
            (SavePoint::CheckNew, _) => Ok(self.at_point(SavePoint::CreateNew)),
            (SavePoint::RemoveNew, _) => Ok(self.at_point(SavePoint::CreateNew)),
            (SavePoint::CreateNew, Reply::Io(Err(source))) => Err(
                RayforceAdapterError::CreateDir { path: self.new_dir, source },
            ),
            (SavePoint::CreateNew, _) => {
                let _dir = path_to_cstring(&self.new_dir)?;
                let _sym = path_to_cstring(&self.sym_path)?;
                Ok(self.at_point(SavePoint::Splay))
            },
            (SavePoint::Splay, Reply::Code(code)) => {
                if code != RAY_OK {
                    return Err(RayforceAdapterError::SplaySave { dir: self.new_dir, code });
                }
                Ok(self.at_point(SavePoint::CheckLive))
            },
            (SavePoint::CheckLive, Reply::Flag(true)) => Ok(self.at_point(SavePoint::CheckOld)),
            (SavePoint::CheckLive, _) => Ok(self.at_point(SavePoint::Promote)),
            (SavePoint::CheckOld, Reply::Flag(true)) => Ok(self.at_point(SavePoint::RemoveOld)),
            (SavePoint::CheckOld, _) => Ok(self.at_point(SavePoint::Retire)),
            (SavePoint::RemoveOld, _) => Ok(self.at_point(SavePoint::Retire)),
            (SavePoint::Retire, Reply::Io(Err(source))) => Err(
                RayforceAdapterError::Rename { from: self.dir, to: self.old_dir, source },
            ),
            (SavePoint::Retire, _) => Ok(self.at_point(SavePoint::Promote)),
            (SavePoint::Promote, Reply::Io(Err(source))) => Err(
                RayforceAdapterError::Rename { from: self.new_dir, to: self.dir, source },
            ),
            (SavePoint::Promote, _) => Ok(self.at_point(SavePoint::CheckLeftover)),
            (SavePoint::CheckLeftover, Reply::Flag(true)) => Ok(
                self.at_point(SavePoint::RemoveLeftover),
            ),
            (SavePoint::CheckLeftover, _) => Ok(self.at_point(SavePoint::Saved)),
            (SavePoint::RemoveLeftover, _) => Ok(self.at_point(SavePoint::Saved)),
            _ => Ok(self),
        }
    }
}

} // verus!
