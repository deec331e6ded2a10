//! Where the tables of a log lie on disk.

use std::path::{Path, PathBuf};
use vstd::prelude::*;

use crate::error::{ErrorView, RayforceAdapterError};
use crate::path::{
    c_bytes, c_safe, ends_in_stem, join, lemma_c_bytes_differ, lemma_c_safe, path_joined,
    path_lossy, path_owned, path_to_cstring, path_under, with_extension,
};
use crate::run::nameable;
use crate::save::SaveView;
use crate::store::Place;

verus! {

/// On-disk layout of a transaction log: the `tx` and `datom` table directories
/// and the symbol file, under one root directory.
#[derive(Debug)]
pub struct TxLogLayout {
    root: PathBuf,
}

impl TxLogLayout {
    /// The root directory.
    pub closed spec fn root_path(self) -> PathBuf {
        self.root
    }

    /// The directory of the `tx` table.
    pub open spec fn tx_dir(self) -> PathBuf {
        path_joined(self.root_path(), "tx"@)
    }

    /// The directory of the `datom` table.
    pub open spec fn datom_dir(self) -> PathBuf {
        path_joined(self.root_path(), "datom"@)
    }

    /// The symbol file.
    pub open spec fn sym_file(self) -> PathBuf {
        path_joined(self.root_path(), "sym.ray"@)
    }

    pub fn new<R: Into<PathBuf>>(root: R) -> (res: Self)
        ensures
            call_ensures(<R as Into<PathBuf>>::into, (root,), res.root_path()),
    {
        Self { root: root.into() }
    }

    pub fn root(&self) -> (res: &Path)
        ensures
            path_owned(res) == self.root_path(),
    {
        self.root.as_path()
    }

    /// The root directory, as an owned path.
    pub(crate) fn root_dir(&self) -> (res: PathBuf)
        ensures
            res == self.root_path(),
    {
        self.root.clone()
    }

    /// The directory of the `tx` table, right under the root.
    pub fn tx_table_dir(&self) -> (res: PathBuf)
        ensures
            res == self.tx_dir(),
            named_under(*self, res, "tx"@),
            path_lossy(res) != path_lossy(self.root_path()),
    {
        proof {
            reveal_strlit("tx");
        }
        join(&self.root, "tx")
    }

    /// The directory of the `datom` table, right under the root.
    pub fn datom_table_dir(&self) -> (res: PathBuf)
        ensures
            res == self.datom_dir(),
            named_under(*self, res, "datom"@),
            path_lossy(res) != path_lossy(self.root_path()),
    {
        proof {
            reveal_strlit("datom");
        }
        join(&self.root, "datom")
    }

    /// The symbol file, right under the root.
    pub fn sym_path(&self) -> (res: PathBuf)
        ensures
            res == self.sym_file(),
            named_under(*self, res, "sym.ray"@),
            path_lossy(res) != path_lossy(self.root_path()),
    {
        proof {
            reveal_strlit("sym.ray");
        }
        join(&self.root, "sym.ray")
    }

    /// Whether a store can keep a log under this layout: whether no zero is in the
    /// root. The paths of every layout lie right under the root, each under a
    /// name of its own.
    pub fn is_usable(&self) -> (res: bool)
        ensures
            res == usable_layout(*self),
            res == !path_under(self.root_path()).contains('\0'),
            paths_named(*self),
            log_paths(*self).no_duplicates(),
    {
        proof {
            reveal_strlit("tx");
            reveal_strlit("datom");
            reveal_strlit("new");
            reveal_strlit("old");
            reveal_strlit("tx.new");
            reveal_strlit("tx.old");
            reveal_strlit("datom.new");
            reveal_strlit("datom.old");
        }
        let tx = self.tx_table_dir();
        let datoms = self.datom_table_dir();
        let sym = self.sym_path();
        assert(ends_in_stem(tx) && ends_in_stem(datoms));
        let tx_new = with_extension(&tx, "new");
        let tx_old = with_extension(&tx, "old");
        let datoms_new = with_extension(&datoms, "new");
        let datoms_old = with_extension(&datoms, "old");
        proof {
            let under = path_under(self.root_path());
            assert(path_lossy(tx_new) =~= under + "tx.new"@);
            assert(path_lossy(tx_old) =~= under + "tx.old"@);
            assert(path_lossy(datoms_new) =~= under + "datom.new"@);
            assert(path_lossy(datoms_old) =~= under + "datom.old"@);
            law_named_paths_differ(*self);
        }
        path_to_cstring(&tx).is_ok() && path_to_cstring(&datoms).is_ok() && path_to_cstring(
            &tx_new,
        ).is_ok() && path_to_cstring(&datoms_new).is_ok() && path_to_cstring(&sym).is_ok()
    }

    /// Judges the attempt to create the root directory and all its parents.
    pub fn ensure(&self, created: Result<(), std::io::Error>) -> (res: Result<
        (),
        RayforceAdapterError,
    >)
        ensures
            match created {
                Ok(_) => res is Ok,
                Err(source) => res matches Err(err) && err@ == (ErrorView::CreateDir {
                    path: self.root_path(),
                    source,
                }),
            },
    {
        match created {
            Ok(_) => Ok(()),
            Err(source) => Err(
                RayforceAdapterError::CreateDir { path: self.root.clone(), source },
            ),
        }
    }
}

/// The paths under which a table is saved: live, new and old.
pub open spec fn save_paths(dir: PathBuf, sym: PathBuf) -> Seq<Seq<u8>> {
    let save = SaveView::start(dir, sym);
    seq![c_bytes(save.dir), c_bytes(save.new_dir), c_bytes(save.old_dir)]
}

/// All paths that a log is written to: those of the `tx` table, those of the
/// `datom` table, and the symbol file.
pub open spec fn log_path_bufs(layout: TxLogLayout) -> Seq<PathBuf> {
    let tx = SaveView::start(layout.tx_dir(), layout.sym_file());
    let datoms = SaveView::start(layout.datom_dir(), layout.sym_file());
    seq![
        tx.dir,
        tx.new_dir,
        tx.old_dir,
        datoms.dir,
        datoms.new_dir,
        datoms.old_dir,
        layout.sym_file(),
    ]
}

/// The paths that a log is written to, as C is handed them.
pub open spec fn log_paths(layout: TxLogLayout) -> Seq<Seq<u8>> {
    save_paths(layout.tx_dir(), layout.sym_file()) + save_paths(
        layout.datom_dir(),
        layout.sym_file(),
    ) + seq![c_bytes(layout.sym_file())]
}

/// Whether the layout is one that a store can keep a log in: its paths are
/// apart, the root is neither the `tx` directory nor the symbol file, and the
/// paths that the store is handed are free of NUL bytes.
pub open spec fn usable_layout(layout: TxLogLayout) -> bool {
    let tx = SaveView::start(layout.tx_dir(), layout.sym_file());
    let datoms = SaveView::start(layout.datom_dir(), layout.sym_file());
    &&& log_paths(layout).no_duplicates()
    &&& c_bytes(layout.root_path()) != c_bytes(layout.tx_dir())
    &&& c_bytes(layout.root_path()) != c_bytes(layout.sym_file())
    &&& c_safe(tx.dir)
    &&& c_safe(datoms.dir)
    &&& nameable(tx)
    &&& nameable(datoms)
}

/// Whether the file system finds the root and the paths of the log where C finds
/// them by their texts. Where the root is not Unicode it may not: C is handed a
/// text with replacements.
pub open spec fn found_as_named(layout: TxLogLayout, place: Place) -> bool {
    &&& place(layout.root_path()) == c_bytes(layout.root_path())
    &&& forall|k: int|
        0 <= k < 7 ==> place(#[trigger] log_path_bufs(layout)[k]) == c_bytes(
            log_path_bufs(layout)[k],
        )
}

/// Whether `path` lies right under the root, under that name.
pub open spec fn named_under(layout: TxLogLayout, path: PathBuf, name: Seq<char>) -> bool {
    path_lossy(path) == path_under(layout.root_path()) + name
}

/// Whether the paths of a layout lie right under the root, and where: as
/// `is_usable` finds them for every layout.
pub open spec fn paths_named(layout: TxLogLayout) -> bool {
    let tx = SaveView::start(layout.tx_dir(), layout.sym_file());
    let datoms = SaveView::start(layout.datom_dir(), layout.sym_file());
    &&& named_under(layout, tx.dir, "tx"@)
    &&& named_under(layout, tx.new_dir, "tx.new"@)
    &&& named_under(layout, tx.old_dir, "tx.old"@)
    &&& named_under(layout, datoms.dir, "datom"@)
    &&& named_under(layout, datoms.new_dir, "datom.new"@)
    &&& named_under(layout, datoms.old_dir, "datom.old"@)
    &&& named_under(layout, layout.sym_file(), "sym.ray"@)
    &&& path_lossy(tx.dir) != path_lossy(layout.root_path())
    &&& path_lossy(datoms.dir) != path_lossy(layout.root_path())
    &&& path_lossy(layout.sym_file()) != path_lossy(layout.root_path())
}

/// A name without a zero leaves it to the root whether a path can be handed to C.
proof fn lemma_named(layout: TxLogLayout, path: PathBuf, name: Seq<char>)
    requires
        named_under(layout, path, name),
        !name.contains('\0'),
    ensures
        c_safe(path) <==> !path_under(layout.root_path()).contains('\0'),
{
    let under = path_under(layout.root_path());
    let text = path_lossy(path);
    lemma_c_safe(path);
    if under.contains('\0') {
        let k = under.index_of('\0');
        assert(text[k] == '\0');
    }
    if text.contains('\0') {
        let k = text.index_of('\0');
        if k < under.len() {
            assert(under[k] == '\0');
        } else {
            assert(name[k - under.len()] == '\0');
        }
    }
}

/// Paths under different names of the root are different paths.
proof fn lemma_names_apart(
    layout: TxLogLayout,
    a: PathBuf,
    name_a: Seq<char>,
    b: PathBuf,
    name_b: Seq<char>,
)
    requires
        named_under(layout, a, name_a),
        named_under(layout, b, name_b),
        name_a != name_b,
    ensures
        a != b,
        c_bytes(a) != c_bytes(b),
{
    let n = path_under(layout.root_path()).len() as int;
    if path_lossy(a) == path_lossy(b) {
        assert(path_lossy(a).skip(n) =~= name_a);
        assert(path_lossy(b).skip(n) =~= name_b);
    }
    lemma_c_bytes_differ(a, b);
}

/// The name of the `k`th of a layout's paths.
spec fn path_name(k: int) -> Seq<char> {
    seq!["tx"@, "tx.new"@, "tx.old"@, "datom"@, "datom.new"@, "datom.old"@, "sym.ray"@][k]
}

/// The names of a layout's paths are seven, and none has a zero in it.
proof fn lemma_path_names()
    ensures
        forall|i: int, j: int|
            0 <= i < j < 7 ==> #[trigger] path_name(i) != #[trigger] path_name(j),
        forall|k: int| 0 <= k < 7 ==> !(#[trigger] path_name(k)).contains('\0'),
{
    reveal_strlit("tx");
    reveal_strlit("tx.new");
    reveal_strlit("tx.old");
    reveal_strlit("datom");
    reveal_strlit("datom.new");
    reveal_strlit("datom.old");
    reveal_strlit("sym.ray");
    assert("tx"@.len() == 2);
    assert("tx.new"@.len() == 6);
    assert("tx.old"@.len() == 6);
    assert("datom"@.len() == 5);
    assert("datom.new"@.len() == 9);
    assert("datom.old"@.len() == 9);
    assert("sym.ray"@.len() == 7);
    assert("tx.new"@[3] == 'n' && "tx.old"@[3] == 'o');
    assert("datom.new"@[6] == 'n' && "datom.old"@[6] == 'o');
}

/// The seven paths of a layout, whose places `is_usable` finds for every layout,
/// are pairwise different, and differ in what C is handed for them, as the root
/// does from those that are joined to it. The layout is usable exactly if the
/// root, as those paths have it, has no zero in it.
pub proof fn law_named_paths_differ(layout: TxLogLayout)
    requires
        paths_named(layout),
    ensures
        log_paths(layout).no_duplicates(),
        log_path_bufs(layout).no_duplicates(),
        c_bytes(layout.root_path()) != c_bytes(layout.tx_dir()),
        c_bytes(layout.root_path()) != c_bytes(layout.datom_dir()),
        c_bytes(layout.root_path()) != c_bytes(layout.sym_file()),
        usable_layout(layout) <==> !path_under(layout.root_path()).contains('\0'),
{
    let paths = log_path_bufs(layout);
    let bytes = log_paths(layout);
    lemma_path_names();
    assert forall|k: int| 0 <= k < 7 implies {
        &&& named_under(layout, #[trigger] paths[k], path_name(k))
        &&& bytes[k] == c_bytes(paths[k])
        &&& c_safe(paths[k]) == !path_under(layout.root_path()).contains('\0')
    } by {
        lemma_named(layout, paths[k], path_name(k));
    }
    assert forall|i: int, j: int| 0 <= i < 7 && 0 <= j < 7 && i != j implies {
        &&& paths[i] != paths[j]
        &&& bytes[i] != bytes[j]
    } by {
        if i < j {
            lemma_names_apart(layout, paths[i], path_name(i), paths[j], path_name(j));
        } else {
            lemma_names_apart(layout, paths[j], path_name(j), paths[i], path_name(i));
        }
    }
    lemma_c_bytes_differ(layout.tx_dir(), layout.root_path());
    lemma_c_bytes_differ(layout.datom_dir(), layout.root_path());
    lemma_c_bytes_differ(layout.sym_file(), layout.root_path());
    assert(c_safe(paths[0]) && c_safe(paths[1]) && c_safe(paths[3]) && c_safe(paths[4]) && c_safe(
        paths[6],
    ) <==> !path_under(layout.root_path()).contains('\0'));
}

impl Clone for TxLogLayout {
    fn clone(&self) -> (res: Self)
        ensures
            res == *self,
    {
        TxLogLayout { root: self.root.clone() }
    }
}

} // verus!
