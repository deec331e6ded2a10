//! Writing a log, run to its end.

use vstd::prelude::*;

use crate::builder::{BuildPoint, BuilderView};
use crate::encode::{all_datoms, datom_table_of, tx_table_of};
use crate::error::ErrorView;
use crate::layout::{found_as_named, log_path_bufs, log_paths, usable_layout, TxLogLayout};
use crate::log::EnvelopeView;
use crate::path::c_bytes;
use crate::protocol::{ActionView, ReplyView};
use crate::rebuild::{RebuildPointView, RebuildView};
use crate::run::{
    builder_steps, built_so_far, column_known, dirs_apart, law_building_builds, law_saving_ends,
    law_saving_saves, lemma_builder_step, lemma_column_stays_known, nameable, no_files_there,
    only_builds, placed, run_builder, run_save, save_steps, saved_to, table_steps,
};
use crate::save::{SavePoint, SaveView};
use crate::store::StoreView;
use crate::table::{ColumnView, TableView};

verus! {

/// Writing run for at most `steps` steps.
pub open spec fn run_rebuild(process: RebuildView, store: StoreView, steps: nat) -> (
    Result<RebuildView, ErrorView>,
    StoreView,
)
    decreases steps,
{
    match process.action() {
        Some(action) if steps > 0 => match process.advance(store.reply(action)) {
            Err(err) => (Err(err), store.after(action)),
            Ok(next) => run_rebuild(next, store.after(action), (steps - 1) as nat),
        },
        _ => (Ok(process), store),
    }
}

/// Writing builds a table as building it alone does, and goes on from there.
proof fn lemma_builds(
    wrap: spec_fn(BuilderView) -> RebuildView,
    builder: BuilderView,
    store: StoreView,
    steps: nat,
) -> (left: nat)
    requires
        forall|b: BuilderView|
            b.at != BuildPoint::Built ==> (#[trigger] wrap(b)).action() == b.action(),
        forall|b: BuilderView, reply: ReplyView|
            b.at != BuildPoint::Built ==> (#[trigger] wrap(b).advance(reply)) == match b.advance(
                reply,
            ) {
                Err(err) => Err::<RebuildView, ErrorView>(err),
                Ok(next) => Ok(wrap(next)),
            },
        builder.wf(),
        built_so_far(builder, store),
        steps >= builder_steps(builder),
        store.syms.len() + builder_steps(builder) <= i64::MAX,
    ensures
        left >= steps - builder_steps(builder),
        run_rebuild(wrap(builder), store, steps) == run_rebuild(
            wrap(BuilderView { at: BuildPoint::Built, ..builder }),
            run_builder(builder, store, steps).1,
            left,
        ),
    decreases steps,
{
    match builder.action() {
        None => steps,
        Some(action) => {
            lemma_builder_step(builder, store);
            let later = store.after(action);
            let next = builder.advance(store.reply(action))->Ok_0;
            assert(wrap(builder).advance(store.reply(action)) == Ok::<RebuildView, ErrorView>(
                wrap(next),
            ));
            lemma_builds(wrap, next, later, (steps - 1) as nat)
        },
    }
}

/// Writing saves a table as saving it alone does, and goes on from there.
proof fn lemma_saves(
    wrap: spec_fn(SaveView) -> RebuildView,
    save: SaveView,
    store: StoreView,
    steps: nat,
) -> (left: nat)
    requires
        forall|s: SaveView|
            s.at != SavePoint::Saved ==> (#[trigger] wrap(s)).action() == s.action(),
        forall|s: SaveView, reply: ReplyView|
            s.sym_path == save.sym_path && s.at != SavePoint::Saved ==> (#[trigger] wrap(s).advance(
                reply,
            )) == match s.advance(reply) {
                Err(err) => Err::<RebuildView, ErrorView>(err),
                Ok(next) => Ok(wrap(next)),
            },
        steps >= save_steps(save),
        run_save(save, store, steps).0 is Ok,
    ensures
        left >= steps - save_steps(save),
        run_rebuild(wrap(save), store, steps) == run_rebuild(
            wrap(save.at_point(SavePoint::Saved)),
            run_save(save, store, steps).1,
            left,
        ),
    decreases steps,
{
    match save.action() {
        None => steps,
        Some(action) => {
            law_saving_ends(save, store.reply(action));
            let later = store.after(action);
            let next = save.advance(store.reply(action))->Ok_0;
            assert(wrap(save).advance(store.reply(action)) == Ok::<RebuildView, ErrorView>(
                wrap(next),
            ));
            lemma_saves(wrap, next, later, (steps - 1) as nat)
        },
    }
}

/// Whether no new and no old directory of the log is left on the store's disk.
pub open spec fn no_leftovers(layout: TxLogLayout, store: StoreView) -> bool {
    let tx = SaveView::start(layout.tx_dir(), layout.sym_file());
    let datoms = SaveView::start(layout.datom_dir(), layout.sym_file());
    &&& !store.dirs.contains_key(c_bytes(tx.new_dir))
    &&& !store.dirs.contains_key(c_bytes(tx.old_dir))
    &&& !store.dirs.contains_key(c_bytes(datoms.new_dir))
    &&& !store.dirs.contains_key(c_bytes(datoms.old_dir))
}

/// Whether no directory of the log is a file of the store, nor its symbol file a
/// directory.
pub open spec fn paths_free(layout: TxLogLayout, store: StoreView) -> bool {
    let tx = SaveView::start(layout.tx_dir(), layout.sym_file());
    let datoms = SaveView::start(layout.datom_dir(), layout.sym_file());
    &&& no_files_there(tx, store)
    &&& no_files_there(datoms, store)
    &&& !store.dirs.contains_key(c_bytes(layout.sym_file()))
}

/// An upper bound on the requests that writing a log takes.
pub open spec fn rebuild_steps(envelopes: Seq<EnvelopeView>) -> nat {
    24 + table_steps(tx_table_of(envelopes).columns) + table_steps(
        datom_table_of(envelopes).columns,
    )
}

/// Whether a store can take a log in that many steps: under a usable layout whose
/// paths are found and free, with rows that can be counted and with ids for all symbols.
pub open spec fn can_write(
    layout: TxLogLayout,
    envelopes: Seq<EnvelopeView>,
    store: StoreView,
    steps: nat,
) -> bool {
    &&& usable_layout(layout)
    &&& found_as_named(layout, store.place)
    &&& paths_free(layout, store)
    &&& envelopes.len() <= usize::MAX
    &&& all_datoms(envelopes).len() <= usize::MAX
    &&& steps >= rebuild_steps(envelopes)
    &&& store.syms.len() + rebuild_steps(envelopes) <= i64::MAX
}

/// Whether a log lies on the store's disk: its two tables in their directories,
/// and a symbol file with the names of their columns and all their symbol cells.
pub open spec fn log_on_disk(
    layout: TxLogLayout,
    envelopes: Seq<EnvelopeView>,
    store: StoreView,
) -> bool {
    let tx = c_bytes(layout.tx_dir());
    let datoms = c_bytes(layout.datom_dir());
    let sym = c_bytes(layout.sym_file());
    &&& store.dirs.contains_key(tx)
    &&& store.dirs[tx] == Some(tx_table_of(envelopes).columns)
    &&& store.dirs.contains_key(datoms)
    &&& store.dirs[datoms] == Some(datom_table_of(envelopes).columns)
    &&& store.files.contains_key(sym)
    &&& symbols_known(tx_table_of(envelopes).columns, store.files[sym])
    &&& symbols_known(datom_table_of(envelopes).columns, store.files[sym])
}

/// Whether the names and all symbol cells of the columns are among the symbols.
pub open spec fn symbols_known(columns: Seq<ColumnView>, syms: Seq<Seq<char>>) -> bool {
    forall|c: int| 0 <= c < columns.len() ==> column_known(#[trigger] columns[c], syms)
}

/// Symbols that are known stay known among more symbols.
pub(crate) proof fn lemma_symbols_stay(
    columns: Seq<ColumnView>,
    syms: Seq<Seq<char>>,
    more: Seq<Seq<char>>,
)
    requires
        symbols_known(columns, syms),
        forall|k: int| 0 <= k < syms.len() ==> more.contains(#[trigger] syms[k]),
    ensures
        symbols_known(columns, more),
{
    assert forall|c: int| 0 <= c < columns.len() implies column_known(
        #[trigger] columns[c],
        more,
    ) by {
        lemma_column_stays_known(columns[c], syms, more);
    }
}

/// Whether a path has the same on both disks.
pub open spec fn same_at(path: Seq<u8>, store: StoreView, later: StoreView) -> bool {
    &&& later.dirs.contains_key(path) == store.dirs.contains_key(path)
    &&& store.dirs.contains_key(path) ==> later.dirs[path] == store.dirs[path]
    &&& later.files.contains_key(path) == store.files.contains_key(path)
    &&& store.files.contains_key(path) ==> later.files[path] == store.files[path]
}

/// Whether building `table` turned `store` into `later`.
spec fn built(table: TableView, store: StoreView, later: StoreView) -> bool {
    &&& only_builds(store, later)
    &&& later.table == table.columns
    &&& symbols_known(table.columns, later.syms)
    &&& later.syms.len() <= store.syms.len() + table_steps(table.columns)
}

/// The first half of writing: the `tx` table.
proof fn lemma_writes_tx(
    start: RebuildView,
    tx: TableView,
    datoms: TableView,
    store: StoreView,
    steps: nat,
) -> (half: (StoreView, nat))
    requires
        ({
            let save = SaveView::start(start.layout.tx_dir(), start.layout.sym_file());
            &&& dirs_apart(save)
            &&& nameable(save)
            &&& placed(save, store.place)
            &&& no_files_there(save, store)
        }),
        BuilderView::start(tx).wf(),
        steps >= table_steps(tx.columns) + 11,
        store.syms.len() + table_steps(tx.columns) <= i64::MAX,
    ensures
        built(tx, store, half.0),
        half.1 >= steps - table_steps(tx.columns) - 11,
        run_rebuild(
            start.at_point(
                RebuildPointView::BuildTx { builder: BuilderView::start(tx), datoms },
            ),
            store,
            steps,
        ) == run_rebuild(
            start.at_point(RebuildPointView::BuildDatoms(BuilderView::start(datoms))),
            saved_to(
                half.0,
                SaveView::start(start.layout.tx_dir(), start.layout.sym_file()),
            ),
            half.1,
        ),
{
    let save = SaveView::start(start.layout.tx_dir(), start.layout.sym_file());
    let builder = BuilderView::start(tx);
    let n = lemma_builds(|b: BuilderView| start.at_build_tx(b, datoms), builder, store, steps);
    law_building_builds(builder, store, steps);
    let later = run_builder(builder, store, steps).1;
    law_saving_saves(save, later, n);
    let left = lemma_saves(|s: SaveView| start.at_save_tx(s, datoms), save, later, n);
    (later, left)
}

/// The second half of writing: the `datom` table.
proof fn lemma_writes_datoms(
    start: RebuildView,
    datoms: TableView,
    store: StoreView,
    steps: nat,
) -> (half: (StoreView, nat))
    requires
        ({
            let save = SaveView::start(start.layout.datom_dir(), start.layout.sym_file());
            &&& dirs_apart(save)
            &&& nameable(save)
            &&& placed(save, store.place)
            &&& no_files_there(save, store)
        }),
        BuilderView::start(datoms).wf(),
        steps >= table_steps(datoms.columns) + 11,
        store.syms.len() + table_steps(datoms.columns) <= i64::MAX,
    ensures
        built(datoms, store, half.0),
        half.1 >= steps - table_steps(datoms.columns) - 11,
        run_rebuild(
            start.at_point(RebuildPointView::BuildDatoms(BuilderView::start(datoms))),
            store,
            steps,
        ) == run_rebuild(
            start.at_point(RebuildPointView::SaveSyms),
            saved_to(
                half.0,
                SaveView::start(start.layout.datom_dir(), start.layout.sym_file()),
            ),
            half.1,
        ),
{
    let save = SaveView::start(start.layout.datom_dir(), start.layout.sym_file());
    let builder = BuilderView::start(datoms);
    let n = lemma_builds(|b: BuilderView| start.at_build_datoms(b), builder, store, steps);
    law_building_builds(builder, store, steps);
    let later = run_builder(builder, store, steps).1;
    law_saving_saves(save, later, n);
    let left = lemma_saves(|s: SaveView| start.at_save_datoms(s)->Ok_0, save, later, n);
    (later, left)
}

/// Writing a log to a store that does what it is asked ends well, with the log
/// on disk and nothing left over, and touches no other directory and no other
/// file.
pub proof fn law_rebuild_writes(
    layout: TxLogLayout,
    envelopes: Seq<EnvelopeView>,
    store: StoreView,
    steps: nat,
)
    requires
        can_write(layout, envelopes, store, steps),
    ensures
        ({
            let start = RebuildView::start(layout, envelopes);
            let (end, later) = run_rebuild(start, store, steps);
            &&& end == Ok::<RebuildView, ErrorView>(start.at_point(RebuildPointView::Done))
            &&& log_on_disk(layout, envelopes, later)
            &&& no_leftovers(layout, later)
            &&& paths_free(layout, later)
            &&& later.parse == store.parse
            &&& later.place == store.place
            &&& later.syms.len() <= store.syms.len() + rebuild_steps(envelopes)
            &&& forall|path: Seq<u8>|
                !log_paths(layout).contains(path) ==> #[trigger] same_at(path, store, later)
        }),
{
    let start = RebuildView::start(layout, envelopes);
    let tx = tx_table_of(envelopes);
    let datoms = datom_table_of(envelopes);
    let sym = c_bytes(layout.sym_file());
    let save_tx = SaveView::start(layout.tx_dir(), layout.sym_file());
    let save_datoms = SaveView::start(layout.datom_dir(), layout.sym_file());
    lemma_paths_apart(layout);
    let bufs = log_path_bufs(layout);
    assert(placed(save_tx, store.place)) by {
        assert(bufs[0] == save_tx.dir && bufs[1] == save_tx.new_dir && bufs[2] == save_tx.old_dir);
    }
    assert(placed(save_datoms, store.place)) by {
        assert(bufs[3] == save_datoms.dir);
        assert(bufs[4] == save_datoms.new_dir && bufs[5] == save_datoms.old_dir);
    }
    let n1 = (steps - 1) as nat;
    let (s2, n2) = lemma_writes_tx(start, tx, datoms, store, n1);
    let s3 = saved_to(s2, save_tx);
    let (s4, n4) = lemma_writes_datoms(start, datoms, s3, n2);
    let s5 = saved_to(s4, save_datoms);
    assert forall|k: int| 0 <= k < s3.syms.len() implies s4.syms.contains(
        #[trigger] s3.syms[k],
    ) by {
        assert(s4.syms[k] == s3.syms[k]);
    }
    lemma_symbols_stay(tx.columns, s3.syms, s4.syms);
    let s6 = s5.after(ActionView::SymSave(sym));
    let last = start.at_point(RebuildPointView::SaveSyms);
    let done = start.at_point(RebuildPointView::Done);
    assert(run_rebuild(last, s5, n4) == run_rebuild(done, s6, (n4 - 1) as nat));
    assert(run_rebuild(start, store, steps) == (Ok::<RebuildView, ErrorView>(done), s6));
    assert forall|path: Seq<u8>| !log_paths(layout).contains(path) implies #[trigger] same_at(
        path,
        store,
        s6,
    ) by {
    }
}

/// The paths of a usable layout differ from one another.
proof fn lemma_paths_apart(layout: TxLogLayout)
    requires
        usable_layout(layout),
    ensures
        ({
            let tx = SaveView::start(layout.tx_dir(), layout.sym_file());
            let datoms = SaveView::start(layout.datom_dir(), layout.sym_file());
            let sym = c_bytes(layout.sym_file());
            &&& dirs_apart(tx)
            &&& dirs_apart(datoms)
            &&& c_bytes(tx.dir) != c_bytes(datoms.dir)
            &&& c_bytes(tx.dir) != c_bytes(datoms.new_dir)
            &&& c_bytes(tx.dir) != c_bytes(datoms.old_dir)
            &&& c_bytes(tx.new_dir) != c_bytes(datoms.dir)
            &&& c_bytes(tx.old_dir) != c_bytes(datoms.dir)
            &&& sym != c_bytes(tx.dir)
            &&& sym != c_bytes(tx.new_dir)
            &&& sym != c_bytes(tx.old_dir)
            &&& sym != c_bytes(datoms.dir)
            &&& sym != c_bytes(datoms.new_dir)
            &&& sym != c_bytes(datoms.old_dir)
            &&& log_paths(layout).contains(c_bytes(tx.dir))
            &&& log_paths(layout).contains(c_bytes(tx.new_dir))
            &&& log_paths(layout).contains(c_bytes(tx.old_dir))
            &&& log_paths(layout).contains(c_bytes(datoms.dir))
            &&& log_paths(layout).contains(c_bytes(datoms.new_dir))
            &&& log_paths(layout).contains(c_bytes(datoms.old_dir))
            &&& log_paths(layout).contains(sym)
        }),
{
    let tx = SaveView::start(layout.tx_dir(), layout.sym_file());
    let datoms = SaveView::start(layout.datom_dir(), layout.sym_file());
    let paths = log_paths(layout);
    assert(paths.len() == 7);
    assert(paths[0] == c_bytes(tx.dir));
    assert(paths[1] == c_bytes(tx.new_dir));
    assert(paths[2] == c_bytes(tx.old_dir));
    assert(paths[3] == c_bytes(datoms.dir));
    assert(paths[4] == c_bytes(datoms.new_dir));
    assert(paths[5] == c_bytes(datoms.old_dir));
    assert(paths[6] == c_bytes(layout.sym_file()));
}

} // verus!
