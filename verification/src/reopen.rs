//! What a log that was written gives when it is opened again.

use vstd::prelude::*;

use crate::encode::{all_datoms, datom_table_of, tx_table_of};
use crate::ends::{law_loading_ends, law_opening_ends};
use crate::error::ErrorView;
use crate::laws::{
    column_named, json_reads_back, law_append_keeps_log_storable, law_loadable_log_is_storable,
    law_settled_log_reads_back_unchanged, law_stored_log_reads_back, lemma_column_at,
    lemma_names_differ, loadable, read_back, settled, storable,
};
use crate::layout::{found_as_named, log_path_bufs, log_paths, usable_layout, TxLogLayout};
use crate::load::{LoadPointView, LoadView};
use crate::loaded::{
    columns_found, holds_log, law_load_reads, law_missing_log_is_empty, lemma_interned_all,
    load_outcome, run_load, with_symbols,
};
use crate::log::EnvelopeView;
use crate::path::c_bytes;
use crate::projection::{OpeningPointView, OpeningView};
use crate::protocol::{ActionView, TableKind};
use crate::reader::columns_read;
use crate::rebuild::RebuildView;
use crate::safety::lies_in;
use crate::store::StoreView;
use crate::written::{
    can_write, law_rebuild_writes, lemma_symbols_stay, log_on_disk, paths_free, run_rebuild,
    same_at, symbols_known,
};

verus! {

/// Opening run for at most `steps` steps.
pub open spec fn run_opening(process: OpeningView, store: StoreView, steps: nat) -> (
    Result<OpeningView, ErrorView>,
    StoreView,
)
    decreases steps,
{
    match process.action() {
        Some(action) if steps > 0 => match process.advance(store.reply(action)) {
            Err(err) => (Err(err), store.after(action)),
            Ok(next) => run_opening(next, store.after(action), (steps - 1) as nat),
        },
        _ => (Ok(process), store),
    }
}

/// Opening loads as loading alone does.
proof fn lemma_opening_loads(opening: OpeningView, load: LoadView, store: StoreView, steps: nat)
    ensures
        run_opening(opening.at_load(load), store, steps) == match run_load(load, store, steps) {
            (Err(err), later) => (Err::<OpeningView, ErrorView>(err), later),
            (Ok(load), later) => (Ok(opening.at_load(load)), later),
        },
    decreases steps,
{
    if load.action() is Some && steps > 0 {
        let action = load.action()->Some_0;
        if let Ok(next) = load.advance(store.reply(action)) {
            lemma_opening_loads(opening, next, store.after(action), (steps - 1) as nat);
        }
    }
}

/// Every column that is read of a `tx` table is one that is written.
proof fn lemma_tx_columns_found(envelopes: Seq<EnvelopeView>, syms: Seq<Seq<char>>)
    requires
        symbols_known(tx_table_of(envelopes).columns, syms),
    ensures
        columns_found(TableKind::Tx, tx_table_of(envelopes).columns, syms),
{
    lemma_names_differ();
    let columns = tx_table_of(envelopes).columns;
    assert forall|c: int| 0 <= c < columns_read(TableKind::Tx).len() implies {
        &&& syms.contains(#[trigger] columns_read(TableKind::Tx)[c])
        &&& column_named(columns, columns_read(TableKind::Tx)[c]) is Some
    } by {
        assert(columns_read(TableKind::Tx)[c] == columns[c].name);
        lemma_column_at(columns, c);
    }
}

/// Every column that is read of a `datom` table is one that is written.
proof fn lemma_datom_columns_found(envelopes: Seq<EnvelopeView>, syms: Seq<Seq<char>>)
    requires
        symbols_known(datom_table_of(envelopes).columns, syms),
    ensures
        columns_found(TableKind::Datom, datom_table_of(envelopes).columns, syms),
{
    lemma_names_differ();
    let columns = datom_table_of(envelopes).columns;
    assert forall|c: int| 0 <= c < columns_read(TableKind::Datom).len() implies {
        &&& syms.contains(#[trigger] columns_read(TableKind::Datom)[c])
        &&& column_named(columns, columns_read(TableKind::Datom)[c]) is Some
    } by {
        let w = if c < 3 {
            c
        } else {
            c + 1
        };
        assert(columns_read(TableKind::Datom)[c] == columns[w].name);
        lemma_column_at(columns, w);
    }
}

/// A log on disk can be read: each table that is there has the columns that are
/// read of it.
pub proof fn law_log_on_disk_is_readable(
    layout: TxLogLayout,
    envelopes: Seq<EnvelopeView>,
    store: StoreView,
)
    requires
        usable_layout(layout),
        found_as_named(layout, store.place),
        log_on_disk(layout, envelopes, store),
        paths_free(layout, store),
        store.syms.len() + store.files[c_bytes(layout.sym_file())].len() <= i64::MAX,
    ensures
        holds_log(layout, store),
{
    let sym = c_bytes(layout.sym_file());
    let file = store.files[sym];
    let known = with_symbols(store, sym).syms;
    lemma_interned_all(store, file);
    lemma_symbols_stay(tx_table_of(envelopes).columns, file, known);
    lemma_symbols_stay(datom_table_of(envelopes).columns, file, known);
    lemma_tx_columns_found(envelopes, known);
    lemma_datom_columns_found(envelopes, known);
}

/// A log on disk loads as what is read back of it.
pub proof fn law_log_on_disk_loads(
    layout: TxLogLayout,
    envelopes: Seq<EnvelopeView>,
    store: StoreView,
    steps: nat,
)
    requires
        usable_layout(layout),
        found_as_named(layout, store.place),
        log_on_disk(layout, envelopes, store),
        paths_free(layout, store),
        storable(envelopes, store.parse),
        store.syms.len() + store.files[c_bytes(layout.sym_file())].len() <= i64::MAX,
        steps >= 35 + all_datoms(envelopes).len(),
    ensures
        run_load(LoadView::start(layout), store, steps).0 == load_outcome(
            layout,
            Ok(read_back(envelopes)),
        ),
{
    law_log_on_disk_is_readable(layout, envelopes, store);
    law_load_reads(layout, store, steps);
    law_stored_log_reads_back(envelopes, store.parse);
}

/// Opening a log creates the root and then does what loading does.
pub proof fn law_opening_loads(layout: TxLogLayout, store: StoreView, steps: nat)
    requires
        steps >= 2,
    ensures
        ({
            let start = OpeningView::start(layout, true);
            let rooted = store.after(ActionView::CreateDirAll(layout.root_path()));
            run_opening(start, store, steps) == match run_load(
                LoadView::start(layout),
                rooted,
                (steps - 2) as nat,
            ) {
                (Err(err), later) => (Err::<OpeningView, ErrorView>(err), later),
                (Ok(load), later) => (Ok(start.at_load(load)), later),
            }
        }),
{
    let start = OpeningView::start(layout, true);
    let create = start.at_point(OpeningPointView::CreateRoot);
    let loading = start.at_load(LoadView::start(layout));
    let rooted = store.after(ActionView::CreateDirAll(layout.root_path()));
    let n = (steps - 2) as nat;
    assert(run_opening(start, store, steps) == run_opening(create, store, (steps - 1) as nat));
    assert(run_opening(create, store, (steps - 1) as nat) == run_opening(loading, rooted, n));
    lemma_opening_loads(start, LoadView::start(layout), rooted, n);
}

/// Opening a layout under which nothing was ever written gives an empty log.
pub proof fn law_new_log_opens_empty(layout: TxLogLayout, store: StoreView, steps: nat)
    requires
        usable_layout(layout),
        found_as_named(layout, store.place),
        !store.exists_at(layout.tx_dir()),
        steps >= 4,
    ensures
        run_opening(OpeningView::start(layout, true), store, steps).0 == Ok::<
            OpeningView,
            ErrorView,
        >(
            OpeningView::start(layout, true).at_point(OpeningPointView::Ready(Seq::empty())),
        ),
{
    let rooted = store.after(ActionView::CreateDirAll(layout.root_path()));
    assert(log_path_bufs(layout)[0] == layout.tx_dir());
    law_opening_loads(layout, store, steps);
    law_missing_log_is_empty(layout, rooted, (steps - 2) as nat);
}

/// A log on disk opens as what is read back of it.
pub proof fn law_log_on_disk_opens(
    layout: TxLogLayout,
    envelopes: Seq<EnvelopeView>,
    store: StoreView,
    steps: nat,
)
    requires
        usable_layout(layout),
        found_as_named(layout, store.place),
        log_on_disk(layout, envelopes, store),
        paths_free(layout, store),
        storable(envelopes, store.parse),
        store.syms.len() + store.files[c_bytes(layout.sym_file())].len() <= i64::MAX,
        steps >= 37 + all_datoms(envelopes).len(),
    ensures
        run_opening(OpeningView::start(layout, true), store, steps).0 == Ok::<
            OpeningView,
            ErrorView,
        >(
            OpeningView::start(layout, true).at_point(
                OpeningPointView::Ready(read_back(envelopes)),
            ),
        ),
{
    let rooted = store.after(ActionView::CreateDirAll(layout.root_path()));
    let paths = log_paths(layout);
    assert(paths[0] == c_bytes(layout.tx_dir()));
    assert(paths[3] == c_bytes(layout.datom_dir()));
    assert(paths[6] == c_bytes(layout.sym_file()));
    assert(rooted.files == store.files);
    assert(rooted.syms == store.syms);
    assert(log_on_disk(layout, envelopes, rooted));
    assert(paths_free(layout, rooted));
    law_opening_loads(layout, store, steps);
    law_log_on_disk_loads(layout, envelopes, rooted, (steps - 2) as nat);
}

/// The store once that log has been written.
pub open spec fn written(
    layout: TxLogLayout,
    envelopes: Seq<EnvelopeView>,
    store: StoreView,
    steps: nat,
) -> StoreView {
    run_rebuild(RebuildView::start(layout, envelopes), store, steps).1
}

/// Whether `later` has the disk of `store`, in the same process or in another,
/// finds the log on it, and has ids for all symbols that are on it. What it has in
/// memory may be anything.
pub open spec fn same_disk(layout: TxLogLayout, store: StoreView, later: StoreView) -> bool {
    &&& later.dirs == store.dirs
    &&& later.files == store.files
    &&& found_as_named(layout, later.place)
    &&& later.syms.len() + later.files[c_bytes(layout.sym_file())].len() <= i64::MAX
}

/// How the opening of a projection ends with that log.
pub open spec fn opened(layout: TxLogLayout, envelopes: Seq<EnvelopeView>) -> Result<
    OpeningView,
    ErrorView,
> {
    Ok(OpeningView::start(layout, true).at_point(OpeningPointView::Ready(envelopes)))
}

/// A log that was written is what the next load and the next opening read back,
/// in the same process or in a later one. A settled log comes back unchanged.
pub proof fn law_written_log_reads_back(
    layout: TxLogLayout,
    envelopes: Seq<EnvelopeView>,
    store: StoreView,
    steps: nat,
    later: StoreView,
    more_steps: nat,
)
    requires
        can_write(layout, envelopes, store, steps),
        same_disk(layout, written(layout, envelopes, store, steps), later),
        storable(envelopes, later.parse),
        more_steps >= 37 + all_datoms(envelopes).len(),
    ensures
        ({
            let loaded = run_load(LoadView::start(layout), later, more_steps).0;
            let reopened = run_opening(OpeningView::start(layout, true), later, more_steps).0;
            &&& loaded == load_outcome(layout, Ok(read_back(envelopes)))
            &&& reopened == opened(layout, read_back(envelopes))
            &&& settled(envelopes) ==> {
                &&& loaded == load_outcome(layout, Ok(envelopes))
                &&& reopened == opened(layout, envelopes)
            }
        }),
{
    law_rebuild_writes(layout, envelopes, store, steps);
    law_log_on_disk_loads(layout, envelopes, later, more_steps);
    law_log_on_disk_opens(layout, envelopes, later, more_steps);
    law_settled_log_reads_back_unchanged(envelopes);
}

/// A store that does what it is asked answers with what fits.
proof fn lemma_store_answers(store: StoreView, action: ActionView)
    ensures
        action.answered_by(store.reply(action)),
{
}

/// Whatever a log is loaded from, it is settled and its ids fit.
pub proof fn law_loaded_log_is_loadable(process: LoadView, store: StoreView, steps: nat)
    requires
        process.wf(),
    ensures
        run_load(process, store, steps).0 matches Ok(end) ==> end.wf(),
        run_load(process, store, steps).0 matches Ok(end) ==> (end.at matches
            LoadPointView::Done(envelopes) ==> loadable(envelopes)),
    decreases steps,
{
    if process.action() is Some && steps > 0 {
        let action = process.action()->Some_0;
        lemma_store_answers(store, action);
        law_loading_ends(process, store.reply(action));
        if let Ok(next) = process.advance(store.reply(action)) {
            law_loaded_log_is_loadable(next, store.after(action), (steps - 1) as nat);
        }
    }
}

/// Whatever a projection is opened from, its log is settled and its ids fit.
pub proof fn law_opened_log_is_loadable(process: OpeningView, store: StoreView, steps: nat)
    requires
        process.wf(),
    ensures
        run_opening(process, store, steps).0 matches Ok(end) ==> end.wf(),
        run_opening(process, store, steps).0 matches Ok(end) ==> (end.at matches
            OpeningPointView::Ready(envelopes) ==> loadable(envelopes)),
    decreases steps,
{
    if process.action() is Some && steps > 0 {
        let action = process.action()->Some_0;
        lemma_store_answers(store, action);
        law_opening_ends(process, store.reply(action));
        if let Ok(next) = process.advance(store.reply(action)) {
            law_opened_log_is_loadable(next, store.after(action), (steps - 1) as nat);
        }
    }
}

/// A projection that was opened and is written again, to this or another store,
/// gives the same log to the next load and the next opening; so too with
/// transactions that share an id.
pub proof fn law_opened_log_is_kept(
    layout: TxLogLayout,
    first: StoreView,
    first_steps: nat,
    envelopes: Seq<EnvelopeView>,
    store: StoreView,
    steps: nat,
    later: StoreView,
    more_steps: nat,
)
    requires
        run_opening(OpeningView::start(layout, true), first, first_steps).0 == opened(
            layout,
            envelopes,
        ),
        can_write(layout, envelopes, store, steps),
        same_disk(layout, written(layout, envelopes, store, steps), later),
        json_reads_back(envelopes, later.parse),
        more_steps >= 37 + all_datoms(envelopes).len(),
    ensures
        run_load(LoadView::start(layout), later, more_steps).0 == load_outcome(
            layout,
            Ok(envelopes),
        ),
        run_opening(OpeningView::start(layout, true), later, more_steps).0 == opened(
            layout,
            envelopes,
        ),
{
    law_opened_log_is_loadable(OpeningView::start(layout, true), first, first_steps);
    law_loadable_log_is_storable(envelopes, later.parse);
    law_written_log_reads_back(layout, envelopes, store, steps, later, more_steps);
}

/// A projection that was opened and is appended to gives the log that it had,
/// followed by the envelope, to the next load and the next opening: nothing is
/// lost and nothing reordered. The envelope has an id of its own that fits, has
/// only datoms with that id, and has no empty key.
pub proof fn law_append_extends_opened_log(
    layout: TxLogLayout,
    first: StoreView,
    first_steps: nat,
    envelopes: Seq<EnvelopeView>,
    envelope: EnvelopeView,
    store: StoreView,
    steps: nat,
    later: StoreView,
    more_steps: nat,
)
    requires
        run_opening(OpeningView::start(layout, true), first, first_steps).0 == opened(
            layout,
            envelopes,
        ),
        loadable(seq![envelope]),
        forall|i: int|
            0 <= i < envelopes.len() ==> (#[trigger] envelopes[i]).tx.tx_id != envelope.tx.tx_id,
        can_write(layout, envelopes.push(envelope), store, steps),
        same_disk(layout, written(layout, envelopes.push(envelope), store, steps), later),
        json_reads_back(envelopes, later.parse),
        json_reads_back(seq![envelope], later.parse),
        more_steps >= 37 + all_datoms(envelopes.push(envelope)).len(),
    ensures
        run_load(LoadView::start(layout), later, more_steps).0 == load_outcome(
            layout,
            Ok(envelopes.push(envelope)),
        ),
        run_opening(OpeningView::start(layout, true), later, more_steps).0 == opened(
            layout,
            envelopes.push(envelope),
        ),
{
    law_opened_log_is_loadable(OpeningView::start(layout, true), first, first_steps);
    law_loadable_log_is_storable(envelopes, later.parse);
    law_loadable_log_is_storable(seq![envelope], later.parse);
    law_append_keeps_log_storable(envelopes, envelope, later.parse);
    law_written_log_reads_back(
        layout,
        envelopes.push(envelope),
        store,
        steps,
        later,
        more_steps,
    );
}

/// Writing a log that has just been written changes no directory.
pub proof fn law_second_rebuild_changes_no_table(
    layout: TxLogLayout,
    envelopes: Seq<EnvelopeView>,
    store: StoreView,
    steps: nat,
    later: StoreView,
    more_steps: nat,
)
    requires
        can_write(layout, envelopes, store, steps),
        same_disk(layout, written(layout, envelopes, store, steps), later),
        can_write(layout, envelopes, later, more_steps),
    ensures
        written(layout, envelopes, later, more_steps).dirs == later.dirs,
{
    law_rebuild_writes(layout, envelopes, store, steps);
    law_rebuild_writes(layout, envelopes, later, more_steps);
    let once = written(layout, envelopes, store, steps);
    let twice = written(layout, envelopes, later, more_steps);
    let paths = log_paths(layout);
    assert forall|path: Seq<u8>| #[trigger] lies_in(twice.dirs, path) == lies_in(
        later.dirs,
        path,
    ) by {
        if paths.contains(path) {
            let k = paths.index_of(path);
            assert(paths[k] == path && 0 <= k < 7);
        } else {
            assert(same_at(path, later, twice));
        }
    }
    assert forall|path: Seq<u8>| #[trigger]
        twice.dirs.dom().contains(path) == later.dirs.dom().contains(path) by {
        assert(lies_in(twice.dirs, path) == lies_in(later.dirs, path));
    }
    assert forall|path: Seq<u8>| #[trigger]
        twice.dirs.dom().contains(path) implies twice.dirs[path] == later.dirs[path] by {
        assert(lies_in(twice.dirs, path) == lies_in(later.dirs, path));
    }
    assert(twice.dirs =~= later.dirs);
}

} // verus!
