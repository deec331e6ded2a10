//! Building a table and saving it, each run to its end.

use vstd::prelude::*;

use crate::builder::{BuildPoint, BuilderView};
use crate::error::ErrorView;
use crate::path::{c_bytes, c_safe};
use crate::protocol::{ActionView, ReplyView};
use crate::save::{SavePoint, SaveView};
use crate::store::{vector_cells, Place, StoreView};
use crate::table::{CellsView, ColumnView};

verus! {

/// Building run for at most `steps` steps.
pub open spec fn run_builder(process: BuilderView, store: StoreView, steps: nat) -> (
    Result<BuilderView, ErrorView>,
    StoreView,
)
    decreases steps,
{
    match process.action() {
        Some(action) if steps > 0 => match process.advance(store.reply(action)) {
            Err(err) => (Err(err), store.after(action)),
            Ok(next) => run_builder(next, store.after(action), (steps - 1) as nat),
        },
        _ => (Ok(process), store),
    }
}

/// An upper bound on the requests that the columns from `col` on take to build.
pub open spec fn column_steps(columns: Seq<ColumnView>, col: int) -> nat
    decreases columns.len() - col,
{
    if 0 <= col < columns.len() {
        2 * columns[col].cells.len() + 3 + column_steps(columns, col + 1)
    } else {
        0
    }
}

/// An upper bound on the requests that a table takes to build.
pub open spec fn table_steps(columns: Seq<ColumnView>) -> nat {
    1 + column_steps(columns, 0)
}

/// An upper bound on the requests that are left to build a table.
pub open spec fn builder_steps(process: BuilderView) -> int {
    let columns = process.table.columns;
    match process.at {
        BuildPoint::Table => table_steps(columns) as int,
        BuildPoint::Column { col } => column_steps(columns, col as int) as int,
        BuildPoint::Cell { col, row } => 2 * (columns[col as int].cells.len() - row) + 2
            + column_steps(columns, col + 1),
        BuildPoint::Symbol { col, row, .. } => 2 * (columns[col as int].cells.len() - row) + 1
            + column_steps(columns, col + 1),
        BuildPoint::Name { col } => 2int + column_steps(columns, col + 1),
        BuildPoint::Attach { col, .. } => 1int + column_steps(columns, col + 1),
        BuildPoint::Built => 0,
    }
}

/// Every answer that does not end the building brings its end closer, whatever
/// the store says.
pub proof fn law_building_ends(process: BuilderView, reply: ReplyView)
    requires
        process.wf(),
        process.action() matches Some(action) && action.answered_by(reply),
    ensures
        builder_steps(process) > 0,
        process.advance(reply) matches Ok(next) ==> next.wf() && 0 <= builder_steps(next)
            < builder_steps(process),
{
    let columns = process.table.columns;
    match process.at {
        BuildPoint::Table => {
            assert(column_steps(columns, 0) >= 0);
        },
        _ => {},
    }
}

/// Whether the store's vector holds the first `n` of the cells.
pub open spec fn vector_holds(store: StoreView, cells: CellsView, n: int) -> bool {
    let ids = store.vector.1;
    &&& store.vector.0 == cells.type_code()
    &&& ids.len() == n
    &&& forall|j: int|
        0 <= j < n ==> match cells {
            CellsView::I64(values) => #[trigger] ids[j] == values[j],
            CellsView::Sym(values) => 0 <= ids[j] < store.syms.len() && store.syms[ids[j] as int]
                == values[j],
        }
}

/// Whether `id` is the id of `text`.
pub open spec fn names(store: StoreView, id: i64, text: Seq<char>) -> bool {
    0 <= id < store.syms.len() && store.syms[id as int] == text
}

/// Whether the name of a column and all its symbol cells are among the symbols.
pub open spec fn column_known(column: ColumnView, syms: Seq<Seq<char>>) -> bool {
    &&& syms.contains(column.name)
    &&& column.cells matches CellsView::Sym(values) ==> forall|r: int|
        0 <= r < values.len() ==> syms.contains(#[trigger] values[r])
}

/// Whether the store's table is that of the first `n` columns, whose names and
/// cells are symbols.
pub open spec fn table_holds(store: StoreView, columns: Seq<ColumnView>, n: int) -> bool {
    &&& store.table == columns.take(n)
    &&& forall|c: int| 0 <= c < n ==> column_known(#[trigger] columns[c], store.syms)
}

/// Whether the store holds as much of the table as has been built.
pub open spec fn built_so_far(process: BuilderView, store: StoreView) -> bool {
    let columns = process.table.columns;
    match process.at {
        BuildPoint::Table => true,
        BuildPoint::Column { col } => table_holds(store, columns, col as int),
        BuildPoint::Cell { col, row } => table_holds(store, columns, col as int) && vector_holds(
            store,
            process.cells(col),
            row as int,
        ),
        BuildPoint::Symbol { col, row, id } => {
            &&& table_holds(store, columns, col as int)
            &&& vector_holds(store, process.cells(col), row as int)
            &&& process.cells(col) matches CellsView::Sym(values) && names(
                store,
                id,
                values[row as int],
            )
        },
        BuildPoint::Name { col } => table_holds(store, columns, col as int) && vector_holds(
            store,
            process.cells(col),
            process.cells(col).len() as int,
        ),
        BuildPoint::Attach { col, id } => {
            &&& table_holds(store, columns, col as int)
            &&& vector_holds(store, process.cells(col), process.cells(col).len() as int)
            &&& names(store, id, columns[col as int].name)
        },
        BuildPoint::Built => table_holds(store, columns, columns.len() as int),
    }
}

/// Whether nothing but the table, the vector and further symbols tells `later`
/// from `store`.
pub open spec fn only_builds(store: StoreView, later: StoreView) -> bool {
    &&& later.dirs == store.dirs
    &&& later.files == store.files
    &&& later.read == store.read
    &&& later.parse == store.parse
    &&& later.place == store.place
    &&& store.syms.len() <= later.syms.len()
    &&& forall|k: int| 0 <= k < store.syms.len() ==> #[trigger] later.syms[k] == store.syms[k]
}

/// Interning gives the symbol an id and keeps all others.
proof fn lemma_interned(store: StoreView, text: Seq<char>)
    requires
        store.syms.len() < i64::MAX,
    ensures
        names(store.interned(text), store.interned(text).sym_id(text), text),
        only_builds(store, store.interned(text)),
        store.interned(text).syms.len() <= store.syms.len() + 1,
        store.interned(text).table == store.table,
        store.interned(text).vector == store.vector,
{
    let later = store.interned(text);
    if !store.syms.contains(text) {
        assert(later.syms[store.syms.len() as int] == text);
    }
    assert(later.syms.contains(text));
    let k = later.syms.index_of(text);
    assert(0 <= k < later.syms.len() && later.syms[k] == text);
}

/// What is known stays known among more symbols.
pub(crate) proof fn lemma_column_stays_known(
    column: ColumnView,
    syms: Seq<Seq<char>>,
    more: Seq<Seq<char>>,
)
    requires
        column_known(column, syms),
        forall|k: int| 0 <= k < syms.len() ==> more.contains(#[trigger] syms[k]),
    ensures
        column_known(column, more),
{
    assert(more.contains(syms[syms.index_of(column.name)]));
    if let CellsView::Sym(values) = column.cells {
        assert forall|r: int| 0 <= r < values.len() implies more.contains(#[trigger] values[r]) by {
            assert(more.contains(syms[syms.index_of(values[r])]));
        }
    }
}

/// What is held stays held when symbols are added.
proof fn lemma_holds_later(
    store: StoreView,
    later: StoreView,
    columns: Seq<ColumnView>,
    n: int,
    cells: CellsView,
    m: int,
)
    requires
        only_builds(store, later),
        later.table == store.table,
        0 <= n <= columns.len(),
    ensures
        table_holds(store, columns, n) ==> table_holds(later, columns, n),
        later.vector == store.vector && vector_holds(store, cells, m) ==> vector_holds(
            later,
            cells,
            m,
        ),
{
    if table_holds(store, columns, n) {
        assert forall|k: int| 0 <= k < store.syms.len() implies later.syms.contains(
            #[trigger] store.syms[k],
        ) by {
            assert(later.syms[k] == store.syms[k]);
        }
        assert forall|c: int| 0 <= c < n implies column_known(
            #[trigger] columns[c],
            later.syms,
        ) by {
            lemma_column_stays_known(columns[c], store.syms, later.syms);
        }
    }
}

/// One step of building on a store that does what it is asked.
pub(crate) proof fn lemma_builder_step(process: BuilderView, store: StoreView)
    requires
        process.wf(),
        built_so_far(process, store),
        process.action() is Some,
        store.syms.len() + builder_steps(process) <= i64::MAX,
    ensures
        ({
            let action = process.action()->Some_0;
            let later = store.after(action);
            &&& only_builds(store, later)
            &&& process.advance(store.reply(action)) matches Ok(next) && {
                &&& next.wf()
                &&& next.table == process.table
                &&& built_so_far(next, later)
                &&& 0 <= builder_steps(next) < builder_steps(process)
                &&& later.syms.len() + builder_steps(next) <= i64::MAX
            }
        }),
{
    let action = process.action()->Some_0;
    let later = store.after(action);
    let columns = process.table.columns;
    law_building_ends(process, store.reply(action));
    match process.at {
        BuildPoint::Table => {
            assert(columns.take(0) == Seq::<ColumnView>::empty());
        },
        BuildPoint::Column { col } => {
            lemma_holds_later(store, later, columns, col as int, process.cells(col), 0);
        },
        BuildPoint::Cell { col, row } => {
            match process.cells(col) {
                CellsView::I64(values) => {
                    lemma_holds_later(store, later, columns, col as int, process.cells(col), 0);
                },
                CellsView::Sym(values) => {
                    lemma_interned(store, values[row as int]);
                    lemma_holds_later(
                        store,
                        later,
                        columns,
                        col as int,
                        process.cells(col),
                        row as int,
                    );
                },
            }
        },
        BuildPoint::Symbol { col, row, id } => {
            lemma_holds_later(store, later, columns, col as int, process.cells(col), 0);
        },
        BuildPoint::Name { col } => {
            lemma_interned(store, columns[col as int].name);
            lemma_holds_later(
                store,
                later,
                columns,
                col as int,
                process.cells(col),
                process.cells(col).len() as int,
            );
        },
        BuildPoint::Attach { col, id } => {
            let cells = process.cells(col);
            match cells {
                CellsView::I64(values) => {
                    assert(store.vector.1 =~= values);
                },
                CellsView::Sym(values) => {
                    assert(store.vector.1.map_values(|id: i64| store.syms[id as int]) =~= values);
                },
            }
            assert(vector_cells(store.vector, store.syms) == cells);
            assert(columns.take(col + 1) == columns.take(col as int).push(columns[col as int]));
            assert(store.syms[id as int] == columns[col as int].name);
            if let CellsView::Sym(values) = cells {
                assert forall|r: int| 0 <= r < values.len() implies store.syms.contains(
                    #[trigger] values[r],
                ) by {
                    assert(store.syms[store.vector.1[r] as int] == values[r]);
                }
            }
            assert(column_known(columns[col as int], store.syms));
            assert(columns.take(columns.len() as int) == columns);
        },
        BuildPoint::Built => {},
    }
}

/// Building a table on a store that does what it is asked ends with that table
/// in the store.
pub proof fn law_building_builds(process: BuilderView, store: StoreView, steps: nat)
    requires
        process.wf(),
        built_so_far(process, store),
        steps >= builder_steps(process),
        store.syms.len() + builder_steps(process) <= i64::MAX,
    ensures
        ({
            let (end, later) = run_builder(process, store, steps);
            &&& end == Ok::<BuilderView, ErrorView>(
                BuilderView { at: BuildPoint::Built, ..process },
            )
            &&& only_builds(store, later)
            &&& later.syms.len() - store.syms.len() <= builder_steps(process)
            &&& later.table == process.table.columns
            &&& forall|c: int|
                0 <= c < process.table.columns.len() ==> column_known(
                    #[trigger] process.table.columns[c],
                    later.syms,
                )
        }),
    decreases steps,
{
    match process.action() {
        None => {
            assert(process.table.columns.take(process.table.columns.len() as int)
                == process.table.columns);
        },
        Some(action) => {
            lemma_builder_step(process, store);
            let later = store.after(action);
            let next = process.advance(store.reply(action))->Ok_0;
            law_building_builds(next, later, (steps - 1) as nat);
        },
    }
}

/// Saving run for at most `steps` steps.
pub open spec fn run_save(process: SaveView, store: StoreView, steps: nat) -> (
    Result<SaveView, ErrorView>,
    StoreView,
)
    decreases steps,
{
    match process.action() {
        Some(action) if steps > 0 => match process.advance(store.reply(action)) {
            Err(err) => (Err(err), store.after(action)),
            Ok(next) => run_save(next, store.after(action), (steps - 1) as nat),
        },
        _ => (Ok(process), store),
    }
}

/// An upper bound on the requests that are left to save a table.
pub open spec fn save_steps(process: SaveView) -> nat {
    match process.at {
        SavePoint::CheckNew => 11,
        SavePoint::RemoveNew => 10,
        SavePoint::CreateNew => 9,
        SavePoint::Splay => 8,
        SavePoint::CheckLive => 7,
        SavePoint::CheckOld => 6,
        SavePoint::RemoveOld => 5,
        SavePoint::Retire => 4,
        SavePoint::Promote => 3,
        SavePoint::CheckLeftover => 2,
        SavePoint::RemoveLeftover => 1,
        SavePoint::Saved => 0,
    }
}

/// Every answer that does not end the saving brings its end closer, whatever
/// the file system and the store say.
pub proof fn law_saving_ends(process: SaveView, reply: ReplyView)
    requires
        process.action() matches Some(action) && action.answered_by(reply),
    ensures
        process.advance(reply) matches Ok(next) ==> save_steps(next) < save_steps(process),
{
}

/// Whether the three directories of a save are three.
pub open spec fn dirs_apart(process: SaveView) -> bool {
    &&& c_bytes(process.dir) != c_bytes(process.new_dir)
    &&& c_bytes(process.dir) != c_bytes(process.old_dir)
    &&& c_bytes(process.new_dir) != c_bytes(process.old_dir)
}

/// Whether the paths of a save that the store is handed are free of NUL bytes.
pub open spec fn nameable(process: SaveView) -> bool {
    c_safe(process.new_dir) && c_safe(process.sym_path)
}

/// Whether the file system finds the three directories of a save where C finds
/// them by their texts.
pub open spec fn placed(process: SaveView, place: Place) -> bool {
    &&& place(process.dir) == c_bytes(process.dir)
    &&& place(process.new_dir) == c_bytes(process.new_dir)
    &&& place(process.old_dir) == c_bytes(process.old_dir)
}

/// Whether none of the three directories of a save is a file.
pub open spec fn no_files_there(process: SaveView, store: StoreView) -> bool {
    &&& !store.files.contains_key(c_bytes(process.dir))
    &&& !store.files.contains_key(c_bytes(process.new_dir))
    &&& !store.files.contains_key(c_bytes(process.old_dir))
}

/// The store once its table has replaced what lay in the live directory.
pub open spec fn saved_to(store: StoreView, process: SaveView) -> StoreView {
    StoreView {
        dirs: store.dirs.remove(c_bytes(process.new_dir)).remove(c_bytes(process.old_dir)).insert(
            c_bytes(process.dir),
            Some(store.table),
        ),
        ..store
    }
}

/// One step of a run of saving.
proof fn lemma_save_runs(process: SaveView, store: StoreView, steps: nat, at: SavePoint)
    requires
        steps > 0,
        process.action() is Some,
        process.advance(store.reply(process.action()->Some_0)) == Ok::<SaveView, ErrorView>(
            process.at_point(at),
        ),
    ensures
        run_save(process, store, steps) == run_save(
            process.at_point(at),
            store.after(process.action()->Some_0),
            (steps - 1) as nat,
        ),
{
}

/// The first half of saving: the table is written beside the live directory.
proof fn lemma_save_writes(process: SaveView, store: StoreView, steps: nat) -> (left: nat)
    requires
        process.at == SavePoint::CheckNew,
        nameable(process),
        placed(process, store.place),
        no_files_there(process, store),
        steps >= 4,
    ensures
        left >= steps - 4,
        run_save(process, store, steps) == run_save(
            process.at_point(SavePoint::CheckLive),
            StoreView {
                dirs: store.dirs.insert(c_bytes(process.new_dir), Some(store.table)),
                ..store
            },
            left,
        ),
{
    let fresh = c_bytes(process.new_dir);
    let create = process.at_point(SavePoint::CreateNew);
    let splay = process.at_point(SavePoint::Splay);
    let (s1, n) = if store.dirs.contains_key(fresh) {
        lemma_save_runs(process, store, steps, SavePoint::RemoveNew);
        let remove = process.at_point(SavePoint::RemoveNew);
        lemma_save_runs(remove, store, (steps - 1) as nat, SavePoint::CreateNew);
        (store.after(ActionView::RemoveDirAll(process.new_dir)), (steps - 2) as nat)
    } else {
        lemma_save_runs(process, store, steps, SavePoint::CreateNew);
        (store, (steps - 1) as nat)
    };
    let s2 = s1.after(ActionView::CreateDirAll(process.new_dir));
    lemma_save_runs(create, s1, n, SavePoint::Splay);
    let s3 = s2.after(ActionView::SplaySave { dir: fresh, sym: c_bytes(process.sym_path) });
    lemma_save_runs(splay, s2, (n - 1) as nat, SavePoint::CheckLive);
    assert(s3.dirs =~= store.dirs.insert(fresh, Some(store.table)));
    (n - 2) as nat
}

/// The second half of saving: the new directory takes the live one's place.
proof fn lemma_save_replaces(process: SaveView, store: StoreView, steps: nat)
    requires
        process.at == SavePoint::CheckLive,
        dirs_apart(process),
        placed(process, store.place),
        no_files_there(process, store),
        store.dirs.contains_key(c_bytes(process.new_dir)),
        store.dirs[c_bytes(process.new_dir)] == Some(store.table),
        steps >= 7,
    ensures
        run_save(process, store, steps) == (
            Ok::<SaveView, ErrorView>(process.at_point(SavePoint::Saved)),
            saved_to(store, process),
        ),
{
    let live = c_bytes(process.dir);
    let old = c_bytes(process.old_dir);
    let (s1, n) = if store.dirs.contains_key(live) {
        lemma_save_runs(process, store, steps, SavePoint::CheckOld);
        let check = process.at_point(SavePoint::CheckOld);
        let (cleared, m) = if store.dirs.contains_key(old) {
            lemma_save_runs(check, store, (steps - 1) as nat, SavePoint::RemoveOld);
            let remove = process.at_point(SavePoint::RemoveOld);
            lemma_save_runs(remove, store, (steps - 2) as nat, SavePoint::Retire);
            (store.after(ActionView::RemoveDirAll(process.old_dir)), (steps - 3) as nat)
        } else {
            lemma_save_runs(check, store, (steps - 1) as nat, SavePoint::Retire);
            (store, (steps - 2) as nat)
        };
        lemma_save_runs(process.at_point(SavePoint::Retire), cleared, m, SavePoint::Promote);
        (
            cleared.after(ActionView::Rename { from: process.dir, to: process.old_dir }),
            (m - 1) as nat,
        )
    } else {
        lemma_save_runs(process, store, steps, SavePoint::Promote);
        (store, (steps - 1) as nat)
    };
    lemma_save_runs(process.at_point(SavePoint::Promote), s1, n, SavePoint::CheckLeftover);
    let s2 = s1.after(ActionView::Rename { from: process.new_dir, to: process.dir });
    let check = process.at_point(SavePoint::CheckLeftover);
    if s2.dirs.contains_key(old) {
        lemma_save_runs(check, s2, (n - 1) as nat, SavePoint::RemoveLeftover);
        let remove = process.at_point(SavePoint::RemoveLeftover);
        lemma_save_runs(remove, s2, (n - 2) as nat, SavePoint::Saved);
        let s3 = s2.after(ActionView::RemoveDirAll(process.old_dir));
        assert(s3.dirs =~= saved_to(store, process).dirs);
    } else {
        lemma_save_runs(check, s2, (n - 1) as nat, SavePoint::Saved);
        assert(s2.dirs =~= saved_to(store, process).dirs);
    }
}

/// Saving on a store that does what it is asked puts the table into the live
/// directory, in place of what was there, and leaves neither a new nor an old
/// directory behind.
pub proof fn law_saving_saves(process: SaveView, store: StoreView, steps: nat)
    requires
        process.at == SavePoint::CheckNew,
        dirs_apart(process),
        nameable(process),
        placed(process, store.place),
        no_files_there(process, store),
        steps >= save_steps(process),
    ensures
        run_save(process, store, steps) == (
            Ok::<SaveView, ErrorView>(process.at_point(SavePoint::Saved)),
            saved_to(store, process),
        ),
{
    let left = lemma_save_writes(process, store, steps);
    let written = StoreView {
        dirs: store.dirs.insert(c_bytes(process.new_dir), Some(store.table)),
        ..store
    };
    lemma_save_replaces(process.at_point(SavePoint::CheckLive), written, left);
    assert(saved_to(written, process).dirs =~= saved_to(store, process).dirs);
}

} // verus!
