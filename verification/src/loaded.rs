//! Loading a log, run to its end.

use vstd::prelude::*;

use crate::decode::{datom_of_row, value_text_of_row, DatomRowView};
use crate::error::ErrorView;
use crate::laws::{
    column_named, datom_rows, datoms_of_rows, decoded, parsed_of_row, tx_rows, ValueParser,
};
use crate::layout::{found_as_named, log_path_bufs, TxLogLayout};
use crate::load::{LoadPointView, LoadView};
use crate::log::{DatomView, EnvelopeView};
use crate::path::{c_bytes, c_safe};
use crate::protocol::{ActionView, ReplyView, TableKind};
use crate::reader::{columns_read, LookupView, OpenPoint, ReaderView};
use crate::run::only_builds;
use crate::store::StoreView;
use crate::table::ColumnView;

verus! {

/// Loading run for at most `steps` steps.
pub open spec fn run_load(process: LoadView, store: StoreView, steps: nat) -> (
    Result<LoadView, ErrorView>,
    StoreView,
)
    decreases steps,
{
    match process.action() {
        Some(action) if steps > 0 => match process.advance(store.reply(action)) {
            Err(err) => (Err(err), store.after(action)),
            Ok(next) => run_load(next, store.after(action), (steps - 1) as nat),
        },
        _ => (Ok(process), store),
    }
}

/// How a load ends for a log with that content.
pub open spec fn load_outcome(
    layout: TxLogLayout,
    content: Result<Seq<EnvelopeView>, ErrorView>,
) -> Result<LoadView, ErrorView> {
    match content {
        Err(err) => Err(err),
        Ok(envelopes) => Ok(LoadView { layout, at: LoadPointView::Done(envelopes) }),
    }
}

/// A failure among the first rows is the failure of all.
proof fn lemma_first_failure_stands(rows: Seq<DatomRowView>, n: int, parse: ValueParser)
    requires
        0 <= n <= rows.len(),
        datoms_of_rows(rows.take(n), parse) is Err,
    ensures
        datoms_of_rows(rows, parse) == datoms_of_rows(rows.take(n), parse),
    decreases rows.len(),
{
    if n == rows.len() {
        assert(rows.take(n) == rows);
    } else {
        assert(rows.drop_last().take(n) == rows.take(n));
        lemma_first_failure_stands(rows.drop_last(), n, parse);
    }
}

/// Once the datoms are decoded, loading reads the rows of `tx` and is at its end.
proof fn lemma_tx_decoded(
    layout: TxLogLayout,
    rows: Seq<DatomRowView>,
    datoms: Seq<DatomView>,
    store: StoreView,
    steps: nat,
)
    requires
        datoms_of_rows(rows, store.parse) == Ok::<Seq<DatomView>, ErrorView>(datoms),
        steps >= 1,
    ensures
        run_load(LoadView { layout, at: LoadPointView::TxRows(datoms) }, store, steps).0
            == load_outcome(
            layout,
            decoded(tx_rows(store.read[TableKind::Tx]), rows, store.parse),
        ),
{
    let process = LoadView { layout, at: LoadPointView::TxRows(datoms) };
    let tx = tx_rows(store.read[TableKind::Tx]);
    assert(process.advance(store.reply(ActionView::ReadTxRows)) == process.at_end(tx, datoms));
    reveal_with_fuel(run_load, 2);
}

/// From datom row `next` on, loading decodes what is left.
proof fn lemma_rows_decoded(
    layout: TxLogLayout,
    rows: Seq<DatomRowView>,
    next: int,
    datoms: Seq<DatomView>,
    store: StoreView,
    steps: nat,
)
    requires
        0 <= next <= rows.len(),
        datoms_of_rows(rows.take(next), store.parse) == Ok::<Seq<DatomView>, ErrorView>(datoms),
        steps >= rows.len() - next + 1,
    ensures
        ({
            let content = decoded(tx_rows(store.read[TableKind::Tx]), rows, store.parse);
            match LoadView::start(layout).at_row(rows, next, datoms) {
                Err(err) => content == Err::<Seq<EnvelopeView>, ErrorView>(err),
                Ok(process) => run_load(process, store, steps).0 == load_outcome(layout, content),
            }
        }),
    decreases rows.len() - next,
{
    let parse = store.parse;
    if next == rows.len() {
        assert(rows.take(next) == rows);
        lemma_tx_decoded(layout, rows, datoms, store, steps);
    } else {
        let row = rows[next];
        let more = rows.take(next + 1);
        assert(more.drop_last() == rows.take(next));
        assert(more.last() == row);
        match value_text_of_row(row) {
            Err(err) => {
                lemma_first_failure_stands(rows, next + 1, parse);
            },
            Ok(json) => {
                let parsed = parse(json);
                assert(parsed == parsed_of_row(row, parse));
                match datom_of_row(row, parsed) {
                    Err(err) => {
                        lemma_first_failure_stands(rows, next + 1, parse);
                    },
                    Ok(datom) => {
                        lemma_rows_decoded(
                            layout,
                            rows,
                            next + 1,
                            datoms.push(datom),
                            store,
                            (steps - 1) as nat,
                        );
                    },
                }
            },
        }
    }
}

/// Whether every column that is read of the table is there, under a name that is
/// known.
pub open spec fn columns_found(
    kind: TableKind,
    columns: Seq<ColumnView>,
    syms: Seq<Seq<char>>,
) -> bool {
    forall|c: int|
        0 <= c < columns_read(kind).len() ==> {
            &&& syms.contains(#[trigger] columns_read(kind)[c])
            &&& column_named(columns, columns_read(kind)[c]) is Some
        }
}

/// Loading finds the columns of a table that has them, and goes on from there.
proof fn lemma_finds_columns(
    wrap: spec_fn(LookupView) -> LoadView,
    kind: TableKind,
    col: int,
    store: StoreView,
    steps: nat,
) -> (left: nat)
    requires
        forall|l: LookupView| l.pending() ==> (#[trigger] wrap(l)).action() == l.action(),
        forall|l: LookupView, reply: ReplyView|
            l.pending() ==> (#[trigger] wrap(l).advance(reply)) == match l.advance(reply) {
                Err(err) => Err::<LoadView, ErrorView>(err),
                Ok(next) => Ok(wrap(next)),
            },
        0 <= col <= columns_read(kind).len(),
        store.read.contains_key(kind),
        columns_found(kind, store.read[kind], store.syms),
        store.syms.len() <= i64::MAX,
        steps >= 2 * (columns_read(kind).len() - col),
    ensures
        left >= steps - 2 * (columns_read(kind).len() - col),
        run_load(wrap(LookupView { kind, col, name_id: None }), store, steps) == run_load(
            wrap(LookupView { kind, col: columns_read(kind).len() as int, name_id: None }),
            store,
            left,
        ),
    decreases columns_read(kind).len() - col,
{
    if col == columns_read(kind).len() {
        steps
    } else {
        let name = columns_read(kind)[col];
        let here = LookupView { kind, col, name_id: None };
        let id = store.sym_id(name);
        assert(store.syms.contains(name));
        assert(0 <= id < store.syms.len() && store.syms[id as int] == name) by {
            let k = store.syms.index_of(name);
            assert(0 <= k < store.syms.len() && store.syms[k] == name);
        }
        let named = LookupView { kind, col, name_id: Some(id) };
        let next = LookupView { kind, col: col + 1, name_id: None };
        let find = ActionView::SymFind(name);
        let get = ActionView::GetColumn { table: kind, name_id: id };
        assert(here.action() == Some(find));
        assert(wrap(here).advance(store.reply(find)) == Ok::<LoadView, ErrorView>(wrap(named)));
        assert(run_load(wrap(here), store, steps) == run_load(
            wrap(named),
            store,
            (steps - 1) as nat,
        ));
        assert(wrap(named).action() == Some(get));
        assert(wrap(named).advance(store.reply(get)) == Ok::<LoadView, ErrorView>(wrap(next)));
        assert(run_load(wrap(named), store, (steps - 1) as nat) == run_load(
            wrap(next),
            store,
            (steps - 2) as nat,
        ));
        lemma_finds_columns(wrap, kind, col + 1, store, (steps - 2) as nat)
    }
}

/// Interning many symbols makes all of them known and keeps the others.
pub(crate) proof fn lemma_interned_all(store: StoreView, texts: Seq<Seq<char>>)
    ensures
        only_builds(store, store.interned_all(texts)),
        store.interned_all(texts).syms.len() <= store.syms.len() + texts.len(),
        forall|k: int|
            0 <= k < texts.len() ==> store.interned_all(texts).syms.contains(#[trigger] texts[k]),
    decreases texts.len(),
{
    if texts.len() > 0 {
        let rest = texts.drop_last();
        lemma_interned_all(store, rest);
        let before = store.interned_all(rest);
        let after = store.interned_all(texts);
        let text = texts.last();
        if !before.syms.contains(text) {
            assert(after.syms[before.syms.len() as int] == text);
        }
        assert forall|k: int| 0 <= k < texts.len() implies after.syms.contains(
            #[trigger] texts[k],
        ) by {
            if k < rest.len() {
                assert(rest[k] == texts[k]);
                let j = before.syms.index_of(texts[k]);
                assert(after.syms[j] == texts[k]);
            }
        }
    }
}

/// The store once its symbols have been loaded from that file, if it is there.
pub open spec fn with_symbols(store: StoreView, sym: Seq<u8>) -> StoreView {
    if store.files.contains_key(sym) {
        store.interned_all(store.files[sym])
    } else {
        store
    }
}

/// The store once it has opened a table.
pub open spec fn with_table(
    store: StoreView,
    kind: TableKind,
    dir: Seq<u8>,
    sym: Seq<u8>,
) -> StoreView {
    let known = with_symbols(store, sym);
    StoreView { read: known.read.insert(kind, known.dirs[dir]->Some_0), ..known }
}

/// Loading opens a table that is there, and goes on from there.
proof fn lemma_opens(
    wrap: spec_fn(ReaderView) -> LoadView,
    reader: ReaderView,
    store: StoreView,
    steps: nat,
) -> (left: nat)
    requires
        forall|r: ReaderView| r.action() is Some ==> (#[trigger] wrap(r)).action() == r.action(),
        forall|r: ReaderView, reply: ReplyView|
            r.action() is Some ==> (#[trigger] wrap(r).advance(reply)) == match r.advance(reply) {
                Err(err) => Err::<LoadView, ErrorView>(err),
                Ok(next) => Ok(wrap(next)),
            },
        reader.at == OpenPoint::CheckDir,
        c_safe(reader.dir),
        c_safe(reader.sym_path),
        (store.place)(reader.dir) == c_bytes(reader.dir),
        (store.place)(reader.sym_path) == c_bytes(reader.sym_path),
        store.dirs.contains_key(c_bytes(reader.dir)),
        store.dirs[c_bytes(reader.dir)] is Some,
        !store.dirs.contains_key(c_bytes(reader.sym_path)),
        steps >= 4,
    ensures
        left >= steps - 4,
        run_load(wrap(reader), store, steps) == run_load(
            wrap(reader.at_point(OpenPoint::Opened)),
            with_table(store, reader.kind, c_bytes(reader.dir), c_bytes(reader.sym_path)),
            left,
        ),
{
    let dir = c_bytes(reader.dir);
    let sym = c_bytes(reader.sym_path);
    let known = with_symbols(store, sym);
    if store.files.contains_key(sym) {
        lemma_interned_all(store, store.files[sym]);
    }
    let check_sym = reader.at_point(OpenPoint::CheckSym);
    let load_sym = reader.at_point(OpenPoint::LoadSym);
    let read = reader.at_point(OpenPoint::Read);
    let opened = reader.at_point(OpenPoint::Opened);
    let a1 = ActionView::PathExists(reader.dir);
    let a2 = ActionView::PathExists(reader.sym_path);
    let a3 = ActionView::SymLoad(sym);
    let a4 = ActionView::ReadSplayed { table: reader.kind, dir, sym };
    assert(wrap(reader).advance(store.reply(a1)) == Ok::<LoadView, ErrorView>(wrap(check_sym)));
    assert(run_load(wrap(reader), store, steps) == run_load(
        wrap(check_sym),
        store,
        (steps - 1) as nat,
    ));
    let n = if store.files.contains_key(sym) {
        assert(wrap(check_sym).advance(store.reply(a2)) == Ok::<LoadView, ErrorView>(
            wrap(load_sym),
        ));
        assert(run_load(wrap(check_sym), store, (steps - 1) as nat) == run_load(
            wrap(load_sym),
            store,
            (steps - 2) as nat,
        ));
        assert(wrap(load_sym).advance(store.reply(a3)) == Ok::<LoadView, ErrorView>(wrap(read)));
        assert(run_load(wrap(load_sym), store, (steps - 2) as nat) == run_load(
            wrap(read),
            known,
            (steps - 3) as nat,
        ));
        (steps - 3) as nat
    } else {
        assert(wrap(check_sym).advance(store.reply(a2)) == Ok::<LoadView, ErrorView>(wrap(read)));
        (steps - 2) as nat
    };
    assert(wrap(read).advance(known.reply(a4)) == Ok::<LoadView, ErrorView>(wrap(opened)));
    assert(known.after(a4) == with_table(store, reader.kind, dir, sym));
    assert(run_load(wrap(read), known, n) == run_load(
        wrap(opened),
        known.after(a4),
        (n - 1) as nat,
    ));
    (n - 1) as nat
}

/// Interning symbols that are known changes nothing.
proof fn lemma_interned_known(store: StoreView, texts: Seq<Seq<char>>)
    requires
        forall|k: int| 0 <= k < texts.len() ==> store.syms.contains(#[trigger] texts[k]),
    ensures
        store.interned_all(texts) == store,
    decreases texts.len(),
{
    if texts.len() > 0 {
        let rest = texts.drop_last();
        assert forall|k: int| 0 <= k < rest.len() implies store.syms.contains(
            #[trigger] rest[k],
        ) by {
            assert(rest[k] == texts[k]);
        }
        lemma_interned_known(store, rest);
        assert(store.syms.contains(texts[texts.len() - 1]));
    }
}

/// The columns of a table on disk.
pub open spec fn table_on_disk(store: StoreView, dir: Seq<u8>) -> Seq<ColumnView> {
    store.dirs[dir]->Some_0
}

/// The rows of the `datom` table on disk; none where there is no such table.
pub open spec fn datom_rows_on_disk(layout: TxLogLayout, store: StoreView) -> Seq<DatomRowView> {
    if store.dirs.contains_key(c_bytes(layout.datom_dir())) {
        datom_rows(table_on_disk(store, c_bytes(layout.datom_dir())))
    } else {
        Seq::empty()
    }
}

/// What the tables on disk hold.
pub open spec fn log_content(layout: TxLogLayout, store: StoreView) -> Result<
    Seq<EnvelopeView>,
    ErrorView,
> {
    decoded(
        tx_rows(table_on_disk(store, c_bytes(layout.tx_dir()))),
        datom_rows_on_disk(layout, store),
        store.parse,
    )
}

/// Whether a directory holds a table of which every column that is read is
/// there.
pub open spec fn readable(
    kind: TableKind,
    dir: Seq<u8>,
    sym: Seq<u8>,
    store: StoreView,
) -> bool {
    &&& store.dirs.contains_key(dir)
    &&& store.dirs[dir] is Some
    &&& columns_found(kind, table_on_disk(store, dir), with_symbols(store, sym).syms)
}

/// Whether the store holds a log that can be read: a `tx` table, and a `datom`
/// table or nothing in its place.
pub open spec fn holds_log(layout: TxLogLayout, store: StoreView) -> bool {
    let tx = c_bytes(layout.tx_dir());
    let datoms = c_bytes(layout.datom_dir());
    let sym = c_bytes(layout.sym_file());
    &&& c_safe(layout.tx_dir())
    &&& c_safe(layout.datom_dir())
    &&& c_safe(layout.sym_file())
    &&& found_as_named(layout, store.place)
    &&& !store.dirs.contains_key(sym)
    &&& readable(TableKind::Tx, tx, sym, store)
    &&& !store.exists_at(layout.datom_dir()) || readable(TableKind::Datom, datoms, sym, store)
    &&& with_symbols(store, sym).syms.len() <= i64::MAX
}

/// An upper bound on the requests that loading a log takes.
pub open spec fn load_steps(layout: TxLogLayout, store: StoreView) -> nat {
    35 + datom_rows_on_disk(layout, store).len()
}

/// Whether the tables of the log are open in `opened`.
spec fn tables_open(layout: TxLogLayout, store: StoreView, opened: StoreView) -> bool {
    let tx = c_bytes(layout.tx_dir());
    let datoms = c_bytes(layout.datom_dir());
    let sym = c_bytes(layout.sym_file());
    &&& opened.syms == with_symbols(store, sym).syms
    &&& opened.parse == store.parse
    &&& opened.read.contains_key(TableKind::Tx)
    &&& opened.read[TableKind::Tx] == table_on_disk(store, tx)
    &&& store.dirs.contains_key(datoms) ==> {
        &&& opened.read.contains_key(TableKind::Datom)
        &&& opened.read[TableKind::Datom] == table_on_disk(store, datoms)
    }
}

/// The point at which the tables that exist are open.
spec fn at_columns(layout: TxLogLayout, with_datoms: bool) -> LoadView {
    LoadView {
        layout,
        at: LoadPointView::TxColumns { lookup: LookupView::start(TableKind::Tx), with_datoms },
    }
}

/// Loading opens the `tx` table.
proof fn lemma_opens_tx(layout: TxLogLayout, store: StoreView, steps: nat) -> (left: nat)
    requires
        holds_log(layout, store),
        steps >= 5,
    ensures
        left >= steps - 5,
        run_load(LoadView::start(layout), store, steps) == run_load(
            LoadView {
                layout,
                at: LoadPointView::OpenDatom(
                    ReaderView::start(TableKind::Datom, layout.datom_dir(), layout.sym_file()),
                ),
            },
            with_table(
                store,
                TableKind::Tx,
                c_bytes(layout.tx_dir()),
                c_bytes(layout.sym_file()),
            ),
            left,
        ),
{
    let start = LoadView::start(layout);
    let reader = ReaderView::start(TableKind::Tx, layout.tx_dir(), layout.sym_file());
    assert(log_path_bufs(layout)[0] == reader.dir && log_path_bufs(layout)[6] == reader.sym_path);
    let n = (steps - 1) as nat;
    assert(run_load(start, store, steps) == run_load(start.at_tx(reader), store, n));
    lemma_opens(|r: ReaderView| start.at_tx(r), reader, store, n)
}

/// Loading opens the tables that exist.
proof fn lemma_opens_tables(layout: TxLogLayout, store: StoreView, steps: nat) -> (half: (
    StoreView,
    nat,
))
    requires
        holds_log(layout, store),
        steps >= 9,
    ensures
        tables_open(layout, store, half.0),
        half.1 >= steps - 9,
        run_load(LoadView::start(layout), store, steps) == run_load(
            at_columns(layout, store.dirs.contains_key(c_bytes(layout.datom_dir()))),
            half.0,
            half.1,
        ),
{
    let start = LoadView::start(layout);
    let tx = c_bytes(layout.tx_dir());
    let datoms = c_bytes(layout.datom_dir());
    let sym = c_bytes(layout.sym_file());
    let n = lemma_opens_tx(layout, store, steps);
    let with_tx = with_table(store, TableKind::Tx, tx, sym);
    if store.files.contains_key(sym) {
        lemma_interned_all(store, store.files[sym]);
        lemma_interned_known(with_tx, store.files[sym]);
    }
    assert(with_symbols(with_tx, sym) == with_tx);
    let reader = ReaderView::start(TableKind::Datom, layout.datom_dir(), layout.sym_file());
    assert(log_path_bufs(layout)[3] == reader.dir && log_path_bufs(layout)[6] == reader.sym_path);
    if store.dirs.contains_key(datoms) {
        let left = lemma_opens(|r: ReaderView| start.at_datom(r), reader, with_tx, n);
        (with_table(with_tx, TableKind::Datom, datoms, sym), left)
    } else {
        (with_tx, (n - 1) as nat)
    }
}

/// Loading finds the columns of the `tx` table that is open.
proof fn lemma_finds_tx(
    layout: TxLogLayout,
    with_datoms: bool,
    opened: StoreView,
    steps: nat,
) -> (left: nat)
    requires
        opened.read.contains_key(TableKind::Tx),
        columns_found(TableKind::Tx, opened.read[TableKind::Tx], opened.syms),
        opened.syms.len() <= i64::MAX,
        steps >= 14,
    ensures
        left >= steps - 14,
        run_load(at_columns(layout, with_datoms), opened, steps) == run_load(
            LoadView {
                layout,
                at: if with_datoms {
                    LoadPointView::DatomColumns(LookupView::start(TableKind::Datom))
                } else {
                    LoadPointView::TxRows(Seq::empty())
                },
            },
            opened,
            left,
        ),
{
    let start = LoadView::start(layout);
    let wrap = |l: LookupView| start.at_tx_columns(l, with_datoms);
    let left = lemma_finds_columns(wrap, TableKind::Tx, 0, opened, steps);
    assert(wrap(LookupView::start(TableKind::Tx)) == at_columns(layout, with_datoms));
    left
}

/// Loading finds the columns of the `datom` table that is open.
proof fn lemma_finds_datoms(layout: TxLogLayout, opened: StoreView, steps: nat) -> (left: nat)
    requires
        opened.read.contains_key(TableKind::Datom),
        columns_found(TableKind::Datom, opened.read[TableKind::Datom], opened.syms),
        opened.syms.len() <= i64::MAX,
        steps >= 10,
    ensures
        left >= steps - 10,
        run_load(
            LoadView {
                layout,
                at: LoadPointView::DatomColumns(LookupView::start(TableKind::Datom)),
            },
            opened,
            steps,
        ) == run_load(
            LoadView { layout, at: LoadPointView::DatomRows },
            opened,
            left,
        ),
{
    let start = LoadView::start(layout);
    let wrap = |l: LookupView| start.at_datom_columns(l);
    lemma_finds_columns(wrap, TableKind::Datom, 0, opened, steps)
}

/// Loading finds the columns of the tables that are open.
proof fn lemma_finds_all(
    layout: TxLogLayout,
    store: StoreView,
    opened: StoreView,
    steps: nat,
) -> (left: nat)
    requires
        holds_log(layout, store),
        tables_open(layout, store, opened),
        steps >= 24,
    ensures
        left >= steps - 24,
        ({
            let with_datoms = store.dirs.contains_key(c_bytes(layout.datom_dir()));
            run_load(at_columns(layout, with_datoms), opened, steps) == run_load(
                LoadView {
                    layout,
                    at: if with_datoms {
                        LoadPointView::DatomRows
                    } else {
                        LoadPointView::TxRows(Seq::empty())
                    },
                },
                opened,
                left,
            )
        }),
{
    let with_datoms = store.dirs.contains_key(c_bytes(layout.datom_dir()));
    assert(log_path_bufs(layout)[3] == layout.datom_dir());
    let left = lemma_finds_tx(layout, with_datoms, opened, steps);
    if with_datoms {
        lemma_finds_datoms(layout, opened, left)
    } else {
        left
    }
}

/// Loading from a store that does what it is asked gives what the tables on disk
/// hold, be it a log or a failure to decode one.
pub proof fn law_load_reads(layout: TxLogLayout, store: StoreView, steps: nat)
    requires
        holds_log(layout, store),
        steps >= load_steps(layout, store),
    ensures
        run_load(LoadView::start(layout), store, steps).0 == load_outcome(
            layout,
            log_content(layout, store),
        ),
{
    let (opened, n) = lemma_opens_tables(layout, store, steps);
    let left = lemma_finds_all(layout, store, opened, n);
    let rows = datom_rows_on_disk(layout, store);
    if store.dirs.contains_key(c_bytes(layout.datom_dir())) {
        assert(rows.take(0) == Seq::<DatomRowView>::empty());
        lemma_rows_decoded(layout, rows, 0, Seq::empty(), opened, (left - 1) as nat);
    } else {
        lemma_tx_decoded(layout, rows, Seq::empty(), opened, left);
    }
}

/// Where there is no `tx` table the log is empty, whatever else there is.
pub proof fn law_missing_log_is_empty(layout: TxLogLayout, store: StoreView, steps: nat)
    requires
        !store.exists_at(layout.tx_dir()),
        steps >= 2,
    ensures
        run_load(LoadView::start(layout), store, steps) == (
            load_outcome(layout, Ok(Seq::empty())),
            store,
        ),
{
    reveal_with_fuel(run_load, 3);
}

} // verus!
