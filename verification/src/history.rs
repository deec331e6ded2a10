//! What is known from a whole conversation: what was asked, and what the answers
//! led to.

use std::path::PathBuf;
use vstd::prelude::*;

use crate::decode::{
    assembled, datom_of_row, tx_of_row, txs_of_rows, value_text_of_row, DatomRowView,
    TxRowView,
};
use crate::ends::law_loading_ends;
use crate::error::ErrorView;
use crate::layout::TxLogLayout;
use crate::load::{LoadPointView, LoadView};
use crate::log::{DatomView, EnvelopeView, TxView};
use crate::path::{c_bytes, path_joined};
use crate::projection::{OpeningPointView, OpeningView};
use crate::protocol::{ActionView, Object, ReplyView, TableKind};
use crate::reader::{columns_read, LookupView, OpenPoint, ReaderView};
use crate::reopen::run_opening;
use crate::rows::{
    law_datoms_go_to_their_transaction, law_rows_and_datoms_make_a_log,
    law_tx_rows_are_read_in_order,
};
use crate::steps::no_object;
use crate::store::StoreView;

verus! {

/// A request and the answer to it.
pub struct Exchange {
    pub asked: ActionView,
    pub reply: ReplyView,
}

/// Where a conversation leads a load.
pub open spec fn load_after(load: LoadView, talk: Seq<Exchange>) -> Result<LoadView, ErrorView>
    decreases talk.len(),
{
    if talk.len() == 0 {
        Ok(load)
    } else {
        match load_after(load, talk.drop_last()) {
            Err(err) => Err(err),
            Ok(next) => next.advance(talk.last().reply),
        }
    }
}

/// Whether a load leads that conversation: every request in it is the one that the
/// load makes then, with an answer of the right kind.
pub open spec fn load_leads(load: LoadView, talk: Seq<Exchange>) -> bool
    decreases talk.len(),
{
    talk.len() == 0 || {
        &&& load_leads(load, talk.drop_last())
        &&& load_after(load, talk.drop_last()) matches Ok(next) && next.action() == Some(
            talk.last().asked,
        )
        &&& talk.last().asked.answered_by(talk.last().reply)
    }
}

/// Where a conversation leads an opening.
pub open spec fn opening_after(opening: OpeningView, talk: Seq<Exchange>) -> Result<
    OpeningView,
    ErrorView,
>
    decreases talk.len(),
{
    if talk.len() == 0 {
        Ok(opening)
    } else {
        match opening_after(opening, talk.drop_last()) {
            Err(err) => Err(err),
            Ok(next) => next.advance(talk.last().reply),
        }
    }
}

/// Whether an opening leads that conversation: every request in it is the one that
/// the opening makes then, with an answer of the right kind.
pub open spec fn opening_leads(opening: OpeningView, talk: Seq<Exchange>) -> bool
    decreases talk.len(),
{
    talk.len() == 0 || {
        &&& opening_leads(opening, talk.drop_last())
        &&& opening_after(opening, talk.drop_last()) matches Ok(next) && next.action() == Some(
            talk.last().asked,
        )
        &&& talk.last().asked.answered_by(talk.last().reply)
    }
}

/// Whether it was asked for a path, and the answer was `found`.
pub open spec fn was_found(talk: Seq<Exchange>, path: PathBuf, found: bool) -> bool {
    talk.contains(Exchange { asked: ActionView::PathExists(path), reply: ReplyView::Flag(found) })
}

/// Whether there is an object and it is no error object.
pub open spec fn good(object: Object) -> bool {
    object != Object::Null && object != Object::Typed(127)
}

/// Whether a table was asked for, and the answer was an object that can be used.
pub open spec fn was_read(
    talk: Seq<Exchange>,
    table: TableKind,
    dir: PathBuf,
    sym: PathBuf,
) -> bool {
    exists|object: Object|
        #![trigger good(object)]
        good(object) && talk.contains(
            Exchange {
                asked: ActionView::ReadSplayed { table, dir: c_bytes(dir), sym: c_bytes(sym) },
                reply: ReplyView::Object(object),
            },
        )
}

/// Whether a name was said to have that id, and the column asked for by the id came
/// as an object that can be used.
pub open spec fn column_came(
    talk: Seq<Exchange>,
    table: TableKind,
    name: Seq<char>,
    name_id: i64,
    object: Object,
) -> bool {
    &&& name_id >= 0
    &&& good(object)
    &&& talk.contains(
        Exchange { asked: ActionView::SymFind(name), reply: ReplyView::Symbol(name_id) },
    )
    &&& talk.contains(
        Exchange {
            asked: ActionView::GetColumn { table, name_id },
            reply: ReplyView::Object(object),
        },
    )
}

/// Whether a column of a table was asked for by the id that its name was said to
/// have, and the answer was an object that can be used.
pub open spec fn column_was_found(talk: Seq<Exchange>, table: TableKind, name: Seq<char>) -> bool {
    exists|name_id: i64, object: Object| column_came(talk, table, name, name_id, object)
}

/// Whether the first `n` of the columns that are read of a table were found.
pub open spec fn columns_were_found(talk: Seq<Exchange>, table: TableKind, n: int) -> bool {
    forall|c: int|
        0 <= c < n && c < columns_read(table).len() ==> column_was_found(
            talk,
            table,
            #[trigger] columns_read(table)[c],
        )
}

/// Whether in that exchange the value of a `datom` row was parsed, and the row with
/// that value is the datom.
pub open spec fn value_was_read(exchange: Exchange, row: DatomRowView, datom: DatomView) -> bool {
    &&& value_text_of_row(row) matches Ok(json) && exchange.asked == ActionView::ParseValue(json)
    &&& exchange.reply matches ReplyView::Parsed(value) && datom_of_row(row, value) == Ok::<
        DatomView,
        ErrorView,
    >(datom)
}

/// Whether exchange `k` gave these `datom` rows, and the exchanges after it the
/// values of the rows, one after the other, for as many rows as there are datoms;
/// and these are the datoms of those rows and values.
pub open spec fn datoms_were_read(
    talk: Seq<Exchange>,
    k: int,
    rows: Seq<DatomRowView>,
    datoms: Seq<DatomView>,
) -> bool {
    &&& 0 <= k
    &&& k + datoms.len() < talk.len()
    &&& talk[k].asked == ActionView::ReadDatomRows
    &&& talk[k].reply == ReplyView::DatomRows(rows)
    &&& datoms.len() <= rows.len()
    &&& forall|i: int|
        0 <= i < datoms.len() ==> value_was_read(talk[k + 1 + i], rows[i], #[trigger] datoms[i])
}

/// Whether the `tx` table was found and read.
pub open spec fn tx_was_opened(layout: TxLogLayout, talk: Seq<Exchange>) -> bool {
    let root = layout.root_path();
    &&& talk.len() > 2
    &&& talk[1].reply == ReplyView::Flag(true)
    &&& was_read(talk, TableKind::Tx, path_joined(root, "tx"@), path_joined(root, "sym.ray"@))
}

/// Whether the `datom` table was found and read.
pub open spec fn datom_was_opened(layout: TxLogLayout, talk: Seq<Exchange>) -> bool {
    let root = layout.root_path();
    &&& was_found(talk, path_joined(root, "datom"@), true)
    &&& was_read(
        talk,
        TableKind::Datom,
        path_joined(root, "datom"@),
        path_joined(root, "sym.ray"@),
    )
}

/// Whether these are the datoms that were loaded: none if there was no `datom`
/// table, and else those of all its rows.
pub open spec fn datoms_were_loaded(
    layout: TxLogLayout,
    talk: Seq<Exchange>,
    datoms: Seq<DatomView>,
) -> bool {
    ||| was_found(talk, path_joined(layout.root_path(), "datom"@), false) && datoms.len() == 0
    ||| {
        &&& datom_was_opened(layout, talk)
        &&& columns_were_found(talk, TableKind::Datom, 5)
        &&& exists|k: int, rows: Seq<DatomRowView>|
            datoms.len() == rows.len() && #[trigger] datoms_were_read(talk, k, rows, datoms)
    }
}

/// Whether an opening of a table stands in such a place in a load.
spec fn opens(layout: TxLogLayout, reader: ReaderView, kind: TableKind, name: Seq<char>) -> bool {
    &&& reader.kind == kind
    &&& reader.dir == path_joined(layout.root_path(), name)
    &&& reader.sym_path == path_joined(layout.root_path(), "sym.ray"@)
    &&& reader.action() is Some
}

/// Whether a search for columns has found those before the one it is at.
spec fn searches(talk: Seq<Exchange>, lookup: LookupView, kind: TableKind) -> bool {
    &&& lookup.kind == kind
    &&& 0 <= lookup.col
    &&& columns_were_found(talk, kind, lookup.col)
    &&& lookup.name_id matches Some(id) ==> id >= 0 && talk.contains(
        Exchange {
            asked: ActionView::SymFind(columns_read(kind)[lookup.col]),
            reply: ReplyView::Symbol(id),
        },
    )
}

/// What is known from the conversation at each point of a load.
spec fn told(layout: TxLogLayout, talk: Seq<Exchange>, at: LoadPointView) -> bool {
    match at {
        LoadPointView::Init => talk.len() == 0,
        LoadPointView::OpenTx(reader) => {
            &&& opens(layout, reader, TableKind::Tx, "tx"@)
            &&& talk.len() >= 1
            &&& reader.at == OpenPoint::CheckDir <==> talk.len() == 1
            &&& talk.len() > 1 ==> talk[1].reply == ReplyView::Flag(true)
        },
        LoadPointView::OpenDatom(reader) => {
            &&& opens(layout, reader, TableKind::Datom, "datom"@)
            &&& tx_was_opened(layout, talk)
            &&& reader.at != OpenPoint::CheckDir ==> was_found(
                talk,
                path_joined(layout.root_path(), "datom"@),
                true,
            )
        },
        LoadPointView::TxColumns { lookup, with_datoms } => {
            &&& tx_was_opened(layout, talk)
            &&& searches(talk, lookup, TableKind::Tx)
            &&& if with_datoms {
                datom_was_opened(layout, talk)
            } else {
                was_found(talk, path_joined(layout.root_path(), "datom"@), false)
            }
        },
        LoadPointView::DatomColumns(lookup) => {
            &&& tx_was_opened(layout, talk)
            &&& columns_were_found(talk, TableKind::Tx, 7)
            &&& datom_was_opened(layout, talk)
            &&& searches(talk, lookup, TableKind::Datom)
        },
        LoadPointView::DatomRows => {
            &&& tx_was_opened(layout, talk)
            &&& columns_were_found(talk, TableKind::Tx, 7)
            &&& datom_was_opened(layout, talk)
            &&& columns_were_found(talk, TableKind::Datom, 5)
        },
        LoadPointView::Values { rows, next, json, datoms } => {
            &&& tx_was_opened(layout, talk)
            &&& columns_were_found(talk, TableKind::Tx, 7)
            &&& datom_was_opened(layout, talk)
            &&& columns_were_found(talk, TableKind::Datom, 5)
            &&& datoms.len() == next < rows.len()
            &&& value_text_of_row(rows[next]) == Ok::<Seq<char>, ErrorView>(json)
            &&& datoms_were_read(talk, talk.len() - 1 - next, rows, datoms)
        },
        LoadPointView::TxRows(datoms) => {
            &&& tx_was_opened(layout, talk)
            &&& columns_were_found(talk, TableKind::Tx, 7)
            &&& datoms_were_loaded(layout, talk, datoms)
        },
        LoadPointView::Done(log) => {
            ||| talk.len() == 2 && talk[1].reply == ReplyView::Flag(false) && log.len() == 0
            ||| log_was_read(layout, talk, log)
        },
    }
}

/// Whether a log is the one that was read: both tables were opened, or only `tx`
/// where there was no other, and the log is what the last answer, the rows of
/// `tx`, and the datoms that were loaded before it make up.
pub open spec fn log_was_read(
    layout: TxLogLayout,
    talk: Seq<Exchange>,
    log: Seq<EnvelopeView>,
) -> bool {
    &&& tx_was_opened(layout, talk)
    &&& columns_were_found(talk, TableKind::Tx, 7)
    &&& talk.last().asked == ActionView::ReadTxRows
    &&& exists|rows: Seq<TxRowView>, datoms: Seq<DatomView>|
        {
            &&& talk.last().reply == ReplyView::TxRows(rows)
            &&& datoms_were_loaded(layout, talk, datoms)
            &&& #[trigger] assembled(rows, datoms) == Ok::<Seq<EnvelopeView>, ErrorView>(log)
        }
}

/// What was exchanged stays so.
proof fn lemma_talk_grows(talk: Seq<Exchange>, last: Exchange, earlier: Exchange)
    ensures
        talk.contains(earlier) ==> talk.push(last).contains(earlier),
        talk.push(last).contains(last),
{
    let more = talk.push(last);
    assert(more[talk.len() as int] == last);
    if talk.contains(earlier) {
        let k = choose|k: int| 0 <= k < talk.len() && talk[k] == earlier;
        assert(more[k] == earlier);
    }
}

/// A table that was read, and columns that were found, stay so.
proof fn lemma_tables_stay(
    talk: Seq<Exchange>,
    last: Exchange,
    kind: TableKind,
    dir: PathBuf,
    sym: PathBuf,
    n: int,
)
    ensures
        was_read(talk, kind, dir, sym) ==> was_read(talk.push(last), kind, dir, sym),
        columns_were_found(talk, kind, n) ==> columns_were_found(talk.push(last), kind, n),
{
    let more = talk.push(last);
    if was_read(talk, kind, dir, sym) {
        let asked = ActionView::ReadSplayed { table: kind, dir: c_bytes(dir), sym: c_bytes(sym) };
        let object = choose|object: Object|
            #![trigger good(object)]
            good(object) && talk.contains(Exchange { asked, reply: ReplyView::Object(object) });
        lemma_talk_grows(talk, last, Exchange { asked, reply: ReplyView::Object(object) });
    }
    if columns_were_found(talk, kind, n) {
        assert forall|c: int|
            0 <= c < n && c < columns_read(kind).len() implies column_was_found(
            more,
            kind,
            #[trigger] columns_read(kind)[c],
        ) by {
            lemma_column_stays(talk, last, kind, columns_read(kind)[c]);
        }
    }
}

/// A column that was found stays so.
proof fn lemma_column_stays(
    talk: Seq<Exchange>,
    last: Exchange,
    table: TableKind,
    name: Seq<char>,
)
    requires
        column_was_found(talk, table, name),
    ensures
        column_was_found(talk.push(last), table, name),
{
    let (name_id, object) = choose|name_id: i64, object: Object|
        column_came(talk, table, name, name_id, object);
    lemma_talk_grows(
        talk,
        last,
        Exchange { asked: ActionView::SymFind(name), reply: ReplyView::Symbol(name_id) },
    );
    lemma_talk_grows(
        talk,
        last,
        Exchange {
            asked: ActionView::GetColumn { table, name_id },
            reply: ReplyView::Object(object),
        },
    );
    assert(column_came(talk.push(last), table, name, name_id, object));
}

/// Datoms that were read stay so.
proof fn lemma_datoms_stay(
    talk: Seq<Exchange>,
    last: Exchange,
    k: int,
    rows: Seq<DatomRowView>,
    datoms: Seq<DatomView>,
)
    requires
        datoms_were_read(talk, k, rows, datoms),
    ensures
        datoms_were_read(talk.push(last), k, rows, datoms),
{
    let more = talk.push(last);
    assert forall|i: int| 0 <= i < datoms.len() implies value_was_read(
        more[k + 1 + i],
        rows[i],
        #[trigger] datoms[i],
    ) by {
        assert(more[k + 1 + i] == talk[k + 1 + i]);
    }
}

/// What is known from a conversation at a point of a load, whatever is exchanged
/// next.
proof fn lemma_known_stays(layout: TxLogLayout, talk: Seq<Exchange>, last: Exchange)
    ensures
        tx_was_opened(layout, talk) ==> tx_was_opened(layout, talk.push(last)),
        datom_was_opened(layout, talk) ==> datom_was_opened(layout, talk.push(last)),
        columns_were_found(talk, TableKind::Tx, 7) ==> columns_were_found(
            talk.push(last),
            TableKind::Tx,
            7,
        ),
        columns_were_found(talk, TableKind::Datom, 5) ==> columns_were_found(
            talk.push(last),
            TableKind::Datom,
            5,
        ),
        forall|path: PathBuf, found: bool| #[trigger]
            was_found(talk, path, found) ==> was_found(talk.push(last), path, found),
{
    let root = layout.root_path();
    let sym = path_joined(root, "sym.ray"@);
    lemma_tables_stay(talk, last, TableKind::Tx, path_joined(root, "tx"@), sym, 7);
    lemma_tables_stay(talk, last, TableKind::Datom, path_joined(root, "datom"@), sym, 5);
    assert forall|path: PathBuf, found: bool| #[trigger]
        was_found(talk, path, found) implies was_found(talk.push(last), path, found) by {
        lemma_talk_grows(
            talk,
            last,
            Exchange { asked: ActionView::PathExists(path), reply: ReplyView::Flag(found) },
        );
    }
}

/// The datoms that were loaded stay so.
proof fn lemma_loaded_stays(
    layout: TxLogLayout,
    talk: Seq<Exchange>,
    last: Exchange,
    datoms: Seq<DatomView>,
)
    requires
        datoms_were_loaded(layout, talk, datoms),
    ensures
        datoms_were_loaded(layout, talk.push(last), datoms),
{
    lemma_known_stays(layout, talk, last);
    if exists|k: int, rows: Seq<DatomRowView>|
        datoms.len() == rows.len() && #[trigger] datoms_were_read(talk, k, rows, datoms) {
        let (k, rows) = choose|k: int, rows: Seq<DatomRowView>|
            datoms.len() == rows.len() && #[trigger] datoms_were_read(talk, k, rows, datoms);
        lemma_datoms_stay(talk, last, k, rows, datoms);
    }
}

/// One more exchange in a search for columns.
proof fn lemma_search_goes_on(
    talk: Seq<Exchange>,
    last: Exchange,
    lookup: LookupView,
    kind: TableKind,
)
    requires
        searches(talk, lookup, kind),
        lookup.action() == Some(last.asked),
        last.asked.answered_by(last.reply),
    ensures
        lookup.advance(last.reply) matches Ok(next) ==> searches(talk.push(last), next, kind),
{
    let more = talk.push(last);
    if let Ok(next) = lookup.advance(last.reply) {
        lemma_talk_grows(talk, last, last);
        let name = columns_read(kind)[lookup.col];
        if let Some(name_id) = lookup.name_id {
            let object = last.reply->Object_0;
            lemma_talk_grows(
                talk,
                last,
                Exchange { asked: ActionView::SymFind(name), reply: ReplyView::Symbol(name_id) },
            );
            let asked = ActionView::GetColumn { table: kind, name_id };
            assert(last == Exchange { asked, reply: ReplyView::Object(object) });
            assert(column_came(more, kind, name, name_id, object));
        }
        assert forall|c: int|
            0 <= c < next.col && c < columns_read(kind).len() implies column_was_found(
            more,
            kind,
            #[trigger] columns_read(kind)[c],
        ) by {
            if c < lookup.col {
                lemma_column_stays(talk, last, kind, columns_read(kind)[c]);
            }
        }
    }
}

/// One more exchange in the opening of a table.
proof fn lemma_table_is_opened(
    layout: TxLogLayout,
    talk: Seq<Exchange>,
    last: Exchange,
    reader: ReaderView,
    kind: TableKind,
    name: Seq<char>,
)
    requires
        opens(layout, reader, kind, name),
        reader.action() == Some(last.asked),
        last.asked.answered_by(last.reply),
    ensures
        reader.advance(last.reply) matches Ok(next) ==> {
            let dir = path_joined(layout.root_path(), name);
            let sym = path_joined(layout.root_path(), "sym.ray"@);
            &&& next.kind == kind
            &&& next.dir == dir
            &&& next.sym_path == sym
            &&& next.at != OpenPoint::CheckDir
            &&& reader.at == OpenPoint::CheckDir ==> next.at == (if last.reply == ReplyView::Flag(
                true,
            ) {
                OpenPoint::CheckSym
            } else {
                OpenPoint::Absent
            }) && was_found(talk.push(last), dir, next.at != OpenPoint::Absent)
            &&& reader.at != OpenPoint::CheckDir ==> next.at != OpenPoint::Absent
            &&& next.at == OpenPoint::Opened ==> was_read(talk.push(last), kind, dir, sym)
        },
{
    lemma_talk_grows(talk, last, last);
    if let Ok(next) = reader.advance(last.reply) {
        if next.at == OpenPoint::Opened {
            assert(good(last.reply->Object_0));
        }
    }
}

/// The point at which a `datom` row is taken up.
proof fn lemma_row_is_taken_up(
    layout: TxLogLayout,
    talk: Seq<Exchange>,
    load: LoadView,
    rows: Seq<DatomRowView>,
    datoms: Seq<DatomView>,
)
    requires
        tx_was_opened(layout, talk),
        columns_were_found(talk, TableKind::Tx, 7),
        datom_was_opened(layout, talk),
        columns_were_found(talk, TableKind::Datom, 5),
        datoms_were_read(talk, talk.len() - 1 - datoms.len(), rows, datoms),
    ensures
        load.at_row(rows, datoms.len() as int, datoms) matches Ok(next) ==> told(
            layout,
            talk,
            next.at,
        ),
{
}

/// A load knows at each point what the conversation told it.
#[verifier::spinoff_prover]
proof fn lemma_load_knows(layout: TxLogLayout, talk: Seq<Exchange>)
    requires
        load_leads(LoadView::start(layout), talk),
    ensures
        load_after(LoadView::start(layout), talk) matches Ok(load) ==> {
            &&& load.wf()
            &&& load.layout == layout
            &&& told(layout, talk, load.at)
        },
    decreases talk.len(),
{
    if talk.len() > 0 {
        let rest = talk.drop_last();
        let last = talk.last();
        lemma_load_knows(layout, rest);
        assert(rest.push(last) =~= talk);
        let load = load_after(LoadView::start(layout), rest)->Ok_0;
        law_loading_ends(load, last.reply);
        if let Ok(next) = load.advance(last.reply) {
            lemma_next_is_known(layout, rest, last, load, next);
        }
    }
}

/// One more exchange in a load.
#[verifier::spinoff_prover]
proof fn lemma_next_is_known(
    layout: TxLogLayout,
    talk: Seq<Exchange>,
    last: Exchange,
    load: LoadView,
    next: LoadView,
)
    requires
        load.wf(),
        load.layout == layout,
        told(layout, talk, load.at),
        load.action() == Some(last.asked),
        last.asked.answered_by(last.reply),
        load.advance(last.reply) == Ok::<LoadView, ErrorView>(next),
    ensures
        next.layout == layout,
        told(layout, talk.push(last), next.at),
{
    let more = talk.push(last);
    lemma_known_stays(layout, talk, last);
    match load.at {
        LoadPointView::Init => {},
        LoadPointView::OpenTx(reader) => {
            lemma_table_is_opened(layout, talk, last, reader, TableKind::Tx, "tx"@);
        },
        LoadPointView::OpenDatom(reader) => {
            lemma_table_is_opened(layout, talk, last, reader, TableKind::Datom, "datom"@);
        },
        LoadPointView::TxColumns { lookup, .. } => {
            lemma_search_goes_on(talk, last, lookup, TableKind::Tx);
        },
        LoadPointView::DatomColumns(lookup) => {
            lemma_search_goes_on(talk, last, lookup, TableKind::Datom);
        },
        LoadPointView::DatomRows => {
            let rows = last.reply->DatomRows_0;
            lemma_row_is_taken_up(layout, more, load, rows, Seq::empty());
        },
        LoadPointView::Values { rows, next: n, datoms, .. } => {
            let k = talk.len() - 1 - n;
            lemma_datoms_stay(talk, last, k, rows, datoms);
            let datom = datom_of_row(rows[n], last.reply->Parsed_0)->Ok_0;
            let read = datoms.push(datom);
            assert(more[k + 1 + n] == last);
            assert forall|i: int| 0 <= i < read.len() implies value_was_read(
                more[k + 1 + i],
                rows[i],
                #[trigger] read[i],
            ) by {
                if i < n {
                    assert(read[i] == datoms[i]);
                }
            }
            assert(datoms_were_read(more, k, rows, read));
            lemma_row_is_taken_up(layout, more, load, rows, read);
        },
        LoadPointView::TxRows(datoms) => {
            let rows = last.reply->TxRows_0;
            lemma_loaded_stays(layout, talk, last, datoms);
            assert(assembled(rows, datoms) is Ok);
        },
        LoadPointView::Done(_) => {},
    }
}

/// A load ends with a log in two ways only: empty, after two answers, because the
/// directory of `tx` was said not to be there; or, if it was said to be there, after
/// the table was read as an object that can be used, and so was the `datom` table
/// if it was there, all columns were found, and the log is what the rows and the
/// parsed values make up.
pub proof fn law_loaded_log_was_read(
    layout: TxLogLayout,
    talk: Seq<Exchange>,
    load: LoadView,
    log: Seq<EnvelopeView>,
)
    requires
        load_leads(LoadView::start(layout), talk),
        load_after(LoadView::start(layout), talk) == Ok::<LoadView, ErrorView>(load),
        load.at == LoadPointView::Done(log),
    ensures
        talk[1].reply == ReplyView::Flag(false) ==> talk.len() == 2 && log.len() == 0,
        talk[1].reply != ReplyView::Flag(false) ==> log_was_read(layout, talk, log),
{
    lemma_load_knows(layout, talk);
}

/// A log that was read of a `tx` table has one envelope for each row of the table,
/// in the order of the rows, with the transaction that the row is read as, and with
/// datoms only of those that were loaded; without a `datom` table it has none.
pub proof fn law_loaded_log_has_its_rows(
    layout: TxLogLayout,
    talk: Seq<Exchange>,
    log: Seq<EnvelopeView>,
)
    requires
        log_was_read(layout, talk, log),
    ensures
        talk.last().reply matches ReplyView::TxRows(rows) && {
            &&& log.len() == rows.len()
            &&& forall|i: int|
                0 <= i < log.len() ==> tx_of_row(rows[i]) == Ok::<TxView, ErrorView>(
                    (#[trigger] log[i]).tx,
                )
        },
        exists|datoms: Seq<DatomView>| #[trigger]
            datoms_were_loaded(layout, talk, datoms) && forall|i: int, d: DatomView|
                0 <= i < log.len() && #[trigger] log[i].datoms.contains(d) ==> datoms.contains(d)
                    && d.tx == log[i].tx.tx_id,
        !was_found(talk, path_joined(layout.root_path(), "datom"@), true) ==> forall|i: int|
            0 <= i < log.len() ==> (#[trigger] log[i]).datoms.len() == 0,
{
    let (rows, datoms) = choose|rows: Seq<TxRowView>, datoms: Seq<DatomView>|
        {
            &&& talk.last().reply == ReplyView::TxRows(rows)
            &&& datoms_were_loaded(layout, talk, datoms)
            &&& #[trigger] assembled(rows, datoms) == Ok::<Seq<EnvelopeView>, ErrorView>(log)
        };
    law_rows_and_datoms_make_a_log(rows, datoms);
    law_tx_rows_are_read_in_order(rows);
    let txs = txs_of_rows(rows)->Ok_0;
    assert forall|i: int| 0 <= i < log.len() implies tx_of_row(rows[i]) == Ok::<TxView, ErrorView>(
        (#[trigger] log[i]).tx,
    ) by {
        law_datoms_go_to_their_transaction(txs, datoms, i);
        assert(tx_of_row(rows[i]) == Ok::<TxView, ErrorView>(txs[i]));
    }
    assert forall|i: int, d: DatomView|
        0 <= i < log.len() && #[trigger] log[i].datoms.contains(d) implies datoms.contains(d)
        && d.tx == log[i].tx.tx_id by {
        law_datoms_go_to_their_transaction(txs, datoms, i);
        let of_tx = |d: DatomView| d.tx == txs[i].tx_id;
        let k = choose|k: int| 0 <= k < log[i].datoms.len() && log[i].datoms[k] == d;
        assert(log[i].datoms == datoms.filter(of_tx));
        datoms.lemma_filter_pred(of_tx, k);
        datoms.lemma_filter_contains_rev(of_tx, d);
    }
    if datoms.len() == 0 {
        assert forall|i: int| 0 <= i < log.len() implies (#[trigger] log[i]).datoms.len() == 0 by {
            if log[i].datoms.len() > 0 {
                assert(log[i].datoms.contains(log[i].datoms[0]));
                assert(datoms.contains(log[i].datoms[0]));
            }
        }
    }
}

/// Whatever was answered before, a table that does not come as an object that can
/// be used, be it none or an error object, ends the load with the failure to read
/// that table.
pub proof fn law_unread_table_fails_the_load(layout: TxLogLayout, talk: Seq<Exchange>)
    requires
        load_leads(LoadView::start(layout), talk),
        talk.len() > 0,
    ensures
        no_object(talk.last().reply) ==> (talk.last().asked matches ActionView::ReadSplayed {
            table,
            ..
        } ==> load_after(LoadView::start(layout), talk) == Err::<LoadView, ErrorView>(
            ErrorView::RayforceRead(
                match table {
                    TableKind::Tx => "tx"@,
                    TableKind::Datom => "datom"@,
                },
            ),
        )),
{
    lemma_load_knows(layout, talk.drop_last());
}

/// A projection that starts anew asks for the symbols to be set up and for the root
/// to be created, and for nothing else, whatever is answered; it is open only after
/// both were done, and then its log is empty.
pub proof fn law_new_projection_reads_nothing(layout: TxLogLayout, talk: Seq<Exchange>)
    requires
        opening_leads(OpeningView::start(layout, false), talk),
    ensures
        talk.len() <= 2,
        talk.len() > 0 ==> talk[0].asked == ActionView::SymInit,
        talk.len() > 1 ==> talk[1].asked == ActionView::CreateDirAll(layout.root_path()),
        match opening_after(OpeningView::start(layout, false), talk) {
            Ok(opening) => {
                &&& opening.layout == layout
                &&& !opening.existing
                &&& talk.len() > 0 ==> talk[0].reply == ReplyView::Code(0)
                &&& talk.len() > 1 ==> (talk[1].reply matches ReplyView::Io(Ok(_)))
                &&& opening.action() is None <==> talk.len() == 2
                &&& opening.at == if talk.len() == 0 {
                    OpeningPointView::Init
                } else if talk.len() == 1 {
                    OpeningPointView::CreateRoot
                } else {
                    OpeningPointView::Ready(Seq::empty())
                }
            },
            Err(err) => match talk.last().reply {
                ReplyView::Code(code) => talk.len() == 1 && code != 0 && err
                    == ErrorView::SymInit(code),
                ReplyView::Io(Err(source)) => talk.len() == 2 && err == (ErrorView::CreateDir {
                    path: layout.root_path(),
                    source,
                }),
                _ => false,
            },
        },
    decreases talk.len(),
{
    if talk.len() > 0 {
        let rest = talk.drop_last();
        law_new_projection_reads_nothing(layout, rest);
        assert(forall|k: int| 0 <= k < rest.len() ==> rest[k] == talk[k]);
    }
}

/// How the conversation of a projection over the log on disk begins.
proof fn lemma_open_projection_begins(layout: TxLogLayout, talk: Seq<Exchange>)
    requires
        opening_leads(OpeningView::start(layout, true), talk),
    ensures
        talk.len() == 1 ==> {
            &&& talk[0].asked == ActionView::SymInit
            &&& opening_after(OpeningView::start(layout, true), talk) == if talk[0].reply
                == ReplyView::Code(0) {
                Ok::<OpeningView, ErrorView>(
                    OpeningView { layout, existing: true, at: OpeningPointView::CreateRoot },
                )
            } else {
                Err::<OpeningView, ErrorView>(ErrorView::SymInit(talk[0].reply->Code_0))
            }
        },
        talk.len() == 2 ==> {
            &&& talk[0].asked == ActionView::SymInit
            &&& talk[0].reply == ReplyView::Code(0)
            &&& talk[1].asked == ActionView::CreateDirAll(layout.root_path())
            &&& opening_after(OpeningView::start(layout, true), talk) == match talk[1].reply {
                ReplyView::Io(Err(source)) => Err::<OpeningView, ErrorView>(
                    ErrorView::CreateDir { path: layout.root_path(), source },
                ),
                _ => Ok::<OpeningView, ErrorView>(
                    OpeningView {
                        layout,
                        existing: true,
                        at: OpeningPointView::Loading(LoadView::start(layout)),
                    },
                ),
            }
        },
{
    reveal_with_fuel(opening_after, 3);
    reveal_with_fuel(opening_leads, 3);
}

/// A projection over the log on disk, once the symbols are set up and the root is
/// created, makes the requests of a load and ends as the load does: with the log
/// that was loaded, or with its failure.
pub proof fn law_open_projection_loads(layout: TxLogLayout, talk: Seq<Exchange>)
    requires
        opening_leads(OpeningView::start(layout, true), talk),
        talk.len() >= 2,
        opening_after(OpeningView::start(layout, true), talk.take(2)) is Ok,
    ensures
        talk[0].asked == ActionView::SymInit,
        talk[0].reply == ReplyView::Code(0),
        talk[1].asked == ActionView::CreateDirAll(layout.root_path()),
        talk[1].reply matches ReplyView::Io(Ok(_)),
        load_leads(LoadView::start(layout), talk.skip(2)),
        match load_after(LoadView::start(layout), talk.skip(2)) {
            Err(err) => opening_after(OpeningView::start(layout, true), talk) == Err::<
                OpeningView,
                ErrorView,
            >(err),
            Ok(load) => opening_after(OpeningView::start(layout, true), talk) == Ok::<
                OpeningView,
                ErrorView,
            >(
                OpeningView {
                    layout,
                    existing: true,
                    at: match load.at {
                        LoadPointView::Done(log) => OpeningPointView::Ready(log),
                        _ => OpeningPointView::Loading(load),
                    },
                },
            ),
        },
    decreases talk.len(),
{
    let start = OpeningView::start(layout, true);
    if talk.len() == 2 {
        assert(talk.take(2) =~= talk);
        lemma_open_projection_begins(layout, talk);
        assert(talk.skip(2).len() == 0);
    } else {
        let rest = talk.drop_last();
        assert(rest.take(2) =~= talk.take(2));
        assert(talk.skip(2).drop_last() =~= rest.skip(2));
        assert(talk.skip(2).last() == talk.last());
        law_open_projection_loads(layout, rest);
        assert(rest[0] == talk[0] && rest[1] == talk[1]);
    }
}

/// A projection over the log on disk asks first for the symbols to be set up and
/// then for the root to be created; where one of these fails it ends with that
/// failure, and before both are done it is not open.
pub proof fn law_open_projection_begins(layout: TxLogLayout, talk: Seq<Exchange>)
    requires
        opening_leads(OpeningView::start(layout, true), talk),
        talk.len() <= 2,
    ensures
        OpeningView::start(layout, true).action() == Some(ActionView::SymInit),
        talk.len() > 0 ==> talk[0].asked == ActionView::SymInit,
        talk.len() > 1 ==> talk[0].reply == ReplyView::Code(0) && talk[1].asked
            == ActionView::CreateDirAll(layout.root_path()),
        match opening_after(OpeningView::start(layout, true), talk) {
            Ok(opening) => {
                &&& !(opening.at is Ready)
                &&& talk.len() == 1 ==> talk[0].reply == ReplyView::Code(0)
                &&& talk.len() == 2 ==> (talk[1].reply matches ReplyView::Io(Ok(_)))
            },
            Err(err) => match talk.last().reply {
                ReplyView::Code(code) => talk.len() == 1 && code != 0 && err
                    == ErrorView::SymInit(code),
                ReplyView::Io(Err(source)) => talk.len() == 2 && err == (ErrorView::CreateDir {
                    path: layout.root_path(),
                    source,
                }),
                _ => false,
            },
        },
{
    lemma_open_projection_begins(layout, talk);
}

/// On a store that does what it is asked, a projection that starts anew is open
/// after two requests, with an empty log, whatever lies on disk; and nothing of what
/// lies there is touched, but that the root is there.
pub proof fn law_new_projection_opens_empty(layout: TxLogLayout, store: StoreView, steps: nat)
    requires
        steps >= 2,
    ensures
        run_opening(OpeningView::start(layout, false), store, steps) == (
            Ok::<OpeningView, ErrorView>(
                OpeningView {
                    layout,
                    existing: false,
                    at: OpeningPointView::Ready(Seq::empty()),
                },
            ),
            store.after(ActionView::CreateDirAll(layout.root_path())),
        ),
{
    let start = OpeningView::start(layout, false);
    let create = OpeningView { at: OpeningPointView::CreateRoot, ..start };
    let rooted = store.after(ActionView::CreateDirAll(layout.root_path()));
    assert(run_opening(start, store, steps) == run_opening(create, store, (steps - 1) as nat));
    assert(run_opening(create, store, (steps - 1) as nat) == run_opening(
        OpeningView { at: OpeningPointView::Ready(Seq::empty()), ..start },
        rooted,
        (steps - 2) as nat,
    ));
}

} // verus!
