//! What holds of the log's stored form as a whole.

use vstd::prelude::*;
use vstd::utf8::*;

use crate::decode::{
    actor_kind_of, assembled, datom_of_row, datoms_with_tx, grouped, id_seen_before, key_of,
    sym_text, tx_id_of, tx_of_row, txs_of_rows, value_text_of_row, DatomRowView, TxRowView,
};
use crate::encode::{
    actor_kind_name, all_datoms, datom_rows_of, datom_table_of, plain_metadata_reads_back,
    stored_flag, stored_key, tx_table_of,
};
use crate::error::ErrorView;
use crate::log::{ActorKind, DatomValueView, DatomView, EnvelopeView, TxView};
use crate::table::{CellsView, ColumnView};
use crate::text::{json_parsed, json_text, plain_json};

verus! {

/// What reads the JSON text of a datom's value.
pub type ValueParser = spec_fn(Seq<char>) -> Result<DatomValueView, serde_json::Error>;

/// The first column of that name.
pub open spec fn column_named(columns: Seq<ColumnView>, name: Seq<char>) -> Option<ColumnView>
    decreases columns.len(),
{
    if columns.len() == 0 {
        None
    } else if columns[0].name == name {
        Some(columns[0])
    } else {
        column_named(columns.drop_first(), name)
    }
}

/// The integer in a row of the column of that name.
pub open spec fn int_cell(columns: Seq<ColumnView>, name: Seq<char>, row: int) -> i64 {
    match column_named(columns, name) {
        Some(ColumnView { cells: CellsView::I64(values), .. }) => values[row],
        _ => 0,
    }
}

/// The bytes of the symbol in a row of the column of that name.
pub open spec fn sym_cell(columns: Seq<ColumnView>, name: Seq<char>, row: int) -> Option<Seq<u8>> {
    match column_named(columns, name) {
        Some(ColumnView { cells: CellsView::Sym(values), .. }) => Some(encode_utf8(values[row])),
        _ => None,
    }
}

/// How many rows a table with those columns has.
pub open spec fn row_count(columns: Seq<ColumnView>) -> nat {
    if columns.len() == 0 {
        0
    } else {
        columns[0].cells.len()
    }
}

/// The rows that are read of a `tx` table with those columns.
pub open spec fn tx_rows(columns: Seq<ColumnView>) -> Seq<TxRowView> {
    Seq::new(
        row_count(columns),
        |i: int|
            TxRowView {
                tx_id: int_cell(columns, "tx_id"@, i),
                tx_time: sym_cell(columns, "tx_time"@, i),
                actor: sym_cell(columns, "actor"@, i),
                actor_kind: sym_cell(columns, "actor_kind"@, i),
                command: sym_cell(columns, "command"@, i),
                idempotency_key: sym_cell(columns, "idempotency_key"@, i),
                metadata_json: sym_cell(columns, "metadata_json"@, i),
            },
    )
}

/// The rows that are read of a `datom` table with those columns.
pub open spec fn datom_rows(columns: Seq<ColumnView>) -> Seq<DatomRowView> {
    Seq::new(
        row_count(columns),
        |i: int|
            DatomRowView {
                tx_id: int_cell(columns, "tx_id"@, i),
                entity: sym_cell(columns, "entity"@, i),
                attr: sym_cell(columns, "attr"@, i),
                value_json: sym_cell(columns, "value_json"@, i),
                added: int_cell(columns, "added"@, i),
            },
    )
}

/// What the parser makes of the value text of a row that has one.
pub open spec fn parsed_of_row(row: DatomRowView, parse: ValueParser) -> Result<
    DatomValueView,
    serde_json::Error,
> {
    parse(value_text_of_row(row)->Ok_0)
}

/// The datoms of all rows, or the failure of the first row that has one.
pub open spec fn datoms_of_rows(rows: Seq<DatomRowView>, parse: ValueParser) -> Result<
    Seq<DatomView>,
    ErrorView,
>
    decreases rows.len(),
{
    if rows.len() == 0 {
        Ok(Seq::empty())
    } else {
        match datoms_of_rows(rows.drop_last(), parse) {
            Err(err) => Err(err),
            Ok(datoms) => match datom_of_row(rows.last(), parsed_of_row(rows.last(), parse)) {
                Err(err) => Err(err),
                Ok(datom) => Ok(datoms.push(datom)),
            },
        }
    }
}

/// The log that the rows of the two tables hold: the first failure among the
/// `datom` rows, then among the `tx` rows, or the envelopes.
pub open spec fn decoded(
    tx: Seq<TxRowView>,
    datoms: Seq<DatomRowView>,
    parse: ValueParser,
) -> Result<Seq<EnvelopeView>, ErrorView> {
    match datoms_of_rows(datoms, parse) {
        Err(err) => Err(err),
        Ok(datoms) => assembled(tx, datoms),
    }
}

/// Whether a datom survives being stored: its transaction id fits the column,
/// and the parser reads its value back.
pub open spec fn storable_datom(datom: DatomView, parse: ValueParser) -> bool {
    &&& datom.tx <= i64::MAX
    &&& parse(datom.value.json) == Ok::<DatomValueView, serde_json::Error>(datom.value)
}

/// Whether a transaction survives being stored: its id fits the column, and its
/// metadata reads back from its JSON text.
pub open spec fn storable_tx(tx: TxView) -> bool {
    &&& tx.tx_id <= i64::MAX
    &&& json_parsed(json_text(tx.metadata)) == Ok::<serde_json::Value, serde_json::Error>(
        tx.metadata,
    )
}

/// Whether all of a log survives being stored.
pub open spec fn storable(envelopes: Seq<EnvelopeView>, parse: ValueParser) -> bool {
    &&& forall|i: int| 0 <= i < envelopes.len() ==> storable_tx((#[trigger] envelopes[i]).tx)
    &&& forall|i: int, j: int|
        0 <= i < envelopes.len() && 0 <= j < envelopes[i].datoms.len() ==> storable_datom(
            #[trigger] envelopes[i].datoms[j],
            parse,
        )
}

/// A transaction as it is read back: an empty idempotency key is none.
pub open spec fn read_back_tx(tx: TxView) -> TxView {
    TxView { idempotency_key: key_of(stored_key(tx.idempotency_key)), ..tx }
}

/// A log as it is read back: each transaction, with the datoms that carry its
/// id if it is the first with that id.
pub open spec fn read_back(envelopes: Seq<EnvelopeView>) -> Seq<EnvelopeView> {
    grouped(
        envelopes.map_values(|e: EnvelopeView| read_back_tx(e.tx)),
        all_datoms(envelopes),
    )
}

/// Whether an earlier envelope than the `i`th has the id of its transaction.
pub open spec fn repeats_id(envelopes: Seq<EnvelopeView>, i: int) -> bool {
    exists|j: int| 0 <= j < i && (#[trigger] envelopes[j]).tx.tx_id == envelopes[i].tx.tx_id
}

/// Whether each datom carries the id of its own envelope's transaction.
pub open spec fn own_ids(envelopes: Seq<EnvelopeView>) -> bool {
    forall|i: int, j: int|
        0 <= i < envelopes.len() && 0 <= j < envelopes[i].datoms.len() ==> (
        #[trigger] envelopes[i].datoms[j]).tx == envelopes[i].tx.tx_id
}

/// Whether an envelope whose transaction repeats an id has no datoms.
pub open spec fn repeats_are_empty(envelopes: Seq<EnvelopeView>) -> bool {
    forall|i: int|
        0 <= i < envelopes.len() && #[trigger] repeats_id(envelopes, i)
            ==> envelopes[i].datoms.len() == 0
}

/// Whether no idempotency key is the empty text.
pub open spec fn no_empty_keys(envelopes: Seq<EnvelopeView>) -> bool {
    forall|i: int|
        0 <= i < envelopes.len() ==> (#[trigger] envelopes[i]).tx.idempotency_key != Some(
            Seq::<char>::empty(),
        )
}

/// Whether a log tells its envelopes apart by their ids alone.
pub open spec fn settled(envelopes: Seq<EnvelopeView>) -> bool {
    own_ids(envelopes) && repeats_are_empty(envelopes) && no_empty_keys(envelopes)
}

/// Whether every transaction id fits its column.
pub open spec fn ids_fit(envelopes: Seq<EnvelopeView>) -> bool {
    forall|i: int| 0 <= i < envelopes.len() ==> (#[trigger] envelopes[i]).tx.tx_id <= i64::MAX
}

/// Whether a log is one that loading can give: settled, with ids that fit.
pub open spec fn loadable(envelopes: Seq<EnvelopeView>) -> bool {
    settled(envelopes) && ids_fit(envelopes)
}

/// Whether the metadata and the values of a log read back from their JSON texts.
pub open spec fn json_reads_back(envelopes: Seq<EnvelopeView>, parse: ValueParser) -> bool {
    &&& forall|i: int|
        0 <= i < envelopes.len() ==> {
            let metadata = (#[trigger] envelopes[i]).tx.metadata;
            json_parsed(json_text(metadata)) == Ok::<serde_json::Value, serde_json::Error>(metadata)
        }
    &&& forall|i: int, j: int|
        0 <= i < envelopes.len() && 0 <= j < envelopes[i].datoms.len() ==> {
            let value = (#[trigger] envelopes[i].datoms[j]).value;
            parse(value.json) == Ok::<DatomValueView, serde_json::Error>(value)
        }
}

/// The names of the stored columns differ from one another within each table.
pub(crate) proof fn lemma_names_differ()
    ensures
        "tx_id"@ != "tx_time"@,
        "tx_id"@ != "actor"@,
        "tx_id"@ != "actor_kind"@,
        "tx_id"@ != "command"@,
        "tx_id"@ != "idempotency_key"@,
        "tx_id"@ != "metadata_json"@,
        "tx_time"@ != "actor"@,
        "tx_time"@ != "actor_kind"@,
        "tx_time"@ != "command"@,
        "tx_time"@ != "idempotency_key"@,
        "tx_time"@ != "metadata_json"@,
        "actor"@ != "actor_kind"@,
        "actor"@ != "command"@,
        "actor"@ != "idempotency_key"@,
        "actor"@ != "metadata_json"@,
        "actor_kind"@ != "command"@,
        "actor_kind"@ != "idempotency_key"@,
        "actor_kind"@ != "metadata_json"@,
        "command"@ != "idempotency_key"@,
        "command"@ != "metadata_json"@,
        "idempotency_key"@ != "metadata_json"@,
        "tx_id"@ != "entity"@,
        "tx_id"@ != "attr"@,
        "tx_id"@ != "value_kind"@,
        "tx_id"@ != "value_json"@,
        "tx_id"@ != "added"@,
        "entity"@ != "attr"@,
        "entity"@ != "value_kind"@,
        "entity"@ != "value_json"@,
        "entity"@ != "added"@,
        "attr"@ != "value_kind"@,
        "attr"@ != "value_json"@,
        "attr"@ != "added"@,
        "value_kind"@ != "value_json"@,
        "value_kind"@ != "added"@,
        "value_json"@ != "added"@,
{
    reveal_strlit("tx_id");
    reveal_strlit("tx_time");
    reveal_strlit("actor");
    reveal_strlit("actor_kind");
    reveal_strlit("command");
    reveal_strlit("idempotency_key");
    reveal_strlit("metadata_json");
    reveal_strlit("entity");
    reveal_strlit("attr");
    reveal_strlit("value_kind");
    reveal_strlit("value_json");
    reveal_strlit("added");
    assert("tx_id"@.len() == 5);
    assert("tx_time"@.len() == 7);
    assert("actor"@.len() == 5);
    assert("actor_kind"@.len() == 10);
    assert("command"@.len() == 7);
    assert("idempotency_key"@.len() == 15);
    assert("metadata_json"@.len() == 13);
    assert("entity"@.len() == 6);
    assert("attr"@.len() == 4);
    assert("value_kind"@.len() == 10);
    assert("value_json"@.len() == 10);
    assert("added"@.len() == 5);
    assert("tx_id"@[0] == 't');
    assert("actor"@[0] == 'a');
    assert("added"@[0] == 'a');
    assert("tx_time"@[0] == 't');
    assert("command"@[0] == 'c');
    assert("value_kind"@[6] == 'k');
    assert("value_json"@[6] == 'j');
}

/// A name that no earlier column has finds its column.
pub(crate) proof fn lemma_column_at(columns: Seq<ColumnView>, col: int)
    requires
        0 <= col < columns.len(),
        forall|c: int| 0 <= c < col ==> (#[trigger] columns[c]).name != columns[col].name,
    ensures
        column_named(columns, columns[col].name) == Some(columns[col]),
    decreases columns.len(),
{
    if col > 0 {
        assert(columns[0].name != columns[col].name);
        let rest = columns.drop_first();
        assert(rest[col - 1] == columns[col]);
        assert forall|c: int| 0 <= c < col - 1 implies (#[trigger] rest[c]).name
            != rest[col - 1].name by {
            assert(columns[c + 1].name != columns[col].name);
        }
        lemma_column_at(rest, col - 1);
    }
}

/// The stored row of an envelope's transaction.
pub open spec fn stored_tx_row(e: EnvelopeView) -> TxRowView {
    TxRowView {
        tx_id: e.tx.tx_id as i64,
        tx_time: Some(encode_utf8(e.tx.tx_time)),
        actor: Some(encode_utf8(e.tx.actor)),
        actor_kind: Some(encode_utf8(actor_kind_name(e.tx.actor_kind))),
        command: Some(encode_utf8(e.tx.command)),
        idempotency_key: Some(encode_utf8(stored_key(e.tx.idempotency_key))),
        metadata_json: Some(encode_utf8(json_text(e.tx.metadata))),
    }
}

/// The stored row of a datom.
pub open spec fn stored_datom_row(d: DatomView) -> DatomRowView {
    DatomRowView {
        tx_id: d.tx as i64,
        entity: Some(encode_utf8(d.entity)),
        attr: Some(encode_utf8(d.attr)),
        value_json: Some(encode_utf8(d.value.json)),
        added: stored_flag(d.added),
    }
}

/// The rows of a stored `tx` table: one for each envelope, with its fields.
pub proof fn law_tx_rows_stored(envelopes: Seq<EnvelopeView>)
    ensures
        tx_rows(tx_table_of(envelopes).columns) == envelopes.map_values(
            |e: EnvelopeView| stored_tx_row(e),
        ),
{
    lemma_names_differ();
    let columns = tx_table_of(envelopes).columns;
    lemma_column_at(columns, 0);
    lemma_column_at(columns, 1);
    lemma_column_at(columns, 2);
    lemma_column_at(columns, 3);
    lemma_column_at(columns, 4);
    lemma_column_at(columns, 5);
    lemma_column_at(columns, 6);
    let stored = envelopes.map_values(|e: EnvelopeView| stored_tx_row(e));
    assert(tx_rows(columns) =~= stored);
}

/// The rows of a stored `datom` table: one for each datom, with its fields.
pub proof fn law_datom_rows_stored(datoms: Seq<DatomView>)
    ensures
        datom_rows(datom_rows_of(datoms).columns) == datoms.map_values(
            |d: DatomView| stored_datom_row(d),
        ),
{
    lemma_names_differ();
    let columns = datom_rows_of(datoms).columns;
    lemma_column_at(columns, 0);
    lemma_column_at(columns, 1);
    lemma_column_at(columns, 2);
    lemma_column_at(columns, 4);
    lemma_column_at(columns, 5);
    let stored = datoms.map_values(|d: DatomView| stored_datom_row(d));
    assert(datom_rows(columns) =~= stored);
}

/// A stored text reads back as itself.
pub proof fn law_text_reads_back(text: Seq<char>, field: Seq<char>)
    ensures
        sym_text(Some(encode_utf8(text)), field) == Ok::<Seq<char>, ErrorView>(text),
{
    encode_utf8_valid_utf8(text);
    encode_utf8_decode_utf8(text);
}

/// The stored name of an actor kind reads back as that kind; so no two kinds
/// share a name.
pub proof fn law_actor_kind_reads_back(kind: ActorKind)
    ensures
        actor_kind_of(actor_kind_name(kind)) == Ok::<ActorKind, ErrorView>(kind),
{
    reveal_strlit("human");
    reveal_strlit("worker");
    reveal_strlit("adapter");
    reveal_strlit("system");
    assert("human"@.len() == 5);
    assert("worker"@.len() == 6);
    assert("adapter"@.len() == 7);
    assert("system"@.len() == 6);
    assert("worker"@[0] == 'w');
    assert("system"@[0] == 's');
}

/// A name reads as an actor kind only if it is the stored name of that kind.
pub proof fn law_actor_kind_names_are_exact(name: Seq<char>)
    ensures
        match actor_kind_of(name) {
            Ok(kind) => name == actor_kind_name(kind),
            Err(err) => err == ErrorView::InvalidActorKind(name) && forall|kind: ActorKind|
                name != #[trigger] actor_kind_name(kind),
        },
{
}

/// A transaction id that fits a signed integer reads back as itself.
pub proof fn law_tx_id_reads_back(tx_id: u64)
    requires
        tx_id <= i64::MAX,
    ensures
        tx_id_of(tx_id as i64) == Ok::<u64, ErrorView>(tx_id),
{
}

/// A transaction id that does not fit a signed integer is stored as a negative
/// number, which reading refuses.
pub proof fn law_large_tx_id_is_refused(tx_id: u64)
    requires
        tx_id > i64::MAX,
    ensures
        tx_id_of(tx_id as i64) == Err::<u64, ErrorView>(ErrorView::InvalidTxId(tx_id as i64)),
{
    assert((tx_id as i64) < 0) by (bit_vector)
        requires
            tx_id > 0x7fff_ffff_ffff_ffffu64,
    ;
}

/// An idempotency key reads back as itself, except that the empty one reads as
/// none.
pub proof fn law_key_reads_back(key: Option<Seq<char>>)
    ensures
        key_of(stored_key(key)) == if key == Some(Seq::<char>::empty()) {
            None
        } else {
            key
        },
{
    if let Some(text) = key {
        if text.len() == 0 {
            assert(text == Seq::<char>::empty());
        }
    }
}

proof fn lemma_tx_row_reads_back(e: EnvelopeView)
    requires
        storable_tx(e.tx),
    ensures
        tx_of_row(stored_tx_row(e)) == Ok::<TxView, ErrorView>(read_back_tx(e.tx)),
{
    law_tx_id_reads_back(e.tx.tx_id);
    law_text_reads_back(actor_kind_name(e.tx.actor_kind), "actor_kind"@);
    law_actor_kind_reads_back(e.tx.actor_kind);
    law_text_reads_back(json_text(e.tx.metadata), "metadata_json"@);
    law_text_reads_back(e.tx.tx_time, "tx_time"@);
    law_text_reads_back(e.tx.actor, "actor"@);
    law_text_reads_back(e.tx.command, "command"@);
    law_text_reads_back(stored_key(e.tx.idempotency_key), "idempotency_key"@);
}

proof fn lemma_datom_row_reads_back(d: DatomView, parse: ValueParser)
    requires
        storable_datom(d, parse),
    ensures
        value_text_of_row(stored_datom_row(d)) == Ok::<Seq<char>, ErrorView>(d.value.json),
        datom_of_row(stored_datom_row(d), parsed_of_row(stored_datom_row(d), parse)) == Ok::<
            DatomView,
            ErrorView,
        >(d),
{
    law_tx_id_reads_back(d.tx);
    law_text_reads_back(d.value.json, "value_json"@);
    law_text_reads_back(d.entity, "entity"@);
    law_text_reads_back(d.attr, "attr"@);
}

proof fn lemma_tx_rows_read_back(envelopes: Seq<EnvelopeView>)
    requires
        forall|i: int| 0 <= i < envelopes.len() ==> storable_tx((#[trigger] envelopes[i]).tx),
    ensures
        txs_of_rows(envelopes.map_values(|e: EnvelopeView| stored_tx_row(e))) == Ok::<
            Seq<TxView>,
            ErrorView,
        >(envelopes.map_values(|e: EnvelopeView| read_back_tx(e.tx))),
    decreases envelopes.len(),
{
    let rows = envelopes.map_values(|e: EnvelopeView| stored_tx_row(e));
    let txs = envelopes.map_values(|e: EnvelopeView| read_back_tx(e.tx));
    if envelopes.len() == 0 {
        assert(txs == Seq::<TxView>::empty());
    } else {
        let rest = envelopes.drop_last();
        lemma_tx_rows_read_back(rest);
        lemma_tx_row_reads_back(envelopes.last());
        assert(rows.drop_last() == rest.map_values(|e: EnvelopeView| stored_tx_row(e)));
        assert(txs == rest.map_values(|e: EnvelopeView| read_back_tx(e.tx)).push(
            read_back_tx(envelopes.last().tx),
        ));
    }
}

proof fn lemma_datom_rows_read_back(datoms: Seq<DatomView>, parse: ValueParser)
    requires
        forall|i: int| 0 <= i < datoms.len() ==> storable_datom(#[trigger] datoms[i], parse),
    ensures
        datoms_of_rows(datoms.map_values(|d: DatomView| stored_datom_row(d)), parse) == Ok::<
            Seq<DatomView>,
            ErrorView,
        >(datoms),
    decreases datoms.len(),
{
    let rows = datoms.map_values(|d: DatomView| stored_datom_row(d));
    if datoms.len() == 0 {
        assert(datoms == Seq::<DatomView>::empty());
    } else {
        let rest = datoms.drop_last();
        lemma_datom_rows_read_back(rest, parse);
        lemma_datom_row_reads_back(datoms.last(), parse);
        assert(rows.drop_last() == rest.map_values(|d: DatomView| stored_datom_row(d)));
        assert(datoms == rest.push(datoms.last()));
    }
}

/// The datoms of a storable log are storable.
proof fn lemma_all_storable(envelopes: Seq<EnvelopeView>, parse: ValueParser)
    requires
        storable(envelopes, parse),
    ensures
        forall|k: int|
            0 <= k < all_datoms(envelopes).len() ==> storable_datom(
                #[trigger] all_datoms(envelopes)[k],
                parse,
            ),
    decreases envelopes.len(),
{
    if envelopes.len() > 0 {
        let rest = envelopes.drop_last();
        assert forall|i: int, j: int|
            0 <= i < rest.len() && 0 <= j < rest[i].datoms.len() implies storable_datom(
            #[trigger] rest[i].datoms[j],
            parse,
        ) by {
            assert(storable_datom(envelopes[i].datoms[j], parse));
        }
        lemma_all_storable(rest, parse);
        let all = all_datoms(envelopes);
        let before = all_datoms(rest);
        assert forall|k: int| 0 <= k < all.len() implies storable_datom(
            #[trigger] all[k],
            parse,
        ) by {
            if k < before.len() {
                assert(all[k] == before[k]);
            } else {
                let j = k - before.len();
                assert(all[k] == envelopes[envelopes.len() - 1].datoms[j]);
            }
        }
    }
}

/// What is read back of what was stored: every transaction, in order, with the
/// datoms that carry its id under the first transaction with that id.
pub proof fn law_stored_log_reads_back(envelopes: Seq<EnvelopeView>, parse: ValueParser)
    requires
        storable(envelopes, parse),
    ensures
        decoded(
            tx_rows(tx_table_of(envelopes).columns),
            datom_rows(datom_table_of(envelopes).columns),
            parse,
        ) == Ok::<Seq<EnvelopeView>, ErrorView>(read_back(envelopes)),
{
    let datoms = all_datoms(envelopes);
    law_tx_rows_stored(envelopes);
    law_datom_rows_stored(datoms);
    lemma_all_storable(envelopes, parse);
    lemma_datom_rows_read_back(datoms, parse);
    lemma_tx_rows_read_back(envelopes);
}

/// Where all datoms carry the id, all stay.
proof fn lemma_all_with_tx(datoms: Seq<DatomView>, tx: u64)
    requires
        forall|k: int| 0 <= k < datoms.len() ==> (#[trigger] datoms[k]).tx == tx,
    ensures
        datoms_with_tx(datoms, tx) == datoms,
    decreases datoms.len(),
{
    reveal(Seq::filter);
    if datoms.len() > 0 {
        lemma_all_with_tx(datoms.drop_last(), tx);
        assert(datoms == datoms.drop_last().push(datoms.last()));
    } else {
        assert(datoms == Seq::<DatomView>::empty());
    }
}

/// Where no datom carries the id, none stays.
proof fn lemma_none_with_tx(datoms: Seq<DatomView>, tx: u64)
    requires
        forall|k: int| 0 <= k < datoms.len() ==> (#[trigger] datoms[k]).tx != tx,
    ensures
        datoms_with_tx(datoms, tx) == Seq::<DatomView>::empty(),
    decreases datoms.len(),
{
    reveal(Seq::filter);
    if datoms.len() > 0 {
        lemma_none_with_tx(datoms.drop_last(), tx);
    } else {
        assert(datoms == Seq::<DatomView>::empty());
    }
}

/// Whatever was filtered out by an id carries it.
proof fn lemma_filtered_carry(datoms: Seq<DatomView>, tx: u64)
    ensures
        forall|k: int|
            0 <= k < datoms_with_tx(datoms, tx).len() ==> (#[trigger] datoms_with_tx(
                datoms,
                tx,
            )[k]).tx == tx,
    decreases datoms.len(),
{
    reveal(Seq::filter);
    if datoms.len() > 0 {
        lemma_filtered_carry(datoms.drop_last(), tx);
    }
}

/// In a log of own ids in which repeats are empty, the datoms that carry an id
/// are those of the first envelope with it, and an id of no envelope has none.
#[verifier::rlimit(30)]
proof fn lemma_datoms_by_id(envelopes: Seq<EnvelopeView>, id: u64)
    requires
        own_ids(envelopes),
        repeats_are_empty(envelopes),
    ensures
        forall|i: int|
            0 <= i < envelopes.len() && (#[trigger] envelopes[i]).tx.tx_id == id && !repeats_id(
                envelopes,
                i,
            ) ==> datoms_with_tx(all_datoms(envelopes), id) == envelopes[i].datoms,
        (forall|i: int| 0 <= i < envelopes.len() ==> (#[trigger] envelopes[i]).tx.tx_id != id)
            ==> datoms_with_tx(all_datoms(envelopes), id) == Seq::<DatomView>::empty(),
    decreases envelopes.len(),
{
    reveal(Seq::filter);
    if envelopes.len() > 0 {
        let rest = envelopes.drop_last();
        let n = envelopes.len() - 1;
        let last = envelopes[n];
        assert forall|i: int, j: int|
            0 <= i < rest.len() && 0 <= j < rest[i].datoms.len() implies (
        #[trigger] rest[i].datoms[j]).tx == rest[i].tx.tx_id by {
            assert(envelopes[i].datoms[j].tx == envelopes[i].tx.tx_id);
        }
        assert forall|i: int| 0 <= i < rest.len() implies #[trigger] repeats_id(rest, i)
            == repeats_id(envelopes, i) by {
            if repeats_id(rest, i) {
                let j = choose|j: int|
                    0 <= j < i && (#[trigger] rest[j]).tx.tx_id == rest[i].tx.tx_id;
                assert(envelopes[j].tx.tx_id == envelopes[i].tx.tx_id);
            }
            if repeats_id(envelopes, i) {
                let j = choose|j: int|
                    0 <= j < i && (#[trigger] envelopes[j]).tx.tx_id == envelopes[i].tx.tx_id;
                assert(rest[j].tx.tx_id == rest[i].tx.tx_id);
            }
        }
        lemma_datoms_by_id(rest, id);
        let pred = |d: DatomView| d.tx == id;
        Seq::filter_distributes_over_add(all_datoms(rest), last.datoms, pred);
        assert(datoms_with_tx(all_datoms(envelopes), id) == datoms_with_tx(all_datoms(rest), id)
            + datoms_with_tx(last.datoms, id));
        assert forall|k: int| 0 <= k < last.datoms.len() implies (#[trigger] last.datoms[k]).tx
            == last.tx.tx_id by {
            assert(envelopes[n].datoms[k].tx == envelopes[n].tx.tx_id);
        }
        if last.tx.tx_id == id {
            lemma_all_with_tx(last.datoms, id);
            if repeats_id(envelopes, n) {
                assert(last.datoms == Seq::<DatomView>::empty());
                assert(datoms_with_tx(all_datoms(envelopes), id) == datoms_with_tx(
                    all_datoms(rest),
                    id,
                ));
            } else {
                assert forall|i: int| 0 <= i < rest.len() implies (#[trigger] rest[i]).tx.tx_id
                    != id by {
                    assert(envelopes[i].tx.tx_id != envelopes[n].tx.tx_id);
                }
                assert(datoms_with_tx(all_datoms(envelopes), id) == last.datoms);
            }
            assert forall|i: int|
                0 <= i < envelopes.len() && (#[trigger] envelopes[i]).tx.tx_id == id
                    && !repeats_id(envelopes, i) implies datoms_with_tx(all_datoms(envelopes), id)
                == envelopes[i].datoms by {
                if i < n {
                    assert(rest[i].tx.tx_id == id);
                    assert(repeats_id(envelopes, n)) by {
                        assert(envelopes[i].tx.tx_id == envelopes[n].tx.tx_id);
                    }
                }
            }
        } else {
            lemma_none_with_tx(last.datoms, id);
            assert(datoms_with_tx(all_datoms(envelopes), id) == datoms_with_tx(
                all_datoms(rest),
                id,
            ));
            assert forall|i: int|
                0 <= i < envelopes.len() && (#[trigger] envelopes[i]).tx.tx_id == id
                    && !repeats_id(envelopes, i) implies datoms_with_tx(all_datoms(envelopes), id)
                == envelopes[i].datoms by {
                assert(rest[i].tx.tx_id == id);
            }
            if forall|i: int|
                0 <= i < envelopes.len() ==> (#[trigger] envelopes[i]).tx.tx_id != id {
                assert forall|i: int| 0 <= i < rest.len() implies (#[trigger] rest[i]).tx.tx_id
                    != id by {
                    assert(envelopes[i].tx.tx_id != id);
                }
            }
        }
    }
}

/// Reading back keeps every id in its place.
proof fn lemma_ids_kept(envelopes: Seq<EnvelopeView>)
    ensures
        read_back(envelopes).len() == envelopes.len(),
        forall|i: int|
            0 <= i < envelopes.len() ==> {
                let txs = envelopes.map_values(|e: EnvelopeView| read_back_tx(e.tx));
                &&& (#[trigger] read_back(envelopes)[i]).tx == read_back_tx(envelopes[i].tx)
                &&& id_seen_before(txs, i) == repeats_id(envelopes, i)
                &&& repeats_id(read_back(envelopes), i) == repeats_id(envelopes, i)
                &&& read_back(envelopes)[i].datoms == if repeats_id(envelopes, i) {
                    Seq::empty()
                } else {
                    datoms_with_tx(all_datoms(envelopes), envelopes[i].tx.tx_id)
                }
            },
{
    let txs = envelopes.map_values(|e: EnvelopeView| read_back_tx(e.tx));
    let back = read_back(envelopes);
    assert forall|i: int| 0 <= i < envelopes.len() implies {
        &&& (#[trigger] back[i]).tx == read_back_tx(envelopes[i].tx)
        &&& id_seen_before(txs, i) == repeats_id(envelopes, i)
        &&& repeats_id(back, i) == repeats_id(envelopes, i)
        &&& back[i].datoms == if repeats_id(envelopes, i) {
            Seq::empty()
        } else {
            datoms_with_tx(all_datoms(envelopes), envelopes[i].tx.tx_id)
        }
    } by {
        if id_seen_before(txs, i) {
            let j = choose|j: int| 0 <= j < i && #[trigger] txs[j].tx_id == txs[i].tx_id;
            assert(envelopes[j].tx.tx_id == envelopes[i].tx.tx_id);
        }
        if repeats_id(envelopes, i) {
            let j = choose|j: int|
                0 <= j < i && (#[trigger] envelopes[j]).tx.tx_id == envelopes[i].tx.tx_id;
            assert(txs[j].tx_id == txs[i].tx_id);
            assert(back[j].tx.tx_id == back[i].tx.tx_id);
        }
        if repeats_id(back, i) {
            let j = choose|j: int| 0 <= j < i && (#[trigger] back[j]).tx.tx_id == back[i].tx.tx_id;
            assert(envelopes[j].tx.tx_id == envelopes[i].tx.tx_id);
        }
    }
}

/// Envelopes put together from transactions and datoms are settled, if no key is
/// empty.
proof fn lemma_grouped_is_settled(txs: Seq<TxView>, datoms: Seq<DatomView>)
    requires
        forall|i: int|
            0 <= i < txs.len() ==> (#[trigger] txs[i]).idempotency_key != Some(
                Seq::<char>::empty(),
            ),
    ensures
        settled(grouped(txs, datoms)),
{
    let log = grouped(txs, datoms);
    assert forall|i: int, j: int| 0 <= i < log.len() && 0 <= j < log[i].datoms.len() implies (
    #[trigger] log[i].datoms[j]).tx == log[i].tx.tx_id by {
        lemma_filtered_carry(datoms, txs[i].tx_id);
    }
    assert forall|i: int| 0 <= i < log.len() && #[trigger] repeats_id(log, i) implies
    log[i].datoms.len() == 0 by {
        let j = choose|j: int| 0 <= j < i && (#[trigger] log[j]).tx.tx_id == log[i].tx.tx_id;
        assert(txs[j].tx_id == txs[i].tx_id);
        assert(id_seen_before(txs, i));
    }
    assert forall|i: int| 0 <= i < log.len() implies (#[trigger] log[i]).tx.idempotency_key != Some(
        Seq::<char>::empty(),
    ) by {
        assert(log[i].tx == txs[i]);
    }
}

/// A transaction that was decoded has an id that fits and no empty key.
proof fn lemma_decoded_txs(rows: Seq<TxRowView>)
    ensures
        txs_of_rows(rows) matches Ok(txs) ==> forall|i: int|
            0 <= i < txs.len() ==> (#[trigger] txs[i]).tx_id <= i64::MAX && txs[i].idempotency_key
                != Some(Seq::<char>::empty()),
    decreases rows.len(),
{
    if rows.len() > 0 {
        lemma_decoded_txs(rows.drop_last());
    }
}

/// Envelopes put together from rows are such as loading gives: each datom lies
/// with the first transaction whose id it carries.
pub proof fn law_assembled_log_is_loadable(rows: Seq<TxRowView>, datoms: Seq<DatomView>)
    ensures
        assembled(rows, datoms) matches Ok(envelopes) ==> loadable(envelopes),
{
    if let Ok(txs) = txs_of_rows(rows) {
        lemma_decoded_txs(rows);
        lemma_grouped_is_settled(txs, datoms);
        let log = grouped(txs, datoms);
        assert forall|i: int| 0 <= i < log.len() implies (#[trigger] log[i]).tx.tx_id
            <= i64::MAX by {
            assert(log[i].tx == txs[i]);
        }
    }
}

/// Whatever rows a log is decoded from, it is settled and its ids fit.
pub proof fn law_decoded_log_is_loadable(
    tx: Seq<TxRowView>,
    datoms: Seq<DatomRowView>,
    parse: ValueParser,
)
    ensures
        decoded(tx, datoms, parse) matches Ok(envelopes) ==> loadable(envelopes),
{
    if let Ok(datoms) = datoms_of_rows(datoms, parse) {
        law_assembled_log_is_loadable(tx, datoms);
    }
}

/// A log such as loading gives survives being stored, if its metadata and its
/// values read back from their JSON texts.
pub proof fn law_loadable_log_is_storable(envelopes: Seq<EnvelopeView>, parse: ValueParser)
    requires
        loadable(envelopes),
        json_reads_back(envelopes, parse),
    ensures
        storable(envelopes, parse),
{
    assert forall|i: int, j: int|
        0 <= i < envelopes.len() && 0 <= j < envelopes[i].datoms.len() implies storable_datom(
        #[trigger] envelopes[i].datoms[j],
        parse,
    ) by {
        assert(envelopes[i].datoms[j].tx == envelopes[i].tx.tx_id);
    }
}

/// Every log that is read back is settled.
pub proof fn law_read_back_is_settled(envelopes: Seq<EnvelopeView>)
    ensures
        settled(read_back(envelopes)),
{
    let txs = envelopes.map_values(|e: EnvelopeView| read_back_tx(e.tx));
    assert forall|i: int| 0 <= i < txs.len() implies (#[trigger] txs[i]).idempotency_key != Some(
        Seq::<char>::empty(),
    ) by {
        law_key_reads_back(envelopes[i].tx.idempotency_key);
    }
    lemma_grouped_is_settled(txs, all_datoms(envelopes));
}

/// A log reads back as itself exactly if it is settled.
pub proof fn law_settled_log_reads_back_unchanged(envelopes: Seq<EnvelopeView>)
    ensures
        read_back(envelopes) == envelopes <==> settled(envelopes),
{
    lemma_ids_kept(envelopes);
    law_read_back_is_settled(envelopes);
    if settled(envelopes) {
        let back = read_back(envelopes);
        assert forall|i: int| 0 <= i < envelopes.len() implies #[trigger] back[i]
            == envelopes[i] by {
            law_key_reads_back(envelopes[i].tx.idempotency_key);
            assert(back[i].tx == envelopes[i].tx);
            lemma_datoms_by_id(envelopes, envelopes[i].tx.tx_id);
            assert(back[i].datoms =~= envelopes[i].datoms);
        }
        assert(back =~= envelopes);
    }
}

/// A log with distinct transaction ids whose datoms carry the ids of their own
/// envelopes is settled, if it has no empty idempotency key.
pub proof fn law_distinct_ids_settle(envelopes: Seq<EnvelopeView>)
    requires
        forall|i: int, j: int|
            0 <= i < j < envelopes.len() ==> (#[trigger] envelopes[i]).tx.tx_id != (
            #[trigger] envelopes[j]).tx.tx_id,
        own_ids(envelopes),
        no_empty_keys(envelopes),
    ensures
        settled(envelopes),
{
}

/// A log that has begun to be written, with metadata whose text is plain, with
/// ids that fit the columns, and with values that the parser reads back, survives
/// being stored.
pub proof fn law_plain_log_is_storable(envelopes: Seq<EnvelopeView>, parse: ValueParser)
    requires
        plain_metadata_reads_back(envelopes),
        forall|i: int|
            0 <= i < envelopes.len() ==> (#[trigger] envelopes[i]).tx.tx_id <= i64::MAX
                && plain_json(json_text(envelopes[i].tx.metadata)),
        forall|i: int, j: int|
            0 <= i < envelopes.len() && 0 <= j < envelopes[i].datoms.len() ==> storable_datom(
                #[trigger] envelopes[i].datoms[j],
                parse,
            ),
    ensures
        storable(envelopes, parse),
{
}

/// A storable, settled log stays so when an envelope is added that is storable,
/// has an id of its own, has only datoms with that id, and has no empty key.
pub proof fn law_append_keeps_log_storable(
    envelopes: Seq<EnvelopeView>,
    envelope: EnvelopeView,
    parse: ValueParser,
)
    requires
        storable(envelopes, parse),
        settled(envelopes),
        storable(seq![envelope], parse),
        settled(seq![envelope]),
        forall|i: int|
            0 <= i < envelopes.len() ==> (#[trigger] envelopes[i]).tx.tx_id != envelope.tx.tx_id,
    ensures
        storable(envelopes.push(envelope), parse),
        settled(envelopes.push(envelope)),
{
    let all = envelopes.push(envelope);
    let n = envelopes.len() as int;
    let one = seq![envelope];
    assert(one[0] == envelope);
    assert forall|i: int| 0 <= i < all.len() implies storable_tx((#[trigger] all[i]).tx) by {
        assert(i < n ==> all[i] == envelopes[i]);
    }
    assert forall|i: int, j: int| 0 <= i < all.len() && 0 <= j < all[i].datoms.len() implies {
        &&& storable_datom(#[trigger] all[i].datoms[j], parse)
        &&& all[i].datoms[j].tx == all[i].tx.tx_id
    } by {
        if i < n {
            assert(all[i].datoms[j] == envelopes[i].datoms[j]);
        } else {
            assert(all[i].datoms[j] == one[0].datoms[j]);
        }
    }
    assert forall|i: int| 0 <= i < all.len() && #[trigger] repeats_id(all, i) implies
    all[i].datoms.len() == 0 by {
        let j = choose|j: int| 0 <= j < i && (#[trigger] all[j]).tx.tx_id == all[i].tx.tx_id;
        assert(all[j] == envelopes[j]);
        if i < n {
            assert(all[i] == envelopes[i]);
            assert(repeats_id(envelopes, i));
        }
    }
    assert forall|i: int| 0 <= i < all.len() implies (#[trigger] all[i]).tx.idempotency_key
        != Some(Seq::<char>::empty()) by {
        assert(i < n ==> all[i] == envelopes[i]);
    }
}

} // verus!
