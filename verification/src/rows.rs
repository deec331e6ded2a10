//! What is made of the rows that are read, row by row.

use vstd::prelude::*;
use vstd::utf8::{decode_utf8, valid_utf8};

use crate::decode::{
    actor_kind_of, assembled, datom_of_row, grouped, key_of, metadata_text_of_row, sym_text,
    tx_id_of, tx_of_parsed, tx_of_row, txs_of_rows, value_text_of_row, DatomRowView, TxRowView,
};
use crate::error::ErrorView;
use crate::laws::{datoms_of_rows, decoded, parsed_of_row, ValueParser};
use crate::log::{ActorKind, DatomValueView, DatomView, TxView};
use crate::text::{json_parsed, utf8_failure};

verus! {

/// Whether a symbol cell has a text: it is there and is UTF-8.
pub open spec fn has_text(cell: Option<Seq<u8>>) -> bool {
    cell matches Some(bytes) && valid_utf8(bytes)
}

/// The text of a symbol cell that has one.
pub open spec fn text_in(cell: Option<Seq<u8>>) -> Seq<char> {
    decode_utf8(cell->Some_0)
}

/// Why a symbol cell without a text has none: it is not there, or not UTF-8.
pub open spec fn fault_of(cell: Option<Seq<u8>>, field: Seq<char>) -> ErrorView {
    match cell {
        None => ErrorView::RayforceRead(field),
        Some(bytes) => ErrorView::InvalidUtf8 { field, source: utf8_failure(bytes) },
    }
}

/// Whether a text is the stored name of an actor kind.
pub open spec fn names_kind(name: Seq<char>, kind: ActorKind) -> bool {
    match kind {
        ActorKind::Human => name == "human"@,
        ActorKind::Worker => name == "worker"@,
        ActorKind::Adapter => name == "adapter"@,
        ActorKind::System => name == "system"@,
    }
}

/// Whether a text is the stored name of any actor kind.
pub open spec fn names_a_kind(name: Seq<char>) -> bool {
    name == "human"@ || name == "worker"@ || name == "adapter"@ || name == "system"@
}

/// The four names differ.
proof fn lemma_kind_names_differ()
    ensures
        "human"@ != "worker"@,
        "human"@ != "adapter"@,
        "human"@ != "system"@,
        "worker"@ != "adapter"@,
        "worker"@ != "system"@,
        "adapter"@ != "system"@,
{
    reveal_strlit("human");
    reveal_strlit("worker");
    reveal_strlit("adapter");
    reveal_strlit("system");
    assert("human"@.len() == 5);
    assert("worker"@.len() == 6);
    assert("adapter"@.len() == 7);
    assert("system"@.len() == 6);
    assert("worker"@[0] == 'w');
    assert("system"@[0] == 's');
}

/// A symbol cell reads as its text if it has one, and else fails for its fault.
pub proof fn law_cell_reads_as_its_text(cell: Option<Seq<u8>>, field: Seq<char>)
    ensures
        has_text(cell) ==> sym_text(cell, field) == Ok::<Seq<char>, ErrorView>(text_in(cell)),
        !has_text(cell) ==> sym_text(cell, field) == Err::<Seq<char>, ErrorView>(
            fault_of(cell, field),
        ),
{
}

/// A stored integer is a transaction id exactly if it is not negative.
pub proof fn law_stored_id_is_not_negative(stored: i64)
    ensures
        stored >= 0 ==> (tx_id_of(stored) matches Ok(id) && id == stored),
        stored < 0 ==> tx_id_of(stored) == Err::<u64, ErrorView>(ErrorView::InvalidTxId(stored)),
{
}

/// A text is read as the actor kind that it names, and refused if it names none.
pub proof fn law_kind_is_read_by_its_name(name: Seq<char>, kind: ActorKind)
    ensures
        actor_kind_of(name) == Ok::<ActorKind, ErrorView>(kind) <==> names_kind(name, kind),
        !names_a_kind(name) ==> actor_kind_of(name) == Err::<ActorKind, ErrorView>(
            ErrorView::InvalidActorKind(name),
        ),
{
    lemma_kind_names_differ();
}

/// A stored key is that key, or none if it is the empty text.
pub proof fn law_stored_key_is_read(stored: Seq<char>)
    ensures
        stored.len() == 0 ==> key_of(stored) is None,
        stored.len() > 0 ==> key_of(stored) == Some(stored),
{
}

/// A `tx` row is read as a transaction exactly if its id is not negative, its
/// cells have texts, its actor kind is one, and its metadata was parsed; and then
/// each field of the transaction is that of the row.
pub proof fn law_tx_row_is_read(
    row: TxRowView,
    parsed: Result<serde_json::Value, serde_json::Error>,
    tx: TxView,
)
    ensures
        tx_of_parsed(row, parsed) == Ok::<TxView, ErrorView>(tx) <==> {
            &&& row.tx_id >= 0
            &&& has_text(row.tx_time)
            &&& has_text(row.actor)
            &&& has_text(row.actor_kind)
            &&& has_text(row.command)
            &&& has_text(row.idempotency_key)
            &&& has_text(row.metadata_json)
            &&& tx.tx_id == row.tx_id
            &&& tx.tx_time == text_in(row.tx_time)
            &&& tx.actor == text_in(row.actor)
            &&& names_kind(text_in(row.actor_kind), tx.actor_kind)
            &&& tx.command == text_in(row.command)
            &&& tx.idempotency_key == if text_in(row.idempotency_key).len() == 0 {
                None
            } else {
                Some(text_in(row.idempotency_key))
            }
            &&& parsed == Ok::<serde_json::Value, serde_json::Error>(tx.metadata)
        },
{
    lemma_kind_names_differ();
}

/// A `tx` row that is not read fails for the first of its faults, in the order id,
/// actor kind, metadata, time, actor, command, key.
pub proof fn law_tx_row_fails_for_its_first_fault(
    row: TxRowView,
    parsed: Result<serde_json::Value, serde_json::Error>,
    err: ErrorView,
)
    ensures
        tx_of_parsed(row, parsed) == Err::<TxView, ErrorView>(err) <==> if row.tx_id < 0 {
            err == ErrorView::InvalidTxId(row.tx_id)
        } else if !has_text(row.actor_kind) {
            err == fault_of(row.actor_kind, "actor_kind"@)
        } else if !names_a_kind(text_in(row.actor_kind)) {
            err == ErrorView::InvalidActorKind(text_in(row.actor_kind))
        } else if !has_text(row.metadata_json) {
            err == fault_of(row.metadata_json, "metadata_json"@)
        } else if parsed is Err {
            err == (ErrorView::InvalidJson { field: "metadata_json"@, source: parsed->Err_0 })
        } else if !has_text(row.tx_time) {
            err == fault_of(row.tx_time, "tx_time"@)
        } else if !has_text(row.actor) {
            err == fault_of(row.actor, "actor"@)
        } else if !has_text(row.command) {
            err == fault_of(row.command, "command"@)
        } else if !has_text(row.idempotency_key) {
            err == fault_of(row.idempotency_key, "idempotency_key"@)
        } else {
            false
        },
{
    lemma_kind_names_differ();
}

/// The text that is handed to the parser for a `tx` row is that of its metadata,
/// unless the row has an earlier fault; and the row is read with what the parser
/// makes of it.
pub proof fn law_tx_row_is_parsed(row: TxRowView)
    ensures
        metadata_text_of_row(row) == if row.tx_id < 0 {
            Err(ErrorView::InvalidTxId(row.tx_id))
        } else if !has_text(row.actor_kind) {
            Err(fault_of(row.actor_kind, "actor_kind"@))
        } else if !names_a_kind(text_in(row.actor_kind)) {
            Err(ErrorView::InvalidActorKind(text_in(row.actor_kind)))
        } else if !has_text(row.metadata_json) {
            Err(fault_of(row.metadata_json, "metadata_json"@))
        } else {
            Ok(text_in(row.metadata_json))
        },
        tx_of_row(row) == tx_of_parsed(row, json_parsed(text_in(row.metadata_json))),
{
    lemma_kind_names_differ();
}

/// A `datom` row is read as a datom exactly if its id is not negative, its cells
/// have texts, and its value was parsed; and then each field of the datom is that
/// of the row. Every flag but zero means that the datom adds.
pub proof fn law_datom_row_is_read(
    row: DatomRowView,
    parsed: Result<DatomValueView, serde_json::Error>,
    datom: DatomView,
)
    ensures
        datom_of_row(row, parsed) == Ok::<DatomView, ErrorView>(datom) <==> {
            &&& row.tx_id >= 0
            &&& has_text(row.entity)
            &&& has_text(row.attr)
            &&& has_text(row.value_json)
            &&& datom.tx == row.tx_id
            &&& datom.entity == text_in(row.entity)
            &&& datom.attr == text_in(row.attr)
            &&& parsed == Ok::<DatomValueView, serde_json::Error>(datom.value)
            &&& datom.added == (row.added != 0)
        },
{
}

/// A `datom` row that is not read fails for the first of its faults, in the order
/// id, value, entity, attribute; the text that is handed to the parser is that of
/// its value.
pub proof fn law_datom_row_fails_for_its_first_fault(
    row: DatomRowView,
    parsed: Result<DatomValueView, serde_json::Error>,
    err: ErrorView,
)
    ensures
        datom_of_row(row, parsed) == Err::<DatomView, ErrorView>(err) <==> if row.tx_id < 0 {
            err == ErrorView::InvalidTxId(row.tx_id)
        } else if !has_text(row.value_json) {
            err == fault_of(row.value_json, "value_json"@)
        } else if parsed is Err {
            err == (ErrorView::InvalidJson { field: "value_json"@, source: parsed->Err_0 })
        } else if !has_text(row.entity) {
            err == fault_of(row.entity, "entity"@)
        } else if !has_text(row.attr) {
            err == fault_of(row.attr, "attr"@)
        } else {
            false
        },
        value_text_of_row(row) == if row.tx_id < 0 {
            Err(ErrorView::InvalidTxId(row.tx_id))
        } else if !has_text(row.value_json) {
            Err(fault_of(row.value_json, "value_json"@))
        } else {
            Ok(text_in(row.value_json))
        },
{
}

/// The transactions of rows are one for each row, in order; and if a row fails, so
/// do they, for the failure of the first row that does.
pub proof fn law_tx_rows_are_read_in_order(rows: Seq<TxRowView>)
    ensures
        match txs_of_rows(rows) {
            Ok(txs) => txs.len() == rows.len() && forall|i: int|
                0 <= i < rows.len() ==> tx_of_row(#[trigger] rows[i]) == Ok::<TxView, ErrorView>(
                    txs[i],
                ),
            Err(err) => exists|i: int|
                0 <= i < rows.len() && tx_of_row(#[trigger] rows[i]) == Err::<TxView, ErrorView>(
                    err,
                ) && forall|j: int| 0 <= j < i ==> tx_of_row(#[trigger] rows[j]) is Ok,
        },
    decreases rows.len(),
{
    if rows.len() > 0 {
        let rest = rows.drop_last();
        let n = rest.len() as int;
        law_tx_rows_are_read_in_order(rest);
        match txs_of_rows(rest) {
            Err(err) => {
                let i = choose|i: int|
                    0 <= i < rest.len() && tx_of_row(#[trigger] rest[i]) == Err::<
                        TxView,
                        ErrorView,
                    >(err) && forall|j: int| 0 <= j < i ==> tx_of_row(#[trigger] rest[j]) is Ok;
                assert(rows[i] == rest[i]);
                assert forall|j: int| 0 <= j < i implies tx_of_row(#[trigger] rows[j]) is Ok by {
                    assert(rows[j] == rest[j]);
                }
            },
            Ok(txs) => {
                assert forall|j: int| 0 <= j < n implies tx_of_row(#[trigger] rows[j]) == Ok::<
                    TxView,
                    ErrorView,
                >(txs[j]) by {
                    assert(rows[j] == rest[j]);
                }
                assert(rows[n] == rows.last());
            },
        }
    }
}

/// The datoms of rows are one for each row, in order; and if a row fails, so do
/// they, for the failure of the first row that does.
pub proof fn law_datom_rows_are_read_in_order(rows: Seq<DatomRowView>, parse: ValueParser)
    ensures
        match datoms_of_rows(rows, parse) {
            Ok(datoms) => datoms.len() == rows.len() && forall|i: int|
                0 <= i < rows.len() ==> datom_of_row(
                    #[trigger] rows[i],
                    parse(text_in(rows[i].value_json)),
                ) == Ok::<DatomView, ErrorView>(datoms[i]),
            Err(err) => exists|i: int|
                0 <= i < rows.len() && datom_of_row(
                    #[trigger] rows[i],
                    parse(text_in(rows[i].value_json)),
                ) == Err::<DatomView, ErrorView>(err) && forall|j: int|
                    0 <= j < i ==> datom_of_row(
                        #[trigger] rows[j],
                        parse(text_in(rows[j].value_json)),
                    ) is Ok,
        },
    decreases rows.len(),
{
    assert forall|row: DatomRowView| #[trigger]
        datom_of_row(row, parsed_of_row(row, parse)) == datom_of_row(
            row,
            parse(text_in(row.value_json)),
        ) by {}
    if rows.len() > 0 {
        let rest = rows.drop_last();
        let n = rest.len() as int;
        law_datom_rows_are_read_in_order(rest, parse);
        assert(rows[n] == rows.last());
        match datoms_of_rows(rest, parse) {
            Err(err) => {
                let i = choose|i: int|
                    0 <= i < rest.len() && datom_of_row(
                        #[trigger] rest[i],
                        parse(text_in(rest[i].value_json)),
                    ) == Err::<DatomView, ErrorView>(err) && forall|j: int|
                        0 <= j < i ==> datom_of_row(
                            #[trigger] rest[j],
                            parse(text_in(rest[j].value_json)),
                        ) is Ok;
                assert(rows[i] == rest[i]);
                assert forall|j: int| 0 <= j < i implies datom_of_row(
                    #[trigger] rows[j],
                    parse(text_in(rows[j].value_json)),
                ) is Ok by {
                    assert(rows[j] == rest[j]);
                }
            },
            Ok(datoms) => {
                assert forall|j: int| 0 <= j < n implies datom_of_row(
                    #[trigger] rows[j],
                    parse(text_in(rows[j].value_json)),
                ) == Ok::<DatomView, ErrorView>(datoms[j]) by {
                    assert(rows[j] == rest[j]);
                }
            },
        }
    }
}

/// Putting a log together gives one envelope for each transaction, in order. The
/// first transaction with an id has the datoms that carry it, all of them and in
/// their order; any later one has none.
pub proof fn law_datoms_go_to_their_transaction(
    txs: Seq<TxView>,
    datoms: Seq<DatomView>,
    i: int,
)
    requires
        0 <= i < txs.len(),
    ensures
        grouped(txs, datoms).len() == txs.len(),
        grouped(txs, datoms)[i].tx == txs[i],
        (forall|j: int| 0 <= j < i ==> (#[trigger] txs[j]).tx_id != txs[i].tx_id) ==> grouped(
            txs,
            datoms,
        )[i].datoms == datoms.filter(|d: DatomView| d.tx == txs[i].tx_id),
        (exists|j: int| 0 <= j < i && (#[trigger] txs[j]).tx_id == txs[i].tx_id) ==> grouped(
            txs,
            datoms,
        )[i].datoms.len() == 0,
{
    if exists|j: int| 0 <= j < i && (#[trigger] txs[j]).tx_id == txs[i].tx_id {
        let j = choose|j: int| 0 <= j < i && (#[trigger] txs[j]).tx_id == txs[i].tx_id;
        assert(txs[j].tx_id == txs[i].tx_id);
    }
}

/// One more datom goes to the end of the datoms of the first transaction with its
/// id, and changes nothing else; without such a transaction it changes nothing.
pub proof fn law_one_more_datom(txs: Seq<TxView>, datoms: Seq<DatomView>, datom: DatomView, i: int)
    requires
        0 <= i < txs.len(),
    ensures
        grouped(txs, datoms.push(datom))[i].tx == grouped(txs, datoms)[i].tx,
        grouped(txs, datoms.push(datom))[i].datoms == if txs[i].tx_id == datom.tx && forall|j: int|
            0 <= j < i ==> (#[trigger] txs[j]).tx_id != txs[i].tx_id {
            grouped(txs, datoms)[i].datoms.push(datom)
        } else {
            grouped(txs, datoms)[i].datoms
        },
{
    law_datoms_go_to_their_transaction(txs, datoms, i);
    law_datoms_go_to_their_transaction(txs, datoms.push(datom), i);
    reveal(Seq::filter);
    assert(datoms.push(datom).drop_last() == datoms);
    if !(forall|j: int| 0 <= j < i ==> (#[trigger] txs[j]).tx_id != txs[i].tx_id) {
        assert(grouped(txs, datoms.push(datom))[i].datoms =~= grouped(txs, datoms)[i].datoms);
    }
}

/// A log is put together from `tx` rows and datoms exactly if every row is read as
/// a transaction, and then from these transactions and those datoms.
pub proof fn law_rows_and_datoms_make_a_log(rows: Seq<TxRowView>, datoms: Seq<DatomView>)
    ensures
        match assembled(rows, datoms) {
            Ok(log) => txs_of_rows(rows) matches Ok(txs) && log == grouped(txs, datoms),
            Err(err) => txs_of_rows(rows) == Err::<Seq<TxView>, ErrorView>(err),
        },
{
}

/// A log is decoded exactly if all rows are read: the `datom` rows, and then the
/// `tx` rows. If rows of both tables fail, the failure is that of a `datom` row.
pub proof fn law_log_is_decoded(
    tx: Seq<TxRowView>,
    datom_rows: Seq<DatomRowView>,
    parse: ValueParser,
)
    ensures
        match decoded(tx, datom_rows, parse) {
            Ok(log) => {
                &&& log.len() == tx.len()
                &&& forall|i: int|
                    0 <= i < tx.len() ==> tx_of_row(#[trigger] tx[i]) == Ok::<TxView, ErrorView>(
                        log[i].tx,
                    )
                &&& datoms_of_rows(datom_rows, parse) matches Ok(datoms) && txs_of_rows(
                    tx,
                ) matches Ok(txs) && log == grouped(txs, datoms)
            },
            Err(err) => {
                ||| datoms_of_rows(datom_rows, parse) == Err::<Seq<DatomView>, ErrorView>(err)
                ||| datoms_of_rows(datom_rows, parse) is Ok && txs_of_rows(tx) == Err::<
                    Seq<TxView>,
                    ErrorView,
                >(err)
            },
        },
{
    law_tx_rows_are_read_in_order(tx);
}

} // verus!
