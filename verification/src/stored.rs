//! What the two tables of a log hold, cell by cell.

use vstd::prelude::*;

use crate::encode::{actor_kind_name, all_datoms, datom_rows_of, datom_table_of, tx_table_of};
use crate::laws::{column_named, lemma_column_at, lemma_names_differ};
use crate::log::{ActorKind, DatomView, EnvelopeView};
use crate::table::ColumnView;
use crate::text::json_text;

verus! {

/// The integers of a column of integers.
pub open spec fn ints_of(column: ColumnView) -> Seq<i64> {
    column.cells->I64_0
}

/// The texts of a column of symbols.
pub open spec fn texts_of(column: ColumnView) -> Seq<Seq<char>> {
    column.cells->Sym_0
}

/// The name under which an actor kind is stored.
pub proof fn law_actor_kinds_are_named()
    ensures
        actor_kind_name(ActorKind::Human) == "human"@,
        actor_kind_name(ActorKind::Worker) == "worker"@,
        actor_kind_name(ActorKind::Adapter) == "adapter"@,
        actor_kind_name(ActorKind::System) == "system"@,
{
}

/// A transaction id is stored in the 64 bits of a signed integer: as itself where
/// it fits, else less by two to the 64th.
pub proof fn law_tx_id_keeps_its_bits(tx_id: u64)
    ensures
        tx_id <= i64::MAX ==> (tx_id as i64) as int == tx_id,
        tx_id > i64::MAX ==> (tx_id as i64) as int == tx_id - 0x1_0000_0000_0000_0000,
{
    assert(tx_id <= 0x7fff_ffff_ffff_ffffu64 ==> (tx_id as i64) as int == tx_id) by (bit_vector);
    assert(tx_id > 0x7fff_ffff_ffff_ffffu64 ==> (tx_id as i64) as int == tx_id
        - 0x1_0000_0000_0000_0000int) by (bit_vector);
}

/// The `tx` table of a log has seven columns, whose `i`th cells are the fields of
/// the `i`th transaction: a key that is missing is stored as the empty text,
/// metadata as its JSON text.
pub proof fn law_tx_table_holds_the_transactions(log: Seq<EnvelopeView>)
    ensures
        ({
            let table = tx_table_of(log);
            let columns = table.columns;
            &&& table.label == "tx"@
            &&& columns.len() == 7
            &&& columns[0].name == "tx_id"@ && columns[0].cells is I64
            &&& columns[1].name == "tx_time"@ && columns[1].cells is Sym
            &&& columns[2].name == "actor"@ && columns[2].cells is Sym
            &&& columns[3].name == "actor_kind"@ && columns[3].cells is Sym
            &&& columns[4].name == "command"@ && columns[4].cells is Sym
            &&& columns[5].name == "idempotency_key"@ && columns[5].cells is Sym
            &&& columns[6].name == "metadata_json"@ && columns[6].cells is Sym
            &&& forall|c: int| 0 <= c < 7 ==> (#[trigger] columns[c]).cells.len() == log.len()
            &&& forall|i: int|
                #![trigger log[i]]
                0 <= i < log.len() ==> {
                    &&& ints_of(columns[0])[i] == log[i].tx.tx_id as i64
                    &&& texts_of(columns[1])[i] == log[i].tx.tx_time
                    &&& texts_of(columns[2])[i] == log[i].tx.actor
                    &&& texts_of(columns[3])[i] == match log[i].tx.actor_kind {
                        ActorKind::Human => "human"@,
                        ActorKind::Worker => "worker"@,
                        ActorKind::Adapter => "adapter"@,
                        ActorKind::System => "system"@,
                    }
                    &&& texts_of(columns[4])[i] == log[i].tx.command
                    &&& match log[i].tx.idempotency_key {
                        Some(key) => texts_of(columns[5])[i] == key,
                        None => texts_of(columns[5])[i].len() == 0,
                    }
                    &&& texts_of(columns[6])[i] == json_text(log[i].tx.metadata)
                }
        }),
{
}

/// A `datom` table has six columns, whose `i`th cells are the fields of the `i`th
/// datom, the kind of its value among them.
pub proof fn law_datom_table_holds_the_datoms(datoms: Seq<DatomView>)
    ensures
        ({
            let table = datom_rows_of(datoms);
            let columns = table.columns;
            &&& table.label == "datom"@
            &&& columns.len() == 6
            &&& columns[0].name == "tx_id"@ && columns[0].cells is I64
            &&& columns[1].name == "entity"@ && columns[1].cells is Sym
            &&& columns[2].name == "attr"@ && columns[2].cells is Sym
            &&& columns[3].name == "value_kind"@ && columns[3].cells is Sym
            &&& columns[4].name == "value_json"@ && columns[4].cells is Sym
            &&& columns[5].name == "added"@ && columns[5].cells is I64
            &&& forall|c: int| 0 <= c < 6 ==> (#[trigger] columns[c]).cells.len() == datoms.len()
            &&& forall|i: int|
                #![trigger datoms[i]]
                0 <= i < datoms.len() ==> {
                    &&& ints_of(columns[0])[i] == datoms[i].tx as i64
                    &&& texts_of(columns[1])[i] == datoms[i].entity
                    &&& texts_of(columns[2])[i] == datoms[i].attr
                    &&& texts_of(columns[3])[i] == datoms[i].value.kind
                    &&& texts_of(columns[4])[i] == datoms[i].value.json
                    &&& ints_of(columns[5])[i] == if datoms[i].added {
                        1int
                    } else {
                        0int
                    }
                }
        }),
{
}

/// Adding an envelope to a log adds its datoms at the end: the log's datoms are
/// those of the first envelope, then those of the next, and so on.
pub proof fn law_datoms_are_in_commit_order(log: Seq<EnvelopeView>, envelope: EnvelopeView)
    ensures
        all_datoms(Seq::empty()).len() == 0,
        all_datoms(log.push(envelope)) == all_datoms(log) + envelope.datoms,
{
    assert(log.push(envelope).drop_last() == log);
}

/// The datoms of two logs, one after the other, are those of the first and then
/// those of the second.
pub proof fn law_datoms_of_logs_follow(first: Seq<EnvelopeView>, second: Seq<EnvelopeView>)
    ensures
        all_datoms(first + second) == all_datoms(first) + all_datoms(second),
    decreases second.len(),
{
    if second.len() == 0 {
        assert(first + second == first);
        assert(all_datoms(first) + all_datoms(second) == all_datoms(first));
    } else {
        let rest = second.drop_last();
        law_datoms_of_logs_follow(first, rest);
        assert((first + second).drop_last() == first + rest);
        assert(all_datoms(first + second) == all_datoms(first) + all_datoms(second));
    }
}

/// Datom `j` of envelope `i` is stored in the row that follows those of the
/// datoms of all earlier envelopes and of the `j` earlier datoms of its own.
pub proof fn law_datom_has_its_row(log: Seq<EnvelopeView>, i: int, j: int)
    requires
        0 <= i < log.len(),
        0 <= j < log[i].datoms.len(),
    ensures
        ({
            let columns = datom_table_of(log).columns;
            let row = all_datoms(log.take(i)).len() + j;
            let datom = log[i].datoms[j];
            &&& row < columns[0].cells.len()
            &&& ints_of(columns[0])[row] == datom.tx as i64
            &&& texts_of(columns[1])[row] == datom.entity
            &&& texts_of(columns[2])[row] == datom.attr
            &&& texts_of(columns[3])[row] == datom.value.kind
            &&& texts_of(columns[4])[row] == datom.value.json
            &&& ints_of(columns[5])[row] == if datom.added {
                1int
            } else {
                0int
            }
        }),
{
    let row = all_datoms(log.take(i)).len() + j;
    let upto = log.take(i + 1);
    law_datoms_of_logs_follow(upto, log.skip(i + 1));
    assert(upto + log.skip(i + 1) == log);
    assert(upto == log.take(i).push(log[i]));
    law_datoms_are_in_commit_order(log.take(i), log[i]);
    assert(all_datoms(log)[row] == log[i].datoms[j]);
    law_datom_table_holds_the_datoms(all_datoms(log));
}

/// The `datom` table of a log with one more envelope has the rows that it had, and
/// then one row for each datom of that envelope, in order. The table of the empty
/// log has no rows.
pub proof fn law_datom_table_grows_at_its_end(log: Seq<EnvelopeView>, envelope: EnvelopeView)
    ensures
        ({
            let before = datom_table_of(log).columns;
            let after = datom_table_of(log.push(envelope)).columns;
            let added = envelope.datoms;
            &&& before.len() == 6 && after.len() == 6
            &&& ints_of(after[0]) == ints_of(before[0]) + added.map_values(
                |d: DatomView| d.tx as i64,
            )
            &&& texts_of(after[1]) == texts_of(before[1]) + added.map_values(
                |d: DatomView| d.entity,
            )
            &&& texts_of(after[2]) == texts_of(before[2]) + added.map_values(|d: DatomView| d.attr)
            &&& texts_of(after[3]) == texts_of(before[3]) + added.map_values(
                |d: DatomView| d.value.kind,
            )
            &&& texts_of(after[4]) == texts_of(before[4]) + added.map_values(
                |d: DatomView| d.value.json,
            )
            &&& ints_of(after[5]) == ints_of(before[5]) + added.map_values(
                |d: DatomView|
                    if d.added {
                        1i64
                    } else {
                        0i64
                    },
            )
        }),
        forall|c: int|
            0 <= c < 6 ==> (#[trigger] datom_table_of(Seq::empty()).columns[c]).cells.len() == 0,
{
    law_datoms_are_in_commit_order(log, envelope);
    let before = datom_table_of(log).columns;
    let after = datom_table_of(log.push(envelope)).columns;
    let added = envelope.datoms;
    law_datom_table_holds_the_datoms(all_datoms(log));
    law_datom_table_holds_the_datoms(all_datoms(log.push(envelope)));
    law_datom_table_holds_the_datoms(all_datoms(Seq::empty()));
    let n = all_datoms(log).len();
    let all = all_datoms(log.push(envelope));
    assert forall|k: int| 0 <= k < all.len() implies all[k] == if k < n {
        all_datoms(log)[k]
    } else {
        added[k - n]
    } by {}
    assert(ints_of(after[0]) =~= ints_of(before[0]) + added.map_values(
        |d: DatomView| d.tx as i64,
    ));
    assert(texts_of(after[1]) =~= texts_of(before[1]) + added.map_values(|d: DatomView| d.entity));
    assert(texts_of(after[2]) =~= texts_of(before[2]) + added.map_values(|d: DatomView| d.attr));
    assert(texts_of(after[3]) =~= texts_of(before[3]) + added.map_values(
        |d: DatomView| d.value.kind,
    ));
    assert(texts_of(after[4]) =~= texts_of(before[4]) + added.map_values(
        |d: DatomView| d.value.json,
    ));
    assert(ints_of(after[5]) =~= ints_of(before[5]) + added.map_values(
        |d: DatomView|
            if d.added {
                1i64
            } else {
                0i64
            },
    ));
}

/// Every column of a stored table is found under its name.
pub proof fn law_stored_columns_are_found(log: Seq<EnvelopeView>, c: int)
    ensures
        0 <= c < 7 ==> column_named(
            tx_table_of(log).columns,
            tx_table_of(log).columns[c].name,
        ) == Some(tx_table_of(log).columns[c]),
        0 <= c < 6 ==> column_named(
            datom_table_of(log).columns,
            datom_table_of(log).columns[c].name,
        ) == Some(datom_table_of(log).columns[c]),
{
    lemma_names_differ();
    if 0 <= c < 7 {
        lemma_column_at(tx_table_of(log).columns, c);
    }
    if 0 <= c < 6 {
        lemma_column_at(datom_table_of(log).columns, c);
    }
}

} // verus!
