//! From envelopes to the two tables that hold them.

use vstd::prelude::*;

use crate::log::{
    datom_views, envelope_views, ActorKind, CommitEnvelope, Datom, DatomView, EnvelopeView,
};
use crate::table::{lemma_map_push, texts, Cells, CellsView, Column, ColumnView, Table, TableView};
use crate::text::{json_parsed, json_text, plain_json, print_json};

verus! {

broadcast use lemma_map_push;

/// The stored name of an actor kind.
pub open spec fn actor_kind_name(kind: ActorKind) -> Seq<char> {
    match kind {
        ActorKind::Human => "human"@,
        ActorKind::Worker => "worker"@,
        ActorKind::Adapter => "adapter"@,
        ActorKind::System => "system"@,
    }
}

/// What is stored for an idempotency key: the empty text stands for none.
pub open spec fn stored_key(key: Option<Seq<char>>) -> Seq<char> {
    match key {
        Some(key) => key,
        None => Seq::empty(),
    }
}

/// What is stored for whether a datom adds.
pub open spec fn stored_flag(added: bool) -> i64 {
    if added {
        1
    } else {
        0
    }
}

/// A column of integers, one for each element of `rows`.
pub open spec fn i64_column<Row>(
    name: Seq<char>,
    rows: Seq<Row>,
    cell: spec_fn(Row) -> i64,
) -> ColumnView {
    ColumnView { name, cells: CellsView::I64(rows.map_values(cell)) }
}

/// A column of symbols, one for each element of `rows`.
pub open spec fn sym_column<Row>(
    name: Seq<char>,
    rows: Seq<Row>,
    cell: spec_fn(Row) -> Seq<char>,
) -> ColumnView {
    ColumnView { name, cells: CellsView::Sym(rows.map_values(cell)) }
}

/// The `tx` table of a log: one row for each envelope, in order.
pub open spec fn tx_table_of(envelopes: Seq<EnvelopeView>) -> TableView {
    TableView {
        label: "tx"@,
        columns: seq![
            i64_column("tx_id"@, envelopes, |e: EnvelopeView| e.tx.tx_id as i64),
            sym_column("tx_time"@, envelopes, |e: EnvelopeView| e.tx.tx_time),
            sym_column("actor"@, envelopes, |e: EnvelopeView| e.tx.actor),
            sym_column(
                "actor_kind"@,
                envelopes,
                |e: EnvelopeView| actor_kind_name(e.tx.actor_kind),
            ),
            sym_column("command"@, envelopes, |e: EnvelopeView| e.tx.command),
            sym_column(
                "idempotency_key"@,
                envelopes,
                |e: EnvelopeView| stored_key(e.tx.idempotency_key),
            ),
            sym_column("metadata_json"@, envelopes, |e: EnvelopeView| json_text(e.tx.metadata)),
        ],
    }
}

/// All datoms of a log: those of the first envelope, then those of the next.
pub open spec fn all_datoms(envelopes: Seq<EnvelopeView>) -> Seq<DatomView>
    decreases envelopes.len(),
{
    if envelopes.len() == 0 {
        Seq::empty()
    } else {
        all_datoms(envelopes.drop_last()) + envelopes.last().datoms
    }
}

/// A `datom` table: one row for each datom, in order.
pub open spec fn datom_rows_of(datoms: Seq<DatomView>) -> TableView {
    TableView {
        label: "datom"@,
        columns: seq![
            i64_column("tx_id"@, datoms, |d: DatomView| d.tx as i64),
            sym_column("entity"@, datoms, |d: DatomView| d.entity),
            sym_column("attr"@, datoms, |d: DatomView| d.attr),
            sym_column("value_kind"@, datoms, |d: DatomView| d.value.kind),
            sym_column("value_json"@, datoms, |d: DatomView| d.value.json),
            i64_column("added"@, datoms, |d: DatomView| stored_flag(d.added)),
        ],
    }
}

/// The `datom` table of a log.
pub open spec fn datom_table_of(envelopes: Seq<EnvelopeView>) -> TableView {
    datom_rows_of(all_datoms(envelopes))
}

/// Whether plain metadata reads back from its JSON text, in every envelope.
pub open spec fn plain_metadata_reads_back(envelopes: Seq<EnvelopeView>) -> bool {
    forall|i: int|
        0 <= i < envelopes.len() ==> {
            let metadata = (#[trigger] envelopes[i]).tx.metadata;
            plain_json(json_text(metadata)) ==> json_parsed(json_text(metadata)) == Ok::<
                serde_json::Value,
                serde_json::Error,
            >(metadata)
        }
}

/// The stored name of an actor kind.
pub fn actor_kind_str(kind: ActorKind) -> (res: &'static str)
    ensures
        res@ == actor_kind_name(kind),
{
    match kind {
        ActorKind::Human => "human",
        ActorKind::Worker => "worker",
        ActorKind::Adapter => "adapter",
        ActorKind::System => "system",
    }
}

/// The JSON text stored for a value, given what serializing it came to: a value
/// that cannot be serialized is stored as `null`.
pub fn value_json(serialized: Result<String, serde_json::Error>) -> (res: String)
    ensures
        match serialized {
            Ok(json) => res@ == json@,
            Err(_) => res@ == "null"@,
        },
{
    match serialized {
        Ok(json) => json,
        Err(_) => "null".to_owned(),
    }
}

/// Lays the envelopes out as the `tx` table.
pub fn tx_table(envelopes: &Vec<CommitEnvelope>) -> (res: Table)
    ensures
        res@ == tx_table_of(envelope_views(envelopes@)),
        plain_metadata_reads_back(envelope_views(envelopes@)),
{
    let ghost views = envelope_views(envelopes@);
    let mut tx_ids: Vec<i64> = Vec::new();
    let mut tx_times: Vec<String> = Vec::new();
    let mut actors: Vec<String> = Vec::new();
    let mut actor_kinds: Vec<String> = Vec::new();
    let mut commands: Vec<String> = Vec::new();
    let mut idempotency: Vec<String> = Vec::new();
    let mut metadata: Vec<String> = Vec::new();
    let mut at: usize = 0;
    while at < envelopes.len()
        invariant
            at <= envelopes.len(),
            views == envelope_views(envelopes@),
            tx_ids@ == views.take(at as int).map_values(|e: EnvelopeView| e.tx.tx_id as i64),
            texts(tx_times@) == views.take(at as int).map_values(|e: EnvelopeView| e.tx.tx_time),
            texts(actors@) == views.take(at as int).map_values(|e: EnvelopeView| e.tx.actor),
            texts(actor_kinds@) == views.take(at as int).map_values(
                |e: EnvelopeView| actor_kind_name(e.tx.actor_kind),
            ),
            texts(commands@) == views.take(at as int).map_values(|e: EnvelopeView| e.tx.command),
            texts(idempotency@) == views.take(at as int).map_values(
                |e: EnvelopeView| stored_key(e.tx.idempotency_key),
            ),
            texts(metadata@) == views.take(at as int).map_values(
                |e: EnvelopeView| json_text(e.tx.metadata),
            ),
            plain_metadata_reads_back(views.take(at as int)),
        decreases envelopes.len() - at,
    {
        let tx = &envelopes[at].tx;
        tx_ids.push(tx.tx_id.0 as i64);
        tx_times.push(tx.tx_time.0.clone());
        actors.push(tx.actor.0.clone());
        actor_kinds.push(actor_kind_str(tx.actor_kind).to_owned());
        commands.push(tx.command.clone());
        idempotency.push(
            match &tx.idempotency_key {
                Some(key) => key.clone(),
                None => String::new(),
            },
        );
        metadata.push(print_json(&tx.metadata));
        at = at + 1;
        assert(views.take(at as int) == views.take(at - 1).push(views[at - 1]));
    }
    assert(views.take(at as int) == views);
    let mut columns: Vec<Column> = Vec::new();
    columns.push(Column { name: "tx_id", cells: Cells::I64(tx_ids) });
    columns.push(Column { name: "tx_time", cells: Cells::Sym(tx_times) });
    columns.push(Column { name: "actor", cells: Cells::Sym(actors) });
    columns.push(Column { name: "actor_kind", cells: Cells::Sym(actor_kinds) });
    columns.push(Column { name: "command", cells: Cells::Sym(commands) });
    columns.push(Column { name: "idempotency_key", cells: Cells::Sym(idempotency) });
    columns.push(Column { name: "metadata_json", cells: Cells::Sym(metadata) });
    let table = Table { label: "tx", columns };
    assert(table@.columns =~= tx_table_of(views).columns);
    table
}

/// The datoms of all envelopes, in order.
fn collect_datoms(envelopes: &Vec<CommitEnvelope>) -> (res: Vec<&Datom>)
    ensures
        res@.map_values(|d: &Datom| d@) == all_datoms(envelope_views(envelopes@)),
{
    let ghost views = envelope_views(envelopes@);
    let mut datoms: Vec<&Datom> = Vec::new();
    let mut at: usize = 0;
    assert(views.take(0) == Seq::<EnvelopeView>::empty());
    while at < envelopes.len()
        invariant
            at <= envelopes.len(),
            views == envelope_views(envelopes@),
            datoms@.map_values(|d: &Datom| d@) == all_datoms(views.take(at as int)),
        decreases envelopes.len() - at,
    {
        let own = &envelopes[at].datoms;
        let ghost before = all_datoms(views.take(at as int));
        let ghost own_views = datom_views(own@);
        let mut row: usize = 0;
        assert(before + own_views.take(0) == before);
        while row < own.len()
            invariant
                row <= own.len(),
                own_views == datom_views(own@),
                datoms@.map_values(|d: &Datom| d@) == before + own_views.take(row as int),
            decreases own.len() - row,
        {
            datoms.push(&own[row]);
            row = row + 1;
            assert(own_views.take(row as int) == own_views.take(row - 1).push(own_views[row - 1]));
            assert(datoms@.map_values(|d: &Datom| d@) == before + own_views.take(row as int));
        }
        assert(own_views.take(row as int) == own_views);
        at = at + 1;
        assert(views.take(at as int).drop_last() == views.take(at - 1));
        assert(views.take(at as int).last() == envelopes@[at - 1]@);
    }
    assert(views.take(at as int) == views);
    datoms
}

/// Lays the datoms of the envelopes out as the `datom` table.
pub fn datom_table(envelopes: &Vec<CommitEnvelope>) -> (res: Table)
    ensures
        res@ == datom_table_of(envelope_views(envelopes@)),
{
    let datoms = collect_datoms(envelopes);
    let ghost views = datoms@.map_values(|d: &Datom| d@);
    let mut tx_ids: Vec<i64> = Vec::new();
    let mut entities: Vec<String> = Vec::new();
    let mut attrs: Vec<String> = Vec::new();
    let mut kinds: Vec<String> = Vec::new();
    let mut values: Vec<String> = Vec::new();
    let mut added: Vec<i64> = Vec::new();
    let mut at: usize = 0;
    while at < datoms.len()
        invariant
            at <= datoms.len(),
            views == datoms@.map_values(|d: &Datom| d@),
            tx_ids@ == views.take(at as int).map_values(|d: DatomView| d.tx as i64),
            texts(entities@) == views.take(at as int).map_values(|d: DatomView| d.entity),
            texts(attrs@) == views.take(at as int).map_values(|d: DatomView| d.attr),
            texts(kinds@) == views.take(at as int).map_values(|d: DatomView| d.value.kind),
            texts(values@) == views.take(at as int).map_values(|d: DatomView| d.value.json),
            added@ == views.take(at as int).map_values(|d: DatomView| stored_flag(d.added)),
        decreases datoms.len() - at,
    {
        let datom = datoms[at];
        tx_ids.push(datom.tx.0 as i64);
        entities.push(datom.entity.0.clone());
        attrs.push(datom.attr.clone());
        kinds.push(datom.value.kind.clone());
        values.push(datom.value.json.clone());
        added.push(
            if datom.added {
                1
            } else {
                0
            },
        );
        at = at + 1;
        assert(views.take(at as int) == views.take(at - 1).push(views[at - 1]));
    }
    assert(views.take(at as int) == views);
    let mut columns: Vec<Column> = Vec::new();
    columns.push(Column { name: "tx_id", cells: Cells::I64(tx_ids) });
    columns.push(Column { name: "entity", cells: Cells::Sym(entities) });
    columns.push(Column { name: "attr", cells: Cells::Sym(attrs) });
    columns.push(Column { name: "value_kind", cells: Cells::Sym(kinds) });
    columns.push(Column { name: "value_json", cells: Cells::Sym(values) });
    columns.push(Column { name: "added", cells: Cells::I64(added) });
    let table = Table { label: "datom", columns };
    assert(table@.columns =~= datom_rows_of(views).columns);
    table
}

} // verus!
