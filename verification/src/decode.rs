//! From the raw rows of the two tables back to envelopes.

use std::collections::BTreeMap;
use vstd::prelude::*;
use vstd::utf8::{decode_utf8, valid_utf8};

use crate::encode::{actor_kind_name, actor_kind_str};
use crate::error::{ErrorView, RayforceAdapterError};
use crate::log::{
    datom_views, envelope_views, ActorKind, CommitEnvelope, Datom, DatomValue, DatomValueView,
    DatomView, EntityId, EnvelopeView, PrincipalId, Tx, TxId, TxTime, TxView,
};
use crate::table::lemma_map_push;
use crate::text::{json_parsed, parse_json, utf8_failure};

verus! {

/// A cell of a symbol column, as the store gives it: the bytes of the symbol,
/// or nothing where the store has no string object for it.
#[derive(Debug)]
pub enum SymCell {
    Unreadable,
    Bytes(Vec<u8>),
}

/// A row of the `tx` table.
#[derive(Debug)]
pub struct TxRow {
    pub tx_id: i64,
    pub tx_time: SymCell,
    pub actor: SymCell,
    pub actor_kind: SymCell,
    pub command: SymCell,
    pub idempotency_key: SymCell,
    pub metadata_json: SymCell,
}

/// A row of the `datom` table, as far as it is read.
#[derive(Debug)]
pub struct DatomRow {
    pub tx_id: i64,
    pub entity: SymCell,
    pub attr: SymCell,
    pub value_json: SymCell,
    pub added: i64,
}

/// A `TxRow` with its cells as sequences.
#[verifier::ext_equal]
pub struct TxRowView {
    pub tx_id: i64,
    pub tx_time: Option<Seq<u8>>,
    pub actor: Option<Seq<u8>>,
    pub actor_kind: Option<Seq<u8>>,
    pub command: Option<Seq<u8>>,
    pub idempotency_key: Option<Seq<u8>>,
    pub metadata_json: Option<Seq<u8>>,
}

/// A `DatomRow` with its cells as sequences.
#[verifier::ext_equal]
pub struct DatomRowView {
    pub tx_id: i64,
    pub entity: Option<Seq<u8>>,
    pub attr: Option<Seq<u8>>,
    pub value_json: Option<Seq<u8>>,
    pub added: i64,
}

impl View for SymCell {
    type V = Option<Seq<u8>>;

    open spec fn view(&self) -> Option<Seq<u8>> {
        match *self {
            SymCell::Unreadable => None,
            SymCell::Bytes(bytes) => Some(bytes@),
        }
    }
}

impl View for TxRow {
    type V = TxRowView;

    open spec fn view(&self) -> TxRowView {
        TxRowView {
            tx_id: self.tx_id,
            tx_time: self.tx_time@,
            actor: self.actor@,
            actor_kind: self.actor_kind@,
            command: self.command@,
            idempotency_key: self.idempotency_key@,
            metadata_json: self.metadata_json@,
        }
    }
}

impl View for DatomRow {
    type V = DatomRowView;

    open spec fn view(&self) -> DatomRowView {
        DatomRowView {
            tx_id: self.tx_id,
            entity: self.entity@,
            attr: self.attr@,
            value_json: self.value_json@,
            added: self.added,
        }
    }
}

/// The `tx` rows of a sequence, each by its view.
pub open spec fn tx_row_views(rows: Seq<TxRow>) -> Seq<TxRowView> {
    rows.map_values(|r: TxRow| r@)
}

/// The `datom` rows of a sequence, each by its view.
pub open spec fn datom_row_views(rows: Seq<DatomRow>) -> Seq<DatomRowView> {
    rows.map_values(|r: DatomRow| r@)
}

/// The text of a symbol cell.
pub open spec fn sym_text(cell: Option<Seq<u8>>, field: Seq<char>) -> Result<Seq<char>, ErrorView> {
    match cell {
        None => Err(ErrorView::RayforceRead(field)),
        Some(bytes) => if valid_utf8(bytes) {
            Ok(decode_utf8(bytes))
        } else {
            Err(ErrorView::InvalidUtf8 { field, source: utf8_failure(bytes) })
        },
    }
}

/// The transaction id that a stored integer stands for.
pub open spec fn tx_id_of(stored: i64) -> Result<u64, ErrorView> {
    if stored < 0 {
        Err(ErrorView::InvalidTxId(stored))
    } else {
        Ok(stored as u64)
    }
}

/// The actor kind of that stored name.
pub open spec fn actor_kind_of(name: Seq<char>) -> Result<ActorKind, ErrorView> {
    if name == actor_kind_name(ActorKind::Human) {
        Ok(ActorKind::Human)
    } else if name == actor_kind_name(ActorKind::Worker) {
        Ok(ActorKind::Worker)
    } else if name == actor_kind_name(ActorKind::Adapter) {
        Ok(ActorKind::Adapter)
    } else if name == actor_kind_name(ActorKind::System) {
        Ok(ActorKind::System)
    } else {
        Err(ErrorView::InvalidActorKind(name))
    }
}

/// The idempotency key that a stored text stands for.
pub open spec fn key_of(stored: Seq<char>) -> Option<Seq<char>> {
    if stored.len() == 0 {
        None
    } else {
        Some(stored)
    }
}

/// The actor kind of a `tx` row.
pub open spec fn row_actor_kind(cell: Option<Seq<u8>>) -> Result<ActorKind, ErrorView> {
    match sym_text(cell, "actor_kind"@) {
        Err(err) => Err(err),
        Ok(name) => actor_kind_of(name),
    }
}

/// The JSON text of a `tx` row's metadata, or the first failure among its id, actor
/// kind and that text, in that order.
pub open spec fn metadata_text_of_row(row: TxRowView) -> Result<Seq<char>, ErrorView> {
    match (tx_id_of(row.tx_id), row_actor_kind(row.actor_kind)) {
        (Err(err), _) => Err(err),
        (_, Err(err)) => Err(err),
        (Ok(_), Ok(_)) => sym_text(row.metadata_json, "metadata_json"@),
    }
}

/// The transaction that a `tx` row holds once its metadata has been parsed, or the
/// first failure among its id, actor kind, metadata, time, actor, command and
/// idempotency key, in that order.
pub open spec fn tx_of_parsed(
    row: TxRowView,
    parsed: Result<serde_json::Value, serde_json::Error>,
) -> Result<TxView, ErrorView> {
    match (
        tx_id_of(row.tx_id),
        row_actor_kind(row.actor_kind),
        sym_text(row.metadata_json, "metadata_json"@),
        parsed,
    ) {
        (Err(err), _, _, _) => Err(err),
        (_, Err(err), _, _) => Err(err),
        (_, _, Err(err), _) => Err(err),
        (_, _, _, Err(source)) => Err(ErrorView::InvalidJson { field: "metadata_json"@, source }),
        (Ok(tx_id), Ok(actor_kind), Ok(_), Ok(metadata)) => match (
            sym_text(row.tx_time, "tx_time"@),
            sym_text(row.actor, "actor"@),
            sym_text(row.command, "command"@),
            sym_text(row.idempotency_key, "idempotency_key"@),
        ) {
            (Err(err), _, _, _) => Err(err),
            (_, Err(err), _, _) => Err(err),
            (_, _, Err(err), _) => Err(err),
            (_, _, _, Err(err)) => Err(err),
            (Ok(tx_time), Ok(actor), Ok(command), Ok(key)) => Ok(
                TxView {
                    tx_id,
                    tx_time,
                    actor,
                    actor_kind,
                    command,
                    idempotency_key: key_of(key),
                    metadata,
                },
            ),
        },
    }
}

/// The transaction that a `tx` row holds, or its first failure.
pub open spec fn tx_of_row(row: TxRowView) -> Result<TxView, ErrorView> {
    match metadata_text_of_row(row) {
        Err(err) => Err(err),
        Ok(json) => tx_of_parsed(row, json_parsed(json)),
    }
}

/// The JSON text of a `datom` row's value, or the failure of its id or of that
/// text.
pub open spec fn value_text_of_row(row: DatomRowView) -> Result<Seq<char>, ErrorView> {
    match tx_id_of(row.tx_id) {
        Err(err) => Err(err),
        Ok(_) => sym_text(row.value_json, "value_json"@),
    }
}

/// The datom that a `datom` row holds once its value has been parsed, or the
/// first failure among its id, the value, entity and attribute, in that order.
pub open spec fn datom_of_row(
    row: DatomRowView,
    parsed: Result<DatomValueView, serde_json::Error>,
) -> Result<DatomView, ErrorView> {
    match (tx_id_of(row.tx_id), sym_text(row.value_json, "value_json"@), parsed) {
        (Err(err), _, _) => Err(err),
        (_, Err(err), _) => Err(err),
        (_, _, Err(source)) => Err(ErrorView::InvalidJson { field: "value_json"@, source }),
        (Ok(tx), Ok(_), Ok(value)) => match (
            sym_text(row.entity, "entity"@),
            sym_text(row.attr, "attr"@),
        ) {
            (Err(err), _) => Err(err),
            (_, Err(err)) => Err(err),
            (Ok(entity), Ok(attr)) => Ok(
                DatomView { entity, attr, value, tx, added: row.added != 0 },
            ),
        },
    }
}

/// The transactions of all rows, or the failure of the first row that has one.
pub open spec fn txs_of_rows(rows: Seq<TxRowView>) -> Result<Seq<TxView>, ErrorView>
    decreases rows.len(),
{
    if rows.len() == 0 {
        Ok(Seq::empty())
    } else {
        match txs_of_rows(rows.drop_last()) {
            Err(err) => Err(err),
            Ok(txs) => match tx_of_row(rows.last()) {
                Err(err) => Err(err),
                Ok(tx) => Ok(txs.push(tx)),
            },
        }
    }
}

/// Those of `datoms` that carry the transaction id `tx`, in order.
pub open spec fn datoms_with_tx(datoms: Seq<DatomView>, tx: u64) -> Seq<DatomView> {
    datoms.filter(|d: DatomView| d.tx == tx)
}

/// Whether an earlier transaction than the `i`th has its id.
pub open spec fn id_seen_before(txs: Seq<TxView>, i: int) -> bool {
    exists|j: int| 0 <= j < i && #[trigger] txs[j].tx_id == txs[i].tx_id
}

/// The envelopes of a log with those transactions and those datoms: the first
/// transaction with an id gets all datoms that carry it, any later one none.
pub open spec fn grouped(txs: Seq<TxView>, datoms: Seq<DatomView>) -> Seq<EnvelopeView> {
    Seq::new(
        txs.len(),
        |i: int|
            EnvelopeView {
                tx: txs[i],
                datoms: if id_seen_before(txs, i) {
                    Seq::empty()
                } else {
                    datoms_with_tx(datoms, txs[i].tx_id)
                },
            },
    )
}

/// The envelopes that `tx` rows and decoded datoms make up.
pub open spec fn assembled(rows: Seq<TxRowView>, datoms: Seq<DatomView>) -> Result<
    Seq<EnvelopeView>,
    ErrorView,
> {
    match txs_of_rows(rows) {
        Err(err) => Err(err),
        Ok(txs) => Ok(grouped(txs, datoms)),
    }
}

/// The view of a result whose error is the library's own.
pub open spec fn text_result(res: Result<String, RayforceAdapterError>) -> Result<
    Seq<char>,
    ErrorView,
> {
    match res {
        Ok(text) => Ok(text@),
        Err(err) => Err(err@),
    }
}

/// The text of a symbol cell, or why it has none.
pub fn sym_to_string(cell: &SymCell, field: &'static str) -> (res: Result<
    String,
    RayforceAdapterError,
>)
    ensures
        text_result(res) == sym_text(cell@, field@),
{
    match cell {
        SymCell::Unreadable => Err(RayforceAdapterError::RayforceRead(field)),
        SymCell::Bytes(bytes) => match String::from_utf8(bytes.clone()) {
            Ok(text) => Ok(text),
            Err(source) => Err(RayforceAdapterError::InvalidUtf8 { field, source }),
        },
    }
}

/// The transaction id that a stored integer stands for.
pub fn to_tx_id(stored: i64) -> (res: Result<TxId, RayforceAdapterError>)
    ensures
        match res {
            Ok(id) => tx_id_of(stored) == Ok::<u64, ErrorView>(id.0),
            Err(err) => tx_id_of(stored) == Err::<u64, ErrorView>(err@),
        },
{
    if stored < 0 {
        return Err(RayforceAdapterError::InvalidTxId(stored));
    }
    Ok(TxId(stored as u64))
}

/// The actor kind of that stored name.
pub fn parse_actor_kind(value: String) -> (res: Result<ActorKind, RayforceAdapterError>)
    ensures
        match res {
            Ok(kind) => actor_kind_of(value@) == Ok::<ActorKind, ErrorView>(kind),
            Err(err) => actor_kind_of(value@) == Err::<ActorKind, ErrorView>(err@),
        },
{
    if value == actor_kind_str(ActorKind::Human).to_owned() {
        Ok(ActorKind::Human)
    } else if value == actor_kind_str(ActorKind::Worker).to_owned() {
        Ok(ActorKind::Worker)
    } else if value == actor_kind_str(ActorKind::Adapter).to_owned() {
        Ok(ActorKind::Adapter)
    } else if value == actor_kind_str(ActorKind::System).to_owned() {
        Ok(ActorKind::System)
    } else {
        Err(RayforceAdapterError::InvalidActorKind(value))
    }
}

/// The JSON text of a `tx` row's metadata, for a parser to read.
pub fn tx_metadata_text(row: &TxRow) -> (res: Result<String, RayforceAdapterError>)
    ensures
        text_result(res) == metadata_text_of_row(row@),
{
    let _tx_id = to_tx_id(row.tx_id)?;
    let _actor_kind = parse_actor_kind(sym_to_string(&row.actor_kind, "actor_kind")?)?;
    sym_to_string(&row.metadata_json, "metadata_json")
}

/// Reads the transaction out of a `tx` row whose metadata text was parsed to
/// `parsed`.
pub fn decode_tx_parsed(
    row: &TxRow,
    parsed: Result<serde_json::Value, serde_json::Error>,
) -> (res: Result<Tx, RayforceAdapterError>)
    ensures
        match res {
            Ok(tx) => tx_of_parsed(row@, parsed) == Ok::<TxView, ErrorView>(tx@),
            Err(err) => tx_of_parsed(row@, parsed) == Err::<TxView, ErrorView>(err@),
        },
{
    let tx_id = to_tx_id(row.tx_id)?;
    let actor_kind = parse_actor_kind(sym_to_string(&row.actor_kind, "actor_kind")?)?;
    let _json = sym_to_string(&row.metadata_json, "metadata_json")?;
    let metadata = match parsed {
        Ok(metadata) => metadata,
        Err(source) => {
            return Err(RayforceAdapterError::InvalidJson { field: "metadata_json", source });
        },
    };
    let tx_time = sym_to_string(&row.tx_time, "tx_time")?;
    let actor = sym_to_string(&row.actor, "actor")?;
    let command = sym_to_string(&row.command, "command")?;
    let key = sym_to_string(&row.idempotency_key, "idempotency_key")?;
    let tx = Tx::new(
        tx_id,
        TxTime(tx_time),
        PrincipalId(actor),
        actor_kind,
        command,
        metadata,
    );
    if key.as_str().is_empty() {
        Ok(tx)
    } else {
        Ok(tx.with_idempotency_key(key))
    }
}

/// Reads the transaction out of a `tx` row.
pub fn decode_tx(row: &TxRow) -> (res: Result<Tx, RayforceAdapterError>)
    ensures
        match res {
            Ok(tx) => tx_of_row(row@) == Ok::<TxView, ErrorView>(tx@),
            Err(err) => tx_of_row(row@) == Err::<TxView, ErrorView>(err@),
        },
{
    let json = tx_metadata_text(row)?;
    decode_tx_parsed(row, parse_json(json.as_str()))
}

/// The view of what a parser made of a datom's value.
pub open spec fn parsed_view(parsed: Result<DatomValue, serde_json::Error>) -> Result<
    DatomValueView,
    serde_json::Error,
> {
    match parsed {
        Ok(value) => Ok(value@),
        Err(source) => Err(source),
    }
}

/// Reads the datom out of a `datom` row whose value text was parsed to `parsed`.
pub fn decode_datom(row: &DatomRow, parsed: Result<DatomValue, serde_json::Error>) -> (res: Result<
    Datom,
    RayforceAdapterError,
>)
    ensures
        match res {
            Ok(datom) => datom_of_row(row@, parsed_view(parsed)) == Ok::<DatomView, ErrorView>(
                datom@,
            ),
            Err(err) => datom_of_row(row@, parsed_view(parsed)) == Err::<DatomView, ErrorView>(
                err@,
            ),
        },
{
    let tx = to_tx_id(row.tx_id)?;
    let _json = sym_to_string(&row.value_json, "value_json")?;
    let value = match parsed {
        Ok(value) => value,
        Err(source) => {
            return Err(RayforceAdapterError::InvalidJson { field: "value_json", source });
        },
    };
    let entity = sym_to_string(&row.entity, "entity")?;
    let attr = sym_to_string(&row.attr, "attr")?;
    Ok(Datom { entity: EntityId(entity), attr, value, tx, added: row.added != 0 })
}

/// The JSON text of a `datom` row's value, for a parser to read.
pub fn datom_value_text(row: &DatomRow) -> (res: Result<String, RayforceAdapterError>)
    ensures
        text_result(res) == value_text_of_row(row@),
{
    let _tx = to_tx_id(row.tx_id)?;
    sym_to_string(&row.value_json, "value_json")
}

/// Whether `map` holds, for each id of `datoms`, the datoms that carry it, in
/// order, and nothing else.
spec fn groups_by_tx(map: Map<u64, Vec<Datom>>, datoms: Seq<DatomView>) -> bool {
    forall|tx: u64|
        #![trigger map.contains_key(tx)]
        #![trigger datoms_with_tx(datoms, tx)]
        if map.contains_key(tx) {
            datom_views(map[tx]@) == datoms_with_tx(datoms, tx)
        } else {
            datoms_with_tx(datoms, tx) == Seq::<DatomView>::empty()
        }
}

/// One more datom joins the datoms of its own transaction and no others.
proof fn lemma_datoms_with_tx_push(datoms: Seq<DatomView>, datom: DatomView, tx: u64)
    ensures
        datoms_with_tx(datoms.push(datom), tx) == if datom.tx == tx {
            datoms_with_tx(datoms, tx).push(datom)
        } else {
            datoms_with_tx(datoms, tx)
        },
{
    reveal(Seq::filter);
    assert(datoms.push(datom).drop_last() == datoms);
}

/// Sorts datoms by their transaction id.
fn group_datoms(datoms: Vec<Datom>) -> (res: BTreeMap<u64, Vec<Datom>>)
    ensures
        groups_by_tx(res@, datom_views(datoms@)),
{
    broadcast use vstd::std_specs::btree::group_btree_axioms;
    broadcast use lemma_map_push;

    let ghost views = datom_views(datoms@);
    let mut map: BTreeMap<u64, Vec<Datom>> = BTreeMap::new();
    proof {
        reveal(Seq::filter);
        assert(views.take(0) == Seq::<DatomView>::empty());
    }
    for datom in it: datoms.into_iter()
        invariant
            views == datom_views(it.seq()),
            groups_by_tx(map@, views.take(it.index() as int)),
    {
        let ghost seen = views.take(it.index() as int);
        let ghost before = map@;
        let ghost view = datom@;
        let tx = datom.tx.0;
        let mut list = match map.remove(&tx) {
            Some(list) => list,
            None => Vec::new(),
        };
        list.push(datom);
        map.insert(tx, list);
        proof {
            assert(views.take(it.index() + 1) == seen.push(view));
            assert forall|id: u64|
                #![trigger map@.contains_key(id)]
                #![trigger datoms_with_tx(seen.push(view), id)]
                if map@.contains_key(id) {
                    datom_views(map@[id]@) == datoms_with_tx(seen.push(view), id)
                } else {
                    datoms_with_tx(seen.push(view), id) == Seq::<DatomView>::empty()
                } by {
                lemma_datoms_with_tx_push(seen, view, id);
                assert(before.contains_key(id) || !before.contains_key(id));
            }
        }
    }
    assert(views.take(views.len() as int) == views);
    map
}

/// A failure among the first rows is the failure of all.
proof fn lemma_first_failure_stands(rows: Seq<TxRowView>, n: int)
    requires
        0 <= n <= rows.len(),
        txs_of_rows(rows.take(n)) is Err,
    ensures
        txs_of_rows(rows) == txs_of_rows(rows.take(n)),
    decreases rows.len(),
{
    if n == rows.len() {
        assert(rows.take(n) == rows);
    } else {
        assert(rows.drop_last().take(n) == rows.take(n));
        lemma_first_failure_stands(rows.drop_last(), n);
    }
}

/// What is left of the groups once the transactions `txs` have taken theirs.
spec fn groups_left(
    map: Map<u64, Vec<Datom>>,
    datoms: Seq<DatomView>,
    txs: Seq<TxView>,
) -> bool {
    forall|tx: u64|
        #![trigger map.contains_key(tx)]
        #![trigger datoms_with_tx(datoms, tx)]
        if exists|j: int| 0 <= j < txs.len() && #[trigger] txs[j].tx_id == tx {
            !map.contains_key(tx)
        } else if map.contains_key(tx) {
            datom_views(map[tx]@) == datoms_with_tx(datoms, tx)
        } else {
            datoms_with_tx(datoms, tx) == Seq::<DatomView>::empty()
        }
}

/// One more transaction adds its own envelope at the end.
proof fn lemma_grouped_push(txs: Seq<TxView>, tx: TxView, datoms: Seq<DatomView>)
    ensures
        grouped(txs.push(tx), datoms) == grouped(txs, datoms).push(
            EnvelopeView {
                tx,
                datoms: if exists|j: int|
                    0 <= j < txs.len() && #[trigger] txs[j].tx_id == tx.tx_id {
                    Seq::empty()
                } else {
                    datoms_with_tx(datoms, tx.tx_id)
                },
            },
        ),
{
    let all = txs.push(tx);
    assert forall|i: int| 0 <= i < all.len() implies id_seen_before(all, i) == if i < txs.len() {
        id_seen_before(txs, i)
    } else {
        exists|j: int| 0 <= j < txs.len() && #[trigger] txs[j].tx_id == tx.tx_id
    } by {
        if i < txs.len() {
            if id_seen_before(all, i) {
                let j = choose|j: int| 0 <= j < i && #[trigger] all[j].tx_id == all[i].tx_id;
                assert(txs[j].tx_id == txs[i].tx_id);
            }
            if id_seen_before(txs, i) {
                let j = choose|j: int| 0 <= j < i && #[trigger] txs[j].tx_id == txs[i].tx_id;
                assert(all[j].tx_id == all[i].tx_id);
            }
        } else {
            if id_seen_before(all, i) {
                let j = choose|j: int| 0 <= j < i && #[trigger] all[j].tx_id == all[i].tx_id;
                assert(txs[j].tx_id == tx.tx_id);
            }
            if exists|j: int| 0 <= j < txs.len() && #[trigger] txs[j].tx_id == tx.tx_id {
                let j = choose|j: int| 0 <= j < txs.len() && #[trigger] txs[j].tx_id == tx.tx_id;
                assert(all[j].tx_id == all[i].tx_id);
            }
        }
    }
    assert(grouped(all, datoms) =~= grouped(txs, datoms).push(grouped(all, datoms).last()));
}

/// Puts the envelopes together from the `tx` rows and the decoded datoms.
pub fn assemble(rows: &Vec<TxRow>, datoms: Vec<Datom>) -> (res: Result<
    Vec<CommitEnvelope>,
    RayforceAdapterError,
>)
    ensures
        match res {
            Ok(envelopes) => assembled(tx_row_views(rows@), datom_views(datoms@)) == Ok::<
                Seq<EnvelopeView>,
                ErrorView,
            >(envelope_views(envelopes@)),
            Err(err) => assembled(tx_row_views(rows@), datom_views(datoms@)) == Err::<
                Seq<EnvelopeView>,
                ErrorView,
            >(err@),
        },
{
    broadcast use vstd::std_specs::btree::group_btree_axioms;
    broadcast use lemma_map_push;

    let ghost views = tx_row_views(rows@);
    let ghost all = datom_views(datoms@);
    let mut map = group_datoms(datoms);
    let mut envelopes: Vec<CommitEnvelope> = Vec::new();
    let ghost mut txs: Seq<TxView> = Seq::empty();
    assert(views.take(0) == Seq::<TxRowView>::empty());
    assert(grouped(txs, all) == Seq::<EnvelopeView>::empty());
    let mut at: usize = 0;
    while at < rows.len()
        invariant
            at <= rows.len(),
            views == tx_row_views(rows@),
            all == datom_views(datoms@),
            txs_of_rows(views.take(at as int)) == Ok::<Seq<TxView>, ErrorView>(txs),
            envelope_views(envelopes@) == grouped(txs, all),
            groups_left(map@, all, txs),
        decreases rows.len() - at,
    {
        let row = &rows[at];
        let ghost here = at as int;
        let ghost before = map@;
        proof {
            assert(views.take(here + 1).drop_last() == views.take(here));
            assert(views.take(here + 1).last() == row@);
        }
        let tx = match decode_tx(row) {
            Ok(tx) => tx,
            Err(err) => {
                proof {
                    lemma_first_failure_stands(views, here + 1);
                }
                return Err(err);
            },
        };
        let ghost tx_view = tx@;
        let own = match map.remove(&tx.tx_id.0) {
            Some(list) => list,
            None => Vec::new(),
        };
        envelopes.push(CommitEnvelope::new(tx, own));
        proof {
            lemma_grouped_push(txs, tx_view, all);
            let next = txs.push(tx_view);
            assert forall|id: u64|
                #![trigger map@.contains_key(id)]
                #![trigger datoms_with_tx(all, id)]
                if exists|j: int| 0 <= j < next.len() && #[trigger] next[j].tx_id == id {
                    !map@.contains_key(id)
                } else if map@.contains_key(id) {
                    datom_views(map@[id]@) == datoms_with_tx(all, id)
                } else {
                    datoms_with_tx(all, id) == Seq::<DatomView>::empty()
                } by {
                assert(before.contains_key(id) || !before.contains_key(id));
                if exists|j: int| 0 <= j < txs.len() && #[trigger] txs[j].tx_id == id {
                    let j = choose|j: int| 0 <= j < txs.len() && #[trigger] txs[j].tx_id == id;
                    assert(next[j].tx_id == id);
                }
                if id == tx_view.tx_id {
                    assert(next[txs.len() as int].tx_id == id);
                }
                if exists|j: int| 0 <= j < next.len() && #[trigger] next[j].tx_id == id {
                    let j = choose|j: int| 0 <= j < next.len() && #[trigger] next[j].tx_id == id;
                    if j < txs.len() {
                        assert(txs[j].tx_id == id);
                    }
                }
            }
            assert(datom_views(Seq::<Datom>::empty()) == Seq::<DatomView>::empty());
            assert(before.contains_key(tx_view.tx_id) || !before.contains_key(tx_view.tx_id));
            txs = next;
        }
        at = at + 1;
    }
    assert(views.take(views.len() as int) == views);
    Ok(envelopes)
}

} // verus!
