//! What is logged: transactions, their datoms, and the envelopes that hold both.

use vstd::prelude::*;

verus! {

/// The number of a transaction.
#[derive(Clone, Copy, Debug, PartialEq, Eq)]
pub struct TxId(pub u64);

/// When a transaction was made, as its maker wrote it.
#[derive(Debug, PartialEq, Eq)]
pub struct TxTime(pub String);

/// Who made a transaction.
#[derive(Debug, PartialEq, Eq)]
pub struct PrincipalId(pub String);

/// What a datom is about.
#[derive(Debug, PartialEq, Eq)]
pub struct EntityId(pub String);

/// What kind of principal made a transaction.
#[derive(Clone, Copy, Debug, PartialEq, Eq, Structural)]
pub enum ActorKind {
    Human,
    Worker,
    Adapter,
    System,
}

/// The value of a datom, as the log sees it: the name of its kind and its JSON
/// text.
#[derive(Debug, PartialEq, Eq)]
pub struct DatomValue {
    pub kind: String,
    pub json: String,
}

/// One fact added or retracted.
#[derive(Debug, PartialEq, Eq)]
pub struct Datom {
    pub entity: EntityId,
    pub attr: String,
    pub value: DatomValue,
    pub tx: TxId,
    pub added: bool,
}

/// One committed transaction.
#[derive(Debug, PartialEq, Eq)]
pub struct Tx {
    pub tx_id: TxId,
    pub tx_time: TxTime,
    pub actor: PrincipalId,
    pub actor_kind: ActorKind,
    pub command: String,
    pub idempotency_key: Option<String>,
    pub metadata: serde_json::Value,
}

/// A transaction together with its datoms.
#[derive(Debug, PartialEq, Eq)]
pub struct CommitEnvelope {
    pub tx: Tx,
    pub datoms: Vec<Datom>,
}

/// A `DatomValue` with its texts as character sequences.
#[verifier::ext_equal]
pub struct DatomValueView {
    pub kind: Seq<char>,
    pub json: Seq<char>,
}

/// A `Datom` with its texts as character sequences.
#[verifier::ext_equal]
pub struct DatomView {
    pub entity: Seq<char>,
    pub attr: Seq<char>,
    pub value: DatomValueView,
    pub tx: u64,
    pub added: bool,
}

/// A `Tx` with its texts as character sequences.
#[verifier::ext_equal]
pub struct TxView {
    pub tx_id: u64,
    pub tx_time: Seq<char>,
    pub actor: Seq<char>,
    pub actor_kind: ActorKind,
    pub command: Seq<char>,
    pub idempotency_key: Option<Seq<char>>,
    pub metadata: serde_json::Value,
}

/// A `CommitEnvelope` with its datoms as a sequence.
#[verifier::ext_equal]
pub struct EnvelopeView {
    pub tx: TxView,
    pub datoms: Seq<DatomView>,
}

impl View for DatomValue {
    type V = DatomValueView;

    open spec fn view(&self) -> DatomValueView {
        DatomValueView { kind: self.kind@, json: self.json@ }
    }
}

impl View for Datom {
    type V = DatomView;

    open spec fn view(&self) -> DatomView {
        DatomView {
            entity: self.entity.0@,
            attr: self.attr@,
            value: self.value@,
            tx: self.tx.0,
            added: self.added,
        }
    }
}

/// An optional text as an optional character sequence.
pub open spec fn opt_text(text: Option<String>) -> Option<Seq<char>> {
    match text {
        Some(text) => Some(text@),
        None => None,
    }
}

impl View for Tx {
    type V = TxView;

    open spec fn view(&self) -> TxView {
        TxView {
            tx_id: self.tx_id.0,
            tx_time: self.tx_time.0@,
            actor: self.actor.0@,
            actor_kind: self.actor_kind,
            command: self.command@,
            idempotency_key: opt_text(self.idempotency_key),
            metadata: self.metadata,
        }
    }
}

/// The datoms of a sequence, each by its view.
pub open spec fn datom_views(datoms: Seq<Datom>) -> Seq<DatomView> {
    datoms.map_values(|d: Datom| d@)
}

impl View for CommitEnvelope {
    type V = EnvelopeView;

    open spec fn view(&self) -> EnvelopeView {
        EnvelopeView { tx: self.tx@, datoms: datom_views(self.datoms@) }
    }
}

/// The envelopes of a sequence, each by its view.
pub open spec fn envelope_views(envelopes: Seq<CommitEnvelope>) -> Seq<EnvelopeView> {
    envelopes.map_values(|e: CommitEnvelope| e@)
}

impl DatomValue {
    pub fn new(kind: String, json: String) -> (res: Self)
        ensures
            res@ == (DatomValueView { kind: kind@, json: json@ }),
    {
        DatomValue { kind, json }
    }
}

impl Datom {
    /// A datom that states a fact.
    pub fn add(entity: EntityId, attr: String, value: DatomValue, tx: TxId) -> (res: Self)
        ensures
            res@ == (DatomView {
                entity: entity.0@,
                attr: attr@,
                value: value@,
                tx: tx.0,
                added: true,
            }),
    {
        Datom { entity, attr, value, tx, added: true }
    }
}

impl Tx {
    /// A transaction with no idempotency key.
    pub fn new(
        tx_id: TxId,
        tx_time: TxTime,
        actor: PrincipalId,
        actor_kind: ActorKind,
        command: String,
        metadata: serde_json::Value,
    ) -> (res: Self)
        ensures
            res@ == (TxView {
                tx_id: tx_id.0,
                tx_time: tx_time.0@,
                actor: actor.0@,
                actor_kind,
                command: command@,
                idempotency_key: None,
                metadata,
            }),
    {
        Tx { tx_id, tx_time, actor, actor_kind, command, idempotency_key: None, metadata }
    }

    /// The same transaction with an idempotency key.
    pub fn with_idempotency_key(self, key: String) -> (res: Self)
        ensures
            res@ == (TxView { idempotency_key: Some(key@), ..self@ }),
    {
        Tx { idempotency_key: Some(key), ..self }
    }
}

impl CommitEnvelope {
    pub fn new(tx: Tx, datoms: Vec<Datom>) -> (res: Self)
        ensures
            res@ == (EnvelopeView { tx: tx@, datoms: datom_views(datoms@) }),
    {
        CommitEnvelope { tx, datoms }
    }
}

impl Clone for DatomValue {
    fn clone(&self) -> (res: Self)
        ensures
            res == *self,
    {
        DatomValue { kind: self.kind.clone(), json: self.json.clone() }
    }
}

impl Clone for Datom {
    fn clone(&self) -> (res: Self)
        ensures
            res == *self,
    {
        Datom {
            entity: EntityId(self.entity.0.clone()),
            attr: self.attr.clone(),
            value: self.value.clone(),
            tx: self.tx,
            added: self.added,
        }
    }
}

impl Clone for Tx {
    fn clone(&self) -> (res: Self)
        ensures
            res@ == self@,
    {
        Tx {
            tx_id: self.tx_id,
            tx_time: TxTime(self.tx_time.0.clone()),
            actor: PrincipalId(self.actor.0.clone()),
            actor_kind: self.actor_kind,
            command: self.command.clone(),
            idempotency_key: match &self.idempotency_key {
                Some(key) => Some(key.clone()),
                None => None,
            },
            metadata: self.metadata.clone(),
        }
    }
}

impl Clone for CommitEnvelope {
    fn clone(&self) -> (res: Self)
        ensures
            res@ == self@,
    {
        let mut datoms: Vec<Datom> = Vec::new();
        let mut at: usize = 0;
        while at < self.datoms.len()
            invariant
                at <= self.datoms.len(),
                datoms@ == self.datoms@.take(at as int),
            decreases self.datoms.len() - at,
        {
            datoms.push(self.datoms[at].clone());
            at = at + 1;
            assert(datoms@ == self.datoms@.take(at as int));
        }
        assert(self.datoms@.take(at as int) == self.datoms@);
        CommitEnvelope { tx: self.tx.clone(), datoms }
    }
}

} // verus!
