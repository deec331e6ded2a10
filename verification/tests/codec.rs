use rayforce_adapter::decode::{
    assemble, datom_value_text, decode_datom, decode_tx, decode_tx_parsed, parse_actor_kind,
    sym_to_string, to_tx_id, tx_metadata_text, DatomRow, SymCell, TxRow,
};
use rayforce_adapter::encode::{actor_kind_str, datom_table, tx_table, value_json};
use rayforce_adapter::error::RayforceAdapterError;
use rayforce_adapter::log::{
    ActorKind, CommitEnvelope, Datom, DatomValue, EntityId, PrincipalId, Tx, TxId, TxTime,
};
use rayforce_adapter::protocol::{ensure_sym_init, ray_is_error, Object, RAY_ERROR, RAY_OK};
use rayforce_adapter::reader::{column_count, column_name, table_label};
use rayforce_adapter::protocol::TableKind;
use rayforce_adapter::table::{Cells, Table, RAY_I64, RAY_SYM};

fn json(text: &str) -> serde_json::Value {
    serde_json::from_str(text).unwrap()
}

fn json_error() -> serde_json::Error {
    serde_json::from_str::<serde_json::Value>("{").unwrap_err()
}

fn tx(id: u64, metadata: &str) -> Tx {
    Tx::new(
        TxId(id),
        TxTime(format!("time {}", id)),
        PrincipalId("principal/alice".to_string()),
        ActorKind::Worker,
        "task.create".to_string(),
        json(metadata),
    )
}

fn datom(entity: &str, id: u64) -> Datom {
    Datom::add(
        EntityId(entity.to_string()),
        "task/title".to_string(),
        DatomValue::new("str".to_string(), "\"T\"".to_string()),
        TxId(id),
    )
}

fn cell(text: &str) -> SymCell {
    SymCell::Bytes(text.as_bytes().to_vec())
}

fn tx_row(id: i64) -> TxRow {
    TxRow {
        tx_id: id,
        tx_time: cell("now"),
        actor: cell("alice"),
        actor_kind: cell("human"),
        command: cell("go"),
        idempotency_key: cell("k"),
        metadata_json: cell("{\"n\":1}"),
    }
}

fn datom_row(id: i64) -> DatomRow {
    DatomRow {
        tx_id: id,
        entity: cell("e"),
        attr: cell("a"),
        value_json: cell("7"),
        added: 1,
    }
}

fn ints(table: &Table, col: usize) -> Vec<i64> {
    match &table.columns[col].cells {
        Cells::I64(values) => values.clone(),
        Cells::Sym(_) => panic!("column {} holds symbols", col),
    }
}

fn syms(table: &Table, col: usize) -> Vec<String> {
    match &table.columns[col].cells {
        Cells::Sym(values) => values.clone(),
        Cells::I64(_) => panic!("column {} holds integers", col),
    }
}

fn names(table: &Table) -> Vec<&'static str> {
    table.columns.iter().map(|c| c.name).collect()
}

#[test]
fn actor_kinds_have_names() {
    assert_eq!(actor_kind_str(ActorKind::Human), "human");
    assert_eq!(actor_kind_str(ActorKind::Worker), "worker");
    assert_eq!(actor_kind_str(ActorKind::Adapter), "adapter");
    assert_eq!(actor_kind_str(ActorKind::System), "system");
}

#[test]
fn actor_kind_names_read_back() {
    for kind in [ActorKind::Human, ActorKind::Worker, ActorKind::Adapter, ActorKind::System] {
        assert_eq!(parse_actor_kind(actor_kind_str(kind).to_string()).unwrap(), kind);
    }
}

#[test]
fn other_actor_kind_names_are_refused() {
    for name in ["", "Human", "human ", "robot"] {
        match parse_actor_kind(name.to_string()) {
            Err(RayforceAdapterError::InvalidActorKind(refused)) => assert_eq!(refused, name),
            other => panic!("{:?}", other),
        }
    }
}

#[test]
fn tx_ids_are_not_negative() {
    assert_eq!(to_tx_id(0).unwrap(), TxId(0));
    assert_eq!(to_tx_id(i64::MAX).unwrap(), TxId(9_223_372_036_854_775_807));
    assert!(matches!(to_tx_id(-1), Err(RayforceAdapterError::InvalidTxId(-1))));
    assert!(matches!(to_tx_id(i64::MIN), Err(RayforceAdapterError::InvalidTxId(i64::MIN))));
}

#[test]
fn value_that_cannot_be_serialized_is_null() {
    assert_eq!(value_json(Ok("[1]".to_string())), "[1]");
    assert_eq!(value_json(Err(json_error())), "null");
}

#[test]
fn symbol_cells_are_utf8() {
    assert_eq!(sym_to_string(&cell("é"), "actor").unwrap(), "é");
    assert_eq!(sym_to_string(&cell(""), "actor").unwrap(), "");
    assert!(matches!(
        sym_to_string(&SymCell::Unreadable, "actor"),
        Err(RayforceAdapterError::RayforceRead("actor"))
    ));
    match sym_to_string(&SymCell::Bytes(vec![b'a', 0xff]), "command") {
        Err(RayforceAdapterError::InvalidUtf8 { field, source }) => {
            assert_eq!(field, "command");
            assert_eq!(source.into_bytes(), vec![b'a', 0xff]);
        }
        other => panic!("{:?}", other),
    }
}

#[test]
fn tx_table_has_a_row_for_each_envelope() {
    let first = tx(1, "{\"b\": 2, \"a\": [true, null]}").with_idempotency_key("idem".to_string());
    let second = tx(u64::MAX, "\"x\"");
    let envelopes = vec![CommitEnvelope::new(first, vec![]), CommitEnvelope::new(second, vec![])];
    let table = tx_table(&envelopes);
    assert_eq!(table.label, "tx");
    assert_eq!(
        names(&table),
        vec![
            "tx_id",
            "tx_time",
            "actor",
            "actor_kind",
            "command",
            "idempotency_key",
            "metadata_json",
        ]
    );
    assert_eq!(ints(&table, 0), vec![1, -1]);
    assert_eq!(syms(&table, 1), vec!["time 1", "time 18446744073709551615"]);
    assert_eq!(syms(&table, 2), vec!["principal/alice", "principal/alice"]);
    assert_eq!(syms(&table, 3), vec!["worker", "worker"]);
    assert_eq!(syms(&table, 4), vec!["task.create", "task.create"]);
    assert_eq!(syms(&table, 5), vec!["idem", ""]);
    assert_eq!(syms(&table, 6), vec!["{\"a\":[true,null],\"b\":2}", "\"x\""]);
}

#[test]
fn datom_table_has_a_row_for_each_datom_in_order() {
    let mut retracted = datom("e3", 2);
    retracted.added = false;
    let envelopes = vec![
        CommitEnvelope::new(tx(1, "null"), vec![datom("e1", 1), datom("e2", 1)]),
        CommitEnvelope::new(tx(2, "null"), vec![]),
        CommitEnvelope::new(tx(3, "null"), vec![retracted]),
    ];
    let table = datom_table(&envelopes);
    assert_eq!(table.label, "datom");
    assert_eq!(
        names(&table),
        vec!["tx_id", "entity", "attr", "value_kind", "value_json", "added"]
    );
    assert_eq!(ints(&table, 0), vec![1, 1, 2]);
    assert_eq!(syms(&table, 1), vec!["e1", "e2", "e3"]);
    assert_eq!(syms(&table, 2), vec!["task/title", "task/title", "task/title"]);
    assert_eq!(syms(&table, 3), vec!["str", "str", "str"]);
    assert_eq!(syms(&table, 4), vec!["\"T\"", "\"T\"", "\"T\""]);
    assert_eq!(ints(&table, 5), vec![1, 1, 0]);
}

#[test]
fn tables_of_an_empty_log_have_columns_and_no_rows() {
    let table = tx_table(&vec![]);
    assert_eq!(table.columns.len(), 7);
    assert!(table.columns.iter().all(|c| c.cells.len() == 0));
    let table = datom_table(&vec![]);
    assert_eq!(table.columns.len(), 6);
    assert!(table.columns.iter().all(|c| c.cells.len() == 0));
}

#[test]
fn cells_know_their_type() {
    assert_eq!(Cells::I64(vec![1, 2]).type_code(), RAY_I64);
    assert_eq!(Cells::Sym(vec![]).type_code(), RAY_SYM);
    assert_eq!(Cells::I64(vec![1, 2]).len(), 2);
    assert_eq!((RAY_I64, RAY_SYM), (5, 12));
}

#[test]
fn tx_row_reads_as_its_transaction() {
    let read = decode_tx(&tx_row(12)).unwrap();
    assert_eq!(read.tx_id, TxId(12));
    assert_eq!(read.tx_time, TxTime("now".to_string()));
    assert_eq!(read.actor, PrincipalId("alice".to_string()));
    assert_eq!(read.actor_kind, ActorKind::Human);
    assert_eq!(read.command, "go");
    assert_eq!(read.idempotency_key.as_deref(), Some("k"));
    assert_eq!(read.metadata["n"], 1);
}

#[test]
fn tx_row_takes_the_metadata_that_was_parsed() {
    let mut row = tx_row(12);
    assert_eq!(tx_metadata_text(&row).unwrap(), "{\"n\":1}");
    let read = decode_tx_parsed(&row, Ok(json("[2]"))).unwrap();
    assert_eq!(read.metadata, json("[2]"));
    assert_eq!(read.tx_id, TxId(12));
    assert_eq!(read.command, "go");
    assert!(matches!(
        decode_tx_parsed(&row, Err(json_error())),
        Err(RayforceAdapterError::InvalidJson { field: "metadata_json", .. })
    ));
    row.metadata_json = SymCell::Unreadable;
    assert!(matches!(
        decode_tx_parsed(&row, Err(json_error())),
        Err(RayforceAdapterError::RayforceRead("metadata_json"))
    ));
    assert!(matches!(
        tx_metadata_text(&row),
        Err(RayforceAdapterError::RayforceRead("metadata_json"))
    ));
    row.actor_kind = cell("robot");
    assert!(matches!(tx_metadata_text(&row), Err(RayforceAdapterError::InvalidActorKind(_))));
    row.tx_id = -1;
    assert!(matches!(tx_metadata_text(&row), Err(RayforceAdapterError::InvalidTxId(-1))));
}

#[test]
fn empty_idempotency_key_reads_as_none() {
    let mut row = tx_row(1);
    row.idempotency_key = cell("");
    assert_eq!(decode_tx(&row).unwrap().idempotency_key, None);
}

#[test]
fn tx_row_fails_with_its_first_failure() {
    let mut row = tx_row(-5);
    row.actor_kind = cell("robot");
    row.metadata_json = cell("{");
    row.tx_time = SymCell::Unreadable;
    row.actor = SymCell::Bytes(vec![0xff]);
    row.command = SymCell::Unreadable;
    row.idempotency_key = SymCell::Unreadable;
    assert!(matches!(decode_tx(&row), Err(RayforceAdapterError::InvalidTxId(-5))));
    row.tx_id = 5;
    assert!(matches!(decode_tx(&row), Err(RayforceAdapterError::InvalidActorKind(_))));
    row.actor_kind = cell("system");
    assert!(matches!(
        decode_tx(&row),
        Err(RayforceAdapterError::InvalidJson { field: "metadata_json", .. })
    ));
    row.metadata_json = cell("{}");
    assert!(matches!(decode_tx(&row), Err(RayforceAdapterError::RayforceRead("tx_time"))));
    row.tx_time = cell("now");
    assert!(matches!(
        decode_tx(&row),
        Err(RayforceAdapterError::InvalidUtf8 { field: "actor", .. })
    ));
    row.actor = cell("alice");
    assert!(matches!(decode_tx(&row), Err(RayforceAdapterError::RayforceRead("command"))));
    row.command = cell("go");
    assert!(matches!(
        decode_tx(&row),
        Err(RayforceAdapterError::RayforceRead("idempotency_key"))
    ));
    row.idempotency_key = cell("k");
    assert!(decode_tx(&row).is_ok());
}

#[test]
fn datom_row_reads_as_its_datom() {
    let value = DatomValue::new("int".to_string(), "7".to_string());
    let mut row = datom_row(3);
    assert_eq!(datom_value_text(&row).unwrap(), "7");
    let read = decode_datom(&row, Ok(value.clone())).unwrap();
    assert_eq!(read.entity, EntityId("e".to_string()));
    assert_eq!(read.attr, "a");
    assert_eq!(read.value, value);
    assert_eq!(read.tx, TxId(3));
    assert!(read.added);
    row.added = 0;
    assert!(!decode_datom(&row, Ok(value.clone())).unwrap().added);
    row.added = -1;
    assert!(decode_datom(&row, Ok(value)).unwrap().added);
}

#[test]
fn datom_row_fails_with_its_first_failure() {
    let value = DatomValue::new("int".to_string(), "7".to_string());
    let mut row = datom_row(-1);
    row.value_json = SymCell::Unreadable;
    row.entity = SymCell::Unreadable;
    row.attr = SymCell::Unreadable;
    assert!(matches!(datom_value_text(&row), Err(RayforceAdapterError::InvalidTxId(-1))));
    row.tx_id = 1;
    assert!(matches!(
        datom_value_text(&row),
        Err(RayforceAdapterError::RayforceRead("value_json"))
    ));
    row.value_json = cell("x");
    assert!(matches!(
        decode_datom(&row, Err(json_error())),
        Err(RayforceAdapterError::InvalidJson { field: "value_json", .. })
    ));
    assert!(matches!(
        decode_datom(&row, Ok(value.clone())),
        Err(RayforceAdapterError::RayforceRead("entity"))
    ));
    row.entity = cell("e");
    assert!(matches!(
        decode_datom(&row, Ok(value)),
        Err(RayforceAdapterError::RayforceRead("attr"))
    ));
}

#[test]
fn datoms_go_to_the_first_transaction_with_their_id() {
    let rows = vec![tx_row(2), tx_row(1), tx_row(2)];
    let datoms = vec![datom("x", 1), datom("y", 2), datom("z", 3), datom("w", 2)];
    let log = assemble(&rows, datoms).unwrap();
    let entities: Vec<Vec<&str>> = log
        .iter()
        .map(|e| e.datoms.iter().map(|d| d.entity.0.as_str()).collect())
        .collect();
    assert_eq!(entities, vec![vec!["y", "w"], vec!["x"], vec![]]);
    let ids: Vec<u64> = log.iter().map(|e| e.tx.tx_id.0).collect();
    assert_eq!(ids, vec![2, 1, 2]);
}

#[test]
fn assembling_fails_with_the_first_failing_row() {
    let mut bad = tx_row(2);
    bad.actor_kind = cell("robot");
    let rows = vec![tx_row(1), bad, tx_row(-3)];
    assert!(matches!(
        assemble(&rows, vec![]),
        Err(RayforceAdapterError::InvalidActorKind(kind)) if kind == "robot"
    ));
    assert!(assemble(&vec![], vec![datom("x", 1)]).unwrap().is_empty());
}

#[test]
fn metadata_without_floats_reads_back() {
    for text in [
        "null",
        "{\"source\":\"test\"}",
        "[-9223372036854775808,18446744073709551615,0]",
        "{\"\":{\"k\":[\"\\u0001\\\"\\\\\u{1F600}\"]}}",
    ] {
        let value = json(text);
        let table = tx_table(&vec![CommitEnvelope::new(tx(1, text), vec![])]);
        let mut row = tx_row(1);
        row.metadata_json = cell(&syms(&table, 6)[0]);
        assert_eq!(decode_tx(&row).unwrap().metadata, value);
    }
}

#[test]
fn metadata_nested_too_deeply_does_not_read_back() {
    let mut value = serde_json::Value::Null;
    for _ in 0..127 {
        value = serde_json::Value::Array(vec![value]);
    }
    let mut row = tx_row(1);
    row.metadata_json = cell(&value.to_string());
    assert_eq!(decode_tx(&row).unwrap().metadata, value);
    row.metadata_json = cell(&serde_json::Value::Array(vec![value]).to_string());
    assert!(matches!(
        decode_tx(&row),
        Err(RayforceAdapterError::InvalidJson { field: "metadata_json", .. })
    ));
}

#[test]
fn clones_are_equal() {
    let envelope = CommitEnvelope::new(
        tx(4, "{\"k\":[1]}").with_idempotency_key("i".to_string()),
        vec![datom("e1", 4), datom("e2", 4)],
    );
    assert_eq!(envelope.clone(), envelope);
}

#[test]
fn codes_and_objects_are_judged() {
    assert!(ensure_sym_init(RAY_OK).is_ok());
    assert!(matches!(ensure_sym_init(3), Err(RayforceAdapterError::SymInit(3))));
    assert!(ray_is_error(127));
    assert!(!ray_is_error(0));
    assert!(!Object::Null.is_usable());
    assert!(!Object::Typed(RAY_ERROR).is_usable());
    assert!(Object::Typed(-128).is_usable());
}

#[test]
fn columns_read_have_names() {
    assert_eq!(table_label(TableKind::Tx), "tx");
    assert_eq!(table_label(TableKind::Datom), "datom");
    let tx: Vec<&str> =
        (0..column_count(TableKind::Tx)).map(|c| column_name(TableKind::Tx, c)).collect();
    assert_eq!(
        tx,
        vec![
            "tx_id",
            "tx_time",
            "actor",
            "actor_kind",
            "command",
            "idempotency_key",
            "metadata_json",
        ]
    );
    let datoms: Vec<&str> =
        (0..column_count(TableKind::Datom)).map(|c| column_name(TableKind::Datom, c)).collect();
    assert_eq!(datoms, vec!["tx_id", "entity", "attr", "value_json", "added"]);
}
