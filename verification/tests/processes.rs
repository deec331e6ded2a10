use std::collections::BTreeMap;
use std::io::{Error, ErrorKind};
use std::path::{Path, PathBuf};

use rayforce_adapter::builder::TableBuilder;
use rayforce_adapter::decode::{DatomRow, SymCell, TxRow};
use rayforce_adapter::encode::value_json;
use rayforce_adapter::error::RayforceAdapterError;
use rayforce_adapter::layout::TxLogLayout;
use rayforce_adapter::load::load_envelopes;
use rayforce_adapter::log::{
    ActorKind, CommitEnvelope, Datom, DatomValue, EntityId, PrincipalId, Tx, TxId, TxTime,
};
use rayforce_adapter::projection::{Opening, SplayedTxLogProjection};
use rayforce_adapter::protocol::{Action, Object, Reply, TableKind, RAY_ERROR, RAY_OK};
use rayforce_adapter::rebuild::Rebuild;
use rayforce_adapter::save::TableSave;
use rayforce_adapter::table::{Cells, Column, Table, RAY_I64};

/// A column as a store keeps it: symbols by their ids.
#[derive(Clone, Debug, PartialEq)]
struct StoredColumn {
    name: i64,
    type_code: i8,
    cells: Vec<i64>,
}

type StoredTable = Vec<StoredColumn>;

/// A store in memory, with a disk that outlives it.
#[derive(Default)]
struct Store {
    syms: Vec<String>,
    table: StoredTable,
    vector: (i8, Vec<i64>),
    read: BTreeMap<&'static str, StoredTable>,
    dirs: BTreeMap<PathBuf, Option<StoredTable>>,
    files: BTreeMap<PathBuf, Vec<String>>,
    asked: Vec<String>,
    rule: Option<fn(&Action) -> Option<Reply>>,
}

fn key(kind: TableKind) -> &'static str {
    match kind {
        TableKind::Tx => "tx",
        TableKind::Datom => "datom",
    }
}

fn from_c(bytes: &[u8]) -> PathBuf {
    let (last, text) = bytes.split_last().unwrap();
    assert_eq!(*last, 0);
    PathBuf::from(String::from_utf8(text.to_vec()).unwrap())
}

fn parse_value(json: &str) -> Result<DatomValue, serde_json::Error> {
    let value: serde_json::Value = serde_json::from_str(json)?;
    let kind = if value.is_string() { "str" } else { "json" };
    Ok(DatomValue::new(kind.to_string(), value_json(serde_json::to_string(&value))))
}

impl Store {
    fn new() -> Store {
        Store::default()
    }

    /// The same disk under a store that has just started.
    fn restarted(self) -> Store {
        Store { dirs: self.dirs, files: self.files, ..Store::default() }
    }

    fn find(&self, text: &str) -> i64 {
        match self.syms.iter().position(|s| s == text) {
            Some(id) => id as i64,
            None => -1,
        }
    }

    fn intern(&mut self, text: &str) -> i64 {
        if self.find(text) < 0 {
            self.syms.push(text.to_string());
        }
        self.find(text)
    }

    fn number(&self, kind: TableKind, name: &str, row: usize) -> i64 {
        let id = self.find(name);
        self.read[key(kind)].iter().find(|c| c.name == id).unwrap().cells[row]
    }

    fn sym(&self, kind: TableKind, name: &str, row: usize) -> SymCell {
        match self.syms.get(self.number(kind, name, row) as usize) {
            Some(text) => SymCell::Bytes(text.as_bytes().to_vec()),
            None => SymCell::Unreadable,
        }
    }

    fn rows(&self, kind: TableKind) -> usize {
        self.read[key(kind)][0].cells.len()
    }

    fn perform(&mut self, action: Action) -> Reply {
        self.asked.push(format!("{:?}", action));
        if let Some(rule) = self.rule {
            if let Some(reply) = rule(&action) {
                return reply;
            }
        }
        let object = Reply::Object(Object::Typed(0));
        match action {
            Action::SymInit => Reply::Code(RAY_OK),
            Action::PathExists(path) => {
                Reply::Flag(self.dirs.contains_key(&path) || self.files.contains_key(&path))
            }
            Action::CreateDirAll(path) => {
                self.dirs.entry(path).or_insert(None);
                Reply::Io(Ok(()))
            }
            Action::RemoveDirAll(path) => {
                self.dirs.remove(&path);
                Reply::Done
            }
            Action::Rename { from, to } => match self.dirs.remove(&from) {
                Some(content) => {
                    self.dirs.insert(to, content);
                    Reply::Io(Ok(()))
                }
                None => Reply::Io(Err(Error::new(ErrorKind::NotFound, "nothing to move"))),
            },
            Action::SymLoad(path) => {
                for text in self.files[&from_c(&path)].clone() {
                    self.intern(&text);
                }
                Reply::Code(RAY_OK)
            }
            Action::SymSave(path) => {
                self.files.insert(from_c(&path), self.syms.clone());
                Reply::Code(RAY_OK)
            }
            Action::ReadSplayed { table, dir, .. } => match self.dirs.get(&from_c(&dir)) {
                Some(Some(content)) => {
                    self.read.insert(key(table), content.clone());
                    object
                }
                _ => Reply::Object(Object::Null),
            },
            Action::SymFind(text) => Reply::Symbol(self.find(text)),
            Action::GetColumn { table, name_id } => {
                if self.read[key(table)].iter().any(|c| c.name == name_id) {
                    object
                } else {
                    Reply::Object(Object::Null)
                }
            }
            Action::ReadTxRows => {
                let mut tx = Vec::new();
                for row in 0..self.rows(TableKind::Tx) {
                    tx.push(TxRow {
                        tx_id: self.number(TableKind::Tx, "tx_id", row),
                        tx_time: self.sym(TableKind::Tx, "tx_time", row),
                        actor: self.sym(TableKind::Tx, "actor", row),
                        actor_kind: self.sym(TableKind::Tx, "actor_kind", row),
                        command: self.sym(TableKind::Tx, "command", row),
                        idempotency_key: self.sym(TableKind::Tx, "idempotency_key", row),
                        metadata_json: self.sym(TableKind::Tx, "metadata_json", row),
                    });
                }
                Reply::TxRows(tx)
            }
            Action::ReadDatomRows => {
                let mut datoms = Vec::new();
                for row in 0..self.rows(TableKind::Datom) {
                    datoms.push(DatomRow {
                        tx_id: self.number(TableKind::Datom, "tx_id", row),
                        entity: self.sym(TableKind::Datom, "entity", row),
                        attr: self.sym(TableKind::Datom, "attr", row),
                        value_json: self.sym(TableKind::Datom, "value_json", row),
                        added: self.number(TableKind::Datom, "added", row),
                    });
                }
                Reply::DatomRows(datoms)
            }
            Action::ParseValue(json) => Reply::Parsed(parse_value(&json)),
            Action::TableNew(_) => {
                self.table.clear();
                object
            }
            Action::VecNew { type_code, .. } => {
                self.vector = (type_code, Vec::new());
                object
            }
            Action::VecAppend(cell) => {
                self.vector.1.push(cell);
                object
            }
            Action::SymIntern(text) => Reply::Symbol(self.intern(&text)),
            Action::TableAddCol(name) => {
                let (type_code, cells) = self.vector.clone();
                self.table.push(StoredColumn { name, type_code, cells });
                object
            }
            Action::SplaySave { dir, .. } => {
                self.dirs.insert(from_c(&dir), Some(self.table.clone()));
                Reply::Code(RAY_OK)
            }
        }
    }

    fn open(&mut self, mut opening: Opening) -> Result<SplayedTxLogProjection, RayforceAdapterError> {
        while let Some(action) = opening.action() {
            let reply = self.perform(action);
            opening = opening.advance(reply)?;
        }
        Ok(opening.into_projection().unwrap())
    }

    fn load(&mut self, layout: &TxLogLayout) -> Result<Vec<CommitEnvelope>, RayforceAdapterError> {
        let mut load = load_envelopes(layout);
        while let Some(action) = load.action() {
            let reply = self.perform(action);
            load = load.advance(reply)?;
        }
        Ok(load.into_envelopes().unwrap())
    }

    fn write(&mut self, mut rebuild: Rebuild) -> Result<(), RayforceAdapterError> {
        while let Some(action) = rebuild.action() {
            let reply = self.perform(action);
            rebuild = rebuild.advance(reply)?;
        }
        Ok(())
    }

    fn save(&mut self, mut save: TableSave) -> Result<(), RayforceAdapterError> {
        while let Some(action) = save.action() {
            let reply = self.perform(action);
            save = save.advance(reply)?;
        }
        Ok(())
    }

    fn build(&mut self, mut builder: TableBuilder) -> Result<(), RayforceAdapterError> {
        while let Some(action) = builder.action() {
            let reply = self.perform(action);
            builder = builder.advance(reply)?;
        }
        Ok(())
    }
}

fn refused() -> Reply {
    Reply::Io(Err(Error::new(ErrorKind::PermissionDenied, "refused")))
}

fn ends_with(path: &Path, name: &str) -> bool {
    path.to_str().unwrap().ends_with(name)
}

fn layout() -> TxLogLayout {
    TxLogLayout::new("/data/log")
}

fn metadata(source: &str) -> serde_json::Value {
    let mut map = serde_json::Map::new();
    map.insert("source".to_string(), serde_json::Value::String(source.to_string()));
    serde_json::Value::Object(map)
}

fn tx(id: u64, kind: ActorKind) -> Tx {
    Tx::new(
        TxId(id),
        TxTime("2026-05-17T00:00:00Z".to_string()),
        PrincipalId("principal/alice".to_string()),
        kind,
        "task.create".to_string(),
        metadata("test"),
    )
}

fn datom(entity: &str, id: u64) -> Datom {
    Datom::add(
        EntityId(entity.to_string()),
        "task/title".to_string(),
        DatomValue::new("str".to_string(), "\"T1\"".to_string()),
        TxId(id),
    )
}

fn envelope(id: u64) -> CommitEnvelope {
    CommitEnvelope::new(
        tx(id, ActorKind::Human).with_idempotency_key(format!("idem-{}", id)),
        vec![datom(&format!("task/T{}", id), id)],
    )
}

/// A store that a log of those envelopes was written to.
fn store_with(envelopes: &[CommitEnvelope]) -> Store {
    let mut store = Store::new();
    let mut projection = store.open(SplayedTxLogProjection::new(layout())).unwrap();
    for envelope in envelopes {
        let rebuild = projection.append_envelope(envelope);
        store.write(rebuild).unwrap();
    }
    store.asked.clear();
    store
}

#[test]
fn projection_roundtrips_envelopes_from_splayed_tables() {
    let mut store = Store::new();
    let layout = TxLogLayout::new(format!("/tmp/rayforce-adapter-test-{}", 1));
    let mut projection = store.open(SplayedTxLogProjection::new(layout.clone())).unwrap();
    let envelope = CommitEnvelope::new(
        Tx::new(
            TxId(1),
            TxTime("2026-05-17T00:00:00Z".to_string()),
            PrincipalId("principal/alice".to_string()),
            ActorKind::Human,
            "task.create".to_string(),
            metadata("test"),
        )
        .with_idempotency_key("idem-1".to_string()),
        vec![Datom::add(
            EntityId("task/T1".to_string()),
            "task/title".to_string(),
            DatomValue::new("str".to_string(), "\"T1\"".to_string()),
            TxId(1),
        )],
    );

    let rebuild = projection.append_envelope(&envelope);
    store.write(rebuild).unwrap();
    let reopened = store.open(SplayedTxLogProjection::open(layout)).unwrap();
    let loaded = reopened.envelopes();

    assert_eq!(loaded.len(), 1);
    assert_eq!(loaded[0].tx.tx_id, TxId(1));
    assert_eq!(loaded[0].tx.idempotency_key.as_deref(), Some("idem-1"));
    assert_eq!(loaded[0].tx.metadata["source"], "test");
    assert_eq!(loaded[0].datoms.len(), 1);
    assert_eq!(loaded[0].datoms[0].entity, EntityId("task/T1".to_string()));
    assert_eq!(loaded[0], envelope);
}

#[test]
fn log_comes_back_unchanged_in_a_new_process() {
    let mut retracted = datom("task/T9", 2);
    retracted.added = false;
    let log = vec![
        CommitEnvelope::new(tx(5, ActorKind::Worker), vec![datom("a", 5), datom("b", 5)]),
        CommitEnvelope::new(tx(2, ActorKind::Adapter), vec![retracted]),
        CommitEnvelope::new(tx(9, ActorKind::System), vec![]),
        envelope(1),
    ];
    let mut store = store_with(&log).restarted();
    let reopened = store.open(SplayedTxLogProjection::open(layout())).unwrap();
    assert_eq!(reopened.envelopes(), log.as_slice());
    assert_eq!(reopened.layout().root(), Path::new("/data/log"));
}

#[test]
fn log_goes_on_after_reopening() {
    let mut store = store_with(&[envelope(1)]).restarted();
    let mut projection = store.open(SplayedTxLogProjection::open(layout())).unwrap();
    let rebuild = projection.append_envelope(&envelope(2));
    store.write(rebuild).unwrap();
    assert_eq!(store.restarted().load(&layout()).unwrap(), vec![envelope(1), envelope(2)]);
}

#[test]
fn rebuild_writes_the_log_again() {
    let mut store = store_with(&[envelope(1), envelope(2)]);
    let projection = store.open(SplayedTxLogProjection::open(layout())).unwrap();
    store.dirs.clear();
    store.files.clear();
    store.write(projection.rebuild()).unwrap();
    assert_eq!(store.restarted().load(&layout()).unwrap(), vec![envelope(1), envelope(2)]);
}

#[test]
fn log_that_was_never_written_is_empty() {
    let mut store = Store::new();
    assert!(store.load(&layout()).unwrap().is_empty());
    let projection = store.open(SplayedTxLogProjection::open(layout())).unwrap();
    assert!(projection.envelopes().is_empty());
    assert!(store.dirs.contains_key(Path::new("/data/log")));
}

#[test]
fn new_projection_starts_empty_over_an_old_log() {
    let mut store = store_with(&[envelope(1)]);
    let projection = store.open(SplayedTxLogProjection::new(layout())).unwrap();
    assert!(projection.envelopes().is_empty());
}

#[test]
fn empty_log_can_be_written() {
    let mut store = Store::new();
    let projection = store.open(SplayedTxLogProjection::new(layout())).unwrap();
    store.write(projection.rebuild()).unwrap();
    assert!(store.restarted().load(&layout()).unwrap().is_empty());
}

#[test]
fn log_without_a_datom_table_has_no_datoms() {
    let mut store = store_with(&[envelope(1)]);
    store.dirs.remove(Path::new("/data/log/datom"));
    let log = store.load(&layout()).unwrap();
    assert_eq!(log.len(), 1);
    assert!(log[0].datoms.is_empty());
}

#[test]
fn repeated_ids_and_empty_keys_do_not_come_back_as_they_were() {
    let mut other = envelope(7);
    other.tx.idempotency_key = Some(String::new());
    let log = store_with(&[envelope(7), other]).load(&layout()).unwrap();
    assert_eq!(log.len(), 2);
    assert_eq!(log[0].datoms, vec![datom("task/T7", 7), datom("task/T7", 7)]);
    assert!(log[1].datoms.is_empty());
    assert_eq!(log[1].tx.idempotency_key, None);
}

#[test]
fn large_tx_id_is_refused_on_loading() {
    let mut store = store_with(&[envelope(1 << 63)]);
    assert!(matches!(
        store.load(&layout()),
        Err(RayforceAdapterError::InvalidTxId(i64::MIN))
    ));
    let mut store = store_with(&[envelope((1 << 63) - 1)]);
    assert_eq!(store.load(&layout()).unwrap(), vec![envelope((1 << 63) - 1)]);
}

#[test]
fn loading_leaves_the_disk_as_it_is() {
    let mut store = store_with(&[envelope(1), envelope(2)]);
    let (dirs, files) = (store.dirs.clone(), store.files.clone());
    store.load(&layout()).unwrap();
    assert_eq!(store.dirs, dirs);
    assert_eq!(store.files, files);
    assert!(store.asked.iter().all(|a| !a.starts_with("Create") && !a.starts_with("Remove")));
}

#[test]
fn writing_leaves_only_the_log_behind() {
    let store = store_with(&[envelope(1), envelope(2)]);
    let dirs: Vec<&str> = store.dirs.keys().map(|p| p.to_str().unwrap()).collect();
    assert_eq!(dirs, vec!["/data/log", "/data/log/datom", "/data/log/tx"]);
    let files: Vec<&str> = store.files.keys().map(|p| p.to_str().unwrap()).collect();
    assert_eq!(files, vec!["/data/log/sym.ray"]);
}

#[test]
fn symbols_that_cannot_be_set_up_stop_everything() {
    let mut store = Store::new();
    store.rule = Some(|a| matches!(a, Action::SymInit).then_some(Reply::Code(4)));
    assert!(matches!(store.load(&layout()), Err(RayforceAdapterError::SymInit(4))));
    assert!(matches!(
        store.open(SplayedTxLogProjection::open(layout())),
        Err(RayforceAdapterError::SymInit(4))
    ));
    assert!(matches!(
        store.open(SplayedTxLogProjection::new(layout())),
        Err(RayforceAdapterError::SymInit(4))
    ));
    assert!(matches!(
        store.write(Rebuild::new(&layout(), &vec![])),
        Err(RayforceAdapterError::SymInit(4))
    ));
    assert_eq!(store.asked.len(), 4);
}

#[test]
fn root_that_cannot_be_created_stops_the_opening() {
    let mut store = Store::new();
    store.rule = Some(|a| matches!(a, Action::CreateDirAll(_)).then_some(refused()));
    match store.open(SplayedTxLogProjection::open(layout())) {
        Err(RayforceAdapterError::CreateDir { path, source }) => {
            assert_eq!(path, PathBuf::from("/data/log"));
            assert_eq!(source.kind(), ErrorKind::PermissionDenied);
        }
        other => panic!("{:?}", other.is_ok()),
    }
}

#[test]
fn symbols_that_cannot_be_loaded_stop_the_load() {
    let mut store = store_with(&[envelope(1)]);
    store.rule = Some(|a| matches!(a, Action::SymLoad(_)).then_some(Reply::Code(9)));
    match store.load(&layout()) {
        Err(RayforceAdapterError::SymLoad { path, code }) => {
            assert_eq!(path, PathBuf::from("/data/log/sym.ray"));
            assert_eq!(code, 9);
        }
        other => panic!("{:?}", other),
    }
}

#[test]
fn symbols_that_are_not_on_disk_are_not_loaded() {
    let mut store = store_with(&[envelope(1)]);
    store.files.clear();
    store.load(&layout()).unwrap();
    assert!(store.asked.iter().all(|a| !a.starts_with("SymLoad")));
}

#[test]
fn table_that_cannot_be_read_stops_the_load() {
    let mut store = store_with(&[envelope(1)]);
    store.rule = Some(|a| match a {
        Action::ReadSplayed { table: TableKind::Tx, .. } => Some(Reply::Object(Object::Null)),
        _ => None,
    });
    assert!(matches!(store.load(&layout()), Err(RayforceAdapterError::RayforceRead("tx"))));
    store.rule = Some(|a| match a {
        Action::ReadSplayed { table: TableKind::Datom, .. } => {
            Some(Reply::Object(Object::Typed(RAY_ERROR)))
        }
        _ => None,
    });
    assert!(matches!(store.load(&layout()), Err(RayforceAdapterError::RayforceRead("datom"))));
}

#[test]
fn missing_columns_stop_the_load() {
    let mut store = store_with(&[envelope(1)]);
    store.rule = Some(|a| match a {
        Action::SymFind("actor") => Some(Reply::Symbol(-1)),
        _ => None,
    });
    assert!(matches!(
        store.load(&layout()),
        Err(RayforceAdapterError::MissingColumn { table: "tx", column: "actor" })
    ));
    store.rule = Some(|a| match a {
        Action::GetColumn { table: TableKind::Datom, .. } => {
            Some(Reply::Object(Object::Typed(RAY_ERROR)))
        }
        _ => None,
    });
    assert!(matches!(
        store.load(&layout()),
        Err(RayforceAdapterError::MissingColumn { table: "datom", column: "tx_id" })
    ));
    store.rule = None;
    let added = store.find("added");
    if let Some(Some(table)) = store.dirs.get_mut(Path::new("/data/log/datom")) {
        table.retain(|c| c.name != added);
    }
    assert!(matches!(
        store.load(&layout()),
        Err(RayforceAdapterError::MissingColumn { table: "datom", column: "added" })
    ));
}

#[test]
fn values_that_do_not_parse_stop_the_load() {
    let mut bad = envelope(1);
    bad.datoms[0].value.json = "{".to_string();
    bad.tx.tx_id = TxId(1 << 63);
    let mut store = store_with(&[bad]);
    assert!(matches!(
        store.load(&layout()),
        Err(RayforceAdapterError::InvalidJson { field: "value_json", .. })
    ));
    assert!(store.asked.iter().all(|a| a != "ReadTxRows"));
}

#[test]
fn datom_rows_are_judged_before_tx_rows_are_read() {
    let mut store = store_with(&[envelope(1), envelope(2)]);
    store.load(&layout()).unwrap();
    let asked: Vec<&str> = store.asked.iter().map(|a| a.as_str()).collect();
    let from = asked.iter().position(|a| *a == "ReadDatomRows").unwrap();
    assert_eq!(
        &asked[from..],
        &[
            "ReadDatomRows",
            "ParseValue(\"\\\"T1\\\"\")",
            "ParseValue(\"\\\"T1\\\"\")",
            "ReadTxRows",
        ]
    );
}

#[test]
fn failing_on_the_datom_table_leaves_the_new_tx_table_in_place() {
    let mut store = store_with(&[envelope(1)]);
    let before = store.dirs.clone();
    store.rule = Some(|a| match a {
        Action::Rename { to, .. } if ends_with(to, "datom.old") => Some(refused()),
        _ => None,
    });
    let rebuild = Rebuild::new(&layout(), &vec![envelope(1), envelope(2)]);
    assert!(matches!(store.write(rebuild), Err(RayforceAdapterError::Rename { .. })));
    let datom = Path::new("/data/log/datom");
    assert_eq!(store.dirs[datom], before[datom]);
    let tx = store.dirs[Path::new("/data/log/tx")].clone().unwrap();
    assert_eq!(tx[0].cells, vec![1, 2]);
}

#[test]
fn failing_on_the_tx_table_leaves_the_datom_directories_alone() {
    let mut store = store_with(&[envelope(1)]);
    let before = store.dirs.clone();
    store.rule = Some(|a| match a {
        Action::Rename { to, .. } if ends_with(to, "tx.old") => Some(refused()),
        _ => None,
    });
    let rebuild = Rebuild::new(&layout(), &vec![envelope(1), envelope(2)]);
    assert!(matches!(store.write(rebuild), Err(RayforceAdapterError::Rename { .. })));
    for dir in ["/data/log/tx", "/data/log/datom"] {
        assert_eq!(store.dirs[Path::new(dir)], before[Path::new(dir)]);
    }
    assert!(!store.dirs.contains_key(Path::new("/data/log/datom.new")));
}

#[test]
fn rows_without_symbols_stop_the_load() {
    let mut store = store_with(&[envelope(1)]);
    let command = store.find("command");
    if let Some(Some(table)) = store.dirs.get_mut(Path::new("/data/log/tx")) {
        for column in table.iter_mut() {
            if column.name == command {
                column.cells[0] = 1_000_000;
            }
        }
    }
    assert!(matches!(store.load(&layout()), Err(RayforceAdapterError::RayforceRead("command"))));
}

#[test]
fn paths_with_a_zero_byte_cannot_be_saved_or_read() {
    let layout = TxLogLayout::new("/da\0ta");
    let mut store = Store::new();
    match store.write(Rebuild::new(&layout, &vec![])) {
        Err(RayforceAdapterError::NulPath(text)) => assert_eq!(text, "/da\0ta/tx.new"),
        other => panic!("{:?}", other),
    }
    store.dirs.insert(layout.tx_table_dir(), None);
    match store.load(&layout) {
        Err(RayforceAdapterError::NulPath(text)) => assert_eq!(text, "/da\0ta/tx"),
        other => panic!("{:?}", other),
    }
    store.files.insert(layout.sym_path(), vec![]);
    match store.load(&layout) {
        Err(RayforceAdapterError::NulPath(text)) => assert_eq!(text, "/da\0ta/sym.ray"),
        other => panic!("{:?}", other),
    }
}

#[test]
fn store_out_of_memory_stops_the_building() {
    let rules: [fn(&Action) -> Option<Reply>; 4] = [
        |a| matches!(a, Action::TableNew(7)).then_some(Reply::Object(Object::Null)),
        |a| matches!(a, Action::VecNew { .. }).then_some(Reply::Object(Object::Null)),
        |a| matches!(a, Action::VecAppend(_)).then_some(Reply::Object(Object::Null)),
        |a| matches!(a, Action::TableAddCol(_)).then_some(Reply::Object(Object::Null)),
    ];
    for rule in rules {
        let mut store = Store::new();
        store.rule = Some(rule);
        assert!(matches!(
            store.write(Rebuild::new(&layout(), &vec![envelope(1)])),
            Err(RayforceAdapterError::Allocation("tx"))
        ));
        assert!(store.dirs.is_empty());
    }
    let mut store = Store::new();
    store.rule = Some(|a| matches!(a, Action::TableNew(6)).then_some(Reply::Object(Object::Null)));
    assert!(matches!(
        store.write(Rebuild::new(&layout(), &vec![envelope(1)])),
        Err(RayforceAdapterError::Allocation("datom"))
    ));
}

#[test]
fn error_objects_do_not_stop_the_building() {
    let mut store = Store::new();
    store.rule = Some(|a| match a {
        Action::TableNew(_) | Action::VecNew { .. } => {
            Some(Reply::Object(Object::Typed(RAY_ERROR)))
        }
        _ => None,
    });
    assert!(store.write(Rebuild::new(&layout(), &vec![])).is_ok());
}

#[test]
fn symbols_that_cannot_be_saved_fail_the_rebuild() {
    let mut store = Store::new();
    store.rule = Some(|a| matches!(a, Action::SymSave(_)).then_some(Reply::Code(-2)));
    match store.write(Rebuild::new(&layout(), &vec![])) {
        Err(RayforceAdapterError::SymSave { path, code }) => {
            assert_eq!(path, PathBuf::from("/data/log/sym.ray"));
            assert_eq!(code, -2);
        }
        other => panic!("{:?}", other),
    }
}

#[test]
fn envelope_stays_in_the_log_when_writing_fails() {
    let mut store = store_with(&[]);
    let mut projection = store.open(SplayedTxLogProjection::new(layout())).unwrap();
    store.rule = Some(|a| matches!(a, Action::SplaySave { .. }).then_some(Reply::Code(1)));
    let rebuild = projection.append_envelope(&envelope(1));
    assert!(store.write(rebuild).is_err());
    assert_eq!(projection.envelopes(), &[envelope(1)]);
    store.rule = None;
    let rebuild = projection.append_envelope(&envelope(2));
    store.write(rebuild).unwrap();
    assert_eq!(store.restarted().load(&layout()).unwrap(), vec![envelope(1), envelope(2)]);
}

#[test]
fn save_that_fails_to_write_leaves_the_log_as_it_was() {
    let mut store = store_with(&[envelope(1)]);
    store.rule = Some(|a| matches!(a, Action::SplaySave { .. }).then_some(Reply::Code(5)));
    match store.write(Rebuild::new(&layout(), &vec![envelope(1), envelope(2)])) {
        Err(RayforceAdapterError::SplaySave { dir, code }) => {
            assert_eq!(dir, PathBuf::from("/data/log/tx.new"));
            assert_eq!(code, 5);
        }
        other => panic!("{:?}", other),
    }
    store.rule = None;
    assert_eq!(store.restarted().load(&layout()).unwrap(), vec![envelope(1)]);
}

#[test]
fn new_directory_that_cannot_be_created_fails_the_save() {
    let mut store = Store::new();
    store.rule = Some(|a| matches!(a, Action::CreateDirAll(_)).then_some(refused()));
    match store.write(Rebuild::new(&layout(), &vec![])) {
        Err(RayforceAdapterError::CreateDir { path, .. }) => {
            assert_eq!(path, PathBuf::from("/data/log/tx.new"));
        }
        other => panic!("{:?}", other),
    }
}

#[test]
fn live_directory_that_cannot_be_moved_stays() {
    let mut store = store_with(&[envelope(1)]);
    let before = store.dirs[Path::new("/data/log/tx")].clone();
    store.rule = Some(|a| match a {
        Action::Rename { to, .. } if ends_with(to, ".old") => Some(refused()),
        _ => None,
    });
    match store.write(Rebuild::new(&layout(), &vec![])) {
        Err(RayforceAdapterError::Rename { from, to, .. }) => {
            assert_eq!(from, PathBuf::from("/data/log/tx"));
            assert_eq!(to, PathBuf::from("/data/log/tx.old"));
        }
        other => panic!("{:?}", other),
    }
    assert_eq!(store.dirs[Path::new("/data/log/tx")], before);
}

#[test]
fn failing_to_put_the_new_table_in_place_keeps_both() {
    let mut store = store_with(&[envelope(1)]);
    let before = store.dirs[Path::new("/data/log/tx")].clone();
    store.rule = Some(|a| match a {
        Action::Rename { to, .. } if ends_with(to, "/tx") => Some(refused()),
        _ => None,
    });
    match store.write(Rebuild::new(&layout(), &vec![])) {
        Err(RayforceAdapterError::Rename { from, to, .. }) => {
            assert_eq!(from, PathBuf::from("/data/log/tx.new"));
            assert_eq!(to, PathBuf::from("/data/log/tx"));
        }
        other => panic!("{:?}", other),
    }
    assert_eq!(store.dirs[Path::new("/data/log/tx.old")], before);
    assert!(store.dirs[Path::new("/data/log/tx.new")].is_some());
    assert!(!store.dirs.contains_key(Path::new("/data/log/tx")));
}

#[test]
fn first_save_asks_for_no_more_than_it_needs() {
    let mut store = Store::new();
    let save = TableSave::new(PathBuf::from("/l/tx"), PathBuf::from("/l/s"));
    store.save(save).unwrap();
    assert_eq!(
        store.asked,
        vec![
            "PathExists(\"/l/tx.new\")".to_string(),
            "CreateDirAll(\"/l/tx.new\")".to_string(),
            format!(
                "SplaySave {{ dir: {:?}, sym: {:?} }}",
                b"/l/tx.new\0".to_vec(),
                b"/l/s\0".to_vec()
            ),
            "PathExists(\"/l/tx\")".to_string(),
            "Rename { from: \"/l/tx.new\", to: \"/l/tx\" }".to_string(),
            "PathExists(\"/l/tx.old\")".to_string(),
        ]
    );
}

#[test]
fn save_over_leftovers_clears_them() {
    let mut store = Store::new();
    for dir in ["/l/tx", "/l/tx.new", "/l/tx.old"] {
        store.dirs.insert(PathBuf::from(dir), None);
    }
    store.save(TableSave::new(PathBuf::from("/l/tx"), PathBuf::from("/l/s"))).unwrap();
    let without_splay: Vec<&str> = store
        .asked
        .iter()
        .map(|a| a.as_str())
        .filter(|a| !a.starts_with("SplaySave"))
        .collect();
    assert_eq!(
        without_splay,
        vec![
            "PathExists(\"/l/tx.new\")",
            "RemoveDirAll(\"/l/tx.new\")",
            "CreateDirAll(\"/l/tx.new\")",
            "PathExists(\"/l/tx\")",
            "PathExists(\"/l/tx.old\")",
            "RemoveDirAll(\"/l/tx.old\")",
            "Rename { from: \"/l/tx\", to: \"/l/tx.old\" }",
            "Rename { from: \"/l/tx.new\", to: \"/l/tx\" }",
            "PathExists(\"/l/tx.old\")",
            "RemoveDirAll(\"/l/tx.old\")",
        ]
    );
    assert_eq!(store.dirs.len(), 1);
    assert_eq!(store.dirs[Path::new("/l/tx")], Some(vec![]));
}

#[test]
fn builder_builds_cell_by_cell() {
    let mut store = Store::new();
    let table = Table {
        label: "t",
        columns: vec![
            Column { name: "n", cells: Cells::I64(vec![7, -8]) },
            Column { name: "s", cells: Cells::Sym(vec!["x".to_string(), "n".to_string()]) },
        ],
    };
    store.build(TableBuilder::new(table)).unwrap();
    assert_eq!(
        store.asked,
        vec![
            "TableNew(2)",
            "VecNew { type_code: 5, capacity: 2 }",
            "VecAppend(7)",
            "VecAppend(-8)",
            "SymIntern(\"n\")",
            "TableAddCol(0)",
            "VecNew { type_code: 12, capacity: 2 }",
            "SymIntern(\"x\")",
            "VecAppend(1)",
            "SymIntern(\"n\")",
            "VecAppend(0)",
            "SymIntern(\"s\")",
            "TableAddCol(2)",
        ]
    );
    assert_eq!(
        store.table[0],
        StoredColumn { name: 0, type_code: RAY_I64, cells: vec![7, -8] }
    );
    assert_eq!(store.table[1].cells, vec![1, 0]);
}

#[test]
fn rebuild_writes_tx_then_datom_then_symbols() {
    let mut store = Store::new();
    store.write(Rebuild::new(&layout(), &vec![envelope(1)])).unwrap();
    let kept: Vec<&str> = store
        .asked
        .iter()
        .map(|a| a.split(|c: char| !c.is_alphanumeric()).next().unwrap())
        .filter(|a| ["SymInit", "TableNew", "SplaySave", "SymSave"].contains(a))
        .collect();
    assert_eq!(kept, vec!["SymInit", "TableNew", "SplaySave", "TableNew", "SplaySave", "SymSave"]);
}

#[test]
fn opened_log_with_a_repeated_id_is_written_as_it_was_loaded() {
    let mut store = store_with(&[envelope(7), envelope(3), envelope(7)]).restarted();
    let projection = store.open(SplayedTxLogProjection::open(layout())).unwrap();
    assert_eq!(projection.envelopes(), store.load(&layout()).unwrap().as_slice());
    store.write(projection.rebuild()).unwrap();
    let dirs = store.dirs.clone();
    store.write(projection.rebuild()).unwrap();
    assert_eq!(store.dirs, dirs);
    assert_eq!(store.restarted().load(&layout()).unwrap().as_slice(), projection.envelopes());
}

#[test]
fn symbol_file_holds_every_symbol_of_both_tables() {
    let mut store = Store::new();
    store.write(Rebuild::new(&layout(), &vec![envelope(1)])).unwrap();
    let saved = &store.files[Path::new("/data/log/sym.ray")];
    for text in [
        "tx_id",
        "metadata_json",
        "value_kind",
        "2026-05-17T00:00:00Z",
        "principal/alice",
        "human",
        "task.create",
        "idem-1",
        "{\"source\":\"test\"}",
        "task/T1",
        "task/title",
        "str",
        "\"T1\"",
    ] {
        assert!(saved.iter().any(|s| s == text), "{}", text);
    }
}
