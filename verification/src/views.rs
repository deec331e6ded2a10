//! What views show: every field of what they are views of, as it is.

use vstd::prelude::*;

use crate::builder::{builder_result, TableBuilder};
use crate::decode::{
    datom_row_views, parsed_view, text_result, tx_row_views, DatomRow, SymCell, TxRow,
};
use crate::error::{ErrorView, RayforceAdapterError};
use crate::load::{load_result, Load};
use crate::log::{
    datom_views, envelope_views, CommitEnvelope, Datom, DatomValue, Tx,
};
use crate::path::{c_bytes, c_safe, path_lossy};
use crate::projection::{opening_result, Opening};
use crate::protocol::{
    action_view, fits, unit_result, Action, ActionView, Object, Reply, ReplyView, TableKind,
    RAY_ERROR, RAY_OK,
};
use crate::reader::{
    columns_read, label_of, lookup_result, reader_result, ColumnLookup, TableReader,
};
use crate::rebuild::{rebuild_result, Rebuild};
use crate::save::{save_result, TableSave};
use crate::table::{column_views, texts, Cells, CellsView, Column, Table, RAY_I64, RAY_SYM};
use std::path::PathBuf;
use vstd::utf8::encode_utf8;

verus! {

/// The view of a transaction shows each of its fields.
pub proof fn law_tx_is_shown(tx: Tx)
    ensures
        tx@.tx_id == tx.tx_id.0,
        tx@.tx_time == tx.tx_time.0@,
        tx@.actor == tx.actor.0@,
        tx@.actor_kind == tx.actor_kind,
        tx@.command == tx.command@,
        match tx.idempotency_key {
            Some(key) => tx@.idempotency_key == Some(key@),
            None => tx@.idempotency_key is None,
        },
        tx@.metadata == tx.metadata,
{
}

/// The view of a datom shows each of its fields.
pub proof fn law_datom_is_shown(datom: Datom, value: DatomValue)
    ensures
        value@.kind == value.kind@,
        value@.json == value.json@,
        datom@.entity == datom.entity.0@,
        datom@.attr == datom.attr@,
        datom@.value == datom.value@,
        datom@.tx == datom.tx.0,
        datom@.added == datom.added,
{
}

/// The view of an envelope shows its transaction and its datoms, in order, and a
/// log shows its envelopes, in order.
pub proof fn law_envelopes_are_shown(
    envelope: CommitEnvelope,
    envelopes: Seq<CommitEnvelope>,
    datoms: Seq<Datom>,
)
    ensures
        envelope@.tx == envelope.tx@,
        envelope@.datoms == datom_views(envelope.datoms@),
        datom_views(datoms).len() == datoms.len(),
        forall|i: int| 0 <= i < datoms.len() ==> #[trigger] datom_views(datoms)[i] == datoms[i]@,
        envelope_views(envelopes).len() == envelopes.len(),
        forall|i: int|
            0 <= i < envelopes.len() ==> #[trigger] envelope_views(envelopes)[i] == envelopes[i]@,
{
}

/// The view of a table shows its label and its columns, in order, each by its name
/// and its cells, in order.
pub proof fn law_table_is_shown(
    table: Table,
    columns: Seq<Column>,
    column: Column,
    cells: Cells,
    strings: Seq<String>,
)
    ensures
        table@.label == table.label@,
        table@.columns == column_views(table.columns@),
        column_views(columns).len() == columns.len(),
        forall|i: int|
            0 <= i < columns.len() ==> #[trigger] column_views(columns)[i] == columns[i]@,
        column@.name == column.name@,
        column@.cells == column.cells@,
        match cells {
            Cells::I64(values) => cells@ == CellsView::I64(values@) && cells@.len() == values@.len()
                && cells@.type_code() == 5,
            Cells::Sym(values) => cells@ == CellsView::Sym(texts(values@)) && cells@.len()
                == values@.len() && cells@.type_code() == 12,
        },
        texts(strings).len() == strings.len(),
        forall|i: int| 0 <= i < strings.len() ==> #[trigger] texts(strings)[i] == strings[i]@,
{
}

/// The view of a row shows each of its cells, and rows are shown in order.
pub proof fn law_rows_are_shown(
    cell: SymCell,
    tx: TxRow,
    datom: DatomRow,
    txs: Seq<TxRow>,
    datoms: Seq<DatomRow>,
)
    ensures
        match cell {
            SymCell::Unreadable => cell@ is None,
            SymCell::Bytes(bytes) => cell@ == Some(bytes@),
        },
        tx@.tx_id == tx.tx_id,
        tx@.tx_time == tx.tx_time@,
        tx@.actor == tx.actor@,
        tx@.actor_kind == tx.actor_kind@,
        tx@.command == tx.command@,
        tx@.idempotency_key == tx.idempotency_key@,
        tx@.metadata_json == tx.metadata_json@,
        datom@.tx_id == datom.tx_id,
        datom@.entity == datom.entity@,
        datom@.attr == datom.attr@,
        datom@.value_json == datom.value_json@,
        datom@.added == datom.added,
        tx_row_views(txs).len() == txs.len(),
        forall|i: int| 0 <= i < txs.len() ==> #[trigger] tx_row_views(txs)[i] == txs[i]@,
        datom_row_views(datoms).len() == datoms.len(),
        forall|i: int|
            0 <= i < datoms.len() ==> #[trigger] datom_row_views(datoms)[i] == datoms[i]@,
{
}

/// The view of a failure shows which it is and all that it carries.
pub proof fn law_failure_is_shown(failure: RayforceAdapterError)
    ensures
        match failure {
            RayforceAdapterError::NulPath(text) => failure@ == ErrorView::NulPath(text@),
            RayforceAdapterError::Allocation(label) => failure@ == ErrorView::Allocation(label@),
            RayforceAdapterError::SymInit(code) => failure@ == ErrorView::SymInit(code),
            RayforceAdapterError::RayforceRead(what) => failure@ == ErrorView::RayforceRead(what@),
            RayforceAdapterError::SplaySave { dir, code } => failure@ == (ErrorView::SplaySave {
                dir,
                code,
            }),
            RayforceAdapterError::SymSave { path, code } => failure@ == (ErrorView::SymSave {
                path,
                code,
            }),
            RayforceAdapterError::SymLoad { path, code } => failure@ == (ErrorView::SymLoad {
                path,
                code,
            }),
            RayforceAdapterError::MissingColumn { table, column } => failure@ == (
            ErrorView::MissingColumn { table: table@, column: column@ }),
            RayforceAdapterError::InvalidTxId(id) => failure@ == ErrorView::InvalidTxId(id),
            RayforceAdapterError::InvalidActorKind(kind) => failure@
                == ErrorView::InvalidActorKind(kind@),
            RayforceAdapterError::InvalidJson { field, source } => failure@ == (
            ErrorView::InvalidJson { field: field@, source }),
            RayforceAdapterError::InvalidUtf8 { field, source } => failure@ == (
            ErrorView::InvalidUtf8 { field: field@, source }),
            RayforceAdapterError::CreateDir { path, source } => failure@ == (ErrorView::CreateDir {
                path,
                source,
            }),
            RayforceAdapterError::Rename { from, to, source } => failure@ == (ErrorView::Rename {
                from,
                to,
                source,
            }),
        },
{
}

/// The view of a request shows which it is and all that it names.
pub proof fn law_request_is_shown(action: Action)
    ensures
        action_view(Some(action)) == Some(action@),
        action_view(None) is None,
        match action {
            Action::SymInit => action@ == ActionView::SymInit,
            Action::PathExists(path) => action@ == ActionView::PathExists(path),
            Action::CreateDirAll(path) => action@ == ActionView::CreateDirAll(path),
            Action::RemoveDirAll(path) => action@ == ActionView::RemoveDirAll(path),
            Action::Rename { from, to } => action@ == (ActionView::Rename { from, to }),
            Action::SymLoad(path) => action@ == ActionView::SymLoad(path@),
            Action::SymSave(path) => action@ == ActionView::SymSave(path@),
            Action::ReadSplayed { table, dir, sym } => action@ == (ActionView::ReadSplayed {
                table,
                dir: dir@,
                sym: sym@,
            }),
            Action::SymFind(name) => action@ == ActionView::SymFind(name@),
            Action::GetColumn { table, name_id } => action@ == (ActionView::GetColumn {
                table,
                name_id,
            }),
            Action::ReadDatomRows => action@ == ActionView::ReadDatomRows,
            Action::ReadTxRows => action@ == ActionView::ReadTxRows,
            Action::ParseValue(json) => action@ == ActionView::ParseValue(json@),
            Action::TableNew(columns) => action@ == ActionView::TableNew(columns),
            Action::VecNew { type_code, capacity } => action@ == (ActionView::VecNew {
                type_code,
                capacity,
            }),
            Action::VecAppend(cell) => action@ == ActionView::VecAppend(cell),
            Action::SymIntern(text) => action@ == ActionView::SymIntern(text@),
            Action::TableAddCol(name_id) => action@ == ActionView::TableAddCol(name_id),
            Action::SplaySave { dir, sym } => action@ == (ActionView::SplaySave {
                dir: dir@,
                sym: sym@,
            }),
        },
{
}

/// The view of an answer shows which it is and all that it carries.
pub proof fn law_answer_is_shown(reply: Reply)
    ensures
        match reply {
            Reply::Code(code) => reply@ == ReplyView::Code(code),
            Reply::Flag(flag) => reply@ == ReplyView::Flag(flag),
            Reply::Io(result) => reply@ == ReplyView::Io(result),
            Reply::Done => reply@ == ReplyView::Done,
            Reply::Object(object) => reply@ == ReplyView::Object(object),
            Reply::Symbol(id) => reply@ == ReplyView::Symbol(id),
            Reply::DatomRows(rows) => reply@ == ReplyView::DatomRows(datom_row_views(rows@)),
            Reply::TxRows(rows) => reply@ == ReplyView::TxRows(tx_row_views(rows@)),
            Reply::Parsed(Ok(value)) => reply@ == ReplyView::Parsed(Ok(value@)),
            Reply::Parsed(Err(source)) => reply@ == ReplyView::Parsed(Err(source)),
        },
{
}

/// Each request is answered by one kind of answer, and by every answer of that
/// kind; without a request there is nothing to answer.
pub proof fn law_each_request_has_its_answer(action: ActionView, reply: ReplyView)
    ensures
        fits(Some(action), reply) <==> match reply {
            ReplyView::Code(_) => action is SymInit || action is SymLoad || action is SymSave
                || action is SplaySave,
            ReplyView::Flag(_) => action is PathExists,
            ReplyView::Io(_) => action is CreateDirAll || action is Rename,
            ReplyView::Done => action is RemoveDirAll,
            ReplyView::Object(_) => action is ReadSplayed || action is GetColumn
                || action is TableNew || action is VecNew || action is VecAppend
                || action is TableAddCol,
            ReplyView::Symbol(_) => action is SymFind || action is SymIntern,
            ReplyView::DatomRows(_) => action is ReadDatomRows,
            ReplyView::TxRows(_) => action is ReadTxRows,
            ReplyView::Parsed(_) => action is ParseValue,
        },
        !fits(None, reply),
{
}

/// The view of an outcome shows whether it is a success, and what it carries.
pub proof fn law_outcomes_are_shown(
    builder: TableBuilder,
    save: TableSave,
    reader: TableReader,
    lookup: ColumnLookup,
    load: Load,
    rebuild: Rebuild,
    opening: Opening,
    text: String,
    value: DatomValue,
    source: serde_json::Error,
    err: RayforceAdapterError,
)
    ensures
        builder_result(Ok(builder)) matches Ok(shown) && shown == builder@,
        builder_result(Err(err)) matches Err(shown) && shown == err@,
        save_result(Ok(save)) matches Ok(shown) && shown == save@,
        save_result(Err(err)) matches Err(shown) && shown == err@,
        reader_result(Ok(reader)) matches Ok(shown) && shown == reader@,
        reader_result(Err(err)) matches Err(shown) && shown == err@,
        lookup_result(Ok(lookup)) matches Ok(shown) && shown == lookup@,
        lookup_result(Err(err)) matches Err(shown) && shown == err@,
        load_result(Ok(load)) matches Ok(shown) && shown == load@,
        load_result(Err(err)) matches Err(shown) && shown == err@,
        rebuild_result(Ok(rebuild)) matches Ok(shown) && shown == rebuild@,
        rebuild_result(Err(err)) matches Err(shown) && shown == err@,
        opening_result(Ok(opening)) matches Ok(shown) && shown == opening@,
        opening_result(Err(err)) matches Err(shown) && shown == err@,
        text_result(Ok(text)) matches Ok(shown) && shown == text@,
        text_result(Err(err)) matches Err(shown) && shown == err@,
        unit_result(Ok(())) is Ok,
        unit_result(Err(err)) matches Err(shown) && shown == err@,
        parsed_view(Ok(value)) matches Ok(shown) && shown == value@,
        parsed_view(Err(source)) matches Err(shown) && shown == source,
{
}

/// The codes that are agreed on with the store, and what counts as an object that
/// can be used: one that is there and is no error object.
pub proof fn law_codes_are_agreed(object: Object)
    ensures
        RAY_OK == 0,
        RAY_ERROR == 127,
        RAY_I64 == 5,
        RAY_SYM == 12,
        object.usable() <==> object != Object::Null && object != Object::Typed(127),
{
}

/// The labels of the tables, and the columns that are read of each.
pub proof fn law_tables_have_columns()
    ensures
        label_of(TableKind::Tx) == "tx"@,
        label_of(TableKind::Datom) == "datom"@,
        columns_read(TableKind::Tx).len() == 7,
        columns_read(TableKind::Tx)[0] == "tx_id"@,
        columns_read(TableKind::Tx)[1] == "tx_time"@,
        columns_read(TableKind::Tx)[2] == "actor"@,
        columns_read(TableKind::Tx)[3] == "actor_kind"@,
        columns_read(TableKind::Tx)[4] == "command"@,
        columns_read(TableKind::Tx)[5] == "idempotency_key"@,
        columns_read(TableKind::Tx)[6] == "metadata_json"@,
        columns_read(TableKind::Datom).len() == 5,
        columns_read(TableKind::Datom)[0] == "tx_id"@,
        columns_read(TableKind::Datom)[1] == "entity"@,
        columns_read(TableKind::Datom)[2] == "attr"@,
        columns_read(TableKind::Datom)[3] == "value_json"@,
        columns_read(TableKind::Datom)[4] == "added"@,
{
}

/// What C is handed for a path: the path's text in UTF-8 and one closing zero; a
/// path with a zero before that cannot be handed over.
pub proof fn law_c_string_ends_at_its_zero(path: PathBuf)
    ensures
        c_bytes(path).len() == encode_utf8(path_lossy(path)).len() + 1,
        c_bytes(path).last() == 0,
        c_bytes(path).drop_last() == encode_utf8(path_lossy(path)),
        c_safe(path) <==> forall|i: int|
            0 <= i < c_bytes(path).len() - 1 ==> #[trigger] c_bytes(path)[i] != 0,
{
    let text = encode_utf8(path_lossy(path));
    assert(c_bytes(path).drop_last() =~= text);
    assert forall|i: int| 0 <= i < text.len() implies #[trigger] c_bytes(path)[i] == text[i] by {}
    if text.contains(0) {
        let k = text.index_of(0);
        assert(c_bytes(path)[k] == 0);
    }
}

} // verus!
