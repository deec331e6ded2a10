//! Every process ends, whatever it is answered, and loading changes nothing.

use vstd::prelude::*;

use crate::builder::BuilderView;
use crate::laws::{law_assembled_log_is_loadable, loadable};
use crate::load::{LoadPointView, LoadView};
use crate::projection::{OpeningPointView, OpeningView};
use crate::protocol::{ActionView, ReplyView};
use crate::reader::{columns_read, LookupView, OpenPoint, ReaderView};
use crate::rebuild::{RebuildPointView, RebuildView};
use crate::run::{builder_steps, law_building_ends, law_saving_ends, save_steps};
use crate::store::StoreView;

verus! {

/// An upper bound on the requests that are left to open a table.
pub open spec fn reader_steps(process: ReaderView) -> nat {
    match process.at {
        OpenPoint::CheckDir => 4,
        OpenPoint::CheckSym => 3,
        OpenPoint::LoadSym => 2,
        OpenPoint::Read => 1,
        OpenPoint::Absent | OpenPoint::Opened => 0,
    }
}

/// Every answer that does not end the opening of a table brings its end closer.
pub proof fn law_reading_ends(process: ReaderView, reply: ReplyView)
    requires
        process.action() matches Some(action) && action.answered_by(reply),
    ensures
        process.advance(reply) matches Ok(next) ==> reader_steps(next) < reader_steps(process),
{
}

/// An upper bound on the requests that are left to find the columns of a table.
pub open spec fn lookup_steps(process: LookupView) -> int {
    2 * (columns_read(process.kind).len() - process.col) - if process.name_id is Some {
        1int
    } else {
        0int
    }
}

/// Every answer that does not end the search for columns brings its end closer.
pub proof fn law_lookup_ends(process: LookupView, reply: ReplyView)
    requires
        process.action() matches Some(action) && action.answered_by(reply),
    ensures
        process.advance(reply) matches Ok(next) ==> 0 <= lookup_steps(next) < lookup_steps(process),
{
}

/// How many stages a load has left.
pub open spec fn load_stage(process: LoadView) -> nat {
    match process.at {
        LoadPointView::Init => 8,
        LoadPointView::OpenTx(_) => 7,
        LoadPointView::OpenDatom(_) => 6,
        LoadPointView::TxColumns { .. } => 5,
        LoadPointView::DatomColumns(_) => 4,
        LoadPointView::DatomRows => 3,
        LoadPointView::Values { .. } => 2,
        LoadPointView::TxRows(_) => 1,
        LoadPointView::Done(_) => 0,
    }
}

/// An upper bound on the requests that are left of the stage of a load.
pub open spec fn load_stage_steps(process: LoadView) -> int {
    match process.at {
        LoadPointView::Init => 1,
        LoadPointView::OpenTx(reader) => reader_steps(reader) as int,
        LoadPointView::OpenDatom(reader) => reader_steps(reader) as int,
        LoadPointView::TxColumns { lookup, .. } => lookup_steps(lookup),
        LoadPointView::DatomColumns(lookup) => lookup_steps(lookup),
        LoadPointView::DatomRows => 1,
        LoadPointView::Values { rows, next, .. } => rows.len() - next,
        LoadPointView::TxRows(_) => 1,
        LoadPointView::Done(_) => 0,
    }
}

/// Every answer that does not end a load brings the end of its stage closer, or
/// leads to a later stage. How long the parsing of values is lies in the answer
/// that starts it.
pub proof fn law_loading_ends(process: LoadView, reply: ReplyView)
    requires
        process.wf(),
        process.action() matches Some(action) && action.answered_by(reply),
    ensures
        process.advance(reply) matches Ok(next) ==> {
            &&& next.wf()
            &&& next.layout == process.layout
            &&& load_stage(next) < load_stage(process) || {
                &&& load_stage(next) == load_stage(process)
                &&& 0 <= load_stage_steps(next) < load_stage_steps(process)
            }
        },
{
    match process.at {
        LoadPointView::OpenTx(reader) => {
            law_reading_ends(reader, reply);
            assert(loadable(Seq::empty()));
        },
        LoadPointView::OpenDatom(reader) => law_reading_ends(reader, reply),
        LoadPointView::TxColumns { lookup, .. } => law_lookup_ends(lookup, reply),
        LoadPointView::DatomColumns(lookup) => law_lookup_ends(lookup, reply),
        LoadPointView::TxRows(datoms) => {
            if let ReplyView::TxRows(tx) = reply {
                law_assembled_log_is_loadable(tx, datoms);
            }
        },
        _ => {},
    }
}

/// Whether a request leaves the disk as it is.
pub open spec fn only_reads(action: ActionView) -> bool {
    match action {
        ActionView::SymInit
        | ActionView::PathExists(_)
        | ActionView::SymLoad(_)
        | ActionView::ReadSplayed { .. }
        | ActionView::SymFind(_)
        | ActionView::GetColumn { .. }
        | ActionView::ReadDatomRows
        | ActionView::ReadTxRows
        | ActionView::ParseValue(_) => true,
        _ => false,
    }
}

/// At every point, whatever it was answered, loading asks only for what leaves
/// the disk as it is.
pub proof fn law_loading_only_reads(process: LoadView)
    ensures
        process.action() matches Some(action) ==> only_reads(action),
{
}

/// At every point, whatever it was answered, opening a projection asks to change
/// nothing on disk but to create the root.
pub proof fn law_opening_only_creates_the_root(process: OpeningView)
    ensures
        process.action() matches Some(action) ==> only_reads(action) || action
            == ActionView::CreateDirAll(process.layout.root_path()),
{
    if let OpeningPointView::Loading(load) = process.at {
        law_loading_only_reads(load);
    }
}

/// A request that only reads leaves the disk of a store that does what it is
/// asked as it is.
pub proof fn law_reading_keeps_the_disk(store: StoreView, action: ActionView)
    requires
        only_reads(action),
    ensures
        store.after(action).dirs == store.dirs,
        store.after(action).files == store.files,
{
    if let ActionView::SymLoad(path) = action {
        lemma_interning_keeps_the_disk(store, store.files[path]);
    }
}

proof fn lemma_interning_keeps_the_disk(store: StoreView, texts: Seq<Seq<char>>)
    ensures
        store.interned_all(texts).dirs == store.dirs,
        store.interned_all(texts).files == store.files,
    decreases texts.len(),
{
    if texts.len() > 0 {
        lemma_interning_keeps_the_disk(store, texts.drop_last());
    }
}

/// Whether the tables of a rebuild have rows that can be counted.
pub open spec fn tables_countable(process: RebuildView) -> bool {
    match process.at {
        RebuildPointView::Init { tx, datoms } => BuilderView::start(tx).wf() && BuilderView::start(
            datoms,
        ).wf(),
        RebuildPointView::BuildTx { builder, datoms } => builder.wf() && BuilderView::start(
            datoms,
        ).wf(),
        RebuildPointView::SaveTx { datoms, .. } => BuilderView::start(datoms).wf(),
        RebuildPointView::BuildDatoms(builder) => builder.wf(),
        _ => true,
    }
}

/// How many stages a rebuild has left.
pub open spec fn rebuild_stage(process: RebuildView) -> nat {
    match process.at {
        RebuildPointView::Init { .. } => 6,
        RebuildPointView::BuildTx { .. } => 5,
        RebuildPointView::SaveTx { .. } => 4,
        RebuildPointView::BuildDatoms(_) => 3,
        RebuildPointView::SaveDatoms(_) => 2,
        RebuildPointView::SaveSyms => 1,
        RebuildPointView::Done => 0,
    }
}

/// An upper bound on the requests that are left of the stage of a rebuild.
pub open spec fn rebuild_stage_steps(process: RebuildView) -> int {
    match process.at {
        RebuildPointView::Init { .. } => 1,
        RebuildPointView::BuildTx { builder, .. } => builder_steps(builder),
        RebuildPointView::SaveTx { save, .. } => save_steps(save) as int,
        RebuildPointView::BuildDatoms(builder) => builder_steps(builder),
        RebuildPointView::SaveDatoms(save) => save_steps(save) as int,
        RebuildPointView::SaveSyms => 1,
        RebuildPointView::Done => 0,
    }
}

/// Every answer that does not end a rebuild brings the end of its stage closer,
/// or leads to a later stage.
pub proof fn law_rebuilding_ends(process: RebuildView, reply: ReplyView)
    requires
        process.wf(),
        tables_countable(process),
        process.action() matches Some(action) && action.answered_by(reply),
    ensures
        process.advance(reply) matches Ok(next) ==> {
            &&& next.wf()
            &&& tables_countable(next)
            &&& next.layout == process.layout
            &&& rebuild_stage(next) < rebuild_stage(process) || {
                &&& rebuild_stage(next) == rebuild_stage(process)
                &&& 0 <= rebuild_stage_steps(next) < rebuild_stage_steps(process)
            }
        },
{
    match process.at {
        RebuildPointView::BuildTx { builder, .. } => law_building_ends(builder, reply),
        RebuildPointView::SaveTx { save, .. } => law_saving_ends(save, reply),
        RebuildPointView::BuildDatoms(builder) => law_building_ends(builder, reply),
        RebuildPointView::SaveDatoms(save) => law_saving_ends(save, reply),
        _ => {},
    }
}

/// How many stages the opening of a projection has left.
pub open spec fn opening_stage(process: OpeningView) -> nat {
    match process.at {
        OpeningPointView::Init => 11,
        OpeningPointView::CreateRoot => 10,
        OpeningPointView::Loading(load) => 1 + load_stage(load),
        OpeningPointView::Ready(_) => 0,
    }
}

/// An upper bound on the requests that are left of the stage of an opening.
pub open spec fn opening_stage_steps(process: OpeningView) -> int {
    match process.at {
        OpeningPointView::Init | OpeningPointView::CreateRoot => 1,
        OpeningPointView::Loading(load) => load_stage_steps(load),
        OpeningPointView::Ready(_) => 0,
    }
}

/// Every answer that does not end the opening of a projection brings the end of
/// its stage closer, or leads to a later stage.
pub proof fn law_opening_ends(process: OpeningView, reply: ReplyView)
    requires
        process.wf(),
        process.action() matches Some(action) && action.answered_by(reply),
    ensures
        process.advance(reply) matches Ok(next) ==> {
            &&& next.wf()
            &&& next.layout == process.layout
            &&& opening_stage(next) < opening_stage(process) || {
                &&& opening_stage(next) == opening_stage(process)
                &&& 0 <= opening_stage_steps(next) < opening_stage_steps(process)
            }
        },
{
    if let OpeningPointView::Loading(load) = process.at {
        law_loading_ends(load, reply);
    }
}

} // verus!
