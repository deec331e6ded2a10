//! Saving a table and writing a log lose no table, whatever fails, and keep to
//! their own paths.

use std::path::PathBuf;
use vstd::prelude::*;

use crate::encode::{datom_table_of, tx_table_of};
use crate::error::ErrorView;
use crate::layout::{found_as_named, log_path_bufs, log_paths, usable_layout, TxLogLayout};
use crate::log::EnvelopeView;
use crate::path::{c_bytes, c_safe};
use crate::protocol::{ActionView, ReplyView, RAY_OK};
use crate::rebuild::{RebuildPointView, RebuildView};
use crate::run::{dirs_apart, placed};
use crate::save::{SavePoint, SaveView};
use crate::store::Place;
use crate::table::ColumnView;

verus! {

/// The directories on disk, each with the columns of the table saved in it.
pub type Disk = Map<Seq<u8>, Option<Seq<ColumnView>>>;

/// What a directory holds: nothing where there is none.
pub open spec fn lies_in(disk: Disk, dir: Seq<u8>) -> Option<Option<Seq<ColumnView>>> {
    if disk.contains_key(dir) {
        Some(disk[dir])
    } else {
        None
    }
}

/// Whether the two disks agree on every directory but that one.
pub open spec fn agree_but(disk: Disk, later: Disk, dir: Seq<u8>) -> bool {
    forall|other: Seq<u8>| other != dir ==> #[trigger] lies_in(later, other) == lies_in(disk, other)
}

/// Whether `later` may be the disk after the request was answered so. Creating
/// and removing a directory, and a save that failed, may leave anything in that
/// one directory; a save that succeeded leaves `table` there; a rename is done
/// or not done. The file system finds paths by `place`. Parents that are created
/// on the way are not counted.
pub open spec fn disk_may_become(
    disk: Disk,
    action: ActionView,
    reply: ReplyView,
    later: Disk,
    place: Place,
    table: Seq<ColumnView>,
) -> bool {
    match (action, reply) {
        (ActionView::PathExists(path), ReplyView::Flag(found)) => later == disk && found
            == disk.contains_key(place(path)),
        (ActionView::CreateDirAll(path), _) => agree_but(disk, later, place(path)),
        (ActionView::RemoveDirAll(path), _) => agree_but(disk, later, place(path)),
        (ActionView::SplaySave { dir, .. }, ReplyView::Code(code)) => if code == RAY_OK {
            later == disk.insert(dir, Some(table))
        } else {
            agree_but(disk, later, dir)
        },
        (ActionView::Rename { from, to }, ReplyView::Io(Ok(_))) => later == disk.remove(
            place(from),
        ).insert(place(to), disk[place(from)]),
        _ => later == disk,
    }
}

/// What lies where at each point of a save of `table` over `before`.
pub open spec fn in_order(
    process: SaveView,
    disk: Disk,
    before: Option<Option<Seq<ColumnView>>>,
    table: Seq<ColumnView>,
) -> bool {
    let live = c_bytes(process.dir);
    let fresh = c_bytes(process.new_dir);
    let old = c_bytes(process.old_dir);
    match process.at {
        SavePoint::CheckNew
        | SavePoint::RemoveNew
        | SavePoint::CreateNew
        | SavePoint::Splay => lies_in(disk, live) == before,
        SavePoint::CheckLive => {
            &&& lies_in(disk, live) == before
            &&& lies_in(disk, fresh) == Some(Some(table))
        },
        SavePoint::CheckOld | SavePoint::RemoveOld | SavePoint::Retire => {
            &&& before is Some
            &&& lies_in(disk, live) == before
            &&& lies_in(disk, fresh) == Some(Some(table))
        },
        SavePoint::Promote => {
            &&& lies_in(disk, fresh) == Some(Some(table))
            &&& lies_in(disk, live) is None
            &&& before is Some ==> lies_in(disk, old) == before
        },
        SavePoint::CheckLeftover
        | SavePoint::RemoveLeftover
        | SavePoint::Saved => lies_in(disk, live) == Some(Some(table)),
    }
}

/// Whether nothing is lost: the live directory holds what it held or the new
/// table, or else what it held lies whole in the old directory and the new table
/// in the new one.
pub open spec fn nothing_lost(
    process: SaveView,
    disk: Disk,
    before: Option<Option<Seq<ColumnView>>>,
    table: Seq<ColumnView>,
) -> bool {
    ||| lies_in(disk, c_bytes(process.dir)) == before
    ||| lies_in(disk, c_bytes(process.dir)) == Some(Some(table))
    ||| {
        &&& lies_in(disk, c_bytes(process.old_dir)) == before
        &&& lies_in(disk, c_bytes(process.new_dir)) == Some(Some(table))
    }
}

/// Whether a save failed at its last rename, of the new directory to the live
/// one's place.
pub open spec fn failed_to_promote(process: SaveView, err: ErrorView) -> bool {
    err matches ErrorView::Rename { from, to, .. } && from == process.new_dir && to == process.dir
}

/// What lies where once a save has failed. Before the last rename the live
/// directory holds what it held. At that rename there is no live directory, what
/// it held lies in the old directory, and the new table in the new one.
pub open spec fn after_failure(
    process: SaveView,
    err: ErrorView,
    disk: Disk,
    before: Option<Option<Seq<ColumnView>>>,
    table: Seq<ColumnView>,
) -> bool {
    if failed_to_promote(process, err) {
        &&& lies_in(disk, c_bytes(process.dir)) is None
        &&& before is Some ==> lies_in(disk, c_bytes(process.old_dir)) == before
        &&& lies_in(disk, c_bytes(process.new_dir)) == Some(Some(table))
    } else {
        lies_in(disk, c_bytes(process.dir)) == before
    }
}

/// One answer keeps a save in order and loses nothing.
proof fn lemma_save_step(
    process: SaveView,
    disk: Disk,
    reply: ReplyView,
    later: Disk,
    place: Place,
    before: Option<Option<Seq<ColumnView>>>,
    table: Seq<ColumnView>,
)
    requires
        dirs_apart(process),
        placed(process, place),
        in_order(process, disk, before, table),
        process.action() matches Some(action) && action.answered_by(reply) && disk_may_become(
            disk,
            action,
            reply,
            later,
            place,
            table,
        ),
    ensures
        nothing_lost(process, later, before, table),
        match process.advance(reply) {
            Ok(next) => in_order(next, later, before, table) && next == process.at_point(next.at),
            Err(err) => after_failure(process, err, later, before, table),
        },
        forall|path: Seq<u8>|
            path != c_bytes(process.dir) && path != c_bytes(process.new_dir) && path != c_bytes(
                process.old_dir,
            ) ==> #[trigger] lies_in(later, path) == lies_in(disk, path),
{
}

/// Whether a save may meet these answers, each with the disk that it leaves
/// behind.
pub open spec fn may_meet(
    process: SaveView,
    disk: Disk,
    trace: Seq<(ReplyView, Disk)>,
    place: Place,
    table: Seq<ColumnView>,
) -> bool
    decreases trace.len(),
{
    trace.len() == 0 || {
        let (reply, later) = trace[0];
        &&& process.action() matches Some(action) && action.answered_by(reply) && disk_may_become(
            disk,
            action,
            reply,
            later,
            place,
            table,
        )
        &&& trace.len() > 1 ==> (process.advance(reply) matches Ok(next) && may_meet(
            next,
            later,
            trace.drop_first(),
            place,
            table,
        ))
    }
}

/// Where a save stands after these answers.
pub open spec fn after_answers(process: SaveView, trace: Seq<(ReplyView, Disk)>) -> Result<
    SaveView,
    ErrorView,
>
    decreases trace.len(),
{
    if trace.len() == 0 {
        Ok(process)
    } else {
        match process.advance(trace[0].0) {
            Err(err) => Err(err),
            Ok(next) => after_answers(next, trace.drop_first()),
        }
    }
}

proof fn lemma_save_loses_nothing(
    process: SaveView,
    disk: Disk,
    trace: Seq<(ReplyView, Disk)>,
    place: Place,
    before: Option<Option<Seq<ColumnView>>>,
    table: Seq<ColumnView>,
)
    requires
        dirs_apart(process),
        placed(process, place),
        in_order(process, disk, before, table),
        may_meet(process, disk, trace, place, table),
    ensures
        forall|k: int|
            0 <= k < trace.len() ==> nothing_lost(process, (#[trigger] trace[k]).1, before, table),
        after_answers(process, trace) matches Ok(end) && end.at == SavePoint::Saved ==> lies_in(
            if trace.len() == 0 {
                disk
            } else {
                trace.last().1
            },
            c_bytes(process.dir),
        ) == Some(Some(table)),
        after_answers(process, trace) matches Err(err) ==> after_failure(
            process,
            err,
            trace.last().1,
            before,
            table,
        ),
    decreases trace.len(),
{
    if trace.len() > 0 {
        let (reply, later) = trace[0];
        let rest = trace.drop_first();
        lemma_save_step(process, disk, reply, later, place, before, table);
        if let Ok(next) = process.advance(reply) {
            lemma_save_loses_nothing(next, later, rest, place, before, table);
            assert forall|k: int| 0 <= k < trace.len() implies nothing_lost(
                process,
                (#[trigger] trace[k]).1,
                before,
                table,
            ) by {
                if k > 0 {
                    assert(trace[k] == rest[k - 1]);
                }
            }
        }
    }
}

/// After every answer, whatever the answers are and however a failing step
/// leaves its own directory, a save has lost nothing. Once it has come to its
/// end, the new table is live. If it has failed, the live directory is as it was,
/// or, at the last rename, both tables lie beside its place.
pub proof fn law_save_loses_nothing(
    process: SaveView,
    disk: Disk,
    trace: Seq<(ReplyView, Disk)>,
    place: Place,
    table: Seq<ColumnView>,
)
    requires
        process.at == SavePoint::CheckNew,
        dirs_apart(process),
        placed(process, place),
        may_meet(process, disk, trace, place, table),
    ensures
        forall|k: int|
            0 <= k < trace.len() ==> nothing_lost(
                process,
                (#[trigger] trace[k]).1,
                lies_in(disk, c_bytes(process.dir)),
                table,
            ),
        after_answers(process, trace) matches Ok(end) && end.at == SavePoint::Saved ==> lies_in(
            trace.last().1,
            c_bytes(process.dir),
        ) == Some(Some(table)),
        after_answers(process, trace) matches Err(err) ==> after_failure(
            process,
            err,
            trace.last().1,
            lies_in(disk, c_bytes(process.dir)),
            table,
        ),
{
    let before = lies_in(disk, c_bytes(process.dir));
    lemma_save_loses_nothing(process, disk, trace, place, before, table);
}

/// The paths at which a request may change the disk through the file system.
pub open spec fn writes_to(action: ActionView) -> Set<PathBuf> {
    match action {
        ActionView::CreateDirAll(path) | ActionView::RemoveDirAll(path) => set![path],
        ActionView::Rename { from, to } => set![from, to],
        _ => Set::empty(),
    }
}

/// The places at which a request may change the disk through C.
pub open spec fn c_writes_to(action: ActionView) -> Set<Seq<u8>> {
    match action {
        ActionView::SplaySave { dir, .. } => set![dir],
        ActionView::SymSave(path) => set![path],
        _ => Set::empty(),
    }
}

/// Whether a rebuild saves its tables where its layout says.
pub open spec fn in_layout(process: RebuildView) -> bool {
    let sym = process.layout.sym_file();
    match process.at {
        RebuildPointView::SaveTx { save, .. } => save == SaveView::start(
            process.layout.tx_dir(),
            sym,
        ).at_point(save.at),
        RebuildPointView::SaveDatoms(save) => save == SaveView::start(
            process.layout.datom_dir(),
            sym,
        ).at_point(save.at),
        _ => true,
    }
}

/// A rebuild starts within its layout.
pub proof fn law_rebuild_starts_in_layout(layout: TxLogLayout, envelopes: Seq<EnvelopeView>)
    ensures
        in_layout(RebuildView::start(layout, envelopes)),
{
}

/// Whatever it is answered, a rebuild stays within its layout and asks to change
/// the disk at no path but those of the log.
pub proof fn law_rebuild_stays_in_layout(process: RebuildView, reply: ReplyView)
    requires
        in_layout(process),
        process.action() matches Some(action) && action.answered_by(reply),
    ensures
        process.advance(reply) matches Ok(next) ==> in_layout(next) && next.layout
            == process.layout,
        forall|path: PathBuf| #[trigger]
            writes_to(process.action()->Some_0).contains(path) ==> log_path_bufs(
                process.layout,
            ).contains(path),
        forall|path: Seq<u8>| #[trigger]
            c_writes_to(process.action()->Some_0).contains(path) ==> log_paths(
                process.layout,
            ).contains(path),
{
    let bufs = log_path_bufs(process.layout);
    let paths = log_paths(process.layout);
    assert forall|k: int| 0 <= k < 7 implies {
        &&& paths[k] == c_bytes(#[trigger] bufs[k])
        &&& paths.contains(c_bytes(bufs[k]))
    } by {
        assert(paths.contains(paths[k]));
    }
    let tx = tx_save(process.layout);
    let datoms = datom_save(process.layout);
    assert(bufs[0] == tx.dir && bufs[1] == tx.new_dir && bufs[2] == tx.old_dir);
    assert(bufs[3] == datoms.dir && bufs[4] == datoms.new_dir && bufs[5] == datoms.old_dir);
    assert(bufs[6] == process.layout.sym_file());
}

/// The save of the `tx` table.
pub open spec fn tx_save(layout: TxLogLayout) -> SaveView {
    SaveView::start(layout.tx_dir(), layout.sym_file())
}

/// The save of the `datom` table.
pub open spec fn datom_save(layout: TxLogLayout) -> SaveView {
    SaveView::start(layout.datom_dir(), layout.sym_file())
}

/// Whether the directories of a save hold the same on both disks.
pub open spec fn untouched(save: SaveView, disk: Disk, later: Disk) -> bool {
    &&& lies_in(later, c_bytes(save.dir)) == lies_in(disk, c_bytes(save.dir))
    &&& lies_in(later, c_bytes(save.new_dir)) == lies_in(disk, c_bytes(save.new_dir))
    &&& lies_in(later, c_bytes(save.old_dir)) == lies_in(disk, c_bytes(save.old_dir))
}

/// The table that a rebuild saves at this point.
pub open spec fn table_saved(process: RebuildView, log: Seq<EnvelopeView>) -> Seq<ColumnView> {
    match process.at {
        RebuildPointView::SaveDatoms(_) => datom_table_of(log).columns,
        _ => tx_table_of(log).columns,
    }
}

/// Whether a rebuild of `log` may meet these answers, each with the disk that it
/// leaves behind.
pub open spec fn rebuild_may_meet(
    process: RebuildView,
    disk: Disk,
    trace: Seq<(ReplyView, Disk)>,
    place: Place,
    log: Seq<EnvelopeView>,
) -> bool
    decreases trace.len(),
{
    trace.len() == 0 || {
        let (reply, later) = trace[0];
        &&& process.action() matches Some(action) && action.answered_by(reply) && disk_may_become(
            disk,
            action,
            reply,
            later,
            place,
            table_saved(process, log),
        )
        &&& trace.len() > 1 ==> (process.advance(reply) matches Ok(next) && rebuild_may_meet(
            next,
            later,
            trace.drop_first(),
            place,
            log,
        ))
    }
}

/// Where a rebuild stands after these answers.
pub open spec fn rebuild_after(process: RebuildView, trace: Seq<(ReplyView, Disk)>) -> Result<
    RebuildView,
    ErrorView,
>
    decreases trace.len(),
{
    if trace.len() == 0 {
        Ok(process)
    } else {
        match process.advance(trace[0].0) {
            Err(err) => Err(err),
            Ok(next) => rebuild_after(next, trace.drop_first()),
        }
    }
}

/// What lies where at each point of a rebuild of `log` over the disk `first`.
pub open spec fn rebuild_in_order(
    process: RebuildView,
    disk: Disk,
    first: Disk,
    log: Seq<EnvelopeView>,
) -> bool {
    let tx = tx_save(process.layout);
    let datoms = datom_save(process.layout);
    let new_tx = Some(Some(tx_table_of(log).columns));
    let new_datoms = Some(Some(datom_table_of(log).columns));
    &&& in_layout(process)
    &&& match process.at {
        RebuildPointView::Init { .. } | RebuildPointView::BuildTx { .. } => {
            &&& untouched(tx, first, disk)
            &&& untouched(datoms, first, disk)
        },
        RebuildPointView::SaveTx { save, .. } => {
            &&& in_order(save, disk, lies_in(first, c_bytes(tx.dir)), tx_table_of(log).columns)
            &&& untouched(datoms, first, disk)
        },
        RebuildPointView::BuildDatoms(_) => {
            &&& lies_in(disk, c_bytes(tx.dir)) == new_tx
            &&& untouched(datoms, first, disk)
        },
        RebuildPointView::SaveDatoms(save) => {
            &&& lies_in(disk, c_bytes(tx.dir)) == new_tx
            &&& in_order(
                save,
                disk,
                lies_in(first, c_bytes(datoms.dir)),
                datom_table_of(log).columns,
            )
        },
        RebuildPointView::SaveSyms | RebuildPointView::Done => {
            &&& lies_in(disk, c_bytes(tx.dir)) == new_tx
            &&& lies_in(disk, c_bytes(datoms.dir)) == new_datoms
        },
    }
}

/// Whether neither table of the log is lost on `disk`, of those that lay on
/// `first` and of those of `log`.
pub open spec fn no_table_lost(
    layout: TxLogLayout,
    disk: Disk,
    first: Disk,
    log: Seq<EnvelopeView>,
) -> bool {
    let tx = tx_save(layout);
    let datoms = datom_save(layout);
    &&& nothing_lost(tx, disk, lies_in(first, c_bytes(tx.dir)), tx_table_of(log).columns)
    &&& nothing_lost(datoms, disk, lies_in(first, c_bytes(datoms.dir)), datom_table_of(log).columns)
}

/// Whether an answer at this point of a rebuild, which turned `disk` into
/// `later`, left alone the directories of the table that is not being saved, and
/// whether while `tx` is written those of `datom` are as they were on `first`,
/// and while `datom` is written the new `tx` table is in place.
pub open spec fn other_table_kept(
    process: RebuildView,
    disk: Disk,
    later: Disk,
    first: Disk,
    log: Seq<EnvelopeView>,
) -> bool {
    let tx = tx_save(process.layout);
    let datoms = datom_save(process.layout);
    let new_tx = Some(Some(tx_table_of(log).columns));
    match process.at {
        RebuildPointView::SaveTx { .. } => {
            &&& untouched(datoms, disk, later)
            &&& untouched(datoms, first, later)
        },
        RebuildPointView::SaveDatoms(_) => {
            &&& untouched(tx, disk, later)
            &&& lies_in(later, c_bytes(tx.dir)) == new_tx
        },
        _ => untouched(tx, disk, later) && untouched(datoms, disk, later),
    }
}

/// What lies where once a rebuild has failed at this point. Until `tx` has been
/// saved, the `datom` directories are as they were; from there on the new `tx`
/// table is in place. The table that was being saved is as a failed save leaves
/// it.
pub open spec fn after_failed_rebuild(
    process: RebuildView,
    err: ErrorView,
    disk: Disk,
    first: Disk,
    log: Seq<EnvelopeView>,
) -> bool {
    let tx = tx_save(process.layout);
    let datoms = datom_save(process.layout);
    let tx_columns = tx_table_of(log).columns;
    let datom_columns = datom_table_of(log).columns;
    match process.at {
        RebuildPointView::Init { .. } | RebuildPointView::BuildTx { .. } => {
            &&& untouched(tx, first, disk)
            &&& untouched(datoms, first, disk)
        },
        RebuildPointView::SaveTx { .. } => {
            &&& after_failure(tx, err, disk, lies_in(first, c_bytes(tx.dir)), tx_columns)
            &&& untouched(datoms, first, disk)
        },
        RebuildPointView::BuildDatoms(_) => {
            &&& lies_in(disk, c_bytes(tx.dir)) == Some(Some(tx_columns))
            &&& untouched(datoms, first, disk)
        },
        RebuildPointView::SaveDatoms(_) => {
            &&& lies_in(disk, c_bytes(tx.dir)) == Some(Some(tx_columns))
            &&& after_failure(datoms, err, disk, lies_in(first, c_bytes(datoms.dir)), datom_columns)
        },
        RebuildPointView::SaveSyms | RebuildPointView::Done => {
            &&& lies_in(disk, c_bytes(tx.dir)) == Some(Some(tx_columns))
            &&& lies_in(disk, c_bytes(datoms.dir)) == Some(Some(datom_columns))
        },
    }
}

/// The directories of a usable layout are apart and found.
proof fn lemma_saves_apart(layout: TxLogLayout, place: Place)
    requires
        usable_layout(layout),
        found_as_named(layout, place),
    ensures
        ({
            let tx = tx_save(layout);
            let datoms = datom_save(layout);
            &&& dirs_apart(tx)
            &&& dirs_apart(datoms)
            &&& placed(tx, place)
            &&& placed(datoms, place)
            &&& c_safe(layout.sym_file())
            &&& forall|i: int, j: int|
                #![trigger log_paths(layout)[i], log_paths(layout)[j]]
                0 <= i < 3 && 3 <= j < 6 ==> log_paths(layout)[i] != log_paths(layout)[j]
            &&& log_paths(layout)[0] == c_bytes(tx.dir)
            &&& log_paths(layout)[1] == c_bytes(tx.new_dir)
            &&& log_paths(layout)[2] == c_bytes(tx.old_dir)
            &&& log_paths(layout)[3] == c_bytes(datoms.dir)
            &&& log_paths(layout)[4] == c_bytes(datoms.new_dir)
            &&& log_paths(layout)[5] == c_bytes(datoms.old_dir)
        }),
{
    let tx = tx_save(layout);
    let datoms = datom_save(layout);
    let bufs = log_path_bufs(layout);
    let paths = log_paths(layout);
    assert(bufs[0] == tx.dir && bufs[1] == tx.new_dir && bufs[2] == tx.old_dir);
    assert(bufs[3] == datoms.dir && bufs[4] == datoms.new_dir && bufs[5] == datoms.old_dir);
    assert(paths.len() == 7);
    assert(paths[0] == c_bytes(tx.dir));
    assert(paths[1] == c_bytes(tx.new_dir));
    assert(paths[2] == c_bytes(tx.old_dir));
    assert(paths[3] == c_bytes(datoms.dir));
    assert(paths[4] == c_bytes(datoms.new_dir));
    assert(paths[5] == c_bytes(datoms.old_dir));
}

/// One answer keeps a rebuild in order.
proof fn lemma_rebuild_step(
    process: RebuildView,
    disk: Disk,
    reply: ReplyView,
    later: Disk,
    place: Place,
    first: Disk,
    log: Seq<EnvelopeView>,
)
    requires
        usable_layout(process.layout),
        found_as_named(process.layout, place),
        rebuild_in_order(process, disk, first, log),
        process.action() matches Some(action) && action.answered_by(reply) && disk_may_become(
            disk,
            action,
            reply,
            later,
            place,
            table_saved(process, log),
        ),
    ensures
        no_table_lost(process.layout, later, first, log),
        other_table_kept(process, disk, later, first, log),
        match process.advance(reply) {
            Ok(next) => rebuild_in_order(next, later, first, log) && next.layout == process.layout,
            Err(err) => after_failed_rebuild(process, err, later, first, log),
        },
{
    let tx = tx_save(process.layout);
    let datoms = datom_save(process.layout);
    lemma_saves_apart(process.layout, place);
    match process.at {
        RebuildPointView::SaveTx { save, .. } => {
            let before = lies_in(first, c_bytes(tx.dir));
            lemma_save_step(save, disk, reply, later, place, before, tx_table_of(log).columns);
            assert(untouched(datoms, disk, later));
        },
        RebuildPointView::SaveDatoms(save) => {
            let before = lies_in(first, c_bytes(datoms.dir));
            lemma_save_step(save, disk, reply, later, place, before, datom_table_of(log).columns);
            assert(untouched(tx, disk, later));
        },
        _ => {
            assert(later == disk);
        },
    }
}

/// The disk before the `k`th answer.
pub open spec fn disk_before(disk: Disk, trace: Seq<(ReplyView, Disk)>, k: int) -> Disk {
    if k == 0 {
        disk
    } else {
        trace[k - 1].1
    }
}

/// Whether the `k`th answer of a trace left both tables safe.
pub open spec fn safe_at(
    process: RebuildView,
    disk: Disk,
    trace: Seq<(ReplyView, Disk)>,
    first: Disk,
    log: Seq<EnvelopeView>,
    k: int,
) -> bool {
    &&& no_table_lost(process.layout, trace[k].1, first, log)
    &&& rebuild_after(process, trace.take(k)) matches Ok(point) && other_table_kept(
        point,
        disk_before(disk, trace, k),
        trace[k].1,
        first,
        log,
    )
}

proof fn lemma_rebuild_loses_nothing(
    process: RebuildView,
    disk: Disk,
    trace: Seq<(ReplyView, Disk)>,
    place: Place,
    first: Disk,
    log: Seq<EnvelopeView>,
)
    requires
        usable_layout(process.layout),
        found_as_named(process.layout, place),
        rebuild_in_order(process, disk, first, log),
        rebuild_may_meet(process, disk, trace, place, log),
    ensures
        forall|k: int|
            0 <= k < trace.len() ==> #[trigger] safe_at(process, disk, trace, first, log, k),
        match rebuild_after(process, trace) {
            Ok(end) => {
                let last = disk_before(disk, trace, trace.len() as int);
                rebuild_in_order(end, last, first, log) && end.layout == process.layout
            },
            Err(err) => rebuild_after(process, trace.drop_last()) matches Ok(point)
                && after_failed_rebuild(point, err, trace.last().1, first, log),
        },
    decreases trace.len(),
{
    if trace.len() > 0 {
        let (reply, later) = trace[0];
        let rest = trace.drop_first();
        lemma_rebuild_step(process, disk, reply, later, place, first, log);
        assert(trace.take(0) == Seq::<(ReplyView, Disk)>::empty());
        assert(safe_at(process, disk, trace, first, log, 0));
        if let Ok(next) = process.advance(reply) {
            lemma_rebuild_loses_nothing(next, later, rest, place, first, log);
            assert forall|k: int| 0 <= k < trace.len() implies #[trigger] safe_at(
                process,
                disk,
                trace,
                first,
                log,
                k,
            ) by {
                if k > 0 {
                    assert(safe_at(next, later, rest, first, log, k - 1));
                    assert(trace[k] == rest[k - 1]);
                    assert(trace.take(k).drop_first() == rest.take(k - 1));
                    assert(trace.take(k)[0] == trace[0]);
                }
            }
            if rest.len() > 0 {
                assert(trace.drop_last().drop_first() == rest.drop_last());
                assert(trace.last() == rest.last());
            }
        } else {
            assert(trace.len() == 1);
            assert(trace.drop_last() == Seq::<(ReplyView, Disk)>::empty());
        }
    }
}

/// Along every trace of answers, whatever they are and however a failing step
/// leaves its own directory, the rebuild of a log loses neither table, and leaves
/// alone the directories of the table that it is not saving. If it fails, the
/// `datom` directories are as they were until `tx` has been saved, and the new
/// `tx` table is in place from there on. Once it has come to its end, both new
/// tables are in place.
pub proof fn law_rebuild_loses_nothing(
    layout: TxLogLayout,
    log: Seq<EnvelopeView>,
    disk: Disk,
    trace: Seq<(ReplyView, Disk)>,
    place: Place,
)
    requires
        usable_layout(layout),
        found_as_named(layout, place),
        rebuild_may_meet(RebuildView::start(layout, log), disk, trace, place, log),
    ensures
        ({
            let start = RebuildView::start(layout, log);
            &&& forall|k: int|
                0 <= k < trace.len() ==> #[trigger] safe_at(start, disk, trace, disk, log, k)
            &&& match rebuild_after(start, trace) {
                Err(err) => rebuild_after(start, trace.drop_last()) matches Ok(point)
                    && after_failed_rebuild(point, err, trace.last().1, disk, log),
                Ok(end) => end.at is Done ==> {
                    let last = disk_before(disk, trace, trace.len() as int);
                    &&& lies_in(last, c_bytes(layout.tx_dir())) == Some(
                        Some(tx_table_of(log).columns),
                    )
                    &&& lies_in(last, c_bytes(layout.datom_dir())) == Some(
                        Some(datom_table_of(log).columns),
                    )
                },
            }
        }),
{
    lemma_rebuild_loses_nothing(RebuildView::start(layout, log), disk, trace, place, disk, log);
}

} // verus!
