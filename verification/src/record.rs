//! What is known from the whole conversation of a rebuild, and which answers end
//! a process.

use std::path::PathBuf;
use vstd::prelude::*;

use crate::error::ErrorView;
use crate::history::{good, Exchange};
use crate::layout::TxLogLayout;
use crate::load::LoadView;
use crate::log::EnvelopeView;
use crate::path::{c_bytes, c_safe, path_joined, path_with_extension};
use crate::protocol::{ActionView, Object, ReplyView, TableKind};
use crate::rebuild::{RebuildPointView, RebuildView};
use crate::save::{SavePoint, SaveView};

verus! {

/// Where a conversation leads a rebuild.
pub open spec fn rebuild_after(rebuild: RebuildView, talk: Seq<Exchange>) -> Result<
    RebuildView,
    ErrorView,
>
    decreases talk.len(),
{
    if talk.len() == 0 {
        Ok(rebuild)
    } else {
        match rebuild_after(rebuild, talk.drop_last()) {
            Err(err) => Err(err),
            Ok(next) => next.advance(talk.last().reply),
        }
    }
}

/// Whether a rebuild leads that conversation: every request in it is the one that
/// the rebuild makes then, with an answer of the right kind.
pub open spec fn rebuild_leads(rebuild: RebuildView, talk: Seq<Exchange>) -> bool
    decreases talk.len(),
{
    talk.len() == 0 || {
        &&& rebuild_leads(rebuild, talk.drop_last())
        &&& rebuild_after(rebuild, talk.drop_last()) matches Ok(next) && next.action() == Some(
            talk.last().asked,
        )
        &&& talk.last().asked.answered_by(talk.last().reply)
    }
}

/// Whether exchange `k` wrote the table into the new directory beside `dir`.
pub open spec fn wrote_at(talk: Seq<Exchange>, k: int, dir: PathBuf, sym: PathBuf) -> bool {
    &&& talk[k].asked == (ActionView::SplaySave {
        dir: c_bytes(path_with_extension(dir, "new"@)),
        sym: c_bytes(sym),
    })
    &&& talk[k].reply == ReplyView::Code(0)
}

/// Whether exchange `k` moved the new directory to `dir`.
pub open spec fn promoted_at(talk: Seq<Exchange>, k: int, dir: PathBuf) -> bool {
    &&& talk[k].asked == (ActionView::Rename { from: path_with_extension(dir, "new"@), to: dir })
    &&& talk[k].reply matches ReplyView::Io(Ok(_))
}

/// Whether from exchange `from` on and before exchange `to` a table was written
/// beside `dir` and then moved there.
pub open spec fn saved_in(
    talk: Seq<Exchange>,
    from: int,
    to: int,
    dir: PathBuf,
    sym: PathBuf,
) -> bool {
    exists|a: int, b: int|
        0 <= from <= a < b < to <= talk.len() && #[trigger] wrote_at(talk, a, dir, sym)
            && #[trigger] promoted_at(talk, b, dir)
}

/// What is known from the conversation at each point of the saving of a table that
/// began after exchange `from`.
spec fn saving_told(
    talk: Seq<Exchange>,
    from: int,
    save: SaveView,
    dir: PathBuf,
    sym: PathBuf,
) -> bool {
    &&& 0 <= from <= talk.len()
    &&& save.dir == dir
    &&& save.new_dir == path_with_extension(dir, "new"@)
    &&& save.sym_path == sym
    &&& match save.at {
        SavePoint::CheckNew | SavePoint::RemoveNew | SavePoint::CreateNew | SavePoint::Splay => {
            true
        },
        SavePoint::CheckLeftover | SavePoint::RemoveLeftover | SavePoint::Saved => saved_in(
            talk,
            from,
            talk.len() as int,
            dir,
            sym,
        ),
        _ => exists|a: int| from <= a < talk.len() && #[trigger] wrote_at(talk, a, dir, sym),
    }
}

/// What is known from the conversation at each point of a rebuild.
spec fn rebuild_told(layout: TxLogLayout, talk: Seq<Exchange>, at: RebuildPointView) -> bool {
    let tx = path_joined(layout.root_path(), "tx"@);
    let datom = path_joined(layout.root_path(), "datom"@);
    let sym = path_joined(layout.root_path(), "sym.ray"@);
    &&& at is Init <==> talk.len() == 0
    &&& talk.len() > 0 ==> talk[0].asked == ActionView::SymInit && talk[0].reply
        == ReplyView::Code(0)
    &&& match at {
        RebuildPointView::Init { .. } | RebuildPointView::BuildTx { .. } => true,
        RebuildPointView::SaveTx { save, .. } => saving_told(talk, 1, save, tx, sym),
        RebuildPointView::BuildDatoms(_) => exists|m: int| #[trigger]
            saved_in(talk, 1, m, tx, sym),
        RebuildPointView::SaveDatoms(save) => exists|m: int| #[trigger]
            saved_in(talk, 1, m, tx, sym) && saving_told(talk, m, save, datom, sym),
        RebuildPointView::SaveSyms => exists|m: int| #[trigger]
            saved_in(talk, 1, m, tx, sym) && saved_in(talk, m, talk.len() as int, datom, sym),
        RebuildPointView::Done => {
            &&& talk.last().asked == ActionView::SymSave(c_bytes(sym))
            &&& talk.last().reply == ReplyView::Code(0)
            &&& exists|m: int| #[trigger]
                saved_in(talk, 1, m, tx, sym) && saved_in(talk, m, talk.len() - 1, datom, sym)
        },
    }
}

/// What was saved stays so.
proof fn lemma_saved_stays(
    talk: Seq<Exchange>,
    last: Exchange,
    from: int,
    to: int,
    dir: PathBuf,
    sym: PathBuf,
)
    requires
        saved_in(talk, from, to, dir, sym),
    ensures
        saved_in(talk.push(last), from, to, dir, sym),
{
    let more = talk.push(last);
    let (a, b) = choose|a: int, b: int|
        0 <= from <= a < b < to <= talk.len() && #[trigger] wrote_at(talk, a, dir, sym)
            && #[trigger] promoted_at(talk, b, dir);
    assert(more[a] == talk[a] && more[b] == talk[b]);
    assert(wrote_at(more, a, dir, sym) && promoted_at(more, b, dir));
}

/// One more exchange in the saving of a table.
proof fn lemma_saving_is_told(
    talk: Seq<Exchange>,
    last: Exchange,
    from: int,
    save: SaveView,
    dir: PathBuf,
    sym: PathBuf,
)
    requires
        saving_told(talk, from, save, dir, sym),
        save.action() == Some(last.asked),
        last.asked.answered_by(last.reply),
    ensures
        save.advance(last.reply) matches Ok(next) ==> saving_told(
            talk.push(last),
            from,
            next,
            dir,
            sym,
        ),
{
    let more = talk.push(last);
    let n = talk.len() as int;
    assert(more[n] == last);
    if let Ok(next) = save.advance(last.reply) {
        match save.at {
            SavePoint::CheckNew | SavePoint::RemoveNew | SavePoint::CreateNew => {},
            SavePoint::Splay => {
                assert(wrote_at(more, n, dir, sym));
            },
            SavePoint::CheckLeftover | SavePoint::RemoveLeftover | SavePoint::Saved => {
                lemma_saved_stays(talk, last, from, n, dir, sym);
                let (a, b) = choose|a: int, b: int|
                    0 <= from <= a < b < n <= more.len() && #[trigger] wrote_at(more, a, dir, sym)
                        && #[trigger] promoted_at(more, b, dir);
                assert(wrote_at(more, a, dir, sym) && promoted_at(more, b, dir));
            },
            _ => {
                let a = choose|a: int| from <= a < n && #[trigger] wrote_at(talk, a, dir, sym);
                assert(more[a] == talk[a]);
                assert(wrote_at(more, a, dir, sym));
                if save.at == SavePoint::Promote {
                    assert(promoted_at(more, n, dir));
                }
            },
        }
    }
}

/// A rebuild knows at each point what the conversation told it.
proof fn lemma_rebuild_knows(layout: TxLogLayout, log: Seq<EnvelopeView>, talk: Seq<Exchange>)
    requires
        rebuild_leads(RebuildView::start(layout, log), talk),
    ensures
        rebuild_after(RebuildView::start(layout, log), talk) matches Ok(rebuild) ==> {
            &&& rebuild.layout == layout
            &&& rebuild_told(layout, talk, rebuild.at)
        },
    decreases talk.len(),
{
    if talk.len() > 0 {
        let rest = talk.drop_last();
        let last = talk.last();
        lemma_rebuild_knows(layout, log, rest);
        assert(rest.push(last) =~= talk);
        let rebuild = rebuild_after(RebuildView::start(layout, log), rest)->Ok_0;
        if let Ok(next) = rebuild.advance(last.reply) {
            lemma_next_rebuild_is_known(layout, rest, last, rebuild, next);
        }
    }
}

/// One more exchange in a rebuild.
#[verifier::spinoff_prover]
proof fn lemma_next_rebuild_is_known(
    layout: TxLogLayout,
    talk: Seq<Exchange>,
    last: Exchange,
    rebuild: RebuildView,
    next: RebuildView,
)
    requires
        rebuild.layout == layout,
        rebuild_told(layout, talk, rebuild.at),
        rebuild.action() == Some(last.asked),
        last.asked.answered_by(last.reply),
        rebuild.advance(last.reply) == Ok::<RebuildView, ErrorView>(next),
    ensures
        next.layout == layout,
        rebuild_told(layout, talk.push(last), next.at),
{
    let tx = path_joined(layout.root_path(), "tx"@);
    let datom = path_joined(layout.root_path(), "datom"@);
    let sym = path_joined(layout.root_path(), "sym.ray"@);
    let more = talk.push(last);
    let n = talk.len() as int;
    assert(more[0] == if talk.len() > 0 {
        talk[0]
    } else {
        last
    });
    match rebuild.at {
        RebuildPointView::SaveTx { save, .. } => {
            lemma_saving_is_told(talk, last, 1, save, tx, sym);
        },
        RebuildPointView::BuildDatoms(_) => {
            let m = choose|m: int| #[trigger] saved_in(talk, 1, m, tx, sym);
            lemma_saved_stays(talk, last, 1, m, tx, sym);
        },
        RebuildPointView::SaveDatoms(save) => {
            let m = choose|m: int| #[trigger]
                saved_in(talk, 1, m, tx, sym) && saving_told(talk, m, save, datom, sym);
            lemma_saved_stays(talk, last, 1, m, tx, sym);
            lemma_saving_is_told(talk, last, m, save, datom, sym);
        },
        RebuildPointView::SaveSyms => {
            let m = choose|m: int| #[trigger]
                saved_in(talk, 1, m, tx, sym) && saved_in(talk, m, n, datom, sym);
            lemma_saved_stays(talk, last, 1, m, tx, sym);
            lemma_saved_stays(talk, last, m, n, datom, sym);
        },
        _ => {},
    }
}

/// A rebuild is done only after the symbols were set up first, then the `tx` table
/// was written and moved into place, then the `datom` table, and last the symbols
/// were saved; all of which was answered as done.
pub proof fn law_rebuilt_log_was_saved(
    layout: TxLogLayout,
    log: Seq<EnvelopeView>,
    talk: Seq<Exchange>,
    rebuild: RebuildView,
)
    requires
        rebuild_leads(RebuildView::start(layout, log), talk),
        rebuild_after(RebuildView::start(layout, log), talk) == Ok::<RebuildView, ErrorView>(
            rebuild,
        ),
        rebuild.action() is None || rebuild.at is Done,
    ensures
        ({
            let tx = path_joined(layout.root_path(), "tx"@);
            let datom = path_joined(layout.root_path(), "datom"@);
            let sym = path_joined(layout.root_path(), "sym.ray"@);
            &&& talk[0].asked == ActionView::SymInit
            &&& talk[0].reply == ReplyView::Code(0)
            &&& exists|m: int| #[trigger]
                saved_in(talk, 1, m, tx, sym) && saved_in(talk, m, talk.len() - 1, datom, sym)
            &&& talk.last().asked == ActionView::SymSave(c_bytes(sym))
            &&& talk.last().reply == ReplyView::Code(0)
        }),
{
    lemma_rebuild_knows(layout, log, talk);
    lemma_rebuild_waits(layout, log, talk);
}

/// A rebuild waits on something until it is done.
proof fn lemma_rebuild_waits(layout: TxLogLayout, log: Seq<EnvelopeView>, talk: Seq<Exchange>)
    requires
        rebuild_leads(RebuildView::start(layout, log), talk),
    ensures
        rebuild_after(RebuildView::start(layout, log), talk) matches Ok(rebuild) ==> rebuild.wf(),
    decreases talk.len(),
{
    if talk.len() > 0 {
        lemma_rebuild_waits(layout, log, talk.drop_last());
    }
}

/// An answer that says that something was not done ends a rebuild, with a failure
/// that says what it was.
pub proof fn law_bad_answer_ends_a_rebuild(
    rebuild: RebuildView,
    asked: ActionView,
    reply: ReplyView,
)
    requires
        rebuild.action() == Some(asked),
    ensures
        match (asked, reply) {
            (ActionView::SymInit, ReplyView::Code(code)) => code != 0 ==> (rebuild.advance(
                reply,
            ) matches Err(err) && err == ErrorView::SymInit(code)),
            (ActionView::SymSave(path), ReplyView::Code(code)) => code != 0 ==> (rebuild.advance(
                reply,
            ) matches Err(ErrorView::SymSave { path: named, code: told }) && c_bytes(named) == path
                && told == code),
            (ActionView::SplaySave { dir, .. }, ReplyView::Code(code)) => code != 0 ==> (
            rebuild.advance(reply) matches Err(ErrorView::SplaySave { dir: named, code: told })
                && c_bytes(named) == dir && told == code),
            (ActionView::CreateDirAll(path), ReplyView::Io(Err(source))) => {
                rebuild.advance(reply) matches Err(err) && err == (ErrorView::CreateDir {
                    path,
                    source,
                })
            },
            (ActionView::Rename { from, to }, ReplyView::Io(Err(source))) => {
                rebuild.advance(reply) matches Err(err) && err == (ErrorView::Rename {
                    from,
                    to,
                    source,
                })
            },
            (ActionView::TableNew(_), ReplyView::Object(Object::Null))
            | (ActionView::VecNew { .. }, ReplyView::Object(Object::Null))
            | (ActionView::VecAppend(_), ReplyView::Object(Object::Null))
            | (ActionView::TableAddCol(_), ReplyView::Object(Object::Null)) => {
                rebuild.advance(reply) matches Err(ErrorView::Allocation(_))
            },
            _ => true,
        },
{
}

/// Any other answer lets a rebuild go on, as long as its paths can be named to C.
pub proof fn law_good_answer_lets_a_rebuild_go_on(
    rebuild: RebuildView,
    asked: ActionView,
    reply: ReplyView,
)
    requires
        rebuild.action() == Some(asked),
        asked.answered_by(reply),
        match reply {
            ReplyView::Code(code) => code == 0,
            ReplyView::Io(done) => done is Ok,
            ReplyView::Object(object) => object != Object::Null,
            _ => true,
        },
        c_safe(path_joined(rebuild.layout.root_path(), "sym.ray"@)),
        rebuild.at matches RebuildPointView::SaveTx { save, .. } ==> c_safe(save.new_dir)
            && c_safe(save.sym_path),
        rebuild.at matches RebuildPointView::SaveDatoms(save) ==> c_safe(save.new_dir) && c_safe(
            save.sym_path,
        ),
    ensures
        rebuild.advance(reply) is Ok,
{
}

/// An answer that says that something was not done, or is not there, ends a load,
/// with a failure that says what it was.
pub proof fn law_bad_answer_ends_a_load(load: LoadView, asked: ActionView, reply: ReplyView)
    requires
        load.action() == Some(asked),
    ensures
        match (asked, reply) {
            (ActionView::SymInit, ReplyView::Code(code)) => code != 0 ==> (load.advance(
                reply,
            ) matches Err(err) && err == ErrorView::SymInit(code)),
            (ActionView::SymLoad(path), ReplyView::Code(code)) => code != 0 ==> (load.advance(
                reply,
            ) matches Err(ErrorView::SymLoad { path: named, code: told }) && c_bytes(named) == path
                && told == code),
            (ActionView::ReadSplayed { table, .. }, ReplyView::Object(object)) => !good(object)
                ==> (load.advance(reply) matches Err(err) && err == ErrorView::RayforceRead(
                match table {
                    TableKind::Tx => "tx"@,
                    TableKind::Datom => "datom"@,
                },
            )),
            (ActionView::SymFind(name), ReplyView::Symbol(id)) => id < 0 ==> (load.advance(
                reply,
            ) matches Err(ErrorView::MissingColumn { column, .. }) && column == name),
            (ActionView::GetColumn { table: kind, .. }, ReplyView::Object(object)) => !good(object)
                ==> (load.advance(reply) matches Err(ErrorView::MissingColumn { table, .. })
                && table == match kind {
                TableKind::Tx => "tx"@,
                TableKind::Datom => "datom"@,
            }),
            (ActionView::ParseValue(_), ReplyView::Parsed(Err(_))) => load.advance(reply) is Err,
            _ => true,
        },
{
}

} // verus!
