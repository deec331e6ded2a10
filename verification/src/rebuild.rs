//! Writing a whole log to disk: both tables, then the symbols.

use vstd::prelude::*;

use crate::builder::{BuildPoint, BuilderView, TableBuilder};
use crate::encode::{
    datom_table, datom_table_of, plain_metadata_reads_back, tx_table, tx_table_of,
};
use crate::error::{ErrorView, RayforceAdapterError};
use crate::layout::TxLogLayout;
use crate::log::{envelope_views, CommitEnvelope, EnvelopeView};
use crate::path::{c_bytes, c_safe, c_string, path_lossy, path_to_cstring};
use crate::protocol::{
    action_view, ensure_sym_init, fits, sym_init_outcome, Action, ActionView, Reply, ReplyView,
    RAY_OK,
};
use crate::save::{SavePoint, SaveView, TableSave};
use crate::table::{Table, TableView};

verus! {

/// How far a log has been written.
#[derive(Debug)]
enum RebuildPoint {
    /// The symbol table is being set up.
    Init { tx: Table, datoms: Table },
    /// The `tx` table is being built.
    BuildTx { builder: TableBuilder, datoms: Table },
    /// The `tx` table is being saved.
    SaveTx { save: TableSave, datoms: Table },
    /// The `datom` table is being built.
    BuildDatoms(TableBuilder),
    /// The `datom` table is being saved.
    SaveDatoms(TableSave),
    /// The symbols are being saved.
    SaveSyms,
    /// The log is written.
    Done,
}

/// A log being written.
#[derive(Debug)]
pub struct Rebuild {
    layout: TxLogLayout,
    at: RebuildPoint,
}

/// How far a log has been written, over views.
#[verifier::ext_equal]
pub enum RebuildPointView {
    Init { tx: TableView, datoms: TableView },
    BuildTx { builder: BuilderView, datoms: TableView },
    SaveTx { save: SaveView, datoms: TableView },
    BuildDatoms(BuilderView),
    SaveDatoms(SaveView),
    SaveSyms,
    Done,
}

/// A `Rebuild` over views.
#[verifier::ext_equal]
pub struct RebuildView {
    pub layout: TxLogLayout,
    pub at: RebuildPointView,
}

impl View for RebuildPoint {
    type V = RebuildPointView;

    closed spec fn view(&self) -> RebuildPointView {
        match *self {
            RebuildPoint::Init { tx, datoms } => RebuildPointView::Init {
                tx: tx@,
                datoms: datoms@,
            },
            RebuildPoint::BuildTx { builder, datoms } => RebuildPointView::BuildTx {
                builder: builder@,
                datoms: datoms@,
            },
            RebuildPoint::SaveTx { save, datoms } => RebuildPointView::SaveTx {
                save: save@,
                datoms: datoms@,
            },
            RebuildPoint::BuildDatoms(builder) => RebuildPointView::BuildDatoms(builder@),
            RebuildPoint::SaveDatoms(save) => RebuildPointView::SaveDatoms(save@),
            RebuildPoint::SaveSyms => RebuildPointView::SaveSyms,
            RebuildPoint::Done => RebuildPointView::Done,
        }
    }
}

impl View for Rebuild {
    type V = RebuildView;

    closed spec fn view(&self) -> RebuildView {
        RebuildView { layout: self.layout, at: self.at@ }
    }
}

impl RebuildView {
    /// The start of writing those envelopes.
    pub open spec fn start(layout: TxLogLayout, envelopes: Seq<EnvelopeView>) -> RebuildView {
        RebuildView {
            layout,
            at: RebuildPointView::Init {
                tx: tx_table_of(envelopes),
                datoms: datom_table_of(envelopes),
            },
        }
    }

    /// Whether the point is one that writing passes through: each part of it
    /// still waits on something.
    pub open spec fn wf(self) -> bool {
        match self.at {
            RebuildPointView::BuildTx { builder, .. } => builder.at != BuildPoint::Built,
            RebuildPointView::SaveTx { save, .. } => save.at != SavePoint::Saved,
            RebuildPointView::BuildDatoms(builder) => builder.at != BuildPoint::Built,
            RebuildPointView::SaveDatoms(save) => save.at != SavePoint::Saved,
            _ => true,
        }
    }

    /// What is asked for at this point.
    pub open spec fn action(self) -> Option<ActionView> {
        match self.at {
            RebuildPointView::Init { .. } => Some(ActionView::SymInit),
            RebuildPointView::BuildTx { builder, .. } => builder.action(),
            RebuildPointView::SaveTx { save, .. } => save.action(),
            RebuildPointView::BuildDatoms(builder) => builder.action(),
            RebuildPointView::SaveDatoms(save) => save.action(),
            RebuildPointView::SaveSyms => Some(
                ActionView::SymSave(c_bytes(self.layout.sym_file())),
            ),
            RebuildPointView::Done => None,
        }
    }

    /// The same rebuild at another point.
    pub open spec fn at_point(self, at: RebuildPointView) -> RebuildView {
        RebuildView { at, ..self }
    }

    /// The point that building the `tx` table has come to.
    pub open spec fn at_build_tx(self, builder: BuilderView, datoms: TableView) -> RebuildView {
        self.at_point(
            if builder.at == BuildPoint::Built {
                RebuildPointView::SaveTx {
                    save: SaveView::start(self.layout.tx_dir(), self.layout.sym_file()),
                    datoms,
                }
            } else {
                RebuildPointView::BuildTx { builder, datoms }
            },
        )
    }

    /// The point that saving the `tx` table has come to.
    pub open spec fn at_save_tx(self, save: SaveView, datoms: TableView) -> RebuildView {
        self.at_point(
            if save.at == SavePoint::Saved {
                RebuildPointView::BuildDatoms(BuilderView::start(datoms))
            } else {
                RebuildPointView::SaveTx { save, datoms }
            },
        )
    }

    /// The point that building the `datom` table has come to.
    pub open spec fn at_build_datoms(self, builder: BuilderView) -> RebuildView {
        self.at_point(
            if builder.at == BuildPoint::Built {
                RebuildPointView::SaveDatoms(
                    SaveView::start(self.layout.datom_dir(), self.layout.sym_file()),
                )
            } else {
                RebuildPointView::BuildDatoms(builder)
            },
        )
    }

    /// The point that saving the `datom` table has come to.
    pub open spec fn at_save_datoms(self, save: SaveView) -> Result<RebuildView, ErrorView> {
        if save.at != SavePoint::Saved {
            Ok(self.at_point(RebuildPointView::SaveDatoms(save)))
        } else if !c_safe(self.layout.sym_file()) {
            Err(ErrorView::NulPath(path_lossy(self.layout.sym_file())))
        } else {
            Ok(self.at_point(RebuildPointView::SaveSyms))
        }
    }

    /// Where the answer to the request of this point leads.
    pub open spec fn advance(self, reply: ReplyView) -> Result<RebuildView, ErrorView> {
        match (self.at, reply) {
            (RebuildPointView::Init { tx, datoms }, ReplyView::Code(code)) => {
                match sym_init_outcome(code) {
                    Err(err) => Err(err),
                    Ok(_) => Ok(
                        self.at_point(
                            RebuildPointView::BuildTx { builder: BuilderView::start(tx), datoms },
                        ),
                    ),
                }
            },
            (RebuildPointView::BuildTx { builder, datoms }, _) => match builder.advance(reply) {
                Err(err) => Err(err),
                Ok(builder) => Ok(self.at_build_tx(builder, datoms)),
            },
            (RebuildPointView::SaveTx { save, datoms }, _) => match save.advance(reply) {
                Err(err) => Err(err),
                Ok(save) => Ok(self.at_save_tx(save, datoms)),
            },
            (RebuildPointView::BuildDatoms(builder), _) => match builder.advance(reply) {
                Err(err) => Err(err),
                Ok(builder) => Ok(self.at_build_datoms(builder)),
            },
            (RebuildPointView::SaveDatoms(save), _) => match save.advance(reply) {
                Err(err) => Err(err),
                Ok(save) => self.at_save_datoms(save),
            },
            (RebuildPointView::SaveSyms, ReplyView::Code(code)) => if code != RAY_OK {
                Err(ErrorView::SymSave { path: self.layout.sym_file(), code })
            } else {
                Ok(self.at_point(RebuildPointView::Done))
            },
            _ => Ok(self),
        }
    }
}

/// The view of a rebuild that may have failed.
pub open spec fn rebuild_result(res: Result<Rebuild, RayforceAdapterError>) -> Result<
    RebuildView,
    ErrorView,
> {
    match res {
        Ok(rebuild) => Ok(rebuild@),
        Err(err) => Err(err@),
    }
}

impl Rebuild {
    #[verifier::type_invariant]
    spec fn inv(self) -> bool {
        self@.wf()
    }

    /// Starts to write those envelopes.
    pub fn new(layout: &TxLogLayout, envelopes: &Vec<CommitEnvelope>) -> (res: Self)
        ensures
            res@ == RebuildView::start(*layout, envelope_views(envelopes@)),
            plain_metadata_reads_back(envelope_views(envelopes@)),
    {
        Rebuild {
            layout: layout.clone(),
            at: RebuildPoint::Init { tx: tx_table(envelopes), datoms: datom_table(envelopes) },
        }
    }

    /// The request that this process waits on, or none once the log is written.
    pub fn action(&self) -> (res: Option<Action>)
        ensures
            action_view(res) == self@.action(),
            res is None <==> self@.at is Done,
    {
        proof {
            use_type_invariant(self);
        }
        match &self.at {
            RebuildPoint::Init { .. } => Some(Action::SymInit),
            RebuildPoint::BuildTx { builder, .. } => builder.action(),
            RebuildPoint::SaveTx { save, .. } => save.action(),
            RebuildPoint::BuildDatoms(builder) => builder.action(),
            RebuildPoint::SaveDatoms(save) => save.action(),
            RebuildPoint::SaveSyms => Some(Action::SymSave(c_string(&self.layout.sym_path()))),
            RebuildPoint::Done => None,
        }
    }

    fn at_build_tx(layout: TxLogLayout, builder: TableBuilder, datoms: Table) -> (res: Self)
        ensures
            res@.layout == layout,
            res@ == res@.at_build_tx(builder@, datoms@),
    {
        if builder.action().is_some() {
            return Rebuild { layout, at: RebuildPoint::BuildTx { builder, datoms } };
        }
        let save = TableSave::new(layout.tx_table_dir(), layout.sym_path());
        Rebuild { layout, at: RebuildPoint::SaveTx { save, datoms } }
    }

    fn at_save_tx(layout: TxLogLayout, save: TableSave, datoms: Table) -> (res: Self)
        ensures
            res@.layout == layout,
            res@ == res@.at_save_tx(save@, datoms@),
    {
        if save.action().is_some() {
            return Rebuild { layout, at: RebuildPoint::SaveTx { save, datoms } };
        }
        Rebuild { layout, at: RebuildPoint::BuildDatoms(TableBuilder::new(datoms)) }
    }

    fn at_build_datoms(layout: TxLogLayout, builder: TableBuilder) -> (res: Self)
        ensures
            res@.layout == layout,
            res@ == res@.at_build_datoms(builder@),
    {
        if builder.action().is_some() {
            return Rebuild { layout, at: RebuildPoint::BuildDatoms(builder) };
        }
        let save = TableSave::new(layout.datom_table_dir(), layout.sym_path());
        Rebuild { layout, at: RebuildPoint::SaveDatoms(save) }
    }

    fn at_save_datoms(layout: TxLogLayout, save: TableSave) -> (res: Result<
        Self,
        RayforceAdapterError,
    >)
        ensures
            rebuild_result(res) == (RebuildView {
                layout,
                at: RebuildPointView::Done,
            }).at_save_datoms(save@),
    {
        if save.action().is_some() {
            return Ok(Rebuild { layout, at: RebuildPoint::SaveDatoms(save) });
        }
        let _sym = path_to_cstring(&layout.sym_path())?;
        Ok(Rebuild { layout, at: RebuildPoint::SaveSyms })
    }

    /// Takes the answer to the request of `action`.
    pub fn advance(self, reply: Reply) -> (res: Result<Self, RayforceAdapterError>)
        requires
            fits(self@.action(), reply@),
        ensures
            rebuild_result(res) == self@.advance(reply@),
    {
        proof {
            use_type_invariant(&self);
        }
        let Rebuild { layout, at } = self;
        match (at, reply) {
            (RebuildPoint::Init { tx, datoms }, Reply::Code(code)) => {
                ensure_sym_init(code)?;
                let builder = TableBuilder::new(tx);
                Ok(Rebuild { layout, at: RebuildPoint::BuildTx { builder, datoms } })
            },
            (RebuildPoint::BuildTx { builder, datoms }, reply) => Ok(
                Rebuild::at_build_tx(layout, builder.advance(reply)?, datoms),
            ),
            (RebuildPoint::SaveTx { save, datoms }, reply) => Ok(
                Rebuild::at_save_tx(layout, save.advance(reply)?, datoms),
            ),
            (RebuildPoint::BuildDatoms(builder), reply) => Ok(
                Rebuild::at_build_datoms(layout, builder.advance(reply)?),
            ),
            (RebuildPoint::SaveDatoms(save), reply) => Rebuild::at_save_datoms(
                layout,
                save.advance(reply)?,
            ),
            (RebuildPoint::SaveSyms, Reply::Code(code)) => {
                if code != RAY_OK {
                    return Err(
                        RayforceAdapterError::SymSave { path: layout.sym_path(), code },
                    );
                }
                Ok(Rebuild { layout, at: RebuildPoint::Done })
            },
            (at, _) => Ok(Rebuild { layout, at }),
        }
    }
}

} // verus!
