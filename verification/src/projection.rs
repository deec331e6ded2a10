//! The projection that keeps a log of commit envelopes on disk.

use vstd::prelude::*;

use crate::encode::plain_metadata_reads_back;
use crate::error::{ErrorView, RayforceAdapterError};
use crate::laws::loadable;
use crate::layout::TxLogLayout;
use crate::load::{load_envelopes, Load, LoadPointView, LoadView};
use crate::log::{envelope_views, CommitEnvelope, EnvelopeView};
use crate::protocol::{
    action_view, ensure_sym_init, fits, sym_init_outcome, Action, ActionView, Reply, ReplyView,
};
use crate::rebuild::{Rebuild, RebuildView};
use crate::table::lemma_map_push;

verus! {

/// A log of commit envelopes that is written to splayed tables.
///
/// Each append writes both tables anew.
#[derive(Debug)]
pub struct SplayedTxLogProjection {
    layout: TxLogLayout,
    envelopes: Vec<CommitEnvelope>,
}

/// A `SplayedTxLogProjection` over views.
#[verifier::ext_equal]
pub struct ProjectionView {
    pub layout: TxLogLayout,
    pub envelopes: Seq<EnvelopeView>,
}

impl View for SplayedTxLogProjection {
    type V = ProjectionView;

    closed spec fn view(&self) -> ProjectionView {
        ProjectionView { layout: self.layout, envelopes: envelope_views(self.envelopes@) }
    }
}

impl SplayedTxLogProjection {
    /// Starts a projection with an empty log.
    pub fn new(layout: TxLogLayout) -> (res: Opening)
        ensures
            res@ == OpeningView::start(layout, false),
    {
        Opening { layout, existing: false, at: OpeningPoint::Init }
    }

    /// Starts a projection with the log that is on disk.
    pub fn open(layout: TxLogLayout) -> (res: Opening)
        ensures
            res@ == OpeningView::start(layout, true),
    {
        Opening { layout, existing: true, at: OpeningPoint::Init }
    }

    pub fn layout(&self) -> (res: &TxLogLayout)
        ensures
            *res == self@.layout,
    {
        &self.layout
    }

    pub fn envelopes(&self) -> (res: &[CommitEnvelope])
        ensures
            envelope_views(res@) == self@.envelopes,
    {
        self.envelopes.as_slice()
    }

    /// Starts to write the log to disk.
    pub fn rebuild(&self) -> (res: Rebuild)
        ensures
            res@ == RebuildView::start(self@.layout, self@.envelopes),
            plain_metadata_reads_back(self@.envelopes),
    {
        Rebuild::new(&self.layout, &self.envelopes)
    }

    /// Adds an envelope to the log and starts to write the log to disk. The
    /// envelope stays in the log whatever comes of the writing.
    pub fn append_envelope(&mut self, envelope: &CommitEnvelope) -> (res: Rebuild)
        ensures
            final(self)@ == (ProjectionView {
                layout: old(self)@.layout,
                envelopes: old(self)@.envelopes.push(envelope@),
            }),
            res@ == RebuildView::start(final(self)@.layout, final(self)@.envelopes),
            plain_metadata_reads_back(final(self)@.envelopes),
    {
        broadcast use lemma_map_push;

        self.envelopes.push(envelope.clone());
        self.rebuild()
    }
}

/// How far a projection has been opened.
#[derive(Debug)]
enum OpeningPoint {
    /// The symbol table is being set up.
    Init,
    /// The root directory is being created.
    CreateRoot,
    /// The log is being loaded.
    Loading(Load),
    /// The projection is open.
    Ready(Vec<CommitEnvelope>),
}

/// A projection being opened.
#[derive(Debug)]
pub struct Opening {
    layout: TxLogLayout,
    existing: bool,
    at: OpeningPoint,
}

/// How far a projection has been opened, over views.
#[verifier::ext_equal]
pub enum OpeningPointView {
    Init,
    CreateRoot,
    Loading(LoadView),
    Ready(Seq<EnvelopeView>),
}

/// An `Opening` over views.
#[verifier::ext_equal]
pub struct OpeningView {
    pub layout: TxLogLayout,
    pub existing: bool,
    pub at: OpeningPointView,
}

impl View for OpeningPoint {
    type V = OpeningPointView;

    closed spec fn view(&self) -> OpeningPointView {
        match *self {
            OpeningPoint::Init => OpeningPointView::Init,
            OpeningPoint::CreateRoot => OpeningPointView::CreateRoot,
            OpeningPoint::Loading(load) => OpeningPointView::Loading(load@),
            OpeningPoint::Ready(envelopes) => OpeningPointView::Ready(envelope_views(envelopes@)),
        }
    }
}

impl View for Opening {
    type V = OpeningView;

    closed spec fn view(&self) -> OpeningView {
        OpeningView { layout: self.layout, existing: self.existing, at: self.at@ }
    }
}

impl OpeningView {
    /// The start of opening a projection, with the log on disk if `existing`.
    pub open spec fn start(layout: TxLogLayout, existing: bool) -> OpeningView {
        OpeningView { layout, existing, at: OpeningPointView::Init }
    }

    /// Whether the point is one that opening passes through: a load still waits on
    /// something, and a log that is open is settled.
    pub open spec fn wf(self) -> bool {
        match self.at {
            OpeningPointView::Loading(load) => load.wf() && !(load.at is Done),
            OpeningPointView::Ready(envelopes) => loadable(envelopes),
            _ => true,
        }
    }

    /// What is asked for at this point.
    pub open spec fn action(self) -> Option<ActionView> {
        match self.at {
            OpeningPointView::Init => Some(ActionView::SymInit),
            OpeningPointView::CreateRoot => Some(
                ActionView::CreateDirAll(self.layout.root_path()),
            ),
            OpeningPointView::Loading(load) => load.action(),
            OpeningPointView::Ready(_) => None,
        }
    }

    /// The same opening at another point.
    pub open spec fn at_point(self, at: OpeningPointView) -> OpeningView {
        OpeningView { at, ..self }
    }

    /// The point that loading has come to.
    pub open spec fn at_load(self, load: LoadView) -> OpeningView {
        self.at_point(
            match load.at {
                LoadPointView::Done(envelopes) => OpeningPointView::Ready(envelopes),
                _ => OpeningPointView::Loading(load),
            },
        )
    }

    /// Where the answer to the request of this point leads.
    pub open spec fn advance(self, reply: ReplyView) -> Result<OpeningView, ErrorView> {
        match (self.at, reply) {
            (OpeningPointView::Init, ReplyView::Code(code)) => match sym_init_outcome(code) {
                Err(err) => Err(err),
                Ok(_) => Ok(self.at_point(OpeningPointView::CreateRoot)),
            },
            (OpeningPointView::CreateRoot, ReplyView::Io(Err(source))) => Err(
                ErrorView::CreateDir { path: self.layout.root_path(), source },
            ),
            (OpeningPointView::CreateRoot, _) => Ok(
                if self.existing {
                    self.at_load(LoadView::start(self.layout))
                } else {
                    self.at_point(OpeningPointView::Ready(Seq::empty()))
                },
            ),
            (OpeningPointView::Loading(load), _) => match load.advance(reply) {
                Err(err) => Err(err),
                Ok(load) => Ok(self.at_load(load)),
            },
            _ => Ok(self),
        }
    }
}

/// The view of an opening that may have failed.
pub open spec fn opening_result(res: Result<Opening, RayforceAdapterError>) -> Result<
    OpeningView,
    ErrorView,
> {
    match res {
        Ok(opening) => Ok(opening@),
        Err(err) => Err(err@),
    }
}

impl Opening {
    #[verifier::type_invariant]
    spec fn inv(self) -> bool {
        self@.wf()
    }

    /// The request that this process waits on, or none once the projection is
    /// open.
    pub fn action(&self) -> (res: Option<Action>)
        ensures
            action_view(res) == self@.action(),
            res is None <==> self@.at is Ready,
    {
        proof {
            use_type_invariant(self);
        }
        match &self.at {
            OpeningPoint::Init => Some(Action::SymInit),
            OpeningPoint::CreateRoot => Some(Action::CreateDirAll(self.layout.root_dir())),
            OpeningPoint::Loading(load) => load.action(),
            OpeningPoint::Ready(_) => None,
        }
    }

    fn at_load(layout: TxLogLayout, existing: bool, load: Load) -> (res: Self)
        ensures
            res@ == OpeningView::start(layout, existing).at_load(load@),
    {
        proof {
            use_type_invariant(&load);
        }
        if load.action().is_some() {
            return Opening { layout, existing, at: OpeningPoint::Loading(load) };
        }
        let envelopes = match load.into_envelopes() {
            Some(envelopes) => envelopes,
            None => Vec::new(),
        };
        Opening { layout, existing, at: OpeningPoint::Ready(envelopes) }
    }

    /// Takes the answer to the request of `action`.
    pub fn advance(self, reply: Reply) -> (res: Result<Self, RayforceAdapterError>)
        requires
            fits(self@.action(), reply@),
        ensures
            opening_result(res) == self@.advance(reply@),
    {
        proof {
            use_type_invariant(&self);
        }
        let Opening { layout, existing, at } = self;
        match (at, reply) {
            (OpeningPoint::Init, Reply::Code(code)) => {
                ensure_sym_init(code)?;
                Ok(Opening { layout, existing, at: OpeningPoint::CreateRoot })
            },
            (OpeningPoint::CreateRoot, Reply::Io(created)) => {
                layout.ensure(created)?;
                if existing {
                    let load = load_envelopes(&layout);
                    return Ok(Opening::at_load(layout, existing, load));
                }
                assert(envelope_views(Seq::<CommitEnvelope>::empty())
                    == Seq::<EnvelopeView>::empty());
                Ok(Opening { layout, existing, at: OpeningPoint::Ready(Vec::new()) })
            },
            (OpeningPoint::Loading(load), reply) => Ok(
                Opening::at_load(layout, existing, load.advance(reply)?),
            ),
            (at, _) => Ok(Opening { layout, existing, at }),
        }
    }

    /// The projection, once it is open. Its log is settled, and its ids fit.
    pub fn into_projection(self) -> (res: Option<SplayedTxLogProjection>)
        ensures
            match res {
                Some(projection) => {
                    &&& self@.at == OpeningPointView::Ready(projection@.envelopes)
                    &&& projection@.layout == self@.layout
                    &&& loadable(projection@.envelopes)
                },
                None => !(self@.at is Ready),
            },
    {
        proof {
            use_type_invariant(&self);
        }
        match self.at {
            OpeningPoint::Ready(envelopes) => Some(
                SplayedTxLogProjection { layout: self.layout, envelopes },
            ),
            _ => None,
        }
    }
}

} // verus!
