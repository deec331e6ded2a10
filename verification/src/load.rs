//! Loading a saved log.

use vstd::prelude::*;

use crate::decode::{
    assemble, assembled, datom_of_row, datom_row_views, datom_value_text, decode_datom,
    parsed_view, tx_row_views, value_text_of_row, DatomRow, DatomRowView, TxRow, TxRowView,
};
use crate::error::{ErrorView, RayforceAdapterError};
use crate::laws::{law_assembled_log_is_loadable, loadable};
use crate::layout::TxLogLayout;
use crate::log::{
    datom_views, envelope_views, CommitEnvelope, Datom, DatomValue, DatomValueView, DatomView,
    EnvelopeView,
};
use crate::protocol::{
    action_view, ensure_sym_init, fits, sym_init_outcome, Action, ActionView, Reply, ReplyView,
    TableKind,
};
use crate::reader::{ColumnLookup, LookupView, OpenPoint, ReaderView, TableReader};
use crate::table::lemma_map_push;

verus! {

/// How far a log has been loaded.
#[derive(Debug)]
enum LoadPoint {
    /// The symbol table is being set up.
    Init,
    /// The `tx` table is being opened.
    OpenTx(TableReader),
    /// The `tx` table is open, the `datom` table is being opened.
    OpenDatom(TableReader),
    /// The tables that exist are open, the columns of `tx` are being found.
    TxColumns { lookup: ColumnLookup, with_datoms: bool },
    /// The columns of `datom` are being found.
    DatomColumns(ColumnLookup),
    /// The rows of `datom` are being read.
    DatomRows,
    /// The value of datom row `next` is being parsed; those before are decoded.
    Values { rows: Vec<DatomRow>, next: usize, json: String, datoms: Vec<Datom> },
    /// The datoms are decoded, the rows of `tx` are being read.
    TxRows(Vec<Datom>),
    /// The log is loaded.
    Done(Vec<CommitEnvelope>),
}

/// A saved log being loaded.
#[derive(Debug)]
pub struct Load {
    layout: TxLogLayout,
    at: LoadPoint,
}

/// How far a log has been loaded, over views.
#[verifier::ext_equal]
pub enum LoadPointView {
    Init,
    OpenTx(ReaderView),
    OpenDatom(ReaderView),
    TxColumns { lookup: LookupView, with_datoms: bool },
    DatomColumns(LookupView),
    DatomRows,
    Values { rows: Seq<DatomRowView>, next: int, json: Seq<char>, datoms: Seq<DatomView> },
    TxRows(Seq<DatomView>),
    Done(Seq<EnvelopeView>),
}

/// A `Load` over views.
#[verifier::ext_equal]
pub struct LoadView {
    pub layout: TxLogLayout,
    pub at: LoadPointView,
}

impl View for LoadPoint {
    type V = LoadPointView;

    closed spec fn view(&self) -> LoadPointView {
        match *self {
            LoadPoint::Init => LoadPointView::Init,
            LoadPoint::OpenTx(reader) => LoadPointView::OpenTx(reader@),
            LoadPoint::OpenDatom(reader) => LoadPointView::OpenDatom(reader@),
            LoadPoint::TxColumns { lookup, with_datoms } => LoadPointView::TxColumns {
                lookup: lookup@,
                with_datoms,
            },
            LoadPoint::DatomColumns(lookup) => LoadPointView::DatomColumns(lookup@),
            LoadPoint::DatomRows => LoadPointView::DatomRows,
            LoadPoint::Values { rows, next, json, datoms } => LoadPointView::Values {
                rows: datom_row_views(rows@),
                next: next as int,
                json: json@,
                datoms: datom_views(datoms@),
            },
            LoadPoint::TxRows(datoms) => LoadPointView::TxRows(datom_views(datoms@)),
            LoadPoint::Done(envelopes) => LoadPointView::Done(envelope_views(envelopes@)),
        }
    }
}

impl View for Load {
    type V = LoadView;

    closed spec fn view(&self) -> LoadView {
        LoadView { layout: self.layout, at: self.at@ }
    }
}

impl LoadView {
    /// The start of loading the log of that layout.
    pub open spec fn start(layout: TxLogLayout) -> LoadView {
        LoadView { layout, at: LoadPointView::Init }
    }

    /// Whether the point is one that loading passes through: each part of it
    /// still waits on something, and a log that is loaded is settled.
    pub open spec fn wf(self) -> bool {
        match self.at {
            LoadPointView::OpenTx(reader) => reader.action() is Some,
            LoadPointView::OpenDatom(reader) => reader.action() is Some,
            LoadPointView::TxColumns { lookup, .. } => lookup.pending(),
            LoadPointView::DatomColumns(lookup) => lookup.pending(),
            LoadPointView::Values { rows, next, .. } => 0 <= next < rows.len(),
            LoadPointView::Done(envelopes) => loadable(envelopes),
            _ => true,
        }
    }

    /// What is asked for at this point.
    pub open spec fn action(self) -> Option<ActionView> {
        match self.at {
            LoadPointView::Init => Some(ActionView::SymInit),
            LoadPointView::OpenTx(reader) => reader.action(),
            LoadPointView::OpenDatom(reader) => reader.action(),
            LoadPointView::TxColumns { lookup, .. } => lookup.action(),
            LoadPointView::DatomColumns(lookup) => lookup.action(),
            LoadPointView::DatomRows => Some(ActionView::ReadDatomRows),
            LoadPointView::Values { json, .. } => Some(ActionView::ParseValue(json)),
            LoadPointView::TxRows(_) => Some(ActionView::ReadTxRows),
            LoadPointView::Done(_) => None,
        }
    }

    /// The same load at another point.
    pub open spec fn at_point(self, at: LoadPointView) -> LoadView {
        LoadView { at, ..self }
    }

    /// The point that opening the `tx` table has come to: without the table the
    /// log is empty.
    pub open spec fn at_tx(self, reader: ReaderView) -> LoadView {
        self.at_point(
            match reader.at {
                OpenPoint::Absent => LoadPointView::Done(Seq::empty()),
                OpenPoint::Opened => LoadPointView::OpenDatom(
                    ReaderView::start(
                        TableKind::Datom,
                        self.layout.datom_dir(),
                        self.layout.sym_file(),
                    ),
                ),
                _ => LoadPointView::OpenTx(reader),
            },
        )
    }

    /// The point that opening the `datom` table has come to: the table may be
    /// missing.
    pub open spec fn at_datom(self, reader: ReaderView) -> LoadView {
        self.at_point(
            match reader.at {
                OpenPoint::Absent | OpenPoint::Opened => LoadPointView::TxColumns {
                    lookup: LookupView::start(TableKind::Tx),
                    with_datoms: reader.at == OpenPoint::Opened,
                },
                _ => LoadPointView::OpenDatom(reader),
            },
        )
    }

    /// The point that finding the columns of `tx` has come to.
    pub open spec fn at_tx_columns(self, lookup: LookupView, with_datoms: bool) -> LoadView {
        self.at_point(
            if lookup.pending() {
                LoadPointView::TxColumns { lookup, with_datoms }
            } else if with_datoms {
                LoadPointView::DatomColumns(LookupView::start(TableKind::Datom))
            } else {
                LoadPointView::TxRows(Seq::empty())
            },
        )
    }

    /// The point that finding the columns of `datom` has come to.
    pub open spec fn at_datom_columns(self, lookup: LookupView) -> LoadView {
        self.at_point(
            if lookup.pending() {
                LoadPointView::DatomColumns(lookup)
            } else {
                LoadPointView::DatomRows
            },
        )
    }

    /// The point at which datom row `next` is taken up, or the rows of `tx` after
    /// the last one.
    pub open spec fn at_row(
        self,
        rows: Seq<DatomRowView>,
        next: int,
        datoms: Seq<DatomView>,
    ) -> Result<LoadView, ErrorView> {
        if next >= rows.len() {
            Ok(self.at_point(LoadPointView::TxRows(datoms)))
        } else {
            match value_text_of_row(rows[next]) {
                Err(err) => Err(err),
                Ok(json) => Ok(self.at_point(LoadPointView::Values { rows, next, json, datoms })),
            }
        }
    }

    /// Where the parse of the value of datom row `next` leads.
    pub open spec fn after_value(
        self,
        rows: Seq<DatomRowView>,
        next: int,
        datoms: Seq<DatomView>,
        parsed: Result<DatomValueView, serde_json::Error>,
    ) -> Result<LoadView, ErrorView> {
        match datom_of_row(rows[next], parsed) {
            Err(err) => Err(err),
            Ok(datom) => self.at_row(rows, next + 1, datoms.push(datom)),
        }
    }

    /// Where the rows of `tx` lead.
    pub open spec fn at_end(self, tx: Seq<TxRowView>, datoms: Seq<DatomView>) -> Result<
        LoadView,
        ErrorView,
    > {
        match assembled(tx, datoms) {
            Err(err) => Err(err),
            Ok(envelopes) => Ok(self.at_point(LoadPointView::Done(envelopes))),
        }
    }

    /// Where the answer to the request of this point leads.
    pub open spec fn advance(self, reply: ReplyView) -> Result<LoadView, ErrorView> {
        match (self.at, reply) {
            (LoadPointView::Init, ReplyView::Code(code)) => match sym_init_outcome(code) {
                Err(err) => Err(err),
                Ok(_) => Ok(
                    self.at_point(
                        LoadPointView::OpenTx(
                            ReaderView::start(
                                TableKind::Tx,
                                self.layout.tx_dir(),
                                self.layout.sym_file(),
                            ),
                        ),
                    ),
                ),
            },
            (LoadPointView::OpenTx(reader), _) => match reader.advance(reply) {
                Err(err) => Err(err),
                Ok(reader) => Ok(self.at_tx(reader)),
            },
            (LoadPointView::OpenDatom(reader), _) => match reader.advance(reply) {
                Err(err) => Err(err),
                Ok(reader) => Ok(self.at_datom(reader)),
            },
            (LoadPointView::TxColumns { lookup, with_datoms }, _) => match lookup.advance(reply) {
                Err(err) => Err(err),
                Ok(lookup) => Ok(self.at_tx_columns(lookup, with_datoms)),
            },
            (LoadPointView::DatomColumns(lookup), _) => match lookup.advance(reply) {
                Err(err) => Err(err),
                Ok(lookup) => Ok(self.at_datom_columns(lookup)),
            },
            (LoadPointView::DatomRows, ReplyView::DatomRows(rows)) => self.at_row(
                rows,
                0,
                Seq::empty(),
            ),
            (
                LoadPointView::Values { rows, next, datoms, .. },
                ReplyView::Parsed(parsed),
            ) => self.after_value(rows, next, datoms, parsed),
            (LoadPointView::TxRows(datoms), ReplyView::TxRows(tx)) => self.at_end(tx, datoms),
            _ => Ok(self),
        }
    }
}

/// The view of a load that may have failed.
pub open spec fn load_result(res: Result<Load, RayforceAdapterError>) -> Result<
    LoadView,
    ErrorView,
> {
    match res {
        Ok(load) => Ok(load@),
        Err(err) => Err(err@),
    }
}

/// Starts to load the log of that layout.
pub fn load_envelopes(layout: &TxLogLayout) -> (res: Load)
    ensures
        res@ == LoadView::start(*layout),
{
    Load { layout: layout.clone(), at: LoadPoint::Init }
}

impl Load {
    #[verifier::type_invariant]
    pub(crate) open spec fn inv(self) -> bool {
        self@.wf()
    }

    /// The request that this process waits on, or none once the log is loaded.
    pub fn action(&self) -> (res: Option<Action>)
        ensures
            action_view(res) == self@.action(),
            res is None <==> self@.at is Done,
    {
        proof {
            use_type_invariant(self);
        }
        match &self.at {
            LoadPoint::Init => Some(Action::SymInit),
            LoadPoint::OpenTx(reader) => reader.action(),
            LoadPoint::OpenDatom(reader) => reader.action(),
            LoadPoint::TxColumns { lookup, .. } => lookup.action(),
            LoadPoint::DatomColumns(lookup) => lookup.action(),
            LoadPoint::DatomRows => Some(Action::ReadDatomRows),
            LoadPoint::Values { json, .. } => Some(Action::ParseValue(json.clone())),
            LoadPoint::TxRows(_) => Some(Action::ReadTxRows),
            LoadPoint::Done(_) => None,
        }
    }

    fn at_row(
        layout: TxLogLayout,
        rows: Vec<DatomRow>,
        next: usize,
        datoms: Vec<Datom>,
    ) -> (res: Result<Load, RayforceAdapterError>)
        ensures
            load_result(res) == LoadView::start(layout).at_row(
                datom_row_views(rows@),
                next as int,
                datom_views(datoms@),
            ),
    {
        if next >= rows.len() {
            return Ok(Load { layout, at: LoadPoint::TxRows(datoms) });
        }
        let json = datom_value_text(&rows[next])?;
        Ok(Load { layout, at: LoadPoint::Values { rows, next, json, datoms } })
    }

    fn at_end(layout: TxLogLayout, tx: Vec<TxRow>, datoms: Vec<Datom>) -> (res: Result<
        Load,
        RayforceAdapterError,
    >)
        ensures
            load_result(res) == LoadView::start(layout).at_end(
                tx_row_views(tx@),
                datom_views(datoms@),
            ),
    {
        proof {
            law_assembled_log_is_loadable(tx_row_views(tx@), datom_views(datoms@));
        }
        let envelopes = assemble(&tx, datoms)?;
        Ok(Load { layout, at: LoadPoint::Done(envelopes) })
    }

    fn at_tx(layout: TxLogLayout, reader: TableReader) -> (res: Load)
        ensures
            res@ == LoadView::start(layout).at_tx(reader@),
    {
        if reader.action().is_some() {
            return Load { layout, at: LoadPoint::OpenTx(reader) };
        }
        if !reader.found() {
            assert(envelope_views(Seq::<CommitEnvelope>::empty()) == Seq::<EnvelopeView>::empty());
            return Load { layout, at: LoadPoint::Done(Vec::new()) };
        }
        let reader = TableReader::open(
            TableKind::Datom,
            layout.datom_table_dir(),
            layout.sym_path(),
        );
        Load { layout, at: LoadPoint::OpenDatom(reader) }
    }

    fn at_datom(layout: TxLogLayout, reader: TableReader) -> (res: Load)
        ensures
            res@ == LoadView::start(layout).at_datom(reader@),
    {
        if reader.action().is_some() {
            return Load { layout, at: LoadPoint::OpenDatom(reader) };
        }
        let with_datoms = reader.found();
        let lookup = ColumnLookup::new(TableKind::Tx);
        Load { layout, at: LoadPoint::TxColumns { lookup, with_datoms } }
    }

    fn at_tx_columns(layout: TxLogLayout, lookup: ColumnLookup, with_datoms: bool) -> (res: Load)
        ensures
            res@ == LoadView::start(layout).at_tx_columns(lookup@, with_datoms),
    {
        if lookup.action().is_some() {
            return Load { layout, at: LoadPoint::TxColumns { lookup, with_datoms } };
        }
        if with_datoms {
            let lookup = ColumnLookup::new(TableKind::Datom);
            return Load { layout, at: LoadPoint::DatomColumns(lookup) };
        }
        assert(datom_views(Seq::<Datom>::empty()) == Seq::<DatomView>::empty());
        Load { layout, at: LoadPoint::TxRows(Vec::new()) }
    }

    fn at_datom_columns(layout: TxLogLayout, lookup: ColumnLookup) -> (res: Load)
        ensures
            res@ == LoadView::start(layout).at_datom_columns(lookup@),
    {
        if lookup.action().is_some() {
            return Load { layout, at: LoadPoint::DatomColumns(lookup) };
        }
        Load { layout, at: LoadPoint::DatomRows }
    }

    fn after_value(
        layout: TxLogLayout,
        rows: Vec<DatomRow>,
        next: usize,
        datoms: Vec<Datom>,
        parsed: Result<DatomValue, serde_json::Error>,
    ) -> (res: Result<Load, RayforceAdapterError>)
        requires
            next < rows.len(),
        ensures
            load_result(res) == LoadView::start(layout).after_value(
                datom_row_views(rows@),
                next as int,
                datom_views(datoms@),
                parsed_view(parsed),
            ),
    {
        broadcast use lemma_map_push;

        let datom = decode_datom(&rows[next], parsed)?;
        let mut datoms = datoms;
        datoms.push(datom);
        Load::at_row(layout, rows, next + 1, datoms)
    }

    /// Takes the answer to the request of `action`.
    pub fn advance(self, reply: Reply) -> (res: Result<Self, RayforceAdapterError>)
        requires
            fits(self@.action(), reply@),
        ensures
            load_result(res) == self@.advance(reply@),
    {
        proof {
            use_type_invariant(&self);
        }
        let Load { layout, at } = self;
        match (at, reply) {
            (LoadPoint::Init, Reply::Code(code)) => {
                ensure_sym_init(code)?;
                let reader = TableReader::open(
                    TableKind::Tx,
                    layout.tx_table_dir(),
                    layout.sym_path(),
                );
                Ok(Load { layout, at: LoadPoint::OpenTx(reader) })
            },
            (LoadPoint::OpenTx(reader), reply) => Ok(
                Load::at_tx(layout, reader.advance(reply)?),
            ),
            (LoadPoint::OpenDatom(reader), reply) => Ok(
                Load::at_datom(layout, reader.advance(reply)?),
            ),
            (LoadPoint::TxColumns { lookup, with_datoms }, reply) => Ok(
                Load::at_tx_columns(layout, lookup.advance(reply)?, with_datoms),
            ),
            (LoadPoint::DatomColumns(lookup), reply) => Ok(
                Load::at_datom_columns(layout, lookup.advance(reply)?),
            ),
            (LoadPoint::DatomRows, Reply::DatomRows(rows)) => {
                assert(datom_views(Seq::<Datom>::empty()) == Seq::<DatomView>::empty());
                Load::at_row(layout, rows, 0, Vec::new())
            },
            (LoadPoint::Values { rows, next, datoms, .. }, Reply::Parsed(parsed)) => {
                Load::after_value(layout, rows, next, datoms, parsed)
            },
            (LoadPoint::TxRows(datoms), Reply::TxRows(tx)) => Load::at_end(layout, tx, datoms),
            (at, _) => Ok(Load { layout, at }),
        }
    }

    /// The envelopes, once the log is loaded. They are settled, and their ids fit.
    pub fn into_envelopes(self) -> (res: Option<Vec<CommitEnvelope>>)
        ensures
            match res {
                Some(envelopes) => self@.at == LoadPointView::Done(envelope_views(envelopes@))
                    && loadable(envelope_views(envelopes@)),
                None => !(self@.at is Done),
            },
    {
        proof {
            use_type_invariant(&self);
        }
        match self.at {
            LoadPoint::Done(envelopes) => Some(envelopes),
            _ => None,
        }
    }
}

} // verus!
