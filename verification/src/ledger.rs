//! What a closed ledger hands over: its transaction-processing records and the
//! contract events inside them, held as plain data.
//!
//! Only what the dispatch reads is kept. A record keeps the format of its apply
//! result; the current format keeps its contract-execution summary, and that one
//! its events.

use vstd::prelude::*;
use crate::xdr::{values_view, ScVal, ScValView};

verus! {

/// The body of an event in its version-0 shape: topics, then one data value.
#[derive(Clone, Debug, PartialEq, Eq)]
pub struct ContractEventV0 {
    pub topics: Vec<ScVal>,
    pub data: ScVal,
}

/// What a version-0 event body is: its topics' views in order, and its data's view.
pub struct ContractEventV0View {
    pub topics: Seq<ScValView>,
    pub data: ScValView,
}

impl View for ContractEventV0 {
    type V = ContractEventV0View;

    open spec fn view(&self) -> ContractEventV0View {
        ContractEventV0View { topics: values_view(self.topics@), data: self.data@ }
    }
}

/// The body of an event, tagged by its shape.
#[derive(Clone, Debug, PartialEq, Eq)]
pub enum ContractEventBody {
    V0(ContractEventV0),
    /// A shape that is not read here.
    Unsupported,
}

/// What an event body is.
pub enum ContractEventBodyView {
    V0(ContractEventV0View),
    Unsupported,
}

impl View for ContractEventBody {
    type V = ContractEventBodyView;

    open spec fn view(&self) -> ContractEventBodyView {
        match self {
            ContractEventBody::V0(v0) => ContractEventBodyView::V0(v0@),
            ContractEventBody::Unsupported => ContractEventBodyView::Unsupported,
        }
    }
}

/// One contract event. The contract that emitted it may be unknown.
#[derive(Clone, Debug, PartialEq, Eq)]
pub struct ContractEvent {
    pub contract_id: Option<crate::xdr::Hash>,
    pub body: ContractEventBody,
}

/// What a contract event is.
pub struct ContractEventView {
    pub contract_id: Option<crate::xdr::Hash>,
    pub body: ContractEventBodyView,
}

impl View for ContractEvent {
    type V = ContractEventView;

    open spec fn view(&self) -> ContractEventView {
        ContractEventView { contract_id: self.contract_id, body: self.body@ }
    }
}

impl ContractEventView {
    /// Whether every value that the event carries can be put on the wire.
    pub open spec fn fits_wire(self) -> bool {
        self.body matches ContractEventBodyView::V0(v0) ==> {
            &&& v0.data.fits_wire()
            &&& forall|i: int| 0 <= i < v0.topics.len() ==> (#[trigger] v0.topics[i]).fits_wire()
        }
    }
}

/// The views of a list of events, in the list's order.
pub open spec fn events_view(events: Seq<ContractEvent>) -> Seq<ContractEventView> {
    Seq::new(events.len(), |i: int| events[i]@)
}

/// The summary of one transaction's contract execution: the events it emitted.
#[derive(Clone, Debug, PartialEq, Eq)]
pub struct SorobanTransactionMeta {
    pub events: Vec<ContractEvent>,
}

/// What a contract-execution summary is: the views of its events in order.
pub struct SorobanTransactionMetaView {
    pub events: Seq<ContractEventView>,
}

impl View for SorobanTransactionMeta {
    type V = SorobanTransactionMetaView;

    open spec fn view(&self) -> SorobanTransactionMetaView {
        SorobanTransactionMetaView { events: events_view(self.events@) }
    }
}

/// The apply result of a transaction in the current format. It may come without
/// a contract-execution summary.
#[derive(Clone, Debug, PartialEq, Eq)]
pub struct TransactionMetaV3 {
    pub soroban_meta: Option<SorobanTransactionMeta>,
}

/// What an apply result in the current format is.
pub struct TransactionMetaV3View {
    pub soroban_meta: Option<SorobanTransactionMetaView>,
}

impl View for TransactionMetaV3 {
    type V = TransactionMetaV3View;

    open spec fn view(&self) -> TransactionMetaV3View {
        TransactionMetaV3View {
            soroban_meta: match self.soroban_meta {
                Some(soroban) => Some(soroban@),
                None => None,
            },
        }
    }
}

/// The apply result of a transaction, tagged by its format. `V3` is the current
/// format; of the earlier ones only the tag is kept.
#[derive(Clone, Debug, PartialEq, Eq)]
pub enum TransactionMeta {
    V0,
    V1,
    V2,
    V3(TransactionMetaV3),
}

/// What an apply result is.
pub enum TransactionMetaView {
    V0,
    V1,
    V2,
    V3(TransactionMetaV3View),
}

impl View for TransactionMeta {
    type V = TransactionMetaView;

    open spec fn view(&self) -> TransactionMetaView {
        match self {
            TransactionMeta::V0 => TransactionMetaView::V0,
            TransactionMeta::V1 => TransactionMetaView::V1,
            TransactionMeta::V2 => TransactionMetaView::V2,
            TransactionMeta::V3(meta) => TransactionMetaView::V3(meta@),
        }
    }
}

/// One transaction-processing record of a ledger.
#[derive(Clone, Debug, PartialEq, Eq)]
pub struct TransactionResultMeta {
    pub tx_apply_processing: TransactionMeta,
}

/// What a record is.
pub struct TransactionResultMetaView {
    pub tx_apply_processing: TransactionMetaView,
}

impl View for TransactionResultMeta {
    type V = TransactionResultMetaView;

    open spec fn view(&self) -> TransactionResultMetaView {
        TransactionResultMetaView { tx_apply_processing: self.tx_apply_processing@ }
    }
}

/// The views of a list of records, in the list's order.
pub open spec fn records_view(records: Seq<TransactionResultMeta>) -> Seq<
    TransactionResultMetaView,
> {
    Seq::new(records.len(), |i: int| records[i]@)
}

} // verus!
