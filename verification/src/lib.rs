//! Turns the contract events of one closed ledger into writes for a record store
//! of governance data.
//!
//! [`on_close`] walks the ledger's transaction-processing records in order, routes
//! every event whose first topic names a tracked kind to that kind's decoder, and
//! returns the writes that come of it, first event first. It performs none of
//! them: the caller owns the store.

use vstd::prelude::*;
use crate::db::{calls_view, StoreCall, StoreCallView};
use crate::event_handler::{
    catalog,
    handle_proposal_created,
    handle_proposal_updated,
    handle_vote_cast,
    kind_of,
    proposal_of,
    status_update_of,
    vote_of,
    EventKind,
    EventTypes,
    EventTypesView,
};
use crate::ledger::{
    events_view,
    records_view,
    ContractEvent,
    ContractEventBody,
    ContractEventBodyView,
    ContractEventView,
    TransactionMeta,
    TransactionMetaView,
    TransactionResultMeta,
    TransactionResultMetaView,
};
use crate::xdr::{ScVal, ScValView};

pub mod db;
pub mod event_handler;
pub mod laws;
pub mod ledger;
pub mod xdr;

verus! {

/// Failure that the record store reports back for a write it could not carry out.
#[derive(Clone, Copy, Debug, PartialEq, Eq, Structural)]
pub enum GovernorError {
    /// A status update named a proposal for which the store holds no row.
    ProposalNotFound,
}

/// The write that one event leads to under a catalog, in the ledger with the
/// given sequence number.
///
/// There is none for an event without a contract, with a body of another shape
/// than version 0, without any topic, or of an untracked kind; and none where the
/// decoder of its kind declines.
pub open spec fn event_call(
    types: EventTypesView,
    ledger_sequence: u32,
    event: ContractEventView,
) -> Option<StoreCallView> {
    match (event.contract_id, event.body) {
        (Some(contract), ContractEventBodyView::V0(v0)) => if v0.topics.len() == 0 {
            None
        } else {
            let ledger = ScValView::U32(ledger_sequence);
            match kind_of(types, v0.topics[0]) {
                EventKind::VoteCast => match vote_of(contract, v0, ledger) {
                    Some(votes) => Some(StoreCallView::WriteVote(votes)),
                    None => None,
                },
                EventKind::ProposalCreated => match proposal_of(contract, v0, ledger) {
                    Some(proposal) => Some(StoreCallView::CreateProposal(proposal)),
                    None => None,
                },
                EventKind::ProposalUpdated => match status_update_of(contract, v0) {
                    Some(update) => Some(StoreCallView::UpdateProposalStatus(update)),
                    None => None,
                },
                EventKind::Untracked => None,
            }
        },
        _ => None,
    }
}

/// The writes that a run of events leads to: the write of each event that has
/// one, in the events' order.
pub open spec fn events_calls(
    types: EventTypesView,
    ledger_sequence: u32,
    events: Seq<ContractEventView>,
) -> Seq<StoreCallView>
    decreases events.len(),
{
    if events.len() == 0 {
        Seq::empty()
    } else {
        let before = events_calls(types, ledger_sequence, events.drop_last());
        match event_call(types, ledger_sequence, events.last()) {
            Some(call) => before.push(call),
            None => before,
        }
    }
}

/// The events that a record hands to the dispatch, in order: those of its
/// contract-execution summary where its apply result is in the current format and
/// has one, and none otherwise.
pub open spec fn record_events(record: TransactionResultMetaView) -> Seq<ContractEventView> {
    match record.tx_apply_processing {
        TransactionMetaView::V3(meta) => match meta.soroban_meta {
            Some(soroban) => soroban.events,
            None => Seq::empty(),
        },
        _ => Seq::empty(),
    }
}

/// All events of a ledger: those of its first record, then those of its second,
/// and so on.
pub open spec fn ledger_events(records: Seq<TransactionResultMetaView>) -> Seq<ContractEventView>
    decreases records.len(),
{
    if records.len() == 0 {
        Seq::empty()
    } else {
        ledger_events(records.drop_last()) + record_events(records.last())
    }
}

/// The writes that a ledger leads to under the catalog in force.
pub open spec fn ledger_calls(
    ledger_sequence: u32,
    records: Seq<TransactionResultMetaView>,
) -> Seq<StoreCallView> {
    events_calls(catalog(), ledger_sequence, ledger_events(records))
}

/// Routes one event: finds its kind by its first topic and hands it to the
/// decoder of that kind.
pub fn dispatch_event(types: &EventTypes, event: &ContractEvent, ledger_sequence: u32) -> (r:
    Option<StoreCall>)
    ensures
        r is Some <==> event_call(types@, ledger_sequence, event@) is Some,
        r matches Some(call) ==> Some(call@) == event_call(types@, ledger_sequence, event@),
{
    let contract_id = match event.contract_id {
        Some(contract_id) => contract_id,
        None => return None,
    };
    match &event.body {
        ContractEventBody::V0(v0) => {
            if v0.topics.len() == 0 {
                return None;
            }
            let ledger = ScVal::U32(ledger_sequence);
            match types.kind_of(&v0.topics[0]) {
                EventKind::VoteCast => match handle_vote_cast(contract_id, v0, ledger) {
                    Some(votes) => Some(StoreCall::WriteVote(votes)),
                    None => None,
                },
                EventKind::ProposalCreated => match handle_proposal_created(
                    contract_id,
                    v0,
                    ledger,
                ) {
                    Some(proposal) => Some(StoreCall::CreateProposal(proposal)),
                    None => None,
                },
                EventKind::ProposalUpdated => match handle_proposal_updated(
                    contract_id,
                    v0,
                    ledger,
                ) {
                    Some(update) => Some(StoreCall::UpdateProposalStatus(update)),
                    None => None,
                },
                EventKind::Untracked => None,
            }
        },
        ContractEventBody::Unsupported => None,
    }
}

/// Routes the events of one record in order and appends the writes they lead to.
fn dispatch_events(
    types: &EventTypes,
    events: &Vec<ContractEvent>,
    ledger_sequence: u32,
    calls: &mut Vec<StoreCall>,
)
    ensures
        calls_view(final(calls)@) == calls_view(old(calls)@) + events_calls(
            types@,
            ledger_sequence,
            events_view(events@),
        ),
{
    let ghost before = calls_view(calls@);
    let ghost all = events_view(events@);
    let mut j: usize = 0;
    while j < events.len()
        invariant
            j <= events.len(),
            all == events_view(events@),
            calls_view(calls@) == before + events_calls(
                types@,
                ledger_sequence,
                all.take(j as int),
            ),
        decreases events.len() - j,
    {
        let ghost seen = calls_view(calls@);
        proof {
            assert(all.take(j + 1).drop_last() == all.take(j as int));
            assert(all.take(j + 1).last() == events@[j as int]@);
        }
        match dispatch_event(types, &events[j], ledger_sequence) {
            Some(call) => {
                calls.push(call);
                assert(calls_view(calls@) == seen.push(call@));
            },
            None => {},
        }
        j += 1;
    }
    assert(all.take(events.len() as int) == all);
}

/// Processes one closed ledger: returns the writes that its events lead to, in
/// the order in which the events stand in the ledger.
///
/// `processing` holds the ledger's transaction-processing records in order, and
/// `ledger_sequence` is the ledger's sequence number. A record in another format
/// than the current one, or without a contract-execution summary, adds nothing.
pub fn on_close(ledger_sequence: u32, processing: &Vec<TransactionResultMeta>) -> (calls: Vec<
    StoreCall,
>)
    ensures
        calls_view(calls@) == ledger_calls(ledger_sequence, records_view(processing@)),
{
    let event_types = EventTypes::new();
    let mut calls: Vec<StoreCall> = Vec::new();
    let ghost records = records_view(processing@);
    let mut i: usize = 0;
    while i < processing.len()
        invariant
            i <= processing.len(),
            event_types@ == catalog(),
            records == records_view(processing@),
            calls_view(calls@) == ledger_calls(ledger_sequence, records.take(i as int)),
        decreases processing.len() - i,
    {
        proof {
            assert(records.take(i + 1).drop_last() == records.take(i as int));
            assert(records.take(i + 1).last() == processing@[i as int]@);
            crate::laws::lemma_events_calls_concat(
                catalog(),
                ledger_sequence,
                ledger_events(records.take(i as int)),
                record_events(processing@[i as int]@),
            );
        }
        if let TransactionMeta::V3(meta) = &processing[i].tx_apply_processing {
            if let Some(soroban) = &meta.soroban_meta {
                if !soroban.events.is_empty() {
                    dispatch_events(&event_types, &soroban.events, ledger_sequence, &mut calls);
                }
            }
        }
        i += 1;
    }
    assert(records.take(processing.len() as int) == records);
    calls
}

} // verus!
