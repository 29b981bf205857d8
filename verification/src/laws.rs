//! What holds of the dispatch as a whole, proved from the definitions of
//! [`event_call`], [`events_calls`] and [`ledger_calls`].

use vstd::prelude::*;
use crate::db::{votes_written, StoreCallView, VotesView};
use crate::event_handler::{catalog, kind_of, EventKind, EventTypesView};
use crate::ledger::{ContractEventBodyView, ContractEventView, TransactionResultMetaView};
use crate::xdr::ScValView;
use crate::{event_call, events_calls, ledger_calls, ledger_events, record_events};

verus! {

/// The writes of two runs of events laid end to end are the writes of the first
/// run followed by the writes of the second.
pub proof fn lemma_events_calls_concat(
    types: EventTypesView,
    ledger_sequence: u32,
    first: Seq<ContractEventView>,
    second: Seq<ContractEventView>,
)
    ensures
        events_calls(types, ledger_sequence, first + second) == events_calls(
            types,
            ledger_sequence,
            first,
        ) + events_calls(types, ledger_sequence, second),
    decreases second.len(),
{
    if second.len() == 0 {
        assert(first + second == first);
        assert(events_calls(types, ledger_sequence, first) + Seq::<StoreCallView>::empty()
            == events_calls(types, ledger_sequence, first));
    } else {
        lemma_events_calls_concat(types, ledger_sequence, first, second.drop_last());
        assert((first + second).drop_last() == first + second.drop_last());
        assert((first + second).last() == second.last());
        let before = events_calls(types, ledger_sequence, first) + events_calls(
            types,
            ledger_sequence,
            second.drop_last(),
        );
        match event_call(types, ledger_sequence, second.last()) {
            Some(call) => {
                assert(before.push(call) == events_calls(types, ledger_sequence, first)
                    + events_calls(types, ledger_sequence, second.drop_last()).push(call));
            },
            None => {},
        }
    }
}

/// The events of two runs of records laid end to end are the events of the
/// first run followed by the events of the second.
pub proof fn lemma_ledger_events_concat(
    first: Seq<TransactionResultMetaView>,
    second: Seq<TransactionResultMetaView>,
)
    ensures
        ledger_events(first + second) == ledger_events(first) + ledger_events(second),
    decreases second.len(),
{
    if second.len() == 0 {
        assert(first + second == first);
        assert(ledger_events(first) + Seq::<ContractEventView>::empty() == ledger_events(first));
    } else {
        lemma_ledger_events_concat(first, second.drop_last());
        assert((first + second).drop_last() == first + second.drop_last());
        assert((first + second).last() == second.last());
        assert((ledger_events(first) + ledger_events(second.drop_last())) + record_events(
            second.last(),
        ) == ledger_events(first) + (ledger_events(second.drop_last()) + record_events(
            second.last(),
        )));
    }
}

/// The writes of a ledger are those of its records in order: a ledger made of
/// two runs of records leads to the writes of the first run, then those of the
/// second.
pub proof fn lemma_ledger_calls_concat(
    ledger_sequence: u32,
    first: Seq<TransactionResultMetaView>,
    second: Seq<TransactionResultMetaView>,
)
    ensures
        ledger_calls(ledger_sequence, first + second) == ledger_calls(ledger_sequence, first)
            + ledger_calls(ledger_sequence, second),
{
    lemma_ledger_events_concat(first, second);
    lemma_events_calls_concat(
        catalog(),
        ledger_sequence,
        ledger_events(first),
        ledger_events(second),
    );
}

/// The positions of the events that lead to a write, in increasing order.
pub open spec fn qualifying_positions(
    types: EventTypesView,
    ledger_sequence: u32,
    events: Seq<ContractEventView>,
) -> Seq<int>
    decreases events.len(),
{
    if events.len() == 0 {
        Seq::empty()
    } else {
        let before = qualifying_positions(types, ledger_sequence, events.drop_last());
        if event_call(types, ledger_sequence, events.last()) is Some {
            before.push(events.len() - 1)
        } else {
            before
        }
    }
}

/// The writes keep the order of the events. Take the positions of the events
/// that lead to a write, in increasing order: there are as many writes as there
/// are such positions, and the `k`-th write is that of the event at the `k`-th of
/// them.
pub proof fn lemma_calls_follow_event_order(
    types: EventTypesView,
    ledger_sequence: u32,
    events: Seq<ContractEventView>,
)
    ensures
        ({
            let positions = qualifying_positions(types, ledger_sequence, events);
            let calls = events_calls(types, ledger_sequence, events);
            &&& calls.len() == positions.len()
            &&& forall|k: int|
                0 <= k < positions.len() ==> 0 <= #[trigger] positions[k] < events.len()
            &&& forall|j: int, k: int|
                0 <= j < k < positions.len() ==> #[trigger] positions[j] < #[trigger] positions[k]
            &&& forall|k: int|
                0 <= k < positions.len() ==> event_call(
                    types,
                    ledger_sequence,
                    events[#[trigger] positions[k]],
                ) == Some(calls[k])
            &&& forall|p: int|
                0 <= p < events.len() && (#[trigger] event_call(
                    types,
                    ledger_sequence,
                    events[p],
                )) is Some ==> positions.contains(p)
        }),
    decreases events.len(),
{
    if events.len() > 0 {
        let shorter = events.drop_last();
        lemma_calls_follow_event_order(types, ledger_sequence, shorter);
        let before = qualifying_positions(types, ledger_sequence, shorter);
        let positions = qualifying_positions(types, ledger_sequence, events);
        let calls = events_calls(types, ledger_sequence, events);
        let last = events.len() - 1;
        assert forall|p: int|
            0 <= p < events.len() && (#[trigger] event_call(
                types,
                ledger_sequence,
                events[p],
            )) is Some implies positions.contains(p) by {
            if p < last {
                assert(events[p] == shorter[p]);
                assert(before.contains(p));
                let k = choose|k: int| 0 <= k < before.len() && before[k] == p;
                assert(positions[k] == p);
            } else {
                assert(positions[positions.len() - 1] == p);
            }
        }
        assert forall|k: int| 0 <= k < positions.len() implies event_call(
            types,
            ledger_sequence,
            events[#[trigger] positions[k]],
        ) == Some(calls[k]) by {
            if k < before.len() {
                assert(positions[k] == before[k]);
                assert(events[before[k]] == shorter[before[k]]);
            }
        }
    }
}

/// No event leads to more than one write.
pub proof fn lemma_at_most_one_call_per_event(
    types: EventTypesView,
    ledger_sequence: u32,
    events: Seq<ContractEventView>,
)
    ensures
        events_calls(types, ledger_sequence, events).len() <= events.len(),
    decreases events.len(),
{
    if events.len() > 0 {
        lemma_at_most_one_call_per_event(types, ledger_sequence, events.drop_last());
    }
}

/// A ledger in which no event leads to a write leads to no write at all.
pub proof fn lemma_no_qualifying_event_no_call(
    ledger_sequence: u32,
    records: Seq<TransactionResultMetaView>,
)
    requires
        forall|p: int|
            0 <= p < ledger_events(records).len() ==> event_call(
                catalog(),
                ledger_sequence,
                #[trigger] ledger_events(records)[p],
            ) is None,
    ensures
        ledger_calls(ledger_sequence, records).len() == 0,
{
    let events = ledger_events(records);
    lemma_calls_follow_event_order(catalog(), ledger_sequence, events);
    let positions = qualifying_positions(catalog(), ledger_sequence, events);
    if positions.len() > 0 {
        let p = positions[0];
        assert(event_call(catalog(), ledger_sequence, events[p]) is Some);
    }
}

/// Whether an event has a first topic that matches none of the catalog's
/// identifiers.
pub open spec fn has_untracked_kind(types: EventTypesView, event: ContractEventView) -> bool {
    &&& event.body matches ContractEventBodyView::V0(v0)
    &&& v0.topics.len() > 0
    &&& kind_of(types, v0.topics[0]) == EventKind::Untracked
}

/// An event of an untracked kind leads to no write.
pub proof fn lemma_untracked_event_no_call(
    types: EventTypesView,
    ledger_sequence: u32,
    event: ContractEventView,
)
    requires
        has_untracked_kind(types, event),
    ensures
        event_call(types, ledger_sequence, event) is None,
{
}

/// Events of untracked kinds lead to no write, however many of them there are.
pub proof fn lemma_untracked_events_no_call(
    types: EventTypesView,
    ledger_sequence: u32,
    events: Seq<ContractEventView>,
)
    requires
        forall|p: int| 0 <= p < events.len() ==> has_untracked_kind(types, #[trigger] events[p]),
    ensures
        events_calls(types, ledger_sequence, events).len() == 0,
    decreases events.len(),
{
    if events.len() > 0 {
        let shorter = events.drop_last();
        assert forall|p: int| 0 <= p < shorter.len() implies has_untracked_kind(
            types,
            #[trigger] shorter[p],
        ) by {
            assert(shorter[p] == events[p]);
        }
        lemma_untracked_events_no_call(types, ledger_sequence, shorter);
        assert(has_untracked_kind(types, events[events.len() - 1]));
    }
}

/// Events of untracked kinds change nothing for the events around them: the
/// writes of a run of events are the same with such events put in between.
pub proof fn lemma_untracked_events_are_passed_over(
    types: EventTypesView,
    ledger_sequence: u32,
    before: Seq<ContractEventView>,
    untracked: Seq<ContractEventView>,
    after: Seq<ContractEventView>,
)
    requires
        forall|p: int|
            0 <= p < untracked.len() ==> has_untracked_kind(types, #[trigger] untracked[p]),
    ensures
        events_calls(types, ledger_sequence, before + untracked + after) == events_calls(
            types,
            ledger_sequence,
            before + after,
        ),
{
    lemma_untracked_events_no_call(types, ledger_sequence, untracked);
    lemma_events_calls_concat(types, ledger_sequence, before, untracked);
    lemma_events_calls_concat(types, ledger_sequence, before + untracked, after);
    lemma_events_calls_concat(types, ledger_sequence, before, after);
    assert(events_calls(types, ledger_sequence, before) + events_calls(
        types,
        ledger_sequence,
        untracked,
    ) == events_calls(types, ledger_sequence, before));
}

/// Every proposal that is created starts with the status 0, and every vote
/// and every proposal carries the sequence number of the ledger it was seen in.
pub proof fn lemma_rows_carry_ledger_and_initial_status(
    types: EventTypesView,
    ledger_sequence: u32,
    events: Seq<ContractEventView>,
)
    ensures
        forall|k: int|
            0 <= k < events_calls(types, ledger_sequence, events).len() ==> match (
            #[trigger] events_calls(types, ledger_sequence, events)[k]) {
                StoreCallView::WriteVote(votes) => votes.ledger == ScValView::U32(ledger_sequence),
                StoreCallView::CreateProposal(proposal) => {
                    &&& proposal.status == ScValView::U32(0)
                    &&& proposal.ledger == ScValView::U32(ledger_sequence)
                },
                StoreCallView::UpdateProposalStatus(_) => true,
            },
{
    lemma_calls_follow_event_order(types, ledger_sequence, events);
    let positions = qualifying_positions(types, ledger_sequence, events);
    let calls = events_calls(types, ledger_sequence, events);
    assert forall|k: int| 0 <= k < calls.len() implies match (#[trigger] calls[k]) {
        StoreCallView::WriteVote(votes) => votes.ledger == ScValView::U32(ledger_sequence),
        StoreCallView::CreateProposal(proposal) => {
            &&& proposal.status == ScValView::U32(0)
            &&& proposal.ledger == ScValView::U32(ledger_sequence)
        },
        StoreCallView::UpdateProposalStatus(_) => true,
    } by {
        assert(event_call(types, ledger_sequence, events[positions[k]]) == Some(calls[k]));
    }
}

/// The vote rows of two runs of writes laid end to end are the rows of the first
/// run followed by the rows of the second.
pub proof fn lemma_votes_written_concat(first: Seq<StoreCallView>, second: Seq<StoreCallView>)
    ensures
        votes_written(first + second) == votes_written(first) + votes_written(second),
    decreases second.len(),
{
    if second.len() == 0 {
        assert(first + second == first);
        assert(votes_written(first) + Seq::<VotesView>::empty() == votes_written(first));
    } else {
        lemma_votes_written_concat(first, second.drop_last());
        assert((first + second).drop_last() == first + second.drop_last());
        assert((first + second).last() == second.last());
        match second.last() {
            StoreCallView::WriteVote(votes) => {
                assert((votes_written(first) + votes_written(second.drop_last())).push(votes)
                    == votes_written(first) + votes_written(second.drop_last()).push(votes));
            },
            _ => {},
        }
    }
}

/// Nothing is deduplicated. A ledger that is processed a second time leads to
/// the same writes again, so the store is asked to append each of its votes once
/// more: after both passes every vote row of the first pass stands there twice.
pub proof fn lemma_replay_writes_votes_again(
    ledger_sequence: u32,
    records: Seq<TransactionResultMetaView>,
)
    ensures
        ({
            let pass = ledger_calls(ledger_sequence, records);
            let once = votes_written(pass);
            let twice = votes_written(pass + pass);
            &&& twice == once + once
            &&& twice.len() == 2 * once.len()
            &&& forall|k: int|
                0 <= k < once.len() ==> twice[k] == once[k] && #[trigger] twice[k + once.len()]
                    == once[k]
        }),
{
    let pass = ledger_calls(ledger_sequence, records);
    lemma_votes_written_concat(pass, pass);
}

/// The dispatch makes up no value that the wire format could not hold: where
/// every value of an event can be put on the wire, so can every value of the
/// write that the event leads to.
pub proof fn lemma_event_call_fits_wire(
    types: EventTypesView,
    ledger_sequence: u32,
    event: ContractEventView,
)
    requires
        event.fits_wire(),
    ensures
        event_call(types, ledger_sequence, event) matches Some(call) ==> call.fits_wire(),
{
    if let Some(call) = event_call(types, ledger_sequence, event) {
        let v0 = event.body->V0_0;
        assert(v0.topics[1].fits_wire());
        assert(v0.topics[2].fits_wire());
        match call {
            StoreCallView::WriteVote(_) => {
                let items = v0.data->Vec_0->Some_0;
                assert(items[0].fits_wire());
                assert(items[1].fits_wire());
            },
            StoreCallView::CreateProposal(_) => {
                let items = v0.data->Vec_0->Some_0;
                assert(items[0].fits_wire());
                assert(items[1].fits_wire());
                assert(items[2].fits_wire());
            },
            StoreCallView::UpdateProposalStatus(_) => {},
        }
    }
}

/// The same of a whole run of events: where every value of every event can be
/// put on the wire, so can every value of every write.
pub proof fn lemma_calls_fit_wire(
    types: EventTypesView,
    ledger_sequence: u32,
    events: Seq<ContractEventView>,
)
    requires
        forall|p: int| 0 <= p < events.len() ==> (#[trigger] events[p]).fits_wire(),
    ensures
        forall|k: int|
            0 <= k < events_calls(types, ledger_sequence, events).len() ==> (
            #[trigger] events_calls(types, ledger_sequence, events)[k]).fits_wire(),
{
    lemma_calls_follow_event_order(types, ledger_sequence, events);
    let positions = qualifying_positions(types, ledger_sequence, events);
    let calls = events_calls(types, ledger_sequence, events);
    assert forall|k: int| 0 <= k < calls.len() implies (#[trigger] calls[k]).fits_wire() by {
        assert(event_call(types, ledger_sequence, events[positions[k]]) == Some(calls[k]));
        lemma_event_call_fits_wire(types, ledger_sequence, events[positions[k]]);
    }
}

} // verus!
