//! The catalog of tracked event kinds, and one decoder for each kind.
//!
//! A decoder reads fixed positions of an event's topics and data. Where every
//! position is there it builds the row for the record store; where one is
//! missing it declines and builds nothing. It never looks at what a position
//! holds.

use vstd::prelude::*;
use vstd::string::StringSliceAdditionalSpecFns;
use crate::db::{Proposal, ProposalView, StatusUpdate, StatusUpdateView, Votes, VotesView};
use crate::ledger::{ContractEventV0, ContractEventV0View};
use crate::xdr::{lemma_vec_view, ScVal, ScValView};

verus! {

/// The error type of the SDK's conversions. Nothing is read from it here.
#[verifier::external_type_specification]
#[verifier::external_body]
pub struct ExSdkError(rs_zephyr_sdk::SdkError);

/// Calls `rs_zephyr_sdk::utils::to_scval_symbol` and hands its symbol back as a
/// value of this crate.
///
/// The SDK turns the UTF-8 bytes of `from` into a symbol value; it refuses, with
/// its conversion error, exactly the strings of more than 32 bytes. The contract
/// states both, and Verus takes them on trust.
#[verifier::external_body]
fn to_scval_symbol(from: &str) -> (r: Result<ScVal, rs_zephyr_sdk::SdkError>)
    ensures
        r is Ok <==> from.spec_bytes().len() <= 32,
        r matches Ok(v) ==> v@ == ScValView::Symbol(from.spec_bytes()),
{
    match rs_zephyr_sdk::utils::to_scval_symbol(from) {
        Ok(rs_zephyr_sdk::stellar_xdr::next::ScVal::Symbol(symbol)) => Ok(
            ScVal::Symbol(symbol.0.into_vec()),
        ),
        Ok(_) => Err(rs_zephyr_sdk::SdkError::Conversion),
        Err(e) => Err(e),
    }
}

/// The identifiers of the three tracked event kinds, each as the value that an
/// event of that kind carries as its first topic.
#[derive(Clone, Debug, PartialEq, Eq)]
pub struct EventTypes {
    pub vote_cast: ScVal,
    pub proposal_created: ScVal,
    pub proposal_updated: ScVal,
}

/// What a catalog is: the views of its three identifiers.
pub struct EventTypesView {
    pub vote_cast: ScValView,
    pub proposal_created: ScValView,
    pub proposal_updated: ScValView,
}

impl View for EventTypes {
    type V = EventTypesView;

    open spec fn view(&self) -> EventTypesView {
        EventTypesView {
            vote_cast: self.vote_cast@,
            proposal_created: self.proposal_created@,
            proposal_updated: self.proposal_updated@,
        }
    }
}

/// The catalog that is in force: the symbols `vote_cast`, `proposal_created` and
/// `proposal_updated`.
pub open spec fn catalog() -> EventTypesView {
    EventTypesView {
        vote_cast: ScValView::Symbol("vote_cast".spec_bytes()),
        proposal_created: ScValView::Symbol("proposal_created".spec_bytes()),
        proposal_updated: ScValView::Symbol("proposal_updated".spec_bytes()),
    }
}

/// The byte that stands for an ASCII character.
pub open spec fn ascii(c: char) -> u8 {
    c as u8
}

/// The bytes of the name `vote_cast`.
pub open spec fn vote_cast_bytes() -> Seq<u8> {
    seq![
        ascii('v'),
        ascii('o'),
        ascii('t'),
        ascii('e'),
        ascii('_'),
        ascii('c'),
        ascii('a'),
        ascii('s'),
        ascii('t'),
    ]
}

/// The bytes of the name `proposal_`, with which two of the names begin.
pub open spec fn proposal_prefix_bytes() -> Seq<u8> {
    seq![
        ascii('p'),
        ascii('r'),
        ascii('o'),
        ascii('p'),
        ascii('o'),
        ascii('s'),
        ascii('a'),
        ascii('l'),
        ascii('_'),
    ]
}

/// The bytes of the name `proposal_created`.
pub open spec fn proposal_created_bytes() -> Seq<u8> {
    proposal_prefix_bytes() + seq![
        ascii('c'),
        ascii('r'),
        ascii('e'),
        ascii('a'),
        ascii('t'),
        ascii('e'),
        ascii('d'),
    ]
}

/// The bytes of the name `proposal_updated`.
pub open spec fn proposal_updated_bytes() -> Seq<u8> {
    proposal_prefix_bytes() + seq![
        ascii('u'),
        ascii('p'),
        ascii('d'),
        ascii('a'),
        ascii('t'),
        ascii('e'),
        ascii('d'),
    ]
}

/// The three identifiers of [`catalog`], byte by byte.
pub proof fn lemma_catalog_bytes()
    ensures
        catalog().vote_cast == ScValView::Symbol(vote_cast_bytes()),
        catalog().proposal_created == ScValView::Symbol(proposal_created_bytes()),
        catalog().proposal_updated == ScValView::Symbol(proposal_updated_bytes()),
{
    reveal_strlit("vote_cast");
    reveal_strlit("proposal_created");
    reveal_strlit("proposal_updated");
    assert(vstd::string::is_ascii("vote_cast"));
    assert(vstd::string::is_ascii("proposal_created"));
    assert(vstd::string::is_ascii("proposal_updated"));
    vstd::string::is_ascii_spec_bytes("vote_cast");
    vstd::string::is_ascii_spec_bytes("proposal_created");
    vstd::string::is_ascii_spec_bytes("proposal_updated");
    assert("vote_cast".spec_bytes() =~= vote_cast_bytes());
    assert("proposal_created".spec_bytes() =~= proposal_created_bytes());
    assert("proposal_updated".spec_bytes() =~= proposal_updated_bytes());
}

/// No two identifiers of [`catalog`] are the same value, so a first topic can
/// match at most one of them.
pub proof fn lemma_catalog_distinct()
    ensures
        catalog().vote_cast != catalog().proposal_created,
        catalog().vote_cast != catalog().proposal_updated,
        catalog().proposal_created != catalog().proposal_updated,
{
    lemma_catalog_bytes();
    assert(vote_cast_bytes().len() == 9);
    assert(proposal_created_bytes().len() == 16);
    assert(proposal_updated_bytes().len() == 16);
    assert(proposal_created_bytes()[9] == ascii('c'));
    assert(proposal_updated_bytes()[9] == ascii('u'));
}

impl EventTypes {
    /// Builds the catalog that is in force.
    pub fn new() -> (r: EventTypes)
        ensures
            r@ == catalog(),
    {
        proof {
            lemma_catalog_bytes();
        }
        EventTypes {
            vote_cast: to_scval_symbol("vote_cast").unwrap(),
            proposal_created: to_scval_symbol("proposal_created").unwrap(),
            proposal_updated: to_scval_symbol("proposal_updated").unwrap(),
        }
    }
}

/// Which decoder an event goes to.
#[derive(Clone, Copy, Debug, PartialEq, Eq, Structural)]
pub enum EventKind {
    VoteCast,
    ProposalCreated,
    ProposalUpdated,
    /// None of the catalog's kinds: the event is passed over.
    Untracked,
}

/// The kind that a first topic stands for under a catalog: that of the first
/// identifier it equals, in the catalog's order.
pub open spec fn kind_of(types: EventTypesView, topic0: ScValView) -> EventKind {
    if topic0 == types.vote_cast {
        EventKind::VoteCast
    } else if topic0 == types.proposal_created {
        EventKind::ProposalCreated
    } else if topic0 == types.proposal_updated {
        EventKind::ProposalUpdated
    } else {
        EventKind::Untracked
    }
}

/// Under the catalog in force a first topic has a tracked kind exactly where it
/// is that kind's identifier: the order in which the identifiers are tried makes
/// no difference.
pub proof fn lemma_kind_of_catalog(topic0: ScValView)
    ensures
        kind_of(catalog(), topic0) == EventKind::VoteCast <==> topic0 == catalog().vote_cast,
        kind_of(catalog(), topic0) == EventKind::ProposalCreated <==> topic0
            == catalog().proposal_created,
        kind_of(catalog(), topic0) == EventKind::ProposalUpdated <==> topic0
            == catalog().proposal_updated,
{
    lemma_catalog_distinct();
}

impl EventTypes {
    /// Matches a first topic against the catalog, value against value.
    pub fn kind_of(&self, topic0: &ScVal) -> (kind: EventKind)
        ensures
            kind == kind_of(self@, topic0@),
    {
        if *topic0 == self.vote_cast {
            EventKind::VoteCast
        } else if *topic0 == self.proposal_created {
            EventKind::ProposalCreated
        } else if *topic0 == self.proposal_updated {
            EventKind::ProposalUpdated
        } else {
            EventKind::Untracked
        }
    }
}

/// The items of a data value that is a list which is present; nothing for a
/// value of any other shape, and nothing for an absent list.
pub open spec fn data_items(data: ScValView) -> Option<Seq<ScValView>> {
    match data {
        ScValView::Vec(Some(items)) => Some(items),
        _ => None,
    }
}

/// The vote that a `vote_cast` event stands for: topics 1 and 2 are the proposal
/// number and the voter, data items 0 and 1 the support and the amount. Nothing
/// where one of these positions is missing.
pub open spec fn vote_of(
    contract: crate::xdr::Hash,
    event: ContractEventV0View,
    ledger: ScValView,
) -> Option<VotesView> {
    match data_items(event.data) {
        Some(items) => if event.topics.len() >= 3 && items.len() >= 2 {
            Some(
                VotesView {
                    contract,
                    prop_num: event.topics[1],
                    user: event.topics[2],
                    support: items[0],
                    amount: items[1],
                    ledger,
                },
            )
        } else {
            None
        },
        None => None,
    }
}

/// The proposal that a `proposal_created` event stands for: topics 1 and 2 are
/// the proposal number and the proposer, data items 0 to 2 the title, the
/// description and the action. Its status is the number 0, whatever the event
/// holds. Nothing where one of these positions is missing.
pub open spec fn proposal_of(
    contract: crate::xdr::Hash,
    event: ContractEventV0View,
    ledger: ScValView,
) -> Option<ProposalView> {
    match data_items(event.data) {
        Some(items) => if event.topics.len() >= 3 && items.len() >= 3 {
            Some(
                ProposalView {
                    contract,
                    prop_num: event.topics[1],
                    title: items[0],
                    desc: items[1],
                    action: items[2],
                    creator: event.topics[2],
                    status: ScValView::U32(0),
                    ledger,
                },
            )
        } else {
            None
        },
        None => None,
    }
}

/// The status change that a `proposal_updated` event stands for: topics 1 and 2
/// are the proposal number and the new status. The data is not read. Nothing
/// where one of the two topics is missing.
pub open spec fn status_update_of(
    contract: crate::xdr::Hash,
    event: ContractEventV0View,
) -> Option<StatusUpdateView> {
    if event.topics.len() >= 3 {
        Some(StatusUpdateView { status: event.topics[2], contract, prop_num: event.topics[1] })
    } else {
        None
    }
}

/// A copy of the value at a position of a list, where the list reaches that far.
fn value_at(items: &Vec<ScVal>, position: usize) -> (r: Option<ScVal>)
    ensures
        r is Some <==> position < items@.len(),
        r matches Some(v) ==> v@ == items@[position as int]@,
{
    if position < items.len() {
        Some(items[position].clone())
    } else {
        None
    }
}

/// Handle a Vote Cast event
///
/// Returns the vote row to write, or nothing where the event is malformed.
///
/// Event:
/// - topics - `["vote_cast", proposal_id: u32, voter: Address]`
/// - data - `[support: u32, amount: i128]`
pub fn handle_vote_cast(
    contract_id: crate::xdr::Hash,
    event: &ContractEventV0,
    ledger_sequence: ScVal,
) -> (r: Option<Votes>)
    ensures
        r is Some <==> vote_of(contract_id, event@, ledger_sequence@) is Some,
        r matches Some(votes) ==> Some(votes@) == vote_of(contract_id, event@, ledger_sequence@),
{
    let proposal_number = match value_at(&event.topics, 1) {
        Some(topic) => topic,
        None => return None,
    };
    let voter = match value_at(&event.topics, 2) {
        Some(topic) => topic,
        None => return None,
    };
    if let ScVal::Vec(data_opt) = &event.data {
        if let Some(data) = data_opt {
            proof {
                lemma_vec_view(*data);
            }
            let support = match value_at(data, 0) {
                Some(item) => item,
                None => return None,
            };
            let amount = match value_at(data, 1) {
                Some(item) => item,
                None => return None,
            };
            return Some(
                Votes {
                    contract: contract_id,
                    prop_num: proposal_number,
                    user: voter,
                    support,
                    amount,
                    ledger: ledger_sequence,
                },
            );
        }
    }
    None
}

/// Handle a Proposal Created event
///
/// Returns the proposal row to insert, or nothing where the event is malformed.
///
/// - topics - `["proposal_created", proposal_id: u32, proposer: Address]`
/// - data - `[title: String, desc: String, action: ProposalAction]`
pub fn handle_proposal_created(
    contract_id: crate::xdr::Hash,
    event: &ContractEventV0,
    ledger_sequence: ScVal,
) -> (r: Option<Proposal>)
    ensures
        r is Some <==> proposal_of(contract_id, event@, ledger_sequence@) is Some,
        r matches Some(proposal) ==> Some(proposal@) == proposal_of(
            contract_id,
            event@,
            ledger_sequence@,
        ),
        r matches Some(proposal) ==> proposal@.status == ScValView::U32(0),
{
    let proposal_number = match value_at(&event.topics, 1) {
        Some(topic) => topic,
        None => return None,
    };
    let proposer = match value_at(&event.topics, 2) {
        Some(topic) => topic,
        None => return None,
    };
    if let ScVal::Vec(data_opt) = &event.data {
        if let Some(data) = data_opt {
            proof {
                lemma_vec_view(*data);
            }
            let title = match value_at(data, 0) {
                Some(item) => item,
                None => return None,
            };
            let desc = match value_at(data, 1) {
                Some(item) => item,
                None => return None,
            };
            let action = match value_at(data, 2) {
                Some(item) => item,
                None => return None,
            };
            return Some(
                Proposal {
                    contract: contract_id,
                    prop_num: proposal_number,
                    title,
                    desc,
                    action,
                    creator: proposer,
                    status: ScVal::U32(0),
                    ledger: ledger_sequence,
                },
            );
        }
    }
    None
}

/// Handle a Proposal Updated event
///
/// Returns the status change to apply, or nothing where the event is malformed.
///
/// - topics - `["proposal_updated", proposal_id: u32, status: u32]`
/// - data - `[]`
#[allow(unused_variables)]
pub fn handle_proposal_updated(
    contract_id: crate::xdr::Hash,
    event: &ContractEventV0,
    ledger_sequence: ScVal,
) -> (r: Option<StatusUpdate>)
    ensures
        r is Some <==> status_update_of(contract_id, event@) is Some,
        r matches Some(update) ==> Some(update@) == status_update_of(contract_id, event@),
{
    let proposal_number = match value_at(&event.topics, 1) {
        Some(topic) => topic,
        None => return None,
    };
    let status = match value_at(&event.topics, 2) {
        Some(topic) => topic,
        None => return None,
    };
    Some(StatusUpdate { status, contract: contract_id, prop_num: proposal_number })
}

} // verus!
