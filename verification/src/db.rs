//! The rows that the record store keeps, and the three writes it offers.
//!
//! Every field but the contract is a contract value forwarded as the event
//! carried it: this crate checks that a position is there, never what it holds.

use vstd::prelude::*;
use crate::xdr::{ScVal, ScValView};

verus! {

/// One cast vote.
#[derive(Clone, Debug, PartialEq, Eq)]
pub struct Votes {
    pub contract: crate::xdr::Hash,
    pub prop_num: ScVal,
    pub user: ScVal,
    pub support: ScVal,
    pub amount: ScVal,
    pub ledger: ScVal,
}

/// What a vote row is.
pub struct VotesView {
    pub contract: crate::xdr::Hash,
    pub prop_num: ScValView,
    pub user: ScValView,
    pub support: ScValView,
    pub amount: ScValView,
    pub ledger: ScValView,
}

impl View for Votes {
    type V = VotesView;

    open spec fn view(&self) -> VotesView {
        VotesView {
            contract: self.contract,
            prop_num: self.prop_num@,
            user: self.user@,
            support: self.support@,
            amount: self.amount@,
            ledger: self.ledger@,
        }
    }
}

/// One governance proposal.
#[derive(Clone, Debug, PartialEq, Eq)]
pub struct Proposal {
    pub contract: crate::xdr::Hash,
    pub prop_num: ScVal,
    pub title: ScVal,
    pub desc: ScVal,
    pub action: ScVal,
    pub creator: ScVal,
    pub status: ScVal,
    pub ledger: ScVal,
}

/// What a proposal row is.
pub struct ProposalView {
    pub contract: crate::xdr::Hash,
    pub prop_num: ScValView,
    pub title: ScValView,
    pub desc: ScValView,
    pub action: ScValView,
    pub creator: ScValView,
    pub status: ScValView,
    pub ledger: ScValView,
}

impl View for Proposal {
    type V = ProposalView;

    open spec fn view(&self) -> ProposalView {
        ProposalView {
            contract: self.contract,
            prop_num: self.prop_num@,
            title: self.title@,
            desc: self.desc@,
            action: self.action@,
            creator: self.creator@,
            status: self.status@,
            ledger: self.ledger@,
        }
    }
}

/// A change of one proposal's status: the new status, and the key of the row.
#[derive(Clone, Debug, PartialEq, Eq)]
pub struct StatusUpdate {
    pub status: ScVal,
    pub contract: crate::xdr::Hash,
    pub prop_num: ScVal,
}

/// What a status update is.
pub struct StatusUpdateView {
    pub status: ScValView,
    pub contract: crate::xdr::Hash,
    pub prop_num: ScValView,
}

impl View for StatusUpdate {
    type V = StatusUpdateView;

    open spec fn view(&self) -> StatusUpdateView {
        StatusUpdateView { status: self.status@, contract: self.contract, prop_num: self.prop_num@ }
    }
}

/// One write to the record store.
#[derive(Clone, Debug, PartialEq, Eq)]
pub enum StoreCall {
    /// Append a vote row.
    WriteVote(Votes),
    /// Insert a proposal row.
    CreateProposal(Proposal),
    /// Set the status of the proposal row with the given key.
    UpdateProposalStatus(StatusUpdate),
}

/// What a write to the record store is.
pub enum StoreCallView {
    WriteVote(VotesView),
    CreateProposal(ProposalView),
    UpdateProposalStatus(StatusUpdateView),
}

impl View for StoreCall {
    type V = StoreCallView;

    open spec fn view(&self) -> StoreCallView {
        match self {
            StoreCall::WriteVote(votes) => StoreCallView::WriteVote(votes@),
            StoreCall::CreateProposal(proposal) => StoreCallView::CreateProposal(proposal@),
            StoreCall::UpdateProposalStatus(update) => StoreCallView::UpdateProposalStatus(update@),
        }
    }
}

impl StoreCallView {
    /// Whether every value that the write carries can be put on the wire.
    pub open spec fn fits_wire(self) -> bool {
        match self {
            StoreCallView::WriteVote(votes) => {
                &&& votes.prop_num.fits_wire()
                &&& votes.user.fits_wire()
                &&& votes.support.fits_wire()
                &&& votes.amount.fits_wire()
                &&& votes.ledger.fits_wire()
            },
            StoreCallView::CreateProposal(proposal) => {
                &&& proposal.prop_num.fits_wire()
                &&& proposal.title.fits_wire()
                &&& proposal.desc.fits_wire()
                &&& proposal.action.fits_wire()
                &&& proposal.creator.fits_wire()
                &&& proposal.status.fits_wire()
                &&& proposal.ledger.fits_wire()
            },
            StoreCallView::UpdateProposalStatus(update) => {
                &&& update.status.fits_wire()
                &&& update.prop_num.fits_wire()
            },
        }
    }
}

/// The views of a list of writes, in the list's order.
pub open spec fn calls_view(calls: Seq<StoreCall>) -> Seq<StoreCallView> {
    Seq::new(calls.len(), |i: int| calls[i]@)
}

/// The vote rows that a run of writes appends, in the order of the writes. The
/// store appends without looking at what it already holds, so a vote written
/// twice stands here twice.
pub open spec fn votes_written(calls: Seq<StoreCallView>) -> Seq<VotesView>
    decreases calls.len(),
{
    if calls.len() == 0 {
        Seq::empty()
    } else {
        let before = votes_written(calls.drop_last());
        match calls.last() {
            StoreCallView::WriteVote(votes) => before.push(votes),
            _ => before,
        }
    }
}

} // verus!
