use governor_indexer::db::{Proposal, StatusUpdate, Votes};
use governor_indexer::event_handler::{
    handle_proposal_created, handle_proposal_updated, handle_vote_cast, EventKind, EventTypes,
};
use governor_indexer::ledger::ContractEventV0;
use governor_indexer::xdr::{AccountId, Int128Parts, ScAddress, ScVal};
use governor_indexer::GovernorError;

fn symbol(name: &str) -> ScVal {
    ScVal::Symbol(name.as_bytes().to_vec())
}

fn contract() -> governor_indexer::xdr::Hash {
    governor_indexer::xdr::Hash([0xabu8; 32])
}

fn voter() -> ScVal {
    ScVal::Address(ScAddress::Account(AccountId([0x11u8; 32])))
}

fn amount(n: u64) -> ScVal {
    ScVal::I128(Int128Parts { hi: 0, lo: n })
}

fn list(items: Vec<ScVal>) -> ScVal {
    ScVal::Vec(Some(items))
}

fn vote_event() -> ContractEventV0 {
    ContractEventV0 {
        topics: vec![symbol("vote_cast"), ScVal::U32(7), voter()],
        data: list(vec![ScVal::U32(1), amount(1_000_000_000_000)]),
    }
}

fn created_event() -> ContractEventV0 {
    ContractEventV0 {
        topics: vec![symbol("proposal_created"), ScVal::U32(7), voter()],
        data: list(vec![
            ScVal::String(b"title".to_vec()),
            ScVal::String(b"description".to_vec()),
            list(vec![symbol("Snapshot")]),
        ]),
    }
}

#[test]
fn the_catalog_holds_the_three_symbols() {
    let types = EventTypes::new();
    assert_eq!(types.vote_cast, ScVal::Symbol(b"vote_cast".to_vec()));
    assert_eq!(types.proposal_created, ScVal::Symbol(b"proposal_created".to_vec()));
    assert_eq!(types.proposal_updated, ScVal::Symbol(b"proposal_updated".to_vec()));
    assert_eq!(
        types.vote_cast,
        ScVal::Symbol(vec![0x76, 0x6f, 0x74, 0x65, 0x5f, 0x63, 0x61, 0x73, 0x74])
    );
}

#[test]
fn the_catalog_entries_are_mutually_distinct() {
    let types = EventTypes::new();
    assert_ne!(types.vote_cast, types.proposal_created);
    assert_ne!(types.vote_cast, types.proposal_updated);
    assert_ne!(types.proposal_created, types.proposal_updated);
}

#[test]
fn the_catalog_is_the_same_every_time() {
    assert_eq!(EventTypes::new(), EventTypes::new());
}

#[test]
fn kind_of_matches_each_catalog_entry() {
    let types = EventTypes::new();
    assert_eq!(types.kind_of(&symbol("vote_cast")), EventKind::VoteCast);
    assert_eq!(types.kind_of(&symbol("proposal_created")), EventKind::ProposalCreated);
    assert_eq!(types.kind_of(&symbol("proposal_updated")), EventKind::ProposalUpdated);
}

#[test]
fn kind_of_passes_over_everything_else() {
    let types = EventTypes::new();
    assert_eq!(types.kind_of(&symbol("proposal_voted")), EventKind::Untracked);
    assert_eq!(types.kind_of(&symbol("vote_cas")), EventKind::Untracked);
    assert_eq!(types.kind_of(&symbol("Vote_cast")), EventKind::Untracked);
    assert_eq!(types.kind_of(&symbol("")), EventKind::Untracked);
    assert_eq!(types.kind_of(&ScVal::String(b"vote_cast".to_vec())), EventKind::Untracked);
    assert_eq!(types.kind_of(&ScVal::Bytes(b"vote_cast".to_vec())), EventKind::Untracked);
    assert_eq!(types.kind_of(&ScVal::U32(0)), EventKind::Untracked);
    assert_eq!(types.kind_of(&list(vec![symbol("vote_cast")])), EventKind::Untracked);
}

#[test]
fn kind_of_takes_the_first_match_of_any_catalog() {
    let types = EventTypes {
        vote_cast: ScVal::U32(1),
        proposal_created: ScVal::U32(1),
        proposal_updated: ScVal::U32(2),
    };
    assert_eq!(types.kind_of(&ScVal::U32(1)), EventKind::VoteCast);
    assert_eq!(types.kind_of(&ScVal::U32(2)), EventKind::ProposalUpdated);
    assert_eq!(types.kind_of(&ScVal::U32(3)), EventKind::Untracked);
}

#[test]
fn vote_cast_is_decoded_by_position() {
    let votes = handle_vote_cast(contract(), &vote_event(), ScVal::U32(4242));
    assert_eq!(
        votes,
        Some(Votes {
            contract: contract(),
            prop_num: ScVal::U32(7),
            user: voter(),
            support: ScVal::U32(1),
            amount: amount(1_000_000_000_000),
            ledger: ScVal::U32(4242),
        })
    );
}

#[test]
fn vote_cast_forwards_values_without_checking_their_type() {
    let event = ContractEventV0 {
        topics: vec![ScVal::Void, symbol("seven"), ScVal::Bool(true)],
        data: list(vec![ScVal::Bytes(vec![1]), symbol("much"), ScVal::U32(99)]),
    };
    let votes = handle_vote_cast(contract(), &event, ScVal::Void);
    assert_eq!(
        votes,
        Some(Votes {
            contract: contract(),
            prop_num: symbol("seven"),
            user: ScVal::Bool(true),
            support: ScVal::Bytes(vec![1]),
            amount: symbol("much"),
            ledger: ScVal::Void,
        })
    );
}

#[test]
fn vote_cast_declines_without_the_amount() {
    let mut event = vote_event();
    event.data = list(vec![ScVal::U32(1)]);
    assert_eq!(handle_vote_cast(contract(), &event, ScVal::U32(1)), None);
}

#[test]
fn vote_cast_declines_without_the_support() {
    let mut event = vote_event();
    event.data = list(vec![]);
    assert_eq!(handle_vote_cast(contract(), &event, ScVal::U32(1)), None);
}

#[test]
fn vote_cast_declines_without_a_topic() {
    let mut event = vote_event();
    event.topics = vec![symbol("vote_cast"), ScVal::U32(7)];
    assert_eq!(handle_vote_cast(contract(), &event, ScVal::U32(1)), None);
    event.topics = vec![symbol("vote_cast")];
    assert_eq!(handle_vote_cast(contract(), &event, ScVal::U32(1)), None);
    event.topics = vec![];
    assert_eq!(handle_vote_cast(contract(), &event, ScVal::U32(1)), None);
}

#[test]
fn vote_cast_declines_when_the_data_is_no_list() {
    let mut event = vote_event();
    event.data = ScVal::Vec(None);
    assert_eq!(handle_vote_cast(contract(), &event, ScVal::U32(1)), None);
    event.data = ScVal::U32(1);
    assert_eq!(handle_vote_cast(contract(), &event, ScVal::U32(1)), None);
    event.data = ScVal::Void;
    assert_eq!(handle_vote_cast(contract(), &event, ScVal::U32(1)), None);
    event.data = ScVal::Mapping(Some(vec![]));
    assert_eq!(handle_vote_cast(contract(), &event, ScVal::U32(1)), None);
}

#[test]
fn proposal_created_is_decoded_by_position() {
    let proposal = handle_proposal_created(contract(), &created_event(), ScVal::U32(100));
    assert_eq!(
        proposal,
        Some(Proposal {
            contract: contract(),
            prop_num: ScVal::U32(7),
            title: ScVal::String(b"title".to_vec()),
            desc: ScVal::String(b"description".to_vec()),
            action: list(vec![symbol("Snapshot")]),
            creator: voter(),
            status: ScVal::U32(0),
            ledger: ScVal::U32(100),
        })
    );
}

#[test]
fn proposal_created_always_starts_at_status_zero() {
    let event = ContractEventV0 {
        topics: vec![symbol("proposal_created"), ScVal::U32(5), ScVal::U32(5), ScVal::U32(5)],
        data: list(vec![ScVal::U32(5), ScVal::U32(5), ScVal::U32(5), ScVal::U32(5)]),
    };
    let proposal = handle_proposal_created(contract(), &event, ScVal::U32(5)).unwrap();
    assert_eq!(proposal.status, ScVal::U32(0));
    let other = handle_proposal_created(contract(), &created_event(), ScVal::U32(9)).unwrap();
    assert_eq!(other.status, ScVal::U32(0));
}

#[test]
fn proposal_created_declines_when_a_position_is_missing() {
    let mut event = created_event();
    event.data = list(vec![ScVal::String(b"title".to_vec()), ScVal::String(b"d".to_vec())]);
    assert_eq!(handle_proposal_created(contract(), &event, ScVal::U32(1)), None);
    event.data = list(vec![ScVal::String(b"title".to_vec())]);
    assert_eq!(handle_proposal_created(contract(), &event, ScVal::U32(1)), None);
    event.data = list(vec![]);
    assert_eq!(handle_proposal_created(contract(), &event, ScVal::U32(1)), None);
    event.data = ScVal::Vec(None);
    assert_eq!(handle_proposal_created(contract(), &event, ScVal::U32(1)), None);
    event.data = ScVal::String(b"title".to_vec());
    assert_eq!(handle_proposal_created(contract(), &event, ScVal::U32(1)), None);

    let mut event = created_event();
    event.topics = vec![symbol("proposal_created"), ScVal::U32(7)];
    assert_eq!(handle_proposal_created(contract(), &event, ScVal::U32(1)), None);
    event.topics = vec![symbol("proposal_created")];
    assert_eq!(handle_proposal_created(contract(), &event, ScVal::U32(1)), None);
}

#[test]
fn proposal_updated_is_decoded_from_the_topics_alone() {
    let event = ContractEventV0 {
        topics: vec![symbol("proposal_updated"), ScVal::U32(7), ScVal::U32(2)],
        data: ScVal::Void,
    };
    assert_eq!(
        handle_proposal_updated(contract(), &event, ScVal::U32(1)),
        Some(StatusUpdate { status: ScVal::U32(2), contract: contract(), prop_num: ScVal::U32(7) })
    );
    let with_data = ContractEventV0 { data: list(vec![ScVal::U32(9)]), ..event };
    assert_eq!(
        handle_proposal_updated(contract(), &with_data, ScVal::U32(1)),
        Some(StatusUpdate { status: ScVal::U32(2), contract: contract(), prop_num: ScVal::U32(7) })
    );
}

#[test]
fn proposal_updated_declines_without_a_topic() {
    let mut event = ContractEventV0 {
        topics: vec![symbol("proposal_updated"), ScVal::U32(7)],
        data: ScVal::Void,
    };
    assert_eq!(handle_proposal_updated(contract(), &event, ScVal::U32(1)), None);
    event.topics = vec![symbol("proposal_updated")];
    assert_eq!(handle_proposal_updated(contract(), &event, ScVal::U32(1)), None);
    event.topics = vec![];
    assert_eq!(handle_proposal_updated(contract(), &event, ScVal::U32(1)), None);
}

#[test]
fn decoders_leave_the_event_as_it_was() {
    let event = vote_event();
    let _ = handle_vote_cast(contract(), &event, ScVal::U32(1));
    let _ = handle_proposal_created(contract(), &event, ScVal::U32(1));
    let _ = handle_proposal_updated(contract(), &event, ScVal::U32(1));
    assert_eq!(event, vote_event());
}

#[test]
fn the_store_error_names_a_missing_proposal() {
    let e = GovernorError::ProposalNotFound;
    assert_eq!(e, GovernorError::ProposalNotFound);
    assert!(matches!(e, GovernorError::ProposalNotFound));
}
