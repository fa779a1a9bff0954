//! Dispute resolution: raising, voting, the majority threshold and the
//! terminal decisions.

use spaza_safety_escrow::contract::{majority_threshold, EscrowContract};
use spaza_safety_escrow::errors::EscrowError;
use spaza_safety_escrow::types::{DisputeDecision, Escrow, EscrowState};

const NOW: i64 = 1_700_000_000;
const PIN: u32 = 123_456;
const BUYER: u128 = 10;
const SELLER: u128 = 20;
const ARB1: u128 = 100;
const ARB2: u128 = 101;
const ARB3: u128 = 102;

fn disputed_escrow() -> Escrow {
    let mut e = Escrow::from_parts(
        1,
        150_000,
        "ZAR".to_string(),
        BUYER,
        SELLER,
        "Monthly stock purchase".to_string(),
        7,
        PIN,
        vec![ARB1, ARB2, ARB3],
        NOW,
    )
    .unwrap();
    EscrowContract::fund_escrow(&mut e, 150_000, NOW + 100).unwrap();
    EscrowContract::raise_dispute(&mut e, BUYER, NOW + 200).unwrap();
    e
}

#[test]
fn threshold_is_the_ceiling_of_two_thirds() {
    assert_eq!(majority_threshold(1), 1);
    assert_eq!(majority_threshold(2), 2);
    assert_eq!(majority_threshold(3), 2);
    assert_eq!(majority_threshold(4), 3);
    assert_eq!(majority_threshold(5), 4);
    assert_eq!(majority_threshold(6), 4);
    assert_eq!(majority_threshold(7), 5);
    assert_eq!(majority_threshold(9), 6);
}

#[test]
fn raising_a_dispute_attaches_a_fresh_record() {
    let e = disputed_escrow();
    assert_eq!(e.state, EscrowState::InDispute);
    let d = e.dispute_resolution.as_ref().unwrap();
    assert_eq!(d.raised_by, BUYER);
    assert_eq!(d.raised_at, NOW + 200);
    assert!(d.votes.is_empty());
    assert_eq!(d.resolved_at, None);
    assert_eq!(d.decision, None);
}

#[test]
fn the_seller_may_also_raise_a_dispute() {
    let mut e = Escrow::from_parts(1, 150_000, "ZAR".to_string(), BUYER, SELLER,
        "d".to_string(), 7, PIN, vec![ARB1, ARB2, ARB3], NOW).unwrap();
    EscrowContract::fund_escrow(&mut e, 150_000, NOW + 100).unwrap();
    assert_eq!(EscrowContract::raise_dispute(&mut e, SELLER, NOW + 200), Ok(()));
    assert_eq!(e.dispute_resolution.unwrap().raised_by, SELLER);
}

#[test]
fn strangers_may_not_raise_a_dispute() {
    let mut e = Escrow::from_parts(1, 150_000, "ZAR".to_string(), BUYER, SELLER,
        "d".to_string(), 7, PIN, vec![ARB1, ARB2, ARB3], NOW).unwrap();
    EscrowContract::fund_escrow(&mut e, 150_000, NOW + 100).unwrap();
    let r = EscrowContract::raise_dispute(&mut e, 999, NOW + 200);
    assert_eq!(r, Err(EscrowError::Unauthorized(999)));
    assert_eq!(e.state, EscrowState::Funded);
}

#[test]
fn disputes_need_a_funded_escrow() {
    let mut e = Escrow::from_parts(1, 150_000, "ZAR".to_string(), BUYER, SELLER,
        "d".to_string(), 7, PIN, vec![ARB1, ARB2, ARB3], NOW).unwrap();
    let r = EscrowContract::raise_dispute(&mut e, BUYER, NOW + 200);
    assert_eq!(
        r,
        Err(EscrowError::InvalidStateTransition {
            from: EscrowState::Created,
            to: EscrowState::InDispute,
        })
    );
}

#[test]
fn one_vote_of_three_leaves_the_dispute_open() {
    let mut e = disputed_escrow();
    assert_eq!(EscrowContract::vote_on_dispute(&mut e, ARB1, true, NOW + 300), Ok(()));
    assert_eq!(e.state, EscrowState::InDispute);
    let d = e.dispute_resolution.as_ref().unwrap();
    assert_eq!(d.votes.len(), 1);
    assert_eq!(d.decision, None);
    assert_eq!(d.resolved_at, None);
}

#[test]
fn two_concordant_release_votes_complete_the_escrow() {
    // create -> fund -> dispute -> two release votes from distinct
    // arbitrators of three
    let mut e = disputed_escrow();
    EscrowContract::vote_on_dispute(&mut e, ARB1, true, NOW + 300).unwrap();
    EscrowContract::vote_on_dispute(&mut e, ARB2, true, NOW + 400).unwrap();
    assert_eq!(e.state, EscrowState::Completed);
    assert_eq!(e.completed_at, Some(NOW + 400));
    let d = e.dispute_resolution.as_ref().unwrap();
    assert_eq!(d.decision, Some(DisputeDecision::ReleaseToSeller));
    assert_eq!(d.resolved_at, Some(NOW + 400));
    // the PIN was never consumed on this path
    assert_eq!(e.release_pin, Some(PIN));
}

#[test]
fn two_concordant_refund_votes_refund_the_buyer() {
    let mut e = disputed_escrow();
    EscrowContract::vote_on_dispute(&mut e, ARB1, false, NOW + 300).unwrap();
    EscrowContract::vote_on_dispute(&mut e, ARB3, false, NOW + 400).unwrap();
    assert_eq!(e.state, EscrowState::Refunded);
    let d = e.dispute_resolution.as_ref().unwrap();
    assert_eq!(d.decision, Some(DisputeDecision::RefundToBuyer));
    assert_eq!(d.resolved_at, Some(NOW + 400));
}

#[test]
fn a_split_panel_resolves_with_the_second_concordant_vote() {
    let mut e = disputed_escrow();
    EscrowContract::vote_on_dispute(&mut e, ARB1, true, NOW + 300).unwrap();
    EscrowContract::vote_on_dispute(&mut e, ARB2, false, NOW + 400).unwrap();
    assert_eq!(e.state, EscrowState::InDispute);
    EscrowContract::vote_on_dispute(&mut e, ARB3, false, NOW + 500).unwrap();
    assert_eq!(e.state, EscrowState::Refunded);
}

#[test]
fn a_vote_after_resolution_is_rejected() {
    // once resolved the record has left InDispute, so a further vote is
    // an invalid transition reporting the state that was found
    let mut e = disputed_escrow();
    EscrowContract::vote_on_dispute(&mut e, ARB1, true, NOW + 300).unwrap();
    EscrowContract::vote_on_dispute(&mut e, ARB2, true, NOW + 400).unwrap();
    let before = e.clone();
    let r = EscrowContract::vote_on_dispute(&mut e, ARB3, true, NOW + 500);
    assert_eq!(
        r,
        Err(EscrowError::InvalidStateTransition {
            from: EscrowState::Completed,
            to: EscrowState::InDispute,
        })
    );
    assert_eq!(e, before);

    // the same after a refund resolution
    let mut e = disputed_escrow();
    EscrowContract::vote_on_dispute(&mut e, ARB1, false, NOW + 300).unwrap();
    EscrowContract::vote_on_dispute(&mut e, ARB2, false, NOW + 400).unwrap();
    let r = EscrowContract::vote_on_dispute(&mut e, ARB3, false, NOW + 500);
    assert_eq!(
        r,
        Err(EscrowError::InvalidStateTransition {
            from: EscrowState::Refunded,
            to: EscrowState::InDispute,
        })
    );
}

#[test]
fn voting_twice_changes_no_tally() {
    let mut e = disputed_escrow();
    EscrowContract::vote_on_dispute(&mut e, ARB1, true, NOW + 300).unwrap();
    let before = e.clone();
    // the same arbitrator again, even flipping the vote
    let r = EscrowContract::vote_on_dispute(&mut e, ARB1, false, NOW + 400);
    assert_eq!(r, Err(EscrowError::AlreadyVoted));
    assert_eq!(e, before);
    assert_eq!(e.dispute_resolution.as_ref().unwrap().votes.len(), 1);
}

#[test]
fn only_panel_members_vote() {
    let mut e = disputed_escrow();
    let r = EscrowContract::vote_on_dispute(&mut e, 999, true, NOW + 300);
    assert_eq!(r, Err(EscrowError::NotArbitrator));
    assert_eq!(e.state, EscrowState::InDispute);
}

#[test]
fn voting_outside_a_dispute_is_an_invalid_transition() {
    let mut e = Escrow::from_parts(1, 150_000, "ZAR".to_string(), BUYER, SELLER,
        "d".to_string(), 7, PIN, vec![ARB1, ARB2, ARB3], NOW).unwrap();
    let r = EscrowContract::vote_on_dispute(&mut e, ARB1, true, NOW + 300);
    assert_eq!(
        r,
        Err(EscrowError::InvalidStateTransition {
            from: EscrowState::Created,
            to: EscrowState::InDispute,
        })
    );
}

#[test]
fn a_five_member_panel_needs_four_concordant_votes() {
    let mut e = Escrow::from_parts(1, 150_000, "ZAR".to_string(), BUYER, SELLER,
        "d".to_string(), 7, PIN, vec![1, 2, 3, 4, 5], NOW).unwrap();
    EscrowContract::fund_escrow(&mut e, 150_000, NOW + 100).unwrap();
    EscrowContract::raise_dispute(&mut e, BUYER, NOW + 200).unwrap();
    for (i, arb) in [1u128, 2, 3].iter().enumerate() {
        EscrowContract::vote_on_dispute(&mut e, *arb, true, NOW + 300 + i as i64).unwrap();
        assert_eq!(e.state, EscrowState::InDispute);
    }
    EscrowContract::vote_on_dispute(&mut e, 4, true, NOW + 400).unwrap();
    assert_eq!(e.state, EscrowState::Completed);
}
