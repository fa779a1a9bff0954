//! The escrow state machine and the dispute resolution engine.
//!
//! Every operation takes the record by exclusive mutable access and
//! returns success or a typed failure.  Each contract pins the outcome
//! exactly: which error comes on which inputs, and that a failed
//! operation leaves the record unchanged.

use vstd::prelude::*;

use crate::errors::EscrowError;
use crate::types::{DisputeDecision, DisputeResolution, Escrow, EscrowState, Vote};

verus! {

/// How many votes cast for release the sequence holds.
pub open spec fn release_votes(votes: Seq<Vote>) -> int
    decreases votes.len(),
{
    if votes.len() == 0 {
        0
    } else {
        release_votes(votes.drop_last()) + if votes.last().vote { 1int } else { 0int }
    }
}

/// How many votes cast for refund the sequence holds.
pub open spec fn refund_votes(votes: Seq<Vote>) -> int {
    votes.len() - release_votes(votes)
}

/// Whether the arbitrator already has a vote in the sequence.
pub open spec fn has_voted(votes: Seq<Vote>, arbitrator_id: u128) -> bool {
    exists|i: int| 0 <= i < votes.len() && votes[i].arbitrator_id == arbitrator_id
}

/// The number of concordant votes that resolves a dispute on a panel of
/// `n` arbitrators: the ceiling of two thirds of `n`.
pub open spec fn spec_majority_threshold(n: int) -> int {
    (2 * n + 2) / 3
}

/// The release-vote tally never goes negative nor past the sequence
/// length.
pub proof fn lemma_release_votes_bounds(votes: Seq<Vote>)
    ensures
        0 <= release_votes(votes) <= votes.len(),
    decreases votes.len(),
{
    if votes.len() > 0 {
        lemma_release_votes_bounds(votes.drop_last());
    }
}

/// Appending one vote raises the matching tally by one and leaves the
/// other unchanged.
pub proof fn lemma_release_votes_push(votes: Seq<Vote>, v: Vote)
    ensures
        release_votes(votes.push(v)) == release_votes(votes) + if v.vote { 1int } else { 0int },
{
    assert(votes.push(v).drop_last() =~= votes);
}

/// The majority threshold, computed as the ceiling of two thirds of the
/// panel size.
pub fn majority_threshold(panel_size: usize) -> (t: usize)
    ensures
        t == spec_majority_threshold(panel_size as int),
        t <= panel_size || panel_size == 0,
{
    let wide: u128 = (panel_size as u128) * 2 + 2;
    let t: u128 = wide / 3;
    proof {
        assert(wide < 3 * ((panel_size as u128) + 1));
        assert(t < (panel_size as u128) + 1);
    }
    t as usize
}

/// Counts the votes cast for release.
fn count_release_votes(votes: &Vec<Vote>) -> (n: usize)
    ensures
        n == release_votes(votes@),
        n <= votes@.len(),
{
    let mut n: usize = 0;
    let mut i: usize = 0;
    while i < votes.len()
        invariant
            i <= votes@.len(),
            n == release_votes(votes@.take(i as int)),
            n <= i,
        decreases votes@.len() - i,
    {
        proof {
            assert(votes@.take(i as int + 1).drop_last() =~= votes@.take(i as int));
            assert(votes@.take(i as int + 1).last() == votes@[i as int]);
        }
        if votes[i].vote {
            n = n + 1;
        }
        i = i + 1;
    }
    proof {
        assert(votes@.take(votes@.len() as int) =~= votes@);
    }
    n
}

/// Whether the arbitrator already has a vote in the list.
fn find_vote(votes: &Vec<Vote>, arbitrator_id: u128) -> (found: bool)
    ensures
        found == has_voted(votes@, arbitrator_id),
{
    let mut i: usize = 0;
    while i < votes.len()
        invariant
            i <= votes@.len(),
            forall|k: int| 0 <= k < i ==> votes@[k].arbitrator_id != arbitrator_id,
        decreases votes@.len() - i,
    {
        if votes[i].arbitrator_id == arbitrator_id {
            return true;
        }
        i = i + 1;
    }
    false
}

/// Whether the identifier is in the list.
fn contains_id(ids: &Vec<u128>, id: u128) -> (found: bool)
    ensures
        found == ids@.contains(id),
{
    let mut i: usize = 0;
    while i < ids.len()
        invariant
            i <= ids@.len(),
            forall|k: int| 0 <= k < i ==> ids@[k] != id,
        decreases ids@.len() - i,
    {
        if ids[i] == id {
            return true;
        }
        i = i + 1;
    }
    false
}

/// The pure transition functions of the escrow state machine.  Each is
/// a total function of the record, its arguments and the supplied clock
/// reading; none does hidden input or output.
pub struct EscrowContract;

impl EscrowContract {
    /// The result `fund_escrow` owes on each input.
    pub open spec fn fund_result(e: Escrow, amount: u64) -> Result<(), EscrowError> {
        if !(e.state is Created) {
            Err(EscrowError::InvalidStateTransition { from: e.state, to: EscrowState::Funded })
        } else if amount < e.amount {
            Err(EscrowError::InsufficientFunds { required: e.amount, provided: amount })
        } else {
            Ok(())
        }
    }

    /// Funds the escrow in full.  Valid only from `Created`; partial
    /// funding is rejected, not accumulated.
    pub fn fund_escrow(escrow: &mut Escrow, amount: u64, now: i64) -> (r: Result<(), EscrowError>)
        requires
            old(escrow).wf(),
        ensures
            final(escrow).wf(),
            r == Self::fund_result(*old(escrow), amount),
            r is Err ==> *final(escrow) == *old(escrow),
            r is Ok ==> *final(escrow) == (Escrow {
                state: EscrowState::Funded,
                funded_at: Some(now),
                ..*old(escrow)
            }),
    {
        if escrow.state != EscrowState::Created {
            return Err(EscrowError::InvalidStateTransition {
                from: escrow.state,
                to: EscrowState::Funded,
            });
        }
        if amount < escrow.amount {
            return Err(EscrowError::InsufficientFunds {
                required: escrow.amount,
                provided: amount,
            });
        }
        escrow.state = EscrowState::Funded;
        escrow.funded_at = Some(now);
        Ok(())
    }

    /// The result `release_to_seller` owes on each input.
    pub open spec fn release_result(e: Escrow, user_id: u128, pin: u32, now: i64)
        -> Result<(), EscrowError>
    {
        if !(e.state is Funded) {
            Err(EscrowError::InvalidStateTransition { from: e.state, to: EscrowState::Completed })
        } else if now > e.expires_at {
            Err(EscrowError::Expired)
        } else if e.buyer_id != user_id {
            Err(EscrowError::Unauthorized(user_id))
        } else if e.release_pin != Some(pin) {
            Err(EscrowError::InvalidPin)
        } else {
            Ok(())
        }
    }

    /// Releases the held funds to the seller.  Valid only from `Funded`,
    /// before expiry, for the buyer, with the exact stored PIN; success
    /// consumes the PIN, so the same PIN can never release twice.
    pub fn release_to_seller(escrow: &mut Escrow, user_id: u128, pin: u32, now: i64)
        -> (r: Result<(), EscrowError>)
        requires
            old(escrow).wf(),
        ensures
            final(escrow).wf(),
            r == Self::release_result(*old(escrow), user_id, pin, now),
            r is Err ==> *final(escrow) == *old(escrow),
            r is Ok ==> *final(escrow) == (Escrow {
                state: EscrowState::Completed,
                completed_at: Some(now),
                release_pin: None,
                ..*old(escrow)
            }),
    {
        if escrow.state != EscrowState::Funded {
            return Err(EscrowError::InvalidStateTransition {
                from: escrow.state,
                to: EscrowState::Completed,
            });
        }
        if escrow.is_expired(now) {
            return Err(EscrowError::Expired);
        }
        if escrow.buyer_id != user_id {
            return Err(EscrowError::Unauthorized(user_id));
        }
        let pin_matches = match &escrow.release_pin {
            Some(stored) => *stored == pin,
            None => false,
        };
        if !pin_matches {
            return Err(EscrowError::InvalidPin);
        }
        escrow.state = EscrowState::Completed;
        escrow.completed_at = Some(now);
        escrow.release_pin = None;
        Ok(())
    }

    /// The result `cancel_escrow` owes on each input.
    pub open spec fn cancel_result(e: Escrow, user_id: u128) -> Result<(), EscrowError> {
        if !(e.state is Created) {
            Err(EscrowError::InvalidStateTransition { from: e.state, to: EscrowState::Cancelled })
        } else if e.buyer_id != user_id {
            Err(EscrowError::Unauthorized(user_id))
        } else {
            Ok(())
        }
    }

    /// Cancels the escrow.  Only the buyer may cancel, and only before
    /// funding: once funds are committed the exits are release, dispute
    /// or expiry.
    pub fn cancel_escrow(escrow: &mut Escrow, user_id: u128) -> (r: Result<(), EscrowError>)
        requires
            old(escrow).wf(),
        ensures
            final(escrow).wf(),
            r == Self::cancel_result(*old(escrow), user_id),
            r is Err ==> *final(escrow) == *old(escrow),
            r is Ok ==> *final(escrow) == (Escrow {
                state: EscrowState::Cancelled,
                ..*old(escrow)
            }),
    {
        if escrow.state != EscrowState::Created {
            return Err(EscrowError::InvalidStateTransition {
                from: escrow.state,
                to: EscrowState::Cancelled,
            });
        }
        if escrow.buyer_id != user_id {
            return Err(EscrowError::Unauthorized(user_id));
        }
        escrow.state = EscrowState::Cancelled;
        Ok(())
    }

    /// The result `raise_dispute` owes on each input.
    pub open spec fn raise_result(e: Escrow, user_id: u128) -> Result<(), EscrowError> {
        if !(e.state is Funded) {
            Err(EscrowError::InvalidStateTransition { from: e.state, to: EscrowState::InDispute })
        } else if e.buyer_id != user_id && e.seller_id != user_id {
            Err(EscrowError::Unauthorized(user_id))
        } else {
            Ok(())
        }
    }

    /// Raises a dispute.  Valid only from `Funded`, for the buyer or the
    /// seller; success attaches a fresh dispute sub-record with an empty
    /// vote sequence.
    pub fn raise_dispute(escrow: &mut Escrow, user_id: u128, now: i64)
        -> (r: Result<(), EscrowError>)
        requires
            old(escrow).wf(),
        ensures
            final(escrow).wf(),
            r == Self::raise_result(*old(escrow), user_id),
            r is Err ==> *final(escrow) == *old(escrow),
            r is Ok ==> {
                &&& final(escrow).state is InDispute
                &&& final(escrow).dispute_resolution matches Some(d)
                    && d.raised_by == user_id
                    && d.raised_at == now
                    && d.votes@.len() == 0
                    && d.resolved_at is None
                    && d.decision is None
                &&& *final(escrow) == (Escrow {
                    state: EscrowState::InDispute,
                    dispute_resolution: final(escrow).dispute_resolution,
                    ..*old(escrow)
                })
            },
    {
        if escrow.state != EscrowState::Funded {
            return Err(EscrowError::InvalidStateTransition {
                from: escrow.state,
                to: EscrowState::InDispute,
            });
        }
        if escrow.buyer_id != user_id && escrow.seller_id != user_id {
            return Err(EscrowError::Unauthorized(user_id));
        }
        escrow.state = EscrowState::InDispute;
        escrow.dispute_resolution = Some(DisputeResolution {
            raised_by: user_id,
            raised_at: now,
            votes: Vec::new(),
            resolved_at: None,
            decision: None,
        });
        Ok(())
    }

    /// The result `vote_on_dispute` owes on each input.  On any record
    /// that is not in dispute — including one whose dispute already
    /// resolved to a terminal state — the vote is an invalid transition,
    /// reported with the state that was found; a non-member of the
    /// panel is `NotArbitrator`; a repeated vote is `AlreadyVoted`.
    pub open spec fn vote_result(e: Escrow, arbitrator_id: u128) -> Result<(), EscrowError> {
        if !(e.state is InDispute) {
            Err(EscrowError::InvalidStateTransition {
                from: e.state,
                to: EscrowState::InDispute,
            })
        } else if !e.arbitrators@.contains(arbitrator_id) {
            Err(EscrowError::NotArbitrator)
        } else if e.dispute_resolution matches Some(d) && has_voted(d.votes@, arbitrator_id) {
            Err(EscrowError::AlreadyVoted)
        } else {
            Ok(())
        }
    }

    /// Records one arbitrator's vote and resolves the dispute when a
    /// tally reaches the majority threshold: enough release votes
    /// complete the escrow to the seller, enough refund votes refund the
    /// buyer, and otherwise the dispute stays open.  Once a decision is
    /// recorded the record leaves `InDispute`, so any further vote fails
    /// the state check.
    pub fn vote_on_dispute(escrow: &mut Escrow, arbitrator_id: u128, vote: bool, now: i64)
        -> (r: Result<(), EscrowError>)
        requires
            old(escrow).wf(),
        ensures
            final(escrow).wf(),
            r == Self::vote_result(*old(escrow), arbitrator_id),
            r is Err ==> *final(escrow) == *old(escrow),
            r is Ok ==> ({
                let d0 = old(escrow).dispute_resolution->0;
                let votes = d0.votes@.push(Vote { arbitrator_id, vote, voted_at: now });
                let threshold = spec_majority_threshold(old(escrow).arbitrators@.len() as int);
                &&& final(escrow).dispute_resolution matches Some(d)
                    && d.votes@ == votes
                    && d.raised_by == d0.raised_by
                    && d.raised_at == d0.raised_at
                    && {
                        if release_votes(votes) >= threshold {
                            &&& final(escrow).state is Completed
                            &&& d.decision == Some(DisputeDecision::ReleaseToSeller)
                            &&& d.resolved_at == Some(now)
                            &&& final(escrow).completed_at == Some(now)
                        } else if refund_votes(votes) >= threshold {
                            &&& final(escrow).state is Refunded
                            &&& d.decision == Some(DisputeDecision::RefundToBuyer)
                            &&& d.resolved_at == Some(now)
                            &&& final(escrow).completed_at == old(escrow).completed_at
                        } else {
                            &&& final(escrow).state is InDispute
                            &&& d.decision is None
                            &&& d.resolved_at is None
                            &&& final(escrow).completed_at == old(escrow).completed_at
                        }
                    }
                &&& *final(escrow) == (Escrow {
                    state: final(escrow).state,
                    completed_at: final(escrow).completed_at,
                    dispute_resolution: final(escrow).dispute_resolution,
                    ..*old(escrow)
                })
            }),
    {
        if escrow.state != EscrowState::InDispute {
            return Err(EscrowError::InvalidStateTransition {
                from: escrow.state,
                to: EscrowState::InDispute,
            });
        }
        if !contains_id(&escrow.arbitrators, arbitrator_id) {
            return Err(EscrowError::NotArbitrator);
        }
        let mut dispute = match escrow.dispute_resolution.take() {
            Some(d) => d,
            None => {
                // wf rules this out: a record in dispute has the sub-record.
                proof {
                    assert(false);
                }
                unreached()
            },
        };
        if find_vote(&dispute.votes, arbitrator_id) {
            escrow.dispute_resolution = Some(dispute);
            proof {
                assert(*escrow =~= *old(escrow));
            }
            return Err(EscrowError::AlreadyVoted);
        }
        dispute.votes.push(Vote { arbitrator_id, vote, voted_at: now });
        proof {
            lemma_release_votes_push(
                dispute.votes@.drop_last(),
                Vote { arbitrator_id, vote, voted_at: now },
            );
            assert(dispute.votes@.drop_last().push(Vote { arbitrator_id, vote, voted_at: now })
                =~= dispute.votes@);
            lemma_release_votes_bounds(dispute.votes@);
        }
        let votes_for_release = count_release_votes(&dispute.votes);
        let votes_for_refund = dispute.votes.len() - votes_for_release;
        let threshold = majority_threshold(escrow.arbitrators.len());
        if votes_for_release >= threshold {
            dispute.decision = Some(DisputeDecision::ReleaseToSeller);
            dispute.resolved_at = Some(now);
            escrow.state = EscrowState::Completed;
            escrow.completed_at = Some(now);
        } else if votes_for_refund >= threshold {
            dispute.decision = Some(DisputeDecision::RefundToBuyer);
            dispute.resolved_at = Some(now);
            escrow.state = EscrowState::Refunded;
        }
        escrow.dispute_resolution = Some(dispute);
        Ok(())
    }

    /// The result `auto_refund_if_expired` owes on each input: `Ok(true)`
    /// exactly when the record was funded and past its deadline.
    pub open spec fn auto_refund_result(e: Escrow, now: i64) -> Result<bool, EscrowError> {
        Ok(e.state is Funded && now > e.expires_at)
    }

    /// Refunds a funded escrow whose deadline has passed; on any other
    /// record this is a no-op, not an error.  Intended to be polled by
    /// the orchestration layer.
    pub fn auto_refund_if_expired(escrow: &mut Escrow, now: i64) -> (r: Result<bool, EscrowError>)
        requires
            old(escrow).wf(),
        ensures
            final(escrow).wf(),
            r == Self::auto_refund_result(*old(escrow), now),
            r == Ok::<bool, EscrowError>(false) ==> *final(escrow) == *old(escrow),
            r == Ok::<bool, EscrowError>(true) ==> *final(escrow) == (Escrow {
                state: EscrowState::Refunded,
                ..*old(escrow)
            }),
    {
        if escrow.state == EscrowState::Funded && escrow.is_expired(now) {
            escrow.state = EscrowState::Refunded;
            Ok(true)
        } else {
            Ok(false)
        }
    }
}

/// A release PIN is single-use.  Once a release has succeeded the record
/// is `Completed`, and a second release call on it fails with
/// `InvalidStateTransition` whatever PIN is presented, even the one that
/// just succeeded; the PIN is never judged again, so the failure is
/// never `InvalidPin`.
pub proof fn lemma_pin_release_single_use(e: Escrow, user_id: u128, pin: u32, now: i64)
    requires
        e.state is Completed,
    ensures
        EscrowContract::release_result(e, user_id, pin, now) == Err::<(), EscrowError>(
            EscrowError::InvalidStateTransition {
                from: EscrowState::Completed,
                to: EscrowState::Completed,
            },
        ),
{
}

} // verus!
