//! The escrow record and its sub-records.
//!
//! An `Escrow` owns its state, timestamps, release PIN, arbitrator panel
//! and optional dispute sub-record.  `Escrow::wf` is the record's
//! well-formedness invariant: constructors establish it and every
//! transition preserves it.

use vstd::prelude::*;
use vstd::string::StringExecFns;

use crate::errors::EscrowError;
use crate::sys;

verus! {

/// The largest value a six-digit release PIN can take.
pub const MAX_PIN: u32 = 999_999;

/// The longest accepted escrow duration, in days (one century).
pub const MAX_ESCROW_DAYS: u64 = 36_500;

/// The latest accepted unix timestamp (the last second of year 9999).
pub const MAX_TIMESTAMP: i64 = 253_402_300_799;

/// Seconds in one day.
pub const SECONDS_PER_DAY: i64 = 86_400;

/// How many arbitrators a freshly drawn panel holds.
pub const DEFAULT_PANEL_SIZE: usize = 3;

/// The lifecycle state of an escrow record.
///
/// `Completed`, `Cancelled` and `Refunded` are terminal.
#[derive(Debug, Clone, Copy, PartialEq, Eq, Structural)]
pub enum EscrowState {
    Created,
    Funded,
    Completed,
    Cancelled,
    InDispute,
    Refunded,
}

/// The outcome a resolved dispute settles on.
#[derive(Debug, Clone, Copy, PartialEq, Eq, Structural)]
pub enum DisputeDecision {
    ReleaseToSeller,
    RefundToBuyer,
}

/// One arbitrator's vote: `true` releases to the seller, `false`
/// refunds the buyer.
#[derive(Debug, Clone, Copy, PartialEq, Eq, Structural)]
pub struct Vote {
    pub arbitrator_id: u128,
    pub vote: bool,
    pub voted_at: i64,
}

/// The dispute sub-record attached to an escrow while and after a
/// dispute exists.  Votes are kept in insertion order, at most one per
/// arbitrator.
#[derive(Debug, Clone, PartialEq, Eq)]
pub struct DisputeResolution {
    pub raised_by: u128,
    pub raised_at: i64,
    pub votes: Vec<Vote>,
    pub resolved_at: Option<i64>,
    pub decision: Option<DisputeDecision>,
}

/// An escrow record.
///
/// `amount` is an integer count of cents, so decimal amounts carry no
/// rounding drift.  Timestamps are unix seconds; identifiers are 128-bit
/// integers.
#[derive(Debug, Clone, PartialEq, Eq)]
pub struct Escrow {
    pub id: u128,
    pub amount: u64,
    pub currency: String,
    pub buyer_id: u128,
    pub seller_id: u128,
    pub description: String,
    pub state: EscrowState,
    pub created_at: i64,
    pub expires_at: i64,
    pub funded_at: Option<i64>,
    pub completed_at: Option<i64>,
    pub release_pin: Option<u32>,
    pub arbitrators: Vec<u128>,
    pub dispute_resolution: Option<DisputeResolution>,
}

impl Escrow {
    /// The release PIN is present if and only if the escrow has never
    /// completed through a PIN release: a completion with no dispute
    /// record is exactly a PIN release, and it consumes the PIN.
    pub open spec fn pin_wf(self) -> bool {
        &&& (self.release_pin matches Some(p) ==> p <= MAX_PIN)
        &&& (self.release_pin is None <==> (self.state is Completed
            && self.dispute_resolution is None))
    }

    /// The arbitrator panel is a fixed set of distinct identifiers.
    pub open spec fn arbitrators_wf(self) -> bool {
        forall|i: int, j: int|
            0 <= i < j < self.arbitrators@.len()
                ==> self.arbitrators@[i] != self.arbitrators@[j]
    }

    /// How the dispute sub-record and the state cohere: a dispute exists
    /// exactly along the dispute path, its decision and resolution
    /// timestamp come together, a decided dispute fixes the terminal
    /// state, and the vote sequence holds at most one vote per panel
    /// member.
    pub open spec fn dispute_wf(self) -> bool {
        &&& (self.state is InDispute ==> self.dispute_resolution is Some)
        &&& (self.dispute_resolution is Some ==> (self.state is InDispute
            || self.state is Completed || self.state is Refunded))
        &&& (self.dispute_resolution matches Some(d) ==> {
            &&& (d.decision is Some <==> d.resolved_at is Some)
            &&& (self.state is InDispute ==> d.decision is None)
            &&& (self.state is Completed ==> d.decision == Some(DisputeDecision::ReleaseToSeller))
            &&& (self.state is Refunded ==> d.decision == Some(DisputeDecision::RefundToBuyer))
            &&& (forall|i: int, j: int|
                0 <= i < j < d.votes@.len()
                    ==> d.votes@[i].arbitrator_id != d.votes@[j].arbitrator_id)
            &&& (forall|i: int|
                0 <= i < d.votes@.len()
                    ==> self.arbitrators@.contains(d.votes@[i].arbitrator_id))
        })
    }

    /// The completion timestamp is present exactly on a completed
    /// record: a refund or cancellation never sets it, and completion
    /// always does.
    pub open spec fn completion_wf(self) -> bool {
        self.completed_at is Some <==> self.state is Completed
    }

    /// The record's well-formedness invariant.
    pub open spec fn wf(self) -> bool {
        &&& self.amount > 0
        &&& self.buyer_id != self.seller_id
        &&& self.pin_wf()
        &&& self.completion_wf()
        &&& self.arbitrators_wf()
        &&& self.dispute_wf()
    }

    /// The validation rule a new record's parts must pass.
    pub open spec fn parts_ok(
        amount: u64,
        buyer_id: u128,
        seller_id: u128,
        days_to_expire: u64,
        release_pin: u32,
        arbitrators: Seq<u128>,
        now: i64,
    ) -> bool {
        &&& amount > 0
        &&& buyer_id != seller_id
        &&& days_to_expire <= MAX_ESCROW_DAYS
        &&& release_pin <= MAX_PIN
        &&& 0 <= now <= MAX_TIMESTAMP
        &&& (forall|i: int, j: int|
            0 <= i < j < arbitrators.len() ==> arbitrators[i] != arbitrators[j])
    }

    /// Builds a record from explicitly supplied parts: identifier,
    /// release PIN, arbitrator panel and clock reading are all inputs,
    /// so the outcome is a function of its arguments alone.
    ///
    /// Returns `ValidationError` exactly when the parts fail the
    /// validation rule; on success the record starts in `Created` with
    /// its deadline `days_to_expire` days past `now`.
    pub fn from_parts(
        id: u128,
        amount: u64,
        currency: String,
        buyer_id: u128,
        seller_id: u128,
        description: String,
        days_to_expire: u64,
        release_pin: u32,
        arbitrators: Vec<u128>,
        now: i64,
    ) -> (r: Result<Escrow, EscrowError>)
        ensures
            r is Ok <==> Self::parts_ok(amount, buyer_id, seller_id, days_to_expire,
                release_pin, arbitrators@, now),
            r is Err ==> r->Err_0 is ValidationError,
            r matches Ok(e) ==> {
                &&& e.wf()
                &&& e.id == id
                &&& e.amount == amount
                &&& e.currency == currency
                &&& e.buyer_id == buyer_id
                &&& e.seller_id == seller_id
                &&& e.description == description
                &&& e.state is Created
                &&& e.created_at == now
                &&& e.expires_at == now + days_to_expire * SECONDS_PER_DAY
                &&& e.funded_at is None
                &&& e.completed_at is None
                &&& e.release_pin == Some(release_pin)
                &&& e.arbitrators == arbitrators
                &&& e.dispute_resolution is None
            },
    {
        if amount == 0 {
            return Err(EscrowError::ValidationError(String::from_str(
                "amount must be a positive number of cents",
            )));
        }
        if buyer_id == seller_id {
            return Err(EscrowError::ValidationError(String::from_str(
                "buyer and seller must be distinct",
            )));
        }
        if days_to_expire > MAX_ESCROW_DAYS {
            return Err(EscrowError::ValidationError(String::from_str(
                "escrow duration is over the supported maximum",
            )));
        }
        if release_pin > MAX_PIN {
            return Err(EscrowError::ValidationError(String::from_str(
                "release PIN must have at most six digits",
            )));
        }
        if now < 0 || now > MAX_TIMESTAMP {
            return Err(EscrowError::ValidationError(String::from_str(
                "creation time is out of range",
            )));
        }
        if !all_distinct(&arbitrators) {
            return Err(EscrowError::ValidationError(String::from_str(
                "arbitrator identifiers must be distinct",
            )));
        }
        let expires_at: i64 = now + (days_to_expire as i64) * SECONDS_PER_DAY;
        Ok(Escrow {
            id,
            amount,
            currency,
            buyer_id,
            seller_id,
            description,
            state: EscrowState::Created,
            created_at: now,
            expires_at,
            funded_at: None,
            completed_at: None,
            release_pin: Some(release_pin),
            arbitrators,
            dispute_resolution: None,
        })
    }

    /// Creates a record the way the command surface does: the
    /// identifier, the release PIN, a three-member arbitrator panel and
    /// the clock reading are drawn from the outside sources, then handed
    /// to `from_parts`, whose validation decides the outcome.
    pub fn new(
        amount: u64,
        currency: String,
        buyer_id: u128,
        seller_id: u128,
        description: String,
        days_to_expire: u64,
    ) -> (r: Result<Escrow, EscrowError>)
        ensures
            (amount == 0 || buyer_id == seller_id || days_to_expire > MAX_ESCROW_DAYS)
                ==> r is Err,
            r is Err ==> r->Err_0 is ValidationError,
            r matches Ok(e) ==> {
                &&& e.wf()
                &&& e.amount == amount
                &&& e.currency == currency
                &&& e.buyer_id == buyer_id
                &&& e.seller_id == seller_id
                &&& e.description == description
                &&& e.state is Created
                &&& e.expires_at == e.created_at + days_to_expire * SECONDS_PER_DAY
                &&& e.funded_at is None
                &&& e.completed_at is None
                &&& (e.release_pin matches Some(p) && p <= MAX_PIN)
                &&& e.arbitrators@.len() == DEFAULT_PANEL_SIZE
                &&& e.dispute_resolution is None
            },
    {
        let id = sys::fresh_id();
        let release_pin = sys::random_pin();
        let mut arbitrators: Vec<u128> = Vec::new();
        arbitrators.push(sys::fresh_id());
        arbitrators.push(sys::fresh_id());
        arbitrators.push(sys::fresh_id());
        let now = sys::now_unix();
        Self::from_parts(id, amount, currency, buyer_id, seller_id, description,
            days_to_expire, release_pin, arbitrators, now)
    }

    /// Whether the record's deadline lies strictly before the given
    /// clock reading.
    pub fn is_expired(&self, now: i64) -> (r: bool)
        ensures
            r == (now > self.expires_at),
    {
        now > self.expires_at
    }
}

/// Whether the record still holds or awaits funds.
pub open spec fn spec_is_active(e: Escrow) -> bool {
    e.state is Created || e.state is Funded
}

/// How many of the records are active (still holding or awaiting
/// funds).
pub open spec fn spec_active_escrows(escrows: Seq<Escrow>) -> int
    decreases escrows.len(),
{
    if escrows.len() == 0 {
        0
    } else {
        spec_active_escrows(escrows.drop_last())
            + if spec_is_active(escrows.last()) { 1int } else { 0int }
    }
}

/// The summed amounts of the records, in cents.
pub open spec fn spec_total_value(escrows: Seq<Escrow>) -> int
    decreases escrows.len(),
{
    if escrows.len() == 0 {
        0
    } else {
        spec_total_value(escrows.drop_last()) + escrows.last().amount
    }
}

/// Counts the records that still hold or await funds.
pub fn count_active_escrows(escrows: &Vec<Escrow>) -> (n: usize)
    ensures
        n == spec_active_escrows(escrows@),
        n <= escrows@.len(),
{
    let mut n: usize = 0;
    let mut i: usize = 0;
    while i < escrows.len()
        invariant
            i <= escrows@.len(),
            n == spec_active_escrows(escrows@.take(i as int)),
            n <= i,
        decreases escrows@.len() - i,
    {
        proof {
            assert(escrows@.take(i as int + 1).drop_last() =~= escrows@.take(i as int));
            assert(escrows@.take(i as int + 1).last() == escrows@[i as int]);
        }
        let active = match escrows[i].state {
            EscrowState::Created => true,
            EscrowState::Funded => true,
            _ => false,
        };
        if active {
            n = n + 1;
        }
        i = i + 1;
    }
    proof {
        assert(escrows@.take(escrows@.len() as int) =~= escrows@);
    }
    n
}

/// Sums the amounts of the records, in cents.
pub fn total_escrow_value(escrows: &Vec<Escrow>) -> (total: u128)
    ensures
        total == spec_total_value(escrows@),
{
    let mut total: u128 = 0;
    let mut i: usize = 0;
    while i < escrows.len()
        invariant
            i <= escrows@.len(),
            total == spec_total_value(escrows@.take(i as int)),
            total <= 0x1_0000_0000_0000_0000u128 * (i as u128),
        decreases escrows@.len() - i,
    {
        proof {
            assert(escrows@.take(i as int + 1).drop_last() =~= escrows@.take(i as int));
            assert(escrows@.take(i as int + 1).last() == escrows@[i as int]);
        }
        total = total + escrows[i].amount as u128;
        i = i + 1;
    }
    proof {
        assert(escrows@.take(escrows@.len() as int) =~= escrows@);
    }
    total
}

/// Whether the identifiers are pairwise distinct.
pub fn all_distinct(ids: &Vec<u128>) -> (r: bool)
    ensures
        r == (forall|i: int, j: int| 0 <= i < j < ids@.len() ==> ids@[i] != ids@[j]),
{
    let n = ids.len();
    let mut i: usize = 0;
    while i < n
        invariant
            n == ids@.len(),
            i <= n,
            forall|p: int, q: int| 0 <= p < q < ids@.len() && p < i ==> ids@[p] != ids@[q],
        decreases n - i,
    {
        let mut j: usize = i + 1;
        while j < n
            invariant
                n == ids@.len(),
                i < n,
                i < j <= n,
                forall|q: int| i < q < j ==> ids@[i as int] != ids@[q],
            decreases n - j,
        {
            if ids[i] == ids[j] {
                return false;
            }
            j = j + 1;
        }
        i = i + 1;
    }
    true
}

} // verus!
