//! The trust scoring engine.
//!
//! A per-user profile tracks historical behaviour and derives a 0-100
//! score, a tier, and a recommended escrow duration.  Scores are held in
//! integer tenths of a point (0..=1000), which makes "rounded to one
//! decimal place" exact by construction.
//!
//! The score of a profile with at least one transaction is
//! `clamp(success_rate * 0.7 - dispute_rate * 20, 0, 100)` rounded to
//! the nearest tenth (ties away from zero), where the rates are
//! percentages of the transaction total; with no transactions it is
//! 50.0.  This is the plain rate-based formula; the engine uses it
//! uniformly, and the duration ladder is the four-tier one (1, 3, 7 or
//! 14 days by the pair's average score).

use vstd::prelude::*;
use vstd::arithmetic::div_mod::{lemma_div_is_ordered, lemma_div_multiples_vanish, lemma_fundamental_div_mod};
use vstd::arithmetic::mul::lemma_mul_inequality;
use vstd::string::StringExecFns;

use crate::errors::EscrowError;

verus! {

/// A trust score never goes past 100.0, held as tenths.
pub const MAX_SCORE_TENTHS: u32 = 1000;

/// The score a user starts with and the score assumed for strangers:
/// 50.0, held as tenths.
pub const NEUTRAL_SCORE_TENTHS: u32 = 500;

/// The trust tier a score falls in.
#[derive(Debug, Clone, Copy, PartialEq, Eq, Structural)]
pub enum TrustLevel {
    Newbie,
    Bronze,
    Silver,
    Gold,
    Platinum,
    Trusted,
}

/// A user's running trust statistics.  `trust_score` is kept by the
/// registry: registration starts it at the neutral value and every
/// recorded transaction pins it, by contract, to the scoring formula
/// over the three counters.
#[derive(Debug, Clone, Copy, PartialEq, Eq, Structural)]
pub struct UserTrustProfile {
    pub user_id: u128,
    /// The current score, in tenths of a point (0..=1000).
    pub trust_score: u32,
    pub total_transactions: u32,
    pub successful_transactions: u32,
    pub disputed_transactions: u32,
    /// Lifetime volume, in cents.
    pub total_amount_transacted: u64,
    pub last_active: i64,
    pub join_date: i64,
}

/// The scoring formula, in tenths of a point.
///
/// With no transactions the score is 500 (that is, 50.0).  Otherwise it
/// is `success_rate * 0.7 - dispute_rate * 20` clamped below at zero and
/// rounded to the nearest tenth, ties away from zero; the rates are
/// `successful / total * 100` and `disputed / total * 100`.  In tenths
/// that difference is `(700 * successful - 20000 * disputed) / total`,
/// and the rounding is by the half-adjust on the quotient.  The formula
/// never reaches the upper clamp of 1000: its largest value is 700, on
/// an all-successful dispute-free history.
pub open spec fn spec_trust_score(total: u32, successful: u32, disputed: u32) -> int {
    if total == 0 {
        500
    } else if 700 * successful <= 20000 * disputed {
        0
    } else {
        (2 * (700 * successful - 20000 * disputed) + total) / (2 * total)
    }
}

/// The trust score is always in the 0.0 to 100.0 band, whatever the
/// history, and a blank history scores exactly 50.0.  With at least one
/// transaction it cannot even pass 70.0, the all-successful ceiling.
pub proof fn lemma_trust_score_bounds(total: u32, successful: u32, disputed: u32)
    requires
        successful <= total,
    ensures
        0 <= spec_trust_score(total, successful, disputed) <= 1000,
        total == 0 ==> spec_trust_score(total, successful, disputed) == 500,
        total > 0 ==> spec_trust_score(total, successful, disputed) <= 700,
{
    if total > 0 && 700 * successful > 20000 * disputed {
        let raw = 700 * (successful as int) - 20000 * (disputed as int);
        let a = 2 * raw + total;
        let b = 2 * (total as int);
        assert(raw <= 700 * (total as int)) by {
            lemma_mul_inequality(successful as int, total as int, 700);
        }
        assert(a / b >= 0) by {
            lemma_div_is_ordered(0, a, b);
        }
        assert(a / b <= 700) by {
            lemma_fundamental_div_mod(a, b);
            if a / b > 700 {
                lemma_mul_inequality(701, a / b, b);
            }
        }
    }
}

/// The tier bands: below 30.0 `Newbie`, below 60.0 `Bronze`, below 80.0
/// `Silver`, below 90.0 `Gold`, below 96.0 `Platinum`, else `Trusted`.
/// Each boundary belongs to the higher band: 30.0 is already `Bronze`.
pub open spec fn spec_trust_level(score_tenths: int) -> TrustLevel {
    if score_tenths < 300 {
        TrustLevel::Newbie
    } else if score_tenths < 600 {
        TrustLevel::Bronze
    } else if score_tenths < 800 {
        TrustLevel::Silver
    } else if score_tenths < 900 {
        TrustLevel::Gold
    } else if score_tenths < 960 {
        TrustLevel::Platinum
    } else {
        TrustLevel::Trusted
    }
}

/// The four-tier duration ladder over the pair's average score: 1 day
/// from 90.0 up, 3 days from 70.0, 7 days from 50.0, else 14 days.  The
/// comparisons are on the sum of the two tenth-scores, which keeps the
/// average exact.
pub open spec fn spec_recommended_duration(buyer_score: int, seller_score: int) -> int {
    if buyer_score + seller_score >= 1800 {
        1
    } else if buyer_score + seller_score >= 1400 {
        3
    } else if buyer_score + seller_score >= 1000 {
        7
    } else {
        14
    }
}

/// The recommended duration never grows as the pair's average trust
/// score grows: a pair at least as trusted waits at most as long.
pub proof fn lemma_recommended_duration_monotone(b1: int, s1: int, b2: int, s2: int)
    requires
        b1 + s1 <= b2 + s2,
    ensures
        spec_recommended_duration(b2, s2) <= spec_recommended_duration(b1, s1),
{
}

impl UserTrustProfile {
    /// What a profile can coherently hold: neither outcome count passes
    /// the total, and the score sits inside the 0.0 to 100.0 band.
    pub open spec fn wf(self) -> bool {
        &&& self.successful_transactions <= self.total_transactions
        &&& self.disputed_transactions <= self.total_transactions
        &&& self.trust_score <= MAX_SCORE_TENTHS
    }

    /// The profile a user starts with: no history, neutral score.
    pub open spec fn spec_fresh(user_id: u128, now: i64) -> UserTrustProfile {
        UserTrustProfile {
            user_id,
            trust_score: NEUTRAL_SCORE_TENTHS,
            total_transactions: 0,
            successful_transactions: 0,
            disputed_transactions: 0,
            total_amount_transacted: 0,
            last_active: now,
            join_date: now,
        }
    }

    /// The tier this profile's score falls in.
    pub fn get_trust_level(&self) -> (level: TrustLevel)
        ensures
            level == spec_trust_level(self.trust_score as int),
    {
        if self.trust_score < 300 {
            TrustLevel::Newbie
        } else if self.trust_score < 600 {
            TrustLevel::Bronze
        } else if self.trust_score < 800 {
            TrustLevel::Silver
        } else if self.trust_score < 900 {
            TrustLevel::Gold
        } else if self.trust_score < 960 {
            TrustLevel::Platinum
        } else {
            TrustLevel::Trusted
        }
    }
}

/// Computes the scoring formula on a profile's counters.
pub fn calculate_trust_score(profile: &UserTrustProfile) -> (score: u32)
    requires
        profile.successful_transactions <= profile.total_transactions,
        profile.disputed_transactions <= profile.total_transactions,
    ensures
        score == spec_trust_score(
            profile.total_transactions,
            profile.successful_transactions,
            profile.disputed_transactions,
        ),
        score <= MAX_SCORE_TENTHS,
{
    proof {
        lemma_trust_score_bounds(
            profile.total_transactions,
            profile.successful_transactions,
            profile.disputed_transactions,
        );
    }
    if profile.total_transactions == 0 {
        return NEUTRAL_SCORE_TENTHS;
    }
    let gain: u64 = 700 * (profile.successful_transactions as u64);
    let loss: u64 = 20000 * (profile.disputed_transactions as u64);
    if gain <= loss {
        return 0;
    }
    let raw: u64 = gain - loss;
    let total: u64 = profile.total_transactions as u64;
    let tenths: u64 = (2 * raw + total) / (2 * total);
    tenths as u32
}

/// Aggregate statistics over every registered profile.
#[derive(Debug, Clone, Copy, PartialEq, Eq, Structural)]
pub struct TrustStats {
    pub total_users: usize,
    /// The mean score over all users, in tenths, truncated to a whole
    /// tenth; zero when nobody is registered.
    pub avg_trust_score: u32,
    /// How many users score 80.0 or higher.
    pub high_trust_users: usize,
    pub total_transactions: u128,
}

/// The sum of the stored scores, in tenths.
pub open spec fn sum_scores(profiles: Seq<UserTrustProfile>) -> int
    decreases profiles.len(),
{
    if profiles.len() == 0 {
        0
    } else {
        sum_scores(profiles.drop_last()) + profiles.last().trust_score
    }
}

/// The sum of the transaction counters.
pub open spec fn sum_transactions(profiles: Seq<UserTrustProfile>) -> int
    decreases profiles.len(),
{
    if profiles.len() == 0 {
        0
    } else {
        sum_transactions(profiles.drop_last()) + profiles.last().total_transactions
    }
}

/// How many profiles score 80.0 or higher.
pub open spec fn count_high_trust(profiles: Seq<UserTrustProfile>) -> int
    decreases profiles.len(),
{
    if profiles.len() == 0 {
        0
    } else {
        count_high_trust(profiles.drop_last())
            + if profiles.last().trust_score >= 800 { 1int } else { 0int }
    }
}

/// The registry of trust profiles, one per user, keyed by identifier.
pub struct TrustManager {
    pub profiles: Vec<UserTrustProfile>,
}

impl TrustManager {
    /// Every stored profile is coherent and no two share a user.
    pub open spec fn wf(self) -> bool {
        &&& (forall|i: int, j: int|
            0 <= i < j < self.profiles@.len()
                ==> self.profiles@[i].user_id != self.profiles@[j].user_id)
        &&& (forall|i: int| 0 <= i < self.profiles@.len() ==> self.profiles@[i].wf())
    }

    /// Whether the user has a profile.
    pub open spec fn spec_has_user(self, user_id: u128) -> bool {
        exists|i: int|
            0 <= i < self.profiles@.len() && self.profiles@[i].user_id == user_id
    }

    /// The index of the user's profile (meaningful only when one
    /// exists; under `wf` it is unique).
    pub open spec fn spec_user_index(self, user_id: u128) -> int {
        choose|i: int|
            0 <= i < self.profiles@.len() && self.profiles@[i].user_id == user_id
    }

    /// The user's profile (meaningful only when one exists).
    pub open spec fn spec_profile_of(self, user_id: u128) -> UserTrustProfile {
        self.profiles@[self.spec_user_index(user_id)]
    }

    /// The score the engine reads for a user: the profile's score, or
    /// the neutral 50.0 for a stranger.
    pub open spec fn spec_score_of(self, user_id: u128) -> int {
        if self.spec_has_user(user_id) {
            self.spec_profile_of(user_id).trust_score as int
        } else {
            500
        }
    }

    /// An index found by search is the profile index.
    proof fn lemma_index_unique(self, user_id: u128, i: int)
        requires
            self.wf(),
            0 <= i < self.profiles@.len(),
            self.profiles@[i].user_id == user_id,
        ensures
            self.spec_has_user(user_id),
            self.spec_user_index(user_id) == i,
    {
        assert(self.spec_has_user(user_id));
        let j = self.spec_user_index(user_id);
        assert(0 <= j < self.profiles@.len() && self.profiles@[j].user_id == user_id);
    }

    /// An empty registry.
    pub fn new() -> (m: TrustManager)
        ensures
            m.wf(),
            m.profiles@.len() == 0,
    {
        TrustManager { profiles: Vec::new() }
    }

    /// Where the user's profile sits, if anywhere.
    fn index_of(&self, user_id: u128) -> (r: Option<usize>)
        requires
            self.wf(),
        ensures
            r is Some <==> self.spec_has_user(user_id),
            r matches Some(i) ==> i == self.spec_user_index(user_id)
                && i < self.profiles@.len()
                && self.profiles@[i as int].user_id == user_id,
    {
        let mut i: usize = 0;
        while i < self.profiles.len()
            invariant
                self.wf(),
                i <= self.profiles@.len(),
                forall|k: int| 0 <= k < i ==> self.profiles@[k].user_id != user_id,
            decreases self.profiles@.len() - i,
        {
            if self.profiles[i].user_id == user_id {
                proof {
                    self.lemma_index_unique(user_id, i as int);
                }
                return Some(i);
            }
            i = i + 1;
        }
        None
    }

    /// Registers the user with a fresh neutral profile.  Registration is
    /// idempotent: a user who already has a profile is left exactly as
    /// they are, never reset.
    pub fn register_user(&mut self, user_id: u128, now: i64)
        requires
            old(self).wf(),
        ensures
            final(self).wf(),
            old(self).spec_has_user(user_id) ==> *final(self) == *old(self),
            !old(self).spec_has_user(user_id) ==> final(self).profiles@
                == old(self).profiles@.push(UserTrustProfile::spec_fresh(user_id, now)),
    {
        if self.index_of(user_id).is_some() {
            return;
        }
        self.profiles.push(UserTrustProfile {
            user_id,
            trust_score: NEUTRAL_SCORE_TENTHS,
            total_transactions: 0,
            successful_transactions: 0,
            disputed_transactions: 0,
            total_amount_transacted: 0,
            last_active: now,
            join_date: now,
        });
    }

    /// Whether one more transaction of this size fits in the profile's
    /// counters.
    pub open spec fn can_record(p: UserTrustProfile, amount: u64) -> bool {
        &&& p.total_transactions < u32::MAX
        &&& amount <= u64::MAX - p.total_amount_transacted
    }

    /// The profile after one recorded transaction: counters stepped,
    /// volume added, activity stamped, score recomputed.
    pub open spec fn spec_record_transaction(
        p: UserTrustProfile,
        amount: u64,
        was_successful: bool,
        had_dispute: bool,
        now: i64,
    ) -> UserTrustProfile {
        let total = (p.total_transactions + 1) as u32;
        let successful = (p.successful_transactions + if was_successful { 1int } else { 0int }) as u32;
        let disputed = (p.disputed_transactions + if had_dispute { 1int } else { 0int }) as u32;
        UserTrustProfile {
            user_id: p.user_id,
            trust_score: spec_trust_score(total, successful, disputed) as u32,
            total_transactions: total,
            successful_transactions: successful,
            disputed_transactions: disputed,
            total_amount_transacted: (p.total_amount_transacted + amount) as u64,
            last_active: now,
            join_date: p.join_date,
        }
    }

    /// Records a settled transaction against the user's profile and
    /// returns the recomputed score, in tenths.  An unregistered user is
    /// `NotFound`; counters that can hold no more are a
    /// `ValidationError` and leave the profile untouched.  Every score
    /// this returns, for every possible history, lies in the 0.0 to
    /// 100.0 band — exact to one decimal place and never negative, even
    /// on an all-disputed history.
    pub fn record_transaction(
        &mut self,
        user_id: u128,
        amount: u64,
        was_successful: bool,
        had_dispute: bool,
        now: i64,
    ) -> (r: Result<u32, EscrowError>)
        requires
            old(self).wf(),
        ensures
            final(self).wf(),
            r matches Ok(s) ==> s <= MAX_SCORE_TENTHS,
            !old(self).spec_has_user(user_id) ==> r == Err::<u32, EscrowError>(
                EscrowError::NotFound(user_id)) && *final(self) == *old(self),
            old(self).spec_has_user(user_id) ==> ({
                let p = old(self).spec_profile_of(user_id);
                let i = old(self).spec_user_index(user_id);
                if Self::can_record(p, amount) {
                    let q = Self::spec_record_transaction(p, amount, was_successful,
                        had_dispute, now);
                    &&& final(self).profiles@ == old(self).profiles@.update(i, q)
                    &&& r == Ok::<u32, EscrowError>(q.trust_score)
                } else {
                    &&& *final(self) == *old(self)
                    &&& r is Err && r->Err_0 is ValidationError
                }
            }),
    {
        let i = match self.index_of(user_id) {
            Some(i) => i,
            None => {
                return Err(EscrowError::NotFound(user_id));
            },
        };
        let p = self.profiles[i];
        if p.total_transactions == u32::MAX {
            return Err(EscrowError::ValidationError(String::from_str(
                "transaction counter is full",
            )));
        }
        if amount > u64::MAX - p.total_amount_transacted {
            return Err(EscrowError::ValidationError(String::from_str(
                "lifetime volume counter is full",
            )));
        }
        let mut q = p;
        q.total_transactions = p.total_transactions + 1;
        if was_successful {
            q.successful_transactions = p.successful_transactions + 1;
        }
        if had_dispute {
            q.disputed_transactions = p.disputed_transactions + 1;
        }
        q.total_amount_transacted = p.total_amount_transacted + amount;
        q.last_active = now;
        q.trust_score = calculate_trust_score(&q);
        self.profiles[i] = q;
        Ok(q.trust_score)
    }

    /// The user's profile, if one exists.
    pub fn get_profile(&self, user_id: u128) -> (r: Option<UserTrustProfile>)
        requires
            self.wf(),
        ensures
            r is Some <==> self.spec_has_user(user_id),
            self.spec_has_user(user_id) ==> r == Some(self.spec_profile_of(user_id)),
    {
        match self.index_of(user_id) {
            Some(i) => Some(self.profiles[i]),
            None => None,
        }
    }

    /// The recommended escrow duration, in days, for this buyer and
    /// seller: the four-tier ladder over their average score, with the
    /// neutral score standing in for anyone unregistered.
    pub fn recommended_escrow_duration(&self, buyer_id: u128, seller_id: u128) -> (days: u64)
        requires
            self.wf(),
        ensures
            days == spec_recommended_duration(
                self.spec_score_of(buyer_id),
                self.spec_score_of(seller_id),
            ),
    {
        let buyer_score: u64 = match self.get_profile(buyer_id) {
            Some(p) => p.trust_score as u64,
            None => NEUTRAL_SCORE_TENTHS as u64,
        };
        let seller_score: u64 = match self.get_profile(seller_id) {
            Some(p) => p.trust_score as u64,
            None => NEUTRAL_SCORE_TENTHS as u64,
        };
        let sum = buyer_score + seller_score;
        if sum >= 1800 {
            1
        } else if sum >= 1400 {
            3
        } else if sum >= 1000 {
            7
        } else {
            14
        }
    }

    /// Aggregate statistics over the registry: user count, mean score,
    /// high-trust population, and total recorded transactions.
    pub fn export_stats(&self) -> (stats: TrustStats)
        requires
            self.wf(),
        ensures
            stats.total_users == self.profiles@.len(),
            self.profiles@.len() == 0 ==> stats.avg_trust_score == 0,
            self.profiles@.len() > 0 ==> stats.avg_trust_score
                == sum_scores(self.profiles@) / (self.profiles@.len() as int),
            stats.high_trust_users == count_high_trust(self.profiles@),
            stats.total_transactions == sum_transactions(self.profiles@),
    {
        let n = self.profiles.len();
        let mut scores: u128 = 0;
        let mut transactions: u128 = 0;
        let mut high: usize = 0;
        let mut i: usize = 0;
        while i < n
            invariant
                self.wf(),
                n == self.profiles@.len(),
                i <= n,
                scores == sum_scores(self.profiles@.take(i as int)),
                scores <= 1000 * (i as int),
                transactions == sum_transactions(self.profiles@.take(i as int)),
                transactions <= 0x1_0000_0000u128 * (i as u128),
                high == count_high_trust(self.profiles@.take(i as int)),
                high <= i,
            decreases n - i,
        {
            let p = self.profiles[i];
            proof {
                assert(self.profiles@.take(i as int + 1).drop_last()
                    =~= self.profiles@.take(i as int));
                assert(self.profiles@.take(i as int + 1).last() == self.profiles@[i as int]);
            }
            scores = scores + p.trust_score as u128;
            transactions = transactions + p.total_transactions as u128;
            if p.trust_score >= 800 {
                high = high + 1;
            }
            i = i + 1;
        }
        proof {
            assert(self.profiles@.take(n as int) =~= self.profiles@);
        }
        let avg: u32 = if n == 0 {
            0
        } else {
            proof {
                lemma_sum_scores_bounds(self.profiles@);
                lemma_div_is_ordered(sum_scores(self.profiles@), 1000 * (n as int), n as int);
                assert(1000 * (n as int) / (n as int) == 1000) by {
                    lemma_div_multiples_vanish(1000, n as int);
                    assert((n as int) * 1000 == 1000 * (n as int));
                }
                lemma_div_is_ordered(0, sum_scores(self.profiles@), n as int);
            }
            (scores / (n as u128)) as u32
        };
        TrustStats {
            total_users: n,
            avg_trust_score: avg,
            high_trust_users: high,
            total_transactions: transactions,
        }
    }
}

/// The score sum of coherent profiles stays under 1000 per head.
pub proof fn lemma_sum_scores_bounds(profiles: Seq<UserTrustProfile>)
    requires
        forall|i: int| 0 <= i < profiles.len() ==> profiles[i].wf(),
    ensures
        0 <= sum_scores(profiles) <= 1000 * profiles.len(),
    decreases profiles.len(),
{
    if profiles.len() > 0 {
        assert(forall|i: int| 0 <= i < profiles.drop_last().len()
            ==> profiles.drop_last()[i] == profiles[i]);
        lemma_sum_scores_bounds(profiles.drop_last());
    }
}

} // verus!
