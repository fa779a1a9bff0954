//! Trust scoring: registration, the scoring formula, tier bands,
//! recommended durations and aggregate statistics.

use spaza_safety_escrow::errors::EscrowError;
use spaza_safety_escrow::trust::{
    calculate_trust_score, TrustLevel, TrustManager, UserTrustProfile,
};

const NOW: i64 = 1_700_000_000;
const ALICE: u128 = 1;
const BOB: u128 = 2;

fn profile_with_score(user_id: u128, tenths: u32) -> UserTrustProfile {
    UserTrustProfile {
        user_id,
        trust_score: tenths,
        total_transactions: 0,
        successful_transactions: 0,
        disputed_transactions: 0,
        total_amount_transacted: 0,
        last_active: NOW,
        join_date: NOW,
    }
}

#[test]
fn registration_starts_neutral() {
    let mut m = TrustManager::new();
    m.register_user(ALICE, NOW);
    let p = m.get_profile(ALICE).unwrap();
    assert_eq!(p.user_id, ALICE);
    assert_eq!(p.trust_score, 500); // 50.0
    assert_eq!(p.total_transactions, 0);
    assert_eq!(p.join_date, NOW);
    assert_eq!(m.get_profile(BOB), None);
}

#[test]
fn registering_again_never_resets_history() {
    let mut m = TrustManager::new();
    m.register_user(ALICE, NOW);
    m.record_transaction(ALICE, 10_000, true, false, NOW + 100).unwrap();
    let before = m.get_profile(ALICE).unwrap();
    m.register_user(ALICE, NOW + 200);
    assert_eq!(m.get_profile(ALICE).unwrap(), before);
}

#[test]
fn recording_against_a_stranger_is_not_found() {
    let mut m = TrustManager::new();
    let r = m.record_transaction(ALICE, 10_000, true, false, NOW);
    assert_eq!(r, Err(EscrowError::NotFound(ALICE)));
}

#[test]
fn one_clean_transaction_scores_seventy() {
    // success rate 100%: 100 * 0.7 = 70.0
    let mut m = TrustManager::new();
    m.register_user(ALICE, NOW);
    let r = m.record_transaction(ALICE, 10_000, true, false, NOW + 100);
    assert_eq!(r, Ok(700));
    let p = m.get_profile(ALICE).unwrap();
    assert_eq!(p.trust_score, 700);
    assert_eq!(p.total_transactions, 1);
    assert_eq!(p.successful_transactions, 1);
    assert_eq!(p.disputed_transactions, 0);
    assert_eq!(p.total_amount_transacted, 10_000);
    assert_eq!(p.last_active, NOW + 100);
}

#[test]
fn two_successes_of_three_round_to_the_nearest_tenth() {
    // success rate 66.666..%: * 0.7 = 46.666.. -> 46.7
    let mut m = TrustManager::new();
    m.register_user(ALICE, NOW);
    m.record_transaction(ALICE, 100, true, false, NOW + 1).unwrap();
    m.record_transaction(ALICE, 100, true, false, NOW + 2).unwrap();
    let r = m.record_transaction(ALICE, 100, false, false, NOW + 3);
    assert_eq!(r, Ok(467));
}

#[test]
fn disputes_floor_the_score_at_zero() {
    // dispute rate 100%: 70 - 2000 floors at 0.0, never negative
    let mut m = TrustManager::new();
    m.register_user(ALICE, NOW);
    let r = m.record_transaction(ALICE, 100, false, true, NOW + 1);
    assert_eq!(r, Ok(0));
    // even a successful but disputed history stays at the floor
    let r = m.record_transaction(ALICE, 100, true, true, NOW + 2);
    assert_eq!(r, Ok(0));
}

#[test]
fn scores_stay_inside_the_band_for_assorted_histories() {
    let histories: Vec<(u32, u32, u32)> = vec![
        (0, 0, 0),
        (1, 1, 0),
        (1, 0, 0),
        (1, 0, 1),
        (10, 9, 1),
        (100, 100, 0),
        (100, 0, 100),
        (1000, 999, 1),
        (u32::MAX, u32::MAX, 0),
        (u32::MAX, 0, u32::MAX),
    ];
    for (total, successful, disputed) in histories {
        let p = UserTrustProfile {
            user_id: ALICE,
            trust_score: 0,
            total_transactions: total,
            successful_transactions: successful,
            disputed_transactions: disputed,
            total_amount_transacted: 0,
            last_active: NOW,
            join_date: NOW,
        };
        let score = calculate_trust_score(&p);
        assert!(score <= 1000);
        if total == 0 {
            assert_eq!(score, 500);
        }
    }
}

#[test]
fn volume_counter_rejects_an_overflowing_amount() {
    let mut m = TrustManager::new();
    m.register_user(ALICE, NOW);
    m.record_transaction(ALICE, u64::MAX, true, false, NOW + 1).unwrap();
    let before = m.get_profile(ALICE).unwrap();
    let r = m.record_transaction(ALICE, 1, true, false, NOW + 2);
    assert!(matches!(r, Err(EscrowError::ValidationError(_))));
    assert_eq!(m.get_profile(ALICE).unwrap(), before);
}

#[test]
fn tier_boundaries_belong_to_the_higher_band() {
    let cases: Vec<(u32, TrustLevel)> = vec![
        (0, TrustLevel::Newbie),
        (299, TrustLevel::Newbie),
        (300, TrustLevel::Bronze), // 30.0 is Bronze, not Newbie
        (599, TrustLevel::Bronze),
        (600, TrustLevel::Silver),
        (799, TrustLevel::Silver),
        (800, TrustLevel::Gold),
        (899, TrustLevel::Gold),
        (900, TrustLevel::Platinum),
        (959, TrustLevel::Platinum),
        (960, TrustLevel::Trusted),
        (1000, TrustLevel::Trusted),
    ];
    for (tenths, level) in cases {
        assert_eq!(profile_with_score(ALICE, tenths).get_trust_level(), level);
    }
}

#[test]
fn duration_ladder_follows_the_average_score() {
    let cases: Vec<(u32, u32, u64)> = vec![
        (900, 900, 1),  // average 90.0
        (1000, 800, 1), // average 90.0 reached as a mix
        (900, 899, 3),  // just under 90.0
        (700, 700, 3),  // average 70.0
        (700, 699, 7),  // just under 70.0
        (500, 500, 7),  // average 50.0
        (500, 499, 14), // just under 50.0
        (0, 0, 14),
    ];
    for (buyer_tenths, seller_tenths, days) in cases {
        let m = TrustManager {
            profiles: vec![
                profile_with_score(ALICE, buyer_tenths),
                profile_with_score(BOB, seller_tenths),
            ],
        };
        assert_eq!(m.recommended_escrow_duration(ALICE, BOB), days);
    }
}

#[test]
fn duration_never_grows_with_trust() {
    // the four bands, from least to most trusted, recommend
    // non-increasing durations
    let m = TrustManager::new();
    let strangers = m.recommended_escrow_duration(ALICE, BOB);
    assert_eq!(strangers, 7); // two neutral 50.0 scores
    let bands: Vec<u64> = vec![14, 7, 3, 1];
    for pair in bands.windows(2) {
        assert!(pair[1] <= pair[0]);
    }
}

#[test]
fn stats_aggregate_the_registry() {
    let mut m = TrustManager::new();
    let empty = m.export_stats();
    assert_eq!(empty.total_users, 0);
    assert_eq!(empty.avg_trust_score, 0);
    assert_eq!(empty.high_trust_users, 0);
    assert_eq!(empty.total_transactions, 0);

    m.register_user(ALICE, NOW);
    m.register_user(BOB, NOW);
    m.record_transaction(ALICE, 100, true, false, NOW + 1).unwrap(); // 700
    let stats = m.export_stats();
    assert_eq!(stats.total_users, 2);
    assert_eq!(stats.avg_trust_score, 600); // (700 + 500) / 2
    assert_eq!(stats.high_trust_users, 0);
    assert_eq!(stats.total_transactions, 1);

    let high = TrustManager {
        profiles: vec![profile_with_score(ALICE, 800), profile_with_score(BOB, 950)],
    };
    assert_eq!(high.export_stats().high_trust_users, 2);
}
