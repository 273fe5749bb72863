use givefi::bytes::{all_zero, low_u64_le};
use givefi::error::GivefiError;
use givefi::identity::Identity;
use givefi::lifecycle::{
    create_giveaway, end_raffle_early, enter_giveaway_give, enter_giveaway_sol,
    initialize_program, request_randomness,
};
use givefi::randomness::{
    build_weak_seed, draw_from, draw_winner, draw_winner_fallback, latest_slot_hash, select_index,
    settle_randomness_and_pick_winner, RandomnessSource,
};
use givefi::settlement::{claim_jackpot, claim_prize, claim_refund, share};
use givefi::state::{Giveaway, GiveawayEntry, PaymentType, ProgramState};

fn who(n: u8) -> Identity {
    Identity::new([n; 32])
}

const START: i64 = 1_000;
const END: i64 = 2_000;

fn try_make(
    ps: &mut ProgramState,
    cost_sol: u64,
    max_entries: u64,
    min_participants: u64,
    description: &str,
    end: i64,
) -> Result<Giveaway, GivefiError> {
    create_giveaway(
        ps,
        who(100),
        11,
        cost_sol,
        Some(3),
        max_entries,
        min_participants,
        String::from(description),
        end,
        true,
        true,
        START,
    )
}

fn open_giveaway(min_participants: u64) -> (ProgramState, Giveaway) {
    let mut ps = initialize_program(who(200), who(201));
    let g = try_make(&mut ps, 10, 10, min_participants, "prize", END).unwrap();
    (ps, g)
}

fn entries(g: &mut Giveaway, n: u8) -> Vec<GiveawayEntry> {
    (0..n).map(|i| enter_giveaway_sol(g, who(i + 1), START).unwrap()).collect()
}

#[test]
fn create_counts_giveaways_and_starts_empty() {
    let mut ps = initialize_program(who(200), who(201));
    assert_eq!(ps.total_giveaways, 0);
    let g = try_make(&mut ps, 10, 10, 2, "prize", END).unwrap();
    assert_eq!(ps.total_giveaways, 1);
    assert!(g.is_active);
    assert_eq!(g.current_entries, 0);
    assert_eq!(g.sol_vault, 0);
    assert_eq!(g.give_vault, 0);
    assert!(g.winner.is_none());
    assert!(!g.randomness_requested);
}

#[test]
fn create_rejects_each_bad_configuration() {
    let mut ps = initialize_program(who(200), who(201));
    assert_eq!(try_make(&mut ps, 10, 10, 2, "p", START).unwrap_err(), GivefiError::InvalidEndTime);
    assert_eq!(try_make(&mut ps, 0, 10, 2, "p", END).unwrap_err(), GivefiError::InvalidEntryPrice);
    assert_eq!(try_make(&mut ps, 10, 0, 0, "p", END).unwrap_err(), GivefiError::InvalidMaxEntries);
    assert_eq!(
        try_make(&mut ps, 10, 10, 0, "p", END).unwrap_err(),
        GivefiError::InvalidMinParticipants
    );
    assert_eq!(
        try_make(&mut ps, 10, 10, 11, "p", END).unwrap_err(),
        GivefiError::InvalidMinParticipants
    );
    let long = "x".repeat(101);
    assert_eq!(
        try_make(&mut ps, 10, 10, 2, &long, END).unwrap_err(),
        GivefiError::DescriptionTooLong
    );
    // 34 three-byte characters: 102 bytes, though only 34 characters.
    let wide = "\u{20ac}".repeat(34);
    assert_eq!(
        try_make(&mut ps, 10, 10, 2, &wide, END).unwrap_err(),
        GivefiError::DescriptionTooLong
    );
    assert_eq!(ps.total_giveaways, 0);
    let exact = "x".repeat(100);
    assert!(try_make(&mut ps, 10, 10, 10, &exact, END).is_ok());
    assert_eq!(ps.total_giveaways, 1);
}

#[test]
fn fund_conservation_over_mixed_entries() {
    let (_ps, mut g) = open_giveaway(2);
    for i in 0..4u8 {
        enter_giveaway_sol(&mut g, who(i), START).unwrap();
        enter_giveaway_give(&mut g, who(i + 50), START).unwrap();
        assert_eq!(g.sol_vault, 10 * g.sol_entries as u128);
        assert_eq!(g.give_vault, 3 * g.give_entries as u128);
        assert_eq!(g.sol_entries + g.give_entries, g.current_entries);
    }
    let e = enter_giveaway_give(&mut g, who(9), START + 1).unwrap();
    assert_eq!(e.entry_number, 8);
    assert_eq!(e.payment_type, PaymentType::Give);
    assert!(!e.claimed);
    draw_winner(&mut g, END).unwrap();
    assert_eq!(g.sol_vault, 40);
    assert_eq!(g.give_vault, 15);
}

#[test]
fn token_entry_refused_without_token_fee() {
    let mut ps = initialize_program(who(200), who(201));
    let mut g = create_giveaway(
        &mut ps, who(100), 1, 10, None, 5, 1, String::new(), END, false, false, START,
    )
    .unwrap();
    assert_eq!(
        enter_giveaway_give(&mut g, who(1), START).unwrap_err(),
        GivefiError::GiveTokensNotAccepted
    );
    assert_eq!(g.current_entries, 0);
    assert_eq!(g.give_vault, 0);
}

#[test]
fn entries_refused_once_concluded() {
    let (_ps, mut g) = open_giveaway(1);
    entries(&mut g, 1);
    draw_winner(&mut g, END).unwrap();
    assert_eq!(
        enter_giveaway_sol(&mut g, who(7), START).unwrap_err(),
        GivefiError::GiveawayNotActive
    );
}

#[test]
fn winner_is_set_once_across_tiers() {
    let (_ps, mut g) = open_giveaway(1);
    entries(&mut g, 4);
    draw_winner(&mut g, END).unwrap();
    let w = g.winner;
    assert!(w.is_some());
    assert_eq!(draw_winner(&mut g, END + 1), Err(GivefiError::WinnerAlreadyDrawn));
    assert_eq!(
        draw_winner_fallback(&mut g, END + 7_200, Some([1u8; 32])),
        Err(GivefiError::WinnerAlreadyDrawn)
    );
    let mut r = [0u8; 32];
    r[3] = 1;
    assert_eq!(
        settle_randomness_and_pick_winner(&mut g, &r),
        Err(GivefiError::WinnerAlreadyDrawn)
    );
    assert_eq!(g.winner, w);
}

#[test]
fn failed_draw_is_final() {
    let (_ps, mut g) = open_giveaway(3);
    entries(&mut g, 1);
    draw_winner(&mut g, END).unwrap();
    assert_eq!(draw_winner(&mut g, END + 1), Err(GivefiError::GiveawayNotActive));
    assert_eq!(request_randomness(&mut g, END + 1), Err(GivefiError::GiveawayNotActive));
    assert!(g.winner.is_none());
}

#[test]
fn prize_and_jackpot_exclude_each_other() {
    let (ps, mut g) = open_giveaway(1);
    let mut es = entries(&mut g, 3);
    draw_winner(&mut g, END).unwrap();
    let w = g.winner.unwrap() as usize;
    let user = es[w].user;
    let mut copy = es[w];
    claim_prize(&mut g, &mut es[w], &user).unwrap();
    assert_eq!(
        claim_jackpot(&mut g, &mut copy, &ps, &user, &who(100)).unwrap_err(),
        GivefiError::PrizeAlreadyClaimed
    );
    assert_eq!(claim_prize(&mut g, &mut copy, &user).unwrap_err(), GivefiError::PrizeAlreadyClaimed);
    assert!(g.prize_claimed && !g.jackpot_claimed);
    assert!(!copy.claimed);
}

#[test]
fn jackpot_then_prize_refused() {
    let (ps, mut g) = open_giveaway(1);
    let mut es = entries(&mut g, 2);
    draw_winner(&mut g, END).unwrap();
    let w = g.winner.unwrap() as usize;
    let user = es[w].user;
    let mut copy = es[w];
    claim_jackpot(&mut g, &mut es[w], &ps, &user, &who(100)).unwrap();
    assert_eq!(claim_prize(&mut g, &mut copy, &user).unwrap_err(), GivefiError::PrizeAlreadyClaimed);
    assert!(g.jackpot_claimed && !g.prize_claimed);
}

#[test]
fn claims_check_winner_owner_and_state() {
    let (ps, mut g) = open_giveaway(1);
    let mut es = entries(&mut g, 3);
    let user0 = es[0].user;
    assert_eq!(
        claim_prize(&mut g, &mut es[0], &user0).unwrap_err(),
        GivefiError::GiveawayStillActive
    );
    draw_winner(&mut g, END).unwrap();
    let w = g.winner.unwrap() as usize;
    let loser = (w + 1) % 3;
    let loser_user = es[loser].user;
    assert_eq!(
        claim_prize(&mut g, &mut es[loser], &loser_user).unwrap_err(),
        GivefiError::NotWinner
    );
    assert_eq!(
        claim_prize(&mut g, &mut es[w], &loser_user).unwrap_err(),
        GivefiError::UnauthorizedClaim
    );
    let user = es[w].user;
    assert_eq!(
        claim_jackpot(&mut g, &mut es[w], &ps, &user, &who(99)).unwrap_err(),
        GivefiError::InvalidOwner
    );
    let mut claimed = es[w];
    claimed.claimed = true;
    assert_eq!(
        claim_prize(&mut g, &mut claimed, &user).unwrap_err(),
        GivefiError::PrizeAlreadyClaimed
    );
    assert_eq!(g.sol_vault, 30);
    assert!(!g.prize_claimed);
}

#[test]
fn jackpot_needs_the_option() {
    let mut ps = initialize_program(who(200), who(201));
    let mut g = create_giveaway(
        &mut ps, who(100), 1, 10, None, 5, 1, String::new(), END, false, false, START,
    )
    .unwrap();
    let mut es = entries(&mut g, 1);
    draw_winner(&mut g, END).unwrap();
    let user = es[0].user;
    assert_eq!(
        claim_jackpot(&mut g, &mut es[0], &ps, &user, &who(100)).unwrap_err(),
        GivefiError::JackpotNotEnabled
    );
}

#[test]
fn refunds_only_on_failure_prizes_only_on_success() {
    let (_ps, mut ok) = open_giveaway(1);
    let mut es = entries(&mut ok, 2);
    draw_winner(&mut ok, END).unwrap();
    let user = es[0].user;
    assert_eq!(
        claim_refund(&mut ok, &mut es[0], &user).unwrap_err(),
        GivefiError::GiveawayWasSuccessful
    );

    let (_ps2, mut failed) = open_giveaway(5);
    let mut fs = entries(&mut failed, 2);
    let u = fs[0].user;
    assert_eq!(
        claim_refund(&mut failed, &mut fs[0], &u).unwrap_err(),
        GivefiError::GiveawayStillActive
    );
    draw_winner(&mut failed, END).unwrap();
    assert_eq!(
        claim_prize(&mut failed, &mut fs[0], &u).unwrap_err(),
        GivefiError::GiveawayNotSuccessful
    );
    let other = fs[1].user;
    assert_eq!(
        claim_refund(&mut failed, &mut fs[0], &other).unwrap_err(),
        GivefiError::UnauthorizedClaim
    );
    let mut copy = fs[0];
    claim_refund(&mut failed, &mut fs[0], &u).unwrap();
    assert_eq!(
        claim_refund(&mut failed, &mut fs[0], &u).unwrap_err(),
        GivefiError::PrizeAlreadyClaimed
    );
    claim_refund(&mut failed, &mut fs[1], &other).unwrap();
    assert_eq!(failed.sol_vault, 0);
    assert_eq!(
        claim_refund(&mut failed, &mut copy, &u).unwrap_err(),
        GivefiError::InsufficientVaultFunds
    );
}

#[test]
fn token_refund_pays_token_fee() {
    let (_ps, mut g) = open_giveaway(4);
    let mut e = enter_giveaway_give(&mut g, who(5), START).unwrap();
    draw_winner(&mut g, END).unwrap();
    let p = claim_refund(&mut g, &mut e, &who(5)).unwrap();
    assert_eq!((p.asset, p.amount), (PaymentType::Give, 3));
    assert_eq!(g.give_vault, 0);
}

#[test]
fn early_close_rules() {
    let (_ps, mut g) = open_giveaway(2);
    entries(&mut g, 1);
    assert_eq!(
        end_raffle_early(&mut g, &who(100), START),
        Err(GivefiError::MinParticipantsNotMet)
    );
    entries(&mut g, 1);
    assert_eq!(end_raffle_early(&mut g, &who(1), START), Err(GivefiError::UnauthorizedEarlyEnd));
    assert_eq!(end_raffle_early(&mut g, &who(100), END), Err(GivefiError::GiveawayAlreadyEnded));
    assert_eq!(end_raffle_early(&mut g, &who(100), START + 500), Ok(()));
    assert_eq!(g.end_timestamp, START + 500);
    assert_eq!(
        enter_giveaway_sol(&mut g, who(3), START + 500).unwrap_err(),
        GivefiError::GiveawayEnded
    );
    assert_eq!(draw_winner(&mut g, START + 500), Ok(()));

    let mut ps = initialize_program(who(200), who(201));
    let mut h = create_giveaway(
        &mut ps, who(100), 1, 10, None, 5, 1, String::new(), END, false, false, START,
    )
    .unwrap();
    entries(&mut h, 1);
    assert_eq!(end_raffle_early(&mut h, &who(100), START), Err(GivefiError::EarlyEndNotEnabled));
}

#[test]
fn draw_and_request_wait_for_deadline() {
    let (_ps, mut g) = open_giveaway(2);
    entries(&mut g, 1);
    assert_eq!(draw_winner(&mut g, END - 1), Err(GivefiError::GiveawayNotEnded));
    assert_eq!(request_randomness(&mut g, END - 1), Err(GivefiError::GiveawayNotEnded));
    assert_eq!(request_randomness(&mut g, END), Err(GivefiError::MinParticipantsNotMet));
    assert_eq!(
        settle_randomness_and_pick_winner(&mut g, &[1u8; 32]),
        Err(GivefiError::RandomnessNotRequested)
    );
    assert!(g.is_active);
}

#[test]
fn fallback_waits_an_hour_and_needs_a_hash() {
    let (_ps, mut g) = open_giveaway(2);
    entries(&mut g, 3);
    assert_eq!(
        draw_winner_fallback(&mut g, END + 3_599, Some([1u8; 32])),
        Err(GivefiError::FallbackTooEarly)
    );
    assert_eq!(
        draw_winner_fallback(&mut g, END + 3_600, None),
        Err(GivefiError::SlotHashUnavailable)
    );
    assert!(g.is_active);
    let mut hash = [0xffu8; 32];
    hash[0] = 10;
    hash[1] = 0;
    hash[2] = 0;
    hash[3] = 0;
    hash[4] = 0;
    hash[5] = 0;
    hash[6] = 0;
    hash[7] = 0;
    assert_eq!(draw_winner_fallback(&mut g, END + 3_600, Some(hash)), Ok(()));
    assert_eq!(g.winner, Some(1));
    assert!(g.is_successful);
}

#[test]
fn fallback_on_thin_pool_fails_without_hash() {
    let (_ps, mut g) = open_giveaway(5);
    entries(&mut g, 2);
    assert_eq!(draw_winner_fallback(&mut g, END + 4_000, None), Ok(()));
    assert!(!g.is_successful);
    assert!(!g.is_active);
    assert!(g.winner.is_none());
}

#[test]
fn byte_helpers_exact_values() {
    let mut b = [0u8; 32];
    b[0] = 1;
    b[1] = 2;
    b[7] = 0x80;
    b[8] = 0xff;
    assert_eq!(low_u64_le(&b), 0x8000_0000_0000_0201);
    assert!(!all_zero(&b));
    assert!(all_zero(&[0u8; 32]));
    assert!(all_zero(&[]));
    assert_eq!(select_index(17, 5), 2);
    assert_eq!(select_index(u64::MAX, 10), 5);
}

#[test]
fn weak_seed_layout() {
    let mut org = [0u8; 32];
    for (i, b) in org.iter_mut().enumerate() {
        *b = i as u8 + 1;
    }
    let seed = build_weak_seed(0x0102, -1, 5, &Identity::new(org));
    assert_eq!(seed.len(), 32);
    assert_eq!(&seed[0..8], &[2, 1, 0, 0, 0, 0, 0, 0]);
    assert_eq!(&seed[8..16], &[0xff; 8]);
    assert_eq!(&seed[16..24], &[5, 0, 0, 0, 0, 0, 0, 0]);
    assert_eq!(&seed[24..32], &[1, 2, 3, 4, 5, 6, 7, 8]);
}

#[test]
fn share_rounds_down_without_overflow() {
    assert_eq!(share(100, 33), 33);
    assert_eq!(share(100, 60), 60);
    assert_eq!(share(100, 7), 7);
    assert_eq!(share(99, 33), 32);
    assert_eq!(share(0, 60), 0);
    assert_eq!(share(u128::MAX, 60), 204169420152563078078024764459060926873);
    assert_eq!(share(u128::MAX, 33), 112293181083909692942913620452483509780);
    assert_eq!(share(u128::MAX, 100), u128::MAX);
}

#[test]
fn identity_comparison() {
    assert!(who(3).same_as(&who(3)));
    let mut b = [3u8; 32];
    b[31] = 4;
    assert!(!who(3).same_as(&Identity::new(b)));
}

#[test]
fn error_messages() {
    assert_eq!(GivefiError::WinnerAlreadyDrawn.message(), "Winner already drawn");
    assert_eq!(GivefiError::NoEntries.message(), "No entries in giveaway");
    assert_eq!(GivefiError::NoWinnerDrawn.message(), "No winner drawn yet");
}

#[test]
fn slot_hash_record_reading() {
    let mut data = vec![0u8; 56];
    assert_eq!(latest_slot_hash(&data), None);
    data[0] = 2;
    for i in 0..32 {
        data[16 + i] = i as u8 + 1;
    }
    let h = latest_slot_hash(&data).unwrap();
    assert_eq!(h[0], 1);
    assert_eq!(h[31], 32);
    assert_eq!(latest_slot_hash(&data[..47]), None);
}

#[test]
fn well_formed_records() {
    let (_ps, mut g) = open_giveaway(1);
    assert!(g.is_well_formed());
    entries(&mut g, 2);
    assert!(g.is_well_formed());
    let mut bad = g.clone();
    bad.sol_vault = 1;
    assert!(!bad.is_well_formed());
    let mut bad2 = g.clone();
    bad2.current_entries = 3;
    assert!(!bad2.is_well_formed());
}

#[test]
fn draw_from_dispatches_to_each_tier() {
    let (_ps, mut a) = open_giveaway(1);
    entries(&mut a, 3);
    assert_eq!(draw_from(&mut a, &RandomnessSource::Immediate { now: END }), Ok(()));
    // Giveaway id 11: 11 mod 3.
    assert_eq!(a.winner, Some(2));

    let (_ps, mut b) = open_giveaway(1);
    entries(&mut b, 3);
    let mut out = [0u8; 32];
    out[0] = 4;
    assert_eq!(
        draw_from(&mut b, &RandomnessSource::Oracle { vrf_result: out }),
        Err(GivefiError::RandomnessNotRequested)
    );
    request_randomness(&mut b, END).unwrap();
    assert_eq!(draw_from(&mut b, &RandomnessSource::Oracle { vrf_result: out }), Ok(()));
    assert_eq!(b.winner, Some(1));

    let (_ps, mut c) = open_giveaway(1);
    entries(&mut c, 3);
    let src = RandomnessSource::BlockHash { now: END + 3_600, block_hash: Some([0u8; 32]) };
    assert_eq!(draw_from(&mut c, &src), Ok(()));
    assert_eq!(c.winner, Some(0));
}
