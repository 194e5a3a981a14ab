use cosmwasm_std::StdError;
use lottery::contract::{
    draw_winner, execute_join_lottery, execute_select_winner, execute_start_new_round,
    execute_update_cooldown_period, execute_update_entries, execute_update_entry_fee,
    execute_update_owner, execute_update_pause_status, execute_update_round_duration,
    instantiate, join_fits, payout_winner, query_current_round_info, query_round_info,
    winner_from_draw,
};
use lottery::error::LotteryError;
use lottery::helpers::{
    calculate_entry_halves, is_round_over, tally_nft_tokens, validate_lottery_active,
};
use lottery::msg::{InstantiateMsg, JoinLotteryMsg};
use lottery::state::{LotteryState, NANOS_PER_SECOND};

const SEC: u64 = NANOS_PER_SECOND;

fn owner() -> String {
    "owner".to_string()
}

/// A lottery of 100 s rounds and 60 s cool-down, whose only round started at 10 s.
fn running_lottery() -> LotteryState {
    let mut s = LotteryState::new(100, 60, 80, 10, owner(), false);
    s.start_new_round(10 * SEC);
    s
}

fn join_msg(tickets: u32) -> JoinLotteryMsg {
    JoinLotteryMsg { sender: "alice".to_string(), number_of_tickets: tickets, round_entered_time: 15 * SEC }
}

#[test]
fn instantiate_starts_unpaused_without_rounds() {
    let msg = InstantiateMsg {
        round_duration: 100,
        cooldown_period: 60,
        win_percentage: 80,
        entry_fee: 10,
        pause_status: true,
        nois_proxy: "proxy".to_string(),
    };
    let s = instantiate(msg.clone(), owner(), true).unwrap();
    assert!(!s.pause_status);
    assert!(s.rounds.is_empty());
    assert_eq!(s.owner, "owner");
    assert_eq!(s.entry_fee, 10);
    assert_eq!(instantiate(msg, owner(), false).unwrap_err(), LotteryError::InvalidProxyAddress {});
}

#[test]
fn only_the_owner_starts_rounds() {
    let mut s = running_lottery();
    assert_eq!(
        execute_start_new_round(&mut s, &"mallory".to_string(), 20 * SEC),
        Err(LotteryError::Unauthorized { sender: "mallory".to_string() })
    );
    assert_eq!(s.rounds.len(), 1);
    assert_eq!(execute_start_new_round(&mut s, &owner(), 20 * SEC), Ok(()));
    assert_eq!(s.rounds.len(), 2);
    assert_eq!(s.rounds[1].round_number, 2);
    assert_eq!(s.rounds[1].round_start_time, 20 * SEC);
}

#[test]
fn rounds_start_only_while_active() {
    let mut empty = LotteryState::new(100, 60, 80, 10, owner(), false);
    assert_eq!(execute_start_new_round(&mut empty, &owner(), 0), Err(LotteryError::NotActive {}));
    assert!(empty.rounds.is_empty());
    let mut s = running_lottery();
    assert_eq!(execute_start_new_round(&mut s, &owner(), 200 * SEC), Err(LotteryError::NotActive {}));
    assert_eq!(s.rounds.len(), 1);
}

/// The entries and participant slots that the multiplier in floating point gives.
fn float_join(nft_count: u32, tickets: u32) -> (u32, u32) {
    let multiplier: f64 = match nft_count {
        1 => 1.5,
        2 => 2.0,
        3 => 2.5,
        _ => 1.0,
    };
    let total = multiplier * tickets as f64;
    (total as u32, total.ceil() as u32)
}

#[test]
fn join_computes_entries_like_the_float_multiplier() {
    for nft_count in 0..5u32 {
        for tickets in [0u32, 1, 2, 3, 7, 100] {
            let mut s = running_lottery();
            let funds = vec![10u128 * tickets as u128];
            let out = execute_join_lottery(&mut s, &"alice".to_string(), 50 * SEC, &join_msg(tickets), nft_count, &funds)
                .unwrap();
            let (entries, slots) = float_join(nft_count, tickets);
            let round = s.current_round().unwrap();
            assert_eq!(round.current_entries, entries);
            assert_eq!(round.participants.len() as u32, slots);
            assert!(round.participants.iter().all(|p| p == "alice"));
            assert_eq!(out.current_entries, entries);
            assert_eq!(out.round_number, 1);
            assert_eq!(out.total_deduction, 10 * tickets as u128);
        }
    }
}

#[test]
fn join_is_stored_in_the_current_round() {
    let mut s = running_lottery();
    let out = execute_join_lottery(&mut s, &"alice".to_string(), 50 * SEC, &join_msg(2), 0, &vec![20]).unwrap();
    assert_eq!(out.current_entries, 2);
    assert_eq!(s.rounds[0].participants, vec!["alice".to_string(), "alice".to_string()]);
    assert_eq!(s.rounds[0].current_entries, 2);
    execute_join_lottery(&mut s, &"bob".to_string(), 60 * SEC, &join_msg(1), 2, &vec![10]).unwrap();
    assert_eq!(s.rounds[0].participants.len(), 4);
    assert_eq!(s.rounds[0].participants[2], "bob");
    assert_eq!(s.rounds[0].current_entries, 4);
}

#[test]
fn join_with_one_nft_and_three_tickets() {
    let mut s = running_lottery();
    let out = execute_join_lottery(&mut s, &"bob".to_string(), 50 * SEC, &join_msg(3), 1, &vec![30]).unwrap();
    assert_eq!(out.current_entries, 4);
    assert_eq!(s.rounds[0].participants.len(), 5);
    assert_eq!(out.total_deduction, 30);
}

#[test]
fn join_needs_exact_one_coin_covering_the_price() {
    let mut s = running_lottery();
    let alice = "alice".to_string();
    assert_eq!(
        execute_join_lottery(&mut s, &alice, 50 * SEC, &join_msg(2), 0, &vec![19]).unwrap_err(),
        LotteryError::InsufficientFunds {}
    );
    assert_eq!(
        execute_join_lottery(&mut s, &alice, 50 * SEC, &join_msg(2), 0, &vec![]).unwrap_err(),
        LotteryError::InsufficientFunds {}
    );
    assert_eq!(
        execute_join_lottery(&mut s, &alice, 50 * SEC, &join_msg(2), 0, &vec![20, 20]).unwrap_err(),
        LotteryError::InsufficientFunds {}
    );
    assert!(s.rounds[0].participants.is_empty());
    assert_eq!(s.rounds[0].current_entries, 0);
    assert!(execute_join_lottery(&mut s, &alice, 50 * SEC, &join_msg(2), 0, &vec![25]).is_ok());
}

#[test]
fn join_refused_when_not_active() {
    let mut s = running_lottery();
    assert_eq!(
        execute_join_lottery(&mut s, &"alice".to_string(), 111 * SEC, &join_msg(1), 0, &vec![10]).unwrap_err(),
        LotteryError::NotActive {}
    );
    assert!(s.rounds[0].participants.is_empty());
    let mut empty = LotteryState::new(100, 60, 80, 10, owner(), false);
    assert_eq!(
        execute_join_lottery(&mut empty, &"alice".to_string(), 0, &join_msg(1), 0, &vec![10]).unwrap_err(),
        LotteryError::NotActive {}
    );
}

#[test]
fn join_range_check() {
    let mut s = running_lottery();
    assert!(join_fits(&s, 50 * SEC, &join_msg(3), 3));
    s.rounds[0].current_entries = u32::MAX - 7;
    assert!(join_fits(&s, 50 * SEC, &join_msg(3), 3));
    assert!(!join_fits(&s, 50 * SEC, &join_msg(4), 3));
    assert!(join_fits(&s, 200 * SEC, &join_msg(4), 3));
    s.rounds[0].current_entries = 0;
    s.entry_fee = u128::MAX;
    assert!(!join_fits(&s, 50 * SEC, &join_msg(2), 0));
}

#[test]
fn winner_selection_waits_for_round_end() {
    let s = running_lottery();
    assert_eq!(
        execute_select_winner(&s, &"mallory".to_string(), 200 * SEC),
        Err(LotteryError::Unauthorized { sender: "mallory".to_string() })
    );
    assert_eq!(execute_select_winner(&s, &owner(), 109 * SEC), Err(LotteryError::NotActive {}));
    assert_eq!(execute_select_winner(&s, &owner(), 110 * SEC), Ok(()));
    let empty = LotteryState::new(100, 60, 80, 10, owner(), false);
    assert_eq!(execute_select_winner(&empty, &owner(), 0), Err(LotteryError::NotActive {}));
}

#[test]
fn round_over_exactly_at_its_end() {
    let mut s = LotteryState::new(10, 60, 80, 10, owner(), false);
    assert!(!is_round_over(&s, u64::MAX));
    s.start_new_round(5 * SEC);
    assert!(!is_round_over(&s, 15 * SEC - 1));
    assert!(is_round_over(&s, 15 * SEC));
    assert!(validate_lottery_active(&s, 15 * SEC));
    assert!(!validate_lottery_active(&s, 15 * SEC + 1));
}

fn round_with_players(players: &[&str]) -> LotteryState {
    let mut s = running_lottery();
    for p in players {
        s.update_entries(1, p.to_string());
    }
    s
}

#[test]
fn draw_picks_the_participant_nois_derives() {
    let players = ["a", "b", "c", "d", "e"];
    let s = round_with_players(&players);
    let proxy = "proxy".to_string();
    for seed in 0u8..20 {
        let randomness: [u8; 32] = [seed.wrapping_mul(37).wrapping_add(1); 32];
        let expected = nois::ints_in_range(randomness, 1, 0u32, 4)[0] as usize;
        let w = draw_winner(&s, &proxy, &proxy, &randomness.to_vec()).unwrap();
        assert_eq!(w, players[expected]);
        assert_eq!(winner_from_draw(&s, expected as u32), players[expected]);
    }
}

#[test]
fn draw_from_a_single_participant() {
    let s = round_with_players(&["only"]);
    let proxy = "proxy".to_string();
    assert_eq!(draw_winner(&s, &proxy, &proxy, &vec![9u8; 32]).unwrap(), "only");
}

#[test]
fn draw_checks_sender_then_randomness() {
    let s = round_with_players(&["a", "b"]);
    let proxy = "proxy".to_string();
    assert_eq!(
        draw_winner(&s, &"mallory".to_string(), &proxy, &vec![1u8; 31]).unwrap_err(),
        LotteryError::UnauthorizedReceive {}
    );
    assert_eq!(draw_winner(&s, &proxy, &proxy, &vec![1u8; 31]).unwrap_err(), LotteryError::InvalidRandomness {});
    assert_eq!(draw_winner(&s, &proxy, &proxy, &vec![1u8; 33]).unwrap_err(), LotteryError::InvalidRandomness {});
    // no participant: an unauthorised sender is still refused first
    let empty_round = running_lottery();
    assert_eq!(
        draw_winner(&empty_round, &"mallory".to_string(), &proxy, &vec![1u8; 32]).unwrap_err(),
        LotteryError::UnauthorizedReceive {}
    );
}

#[test]
fn payout_splits_the_balance() {
    let mut s = running_lottery();
    let p = payout_winner(&mut s, "alice".to_string(), "job-1".to_string(), 1001).unwrap();
    assert_eq!(p.winner, "alice");
    assert_eq!(p.winner_prize, 800);
    assert_eq!(p.owner, "owner");
    assert_eq!(p.dev_share, 201);
    assert_eq!(p.winner_prize + p.dev_share, 1001);
    let r = s.current_round().unwrap();
    assert_eq!(r.winner, Some("alice".to_string()));
    assert_eq!(r.job_id, Some("job-1".to_string()));
}

#[test]
fn payout_without_round_is_a_std_error() {
    let mut s = LotteryState::new(100, 60, 80, 10, owner(), false);
    assert_eq!(
        payout_winner(&mut s, "alice".to_string(), "job".to_string(), 100).unwrap_err(),
        LotteryError::Std(StdError::generic_err("No rounds available"))
    );
}

#[test]
fn owner_only_updates() {
    let mut s = running_lottery();
    let mallory = "mallory".to_string();
    let refused = Err(LotteryError::Unauthorized { sender: mallory.clone() });
    assert_eq!(execute_update_cooldown_period(&mut s, &mallory, 1), refused);
    assert_eq!(execute_update_entries(&mut s, &mallory, 1), refused);
    assert_eq!(execute_update_entry_fee(&mut s, &mallory, 1), refused);
    assert_eq!(execute_update_owner(&mut s, &mallory, mallory.clone()), refused);
    assert_eq!(execute_update_pause_status(&mut s, &mallory, true), refused);
    assert_eq!(execute_update_round_duration(&mut s, &mallory, 1), refused);
    assert_eq!((s.cooldown_period, s.entry_fee, s.round_duration), (60, 10, 100));
    assert_eq!(s.owner, "owner");
    assert!(!s.pause_status);
    assert!(s.rounds[0].participants.is_empty());

    assert_eq!(execute_update_cooldown_period(&mut s, &owner(), 1), Ok(()));
    assert_eq!(execute_update_entries(&mut s, &owner(), 4), Ok(()));
    assert_eq!(execute_update_entry_fee(&mut s, &owner(), 2), Ok(()));
    assert_eq!(execute_update_round_duration(&mut s, &owner(), 3), Ok(()));
    assert_eq!((s.cooldown_period, s.entry_fee, s.round_duration), (1, 2, 3));
    assert_eq!(s.rounds[0].current_entries, 4);
    assert_eq!(s.rounds[0].participants, vec![owner()]);
    assert_eq!(execute_update_pause_status(&mut s, &owner(), true), Ok(()));
    assert!(s.pause_status);
    assert_eq!(execute_update_owner(&mut s, &owner(), "other".to_string()), Ok(()));
    assert_eq!(s.owner, "other");
    // the former owner is refused from now on, the new one accepted
    assert_eq!(
        execute_update_entry_fee(&mut s, &owner(), 5),
        Err(LotteryError::Unauthorized { sender: owner() })
    );
    assert_eq!(execute_update_entry_fee(&mut s, &"other".to_string(), 5), Ok(()));
    assert_eq!(s.entry_fee, 5);
}

#[test]
fn queries_read_rounds_by_position() {
    let mut s = LotteryState::new(100, 60, 80, 10, owner(), false);
    assert_eq!(query_current_round_info(&s).unwrap_err(), StdError::generic_err("Round not found"));
    assert_eq!(query_round_info(&s, 0).unwrap_err(), StdError::generic_err("Round not found"));
    s.start_new_round(1);
    s.start_new_round(2);
    assert_eq!(query_current_round_info(&s).unwrap().round_number, 2);
    assert_eq!(query_round_info(&s, 0).unwrap().round_number, 1);
    assert_eq!(query_round_info(&s, 1).unwrap().round_number, 2);
    assert_eq!(query_round_info(&s, 2).unwrap_err(), StdError::generic_err("Round not found"));
}

#[test]
fn nft_multipliers_and_tally() {
    assert_eq!(calculate_entry_halves(0), 2);
    assert_eq!(calculate_entry_halves(1), 3);
    assert_eq!(calculate_entry_halves(2), 4);
    assert_eq!(calculate_entry_halves(3), 5);
    assert_eq!(calculate_entry_halves(4), 2);
    assert_eq!(tally_nft_tokens(0, 0), (0, true));
    assert_eq!(tally_nft_tokens(0, 1), (1, true));
    assert_eq!(tally_nft_tokens(1, 2), (2, true));
    assert_eq!(tally_nft_tokens(2, 1), (3, false));
    assert_eq!(tally_nft_tokens(0, 3), (3, false));
    assert_eq!(tally_nft_tokens(2, 7), (3, false));
}

/// The NFT count over the answers of successive collections, asking while the tally says so.
fn count_over(answers: &[u32]) -> u32 {
    let mut total = 0;
    let mut more = true;
    let mut i = 0;
    while i < answers.len() && more {
        let (t, m) = tally_nft_tokens(total, answers[i]);
        total = t;
        more = m;
        i += 1;
    }
    total
}

#[test]
fn nft_count_grows_with_answers_and_collections() {
    assert_eq!(count_over(&[]), 0);
    assert_eq!(count_over(&[1, 0]), 1);
    assert_eq!(count_over(&[2, 2]), 2);
    assert_eq!(count_over(&[1, 1, 1, 5]), 3);
    assert!(count_over(&[0, 1]) <= count_over(&[1, 2]));
    assert!(count_over(&[1, 1]) <= count_over(&[1, 1, 0]));
    assert_eq!(count_over(&[3, 0, 0]), 3);
}
