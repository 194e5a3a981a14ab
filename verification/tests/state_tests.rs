use cosmwasm_std::StdError;
use lottery::state::{LotteryState, Round, NANOS_PER_SECOND};

const SEC: u64 = NANOS_PER_SECOND;

fn lottery(round_duration: u64, cooldown_period: u64) -> LotteryState {
    LotteryState::new(round_duration, cooldown_period, 80, 100, "owner".to_string(), false)
}

#[test]
fn new_lottery_has_no_rounds_and_given_parameters() {
    let s = LotteryState::new(100, 60, 70, 5, "boss".to_string(), true);
    assert!(s.rounds.is_empty());
    assert_eq!(s.round_duration, 100);
    assert_eq!(s.cooldown_period, 60);
    assert_eq!(s.win_percentage, 70);
    assert_eq!(s.entry_fee, 5);
    assert_eq!(s.nft_bonus_percentage, 0);
    assert_eq!(s.owner, "boss");
    assert!(s.pause_status);
    assert!(s.current_round().is_none());
}

#[test]
fn new_round_is_empty() {
    let r = Round::new(7, 42);
    assert_eq!(r.round_number, 7);
    assert_eq!(r.round_start_time, 42);
    assert_eq!(r.current_entries, 0);
    assert!(r.participants.is_empty());
    assert_eq!(r.winner, None);
    assert_eq!(r.job_id, None);
    let d = r.duplicate();
    assert_eq!(d.round_number, 7);
    assert_eq!(d.round_start_time, 42);
}

#[test]
fn rounds_are_numbered_from_one() {
    let mut s = lottery(100, 60);
    s.start_new_round(10 * SEC);
    s.start_new_round(20 * SEC);
    s.start_new_round(30 * SEC);
    let numbers: Vec<u64> = s.rounds.iter().map(|r| r.round_number).collect();
    assert_eq!(numbers, vec![1, 2, 3]);
    assert_eq!(s.current_round().unwrap().round_start_time, 30 * SEC);
}

#[test]
fn update_entries_touches_only_the_current_round() {
    let mut s = lottery(100, 60);
    s.update_entries(5, "alice".to_string());
    assert!(s.rounds.is_empty());
    s.start_new_round(0);
    s.start_new_round(1);
    s.update_entries(5, "alice".to_string());
    s.update_entries(2, "bob".to_string());
    assert_eq!(s.rounds[0].current_entries, 0);
    assert_eq!(s.rounds[1].current_entries, 7);
    assert_eq!(s.rounds[1].participants, vec!["alice".to_string(), "bob".to_string()]);
}

#[test]
fn setters_change_one_field() {
    let mut s = lottery(100, 60);
    s.update_fee_percentage(55);
    s.update_entry_fee(9);
    s.update_cooldown_period(11);
    s.update_round_duration(12);
    assert_eq!(s.win_percentage, 55);
    assert_eq!(s.entry_fee, 9);
    assert_eq!(s.cooldown_period, 11);
    assert_eq!(s.round_duration, 12);
    let s = s.update_owner("new".to_string()).update_pause_status(true);
    assert_eq!(s.owner, "new");
    assert!(s.pause_status);
}

#[test]
fn winner_and_job_need_a_round() {
    let mut s = lottery(100, 60);
    assert_eq!(
        s.update_last_winner(Some("alice".to_string())),
        Err(StdError::generic_err("No rounds available"))
    );
    assert_eq!(
        s.update_job_id(Some("job".to_string())),
        Err(StdError::generic_err("No rounds available"))
    );
    s.start_new_round(0);
    assert_eq!(s.update_last_winner(Some("alice".to_string())), Ok(()));
    assert_eq!(s.update_job_id(Some("job".to_string())), Ok(()));
    let r = s.current_round().unwrap();
    assert_eq!(r.winner, Some("alice".to_string()));
    assert_eq!(r.job_id, Some("job".to_string()));
}

#[test]
fn cooldown_counts_from_round_start() {
    let mut s = lottery(100, 60);
    assert!(s.is_cooldown_over(0));
    s.start_new_round(5 * SEC);
    assert!(!s.is_cooldown_over(65 * SEC - 1));
    assert!(s.is_cooldown_over(65 * SEC));
}

#[test]
fn activity_of_each_phase() {
    let mut s = lottery(100, 60);
    assert_eq!(s.is_lottery_active(0), Ok(false));
    s.start_new_round(10 * SEC);
    assert_eq!(s.is_lottery_active(10 * SEC), Ok(true));
    assert_eq!(s.is_lottery_active(110 * SEC), Ok(true));
    assert_eq!(
        s.is_lottery_active(110 * SEC + 1),
        Err("Cool-down period is active.".to_string())
    );
    assert_eq!(
        s.is_lottery_active(170 * SEC),
        Err("Cool-down period is active.".to_string())
    );
    assert_eq!(
        s.is_lottery_active(170 * SEC + 1),
        Err("Round is still active.".to_string())
    );
}

#[test]
fn paused_lottery_is_not_active() {
    let mut s = LotteryState::new(100, 60, 80, 100, "owner".to_string(), true);
    s.start_new_round(10 * SEC);
    assert_eq!(
        s.is_lottery_active(20 * SEC),
        Err("Cool-down period is active.".to_string())
    );
}

#[test]
fn range_checks_of_time_arithmetic() {
    let mut s = lottery(u64::MAX / SEC + 1, 0);
    assert!(s.round_end_fits());
    assert!(s.activity_fits(0));
    s.start_new_round(0);
    assert!(!s.round_end_fits());
    assert!(!s.activity_fits(0));
    let mut t = lottery(10, u64::MAX / SEC);
    t.start_new_round(0);
    assert!(t.round_end_fits());
    assert!(t.activity_fits(5 * SEC));
    assert!(!t.activity_fits(20 * SEC));
}

#[test]
fn defaults_are_empty() {
    let r = Round::default();
    assert_eq!((r.round_number, r.round_start_time, r.current_entries), (0, 0, 0));
    assert!(r.participants.is_empty() && r.winner.is_none() && r.job_id.is_none());
    let s = LotteryState::default();
    assert!(s.rounds.is_empty());
    assert_eq!((s.round_duration, s.cooldown_period, s.win_percentage), (0, 0, 0));
    assert_eq!((s.entry_fee, s.nft_bonus_percentage), (0, 0));
    assert_eq!(s.owner, "");
    assert!(!s.pause_status);
}
