//! Properties of the lottery's rules, each stated over all inputs in terms of
//! the plain quantities involved (times in nanoseconds, counts, positions).

use vstd::prelude::*;
use crate::contract::{
    drawn_position, join_entries, join_slots, joined_round, spec_ints_in_range, winner_share,
};
use crate::helpers::{entry_halves, nft_tally_step};
use crate::state::{Activity, LotteryView, RoundView};

verus! {

/// A round is over exactly from its end on: from the moment its start plus
/// its duration has passed, for ever after, whatever the cool-down period or
/// the pause status; before that moment, and with no round, it is not.
pub proof fn lemma_round_over_from_its_end(state: LotteryView, now: u64)
    ensures
        state.round_over(now) <==> (state.rounds.len() > 0 && now
            >= state.rounds.last().round_start_time + state.round_duration * 1_000_000_000),
{
}

/// Whether a round is over does not depend on the cool-down period or the
/// pause status.
pub proof fn lemma_round_over_ignores_cooldown_and_pause(
    state: LotteryView,
    now: u64,
    cooldown_period: u64,
    pause_status: bool,
)
    ensures
        state.round_over(now) == (LotteryView { cooldown_period, pause_status, ..state }).round_over(
            now,
        ),
{
}

/// Later is still over: once the round is over at some time, it is over at
/// every later time.
pub proof fn lemma_round_over_stays_over(state: LotteryView, now: u64, later: u64)
    requires
        state.round_over(now),
        now <= later,
    ensures
        state.round_over(later),
{
}

/// The lottery takes entries exactly while it has a round, is not paused,
/// and the time has not passed the round's start plus its duration.
pub proof fn lemma_active_exactly_while_running(state: LotteryView, now: u64)
    ensures
        state.active(now) <==> (state.rounds.len() > 0 && !state.pause_status && now
            <= state.rounds.last().round_start_time + state.round_duration * 1_000_000_000),
{
}

/// The position drawn depends on the randomness and on how many participant
/// slots the current round holds, and on nothing else of the lottery: not on
/// its entries, its winner, its times or its settings.
pub proof fn lemma_draw_depends_only_on_slot_count(a: LotteryView, b: LotteryView, randomness: Seq<u8>)
    requires
        a.rounds.len() > 0,
        b.rounds.len() > 0,
        a.rounds.last().participants.len() == b.rounds.last().participants.len(),
    ensures
        drawn_position(a, randomness) == drawn_position(b, randomness),
{
}

/// With `n` participant slots (`1 <= n <= u32::MAX`), the position drawn is
/// the first integer that `nois::ints_in_range` derives from the randomness
/// over the whole range of slots `0 ..= n - 1`.
pub proof fn lemma_draw_ranges_over_all_slots(state: LotteryView, randomness: Seq<u8>)
    requires
        state.rounds.len() > 0,
        1 <= state.rounds.last().participants.len() <= u32::MAX,
    ensures
        drawn_position(state, randomness) == spec_ints_in_range(
            randomness,
            1,
            0,
            (state.rounds.last().participants.len() - 1) as u32,
        )[0],
{
    let n = state.rounds.last().participants.len();
    assert((n as u32) as int == n);
}

/// A purchase keeps the round's earlier participants in place and appends
/// exactly `join_slots` copies of the buyer at the end, whoever was there
/// before; it adds `join_entries` entries and changes nothing else.
pub proof fn lemma_join_appends_buyer_slots(r: RoundView, player: Seq<char>, halves: u32, tickets: u32)
    requires
        r.current_entries + join_entries(halves, tickets) <= u32::MAX,
    ensures
        ({
            let j = joined_round(r, player, halves, tickets);
            &&& j.participants.len() == r.participants.len() + join_slots(halves, tickets)
            &&& forall|i: int| 0 <= i < r.participants.len() ==> #[trigger] j.participants[i] == r.participants[i]
            &&& forall|i: int| r.participants.len() <= i < j.participants.len() ==> #[trigger] j.participants[i] == player
            &&& j.current_entries == r.current_entries + join_entries(halves, tickets)
            &&& j.round_number == r.round_number
            &&& j.round_start_time == r.round_start_time
            &&& j.winner == r.winner
            &&& j.job_id == r.job_id
        }),
{
}

/// The slots of a purchase are its entries in half units (`halves * tickets`)
/// halved and rounded up, and its entries are the same halved and rounded
/// down, each capped at the largest `u32`.
pub proof fn lemma_join_rounding(halves: u32, tickets: u32)
    ensures
        halves * tickets <= 2 * (u32::MAX as int) ==> 2 * join_slots(halves, tickets) >= halves * tickets
            && 2 * join_slots(halves, tickets) <= halves * tickets + 1,
        halves * tickets > 2 * (u32::MAX as int) ==> join_slots(halves, tickets) == u32::MAX,
        halves * tickets <= 2 * (u32::MAX as int) + 1 ==> 2 * join_entries(halves, tickets) <= halves
            * tickets && halves * tickets <= 2 * join_entries(halves, tickets) + 1,
        halves * tickets > 2 * (u32::MAX as int) + 1 ==> join_entries(halves, tickets) == u32::MAX,
{
}

/// Adding entries in a participant's name appends that participant once at
/// the end of the round, whether or not it is already there, adds the
/// entries, and changes nothing else.
pub proof fn lemma_entered_appends_once(r: RoundView, entries: u32, participant: Seq<char>)
    requires
        r.current_entries + entries <= u32::MAX,
    ensures
        ({
            let e = r.entered(entries, participant);
            &&& e.participants.len() == r.participants.len() + 1
            &&& e.participants[r.participants.len() as int] == participant
            &&& forall|i: int| 0 <= i < r.participants.len() ==> #[trigger] e.participants[i] == r.participants[i]
            &&& e.current_entries == r.current_entries + entries
            &&& e.round_number == r.round_number
            &&& e.round_start_time == r.round_start_time
            &&& e.winner == r.winner
            &&& e.job_id == r.job_id
        }),
{
}

/// Replacing the current round keeps the number of rounds, every earlier
/// round and every setting of the lottery.
pub proof fn lemma_last_round_replaced_only(state: LotteryView, r: RoundView)
    requires
        state.rounds.len() > 0,
    ensures
        ({
            let s = state.with_last_round(r);
            &&& s.rounds.len() == state.rounds.len()
            &&& s.rounds[state.rounds.len() - 1] == r
            &&& forall|i: int| 0 <= i < state.rounds.len() - 1 ==> #[trigger] s.rounds[i] == state.rounds[i]
            &&& s.owner == state.owner
            &&& s.pause_status == state.pause_status
            &&& s.round_duration == state.round_duration
            &&& s.cooldown_period == state.cooldown_period
            &&& s.entry_fee == state.entry_fee
            &&& s.win_percentage == state.win_percentage
        }),
{
}

/// The winner's prize is the given percentage of the balance, rounded down.
pub proof fn lemma_winner_share_is_percentage(balance: u128, win_percentage: u32)
    ensures
        winner_share(balance, win_percentage) * 100 <= balance * win_percentage,
        balance * win_percentage < winner_share(balance, win_percentage) * 100 + 100,
{
}


/// Outside a running round, `is_lottery_active` answers "cool-down" up to the
/// round's end plus the cool-down period and "still active" after it; with no
/// round it answers `false`.
pub proof fn lemma_activity_outside_running_round(state: LotteryView, now: u64)
    ensures
        state.rounds.len() == 0 ==> state.activity(now) == Activity::Answer(false),
        state.rounds.len() > 0 && !state.active(now) && now <= state.rounds.last().round_start_time
            + state.round_duration * 1_000_000_000 + state.cooldown_period * 1_000_000_000
            ==> state.activity(now) == Activity::CoolingDown,
        state.rounds.len() > 0 && now > state.rounds.last().round_start_time + state.round_duration
            * 1_000_000_000 + state.cooldown_period * 1_000_000_000
            ==> state.activity(now) == Activity::StillActive,
{
}

/// The cool-down is over from the last round's start plus the cool-down
/// period on, and always with no round.
pub proof fn lemma_cooldown_over_from_start(state: LotteryView, now: u64)
    ensures
        state.cooldown_over(now) <==> (state.rounds.len() == 0 || now
            >= state.rounds.last().round_start_time + state.cooldown_period * 1_000_000_000),
{
}

/// Holding `k` NFTs for `1 <= k <= 3` adds half an entry per NFT to each
/// ticket's one entry; any other count adds nothing.
pub proof fn lemma_entry_bonus_per_nft(nft_count: u32)
    ensures
        1 <= nft_count <= 3 ==> entry_halves(nft_count) == 2 + nft_count,
        !(1 <= nft_count <= 3) ==> entry_halves(nft_count) == 2,
{
}

/// A collection reporting three tokens or more settles the NFT count at three;
/// otherwise it raises the count by one if it reports any token, and leaves it
/// as it was if it reports none.
pub proof fn lemma_nft_tally_step_effect(total: u32, token_count: u32)
    requires
        total <= 2,
    ensures
        token_count >= 3 ==> nft_tally_step(total, token_count) == 3,
        1 <= token_count < 3 ==> nft_tally_step(total, token_count) == total + 1,
        token_count == 0 ==> nft_tally_step(total, token_count) == total,
{
}

/// A fresh round has the given number and start, and no entries,
/// participants, winner or job.
pub proof fn lemma_fresh_round_is_empty(round_number: u64, round_start_time: u64)
    ensures
        ({
            let r = RoundView::fresh(round_number, round_start_time);
            &&& r.round_number == round_number
            &&& r.round_start_time == round_start_time
            &&& r.current_entries == 0
            &&& r.participants.len() == 0
            &&& r.winner is None
            &&& r.job_id is None
        }),
{
}

} // verus!
