use vstd::prelude::*;
use crate::state::{LotteryState, LotteryView, plus_seconds};

verus! {

/// The entry multiplier for holding `nft_count` NFTs, counted in half entries:
/// one NFT gives one and a half entries per ticket, two give two, three give
/// two and a half, and none (or any other count) gives one.
pub open spec fn entry_halves(nft_count: u32) -> u32 {
    if nft_count == 1 {
        3
    } else if nft_count == 2 {
        4
    } else if nft_count == 3 {
        5
    } else {
        2
    }
}

/// The entry multiplier for `nft_count` NFTs, in half entries (see `entry_halves`).
pub fn calculate_entry_halves(nft_count: u32) -> (h: u32)
    ensures
        h == entry_halves(nft_count),
{
    match nft_count {
        1 => 3,
        2 => 4,
        3 => 5,
        _ => 2,
    }
}

/// The NFT count after one more collection reported `token_count` tokens of
/// the owner (the query asks for at most three): three or more tokens settle
/// the count at three, two tokens add one, otherwise the tokens are added.
pub open spec fn nft_tally_step(total: u32, token_count: u32) -> u32
    recommends
        total <= 2,
{
    if token_count >= 3 {
        3
    } else if token_count == 2 {
        (total + 1) as u32
    } else {
        (total + token_count) as u32
    }
}

/// One step of counting the NFTs that decide the entry bonus: the count
/// after the next collection reported `token_count` tokens, and whether to ask
/// the collection after it (not once the count reached three).
pub fn tally_nft_tokens(total: u32, token_count: u32) -> (r: (u32, bool))
    requires
        total <= 2,
    ensures
        r.0 == nft_tally_step(total, token_count),
        r.0 <= 3,
        r.1 == (r.0 != 3),
{
    let next = if token_count >= 3 {
        3
    } else if token_count == 2 {
        total + 1
    } else {
        total + token_count
    };
    (next, next != 3)
}

/// The NFT count after asking collections in order, when they report
/// `answers` tokens: counting stops at three, and collections after that
/// point are not asked.
pub open spec fn nft_count_of(answers: Seq<u32>) -> u32
    decreases answers.len(),
{
    if answers.len() == 0 {
        0
    } else {
        let before = nft_count_of(answers.drop_last());
        if before == 3 {
            3
        } else {
            nft_tally_step(before, answers.last())
        }
    }
}

/// The NFT count is never more than three.
pub proof fn lemma_nft_count_bounded(answers: Seq<u32>)
    ensures
        nft_count_of(answers) <= 3,
    decreases answers.len(),
{
    if answers.len() > 0 {
        lemma_nft_count_bounded(answers.drop_last());
    }
}

/// More tokens in every answer never give a smaller NFT count.
pub proof fn lemma_nft_count_monotone(answers: Seq<u32>, more: Seq<u32>)
    requires
        answers.len() == more.len(),
        forall|i: int| 0 <= i < answers.len() ==> answers[i] <= more[i],
    ensures
        nft_count_of(answers) <= nft_count_of(more),
    decreases answers.len(),
{
    if answers.len() > 0 {
        lemma_nft_count_bounded(answers.drop_last());
        lemma_nft_count_bounded(more.drop_last());
        lemma_nft_count_monotone(answers.drop_last(), more.drop_last());
        assert(answers.last() <= more.last());
    }
}

/// Asking more collections never lowers the NFT count.
pub proof fn lemma_nft_count_grows_with_collections(answers: Seq<u32>, later: Seq<u32>)
    ensures
        nft_count_of(answers) <= nft_count_of(answers + later),
    decreases later.len(),
{
    if later.len() > 0 {
        let prefix = answers + later.drop_last();
        lemma_nft_count_grows_with_collections(answers, later.drop_last());
        lemma_nft_count_bounded(prefix);
        assert((answers + later).drop_last() =~= prefix);
    } else {
        assert(answers + later =~= answers);
    }
}

/// Asking one more collection while the count is below three takes one
/// counting step: a loop of `tally_nft_tokens` computes `nft_count_of`.
pub proof fn lemma_tally_extends_count(answers: Seq<u32>, token_count: u32)
    requires
        nft_count_of(answers) != 3,
    ensures
        nft_count_of(answers.push(token_count)) == nft_tally_step(nft_count_of(answers), token_count),
{
    assert(answers.push(token_count).drop_last() =~= answers);
}

/// Whether the last round has ended at `current_time`; with no round it has not.
pub fn is_round_over(state: &LotteryState, current_time: u64) -> (b: bool)
    requires
        state@.rounds.len() > 0 ==> state@.round_end() <= u64::MAX,
    ensures
        b == state@.round_over(current_time),
{
    let n = state.rounds.len();
    if n > 0 {
        let current_round = &state.rounds[n - 1];
        assert(current_round@ == state@.rounds.last());
        let round_end_time = plus_seconds(current_round.round_start_time, state.round_duration);
        return current_time >= round_end_time;
    }
    false
}

/// Whether the lottery takes entries at `current_time`: an error answer of
/// `is_lottery_active` counts as "no".
pub fn validate_lottery_active(state: &LotteryState, current_time: u64) -> (b: bool)
    requires
        state@.activity_check_fits(current_time),
    ensures
        b == state@.active(current_time),
{
    match state.is_lottery_active(current_time) {
        Ok(b) => b,
        Err(_) => false,
    }
}

/// A lottery that takes entries has not reached the end of its round yet, or
/// is exactly at it: entries and the draw overlap in at most one instant.
pub proof fn lemma_active_round_not_over(state: LotteryView, now: u64)
    requires
        state.active(now),
        state.round_over(now),
    ensures
        now == state.round_end(),
{
}

/// Counting NFTs never goes past three, whatever the collections report.
pub proof fn lemma_nft_tally_bounded(total: u32, token_count: u32)
    requires
        total <= 2,
    ensures
        nft_tally_step(total, token_count) <= 3,
        nft_tally_step(total, token_count) >= total,
{
}

/// The NFT bonus never lowers the number of entries below the tickets bought:
/// every multiplier is at least one whole entry and at most two and a half.
pub proof fn lemma_bonus_never_penalises(nft_count: u32, tickets: u32)
    ensures
        2 <= entry_halves(nft_count) <= 5,
        (entry_halves(nft_count) * tickets) / 2 >= tickets,
{
    assert(entry_halves(nft_count) * tickets >= 2 * tickets) by (nonlinear_arith)
        requires
            entry_halves(nft_count) >= 2,
    ;
}

} // verus!
