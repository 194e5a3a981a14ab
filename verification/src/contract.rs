use vstd::prelude::*;
use cosmwasm_std::StdError;
use crate::error::{LotteryError, generic_err, generic_error};
use crate::helpers::{calculate_entry_halves, entry_halves, is_round_over, validate_lottery_active};
use crate::msg::{InstantiateMsg, JoinLotteryMsg};
use crate::state::{LotteryState, LotteryView, Round, RoundView};

verus! {

/// The sender is the owner of the lottery.
pub open spec fn is_owner(state: LotteryView, sender: Seq<char>) -> bool {
    sender == state.owner
}

/// `r` refuses `sender` as not being the owner.
pub open spec fn refused_sender(r: Result<(), LotteryError>, sender: Seq<char>) -> bool {
    r matches Err(LotteryError::Unauthorized { sender: s }) && s@ == sender
}

/// Creates the lottery state for `msg`, sent by `sender`. `proxy_valid` says
/// whether the chain accepted `msg.nois_proxy` as an address. A new lottery
/// starts unpaused, whatever `msg.pause_status` says.
pub fn instantiate(msg: InstantiateMsg, sender: String, proxy_valid: bool) -> (r: Result<LotteryState, LotteryError>)
    ensures
        !proxy_valid ==> r matches Err(LotteryError::InvalidProxyAddress {}),
        proxy_valid ==> (r matches Ok(s) && s@ == (LotteryView {
            rounds: Seq::empty(),
            round_duration: msg.round_duration,
            cooldown_period: msg.cooldown_period,
            win_percentage: msg.win_percentage,
            entry_fee: msg.entry_fee,
            nft_bonus_percentage: 0,
            owner: sender@,
            pause_status: false,
        })),
{
    let lottery_state = LotteryState::new(
        msg.round_duration,
        msg.cooldown_period,
        msg.win_percentage,
        msg.entry_fee,
        sender,
        false,
    );
    if !proxy_valid {
        return Err(LotteryError::InvalidProxyAddress {});
    }
    Ok(lottery_state)
}

/// Opens a new round at `now` for the owner, while the lottery is active.
pub fn execute_start_new_round(state: &mut LotteryState, sender: &String, now: u64) -> (r: Result<(), LotteryError>)
    requires
        is_owner(old(state)@, sender@) ==> old(state)@.activity_check_fits(now),
        old(state)@.rounds.len() < u64::MAX,
    ensures
        !is_owner(old(state)@, sender@) ==> refused_sender(r, sender@),
        is_owner(old(state)@, sender@) && !old(state)@.active(now) ==> r matches Err(LotteryError::NotActive {}),
        is_owner(old(state)@, sender@) && old(state)@.active(now) ==> r is Ok,
        r is Ok ==> final(state)@ == (LotteryView {
            rounds: old(state)@.rounds.push(
                RoundView::fresh((old(state)@.rounds.len() + 1) as u64, now),
            ),
            ..old(state)@
        }),
        r is Err ==> final(state)@ == old(state)@,
{
    if !(*sender == state.owner) {
        return Err(LotteryError::Unauthorized { sender: sender.clone() });
    }
    if !validate_lottery_active(state, now) {
        return Err(LotteryError::NotActive {});
    }
    state.start_new_round(now);
    Ok(())
}

/// `x`, capped at the largest `u32`.
pub open spec fn saturate_u32(x: int) -> u32 {
    if x > u32::MAX {
        u32::MAX
    } else {
        x as u32
    }
}

/// Participant slots a ticket purchase takes: the entries rounded up.
pub open spec fn join_slots(halves: u32, tickets: u32) -> u32 {
    saturate_u32((halves * tickets + 1) / 2)
}

/// Entries a ticket purchase adds: the entries rounded down.
pub open spec fn join_entries(halves: u32, tickets: u32) -> u32 {
    saturate_u32((halves * tickets) / 2)
}

/// The round after `player` bought `tickets` tickets with a multiplier of `halves` half entries.
pub open spec fn joined_round(r: RoundView, player: Seq<char>, halves: u32, tickets: u32) -> RoundView {
    RoundView {
        current_entries: (r.current_entries + join_entries(halves, tickets)) as u32,
        participants: r.participants + Seq::new(join_slots(halves, tickets) as nat, |_i: int| player),
        ..r
    }
}

/// What a ticket purchase yields.
#[derive(Debug)]
pub struct JoinOutcome {
    /// Number of the round entered.
    pub round_number: u64,
    /// Entries of that round after the purchase.
    pub current_entries: u32,
    /// What the tickets cost.
    pub total_deduction: u128,
}

/// Buys `msg.number_of_tickets` tickets for `sender` at `now`, who holds
/// `nft_count` NFTs and sent `funds`: the current round gains the entries and
/// the sender's participant slots.
pub fn execute_join_lottery(
    state: &mut LotteryState,
    sender: &String,
    now: u64,
    msg: &JoinLotteryMsg,
    nft_count: u32,
    funds: &Vec<u128>,
) -> (r: Result<JoinOutcome, LotteryError>)
    requires
        old(state)@.activity_check_fits(now),
        old(state)@.active(now) ==> old(state)@.rounds.last().current_entries + join_entries(
            entry_halves(nft_count),
            msg.number_of_tickets,
        ) <= u32::MAX,
        old(state)@.active(now) ==> old(state).entry_fee * msg.number_of_tickets <= u128::MAX,
    ensures
        !old(state)@.active(now) ==> r matches Err(LotteryError::NotActive {}),
        old(state)@.active(now) && (funds@.len() != 1 || funds@[0] < old(state).entry_fee
            * msg.number_of_tickets) ==> r matches Err(LotteryError::InsufficientFunds {}),
        old(state)@.active(now) && funds@.len() == 1 && funds@[0] >= old(state).entry_fee
            * msg.number_of_tickets ==> r is Ok,
        r is Err ==> final(state)@ == old(state)@,
        r matches Ok(o) ==> {
            let joined = joined_round(
                old(state)@.rounds.last(),
                sender@,
                entry_halves(nft_count),
                msg.number_of_tickets,
            );
            &&& final(state)@ == old(state)@.with_last_round(joined)
            &&& o.round_number == joined.round_number
            &&& o.current_entries == joined.current_entries
            &&& o.total_deduction == old(state).entry_fee * msg.number_of_tickets
        },
        old(state)@.rounds_numbered() ==> final(state)@.rounds_numbered(),
{
    if !validate_lottery_active(state, now) {
        return Err(LotteryError::NotActive {});
    }
    let halves = calculate_entry_halves(nft_count);
    let tickets = msg.number_of_tickets;
    assert(halves as u64 * tickets as u64 <= 5 * 0xffff_ffffu64) by (nonlinear_arith)
        requires
            halves <= 5,
    ;
    let units: u64 = halves as u64 * tickets as u64;
    let slots: u32 = if (units + 1) / 2 > 0xffff_ffffu64 {
        0xffff_ffffu32
    } else {
        ((units + 1) / 2) as u32
    };
    let added: u32 = if units / 2 > 0xffff_ffffu64 {
        0xffff_ffffu32
    } else {
        (units / 2) as u32
    };
    assert(slots == join_slots(halves, tickets));
    assert(added == join_entries(halves, tickets));

    let total_deduction: u128 = state.entry_fee * tickets as u128;
    if funds.len() != 1 || funds[0] < total_deduction {
        return Err(LotteryError::InsufficientFunds {});
    }

    let ghost before = state@;
    let mut round = state.take_last_round();
    let ghost base = round@;
    let ghost start = round@.participants;
    let mut k: u32 = 0;
    while k < slots
        invariant
            k <= slots,
            round@ == (RoundView {
                participants: start + Seq::new(k as nat, |_i: int| sender@),
                ..base
            }),
        decreases slots - k,
    {
        let ghost prior = round.participants@;
        let ghost pv = round@.participants;
        let player = sender.clone();
        round.participants.push(player);
        assert(round.participants@ == prior.push(player));
        assert(round@.participants =~= pv.push(sender@));
        assert(round@.participants =~= start + Seq::new((k + 1) as nat, |_i: int| sender@));
        k = k + 1;
    }
    round.current_entries = round.current_entries + added;
    let round_number = round.round_number;
    let current_entries = round.current_entries;
    proof {
        if before.rounds_numbered() {
            crate::state::lemma_round_update_keeps_numbering(before, round@);
        }
    }
    state.put_last_round(round);
    assert(state@.rounds =~= before.with_last_round(round@).rounds);
    Ok(JoinOutcome { round_number, current_entries, total_deduction })
}

/// Lets the owner ask for randomness once the current round is over.
pub fn execute_select_winner(state: &LotteryState, sender: &String, now: u64) -> (r: Result<(), LotteryError>)
    requires
        is_owner(state@, sender@) && state@.rounds.len() > 0 ==> state@.round_end() <= u64::MAX,
    ensures
        !is_owner(state@, sender@) ==> refused_sender(r, sender@),
        is_owner(state@, sender@) && !state@.round_over(now) ==> r matches Err(LotteryError::NotActive {}),
        is_owner(state@, sender@) && state@.round_over(now) ==> r is Ok,
{
    if !(*sender == state.owner) {
        return Err(LotteryError::Unauthorized { sender: sender.clone() });
    }
    if !is_round_over(state, now) {
        return Err(LotteryError::NotActive {});
    }
    Ok(())
}

/// What `nois::ints_in_range` derives from the randomness: `count` integers in
/// the range from `begin` to `end`, both included.
pub uninterp spec fn spec_ints_in_range(randomness: Seq<u8>, count: usize, begin: u32, end: u32) -> Seq<u32>;

/// Derives `count` integers from `begin` to `end` (both included) out of 32
/// bytes of randomness, through `nois::ints_in_range`. Its documentation
/// promises exactly `count` integers, each within the bounds; which integers
/// is a function of the arguments alone and is left to the name
/// `spec_ints_in_range`. It panics when `begin > end` (the bounds of the
/// uniform sampler) and when the vector of `count` integers cannot be
/// allocated, which `requires` rules out.
#[verifier::external_body]
fn ints_in_range(randomness: [u8; 32], count: usize, begin: u32, end: u32) -> (r: Vec<u32>)
    requires
        begin <= end,
        count <= 0x1fff_ffff,
    ensures
        r@ == spec_ints_in_range(randomness@, count, begin, end),
        r@.len() == count,
        forall|i: int| 0 <= i < count ==> begin <= #[trigger] r@[i] <= end,
{
    nois::ints_in_range(randomness, count, begin, end)
}

/// Reads delivered randomness as exactly 32 bytes, through
/// `cosmwasm_std::HexBinary::to_array`, which fails unless the length is 32
/// and otherwise copies the bytes.
#[verifier::external_body]
fn randomness_array(bytes: &Vec<u8>) -> (r: Option<[u8; 32]>)
    ensures
        r is Some <==> bytes@.len() == 32,
        r matches Some(a) ==> a@ == bytes@,
{
    cosmwasm_std::HexBinary::from(bytes.clone()).to_array::<32>().ok()
}

/// The participant of the current round that the number drawn from
/// `randomness` picks: the first of `spec_ints_in_range` over the positions
/// `0 ..= n - 1`, where `n` is the count of participants taken as a `u32`.
pub open spec fn drawn_position(state: LotteryView, randomness: Seq<u8>) -> u32 {
    spec_ints_in_range(
        randomness,
        1,
        0,
        ((state.rounds.last().participants.len() as u32) - 1) as u32,
    )[0]
}

/// The participant at position `drawn` in the current round.
pub fn winner_from_draw(state: &LotteryState, drawn: u32) -> (w: String)
    requires
        state@.rounds.len() > 0,
        drawn < state@.rounds.last().participants.len(),
    ensures
        w@ == state@.rounds.last().participants[drawn as int],
{
    let n = state.rounds.len();
    let current_round = &state.rounds[n - 1];
    assert(current_round@ == state@.rounds.last());
    current_round.participants[drawn as usize].clone()
}

/// Draws the winner of the current round from randomness delivered by
/// `sender`, which must be the randomness proxy `proxy`.
pub fn draw_winner(state: &LotteryState, sender: &String, proxy: &String, randomness: &Vec<u8>) -> (r: Result<String, LotteryError>)
    requires
        state@.rounds.len() > 0,
        sender@ == proxy@ && randomness@.len() == 32 ==> (state@.rounds.last().participants.len() as u32) > 0,
    ensures
        sender@ != proxy@ ==> r matches Err(LotteryError::UnauthorizedReceive {}),
        sender@ == proxy@ && randomness@.len() != 32 ==> r matches Err(LotteryError::InvalidRandomness {}),
        sender@ == proxy@ && randomness@.len() == 32 ==> (r matches Ok(w)
            && drawn_position(state@, randomness@) < state@.rounds.last().participants.len()
            && w@ == state@.rounds.last().participants[drawn_position(state@, randomness@) as int]),
{
    let n = state.rounds.len();
    let current_round = &state.rounds[n - 1];
    assert(current_round@ == state@.rounds.last());
    if !(*sender == *proxy) {
        return Err(LotteryError::UnauthorizedReceive {});
    }
    let bytes = match randomness_array(randomness) {
        Some(a) => a,
        None => return Err(LotteryError::InvalidRandomness {}),
    };
    let len = current_round.participants.len();
    let count = len as u32;
    assert(count <= len) by (bit_vector)
        requires
            count == len as u32,
    ;
    let drawn = ints_in_range(bytes, 1, 0, count - 1);
    let winner_index = drawn[0];
    assert(winner_index == drawn_position(state@, randomness@));
    Ok(winner_from_draw(state, winner_index))
}

/// The winner's share of `balance` at `win_percentage` percent.
pub open spec fn winner_share(balance: u128, win_percentage: u32) -> int {
    (balance * win_percentage) / 100
}

/// Who gets paid what at the end of a round.
#[derive(Debug)]
pub struct Payouts {
    pub winner: String,
    pub winner_prize: u128,
    pub owner: String,
    pub dev_share: u128,
}

/// Splits the contract balance between the winner and the owner, and records
/// the winner and the randomness job in the current round.
pub fn payout_winner(state: &mut LotteryState, winner: String, job_id: String, contract_balance: u128) -> (r: Result<Payouts, LotteryError>)
    requires
        contract_balance * old(state).win_percentage <= u128::MAX,
        winner_share(contract_balance, old(state).win_percentage) <= contract_balance,
    ensures
        old(state)@.rounds.len() == 0 ==> r == Err::<Payouts, LotteryError>(
            LotteryError::Std(generic_error("No rounds available"@)),
        ),
        old(state)@.rounds.len() == 0 ==> final(state)@ == old(state)@,
        old(state)@.rounds.len() > 0 ==> (r matches Ok(p) && {
            &&& p.winner@ == winner@
            &&& p.winner_prize == winner_share(contract_balance, old(state).win_percentage)
            &&& p.owner@ == old(state)@.owner
            &&& p.dev_share == contract_balance - p.winner_prize
            &&& final(state)@ == old(state)@.with_last_round(RoundView {
                winner: Some(winner@),
                job_id: Some(job_id@),
                ..old(state)@.rounds.last()
            })
        }),
{
    let winner_prize: u128 = (contract_balance * state.win_percentage as u128) / 100;
    let dev_share: u128 = contract_balance - winner_prize;
    let ghost before = state@;
    let payee = winner.clone();
    match state.update_last_winner(Some(payee)) {
        Ok(()) => {},
        Err(e) => return Err(LotteryError::Std(e)),
    }
    let ghost middle = state@;
    match state.update_job_id(Some(job_id)) {
        Ok(()) => {},
        Err(e) => return Err(LotteryError::Std(e)),
    }
    assert(state@.rounds =~= before.with_last_round(RoundView {
        winner: Some(winner@),
        job_id: Some(job_id@),
        ..before.rounds.last()
    }).rounds);
    Ok(Payouts { winner, winner_prize, owner: state.owner.clone(), dev_share })
}


/// Lets the owner set the cool-down period, in seconds.
pub fn execute_update_cooldown_period(state: &mut LotteryState, sender: &String, cooldown_period: u64) -> (r: Result<(), LotteryError>)
    ensures
        !is_owner(old(state)@, sender@) ==> refused_sender(r, sender@) && final(state)@ == old(state)@,
        is_owner(old(state)@, sender@) ==> r is Ok && final(state)@ == (LotteryView { cooldown_period, ..old(state)@ }),
{
    if !(*sender == state.owner) {
        return Err(LotteryError::Unauthorized { sender: sender.clone() });
    }
    state.update_cooldown_period(cooldown_period);
    Ok(())
}

/// Lets the owner add `entries` entries to the current round, in the owner's name.
pub fn execute_update_entries(state: &mut LotteryState, sender: &String, entries: u32) -> (r: Result<(), LotteryError>)
    requires
        is_owner(old(state)@, sender@) && old(state)@.rounds.len() > 0
            ==> old(state)@.rounds.last().current_entries + entries <= u32::MAX,
    ensures
        !is_owner(old(state)@, sender@) ==> refused_sender(r, sender@) && final(state)@ == old(state)@,
        is_owner(old(state)@, sender@) ==> r is Ok,
        is_owner(old(state)@, sender@) && old(state)@.rounds.len() > 0 ==> final(state)@ == old(state)@.with_last_round(
            old(state)@.rounds.last().entered(entries, sender@),
        ),
        is_owner(old(state)@, sender@) && old(state)@.rounds.len() == 0 ==> final(state)@ == old(state)@,
{
    if !(*sender == state.owner) {
        return Err(LotteryError::Unauthorized { sender: sender.clone() });
    }
    state.update_entries(entries, sender.clone());
    Ok(())
}

/// Lets the owner set the price of a ticket.
pub fn execute_update_entry_fee(state: &mut LotteryState, sender: &String, entry_fee: u128) -> (r: Result<(), LotteryError>)
    ensures
        !is_owner(old(state)@, sender@) ==> refused_sender(r, sender@) && final(state)@ == old(state)@,
        is_owner(old(state)@, sender@) ==> r is Ok && final(state)@ == (LotteryView { entry_fee, ..old(state)@ }),
{
    if !(*sender == state.owner) {
        return Err(LotteryError::Unauthorized { sender: sender.clone() });
    }
    state.update_entry_fee(entry_fee);
    Ok(())
}

/// Lets the owner hand the lottery to `owner`.
pub fn execute_update_owner(state: &mut LotteryState, sender: &String, owner: String) -> (r: Result<(), LotteryError>)
    ensures
        !is_owner(old(state)@, sender@) ==> refused_sender(r, sender@) && final(state)@ == old(state)@,
        is_owner(old(state)@, sender@) ==> r is Ok && final(state)@ == (LotteryView { owner: owner@, ..old(state)@ }),
{
    if !(*sender == state.owner) {
        return Err(LotteryError::Unauthorized { sender: sender.clone() });
    }
    state.owner = owner;
    Ok(())
}

/// Lets the owner pause or resume the lottery.
pub fn execute_update_pause_status(state: &mut LotteryState, sender: &String, pause_status: bool) -> (r: Result<(), LotteryError>)
    ensures
        !is_owner(old(state)@, sender@) ==> refused_sender(r, sender@) && final(state)@ == old(state)@,
        is_owner(old(state)@, sender@) ==> r is Ok && final(state)@ == (LotteryView { pause_status, ..old(state)@ }),
{
    if !(*sender == state.owner) {
        return Err(LotteryError::Unauthorized { sender: sender.clone() });
    }
    state.pause_status = pause_status;
    Ok(())
}

/// Lets the owner set the round duration, in seconds.
pub fn execute_update_round_duration(state: &mut LotteryState, sender: &String, round_duration: u64) -> (r: Result<(), LotteryError>)
    ensures
        !is_owner(old(state)@, sender@) ==> refused_sender(r, sender@) && final(state)@ == old(state)@,
        is_owner(old(state)@, sender@) ==> r is Ok && final(state)@ == (LotteryView { round_duration, ..old(state)@ }),
{
    if !(*sender == state.owner) {
        return Err(LotteryError::Unauthorized { sender: sender.clone() });
    }
    state.update_round_duration(round_duration);
    Ok(())
}

/// A copy of the current round, or a "Round not found" error.
pub fn query_current_round_info(state: &LotteryState) -> (r: Result<Round, StdError>)
    ensures
        r is Ok <==> state@.rounds.len() > 0,
        r matches Ok(c) ==> c@ == state@.rounds.last(),
        r is Err ==> r == Err::<Round, StdError>(generic_error("Round not found"@)),
{
    match state.current_round() {
        Some(current_round) => Ok(current_round.duplicate()),
        None => Err(generic_err("Round not found")),
    }
}

/// A copy of the round stored at position `round_number` (counting from
/// zero, so the round numbered `round_number + 1`), or a "Round not found" error.
pub fn query_round_info(state: &LotteryState, round_number: u64) -> (r: Result<Round, StdError>)
    ensures
        r is Ok <==> (round_number as usize) < state@.rounds.len(),
        r matches Ok(c) ==> c@ == state@.rounds[(round_number as usize) as int],
        r is Err ==> r == Err::<Round, StdError>(generic_error("Round not found"@)),
{
    let round_index = round_number as usize;
    if round_index < state.rounds.len() {
        let round = &state.rounds[round_index];
        assert(round@ == state@.rounds[round_index as int]);
        Ok(round.duplicate())
    } else {
        Err(generic_err("Round not found"))
    }
}


/// The winner's prize and the owner's share together pay out exactly the
/// balance, and the prize never exceeds the balance while the winner's
/// percentage is at most one hundred.
pub proof fn lemma_payout_splits_balance(balance: u128, win_percentage: u32)
    requires
        win_percentage <= 100,
    ensures
        balance * win_percentage <= u128::MAX ==> winner_share(balance, win_percentage) <= balance,
        winner_share(balance, win_percentage) + (balance - winner_share(balance, win_percentage))
            == balance,
{
    assert((balance * win_percentage) / 100 <= balance) by (nonlinear_arith)
        requires
            win_percentage <= 100,
            balance >= 0,
    ;
}

/// A purchase takes as many participant slots as it adds entries, rounded up:
/// at most one slot more than entries, and never fewer.
pub proof fn lemma_slots_round_entries_up(halves: u32, tickets: u32)
    requires
        halves <= 5,
    ensures
        join_entries(halves, tickets) <= join_slots(halves, tickets) <= join_entries(halves, tickets) + 1,
{
}


/// Whether a ticket purchase at `now` stays within the integer ranges that
/// `execute_join_lottery` requires: the entries of the round fit in `u32`
/// and the price of the tickets fits in `u128`.
pub fn join_fits(state: &LotteryState, now: u64, msg: &JoinLotteryMsg, nft_count: u32) -> (b: bool)
    requires
        state@.activity_check_fits(now),
    ensures
        b == (state@.active(now) ==> {
            &&& state@.rounds.last().current_entries + join_entries(
                entry_halves(nft_count),
                msg.number_of_tickets,
            ) <= u32::MAX
            &&& state.entry_fee * msg.number_of_tickets <= u128::MAX
        }),
{
    if !validate_lottery_active(state, now) {
        return true;
    }
    let halves = calculate_entry_halves(nft_count);
    assert(halves as u64 * msg.number_of_tickets as u64 <= 5 * 0xffff_ffffu64) by (nonlinear_arith)
        requires
            halves <= 5,
    ;
    let units: u64 = halves as u64 * msg.number_of_tickets as u64;
    let added: u64 = if units / 2 > 0xffff_ffffu64 {
        0xffff_ffffu64
    } else {
        units / 2
    };
    assert(added == join_entries(halves, msg.number_of_tickets));
    let n = state.rounds.len();
    let current_round = &state.rounds[n - 1];
    assert(current_round@ == state@.rounds.last());
    let entries_fit = current_round.current_entries as u64 + added <= 0xffff_ffffu64;
    let fee_fits = state.entry_fee.checked_mul(msg.number_of_tickets as u128).is_some();
    entries_fit && fee_fits
}

} // verus!
