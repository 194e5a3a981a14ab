use vstd::prelude::*;
use cosmwasm_std::StdError;
use crate::error::{generic_err, generic_error};

verus! {

/// Nanoseconds in one second: points in time are kept in nanoseconds since the epoch.
pub const NANOS_PER_SECOND: u64 = 1_000_000_000;

/// The point in time `nanos` moved forward by `seconds` whole seconds.
pub open spec fn spec_plus_seconds(nanos: u64, seconds: u64) -> int {
    nanos + seconds * 1_000_000_000
}

/// Moves a point in time, in nanoseconds, forward by whole seconds, through
/// `cosmwasm_std::Timestamp::plus_seconds`. Its source adds `seconds * 10^9`
/// nanoseconds and panics when the sum leaves the `u64` range, which `requires` rules out.
#[verifier::external_body]
pub(crate) fn plus_seconds(nanos: u64, seconds: u64) -> (r: u64)
    requires
        spec_plus_seconds(nanos, seconds) <= u64::MAX,
    ensures
        r == spec_plus_seconds(nanos, seconds),
{
    cosmwasm_std::Timestamp::from_nanos(nanos).plus_seconds(seconds).nanos()
}

/// The view of an optional string.
pub open spec fn opt_str_view(o: Option<String>) -> Option<Seq<char>> {
    match o {
        Some(s) => Some(s@),
        None => None,
    }
}

/// One round of the lottery.
#[derive(Debug, Clone)]
pub struct Round {
    pub round_number: u64,
    /// Start of the round, in nanoseconds since the epoch.
    pub round_start_time: u64,
    pub current_entries: u32,
    pub participants: Vec<String>,
    pub winner: Option<String>,
    pub job_id: Option<String>,
}

/// The mathematical model of a round.
pub struct RoundView {
    pub round_number: u64,
    pub round_start_time: u64,
    pub current_entries: u32,
    pub participants: Seq<Seq<char>>,
    pub winner: Option<Seq<char>>,
    pub job_id: Option<Seq<char>>,
}

impl View for Round {
    type V = RoundView;

    open spec fn view(&self) -> RoundView {
        RoundView {
            round_number: self.round_number,
            round_start_time: self.round_start_time,
            current_entries: self.current_entries,
            participants: self.participants@.map_values(|p: String| p@),
            winner: opt_str_view(self.winner),
            job_id: opt_str_view(self.job_id),
        }
    }
}

impl RoundView {
    /// A fresh round: no entries, no participants, no winner, no job.
    pub open spec fn fresh(round_number: u64, round_start_time: u64) -> RoundView {
        RoundView {
            round_number,
            round_start_time,
            current_entries: 0,
            participants: Seq::empty(),
            winner: None,
            job_id: None,
        }
    }
}

/// Copies an optional string.
fn clone_opt_string(o: &Option<String>) -> (r: Option<String>)
    ensures
        opt_str_view(r) == opt_str_view(*o),
{
    match o {
        Some(s) => Some(s.clone()),
        None => None,
    }
}

/// Copies a list of strings.
fn clone_strings(v: &Vec<String>) -> (r: Vec<String>)
    ensures
        r@.map_values(|p: String| p@) == v@.map_values(|p: String| p@),
{
    let mut r: Vec<String> = Vec::new();
    let mut i: usize = 0;
    while i < v.len()
        invariant
            i <= v.len(),
            r@.len() == i,
            forall|j: int| 0 <= j < i ==> #[trigger] r@[j]@ == v@[j]@,
        decreases v.len() - i,
    {
        r.push(v[i].clone());
        i = i + 1;
    }
    assert(r@.map_values(|p: String| p@) =~= v@.map_values(|p: String| p@));
    r
}

impl Round {
    /// Creates round `round_number` starting at `round_start_time` (nanoseconds),
    /// with no entries, participants, winner or job.
    pub fn new(round_number: u64, round_start_time: u64) -> (r: Round)
        ensures
            r@ == RoundView::fresh(round_number, round_start_time),
    {
        let r = Round {
            round_number,
            round_start_time,
            current_entries: 0,
            participants: Vec::new(),
            winner: None,
            job_id: None,
        };
        assert(r@.participants =~= Seq::<Seq<char>>::empty());
        r
    }

    /// A copy of this round.
    pub fn duplicate(&self) -> (r: Round)
        ensures
            r@ == self@,
    {
        Round {
            round_number: self.round_number,
            round_start_time: self.round_start_time,
            current_entries: self.current_entries,
            participants: clone_strings(&self.participants),
            winner: clone_opt_string(&self.winner),
            job_id: clone_opt_string(&self.job_id),
        }
    }
}

/// The whole state of the lottery.
#[derive(Debug, Clone)]
pub struct LotteryState {
    pub rounds: Vec<Round>,
    /// Length of a round, in seconds.
    pub round_duration: u64,
    /// Cool-down after a round, in seconds.
    pub cooldown_period: u64,
    /// Percentage of the balance that goes to the winner.
    pub win_percentage: u32,
    pub entry_fee: u128,
    pub nft_bonus_percentage: u32,
    pub owner: String,
    pub pause_status: bool,
}

/// The mathematical model of the lottery state.
pub struct LotteryView {
    pub rounds: Seq<RoundView>,
    pub round_duration: u64,
    pub cooldown_period: u64,
    pub win_percentage: u32,
    pub entry_fee: u128,
    pub nft_bonus_percentage: u32,
    pub owner: Seq<char>,
    pub pause_status: bool,
}

impl View for LotteryState {
    type V = LotteryView;

    open spec fn view(&self) -> LotteryView {
        LotteryView {
            rounds: self.rounds@.map_values(|r: Round| r@),
            round_duration: self.round_duration,
            cooldown_period: self.cooldown_period,
            win_percentage: self.win_percentage,
            entry_fee: self.entry_fee,
            nft_bonus_percentage: self.nft_bonus_percentage,
            owner: self.owner@,
            pause_status: self.pause_status,
        }
    }
}

/// What `LotteryState::is_lottery_active` answers.
pub enum Activity {
    /// `Ok(b)`.
    Answer(bool),
    /// The cool-down period is active.
    CoolingDown,
    /// Past the cool-down.
    StillActive,
}

impl LotteryView {
    /// The last round, if there is one.
    pub open spec fn current_round(self) -> Option<RoundView> {
        if self.rounds.len() > 0 {
            Some(self.rounds.last())
        } else {
            None
        }
    }

    /// This state with its last round replaced by `r`.
    pub open spec fn with_last_round(self, r: RoundView) -> LotteryView {
        LotteryView { rounds: self.rounds.update(self.rounds.len() - 1, r), ..self }
    }

    /// The end of the last round, in nanoseconds.
    pub open spec fn round_end(self) -> int
        recommends
            self.rounds.len() > 0,
    {
        spec_plus_seconds(self.rounds.last().round_start_time, self.round_duration)
    }

    /// The end of the cool-down after the last round, in nanoseconds.
    pub open spec fn cooldown_end(self) -> int
        recommends
            self.rounds.len() > 0,
    {
        self.round_end() + self.cooldown_period * 1_000_000_000
    }

    /// The time arithmetic of `is_cooldown_over` stays within `u64`.
    pub open spec fn cooldown_check_fits(self) -> bool {
        self.rounds.len() > 0 ==> spec_plus_seconds(
            self.rounds.last().round_start_time,
            self.cooldown_period,
        ) <= u64::MAX
    }

    /// Whether the cool-down period counted from the start of the last round is over.
    pub open spec fn cooldown_over(self, now: u64) -> bool {
        if self.rounds.len() > 0 {
            now >= spec_plus_seconds(self.rounds.last().round_start_time, self.cooldown_period)
        } else {
            true
        }
    }

    /// The round is running now and the lottery is not paused.
    pub open spec fn running(self, now: u64) -> bool {
        self.rounds.len() > 0 && now <= self.round_end() && !self.pause_status
    }

    /// The time arithmetic of `is_lottery_active` stays within `u64` at `now`.
    pub open spec fn activity_check_fits(self, now: u64) -> bool {
        self.rounds.len() > 0 ==> {
            &&& self.round_end() <= u64::MAX
            &&& !self.running(now) ==> self.cooldown_end() <= u64::MAX
        }
    }

    /// The answer of `is_lottery_active` at `now`.
    pub open spec fn activity(self, now: u64) -> Activity {
        if self.rounds.len() == 0 {
            Activity::Answer(false)
        } else if self.running(now) {
            Activity::Answer(true)
        } else if now <= self.cooldown_end() {
            Activity::CoolingDown
        } else {
            Activity::StillActive
        }
    }

    /// The lottery takes entries at `now`.
    pub open spec fn active(self, now: u64) -> bool {
        self.activity(now) == Activity::Answer(true)
    }

    /// The last round has ended at `now`.
    pub open spec fn round_over(self, now: u64) -> bool {
        self.rounds.len() > 0 && now >= self.round_end()
    }

    /// Round `i` (from zero) carries number `i + 1`.
    pub open spec fn rounds_numbered(self) -> bool {
        forall|i: int| 0 <= i < self.rounds.len() ==> #[trigger] self.rounds[i].round_number == i + 1
    }
}

/// The view of an answer of `is_lottery_active`.
pub open spec fn activity_of(r: Result<bool, String>) -> Option<Activity> {
    match r {
        Ok(b) => Some(Activity::Answer(b)),
        Err(e) => if e@ == "Cool-down period is active."@ {
            Some(Activity::CoolingDown)
        } else if e@ == "Round is still active."@ {
            Some(Activity::StillActive)
        } else {
            None
        },
    }
}

impl LotteryState {
    /// Creates a lottery with the given parameters and no rounds.
    pub fn new(
        round_duration: u64,
        cooldown_period: u64,
        win_percentage: u32,
        entry_fee: u128,
        owner: String,
        pause_status: bool,
    ) -> (s: LotteryState)
        ensures
            s@ == (LotteryView {
                rounds: Seq::empty(),
                round_duration,
                cooldown_period,
                win_percentage,
                entry_fee,
                nft_bonus_percentage: 0,
                owner: owner@,
                pause_status,
            }),
    {
        let s = LotteryState {
            rounds: Vec::new(),
            round_duration,
            cooldown_period,
            win_percentage,
            entry_fee,
            nft_bonus_percentage: 0,
            owner,
            pause_status,
        };
        assert(s@.rounds =~= Seq::<RoundView>::empty());
        s
    }

    /// The current (last) round, if any.
    pub fn current_round(&self) -> (r: Option<&Round>)
        ensures
            match r {
                Some(c) => self@.current_round() == Some(c@),
                None => self@.current_round() is None,
            },
    {
        let n = self.rounds.len();
        if n > 0 {
            Some(&self.rounds[n - 1])
        } else {
            None
        }
    }
}


impl RoundView {
    /// This round after `entries` more entries by `participant`.
    pub open spec fn entered(self, entries: u32, participant: Seq<char>) -> RoundView
        recommends
            self.current_entries + entries <= u32::MAX,
    {
        RoundView {
            current_entries: (self.current_entries + entries) as u32,
            participants: self.participants.push(participant),
            ..self
        }
    }
}

impl LotteryState {
    /// Takes the last round out, to put it back after changing it.
    pub(crate) fn take_last_round(&mut self) -> (r: Round)
        requires
            old(self).rounds@.len() > 0,
        ensures
            r@ == old(self)@.rounds.last(),
            final(self).rounds@ == old(self).rounds@.drop_last(),
            final(self)@ == (LotteryView { rounds: old(self)@.rounds.drop_last(), ..old(self)@ }),
    {
        let r = self.rounds.pop().unwrap();
        assert(self@.rounds =~= old(self)@.rounds.drop_last());
        r
    }

    /// Puts a round back at the end.
    pub(crate) fn put_last_round(&mut self, r: Round)
        ensures
            final(self)@ == (LotteryView { rounds: old(self)@.rounds.push(r@), ..old(self)@ }),
    {
        self.rounds.push(r);
        assert(self@.rounds =~= old(self)@.rounds.push(r@));
    }

    /// Adds `entries` entries and the participant to the current round; does
    /// nothing when there is no round.
    pub fn update_entries(&mut self, entries: u32, participant: String)
        requires
            old(self)@.rounds.len() > 0 ==> old(self)@.rounds.last().current_entries + entries
                <= u32::MAX,
        ensures
            old(self)@.rounds.len() > 0 ==> final(self)@ == old(self)@.with_last_round(
                old(self)@.rounds.last().entered(entries, participant@),
            ),
            old(self)@.rounds.len() == 0 ==> final(self)@ == old(self)@,
            old(self)@.rounds_numbered() ==> final(self)@.rounds_numbered(),
    {
        if self.rounds.len() > 0 {
            let ghost before = self@;
            proof {
                if before.rounds_numbered() {
                    lemma_round_update_keeps_numbering(before, before.rounds.last().entered(entries, participant@));
                }
            }
            let mut r = self.take_last_round();
            r.current_entries = r.current_entries + entries;
            let ghost p = r.participants@;
            r.participants.push(participant);
            assert(r@.participants =~= before.rounds.last().participants.push(participant@)) by {
                assert(r.participants@ == p.push(participant));
            }
            self.put_last_round(r);
            assert(self@.rounds =~= before.with_last_round(
                before.rounds.last().entered(entries, participant@)).rounds);
        }
    }

    /// Sets the winner's percentage of the balance.
    pub fn update_fee_percentage(&mut self, win_percentage: u32)
        ensures
            final(self)@ == (LotteryView { win_percentage, ..old(self)@ }),
    {
        self.win_percentage = win_percentage;
    }

    /// Sets the price of one ticket.
    pub fn update_entry_fee(&mut self, entry_fee: u128)
        ensures
            final(self)@ == (LotteryView { entry_fee, ..old(self)@ }),
    {
        self.entry_fee = entry_fee;
    }

    /// Sets the cool-down period, in seconds.
    pub fn update_cooldown_period(&mut self, cooldown_period: u64)
        ensures
            final(self)@ == (LotteryView { cooldown_period, ..old(self)@ }),
    {
        self.cooldown_period = cooldown_period;
    }

    /// Sets the round duration, in seconds.
    pub fn update_round_duration(&mut self, round_duration: u64)
        ensures
            final(self)@ == (LotteryView { round_duration, ..old(self)@ }),
    {
        self.round_duration = round_duration;
    }

    /// Records the winner of the current round; fails when there is no round.
    pub fn update_last_winner(&mut self, winner: Option<String>) -> (r: Result<(), StdError>)
        ensures
            r is Ok <==> old(self)@.rounds.len() > 0,
            r is Ok ==> final(self)@ == old(self)@.with_last_round(
                RoundView { winner: opt_str_view(winner), ..old(self)@.rounds.last() },
            ),
            r is Err ==> final(self)@ == old(self)@,
            r is Err ==> r == Err::<(), StdError>(generic_error("No rounds available"@)),
            old(self)@.rounds_numbered() ==> final(self)@.rounds_numbered(),
    {
        if self.rounds.len() > 0 {
            let ghost before = self@;
            proof {
                if before.rounds_numbered() {
                    lemma_round_update_keeps_numbering(
                        before,
                        RoundView { winner: opt_str_view(winner), ..before.rounds.last() },
                    );
                }
            }
            let mut r = self.take_last_round();
            r.winner = winner;
            self.put_last_round(r);
            assert(self@.rounds =~= before.with_last_round(
                RoundView { winner: opt_str_view(winner), ..before.rounds.last() }).rounds);
            Ok(())
        } else {
            Err(generic_err("No rounds available"))
        }
    }

    /// Records the randomness job of the current round; fails when there is no round.
    pub fn update_job_id(&mut self, job_id: Option<String>) -> (r: Result<(), StdError>)
        ensures
            r is Ok <==> old(self)@.rounds.len() > 0,
            r is Ok ==> final(self)@ == old(self)@.with_last_round(
                RoundView { job_id: opt_str_view(job_id), ..old(self)@.rounds.last() },
            ),
            r is Err ==> final(self)@ == old(self)@,
            r is Err ==> r == Err::<(), StdError>(generic_error("No rounds available"@)),
            old(self)@.rounds_numbered() ==> final(self)@.rounds_numbered(),
    {
        if self.rounds.len() > 0 {
            let ghost before = self@;
            proof {
                if before.rounds_numbered() {
                    lemma_round_update_keeps_numbering(
                        before,
                        RoundView { job_id: opt_str_view(job_id), ..before.rounds.last() },
                    );
                }
            }
            let mut r = self.take_last_round();
            r.job_id = job_id;
            self.put_last_round(r);
            assert(self@.rounds =~= before.with_last_round(
                RoundView { job_id: opt_str_view(job_id), ..before.rounds.last() }).rounds);
            Ok(())
        } else {
            Err(generic_err("No rounds available"))
        }
    }

    /// This state with another owner.
    pub fn update_owner(self, owner: String) -> (s: LotteryState)
        ensures
            s@ == (LotteryView { owner: owner@, ..self@ }),
    {
        let mut s = self;
        s.owner = owner;
        s
    }

    /// This state with another pause status.
    pub fn update_pause_status(self, pause_status: bool) -> (s: LotteryState)
        ensures
            s@ == (LotteryView { pause_status, ..self@ }),
    {
        let mut s = self;
        s.pause_status = pause_status;
        s
    }

    /// Whether the cool-down period, counted from the start of the last round,
    /// is over at `current_time`; with no rounds it is.
    pub fn is_cooldown_over(&self, current_time: u64) -> (b: bool)
        requires
            self@.cooldown_check_fits(),
        ensures
            b == self@.cooldown_over(current_time),
    {
        let n = self.rounds.len();
        if n > 0 {
            let last = &self.rounds[n - 1];
            let cooldown_end_time = plus_seconds(last.round_start_time, self.cooldown_period);
            return current_time >= cooldown_end_time;
        }
        true
    }

    /// Opens a new round, numbered one past the number of rounds so far.
    pub fn start_new_round(&mut self, round_start_time: u64)
        requires
            old(self).rounds@.len() < u64::MAX,
        ensures
            final(self)@ == (LotteryView {
                rounds: old(self)@.rounds.push(
                    RoundView::fresh((old(self)@.rounds.len() + 1) as u64, round_start_time),
                ),
                ..old(self)@
            }),
            old(self)@.rounds_numbered() ==> final(self)@.rounds_numbered(),
    {
        proof {
            if self@.rounds_numbered() {
                lemma_new_round_keeps_numbering(self@, round_start_time);
            }
        }
        let round_number = self.rounds.len() as u64 + 1;
        let round = Round::new(round_number, round_start_time);
        self.put_last_round(round);
    }

    /// Whether the lottery takes entries at `current_time`: `Ok(true)` while the
    /// last round runs and the lottery is not paused, `Ok(false)` with no round;
    /// otherwise an error that says whether the cool-down after the round is on.
    pub fn is_lottery_active(&self, current_time: u64) -> (r: Result<bool, String>)
        requires
            self@.activity_check_fits(current_time),
        ensures
            activity_of(r) == Some(self@.activity(current_time)),
    {
        let n = self.rounds.len();
        if n > 0 {
            let current_round = &self.rounds[n - 1];
            assert(current_round@ == self@.rounds.last());
            let round_end_time = plus_seconds(current_round.round_start_time, self.round_duration);
            let within_round_duration = current_time <= round_end_time;
            let not_paused = !self.pause_status;
            if within_round_duration && not_paused {
                Ok(true)
            } else {
                let cooldown_end_time = plus_seconds(round_end_time, self.cooldown_period);
                if current_time <= cooldown_end_time {
                    let msg = "Cool-down period is active.".to_owned();
                    proof {
                        reveal_strlit("Round is still active.");
                        reveal_strlit("Cool-down period is active.");
                        assert(msg@[0] == 'C');
                        assert(self@.activity(current_time) == Activity::CoolingDown);
                    }
                    Err(msg)
                } else {
                    let msg = "Round is still active.".to_owned();
                    proof {
                        reveal_strlit("Round is still active.");
                        reveal_strlit("Cool-down period is active.");
                        assert("Cool-down period is active."@[0] == 'C');
                        assert(self@.activity(current_time) == Activity::StillActive);
                    }
                    Err(msg)
                }
            }
        } else {
            Ok(false)
        }
    }
}


/// Opening a round keeps the rounds numbered by position: the new round,
/// numbered one past the count so far, lands at that position.
pub proof fn lemma_new_round_keeps_numbering(state: LotteryView, round_start_time: u64)
    requires
        state.rounds_numbered(),
        state.rounds.len() < u64::MAX,
    ensures
        (LotteryView {
            rounds: state.rounds.push(
                RoundView::fresh((state.rounds.len() + 1) as u64, round_start_time),
            ),
            ..state
        }).rounds_numbered(),
{
    let next = LotteryView {
        rounds: state.rounds.push(
            RoundView::fresh((state.rounds.len() + 1) as u64, round_start_time),
        ),
        ..state
    };
    assert forall|i: int| 0 <= i < next.rounds.len() implies #[trigger] next.rounds[i].round_number == i + 1 by {
        if i < state.rounds.len() {
            assert(next.rounds[i] == state.rounds[i]);
        }
    }
}

/// Changing the current round without renumbering it keeps the rounds
/// numbered by position; entries, winners and jobs are such changes.
pub proof fn lemma_round_update_keeps_numbering(state: LotteryView, round: RoundView)
    requires
        state.rounds_numbered(),
        state.rounds.len() > 0,
        round.round_number == state.rounds.last().round_number,
    ensures
        state.with_last_round(round).rounds_numbered(),
{
    let next = state.with_last_round(round);
    assert forall|i: int| 0 <= i < next.rounds.len() implies #[trigger] next.rounds[i].round_number == i + 1 by {
        if i < state.rounds.len() - 1 {
            assert(next.rounds[i] == state.rounds[i]);
        }
    }
}


impl LotteryState {
    /// Whether the end of the current round, in nanoseconds, fits in `u64`
    /// (true when there is no round).
    pub fn round_end_fits(&self) -> (b: bool)
        ensures
            b == (self@.rounds.len() > 0 ==> self@.round_end() <= u64::MAX),
    {
        let n = self.rounds.len();
        if n == 0 {
            return true;
        }
        let current_round = &self.rounds[n - 1];
        assert(current_round@ == self@.rounds.last());
        match self.round_duration.checked_mul(NANOS_PER_SECOND) {
            None => false,
            Some(d) => current_round.round_start_time.checked_add(d).is_some(),
        }
    }

    /// Whether the time arithmetic of `is_lottery_active` at `current_time`
    /// stays within `u64`.
    pub fn activity_fits(&self, current_time: u64) -> (b: bool)
        ensures
            b == self@.activity_check_fits(current_time),
    {
        let n = self.rounds.len();
        if n == 0 {
            return true;
        }
        let current_round = &self.rounds[n - 1];
        assert(current_round@ == self@.rounds.last());
        let end = match self.round_duration.checked_mul(NANOS_PER_SECOND) {
            None => return false,
            Some(d) => match current_round.round_start_time.checked_add(d) {
                None => return false,
                Some(e) => e,
            },
        };
        if current_time <= end && !self.pause_status {
            return true;
        }
        match self.cooldown_period.checked_mul(NANOS_PER_SECOND) {
            None => false,
            Some(c) => end.checked_add(c).is_some(),
        }
    }
}

/// A lottery without rounds never takes entries, so it can never have its
/// first round opened by a request that requires it to be active.
pub proof fn lemma_no_round_never_active(state: LotteryView, now: u64)
    requires
        state.rounds.len() == 0,
    ensures
        !state.active(now),
        !state.round_over(now),
{
}


impl Default for Round {
    /// Round zero, starting at time zero, with nothing in it.
    fn default() -> (r: Round)
        ensures
            r@ == RoundView::fresh(0, 0),
    {
        Round::new(0, 0)
    }
}

impl Default for LotteryState {
    /// A lottery with no rounds, zero durations, percentages and fee, an empty
    /// owner, and not paused.
    fn default() -> (s: LotteryState)
        ensures
            s@ == (LotteryView {
                rounds: Seq::empty(),
                round_duration: 0,
                cooldown_period: 0,
                win_percentage: 0,
                entry_fee: 0,
                nft_bonus_percentage: 0,
                owner: Seq::empty(),
                pause_status: false,
            }),
    {
        LotteryState::new(0, 0, 0, 0, String::new(), false)
    }
}

} // verus!
