use vstd::prelude::*;

verus! {

/// The parameters a lottery is created with.
#[derive(Clone, Debug, PartialEq)]
pub struct InstantiateMsg {
    /// Length of a round, in seconds.
    pub round_duration: u64,
    /// Cool-down after a round, in seconds.
    pub cooldown_period: u64,
    /// Percentage of the balance that goes to the winner.
    pub win_percentage: u32,
    pub entry_fee: u128,
    pub pause_status: bool,
    /// Address of the randomness proxy.
    pub nois_proxy: String,
}

/// A request to buy tickets for the current round.
#[derive(Clone, Debug, PartialEq)]
pub struct JoinLotteryMsg {
    pub sender: String,
    pub number_of_tickets: u32,
    /// When the player entered, in nanoseconds since the epoch.
    pub round_entered_time: u64,
}

/// Randomness delivered by the proxy for a job.
#[derive(Clone, Debug, PartialEq)]
pub struct RandomnessCallback {
    /// The job the randomness answers.
    pub job_id: String,
    /// When the randomness was published, in nanoseconds since the epoch.
    pub published: u64,
    /// The random bytes; a valid delivery holds 32 of them.
    pub randomness: Vec<u8>,
}

/// The requests that change the lottery.
#[derive(Clone, Debug, PartialEq)]
pub enum ExecuteMsg {
    JoinLottery(JoinLotteryMsg),
    UpdateEntries(u32),
    UpdateEntryFee(u128),
    UpdateCooldownPeriod(u64),
    UpdateRoundDuration(u64),
    UpdateOwner(String),
    UpdatePauseStatus(bool),
    SelectWinners { job_id: String },
    NoisReceive { callback: RandomnessCallback },
    CreateRound,
}

/// Which round a query asks about.
#[derive(Clone, Debug, PartialEq, Eq)]
pub struct RoundInfoQuery {
    pub round_number: u64,
}

/// Which participant a query asks about.
#[derive(Clone, Debug, PartialEq, Eq)]
pub struct ParticipantInfoQuery {
    pub participant_address: String,
}

/// The requests that read the lottery.
#[derive(Clone, Debug, PartialEq, Eq)]
pub enum QueryMsg {
    LotteryInfo {},
    CurrentRoundInfo {},
    RoundInfo(RoundInfoQuery),
}

} // verus!
