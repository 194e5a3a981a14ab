//! A lottery run in rounds: the owner opens rounds, players buy tickets
//! (with a bonus for holding NFTs), and a random draw picks the winner, who
//! shares the balance with the owner.

pub mod error;
pub mod state;
pub mod helpers;
pub mod msg;
pub mod contract;
pub mod laws;
