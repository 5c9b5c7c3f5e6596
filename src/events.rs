use vstd::prelude::*;
use crate::pubkey::Pubkey;

verus! {

/// Announces a new raffle.
#[derive(Clone, Copy, Debug)]
pub struct RaffleInitialized {
    pub raffle_id: u64,
    pub authority: Pubkey,
}

/// Announces a purchase of tickets.
#[derive(Clone, Copy, Debug)]
pub struct TicketsBought {
    pub participant: Pubkey,
    pub ticket_quantity: u64,
}

/// Announces the draw of a raffle.
#[derive(Clone, Copy, Debug)]
pub struct WinnerDrawn {
    pub raffle_id: u64,
    pub winning_ticket_number: u64,
}

/// Announces a claim of the prize.
#[derive(Clone, Copy, Debug)]
pub struct PrizeClaimed {
    pub raffle_id: u64,
    pub winner: Pubkey,
}

} // verus!
