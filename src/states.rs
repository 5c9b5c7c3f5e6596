use vstd::prelude::*;
use crate::pubkey::Pubkey;

verus! {

/// A raffle: its configuration, its sale window and how many tickets it sold.
#[derive(Clone, Copy, Debug)]
pub struct RaffleState {
    pub raffle_id: u64,
    /// The raffle's owner.
    pub authority: Pubkey,
    /// The token in which tickets are paid.
    pub ticket_mint: Pubkey,
    /// The account that receives the proceeds.
    pub proceeds_token_account: Pubkey,
    /// The price of one ticket, in the token's smallest unit.
    pub ticket_price: u64,
    pub max_tickets: u64,
    /// The first moment of the sale window.
    pub start_time: i64,
    /// The last moment of the sale window.
    pub end_time: i64,
    pub total_tickets_sold: u64,
    /// Set once, when the winner is drawn.
    pub is_finalized: bool,
    /// The token of which one unit goes to the winner, if any.
    pub prize_mint: Option<Pubkey>,
}

impl RaffleState {
    /// The invariant of a raffle: it never sold more tickets than it offers,
    /// and its window does not end before it starts.
    pub open spec fn wf(&self) -> bool {
        &&& self.total_tickets_sold <= self.max_tickets
        &&& self.start_time <= self.end_time
    }
}

/// The tickets that one participant bought in one raffle.
#[derive(Clone, Copy, Debug)]
pub struct ParticipantTickets {
    /// Set on the first purchase.
    pub participant: Pubkey,
    pub tickets_bought: u64,
    /// Set on the first purchase.
    pub first_purchase_time: i64,
}

impl ParticipantTickets {
    /// The record of a participant who has bought nothing yet.
    pub fn empty() -> (r: ParticipantTickets)
        ensures
            r.participant@ == crate::pubkey::unset_bytes(),
            r.tickets_bought == 0,
            r.first_purchase_time == 0,
    {
        ParticipantTickets {
            participant: Pubkey::default_key(),
            tickets_bought: 0,
            first_purchase_time: 0,
        }
    }
}

/// The outcome of a raffle's draw.
#[derive(Clone, Copy, Debug)]
pub struct WinningTicket {
    /// The address of the raffle drawn.
    pub raffle_state: Pubkey,
    /// The winner, unset until the prize is first claimed.
    pub winner: Pubkey,
    /// The index of the winning ticket among the tickets sold.
    pub winning_ticket_number: u64,
    pub draw_time: i64,
}

} // verus!
