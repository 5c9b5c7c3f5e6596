//! A ticketed raffle: tickets are sold during a fixed window, a winner is drawn
//! pseudo-randomly after the window closes, and the winner claims the prize.
//!
//! Every operation is a verified function from the records it reads (and the
//! current time) to the records it writes and the transfer it asks for.
//! Storage, the clock and token transfers are left to the caller, which runs
//! each operation and its transfer as one atomic step.
use vstd::prelude::*;

pub mod errors;
pub mod pubkey;
pub mod random;
pub mod accounting;
pub mod states;
pub mod events;
pub mod context;
pub mod lifecycle_laws;

use crate::accounting::TicketCost;
use crate::context::{
    buy_ticket_post, claim_prize_post, draw_winner_post, BuyTicket, BuyTicketParams, ClaimPrize,
    CloseRaffle, DrawWinner, InitializeRaffle, InitializeRaffleParams,
};
use crate::errors::RaffleError;
use crate::states::{RaffleState, WinningTicket};

verus! {

/// Entry point: buys tickets (see [`context::buy_ticket`]).
pub fn buy_tickets(ctx: &mut BuyTicket, params: BuyTicketParams, current_time: i64) -> (r: Result<TicketCost, RaffleError>)
    ensures
        buy_ticket_post(*old(ctx), *final(ctx), params.ticket_quantity, current_time, r),
        old(ctx).raffle_state.wf() ==> final(ctx).raffle_state.wf(),
{
    context::buy_ticket(ctx, params, current_time)
}

/// Entry point: claims the prize (see [`context::claim_prize`]).
pub fn claim_prizes(ctx: &mut ClaimPrize) -> (r: Result<u64, RaffleError>)
    ensures
        claim_prize_post(*old(ctx), *final(ctx), r),
{
    context::claim_prize(ctx)
}

/// Entry point: closes a raffle (see [`context::close_raffle`]).
pub fn close_raffles(ctx: &CloseRaffle) -> (r: Result<(), RaffleError>)
    ensures
        r is Ok <==> ctx.raffle_state.is_finalized,
        r is Err ==> r == Err::<(), RaffleError>(RaffleError::RaffleNotFinalized),
{
    context::close_raffle(ctx)
}

/// Entry point: draws the winner (see [`context::draw_winner`]).
pub fn draw_winners(ctx: &mut DrawWinner, current_time: i64) -> (r: Result<WinningTicket, RaffleError>)
    ensures
        draw_winner_post(*old(ctx), *final(ctx), current_time, r),
        old(ctx).raffle_state.wf() ==> final(ctx).raffle_state.wf(),
{
    context::draw_winner(ctx, current_time)
}

/// Entry point: creates a raffle (see [`context::initialize_raffle`]).
pub fn initialize_raffles(ctx: &InitializeRaffle, params: InitializeRaffleParams, current_time: i64) -> (r: Result<RaffleState, RaffleError>)
    ensures
        current_time + params.duration_seconds > i64::MAX ==> r == Err::<RaffleState, RaffleError>(
            RaffleError::InvalidDuration,
        ),
        current_time + params.duration_seconds <= i64::MAX ==> r is Ok,
        r matches Ok(s) ==> {
            &&& s.wf()
            &&& s.raffle_id == params.raffle_id
            &&& s.authority == ctx.authority
            &&& s.ticket_mint == ctx.ticket_mint
            &&& s.proceeds_token_account == ctx.proceeds_token_account
            &&& s.ticket_price == params.ticket_price
            &&& s.max_tickets == params.max_tickets
            &&& s.start_time == current_time
            &&& s.end_time == current_time + params.duration_seconds
            &&& s.total_tickets_sold == 0
            &&& !s.is_finalized
            &&& s.prize_mint == params.prize_mint
        },
{
    context::initialize_raffle(ctx, params, current_time)
}

} // verus!
