use vstd::prelude::*;
use crate::accounting::{fee_of, ticket_cost, tickets_after_purchase, TicketCost};
use crate::errors::RaffleError;
use crate::pubkey::{unset_bytes, Pubkey};
use crate::random::{generate_pseudo_random_winner, winner_index};
use crate::states::{ParticipantTickets, RaffleState, WinningTicket};

verus! {

/// The number of prize tokens that a claim pays out, where the raffle has a
/// prize token.
pub const PRIZE_AMOUNT: u64 = 1;

/// The parameters of a new raffle.
#[derive(Clone, Copy, Debug)]
pub struct InitializeRaffleParams {
    pub raffle_id: u64,
    pub ticket_price: u64,
    pub max_tickets: u64,
    /// The length of the sale window, in seconds.
    pub duration_seconds: u64,
    pub prize_mint: Option<Pubkey>,
}

/// What a new raffle is created from besides its parameters.
#[derive(Clone, Copy, Debug)]
pub struct InitializeRaffle {
    /// The signer creating the raffle, who becomes its owner.
    pub authority: Pubkey,
    pub ticket_mint: Pubkey,
    pub proceeds_token_account: Pubkey,
}

/// The parameters of a purchase.
#[derive(Clone, Copy, Debug)]
pub struct BuyTicketParams {
    pub ticket_quantity: u64,
}

/// The records that a purchase reads and writes.
#[derive(Clone, Copy, Debug)]
pub struct BuyTicket {
    pub raffle_state: RaffleState,
    /// The buyer's record in this raffle ([`ParticipantTickets::empty`] before
    /// the first purchase).
    pub participant_tickets: ParticipantTickets,
    /// The signer buying the tickets.
    pub participant: Pubkey,
}

/// The records that a draw reads and writes.
#[derive(Clone, Copy, Debug)]
pub struct DrawWinner {
    pub raffle_state: RaffleState,
    /// The address of the raffle record.
    pub raffle_key: Pubkey,
}

/// The records that a claim reads and writes.
#[derive(Clone, Copy, Debug)]
pub struct ClaimPrize {
    pub raffle_state: RaffleState,
    pub winning_ticket: WinningTicket,
    /// The signer claiming the prize.
    pub winner: Pubkey,
}

/// The record that closing a raffle reads.
#[derive(Clone, Copy, Debug)]
pub struct CloseRaffle {
    pub raffle_state: RaffleState,
}

/// Whether the sale window of `r` holds `now`, both ends included.
pub open spec fn in_window(r: RaffleState, now: i64) -> bool {
    r.start_time <= now <= r.end_time
}

/// The raffle record after a sale of `qty` tickets at `now`, or why the sale
/// is refused.
pub open spec fn sell(r: RaffleState, qty: u64, now: i64) -> Result<RaffleState, RaffleError> {
    if !in_window(r, now) {
        Err(RaffleError::RaffleNotActive)
    } else if r.total_tickets_sold + qty > u64::MAX {
        Err(RaffleError::TicketPurchaseExceedsLimit)
    } else if r.total_tickets_sold + qty > r.max_tickets {
        Err(RaffleError::MaxTicketsExceeded)
    } else {
        Ok(RaffleState { total_tickets_sold: (r.total_tickets_sold + qty) as u64, ..r })
    }
}

/// The participant's record after buying `qty` more tickets at `now`: the
/// first purchase records who bought and when.
pub open spec fn record_purchase(p: ParticipantTickets, buyer: Pubkey, qty: u64, now: i64) -> ParticipantTickets {
    ParticipantTickets {
        participant: if p.tickets_bought == 0 { buyer } else { p.participant },
        tickets_bought: (p.tickets_bought + qty) as u64,
        first_purchase_time: if p.tickets_bought == 0 { now } else { p.first_purchase_time },
    }
}

/// Why a purchase of `qty` tickets at `now` is refused, if it is: checked in
/// the order window, capacity, the buyer's own count, price.
pub open spec fn buy_error(c: BuyTicket, qty: u64, now: i64) -> Option<RaffleError> {
    match sell(c.raffle_state, qty, now) {
        Err(e) => Some(e),
        Ok(_) => if c.participant_tickets.tickets_bought + qty > u64::MAX {
            Some(RaffleError::TicketPurchaseOverflow)
        } else if c.raffle_state.ticket_price * qty > u64::MAX {
            Some(RaffleError::TicketPriceCalculationError)
        } else {
            None
        },
    }
}

/// What a purchase of `qty` tickets at `now` does: on success the raffle and
/// the buyer's record count the tickets and the cost is returned, for the
/// caller to transfer its net proceeds; on failure nothing changes.
pub open spec fn buy_ticket_post(
    c: BuyTicket,
    c2: BuyTicket,
    qty: u64,
    now: i64,
    r: Result<TicketCost, RaffleError>,
) -> bool {
    match buy_error(c, qty, now) {
        Some(e) => r == Err::<TicketCost, RaffleError>(e) && c2 == c,
        None => r matches Ok(cost) && {
            &&& Ok::<RaffleState, RaffleError>(c2.raffle_state) == sell(c.raffle_state, qty, now)
            &&& c2.participant_tickets == record_purchase(c.participant_tickets, c.participant, qty, now)
            &&& c2.participant == c.participant
            &&& cost.gross_price == c.raffle_state.ticket_price * qty
            &&& cost.platform_fee == fee_of(cost.gross_price as nat)
            &&& cost.net_proceeds == cost.gross_price - cost.platform_fee
        },
    }
}

/// Why a draw at `now` is refused, if it is.
pub open spec fn draw_error(r: RaffleState, now: i64) -> Option<RaffleError> {
    if now <= r.end_time {
        Some(RaffleError::RaffleStillActive)
    } else if r.is_finalized {
        Some(RaffleError::RaffleAlreadyFinalized)
    } else if r.total_tickets_sold == 0 {
        Some(RaffleError::NoTicketsSold)
    } else {
        None
    }
}

/// What a draw at `now` does: on success the raffle is finalized and the
/// winning ticket, with no winner bound yet, is returned; on failure nothing
/// changes.
pub open spec fn draw_winner_post(
    c: DrawWinner,
    c2: DrawWinner,
    now: i64,
    r: Result<WinningTicket, RaffleError>,
) -> bool {
    match draw_error(c.raffle_state, now) {
        Some(e) => r == Err::<WinningTicket, RaffleError>(e) && c2 == c,
        None => r matches Ok(w) && {
            &&& c2 == DrawWinner { raffle_state: RaffleState { is_finalized: true, ..c.raffle_state }, ..c }
            &&& w.raffle_state == c.raffle_key
            &&& w.winner@ == unset_bytes()
            &&& w.winning_ticket_number == winner_index(c.raffle_state.total_tickets_sold as nat, now)
            &&& w.draw_time == now
        },
    }
}

/// Why a claim by `claimant` is refused, if it is: before the draw, or when
/// someone else is already bound as the winner.
pub open spec fn claim_error(r: RaffleState, w: WinningTicket, claimant: Pubkey) -> Option<RaffleError> {
    if !r.is_finalized {
        Some(RaffleError::RaffleNotFinalized)
    } else if w.winner@ != unset_bytes() && w.winner@ != claimant@ {
        Some(RaffleError::UnauthorizedPrizeClaim)
    } else {
        None
    }
}

/// The number of prize tokens that a successful claim pays out.
pub open spec fn prize_amount(r: RaffleState) -> u64 {
    if r.prize_mint is Some { PRIZE_AMOUNT } else { 0 }
}

/// What a claim does: on success the claimant is the bound winner (bound now
/// if no one was) and the number of prize tokens to pay out is returned; on
/// failure nothing changes.
pub open spec fn claim_prize_post(c: ClaimPrize, c2: ClaimPrize, r: Result<u64, RaffleError>) -> bool {
    match claim_error(c.raffle_state, c.winning_ticket, c.winner) {
        Some(e) => r == Err::<u64, RaffleError>(e) && c2 == c,
        None => {
            &&& r == Ok::<u64, RaffleError>(prize_amount(c.raffle_state))
            &&& c2.raffle_state == c.raffle_state
            &&& c2.winner == c.winner
            &&& c2.winning_ticket.winner@ == c.winner@
            &&& c2.winning_ticket.raffle_state == c.winning_ticket.raffle_state
            &&& c2.winning_ticket.winning_ticket_number == c.winning_ticket.winning_ticket_number
            &&& c2.winning_ticket.draw_time == c.winning_ticket.draw_time
        },
    }
}

/// Creates a raffle whose sale window opens at `current_time` and lasts
/// `duration_seconds`. Fails when the end of the window does not fit in a
/// timestamp.
pub fn initialize_raffle(ctx: &InitializeRaffle, params: InitializeRaffleParams, current_time: i64) -> (r: Result<RaffleState, RaffleError>)
    ensures
        current_time + params.duration_seconds > i64::MAX ==> r == Err::<RaffleState, RaffleError>(
            RaffleError::InvalidDuration,
        ),
        current_time + params.duration_seconds <= i64::MAX ==> r is Ok,
        r matches Ok(s) ==> {
            &&& s.wf()
            &&& s.raffle_id == params.raffle_id
            &&& s.authority == ctx.authority
            &&& s.ticket_mint == ctx.ticket_mint
            &&& s.proceeds_token_account == ctx.proceeds_token_account
            &&& s.ticket_price == params.ticket_price
            &&& s.max_tickets == params.max_tickets
            &&& s.start_time == current_time
            &&& s.end_time == current_time + params.duration_seconds
            &&& s.total_tickets_sold == 0
            &&& !s.is_finalized
            &&& s.prize_mint == params.prize_mint
        },
{
    let end: i128 = current_time as i128 + params.duration_seconds as i128;
    if end > i64::MAX as i128 {
        return Err(RaffleError::InvalidDuration);
    }
    let end_time: i64 = end as i64;
    Ok(RaffleState {
        raffle_id: params.raffle_id,
        authority: ctx.authority,
        ticket_mint: ctx.ticket_mint,
        proceeds_token_account: ctx.proceeds_token_account,
        ticket_price: params.ticket_price,
        max_tickets: params.max_tickets,
        start_time: current_time,
        end_time,
        total_tickets_sold: 0,
        is_finalized: false,
        prize_mint: params.prize_mint,
    })
}

/// Sells `params.ticket_quantity` tickets at `current_time` to
/// `ctx.participant`. On success returns the cost, whose net proceeds the
/// caller transfers from the buyer to the proceeds account in the same atomic
/// step.
pub fn buy_ticket(ctx: &mut BuyTicket, params: BuyTicketParams, current_time: i64) -> (r: Result<TicketCost, RaffleError>)
    ensures
        buy_ticket_post(*old(ctx), *final(ctx), params.ticket_quantity, current_time, r),
        old(ctx).raffle_state.wf() ==> final(ctx).raffle_state.wf(),
{
    let qty = params.ticket_quantity;
    if !(current_time >= ctx.raffle_state.start_time && current_time <= ctx.raffle_state.end_time) {
        return Err(RaffleError::RaffleNotActive);
    }
    let total = match tickets_after_purchase(ctx.raffle_state.total_tickets_sold, ctx.raffle_state.max_tickets, qty) {
        Ok(t) => t,
        Err(e) => return Err(e),
    };
    let bought = match ctx.participant_tickets.tickets_bought.checked_add(qty) {
        Some(b) => b,
        None => return Err(RaffleError::TicketPurchaseOverflow),
    };
    let cost = match ticket_cost(ctx.raffle_state.ticket_price, qty) {
        Ok(c) => c,
        Err(e) => return Err(e),
    };
    if ctx.participant_tickets.tickets_bought == 0 {
        ctx.participant_tickets.participant = ctx.participant;
        ctx.participant_tickets.first_purchase_time = current_time;
    }
    ctx.participant_tickets.tickets_bought = bought;
    ctx.raffle_state.total_tickets_sold = total;
    Ok(cost)
}

/// Draws the winning ticket at `current_time`, which also seeds the draw, and
/// finalizes the raffle.
pub fn draw_winner(ctx: &mut DrawWinner, current_time: i64) -> (r: Result<WinningTicket, RaffleError>)
    ensures
        draw_winner_post(*old(ctx), *final(ctx), current_time, r),
        old(ctx).raffle_state.wf() ==> final(ctx).raffle_state.wf(),
{
    if current_time <= ctx.raffle_state.end_time {
        return Err(RaffleError::RaffleStillActive);
    }
    if ctx.raffle_state.is_finalized {
        return Err(RaffleError::RaffleAlreadyFinalized);
    }
    if ctx.raffle_state.total_tickets_sold == 0 {
        return Err(RaffleError::NoTicketsSold);
    }
    let winning_ticket_number = generate_pseudo_random_winner(ctx.raffle_state.total_tickets_sold, current_time);
    let ticket = WinningTicket {
        raffle_state: ctx.raffle_key,
        winner: Pubkey::default_key(),
        winning_ticket_number,
        draw_time: current_time,
    };
    ctx.raffle_state.is_finalized = true;
    Ok(ticket)
}

/// Claims the prize for `ctx.winner`. The first claimant after the draw is
/// bound as the winner; later claims succeed for that winner only. On success
/// returns the number of prize tokens that the caller transfers from the
/// proceeds account to the winner.
pub fn claim_prize(ctx: &mut ClaimPrize) -> (r: Result<u64, RaffleError>)
    ensures
        claim_prize_post(*old(ctx), *final(ctx), r),
{
    if !ctx.raffle_state.is_finalized {
        return Err(RaffleError::RaffleNotFinalized);
    }
    if ctx.winning_ticket.winner.is_default() {
        ctx.winning_ticket.winner = ctx.winner;
    } else if !ctx.winning_ticket.winner.same_as(&ctx.winner) {
        return Err(RaffleError::UnauthorizedPrizeClaim);
    }
    match ctx.raffle_state.prize_mint {
        Some(_) => Ok(PRIZE_AMOUNT),
        None => Ok(0),
    }
}

/// Acknowledges the end of a raffle; refused until its winner is drawn.
pub fn close_raffle(ctx: &CloseRaffle) -> (r: Result<(), RaffleError>)
    ensures
        r is Ok <==> ctx.raffle_state.is_finalized,
        r is Err ==> r == Err::<(), RaffleError>(RaffleError::RaffleNotFinalized),
{
    if !ctx.raffle_state.is_finalized {
        return Err(RaffleError::RaffleNotFinalized);
    }
    Ok(())
}

} // verus!
