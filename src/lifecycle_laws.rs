use vstd::prelude::*;
use crate::context::{
    buy_error, claim_prize_post, draw_error, draw_winner_post, in_window, sell,
    BuyTicket, ClaimPrize, DrawWinner,
};
use crate::errors::RaffleError;
use crate::pubkey::{unset_bytes, Pubkey};
use crate::states::{RaffleState, WinningTicket};

verus! {

/// The raffle record after a run of sales, each a quantity and a time, or the
/// first refusal.
pub open spec fn sell_all(r: RaffleState, purchases: Seq<(u64, i64)>) -> Result<RaffleState, RaffleError>
    decreases purchases.len(),
{
    if purchases.len() == 0 {
        Ok(r)
    } else {
        match sell_all(r, purchases.drop_last()) {
            Ok(r1) => sell(r1, purchases.last().0, purchases.last().1),
            Err(e) => Err(e),
        }
    }
}

/// The number of tickets asked for in a run of sales.
pub open spec fn sum_quantities(purchases: Seq<(u64, i64)>) -> int
    decreases purchases.len(),
{
    if purchases.len() == 0 {
        0
    } else {
        sum_quantities(purchases.drop_last()) + purchases.last().0
    }
}

/// After a run of sales that all succeed, the raffle has sold what it had
/// sold before plus the sum of the quantities, and still no more than its
/// maximum; nothing else in the record changed.
pub proof fn lemma_sales_accumulate(r: RaffleState, purchases: Seq<(u64, i64)>)
    requires
        r.wf(),
        sell_all(r, purchases) is Ok,
    ensures
        sell_all(r, purchases) matches Ok(r2) && {
            &&& r2.total_tickets_sold == r.total_tickets_sold + sum_quantities(purchases)
            &&& r2.total_tickets_sold <= r2.max_tickets
            &&& r2.wf()
            &&& r2 == RaffleState { total_tickets_sold: r2.total_tickets_sold, ..r }
        },
    decreases purchases.len(),
{
    if purchases.len() > 0 {
        lemma_sales_accumulate(r, purchases.drop_last());
    }
}

/// Once a run of sales has succeeded, a purchase in the window that would
/// take the total past the maximum is refused for lack of room, whoever
/// buys, and (the purchase being refused) leaves the tickets sold as they
/// were.
pub proof fn lemma_sale_past_capacity_refused(
    r: RaffleState,
    purchases: Seq<(u64, i64)>,
    c: BuyTicket,
    qty: u64,
    now: i64,
)
    requires
        r.wf(),
        sell_all(r, purchases) == Ok::<RaffleState, RaffleError>(c.raffle_state),
        in_window(c.raffle_state, now),
        c.raffle_state.total_tickets_sold + qty > c.raffle_state.max_tickets,
    ensures
        buy_error(c, qty, now) matches Some(e) && e.is_capacity_error(),
        sell_all(r, purchases.push((qty, now))) is Err,
{
    let p2 = purchases.push((qty, now));
    assert(p2.drop_last() =~= purchases);
}

/// The sale window includes both its ends: a purchase that fits is accepted
/// at the start and at the end of the window, and refused as out of the
/// window at any moment before or after.
pub proof fn lemma_window_inclusive(c: BuyTicket, qty: u64)
    requires
        c.raffle_state.wf(),
        c.raffle_state.total_tickets_sold + qty <= c.raffle_state.max_tickets,
        c.participant_tickets.tickets_bought + qty <= u64::MAX,
        c.raffle_state.ticket_price * qty <= u64::MAX,
    ensures
        buy_error(c, qty, c.raffle_state.start_time) is None,
        buy_error(c, qty, c.raffle_state.end_time) is None,
        forall|t: i64|
            t < c.raffle_state.start_time || t > c.raffle_state.end_time ==> buy_error(c, qty, t)
                == Some(RaffleError::RaffleNotActive),
{
}

/// A draw is refused up to the end of the window and accepted just after it
/// (given tickets were sold); once a draw succeeded, every later draw is
/// refused: as still active up to the end of the window, as already
/// finalized after it.
pub proof fn lemma_draw_exactly_once(c: DrawWinner, c2: DrawWinner, now: i64, r: Result<WinningTicket, RaffleError>, later: i64)
    requires
        draw_winner_post(c, c2, now, r),
    ensures
        draw_error(c.raffle_state, c.raffle_state.end_time) == Some(RaffleError::RaffleStillActive),
        c.raffle_state.end_time < i64::MAX && !c.raffle_state.is_finalized
            && c.raffle_state.total_tickets_sold > 0 ==> draw_error(
            c.raffle_state,
            (c.raffle_state.end_time + 1) as i64,
        ) is None,
        r is Ok ==> draw_error(c2.raffle_state, later) == Some(
            if later <= c.raffle_state.end_time {
                RaffleError::RaffleStillActive
            } else {
                RaffleError::RaffleAlreadyFinalized
            },
        ),
{
}

/// Once a claim has bound a winner, a claim by anyone else is refused as
/// unauthorized and changes nothing, and a claim by the bound winner succeeds
/// again and keeps the same winner.
pub proof fn lemma_claim_binds_once(
    c: ClaimPrize,
    c2: ClaimPrize,
    r: Result<u64, RaffleError>,
    claimant: Pubkey,
    c3: ClaimPrize,
    r3: Result<u64, RaffleError>,
)
    requires
        c.winner@ != unset_bytes(),
        claim_prize_post(c, c2, r),
        r is Ok,
        claim_prize_post(ClaimPrize { winner: claimant, ..c2 }, c3, r3),
    ensures
        c2.winning_ticket.winner@ == c.winner@,
        claimant@ != c.winner@ ==> r3 == Err::<u64, RaffleError>(RaffleError::UnauthorizedPrizeClaim)
            && c3 == (ClaimPrize { winner: claimant, ..c2 }),
        claimant@ == c.winner@ ==> r3 is Ok && c3.winning_ticket.winner@ == c.winner@,
{
}

} // verus!
