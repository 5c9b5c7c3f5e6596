use vstd::prelude::*;
use crate::errors::RaffleError;

verus! {

/// The share of each purchase, in percent, that the platform keeps.
pub const PLATFORM_FEE_PERCENTAGE: u64 = 5;

/// The platform's fee on a purchase of price `gross`, rounded down.
pub open spec fn fee_of(gross: nat) -> nat {
    gross * (PLATFORM_FEE_PERCENTAGE as nat) / 100
}

/// What a purchase costs and how the money is split.
#[derive(Clone, Copy, Debug, PartialEq, Eq, Structural)]
pub struct TicketCost {
    /// The price of all the tickets bought.
    pub gross_price: u64,
    /// The part of the price that the platform keeps.
    pub platform_fee: u64,
    /// The part of the price paid into the raffle's proceeds account.
    pub net_proceeds: u64,
}

/// The platform's fee on a purchase of price `gross_price`.
pub fn platform_fee(gross_price: u64) -> (r: u64)
    ensures
        r == fee_of(gross_price as nat),
        r <= gross_price,
{
    proof {
        assert(gross_price as u128 * 5 <= 0xffff_ffff_ffff_ffff * 5) by (nonlinear_arith)
            requires
                gross_price <= 0xffff_ffff_ffff_ffffu64,
        ;
    }
    let scaled: u128 = gross_price as u128 * PLATFORM_FEE_PERCENTAGE as u128;
    let fee: u128 = scaled / 100;
    proof {
        assert(fee <= gross_price) by (nonlinear_arith)
            requires
                scaled == gross_price * 5,
                fee == scaled / 100,
        ;
    }
    fee as u64
}

/// The cost of `ticket_quantity` tickets at `ticket_price` each, and its
/// split between the platform's fee and the raffle's proceeds. Fails when
/// the price does not fit in a `u64`.
pub fn ticket_cost(ticket_price: u64, ticket_quantity: u64) -> (r: Result<TicketCost, RaffleError>)
    ensures
        ticket_price * ticket_quantity > u64::MAX <==> r == Err::<TicketCost, RaffleError>(
            RaffleError::TicketPriceCalculationError,
        ),
        ticket_price * ticket_quantity <= u64::MAX ==> r is Ok,
        r matches Ok(c) ==> {
            &&& c.gross_price == ticket_price * ticket_quantity
            &&& c.platform_fee == fee_of(c.gross_price as nat)
            &&& c.net_proceeds == c.gross_price - c.platform_fee
        },
{
    match ticket_price.checked_mul(ticket_quantity) {
        None => Err(RaffleError::TicketPriceCalculationError),
        Some(gross_price) => {
            let fee = platform_fee(gross_price);
            Ok(TicketCost { gross_price, platform_fee: fee, net_proceeds: gross_price - fee })
        },
    }
}

/// The number of tickets sold after a purchase of `ticket_quantity` more.
/// Fails when the sum overflows or passes `max_tickets`.
pub fn tickets_after_purchase(total_tickets_sold: u64, max_tickets: u64, ticket_quantity: u64) -> (r: Result<u64, RaffleError>)
    ensures
        total_tickets_sold + ticket_quantity > u64::MAX ==> r == Err::<u64, RaffleError>(
            RaffleError::TicketPurchaseExceedsLimit,
        ),
        total_tickets_sold + ticket_quantity <= u64::MAX && total_tickets_sold + ticket_quantity
            > max_tickets ==> r == Err::<u64, RaffleError>(RaffleError::MaxTicketsExceeded),
        total_tickets_sold + ticket_quantity <= max_tickets ==> r == Ok::<u64, RaffleError>(
            (total_tickets_sold + ticket_quantity) as u64,
        ),
{
    match total_tickets_sold.checked_add(ticket_quantity) {
        None => Err(RaffleError::TicketPurchaseExceedsLimit),
        Some(total) => {
            if total > max_tickets {
                Err(RaffleError::MaxTicketsExceeded)
            } else {
                Ok(total)
            }
        },
    }
}

} // verus!
