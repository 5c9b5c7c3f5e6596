use vstd::prelude::*;

verus! {

/// The ways in which a raffle operation can fail. Each failure aborts the
/// whole operation: no record is changed.
#[derive(Clone, Copy, Debug, PartialEq, Eq, Structural)]
pub enum RaffleError {
    /// The end of the raffle's window does not fit in a timestamp.
    InvalidDuration,
    /// Tickets were requested outside the sale window.
    RaffleNotActive,
    /// The purchase would take the tickets sold past the raffle's maximum.
    MaxTicketsExceeded,
    /// A participant's own ticket count would overflow.
    TicketPurchaseOverflow,
    /// The price of the tickets requested does not fit in a `u64`.
    TicketPriceCalculationError,
    /// A draw was attempted before the window closed.
    RaffleStillActive,
    /// A draw was attempted on a raffle whose winner is already drawn.
    RaffleAlreadyFinalized,
    /// The prize was claimed by someone other than the bound winner.
    UnauthorizedPrizeClaim,
    /// The raffle has no winner drawn yet.
    RaffleNotFinalized,
    /// The running total of tickets sold would overflow.
    TicketPurchaseExceedsLimit,
    /// A draw was attempted on a raffle that sold no tickets.
    NoTicketsSold,
}

impl RaffleError {
    /// The human-readable message of this error.
    pub fn message(&self) -> (r: String) {
        match self {
            RaffleError::InvalidDuration => String::from_str("Invalid duration for the raffle."),
            RaffleError::RaffleNotActive => String::from_str("Raffle is not currently active."),
            RaffleError::MaxTicketsExceeded => String::from_str("Exceeded maximum tickets for this raffle."),
            RaffleError::TicketPurchaseOverflow => String::from_str("Ticket purchase overflow."),
            RaffleError::TicketPriceCalculationError => String::from_str("Error calculating ticket price."),
            RaffleError::RaffleStillActive => String::from_str("Raffle is still active."),
            RaffleError::RaffleAlreadyFinalized => String::from_str("Raffle is already finalized."),
            RaffleError::UnauthorizedPrizeClaim => String::from_str("Unauthorized claim attempt."),
            RaffleError::RaffleNotFinalized => String::from_str("Raffle has not been finalized."),
            RaffleError::TicketPurchaseExceedsLimit => String::from_str("Ticket purchase exceeds limit."),
            RaffleError::NoTicketsSold => String::from_str("No tickets were sold."),
        }
    }

    /// Whether this error says that the raffle has no room for the tickets
    /// requested.
    pub open spec fn is_capacity_error(self) -> bool {
        self == RaffleError::MaxTicketsExceeded || self == RaffleError::TicketPurchaseExceedsLimit
    }
}

} // verus!
