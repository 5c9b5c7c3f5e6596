use raffle::accounting::{platform_fee, ticket_cost, tickets_after_purchase, PLATFORM_FEE_PERCENTAGE};
use raffle::context::{
    buy_ticket, claim_prize, close_raffle, draw_winner, initialize_raffle, BuyTicket,
    BuyTicketParams, ClaimPrize, CloseRaffle, DrawWinner, InitializeRaffle,
    InitializeRaffleParams, PRIZE_AMOUNT,
};
use raffle::errors::RaffleError;
use raffle::pubkey::Pubkey;
use raffle::random::{generate_pseudo_random_winner, le_u64, seed_to_le_bytes, winner_from_digest};
use raffle::states::{ParticipantTickets, RaffleState, WinningTicket};
use raffle::{buy_tickets, claim_prizes, close_raffles, draw_winners, initialize_raffles};

const START: i64 = 1_700_000_000;
const DURATION: u64 = 3600;

fn key(b: u8) -> Pubkey {
    Pubkey::new([b; 32])
}

fn new_raffle(max_tickets: u64, ticket_price: u64, prize: Option<Pubkey>) -> RaffleState {
    let ctx = InitializeRaffle { authority: key(1), ticket_mint: key(2), proceeds_token_account: key(3) };
    let params = InitializeRaffleParams {
        raffle_id: 42,
        ticket_price,
        max_tickets,
        duration_seconds: DURATION,
        prize_mint: prize,
    };
    initialize_raffle(&ctx, params, START).unwrap()
}

fn buy(raffle: &mut RaffleState, record: &mut ParticipantTickets, who: Pubkey, qty: u64, now: i64) -> Result<u64, RaffleError> {
    let mut ctx = BuyTicket { raffle_state: *raffle, participant_tickets: *record, participant: who };
    let r = buy_ticket(&mut ctx, BuyTicketParams { ticket_quantity: qty }, now);
    *raffle = ctx.raffle_state;
    *record = ctx.participant_tickets;
    r.map(|c| c.net_proceeds)
}

fn drawn_raffle(prize: Option<Pubkey>) -> (RaffleState, WinningTicket) {
    let mut raffle = new_raffle(10, 100, prize);
    let mut rec = ParticipantTickets::empty();
    buy(&mut raffle, &mut rec, key(7), 3, START).unwrap();
    let mut ctx = DrawWinner { raffle_state: raffle, raffle_key: key(9) };
    let w = draw_winner(&mut ctx, START + DURATION as i64 + 1).unwrap();
    (ctx.raffle_state, w)
}

#[test]
fn initialize_sets_window_and_counts() {
    let r = new_raffle(10, 100, None);
    assert_eq!(r.raffle_id, 42);
    assert_eq!(r.start_time, START);
    assert_eq!(r.end_time, START + 3600);
    assert_eq!(r.total_tickets_sold, 0);
    assert!(!r.is_finalized);
    assert_eq!(r.max_tickets, 10);
    assert_eq!(r.ticket_price, 100);
    assert!(r.authority.same_as(&key(1)));
    assert!(r.prize_mint.is_none());
}

#[test]
fn initialize_rejects_overflowing_duration() {
    let ctx = InitializeRaffle { authority: key(1), ticket_mint: key(2), proceeds_token_account: key(3) };
    let params = InitializeRaffleParams {
        raffle_id: 1,
        ticket_price: 1,
        max_tickets: 1,
        duration_seconds: 100,
        prize_mint: None,
    };
    assert_eq!(initialize_raffles(&ctx, params, i64::MAX - 10).unwrap_err(), RaffleError::InvalidDuration);
    assert_eq!(initialize_raffles(&ctx, params, i64::MAX - 100).unwrap().end_time, i64::MAX);
}

#[test]
fn fee_split_example() {
    let c = ticket_cost(100, 3).unwrap();
    assert_eq!(c.gross_price, 300);
    assert_eq!(c.platform_fee, 15);
    assert_eq!(c.net_proceeds, 285);
    assert_eq!(PLATFORM_FEE_PERCENTAGE, 5);
    let mut raffle = new_raffle(10, 100, None);
    let mut rec = ParticipantTickets::empty();
    assert_eq!(buy(&mut raffle, &mut rec, key(7), 3, START), Ok(285));
}

#[test]
fn platform_fee_rounds_down_and_never_overflows() {
    assert_eq!(platform_fee(19), 0);
    assert_eq!(platform_fee(20), 1);
    assert_eq!(platform_fee(39), 1);
    assert_eq!(platform_fee(u64::MAX), 922_337_203_685_477_580);
}

#[test]
fn price_overflow_is_reported() {
    assert_eq!(ticket_cost(u64::MAX, 2).unwrap_err(), RaffleError::TicketPriceCalculationError);
    let mut raffle = new_raffle(10, u64::MAX, None);
    let mut rec = ParticipantTickets::empty();
    assert_eq!(buy(&mut raffle, &mut rec, key(7), 2, START), Err(RaffleError::TicketPriceCalculationError));
    assert_eq!(raffle.total_tickets_sold, 0);
    assert_eq!(rec.tickets_bought, 0);
}

#[test]
fn capacity_arithmetic() {
    assert_eq!(tickets_after_purchase(6, 10, 4), Ok(10));
    assert_eq!(tickets_after_purchase(6, 10, 5), Err(RaffleError::MaxTicketsExceeded));
    assert_eq!(tickets_after_purchase(u64::MAX - 1, u64::MAX, 5), Err(RaffleError::TicketPurchaseExceedsLimit));
}

#[test]
fn end_to_end_capacity_scenario() {
    let mut raffle = new_raffle(10, 100, None);
    let mut alice = ParticipantTickets::empty();
    let mut bob = ParticipantTickets::empty();
    assert!(buy(&mut raffle, &mut alice, key(7), 6, START + 10).is_ok());
    assert_eq!(buy(&mut raffle, &mut bob, key(8), 5, START + 20), Err(RaffleError::MaxTicketsExceeded));
    assert_eq!(raffle.total_tickets_sold, 6);
    assert_eq!(bob.tickets_bought, 0);
    assert!(buy(&mut raffle, &mut alice, key(7), 4, START + 30).is_ok());
    assert_eq!(raffle.total_tickets_sold, 10);
    assert_eq!(alice.tickets_bought, 10);
    assert_eq!(alice.first_purchase_time, START + 10);
    assert!(alice.participant.same_as(&key(7)));
}

#[test]
fn purchases_sum_up_and_stop_at_capacity() {
    let mut raffle = new_raffle(12, 1, None);
    let mut rec = ParticipantTickets::empty();
    for q in [1u64, 2, 3, 4] {
        buy(&mut raffle, &mut rec, key(7), q, START).unwrap();
    }
    assert_eq!(raffle.total_tickets_sold, 10);
    assert_eq!(buy(&mut raffle, &mut rec, key(7), 3, START), Err(RaffleError::MaxTicketsExceeded));
    assert_eq!(raffle.total_tickets_sold, 10);
    assert_eq!(rec.tickets_bought, 10);
}

#[test]
fn sale_window_is_inclusive() {
    let mut raffle = new_raffle(100, 1, None);
    let mut rec = ParticipantTickets::empty();
    assert_eq!(buy(&mut raffle, &mut rec, key(7), 1, START - 1), Err(RaffleError::RaffleNotActive));
    assert_eq!(buy(&mut raffle, &mut rec, key(7), 1, START + 3601), Err(RaffleError::RaffleNotActive));
    assert_eq!(raffle.total_tickets_sold, 0);
    assert!(buy(&mut raffle, &mut rec, key(7), 1, START).is_ok());
    assert!(buy(&mut raffle, &mut rec, key(7), 1, START + 3600).is_ok());
    assert_eq!(raffle.total_tickets_sold, 2);
}

#[test]
fn running_total_overflow_is_a_capacity_error() {
    let mut raffle = new_raffle(u64::MAX, 0, None);
    raffle.total_tickets_sold = u64::MAX - 1;
    let mut rec = ParticipantTickets::empty();
    assert_eq!(buy(&mut raffle, &mut rec, key(7), 5, START), Err(RaffleError::TicketPurchaseExceedsLimit));
    assert_eq!(raffle.total_tickets_sold, u64::MAX - 1);
}

#[test]
fn participant_count_overflow_is_reported() {
    let mut raffle = new_raffle(u64::MAX, 0, None);
    let mut rec = ParticipantTickets::empty();
    rec.tickets_bought = u64::MAX - 1;
    rec.participant = key(7);
    assert_eq!(buy(&mut raffle, &mut rec, key(7), 5, START), Err(RaffleError::TicketPurchaseOverflow));
    assert_eq!(raffle.total_tickets_sold, 0);
    assert_eq!(rec.tickets_bought, u64::MAX - 1);
}

#[test]
fn entry_point_buy_matches_operation() {
    let raffle = new_raffle(10, 100, None);
    let mut ctx = BuyTicket { raffle_state: raffle, participant_tickets: ParticipantTickets::empty(), participant: key(7) };
    let c = buy_tickets(&mut ctx, BuyTicketParams { ticket_quantity: 2 }, START + 5).unwrap();
    assert_eq!(c.gross_price, 200);
    assert_eq!(c.net_proceeds, 190);
    assert_eq!(ctx.raffle_state.total_tickets_sold, 2);
}

#[test]
fn draw_only_after_window_and_only_once() {
    let mut raffle = new_raffle(10, 100, None);
    let mut rec = ParticipantTickets::empty();
    buy(&mut raffle, &mut rec, key(7), 3, START).unwrap();
    let end = raffle.end_time;
    let mut ctx = DrawWinner { raffle_state: raffle, raffle_key: key(9) };
    assert_eq!(draw_winner(&mut ctx, end).unwrap_err(), RaffleError::RaffleStillActive);
    assert!(!ctx.raffle_state.is_finalized);
    let w = draw_winners(&mut ctx, end + 1).unwrap();
    assert!(ctx.raffle_state.is_finalized);
    assert!(w.winning_ticket_number < 3);
    assert_eq!(w.winning_ticket_number, generate_pseudo_random_winner(3, end + 1));
    assert_eq!(w.draw_time, end + 1);
    assert!(w.winner.is_default());
    assert!(w.raffle_state.same_as(&key(9)));
    assert_eq!(draw_winner(&mut ctx, end + 2).unwrap_err(), RaffleError::RaffleAlreadyFinalized);
}

#[test]
fn draw_without_tickets_is_refused() {
    let raffle = new_raffle(10, 100, None);
    let mut ctx = DrawWinner { raffle_state: raffle, raffle_key: key(9) };
    assert_eq!(draw_winner(&mut ctx, raffle.end_time + 1).unwrap_err(), RaffleError::NoTicketsSold);
    assert!(!ctx.raffle_state.is_finalized);
}

#[test]
fn draw_is_reproducible_and_in_range() {
    assert_eq!(generate_pseudo_random_winner(10, 0), 5);
    assert_eq!(generate_pseudo_random_winner(u64::MAX, 0), 8_794_265_229_978_523_055);
    assert_eq!(generate_pseudo_random_winner(10, 1_700_000_000), 6);
    assert_eq!(generate_pseudo_random_winner(7, -5), 5);
    for total in 1u64..50 {
        let a = generate_pseudo_random_winner(total, 12345);
        let b = generate_pseudo_random_winner(total, 12345);
        assert_eq!(a, b);
        assert!(a < total);
    }
    assert_eq!(generate_pseudo_random_winner(1, 99), 0);
}

#[test]
fn winner_from_digest_reads_little_endian_prefix() {
    let mut d = [0u8; 32];
    d[0] = 1;
    d[1] = 2;
    d[8] = 0xff;
    assert_eq!(winner_from_digest(&d, u64::MAX), 513);
    assert_eq!(winner_from_digest(&d, 10), 3);
    assert_eq!(winner_from_digest(&[0xffu8; 32], u64::MAX), 0);
}

#[test]
fn seed_bytes_and_reading_back() {
    assert_eq!(seed_to_le_bytes(258), vec![2, 1, 0, 0, 0, 0, 0, 0]);
    assert_eq!(seed_to_le_bytes(-1), vec![0xff; 8]);
    assert_eq!(seed_to_le_bytes(i64::MIN), vec![0, 0, 0, 0, 0, 0, 0, 0x80]);
    assert_eq!(le_u64(&[2, 1, 0, 0, 0, 0, 0, 0, 9]), 258);
    assert_eq!(le_u64(&seed_to_le_bytes(-1)), u64::MAX);
}

#[test]
fn claim_binds_first_claimant_and_refuses_others() {
    let (raffle, w) = drawn_raffle(Some(key(5)));
    let mut ctx = ClaimPrize { raffle_state: raffle, winning_ticket: w, winner: key(7) };
    assert_eq!(claim_prize(&mut ctx), Ok(PRIZE_AMOUNT));
    assert!(ctx.winning_ticket.winner.same_as(&key(7)));
    let mut other = ClaimPrize { raffle_state: raffle, winning_ticket: ctx.winning_ticket, winner: key(8) };
    assert_eq!(claim_prizes(&mut other), Err(RaffleError::UnauthorizedPrizeClaim));
    assert!(other.winning_ticket.winner.same_as(&key(7)));
    let mut again = ClaimPrize { raffle_state: raffle, winning_ticket: ctx.winning_ticket, winner: key(7) };
    assert_eq!(claim_prize(&mut again), Ok(1));
    assert_eq!(claim_prize(&mut again), Ok(1));
    assert!(again.winning_ticket.winner.same_as(&key(7)));
    assert_eq!(again.winning_ticket.winning_ticket_number, w.winning_ticket_number);
}

#[test]
fn claim_without_prize_token_pays_nothing() {
    let (raffle, w) = drawn_raffle(None);
    let mut ctx = ClaimPrize { raffle_state: raffle, winning_ticket: w, winner: key(7) };
    assert_eq!(claim_prize(&mut ctx), Ok(0));
    assert!(ctx.winning_ticket.winner.same_as(&key(7)));
}

#[test]
fn claim_before_draw_is_refused() {
    let raffle = new_raffle(10, 100, Some(key(5)));
    let w = WinningTicket { raffle_state: key(9), winner: Pubkey::default_key(), winning_ticket_number: 0, draw_time: 0 };
    let mut ctx = ClaimPrize { raffle_state: raffle, winning_ticket: w, winner: key(7) };
    assert_eq!(claim_prize(&mut ctx), Err(RaffleError::RaffleNotFinalized));
    assert!(ctx.winning_ticket.winner.is_default());
}

#[test]
fn close_requires_finalized() {
    let raffle = new_raffle(10, 100, None);
    assert_eq!(close_raffle(&CloseRaffle { raffle_state: raffle }), Err(RaffleError::RaffleNotFinalized));
    let (finalized, _) = drawn_raffle(None);
    assert_eq!(close_raffles(&CloseRaffle { raffle_state: finalized }), Ok(()));
}

#[test]
fn identity_comparisons() {
    assert!(Pubkey::default_key().is_default());
    assert!(!key(1).is_default());
    let mut b = [0u8; 32];
    b[31] = 1;
    assert!(!Pubkey::new(b).is_default());
    assert!(key(4).same_as(&key(4)));
    assert!(!key(4).same_as(&Pubkey::new(b)));
}

#[test]
fn error_messages() {
    assert_eq!(RaffleError::RaffleNotActive.message(), "Raffle is not currently active.");
    assert_eq!(RaffleError::UnauthorizedPrizeClaim.message(), "Unauthorized claim attempt.");
}
