use lottery::{AccountId, Error, Lottery, DEFAULT_TICKET_COST, SEVEN_DAYS};

fn acct(b: u8) -> AccountId {
    AccountId([b; 32])
}

#[test]
fn new_with_defaults() {
    let l = Lottery::new(acct(9), 1000, None, None);
    assert_eq!(l.ticket_cost(), DEFAULT_TICKET_COST);
    assert_eq!(l.ticket_cost(), 100);
    assert_eq!(l.end_date(), 1000 + 604800);
    assert_eq!(l.get_price_pool(), 0);
    assert!(l.participants().is_empty());
    assert_eq!(l.author(), acct(9));
}

#[test]
fn new_with_explicit_config_round_trips() {
    let l = Lottery::new(acct(9), 1000, Some(250), Some(5000));
    assert_eq!(l.ticket_cost(), 250);
    assert_eq!(l.end_date(), 5000);
    assert_eq!(l.get_time_left(1000), 4000);
}

#[test]
fn time_left_counts_down_to_zero() {
    let l = Lottery::new(acct(9), 0, None, Some(100));
    assert_eq!(l.get_time_left(0), 100);
    assert_eq!(l.get_time_left(99), 1);
    assert_eq!(l.get_time_left(100), 0);
    assert_eq!(l.get_time_left(101), 0);
    assert_eq!(l.get_time_left(u64::MAX), 0);
}

#[test]
fn three_purchases_then_draw() {
    let (a, b, c) = (acct(1), acct(2), acct(3));
    let mut l = Lottery::new(acct(9), 0, Some(100), None);
    assert_eq!(l.buy_ticket(a, 100), Ok(()));
    assert_eq!(l.buy_ticket(b, 100), Ok(()));
    assert_eq!(l.buy_ticket(c, 100), Ok(()));
    assert_eq!(l.get_price_pool(), 300);
    assert_eq!(l.participants().len(), 3);
    assert_eq!(l.participants(), &vec![a, b, c]);
    let now = SEVEN_DAYS + 11;
    // seed 4 after three purchases, 5 at the draw: (604811 + 5) % 4 == 0
    assert_eq!(l.pending_payout(now), Ok((a, 300)));
    let w = l.winner(now, true).unwrap();
    assert_eq!(w, a);
    assert!([a, b, c].contains(&w));
    assert_eq!(l.get_price_pool(), 0);
    assert!(l.participants().is_empty());
    assert_eq!(l.end_date(), now + 604800);
    assert_eq!(l.get_pseudo_random(0, 1000), 1);
}

#[test]
fn draw_picks_by_derived_index() {
    let (a, b, c) = (acct(1), acct(2), acct(3));
    let mut l = Lottery::new(acct(9), 0, Some(7), Some(10));
    for x in [a, b, c] {
        assert_eq!(l.buy_ticket(x, 7), Ok(()));
    }
    // (12 + 5) % 4 == 1
    assert_eq!(l.pending_payout(12), Ok((b, 21)));
    // (13 + 5) % 4 == 2
    assert_eq!(l.pending_payout(13), Ok((c, 21)));
    // (14 + 5) % 4 == 3, one past the last entry: the organizer
    assert_eq!(l.pending_payout(14), Ok((acct(9), 21)));
    assert_eq!(l.winner(14, true), Ok(acct(9)));
}

#[test]
fn empty_round_pays_organizer() {
    let org = acct(9);
    let mut l = Lottery::new(org, 0, None, None);
    let now = SEVEN_DAYS + 1;
    assert_eq!(l.pending_payout(now), Ok((org, 0)));
    assert_eq!(l.winner(now, true), Ok(org));
    assert_eq!(l.get_price_pool(), 0);
    assert!(l.participants().is_empty());
    assert_eq!(l.end_date(), now + SEVEN_DAYS);
}

#[test]
fn draw_before_close_is_refused() {
    let mut l = Lottery::new(acct(9), 0, Some(100), Some(50));
    assert_eq!(l.buy_ticket(acct(1), 100), Ok(()));
    assert_eq!(l.pending_payout(49), Err(Error::RoundNotClosed));
    assert_eq!(l.winner(49, true), Err(Error::RoundNotClosed));
    assert_eq!(l.get_price_pool(), 100);
    assert_eq!(l.participants(), &vec![acct(1)]);
    assert_eq!(l.end_date(), 50);
    // the seed is still 2: (0 + 2) % 11 == 2
    assert_eq!(l.get_pseudo_random(0, 10), 2);
}

#[test]
fn failed_payout_changes_nothing() {
    let mut l = Lottery::new(acct(9), 0, Some(100), Some(50));
    assert_eq!(l.buy_ticket(acct(1), 100), Ok(()));
    assert_eq!(l.winner(60, false), Err(Error::PayoutFailed));
    assert_eq!(l.get_price_pool(), 100);
    assert_eq!(l.participants(), &vec![acct(1)]);
    assert_eq!(l.end_date(), 50);
    assert_eq!(l.get_pseudo_random(0, 10), 2);
}

#[test]
fn wrong_payment_is_rejected() {
    let mut l = Lottery::new(acct(9), 0, Some(100), None);
    assert_eq!(l.buy_ticket(acct(1), 99), Err(Error::InvalidPayment));
    assert_eq!(l.buy_ticket(acct(1), 101), Err(Error::InvalidPayment));
    assert_eq!(l.buy_ticket(acct(1), 0), Err(Error::InvalidPayment));
    assert_eq!(l.get_price_pool(), 0);
    assert!(l.participants().is_empty());
}

#[test]
fn purchases_accepted_after_close() {
    let mut l = Lottery::new(acct(9), 0, Some(5), Some(10));
    assert_eq!(l.get_time_left(20), 0);
    assert_eq!(l.buy_ticket(acct(1), 5), Ok(()));
    assert_eq!(l.buy_ticket(acct(1), 5), Ok(()));
    assert_eq!(l.get_price_pool(), 10);
    assert_eq!(l.participants(), &vec![acct(1), acct(1)]);
}

#[test]
fn pseudo_random_formula() {
    let l = Lottery::new(acct(9), 0, None, None);
    // seed 1: (10 + 1) % 5
    assert_eq!(l.get_pseudo_random(10, 4), 1);
    assert_eq!(l.get_pseudo_random(3, 4), 4);
    assert_eq!(l.get_pseudo_random(7, 0), 0);
    assert_eq!(l.get_pseudo_random(u64::MAX, u64::MAX), 0);
}

#[test]
fn room_for_ticket_near_limits() {
    let mut l = Lottery::new(acct(9), 0, Some(u128::MAX), None);
    assert!(l.has_room_for_ticket());
    assert_eq!(l.buy_ticket(acct(1), u128::MAX), Ok(()));
    assert!(!l.has_room_for_ticket());
    let zero = Lottery::new(acct(9), 0, Some(0), None);
    assert!(zero.has_room_for_ticket());
}

#[test]
fn from_parts_restores_consistent_rounds() {
    let mut l = Lottery::new(acct(9), 0, Some(30), Some(40));
    assert_eq!(l.buy_ticket(acct(1), 30), Ok(()));
    assert_eq!(l.buy_ticket(acct(2), 30), Ok(()));
    let back = Lottery::from_parts(
        l.author(),
        l.end_date(),
        l.ticket_cost(),
        l.participants().clone(),
        l.get_price_pool(),
        l.salt(),
    )
    .unwrap();
    assert_eq!(back.get_price_pool(), 60);
    assert_eq!(back.salt(), 3);
    assert_eq!(back.participants(), &vec![acct(1), acct(2)]);
    assert_eq!(back.end_date(), 40);
    assert_eq!(back.ticket_cost(), 30);
}

#[test]
fn from_parts_rejects_inconsistent_fields() {
    let two = vec![acct(1), acct(2)];
    assert!(Lottery::from_parts(acct(9), 40, 30, two.clone(), 59, 3).is_none());
    assert!(Lottery::from_parts(acct(9), 40, 30, two.clone(), 60, 2).is_none());
    assert!(Lottery::from_parts(acct(9), 40, u128::MAX, two, u128::MAX, 3).is_none());
    assert!(Lottery::from_parts(acct(9), 40, 30, Vec::new(), 0, 0).is_none());
    assert!(Lottery::from_parts(acct(9), 40, 30, Vec::new(), 0, 1).is_some());
}
