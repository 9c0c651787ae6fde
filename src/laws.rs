//! Properties of the round's lifecycle, stated over the spec functions that
//! the operations' contracts use.
use vstd::prelude::*;
use crate::round::{
    buy_spec, draw_recipient, new_spec, random_index, reset_spec, time_left_spec, AccountId,
    RoundState, SEVEN_DAYS,
};

verus! {

/// The round after the accepted purchases of `buyers`, in order.
pub open spec fn apply_purchases(s: RoundState, buyers: Seq<AccountId>) -> RoundState
    decreases buyers.len(),
{
    if buyers.len() == 0 {
        s
    } else {
        buy_spec(apply_purchases(s, buyers.drop_last()), buyers.last())
    }
}

/// After any sequence of accepted purchases the pool has grown by one
/// ticket price per purchase, the participants list by the buyers in order,
/// and the price and close time are untouched.
pub proof fn law_purchases_accumulate(s: RoundState, buyers: Seq<AccountId>)
    ensures
        apply_purchases(s, buyers).pool == s.pool + s.ticket_price * buyers.len(),
        apply_purchases(s, buyers).participants == s.participants + buyers,
        apply_purchases(s, buyers).participants.len() == s.participants.len() + buyers.len(),
        apply_purchases(s, buyers).ticket_price == s.ticket_price,
        apply_purchases(s, buyers).close_time == s.close_time,
    decreases buyers.len(),
{
    if buyers.len() == 0 {
        assert(s.participants + buyers =~= s.participants);
    } else {
        let prev = buyers.drop_last();
        law_purchases_accumulate(s, prev);
        assert(s.participants + prev.push(buyers.last()) =~= s.participants + buyers);
        assert((s.participants + prev).push(buyers.last()) =~= s.participants + buyers);
        assert(s.ticket_price * buyers.len() == s.ticket_price * prev.len() + s.ticket_price)
            by (nonlinear_arith)
            requires
                buyers.len() == prev.len() + 1,
        ;
    }
}

/// In a fresh round the pool is the sum of the accepted payments, one
/// ticket price each, and there is one entry per accepted purchase.
pub proof fn law_fresh_round_pool(
    organizer: AccountId,
    now: int,
    ticket_cost: Option<u128>,
    end_date: Option<u64>,
    buyers: Seq<AccountId>,
)
    ensures
        ({
            let s = new_spec(organizer, now, ticket_cost, end_date);
            let t = apply_purchases(s, buyers);
            &&& t.pool == s.ticket_price * buyers.len()
            &&& t.participants == buyers
        }),
{
    let s = new_spec(organizer, now, ticket_cost, end_date);
    law_purchases_accumulate(s, buyers);
    assert(s.participants + buyers =~= buyers);
}

/// The time left is never negative, is zero from the close time on, and is
/// the distance to the close time before it.
pub proof fn law_time_left(close: int, now: int)
    ensures
        time_left_spec(close, now) >= 0,
        now >= close ==> time_left_spec(close, now) == 0,
        now < close ==> time_left_spec(close, now) == close - now,
{
}

/// The pseudo-random index lies in `[0, bound]`.
pub proof fn law_random_index_range(now: int, seed: int, bound: int)
    requires
        bound >= 0,
    ensures
        0 <= random_index(now, seed, bound) <= bound,
{
}

/// A completed draw leaves an empty round with an empty pool, the seed at
/// one and a close time after the draw's time.
pub proof fn law_draw_resets(s: RoundState, now: int)
    ensures
        reset_spec(s, now).pool == 0,
        reset_spec(s, now).participants.len() == 0,
        reset_spec(s, now).seed == 1,
        reset_spec(s, now).close_time > now,
        reset_spec(s, now).close_time == now + SEVEN_DAYS,
{
}

/// A draw over an empty participant list pays the organizer.
pub proof fn law_empty_round_pays_organizer(s: RoundState, now: int)
    requires
        s.participants.len() == 0,
    ensures
        draw_recipient(s, now) == s.organizer,
{
}

/// A draw pays either one of the participants or the organizer.
pub proof fn law_recipient_is_entry_or_organizer(s: RoundState, now: int)
    ensures
        s.participants.contains(draw_recipient(s, now)) || draw_recipient(s, now) == s.organizer,
{
    let i = random_index(now, s.seed + 1, s.participants.len() as int);
    if 0 <= i < s.participants.len() {
        assert(s.participants[i] == draw_recipient(s, now));
    }
}

/// A round created with an explicit price and close time reports exactly
/// those values.
pub proof fn law_new_keeps_explicit_config(organizer: AccountId, now: int, price: u128, close: u64)
    ensures
        new_spec(organizer, now, Some(price), Some(close)).ticket_price == price,
        new_spec(organizer, now, Some(price), Some(close)).close_time == close,
        new_spec(organizer, now, Some(price), Some(close)).pool == 0,
        new_spec(organizer, now, Some(price), Some(close)).participants.len() == 0,
{
}

} // verus!
