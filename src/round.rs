use vstd::prelude::*;

verus! {

/// Seconds in the seven days that a round stays open by default.
pub const SEVEN_DAYS: u64 = 604800;

/// Price of one ticket when the round is created without one.
pub const DEFAULT_TICKET_COST: u128 = 100;

/// The 32-byte identity of an account.
#[derive(Clone, Copy, Debug, PartialEq, Eq)]
pub struct AccountId(pub [u8; 32]);

/// Why an operation on a round was rejected.
#[derive(Clone, Copy, Debug, PartialEq, Eq, Structural)]
pub enum Error {
    /// The value sent with a purchase is not the ticket price.
    InvalidPayment,
    /// A draw was asked for before the round's close time.
    RoundNotClosed,
    /// The pool could not be transferred to the winner.
    PayoutFailed,
    /// The contract code could not be replaced.
    UpgradeFailed,
}

/// The mathematical view of a round.
pub struct RoundState {
    pub organizer: AccountId,
    pub close_time: int,
    pub ticket_price: int,
    pub participants: Seq<AccountId>,
    pub pool: int,
    pub seed: int,
}

/// Time left before `close` as seen at `now`, never negative.
pub open spec fn time_left_spec(close: int, now: int) -> int {
    if now >= close {
        0
    } else {
        close - now
    }
}

/// The pseudo-random value in `[0, bound]` derived from the time and a seed.
pub open spec fn random_index(now: int, seed: int, bound: int) -> int {
    (now + seed) % (bound + 1)
}

/// The account paid by a draw at `now`: the draw bumps the seed once more,
/// and the participant at the index derived from it is paid, or the organizer when the index falls past the end of the list
/// (which is always the case when the list is empty).
pub open spec fn draw_recipient(s: RoundState, now: int) -> AccountId {
    let i = random_index(now, s.seed + 1, s.participants.len() as int);
    if 0 <= i < s.participants.len() {
        s.participants[i]
    } else {
        s.organizer
    }
}

/// A freshly created round.
pub open spec fn new_spec(
    organizer: AccountId,
    now: int,
    ticket_cost: Option<u128>,
    end_date: Option<u64>,
) -> RoundState {
    RoundState {
        organizer,
        close_time: match end_date {
            Some(t) => t as int,
            None => now + SEVEN_DAYS,
        },
        ticket_price: match ticket_cost {
            Some(p) => p as int,
            None => DEFAULT_TICKET_COST as int,
        },
        participants: Seq::empty(),
        pool: 0,
        seed: 1,
    }
}

/// The round after an accepted purchase by `buyer`.
pub open spec fn buy_spec(s: RoundState, buyer: AccountId) -> RoundState {
    RoundState {
        participants: s.participants.push(buyer),
        pool: s.pool + s.ticket_price,
        seed: s.seed + 1,
        ..s
    }
}

/// The round after a completed draw at `now`: the same organizer and price,
/// nothing sold, and a close time seven days ahead.
pub open spec fn reset_spec(s: RoundState, now: int) -> RoundState {
    RoundState {
        close_time: now + SEVEN_DAYS,
        participants: Seq::empty(),
        pool: 0,
        seed: 1,
        ..s
    }
}

/// The value `(now + seed) mod (bound + 1)`, computed without overflow.
fn index_from(now: u64, seed: u128, bound: u64) -> (r: u64)
    requires
        seed <= u64::MAX as u128 + 1,
    ensures
        r as int == random_index(now as int, seed as int, bound as int),
        r <= bound,
{
    let m: u128 = bound as u128 + 1;
    let v: u128 = (now as u128 + seed) % m;
    v as u64
}

/// One lottery round, reset in place after every draw.
pub struct Lottery {
    /// Creator of the round; paid when no participant is picked.
    author: AccountId,
    /// The round may be drawn from this time on.
    end_date: u64,
    /// Price of one ticket.
    ticket_cost: u128,
    /// One entry per accepted purchase, in order.
    participants: Vec<AccountId>,
    /// Sum of the accepted payments.
    prize_pool: u128,
    /// Seed of the pseudo-random derivation.
    salt: u64,
}

impl View for Lottery {
    type V = RoundState;

    closed spec fn view(&self) -> RoundState {
        RoundState {
            organizer: self.author,
            close_time: self.end_date as int,
            ticket_price: self.ticket_cost as int,
            participants: self.participants@,
            pool: self.prize_pool as int,
            seed: self.salt as int,
        }
    }
}

impl Lottery {
    /// Every accepted purchase paid the ticket price and bumped the seed
    /// once, starting from one.
    pub closed spec fn wf(&self) -> bool {
        &&& self.prize_pool as int == self.ticket_cost as int * self.participants@.len()
        &&& self.salt as int == self.participants@.len() + 1
    }

    /// One more purchase fits the machine integers.
    pub open spec fn room_for_ticket(&self) -> bool {
        &&& self@.pool + self@.ticket_price <= u128::MAX
        &&& self@.seed + 1 <= u64::MAX
    }

    /// The view of a well-formed round.
    pub proof fn lemma_wf_view(&self)
        requires
            self.wf(),
        ensures
            self@.pool == self@.ticket_price * self@.participants.len(),
            self@.seed == self@.participants.len() + 1,
            0 <= self@.pool <= u128::MAX,
            0 <= self@.ticket_price <= u128::MAX,
            0 <= self@.close_time <= u64::MAX,
            1 <= self@.seed <= u64::MAX,
    {
    }

    /// Opens a round created by `caller` at time `now`. Without a price a
    /// ticket costs `DEFAULT_TICKET_COST`; without a close time the round
    /// closes seven days after `now`.
    pub fn new(caller: AccountId, now: u64, ticket_cost: Option<u128>, end_date: Option<u64>) -> (r:
        Self)
        requires
            end_date.is_some() || now + SEVEN_DAYS <= u64::MAX,
        ensures
            r.wf(),
            r@ == new_spec(caller, now as int, ticket_cost, end_date),
    {
        let ticket_cost = match ticket_cost {
            Some(p) => p,
            None => DEFAULT_TICKET_COST,
        };
        let end_date = match end_date {
            Some(t) => t,
            None => now + SEVEN_DAYS,
        };
        let participants: Vec<AccountId> = Vec::new();
        Lottery { author: caller, ticket_cost, end_date, participants, prize_pool: 0, salt: 1 }
    }

    /// Draws the round at time `now`, once the outcome of paying the pool to
    /// `pending_payout`'s recipient is known (`paid`).
    ///
    /// Before the close time nothing changes and the draw is refused with
    /// `RoundNotClosed`; a failed transfer leaves the round as it was and
    /// gives `PayoutFailed`. Otherwise the winner is returned and the round
    /// starts over: no participants, an empty pool, the seed back at one and
    /// a close time seven days after `now`.
    pub fn winner(&mut self, now: u64, paid: bool) -> (r: Result<AccountId, Error>)
        requires
            old(self).wf(),
            now + SEVEN_DAYS <= u64::MAX,
        ensures
            final(self).wf(),
            now < old(self)@.close_time ==> r == Err::<AccountId, Error>(Error::RoundNotClosed)
                && final(self)@ == old(self)@,
            now >= old(self)@.close_time && !paid ==> r == Err::<AccountId, Error>(
                Error::PayoutFailed,
            ) && final(self)@ == old(self)@,
            now >= old(self)@.close_time && paid ==> r == Ok::<AccountId, Error>(
                draw_recipient(old(self)@, now as int),
            ) && final(self)@ == reset_spec(old(self)@, now as int),
    {
        let chosen = match self.pending_payout(now) {
            Ok((w, _)) => w,
            Err(e) => {
                return Err(e);
            },
        };
        if !paid {
            return Err(Error::PayoutFailed);
        }
        self.prize_pool = 0;
        self.participants = Vec::new();
        self.end_date = now + SEVEN_DAYS;
        self.salt = 1;
        Ok(chosen)
    }

    /// What a draw at `now` would pay, and to whom, without changing the
    /// round: `RoundNotClosed` before the close time, else the recipient
    /// picked by the pseudo-random index and the whole pool.
    pub fn pending_payout(&self, now: u64) -> (r: Result<(AccountId, u128), Error>)
        requires
            self.wf(),
        ensures
            now < self@.close_time ==> r == Err::<(AccountId, u128), Error>(Error::RoundNotClosed),
            now >= self@.close_time ==> r == Ok::<(AccountId, u128), Error>(
                (draw_recipient(self@, now as int), self@.pool as u128),
            ),
    {
        if self.get_time_left(now) > 0 {
            return Err(Error::RoundNotClosed);
        }
        let len = self.participants.len();
        let i = index_from(now, self.salt as u128 + 1, len as u64);
        let w = if (i as usize) < len {
            self.participants[i as usize]
        } else {
            self.author
        };
        Ok((w, self.prize_pool))
    }

    /// Records a ticket bought by `caller` with `transferred` attached.
    ///
    /// A payment other than the ticket price is refused with
    /// `InvalidPayment` and changes nothing. An exact payment appends the
    /// caller to the participants, adds it to the pool and bumps the seed.
    /// Purchases are taken after the close time too, until a draw happens.
    pub fn buy_ticket(&mut self, caller: AccountId, transferred: u128) -> (r: Result<(), Error>)
        requires
            old(self).wf(),
            old(self).room_for_ticket(),
        ensures
            final(self).wf(),
            transferred != old(self)@.ticket_price ==> r == Err::<(), Error>(Error::InvalidPayment)
                && final(self)@ == old(self)@,
            transferred == old(self)@.ticket_price ==> r == Ok::<(), Error>(()) && final(self)@
                == buy_spec(old(self)@, caller),
    {
        if transferred != self.ticket_cost {
            return Err(Error::InvalidPayment);
        }
        proof {
            self.lemma_wf_view();
            assert((self.ticket_cost as int) * (self.participants@.len() + 1) == self.ticket_cost
                as int * self.participants@.len() + self.ticket_cost as int) by (nonlinear_arith);
        }
        self.prize_pool = self.prize_pool + transferred;
        self.salt = self.salt + 1;
        self.participants.push(caller);
        Ok(())
    }

    /// Sum of the payments accepted in this round.
    pub fn get_price_pool(&self) -> (r: u128)
        ensures
            r == self@.pool,
    {
        self.prize_pool
    }

    /// Time left at `now` before the round may be drawn; zero from the
    /// close time on.
    pub fn get_time_left(&self, now: u64) -> (r: u64)
        ensures
            r == time_left_spec(self@.close_time, now as int),
            now >= self@.close_time ==> r == 0,
            now < self@.close_time ==> r == self@.close_time - now,
    {
        if now > self.end_date {
            return 0;
        }
        self.end_date - now
    }

    /// The pseudo-random value `(now + seed) mod (max_value + 1)`, in
    /// `[0, max_value]`. It is predictable by anyone who knows the time and
    /// the number of tickets sold.
    pub fn get_pseudo_random(&self, now: u64, max_value: u64) -> (r: u64)
        ensures
            r as int == random_index(now as int, self@.seed, max_value as int),
            r <= max_value,
    {
        index_from(now, self.salt as u128, max_value)
    }

    /// Rebuilds a round from its stored fields. `None` when they do not
    /// describe a round that purchases could have produced: the pool must be
    /// the ticket price times the number of participants, and the seed one
    /// more than that number.
    pub fn from_parts(
        author: AccountId,
        end_date: u64,
        ticket_cost: u128,
        participants: Vec<AccountId>,
        prize_pool: u128,
        salt: u64,
    ) -> (r: Option<Lottery>)
        ensures
            r.is_some() <==> (prize_pool as int == ticket_cost as int * participants@.len()
                && salt as int == participants@.len() + 1),
            r matches Some(l) ==> l.wf() && l@ == (RoundState {
                organizer: author,
                close_time: end_date as int,
                ticket_price: ticket_cost as int,
                participants: participants@,
                pool: prize_pool as int,
                seed: salt as int,
            }),
    {
        let len = participants.len();
        if len as u128 + 1 != salt as u128 {
            return None;
        }
        match ticket_cost.checked_mul(len as u128) {
            Some(total) => {
                if total != prize_pool {
                    return None;
                }
            },
            None => {
                proof {
                    assert(ticket_cost as int * len as int == ticket_cost as int * participants@.len());
                }
                return None;
            },
        }
        Some(Lottery { author, end_date, ticket_cost, participants, prize_pool, salt })
    }

    /// Seed of the pseudo-random derivation.
    pub fn salt(&self) -> (r: u64)
        ensures
            r == self@.seed,
    {
        self.salt
    }

    /// Price of one ticket.
    pub fn ticket_cost(&self) -> (r: u128)
        ensures
            r == self@.ticket_price,
    {
        self.ticket_cost
    }

    /// The time from which the round may be drawn.
    pub fn end_date(&self) -> (r: u64)
        ensures
            r == self@.close_time,
    {
        self.end_date
    }

    /// The account that created the round.
    pub fn author(&self) -> (r: AccountId)
        ensures
            r == self@.organizer,
    {
        self.author
    }

    /// The entries bought so far, in order.
    pub fn participants(&self) -> (r: &Vec<AccountId>)
        ensures
            r@ == self@.participants,
    {
        &self.participants
    }

    /// Whether one more purchase fits the machine integers.
    pub fn has_room_for_ticket(&self) -> (r: bool)
        requires
            self.wf(),
        ensures
            r == self.room_for_ticket(),
    {
        self.salt < u64::MAX && self.prize_pool <= u128::MAX - self.ticket_cost
    }
}

} // verus!
