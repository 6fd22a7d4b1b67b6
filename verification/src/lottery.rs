//! The lottery round: entries, the two-phase draw, settlement.
//!
//! One `Lottery` value is the whole contract state. The host environment calls
//! the methods here with the caller and any attached payment as explicit
//! arguments; where the protocol performs an external call (the randomness
//! request, the prize transfer), the method instead returns the action the
//! host must perform, with the state already moved to where the protocol
//! needs it. Settlement in particular applies its effects (reset,
//! record clearing) before handing out the transfer, so a re-entrant winner
//! observes an already-reset round.

use vstd::prelude::*;
use crate::account::AccountId;
use crate::u256::{U256, p256};

verus! {

/// The errors an entry point can report, each carrying the values a caller
/// needs to render it.
#[derive(Clone, Copy, PartialEq, Eq, Structural, Debug)]
pub enum Error {
    /// The fulfillment caller is not the configured randomness provider.
    OnlyVRFWrapperCanFulfill { have: AccountId, want: AccountId },
    /// An entry arrived while the round is not open.
    LotteryNotOpen,
    /// An entry paid less than the configured fee.
    InsufficientEntryFee { sent: U256, required: U256 },
    /// A draw was started with no recorded participants.
    NoPlayersInLottery,
    /// A draw was started while the round is already drawing.
    LotteryAlreadyClosed,
    /// The prize or withdrawal transfer failed in the host environment.
    TransferFailed,
    /// An owner-only entry point was called by another account.
    UnauthorizedAccount { account: AccountId },
    /// The owner handed to the constructor is the zero account.
    InvalidOwner { owner: AccountId },
}

/// The bridge record between a randomness request and its fulfillment.
#[derive(Clone, Copy, PartialEq, Eq, Structural, Debug)]
pub struct PendingRequest {
    /// The provider-assigned request identifier.
    pub request_id: U256,
    /// The round the request settles; this contract runs a single round.
    pub round_tag: U256,
}

/// The randomness request the host must submit after a successful draw.
#[derive(Clone, Copy, PartialEq, Eq, Structural, Debug)]
pub struct DrawRequest {
    /// The provider contract to submit the request to.
    pub vrf_wrapper: AccountId,
    /// Gas budget for the provider's callback.
    pub callback_gas_limit: u32,
    /// Confirmations the provider waits for.
    pub request_confirmations: u16,
    /// Number of random words requested.
    pub num_words: u32,
}

/// What a successful fulfillment asks of the host.
#[derive(Clone, Copy, PartialEq, Eq, Structural, Debug)]
pub enum Settlement {
    /// Nothing to do: the callback carried no words or no one had entered.
    NoEffect,
    /// Pay the prize to the selected winner.
    Payout { winner: AccountId, amount: U256 },
}

/// A native-currency transfer the host must perform.
#[derive(Clone, Copy, PartialEq, Eq, Structural, Debug)]
pub struct Transfer {
    /// The receiving account.
    pub to: AccountId,
    /// The amount to send.
    pub amount: U256,
}

/// The mathematical state of a pending request.
pub struct PendingModel {
    /// The request identifier as an integer.
    pub request_id: int,
    /// The round tag as an integer.
    pub round_tag: int,
}

/// The mathematical state of the lottery.
#[verifier::ext_equal]
pub struct LotteryModel {
    /// The configured randomness provider.
    pub vrf_wrapper: AccountId,
    /// Gas budget for the provider's callback.
    pub callback_gas_limit: u32,
    /// Confirmations the provider waits for.
    pub request_confirmations: u16,
    /// Number of random words requested per draw.
    pub num_words: u32,
    /// The fee each entry must pay.
    pub entry_fee: int,
    /// The participants of the current round, in entry order.
    pub players: Seq<AccountId>,
    /// The unsettled funds of the current round.
    pub pool: int,
    /// Whether the round accepts entries.
    pub open: bool,
    /// The outstanding randomness request, if a draw is in flight.
    pub pending: Option<PendingModel>,
    /// The winner of the most recently settled round.
    pub last_winner: AccountId,
    /// The prize of the most recently settled round.
    pub last_prize: int,
    /// The account allowed to draw and to change the fee.
    pub owner: AccountId,
}

/// The lottery contract state.
#[derive(Clone, Debug)]
pub struct Lottery {
    /// The configured randomness provider.
    pub i_vrf_v2_plus_wrapper: AccountId,
    /// Gas budget for the provider's callback.
    pub callback_gas_limit: u32,
    /// Confirmations the provider waits for.
    pub request_confirmations: u16,
    /// Number of random words requested per draw.
    pub num_words: u32,
    /// The fee each entry must pay.
    pub entry_fee: U256,
    /// The participants of the current round, in entry order.
    pub players: Vec<AccountId>,
    /// The unsettled funds of the current round.
    pub current_prize_pool: U256,
    /// Whether the round accepts entries.
    pub lottery_open: bool,
    /// The outstanding randomness request, if a draw is in flight.
    pub pending_request: Option<PendingRequest>,
    /// The winner of the most recently settled round.
    pub last_winner: AccountId,
    /// The prize of the most recently settled round.
    pub last_prize: U256,
    /// The account allowed to draw and to change the fee.
    pub owner: AccountId,
}

impl View for Lottery {
    type V = LotteryModel;

    open spec fn view(&self) -> LotteryModel {
        LotteryModel {
            vrf_wrapper: self.i_vrf_v2_plus_wrapper,
            callback_gas_limit: self.callback_gas_limit,
            request_confirmations: self.request_confirmations,
            num_words: self.num_words,
            entry_fee: self.entry_fee.as_int(),
            players: self.players@,
            pool: self.current_prize_pool.as_int(),
            open: self.lottery_open,
            pending: match self.pending_request {
                Some(p) => Some(
                    PendingModel { request_id: p.request_id.as_int(), round_tag: p.round_tag.as_int() },
                ),
                None => None,
            },
            last_winner: self.last_winner,
            last_prize: self.last_prize.as_int(),
            owner: self.owner,
        }
    }
}

/// The state after one accepted entry: the caller is appended and the payment
/// joins the pool; nothing else moves.
pub open spec fn enter_step(m: LotteryModel, caller: AccountId, paid: int) -> LotteryModel {
    LotteryModel { players: m.players.push(caller), pool: m.pool + paid, ..m }
}

/// The state after a successful draw lock: entries are now rejected.
pub open spec fn draw_lock_step(m: LotteryModel) -> LotteryModel {
    LotteryModel { open: false, ..m }
}

/// The state after the returned request identifier is persisted.
pub open spec fn record_step(m: LotteryModel, request_id: int) -> LotteryModel {
    LotteryModel { pending: Some(PendingModel { request_id, round_tag: 1 }), ..m }
}

/// The index of the winning participant: the random word reduced modulo the
/// participant count.
pub open spec fn winner_index(word: int, count: nat) -> int {
    word % count as int
}

/// The state after a settled round: the winner and prize are recorded, the
/// participants and pool are cleared, the request is discarded, and the round
/// reopens. Configuration is untouched.
pub open spec fn settle_step(m: LotteryModel, idx: int) -> LotteryModel {
    LotteryModel {
        players: Seq::empty(),
        pool: 0,
        open: true,
        pending: None,
        last_winner: m.players[idx],
        last_prize: m.pool,
        ..m
    }
}

impl Lottery {
    /// Sets up a fresh lottery: round open, empty pool, the given provider,
    /// fee and owner, and the fixed request configuration.
    ///
    /// Rejects the zero account as owner, as the access guard does.
    pub fn constructor(vrf_v2_plus_wrapper: AccountId, entry_fee: U256, owner: AccountId) -> (r:
        Result<Lottery, Error>)
        ensures
            owner == AccountId::spec_zero() ==> r == (Err::<Lottery, Error>(
                Error::InvalidOwner { owner: AccountId::spec_zero() },
            )),
            owner != AccountId::spec_zero() ==> (r matches Ok(l) && l@ == (LotteryModel {
                vrf_wrapper: vrf_v2_plus_wrapper,
                callback_gas_limit: 200000u32,
                request_confirmations: 3u16,
                num_words: 1u32,
                entry_fee: entry_fee.as_int(),
                players: Seq::<AccountId>::empty(),
                pool: 0,
                open: true,
                pending: None::<PendingModel>,
                last_winner: AccountId::spec_zero(),
                last_prize: 0,
                owner,
            })),
    {
        let zero = AccountId::zero();
        if owner == zero {
            return Err(Error::InvalidOwner { owner });
        }
        let l = Lottery {
            i_vrf_v2_plus_wrapper: vrf_v2_plus_wrapper,
            callback_gas_limit: 200000,
            request_confirmations: 3,
            num_words: 1,
            entry_fee,
            players: Vec::new(),
            current_prize_pool: U256::zero(),
            lottery_open: true,
            pending_request: None,
            last_winner: AccountId::zero(),
            last_prize: U256::zero(),
            owner,
        };
        proof {
            assert(l@ =~= (LotteryModel {
                vrf_wrapper: vrf_v2_plus_wrapper,
                callback_gas_limit: 200000u32,
                request_confirmations: 3u16,
                num_words: 1u32,
                entry_fee: entry_fee.as_int(),
                players: Seq::<AccountId>::empty(),
                pool: 0,
                open: true,
                pending: None::<PendingModel>,
                last_winner: AccountId::spec_zero(),
                last_prize: 0,
                owner,
            }));
        }
        Ok(l)
    }

    /// Accepts an entry: while the round is open and the payment covers the
    /// fee, the caller joins the participants and the payment joins the pool.
    /// A closed round or a short payment is rejected with the exact reason and
    /// no state change.
    pub fn enter_lottery(&mut self, caller: AccountId, msg_value: U256) -> (r: Result<(), Error>)
        requires
            old(self)@.open && msg_value.as_int() >= old(self)@.entry_fee ==> old(self)@.pool
                + msg_value.as_int() < p256(),
        ensures
            r is Ok <==> old(self)@.open && msg_value.as_int() >= old(self)@.entry_fee,
            !old(self)@.open ==> r == Err::<(), Error>(Error::LotteryNotOpen) && *final(self)
                == *old(self),
            old(self)@.open && msg_value.as_int() < old(self)@.entry_fee ==> r == (Err::<(), Error>(
                Error::InsufficientEntryFee { sent: msg_value, required: old(self).entry_fee },
            )) && *final(self) == *old(self),
            r is Ok ==> final(self)@ == enter_step(old(self)@, caller, msg_value.as_int()),
    {
        if !self.lottery_open {
            return Err(Error::LotteryNotOpen);
        }
        if msg_value.lt(self.entry_fee) {
            return Err(Error::InsufficientEntryFee { sent: msg_value, required: self.entry_fee });
        }
        self.players.push(caller);
        let sum = self.current_prize_pool.checked_add(msg_value);
        self.current_prize_pool = sum.unwrap();
        proof {
            assert(self@ =~= enter_step(old(self)@, caller, msg_value.as_int()));
        }
        Ok(())
    }

    /// Locks the round for drawing. Only the owner may draw, only while the
    /// round is open, and only with at least one participant; each refusal
    /// names its reason and leaves the state untouched. On success entries are
    /// rejected from here on — the lock lands before any external call — and
    /// the returned request must be submitted to the provider by the host,
    /// which then persists the returned identifier with `record_request`.
    pub fn start_draw(&mut self, caller: AccountId) -> (r: Result<DrawRequest, Error>)
        ensures
            caller != old(self)@.owner ==> r == (Err::<DrawRequest, Error>(
                Error::UnauthorizedAccount { account: caller },
            )) && *final(self) == *old(self),
            caller == old(self)@.owner && !old(self)@.open ==> r == Err::<DrawRequest, Error>(
                Error::LotteryAlreadyClosed,
            ) && *final(self) == *old(self),
            caller == old(self)@.owner && old(self)@.open && old(self)@.players.len() == 0 ==> r
                == Err::<DrawRequest, Error>(Error::NoPlayersInLottery) && *final(self) == *old(self),
            r is Ok <==> caller == old(self)@.owner && old(self)@.open && old(self)@.players.len()
                > 0,
            r is Ok ==> r == (Ok::<DrawRequest, Error>(DrawRequest {
                vrf_wrapper: old(self)@.vrf_wrapper,
                callback_gas_limit: old(self)@.callback_gas_limit,
                request_confirmations: old(self)@.request_confirmations,
                num_words: old(self)@.num_words,
            })) && final(self)@ == draw_lock_step(old(self)@),
    {
        if caller != self.owner {
            return Err(Error::UnauthorizedAccount { account: caller });
        }
        if !self.lottery_open {
            return Err(Error::LotteryAlreadyClosed);
        }
        if self.players.len() == 0 {
            return Err(Error::NoPlayersInLottery);
        }
        self.lottery_open = false;
        proof {
            assert(self@ =~= draw_lock_step(old(self)@));
        }
        Ok(
            DrawRequest {
                vrf_wrapper: self.i_vrf_v2_plus_wrapper,
                callback_gas_limit: self.callback_gas_limit,
                request_confirmations: self.request_confirmations,
                num_words: self.num_words,
            },
        )
    }

    /// Persists the identifier the provider assigned to the submitted
    /// request, bridging the draw to its later fulfillment. The round must
    /// already be locked; afterwards exactly this one request is outstanding.
    pub fn record_request(&mut self, request_id: U256)
        requires
            !old(self)@.open,
        ensures
            final(self)@ == record_step(old(self)@, request_id.as_int()),
    {
        self.pending_request = Some(
            PendingRequest { request_id, round_tag: U256::from_u64(1) },
        );
        proof {
            assert(self@ =~= record_step(old(self)@, request_id.as_int()));
        }
    }

    /// Settles the round from the provider's callback. Only the configured
    /// provider may call; anyone else is refused with both accounts named and
    /// no state change. An empty word sequence or an empty participant list
    /// succeeds with no effect. Otherwise the first word selects the winner —
    /// index `word mod participant_count` — the pool is the prize, and the
    /// round is reset (participants cleared, pool zeroed, request discarded,
    /// round reopened) before the returned payout is handed to the host.
    pub fn raw_fulfill_random_words(
        &mut self,
        caller: AccountId,
        request_id: U256,
        random_words: Vec<U256>,
    ) -> (r: Result<Settlement, Error>)
        ensures
            caller != old(self)@.vrf_wrapper ==> r == (Err::<Settlement, Error>(
                Error::OnlyVRFWrapperCanFulfill { have: caller, want: old(self).i_vrf_v2_plus_wrapper },
            )) && *final(self) == *old(self),
            caller == old(self)@.vrf_wrapper && (random_words@.len() == 0
                || old(self)@.players.len() == 0) ==> r == Ok::<Settlement, Error>(
                Settlement::NoEffect,
            ) && *final(self) == *old(self),
            caller == old(self)@.vrf_wrapper && random_words@.len() > 0 && old(self)@.players.len()
                > 0 ==> ({
                let idx = winner_index(random_words@[0].as_int(), old(self)@.players.len());
                r == (Ok::<Settlement, Error>(Settlement::Payout {
                    winner: old(self)@.players[idx],
                    amount: old(self).current_prize_pool,
                })) && final(self)@ == settle_step(old(self)@, idx)
            }),
    {
        if caller != self.i_vrf_v2_plus_wrapper {
            return Err(
                Error::OnlyVRFWrapperCanFulfill { have: caller, want: self.i_vrf_v2_plus_wrapper },
            );
        }
        if random_words.len() == 0 {
            return Ok(Settlement::NoEffect);
        }
        let count = self.players.len();
        if count == 0 {
            return Ok(Settlement::NoEffect);
        }
        let word = random_words[0];
        let idx64 = word.mod_u64(count as u64);
        let idx = idx64 as usize;
        let winner = self.players[idx];
        let prize = self.current_prize_pool;
        self.last_winner = winner;
        self.last_prize = prize;
        self.players.clear();
        self.current_prize_pool = U256::zero();
        self.lottery_open = true;
        self.pending_request = None;
        proof {
            assert(self@ =~= settle_step(
                old(self)@,
                winner_index(random_words@[0].as_int(), old(self)@.players.len()),
            ));
        }
        Ok(Settlement::Payout { winner, amount: prize })
    }

    /// Changes the entry fee for entries accepted from now on. Owner only;
    /// anyone else is refused with no state change.
    pub fn set_entry_fee(&mut self, caller: AccountId, new_fee: U256) -> (r: Result<(), Error>)
        ensures
            caller != old(self)@.owner ==> r == (Err::<(), Error>(
                Error::UnauthorizedAccount { account: caller },
            )) && *final(self) == *old(self),
            caller == old(self)@.owner ==> r is Ok && final(self)@ == (LotteryModel {
                entry_fee: new_fee.as_int(),
                ..old(self)@
            }),
    {
        if caller != self.owner {
            return Err(Error::UnauthorizedAccount { account: caller });
        }
        self.entry_fee = new_fee;
        proof {
            assert(self@ =~= (LotteryModel { entry_fee: new_fee.as_int(), ..old(self)@ }));
        }
        Ok(())
    }

    /// Validates an owner withdrawal and hands the host the transfer to
    /// perform: the amount goes to the owner. Anyone else is refused.
    pub fn withdraw_native(&self, caller: AccountId, amount: U256) -> (r: Result<Transfer, Error>)
        ensures
            caller != self@.owner ==> r == (Err::<Transfer, Error>(
                Error::UnauthorizedAccount { account: caller },
            )),
            caller == self@.owner ==> r == (Ok::<Transfer, Error>(
                Transfer { to: self.owner, amount },
            )),
    {
        if caller != self.owner {
            return Err(Error::UnauthorizedAccount { account: caller });
        }
        Ok(Transfer { to: self.owner, amount })
    }

    /// The configured entry fee.
    pub fn get_entry_fee(&self) -> (r: U256)
        ensures
            r == self.entry_fee,
    {
        self.entry_fee
    }

    /// The winner of the most recently settled round.
    pub fn get_last_winner(&self) -> (r: AccountId)
        ensures
            r == self@.last_winner,
    {
        self.last_winner
    }

    /// The prize of the most recently settled round.
    pub fn get_last_prize(&self) -> (r: U256)
        ensures
            r == self.last_prize,
    {
        self.last_prize
    }

    /// Whether the round accepts entries.
    pub fn is_lottery_open(&self) -> (r: bool)
        ensures
            r == self@.open,
    {
        self.lottery_open
    }

    /// How many participants the current round holds.
    pub fn get_players_count(&self) -> (r: U256)
        ensures
            r.as_int() == self@.players.len(),
    {
        U256::from_u64(self.players.len() as u64)
    }

    /// The participant at the given index; an index that does not fit the
    /// machine word falls back to the first slot, and an out-of-range slot
    /// yields the zero account.
    pub fn get_player(&self, index: U256) -> (r: AccountId)
        ensures
            ({
                let idx = if index.as_int() <= usize::MAX { index.as_int() } else { 0 };
                r == if idx < self@.players.len() {
                    self@.players[idx]
                } else {
                    AccountId::spec_zero()
                }
            }),
    {
        let idx: usize = match index.try_to_u64() {
            Some(v) => {
                if v <= usize::MAX as u64 {
                    v as usize
                } else {
                    0
                }
            },
            None => 0,
        };
        if idx < self.players.len() {
            self.players[idx]
        } else {
            AccountId::zero()
        }
    }

    /// The unsettled funds of the current round.
    pub fn get_prize_pool(&self) -> (r: U256)
        ensures
            r == self.current_prize_pool,
    {
        self.current_prize_pool
    }

    /// The account allowed to draw and to change the fee.
    pub fn get_owner(&self) -> (r: AccountId)
        ensures
            r == self@.owner,
    {
        self.owner
    }

    /// The configured randomness provider.
    pub fn i_vrf_v2_plus_wrapper(&self) -> (r: AccountId)
        ensures
            r == self@.vrf_wrapper,
    {
        self.i_vrf_v2_plus_wrapper
    }

    /// Gas budget for the provider's callback.
    pub fn callback_gas_limit(&self) -> (r: u32)
        ensures
            r == self@.callback_gas_limit,
    {
        self.callback_gas_limit
    }

    /// Confirmations the provider waits for.
    pub fn request_confirmations(&self) -> (r: u16)
        ensures
            r == self@.request_confirmations,
    {
        self.request_confirmations
    }

    /// Number of random words requested per draw.
    pub fn num_words(&self) -> (r: u32)
        ensures
            r == self@.num_words,
    {
        self.num_words
    }

    /// The outstanding request identifier, if a draw is in flight.
    pub fn pending_request_id(&self) -> (r: Option<U256>)
        ensures
            match self@.pending {
                Some(p) => r matches Some(id) && id.as_int() == p.request_id,
                None => r is None,
            },
    {
        match self.pending_request {
            Some(p) => Some(p.request_id),
            None => None,
        }
    }
}

/// A successful draw — the lock followed by recording the identifier the
/// provider returned — leaves the round drawing with exactly that one request
/// outstanding, and touches neither the participants nor the pool.
pub proof fn lemma_draw_leaves_one_pending(m: LotteryModel, request_id: int)
    ensures
        !record_step(draw_lock_step(m), request_id).open,
        record_step(draw_lock_step(m), request_id).pending == Some(
            PendingModel { request_id, round_tag: 1 },
        ),
        record_step(draw_lock_step(m), request_id).players == m.players,
        record_step(draw_lock_step(m), request_id).pool == m.pool,
{
}

/// The accounts of a run of entries, in order.
pub open spec fn entry_accounts(entries: Seq<(AccountId, int)>) -> Seq<AccountId> {
    entries.map_values(|e: (AccountId, int)| e.0)
}

/// The total paid by a run of entries.
pub open spec fn sum_payments(entries: Seq<(AccountId, int)>) -> int
    decreases entries.len(),
{
    if entries.len() == 0 {
        0
    } else {
        entries[0].1 + sum_payments(entries.drop_first())
    }
}

/// The state after a run of accepted entries, applied in order.
pub open spec fn apply_entries(m: LotteryModel, entries: Seq<(AccountId, int)>) -> LotteryModel
    decreases entries.len(),
{
    if entries.len() == 0 {
        m
    } else {
        apply_entries(enter_step(m, entries[0].0, entries[0].1), entries.drop_first())
    }
}

/// Any run of entries accepted while the round is open accumulates exactly:
/// the pool grows by the sum of the payments, and the participant sequence is
/// the old one followed by the entering accounts — in particular, the
/// participant count grows by the number of entries. The round stays open
/// throughout, so every such entry is indeed accepted (each `enter_lottery`
/// call takes the state through exactly one `enter_step`).
pub proof fn lemma_entries_accumulate(m: LotteryModel, entries: Seq<(AccountId, int)>)
    requires
        m.open,
        forall|i: int| 0 <= i < entries.len() ==> m.entry_fee <= #[trigger] entries[i].1,
    ensures
        apply_entries(m, entries).pool == m.pool + sum_payments(entries),
        apply_entries(m, entries).players == m.players + entry_accounts(entries),
        apply_entries(m, entries).players.len() == m.players.len() + entries.len(),
        apply_entries(m, entries).open,
        apply_entries(m, entries).entry_fee == m.entry_fee,
    decreases entries.len(),
{
    if entries.len() == 0 {
        assert(apply_entries(m, entries).players =~= m.players + entry_accounts(entries));
    } else {
        let stepped = enter_step(m, entries[0].0, entries[0].1);
        let rest = entries.drop_first();
        assert(forall|i: int| 0 <= i < rest.len() ==> stepped.entry_fee <= #[trigger] rest[i].1);
        lemma_entries_accumulate(stepped, rest);
        assert(stepped.players + entry_accounts(rest) =~= m.players + entry_accounts(entries));
    }
}

} // verus!
