//! A standalone randomness-consumption ledger.
//!
//! Unlike the lottery, this component never resets: every submitted request
//! keeps a permanent record — what was paid for it, whether it was fulfilled,
//! and the random word it received — queryable indefinitely by request
//! identifier. Fulfillment stores the word and flips the flag; it moves no
//! funds. The provider may fulfil outstanding requests in any order; each
//! record has an independent lifecycle.

use vstd::prelude::*;
use crate::account::AccountId;
use crate::lottery::Transfer;
use crate::u256::U256;

verus! {

/// The errors an entry point can report.
#[derive(Clone, Copy, PartialEq, Eq, Structural, Debug)]
pub enum Error {
    /// The fulfillment caller is not the configured randomness provider.
    OnlyVRFWrapperCanFulfill { have: AccountId, want: AccountId },
    /// An owner-only entry point was called by another account.
    UnauthorizedAccount { account: AccountId },
    /// The owner handed to the constructor is the zero account.
    InvalidOwner { owner: AccountId },
    /// No record exists for the given request identifier.
    RequestNotFound,
}

/// One request's permanent record.
#[derive(Clone, Copy, PartialEq, Eq, Structural, Debug)]
pub struct RequestRecord {
    /// The provider-assigned request identifier.
    pub request_id: U256,
    /// The native payment made for the request.
    pub paid: U256,
    /// The random word delivered, zero until fulfillment.
    pub random_word: U256,
    /// Whether the provider has answered; flips once, never back.
    pub fulfilled: bool,
}

/// The mathematical state of the ledger.
#[verifier::ext_equal]
pub struct ConsumerModel {
    /// The configured randomness provider.
    pub vrf_wrapper: AccountId,
    /// All recorded requests, in submission order.
    pub requests: Seq<RequestRecord>,
    /// The identifier of the most recently recorded request.
    pub last_request_id: int,
    /// Gas budget for the provider's callback.
    pub callback_gas_limit: u32,
    /// Confirmations the provider waits for.
    pub request_confirmations: u16,
    /// Number of random words requested.
    pub num_words: u32,
    /// The account allowed to withdraw.
    pub owner: AccountId,
}

/// The ledger contract state.
#[derive(Clone, Debug)]
pub struct DirectFundingConsumer {
    /// The configured randomness provider.
    pub i_vrf_v2_plus_wrapper: AccountId,
    /// All recorded requests, in submission order.
    pub requests: Vec<RequestRecord>,
    /// The identifier of the most recently recorded request.
    pub last_request_id: U256,
    /// Gas budget for the provider's callback.
    pub callback_gas_limit: u32,
    /// Confirmations the provider waits for.
    pub request_confirmations: u16,
    /// Number of random words requested.
    pub num_words: u32,
    /// The account allowed to withdraw.
    pub owner: AccountId,
}

impl View for DirectFundingConsumer {
    type V = ConsumerModel;

    open spec fn view(&self) -> ConsumerModel {
        ConsumerModel {
            vrf_wrapper: self.i_vrf_v2_plus_wrapper,
            requests: self.requests@,
            last_request_id: self.last_request_id.as_int(),
            callback_gas_limit: self.callback_gas_limit,
            request_confirmations: self.request_confirmations,
            num_words: self.num_words,
            owner: self.owner,
        }
    }
}

/// Whether some record carries the given request identifier.
pub open spec fn has_request(s: Seq<RequestRecord>, id: U256) -> bool {
    exists|i: int| 0 <= i < s.len() && s[i].request_id == id
}

/// A record after fulfillment: the flag is set, and the first delivered word
/// is stored — an empty delivery leaves the stored word as it was.
pub open spec fn fulfill_update(rec: RequestRecord, words: Seq<U256>) -> RequestRecord {
    RequestRecord {
        fulfilled: true,
        random_word: if words.len() > 0 {
            words[0]
        } else {
            rec.random_word
        },
        ..rec
    }
}

impl DirectFundingConsumer {
    /// Request identifiers are unique across the ledger: the provider assigns
    /// each submission a fresh one.
    pub open spec fn wf(self) -> bool {
        forall|i: int, j: int|
            0 <= i < j < self@.requests.len() ==> (#[trigger] self@.requests[i]).request_id != (
            #[trigger] self@.requests[j]).request_id
    }

    /// Sets up a fresh ledger for the given provider and owner, with the
    /// fixed request configuration and no records.
    ///
    /// Rejects the zero account as owner, as the access guard does.
    pub fn constructor(vrf_v2_plus_wrapper: AccountId, owner: AccountId) -> (r: Result<
        DirectFundingConsumer,
        Error,
    >)
        ensures
            owner == AccountId::spec_zero() ==> r == (Err::<DirectFundingConsumer, Error>(
                Error::InvalidOwner { owner: AccountId::spec_zero() },
            )),
            owner != AccountId::spec_zero() ==> (r matches Ok(c) && c@ == (ConsumerModel {
                vrf_wrapper: vrf_v2_plus_wrapper,
                requests: Seq::<RequestRecord>::empty(),
                last_request_id: 0,
                callback_gas_limit: 100000u32,
                request_confirmations: 3u16,
                num_words: 1u32,
                owner,
            }) && c.wf()),
    {
        let zero = AccountId::zero();
        if owner == zero {
            return Err(Error::InvalidOwner { owner });
        }
        let c = DirectFundingConsumer {
            i_vrf_v2_plus_wrapper: vrf_v2_plus_wrapper,
            requests: Vec::new(),
            last_request_id: U256::zero(),
            callback_gas_limit: 100000,
            request_confirmations: 3,
            num_words: 1,
            owner,
        };
        proof {
            assert(c@ =~= (ConsumerModel {
                vrf_wrapper: vrf_v2_plus_wrapper,
                requests: Seq::<RequestRecord>::empty(),
                last_request_id: 0,
                callback_gas_limit: 100000u32,
                request_confirmations: 3u16,
                num_words: 1u32,
                owner,
            }));
        }
        Ok(c)
    }

    /// Persists a freshly submitted request: unfulfilled, with the payment
    /// the provider quoted, and becomes the latest request. The identifier
    /// must be new — the provider assigns each submission a fresh one.
    pub fn record_request(&mut self, request_id: U256, paid: U256)
        requires
            !has_request(old(self)@.requests, request_id),
        ensures
            final(self)@ == (ConsumerModel {
                requests: old(self)@.requests.push(
                    RequestRecord {
                        request_id,
                        paid,
                        random_word: (U256 { l0: 0, l1: 0, l2: 0, l3: 0 }),
                        fulfilled: false,
                    },
                ),
                last_request_id: request_id.as_int(),
                ..old(self)@
            }),
            old(self).wf() ==> final(self).wf(),
    {
        let rec = RequestRecord { request_id, paid, random_word: U256::zero(), fulfilled: false };
        self.requests.push(rec);
        self.last_request_id = request_id;
        proof {
            assert(self@ =~= (ConsumerModel {
                requests: old(self)@.requests.push(rec),
                last_request_id: request_id.as_int(),
                ..old(self)@
            }));
        }
    }

    /// Stores a delivered random word. Only the configured provider may call;
    /// anyone else is refused with both accounts named and no state change. An
    /// unknown identifier is reported as not found, with no state change.
    /// Otherwise the matching record is marked fulfilled and keeps the first
    /// delivered word; every other record, and all configuration, stays as it
    /// was.
    pub fn raw_fulfill_random_words(
        &mut self,
        caller: AccountId,
        request_id: U256,
        random_words: Vec<U256>,
    ) -> (r: Result<(), Error>)
        ensures
            caller != old(self)@.vrf_wrapper ==> r == (Err::<(), Error>(
                Error::OnlyVRFWrapperCanFulfill { have: caller, want: old(self).i_vrf_v2_plus_wrapper },
            )) && *final(self) == *old(self),
            caller == old(self)@.vrf_wrapper && !has_request(old(self)@.requests, request_id) ==> r
                == Err::<(), Error>(Error::RequestNotFound) && *final(self) == *old(self),
            caller == old(self)@.vrf_wrapper && has_request(old(self)@.requests, request_id) ==> r
                is Ok && exists|i: int|
                0 <= i < old(self)@.requests.len() && (#[trigger] old(self)@.requests[i]).request_id
                    == request_id && final(self)@ == (ConsumerModel {
                    requests: old(self)@.requests.update(
                        i,
                        fulfill_update(old(self)@.requests[i], random_words@),
                    ),
                    ..old(self)@
                }),
            old(self).wf() ==> final(self).wf(),
    {
        if caller != self.i_vrf_v2_plus_wrapper {
            return Err(
                Error::OnlyVRFWrapperCanFulfill { have: caller, want: self.i_vrf_v2_plus_wrapper },
            );
        }
        let found = find_index(&self.requests, request_id);
        match found {
            None => Err(Error::RequestNotFound),
            Some(i) => {
                let rec = self.requests[i];
                let updated = RequestRecord {
                    request_id: rec.request_id,
                    paid: rec.paid,
                    random_word: if random_words.len() > 0 {
                        random_words[0]
                    } else {
                        rec.random_word
                    },
                    fulfilled: true,
                };
                self.requests[i] = updated;
                proof {
                    assert(updated == fulfill_update(old(self)@.requests[i as int], random_words@));
                    assert(self@ =~= (ConsumerModel {
                        requests: old(self)@.requests.update(
                            i as int,
                            fulfill_update(old(self)@.requests[i as int], random_words@),
                        ),
                        ..old(self)@
                    }));
                }
                Ok(())
            },
        }
    }

    /// Reports a request's record: what was paid, whether it was fulfilled,
    /// and the stored random word. An unknown identifier is reported as not
    /// found rather than aborting the invocation.
    pub fn get_request_status(&self, request_id: U256) -> (r: Result<(U256, bool, U256), Error>)
        ensures
            !has_request(self@.requests, request_id) ==> r == Err::<(U256, bool, U256), Error>(
                Error::RequestNotFound,
            ),
            has_request(self@.requests, request_id) ==> exists|i: int|
                0 <= i < self@.requests.len() && (#[trigger] self@.requests[i]).request_id
                    == request_id && r == Ok::<(U256, bool, U256), Error>(
                    (self@.requests[i].paid, self@.requests[i].fulfilled, self@.requests[i].random_word),
                ),
    {
        let found = find_index(&self.requests, request_id);
        match found {
            None => Err(Error::RequestNotFound),
            Some(i) => {
                let rec = self.requests[i];
                Ok((rec.paid, rec.fulfilled, rec.random_word))
            },
        }
    }

    /// The identifier of the most recently recorded request.
    pub fn get_last_request_id(&self) -> (r: U256)
        ensures
            r == self.last_request_id,
    {
        self.last_request_id
    }

    /// Validates an owner withdrawal and hands the host the transfer to
    /// perform: the amount goes to the owner. Anyone else is refused.
    pub fn withdraw_native(&self, caller: AccountId, amount: U256) -> (r: Result<Transfer, Error>)
        ensures
            caller != self@.owner ==> r == (Err::<Transfer, Error>(
                Error::UnauthorizedAccount { account: caller },
            )),
            caller == self@.owner ==> r == (Ok::<Transfer, Error>(
                Transfer { to: self.owner, amount },
            )),
    {
        if caller != self.owner {
            return Err(Error::UnauthorizedAccount { account: caller });
        }
        Ok(Transfer { to: self.owner, amount })
    }

    /// The account allowed to withdraw.
    pub fn get_owner(&self) -> (r: AccountId)
        ensures
            r == self@.owner,
    {
        self.owner
    }

    /// Gas budget for the provider's callback.
    pub fn callback_gas_limit(&self) -> (r: u32)
        ensures
            r == self@.callback_gas_limit,
    {
        self.callback_gas_limit
    }

    /// Confirmations the provider waits for.
    pub fn request_confirmations(&self) -> (r: u16)
        ensures
            r == self@.request_confirmations,
    {
        self.request_confirmations
    }

    /// Number of random words requested.
    pub fn num_words(&self) -> (r: u32)
        ensures
            r == self@.num_words,
    {
        self.num_words
    }

    /// The configured randomness provider.
    pub fn i_vrf_v2_plus_wrapper(&self) -> (r: AccountId)
        ensures
            r == self@.vrf_wrapper,
    {
        self.i_vrf_v2_plus_wrapper
    }

    /// How many requests the ledger holds.
    pub fn request_count(&self) -> (r: usize)
        ensures
            r == self@.requests.len(),
    {
        self.requests.len()
    }
}

/// Finds the first record carrying the given identifier.
fn find_index(s: &Vec<RequestRecord>, request_id: U256) -> (r: Option<usize>)
    ensures
        r matches Some(i) ==> i < s@.len() && s@[i as int].request_id == request_id,
        r is None ==> !has_request(s@, request_id),
{
    let mut i: usize = 0;
    while i < s.len()
        invariant
            i <= s@.len(),
            forall|j: int| 0 <= j < i ==> (#[trigger] s@[j]).request_id != request_id,
        decreases s@.len() - i,
    {
        if s[i].request_id == request_id {
            return Some(i);
        }
        i += 1;
    }
    None
}

} // verus!
