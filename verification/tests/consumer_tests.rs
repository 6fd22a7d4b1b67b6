use vrf_lottery::account::AccountId;
use vrf_lottery::consumer::{DirectFundingConsumer, Error};
use vrf_lottery::u256::U256;

fn ledger_owner() -> AccountId {
    AccountId::new(0, 21)
}

fn wrapper() -> AccountId {
    AccountId::new(0, 22)
}

fn fresh_consumer() -> DirectFundingConsumer {
    DirectFundingConsumer::constructor(wrapper(), ledger_owner()).unwrap()
}

#[test]
fn consumer_constructor_sets_configuration() {
    let c = fresh_consumer();
    assert_eq!(c.get_owner(), ledger_owner());
    assert_eq!(c.i_vrf_v2_plus_wrapper(), wrapper());
    assert_eq!(c.callback_gas_limit(), 100000);
    assert_eq!(c.request_confirmations(), 3);
    assert_eq!(c.num_words(), 1);
    assert_eq!(c.request_count(), 0);
    assert!(c.get_last_request_id().is_zero());
}

#[test]
fn consumer_constructor_rejects_zero_owner() {
    let r = DirectFundingConsumer::constructor(wrapper(), AccountId::zero());
    assert_eq!(
        r.unwrap_err(),
        Error::InvalidOwner {
            owner: AccountId::zero()
        }
    );
}

#[test]
fn recorded_request_is_queryable() {
    let mut c = fresh_consumer();
    c.record_request(U256::from_u64(7), U256::from_u64(500));
    assert_eq!(c.get_last_request_id(), U256::from_u64(7));
    assert_eq!(c.request_count(), 1);
    let (paid, fulfilled, word) = c.get_request_status(U256::from_u64(7)).unwrap();
    assert_eq!(paid, U256::from_u64(500));
    assert!(!fulfilled);
    assert!(word.is_zero());
}

#[test]
fn status_of_unknown_request_is_not_found() {
    let c = fresh_consumer();
    let r = c.get_request_status(U256::from_u64(7));
    assert_eq!(r, Err(Error::RequestNotFound));
}

#[test]
fn fulfillment_stores_the_first_word() {
    let mut c = fresh_consumer();
    c.record_request(U256::from_u64(7), U256::from_u64(500));
    let r = c.raw_fulfill_random_words(
        wrapper(),
        U256::from_u64(7),
        vec![U256::from_u64(99), U256::from_u64(100)],
    );
    assert_eq!(r, Ok(()));
    let (paid, fulfilled, word) = c.get_request_status(U256::from_u64(7)).unwrap();
    assert_eq!(paid, U256::from_u64(500));
    assert!(fulfilled);
    assert_eq!(word, U256::from_u64(99));
}

#[test]
fn fulfillment_by_non_wrapper_fails_and_changes_nothing() {
    let mut c = fresh_consumer();
    c.record_request(U256::from_u64(7), U256::from_u64(500));
    let stranger = AccountId::new(0, 99);
    let r = c.raw_fulfill_random_words(stranger, U256::from_u64(7), vec![U256::from_u64(99)]);
    assert_eq!(
        r,
        Err(Error::OnlyVRFWrapperCanFulfill {
            have: stranger,
            want: wrapper(),
        })
    );
    let (_, fulfilled, word) = c.get_request_status(U256::from_u64(7)).unwrap();
    assert!(!fulfilled);
    assert!(word.is_zero());
}

#[test]
fn fulfillment_of_unknown_request_is_not_found() {
    let mut c = fresh_consumer();
    c.record_request(U256::from_u64(7), U256::from_u64(500));
    let r = c.raw_fulfill_random_words(wrapper(), U256::from_u64(8), vec![U256::from_u64(99)]);
    assert_eq!(r, Err(Error::RequestNotFound));
}

#[test]
fn fulfillment_with_no_words_still_marks_fulfilled() {
    let mut c = fresh_consumer();
    c.record_request(U256::from_u64(7), U256::from_u64(500));
    let r = c.raw_fulfill_random_words(wrapper(), U256::from_u64(7), vec![]);
    assert_eq!(r, Ok(()));
    let (_, fulfilled, word) = c.get_request_status(U256::from_u64(7)).unwrap();
    assert!(fulfilled);
    assert!(word.is_zero());
}

#[test]
fn requests_are_fulfilled_independently_in_any_order() {
    let mut c = fresh_consumer();
    c.record_request(U256::from_u64(1), U256::from_u64(10));
    c.record_request(U256::from_u64(2), U256::from_u64(20));
    c.record_request(U256::from_u64(3), U256::from_u64(30));
    assert_eq!(c.get_last_request_id(), U256::from_u64(3));

    c.raw_fulfill_random_words(wrapper(), U256::from_u64(2), vec![U256::from_u64(222)])
        .unwrap();
    c.raw_fulfill_random_words(wrapper(), U256::from_u64(3), vec![U256::from_u64(333)])
        .unwrap();

    let (paid1, fulfilled1, _) = c.get_request_status(U256::from_u64(1)).unwrap();
    assert_eq!(paid1, U256::from_u64(10));
    assert!(!fulfilled1);
    let (paid2, fulfilled2, word2) = c.get_request_status(U256::from_u64(2)).unwrap();
    assert_eq!(paid2, U256::from_u64(20));
    assert!(fulfilled2);
    assert_eq!(word2, U256::from_u64(222));
    let (paid3, fulfilled3, word3) = c.get_request_status(U256::from_u64(3)).unwrap();
    assert_eq!(paid3, U256::from_u64(30));
    assert!(fulfilled3);
    assert_eq!(word3, U256::from_u64(333));

    c.raw_fulfill_random_words(wrapper(), U256::from_u64(1), vec![U256::from_u64(111)])
        .unwrap();
    let (_, fulfilled1b, word1b) = c.get_request_status(U256::from_u64(1)).unwrap();
    assert!(fulfilled1b);
    assert_eq!(word1b, U256::from_u64(111));
    assert_eq!(c.get_last_request_id(), U256::from_u64(3));
}

#[test]
fn consumer_withdraw_pays_the_owner_only() {
    let c = fresh_consumer();
    let stranger = AccountId::new(0, 99);
    let r = c.withdraw_native(stranger, U256::from_u64(50));
    assert_eq!(r, Err(Error::UnauthorizedAccount { account: stranger }));
    let t = c.withdraw_native(ledger_owner(), U256::from_u64(50)).unwrap();
    assert_eq!(t.to, ledger_owner());
    assert_eq!(t.amount, U256::from_u64(50));
}
