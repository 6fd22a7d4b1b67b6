//! The fixed extra-argument payload attached to every randomness request.
//!
//! The randomness provider takes a small ABI-encoded blob that selects the
//! payment mode. The lottery always pays in native currency, so the payload is
//! a constant 64-byte sequence: a 4-byte tag, padding, a flag word set to one,
//! and final padding.

use vstd::prelude::*;

verus! {

/// The byte at each position of the native-payment payload: the 4-byte tag,
/// then zeros everywhere except the flag byte.
pub open spec fn native_payment_byte(i: int) -> u8 {
    if i == 0 {
        0x92
    } else if i == 1 {
        0xfd
    } else if i == 2 {
        0x13
    } else if i == 3 {
        0x38
    } else if i == 35 {
        0x01
    } else {
        0x00
    }
}

/// The whole 64-byte native-payment payload.
pub open spec fn spec_native_payment_args() -> Seq<u8> {
    Seq::new(64, |i: int| native_payment_byte(i))
}

/// Builds the extra-argument payload that signals payment in native currency.
pub fn extra_args_for_native_payment() -> (r: Vec<u8>)
    ensures
        r@ == spec_native_payment_args(),
{
    let mut v: Vec<u8> = Vec::new();
    v.push(0x92);
    v.push(0xfd);
    v.push(0x13);
    v.push(0x38);
    while v.len() < 32
        invariant
            4 <= v@.len() <= 32,
            forall|i: int| 0 <= i < v@.len() ==> v@[i] == native_payment_byte(i),
        decreases 32 - v@.len(),
    {
        v.push(0x00);
    }
    v.push(0x00);
    v.push(0x00);
    v.push(0x00);
    v.push(0x01);
    while v.len() < 64
        invariant
            36 <= v@.len() <= 64,
            forall|i: int| 0 <= i < v@.len() ==> v@[i] == native_payment_byte(i),
        decreases 64 - v@.len(),
    {
        v.push(0x00);
    }
    proof {
        assert(v@ =~= spec_native_payment_args());
    }
    v
}

} // verus!
