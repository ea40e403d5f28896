//! Derivation of the effective decryption key from a base keycode and an
//! optional 16-bit subkey modifier.
//!
//! A subkey of zero means "no modification": the keycode passes through
//! unchanged. A nonzero subkey multiplies the keycode by a fixed modifier
//! using wrapping (mod 2^64) multiplication; overflow is expected and
//! intentional. Key derivation is a pure function with no hidden state.

use vstd::prelude::*;

verus! {

/// The multiplier a nonzero subkey applies to the base keycode: the subkey
/// in the upper 16 bits, and `-subkey + 2` reduced modulo 2^16 in the lower
/// 16 bits.
pub open spec fn spec_subkey_modifier(subkey: u16) -> u64
    recommends
        subkey != 0,
{
    ((subkey as int) * 0x10000 + (0x10002 - subkey as int) % 0x10000) as u64
}

/// The effective decryption key: a zero subkey leaves the keycode unchanged;
/// a nonzero subkey multiplies it by the modifier, wrapping modulo 2^64.
pub open spec fn spec_derive_key(keycode: u64, subkey: u16) -> u64 {
    if subkey == 0 {
        keycode
    } else {
        (((keycode as int) * (spec_subkey_modifier(subkey) as int)) % 0x1_0000_0000_0000_0000) as u64
    }
}

/// Computes the effective decryption key. This derived key is the only value
/// ever handed to the decoder's key-setting operation.
pub fn derive_key(keycode: u64, subkey: u16) -> (r: u64)
    ensures
        r == spec_derive_key(keycode, subkey),
{
    if subkey == 0 {
        keycode
    } else {
        let low: u32 = (0x10002u32 - subkey as u32) % 0x10000;
        let modifier: u64 = (subkey as u64) * 0x10000 + low as u64;
        assert(modifier == spec_subkey_modifier(subkey));
        let r = keycode.wrapping_mul(modifier);
        assert(r == spec_derive_key(keycode, subkey)) by {
            assert((keycode as nat * modifier as nat) % 0x1_0000_0000_0000_0000nat
                == (((keycode as int) * (modifier as int)) % 0x1_0000_0000_0000_0000) as nat);
        }
        r
    }
}

/// Law: with a zero subkey the derived key is the keycode itself.
pub proof fn lemma_derive_key_zero_subkey(keycode: u64)
    ensures
        spec_derive_key(keycode, 0) == keycode,
{
}

/// Law: key derivation has no hidden state: any two results computed for the
/// same keycode and subkey are the same value.
pub proof fn lemma_derive_key_deterministic(keycode: u64, subkey: u16, r1: u64, r2: u64)
    requires
        r1 == spec_derive_key(keycode, subkey),
        r2 == spec_derive_key(keycode, subkey),
    ensures
        r1 == r2,
{
}

} // verus!
