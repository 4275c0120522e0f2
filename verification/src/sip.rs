//! The keyed hasher of the standard library, as far as the library uses it.

#![allow(deprecated)]

use core::hash::SipHasher;
use core::hash::Hasher;
use vstd::prelude::*;

verus! {

/// Trusted: `core::hash::SipHasher`, an implementation of SipHash 2-4. Its
/// inside is hidden from the verifier.
#[verifier::external_type_specification]
#[verifier::external_body]
pub struct ExSipHasher(SipHasher);

/// The two keys that a hasher was made with.
pub uninterp spec fn sip_keys(hasher: SipHasher) -> (u64, u64);

/// The byte strings written into a hasher so far, in the order of the
/// writes.
pub uninterp spec fn sip_written(hasher: SipHasher) -> Seq<Seq<u8>>;

/// What `finish` returns for a hasher made with the keys `key1` and `key2`
/// after the byte strings `written` went into it.
pub uninterp spec fn sip_digest(key1: u64, key2: u64, written: Seq<Seq<u8>>) -> u64;

/// Trusted: calls `SipHasher::new_with_keys`. The new hasher is keyed off
/// the two keys and nothing has been written into it.
#[verifier::external_body]
pub(crate) fn sip_new(key1: u64, key2: u64) -> (hasher: SipHasher)
    ensures
        sip_keys(hasher) == (key1, key2),
        sip_written(hasher) == Seq::<Seq<u8>>::empty(),
{
    SipHasher::new_with_keys(key1, key2)
}

/// Trusted: calls `Hasher::write` of the hasher. The bytes are written
/// after what was written before; the keys stay.
#[verifier::external_body]
pub(crate) fn sip_write(hasher: &mut SipHasher, bytes: &[u8])
    ensures
        sip_keys(*final(hasher)) == sip_keys(*old(hasher)),
        sip_written(*final(hasher)) == sip_written(*old(hasher)).push(bytes@),
{
    hasher.write(bytes)
}

/// Trusted: calls `Hasher::finish` of the hasher, which returns the hash
/// value for what was written so far and leaves the hasher as it is. The
/// value depends on the keys and on the writes alone.
#[verifier::external_body]
pub(crate) fn sip_finish(hasher: &SipHasher) -> (digest: u64)
    ensures
        digest == sip_digest(sip_keys(*hasher).0, sip_keys(*hasher).1, sip_written(*hasher)),
{
    hasher.finish()
}

} // verus!
