use md5::Digest;
use vstd::prelude::*;

verus! {

/// An MD5 state of the `md5` crate (`md5::Md5`). It is hidden from Verus, which cannot
/// take the bounds of the type behind that name; nothing is proved of what happens
/// inside it. The functions below state what the crate's `Digest` methods do to it.
#[verifier::external_body]
pub struct Hasher {
    inner: md5::Md5,
}

/// The bytes that a hasher has been given since it was made, in the order in which
/// they came.
pub uninterp spec fn absorbed(hasher: Hasher) -> Seq<u8>;

/// The MD5 digest of `data`, as `md5::Digest::finalize` returns it for a hasher that
/// was given exactly `data`.
pub uninterp spec fn md5_digest(data: Seq<u8>) -> Seq<u8>;

/// Calls `md5::Digest::new`. Trusted: a new hasher has been given no byte.
#[verifier::external_body]
pub(crate) fn hasher_new() -> (hasher: Hasher)
    ensures
        absorbed(hasher) == Seq::<u8>::empty(),
{
    Hasher { inner: md5::Md5::new() }
}

/// Calls `md5::Digest::update`. Trusted: the hasher afterwards has been given what it
/// had been given before, followed by `data`.
#[verifier::external_body]
pub(crate) fn hasher_update(hasher: &mut Hasher, data: &[u8])
    ensures
        absorbed(*final(hasher)) == absorbed(*old(hasher)) + data@,
{
    hasher.inner.update(data)
}

/// Calls `md5::Digest::finalize`. Trusted: the bytes that come back are the MD5 digest
/// of all that the hasher was given, whatever the pieces it came in.
#[verifier::external_body]
pub(crate) fn hasher_finalize(hasher: Hasher) -> (digest: Vec<u8>)
    ensures
        digest@ == md5_digest(absorbed(hasher)),
{
    hasher.inner.finalize().to_vec()
}

} // verus!
