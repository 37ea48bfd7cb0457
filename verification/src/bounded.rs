//! The bounded lists of a product: its metadata and its claims.
//!
//! Both are bounded vectors of the runtime framework, whose bound is part of
//! their type. What this module states of them is taken on trust from their
//! source and is not proved; everything else in the library is proved, from
//! what is stated here where it concerns these lists.
use crate::types::{VerifiedClaim, VerifiedClaimView};
use frame_support::traits::ConstU32;
use frame_support::BoundedVec;
use vstd::prelude::*;

verus! {

/// How many claims a product can hold.
pub const MAX_CLAIMS_PER_PRODUCT: u32 = 10;

/// How long a product's metadata can be.
pub const MAX_METADATA_LENGTH: u32 = 1024;

/// The metadata of a product.
pub type Metadata = BoundedVec<u8, ConstU32<MAX_METADATA_LENGTH>>;

/// The claims of a product, oldest first.
pub type Claims = BoundedVec<VerifiedClaim, ConstU32<MAX_CLAIMS_PER_PRODUCT>>;

/// `BoundedVec`, a vector that never holds more items than its bound. Its
/// inside is not looked into.
#[verifier::external_type_specification]
#[verifier::external_body]
#[verifier::reject_recursive_types(T)]
#[verifier::reject_recursive_types(S)]
pub struct ExBoundedVec<T, S>(BoundedVec<T, S>);

/// `ConstU32`, the type that stands for a bound. Its inside is not looked
/// into.
#[verifier::external_type_specification]
#[verifier::external_body]
pub struct ExConstU32<const N: u32>(ConstU32<N>);

/// The bytes that metadata holds, in order.
pub uninterp spec fn metadata_bytes(metadata: Metadata) -> Seq<u8>;

/// The claims that a list of claims holds, in order.
pub uninterp spec fn claims_held(claims: Claims) -> Seq<VerifiedClaim>;

/// The mathematical values of the claims that a list of claims holds.
pub open spec fn claim_views(claims: Claims) -> Seq<VerifiedClaimView> {
    Seq::new(claims_held(claims).len(), |i: int| claims_held(claims)[i]@)
}

/// The bytes of optional metadata.
pub open spec fn optional_metadata(metadata: Option<Metadata>) -> Option<Seq<u8>> {
    match metadata {
        Some(held) => Some(metadata_bytes(held)),
        None => None,
    }
}

/// `BoundedVec::try_from` on a `Vec`: the bytes as metadata where they are
/// no more than metadata can hold, and nothing where they are more.
#[verifier::external_body]
pub(crate) fn metadata_from(bytes: Vec<u8>) -> (metadata: Option<Metadata>)
    ensures
        bytes@.len() <= MAX_METADATA_LENGTH ==> metadata is Some && metadata_bytes(metadata->0)
            == bytes@,
        bytes@.len() > MAX_METADATA_LENGTH ==> metadata is None,
{
    BoundedVec::try_from(bytes).ok()
}

/// `Clone::clone` of a `BoundedVec`: metadata that holds the same bytes.
#[verifier::external_body]
pub(crate) fn metadata_clone(metadata: &Metadata) -> (copy: Metadata)
    ensures
        metadata_bytes(copy) == metadata_bytes(*metadata),
{
    metadata.clone()
}

/// `BoundedVec::new`: a list that holds no claims.
#[verifier::external_body]
pub(crate) fn claims_new() -> (claims: Claims)
    ensures
        claims_held(claims) == Seq::<VerifiedClaim>::empty(),
{
    BoundedVec::new()
}

/// `Vec::len` through the `Deref` of a `BoundedVec`: how many claims the
/// list holds.
#[verifier::external_body]
pub(crate) fn claims_len(claims: &Claims) -> (len: usize)
    ensures
        len == claims_held(*claims).len(),
{
    claims.len()
}

/// `Index::index` of a `BoundedVec`: the claim at `at`.
#[verifier::external_body]
pub(crate) fn claims_get(claims: &Claims, at: usize) -> (claim: &VerifiedClaim)
    requires
        at < claims_held(*claims).len(),
    ensures
        *claim == claims_held(*claims)[at as int],
{
    &claims[at]
}

/// `IndexMut::index_mut` of a `BoundedVec`: the claim at `at`, to be
/// changed in place; the list holds what is left in that place, and the
/// other claims as they were.
#[verifier::external_body]
pub(crate) fn claims_get_mut(claims: &mut Claims, at: usize) -> (claim: &mut VerifiedClaim)
    requires
        at < claims_held(*old(claims)).len(),
    ensures
        *claim == claims_held(*old(claims))[at as int],
        claims_held(*final(claims)) == claims_held(*old(claims)).update(at as int, *final(claim)),
{
    &mut claims[at]
}

/// `BoundedVec::try_push`: the claim goes to the end of the list where the
/// list holds fewer claims than it can, and the answer is yes; where the
/// list is full it stays as it is, and the answer is no.
#[verifier::external_body]
pub(crate) fn claims_try_push(claims: &mut Claims, claim: VerifiedClaim) -> (pushed: bool)
    ensures
        claims_held(*old(claims)).len() < MAX_CLAIMS_PER_PRODUCT ==> pushed && claims_held(
            *final(claims),
        ) == claims_held(*old(claims)).push(claim),
        claims_held(*old(claims)).len() >= MAX_CLAIMS_PER_PRODUCT ==> !pushed && claims_held(
            *final(claims),
        ) == claims_held(*old(claims)),
{
    claims.try_push(claim).is_ok()
}

} // verus!
