//! The address codec: conversion between human-readable addresses and
//! their fixed-length canonical binary form, and address validation.
//! The codec itself is an external collaborator; the library consumes it
//! through the trusted functions below and reasons about it only through
//! the named results `canon_of` and `human_of`.

use cosmwasm_std::Api;
use vstd::prelude::*;

verus! {

/// Canonical binary form of a human-readable address, or `None` where the
/// codec rejects the input.  The result depends on the input characters
/// alone.
pub uninterp spec fn canon_of(s: Seq<char>) -> Option<Seq<u8>>;

/// Human-readable form recovered from a canonical address, or `None` where
/// the codec rejects the bytes.  The result depends on the bytes alone.
pub uninterp spec fn human_of(c: Seq<u8>) -> Option<Seq<char>>;

/// An address the codec accepts outright: it canonicalizes, and humanizing
/// the canonical form gives the input back unchanged.
pub open spec fn addr_valid(s: Seq<char>) -> bool {
    &&& canon_of(s) is Some
    &&& human_of(canon_of(s).unwrap()) == Some(s)
}

/// Relies on cosmwasm_std::testing::MockApi::addr_canonicalize: rejects
/// inputs by length alone, otherwise returns a canonical form computed
/// from the input characters.
#[verifier::external_body]
pub(crate) fn canonicalize(input: &str) -> (r: Option<Vec<u8>>)
    ensures
        r is Some <==> canon_of(input@) is Some,
        r matches Some(c) ==> Some(c@) == canon_of(input@),
{
    let api = cosmwasm_std::testing::MockApi::default();
    api.addr_canonicalize(input).ok().map(|c| c.as_slice().to_vec())
}

/// Relies on cosmwasm_std::testing::MockApi::addr_humanize: rejects bytes
/// of the wrong length or that decode to no string, otherwise returns the
/// human-readable form computed from the bytes alone.
#[verifier::external_body]
pub(crate) fn humanize(canonical: &[u8]) -> (r: Option<String>)
    ensures
        r is Some <==> human_of(canonical@) is Some,
        r matches Some(h) ==> Some(h@) == human_of(canonical@),
{
    let api = cosmwasm_std::testing::MockApi::default();
    let canon = cosmwasm_std::CanonicalAddr::from(canonical);
    api.addr_humanize(&canon).ok().map(|a| a.into_string())
}

/// Relies on cosmwasm_std::testing::MockApi::addr_validate: accepts
/// exactly the inputs whose canonical form humanizes back to the input
/// unchanged.
#[verifier::external_body]
pub(crate) fn validate(input: &str) -> (r: bool)
    ensures
        r == addr_valid(input@),
{
    let api = cosmwasm_std::testing::MockApi::default();
    api.addr_validate(input).is_ok()
}

} // verus!
