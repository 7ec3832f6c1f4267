//! Values left to chance, drawn with the `rand` crate.

use crate::wire::{ExpresslaneKey, SessionId};
use rand::distr::{Distribution, StandardUniform};
use rand::rngs::StdRng;
use vstd::prelude::*;

verus! {

/// The generator that keys, initialisation vectors and session identifiers
/// are drawn from, `rand::rngs::StdRng`.
#[verifier::external_type_specification]
#[verifier::external_body]
pub struct ExStdRng(StdRng);

/// A session identifier, by `StandardUniform.sample`. Every value is
/// possible, so nothing is claimed of it.
#[verifier::external_body]
pub(crate) fn sample_session_id(rng: &mut StdRng) -> (id: SessionId) {
    SessionId { id: StandardUniform.sample(rng) }
}

/// A key, by `StandardUniform.sample`. Every value is possible, so nothing is
/// claimed of it.
#[verifier::external_body]
pub(crate) fn sample_key(rng: &mut StdRng) -> (key: ExpresslaneKey) {
    ExpresslaneKey { upper: StandardUniform.sample(rng), lower: StandardUniform.sample(rng) }
}

/// An initialisation vector, by `StandardUniform.sample`. Every value is
/// possible, so nothing is claimed of it.
#[verifier::external_body]
pub(crate) fn sample_iv(rng: &mut StdRng) -> (iv: [u8; 12]) {
    StandardUniform.sample(rng)
}

} // verus!
