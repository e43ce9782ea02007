//! Generation of fresh object names: fixed-length alphanumeric tokens drawn
//! from a per-process pseudorandom source. The name doubles as the bearer
//! capability for the stored object, so nothing beyond its shape is promised
//! about which name comes out.

use vstd::prelude::*;
use rand::Rng;
use crate::{valid_name, NAME_LEN};

verus! {

/// Relies on `rand::Rng::sample_iter` with the `Alphanumeric` distribution:
/// each sampled byte is drawn from the 62-symbol ASCII alphabet
/// `[A-Za-z0-9]`, and `take` collects exactly `NAME_LEN` of them. Which
/// bytes come out is random, so nothing else is promised.
#[verifier::external_body]
fn sample_name_bytes() -> (r: Vec<u8>)
    ensures
        valid_name(r@),
{
    rand::thread_rng().sample_iter(&rand::distributions::Alphanumeric).take(NAME_LEN).collect()
}

/// Draws a fresh object name: exactly `NAME_LEN` alphanumeric bytes.
/// Uniqueness is probabilistic, not enforced: a drawn name may coincide
/// with one already in use, and a later upload under it then replaces the
/// earlier object.
pub fn generate_name() -> (name: Vec<u8>)
    ensures
        valid_name(name@),
{
    sample_name_bytes()
}

} // verus!
