//! Calls into `zxcvbn`.

use vstd::prelude::*;
use zxcvbn::ZxcvbnError;
use crate::process::gen_pass::GenPassError;

verus! {

/// Calls `zxcvbn::zxcvbn` without user inputs and hands back the score of the
/// estimate, or the estimator's error under the same name.
///
/// Trusted: the empty password, and no other, is refused as blank; a score is
/// at most 4. The estimator reads the clock, so nothing else is claimed.
#[verifier::external_body]
pub(crate) fn estimate_strength(password: &str) -> (res: Result<u8, GenPassError>)
    ensures
        (password@.len() == 0) <==> (res matches Err(GenPassError::BlankPassword)),
        res is Ok ==> res.unwrap() <= 4,
{
    match zxcvbn::zxcvbn(password, &[]) {
        Ok(estimate) => Ok(estimate.score()),
        Err(ZxcvbnError::BlankPassword) => Err(GenPassError::BlankPassword),
        Err(ZxcvbnError::DurationOutOfRange) => Err(GenPassError::DurationOutOfRange),
    }
}

} // verus!
