//! Bearer-token authentication of upload requests.

use vstd::prelude::*;

verus! {

/// Whether a request that presents `presented_token` is let through: only
/// the exact configured token `expected_token` is accepted.
pub fn validator(presented_token: &str, expected_token: &str) -> (accepted: bool)
    ensures
        accepted == (presented_token@ == expected_token@),
{
    let presented = String::from_str(presented_token);
    let expected = String::from_str(expected_token);
    presented == expected
}

} // verus!
