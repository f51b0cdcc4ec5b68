//! The ways in which signing and verification fail.

use vstd::prelude::*;

verus! {

/// Why an operation of this library did not succeed.
#[derive(Clone, Copy, Debug, PartialEq, Eq, Structural)]
pub enum SignatureError {
    /// The verification equation does not hold.
    Invalid,
    /// The number of pairs differs from the arity that the signature was declared with.
    InvalidArity,
    /// The input construction cannot map the message to a point.
    HashToInputFailure,
}

/// What verification returns.
pub type SignatureResult<T> = Result<T, SignatureError>;

impl SignatureError {
    /// A short description of the failure.
    pub fn description(&self) -> (r: &'static str)
        ensures
            r@ == match *self {
                SignatureError::Invalid => "signature verification failed"@,
                SignatureError::InvalidArity => "wrong number of VRF inputs"@,
                SignatureError::HashToInputFailure => "message cannot be mapped to a VRF input"@,
            },
    {
        match self {
            SignatureError::Invalid => "signature verification failed",
            SignatureError::InvalidArity => "wrong number of VRF inputs",
            SignatureError::HashToInputFailure => "message cannot be mapped to a VRF input",
        }
    }
}

} // verus!
