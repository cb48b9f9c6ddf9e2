//! Errors of the CAS operations.

use vstd::prelude::*;

verus! {

/// Failures of a CAS operation that the caller sees as errors. A rejected
/// login is not one of them: it is reported as `Ok(false)`.
#[derive(Clone, Copy, Debug, PartialEq, Eq, Structural)]
pub enum CasError {
    /// The request did not get a usable answer (connection, DNS, TLS, timeout).
    Transport,
    /// The login page holds no usable `execution` token.
    MissingToken,
}

} // verus!
