//! Error values reported by this crate.

use vstd::prelude::*;

verus! {

/// Error while loading a private key: no supported (encoding, algorithm)
/// combination matched the given bytes.
///
/// Deliberately carries no detail.
#[derive(Clone, Copy, Debug, PartialEq, Eq, Structural)]
pub struct SignError;

/// Error reported by the configuration and signing operations.
#[derive(Clone, Copy, Debug, PartialEq, Eq, Structural)]
pub enum Error {
    /// No supported encoding/algorithm combination matched the offered
    /// private-key bytes, or the bytes failed structural validation.
    KeyParse,
    /// The underlying signing primitive rejected an otherwise well-formed
    /// request. Deliberately opaque: no diagnostic detail is surfaced.
    Signing,
}

} // verus!
