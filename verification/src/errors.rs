//! Error kinds for vault operations, with their stable numeric codes.

use vstd::prelude::*;

verus! {

/// Why a vault operation was refused. Every failed operation leaves the vault
/// unchanged and reports exactly one of these kinds.
#[derive(Clone, Copy, Debug, PartialEq, Eq, Structural)]
pub enum VaultError {
    /// A non-positive amount or interval was supplied.
    InvalidArgument,
    /// The authorizer of a subscriber-only operation is not the subscriber.
    Unauthorized,
    /// A charge or withdrawal exceeds the available balance.
    InsufficientBalance,
    /// The subscription's status does not permit the operation.
    InvalidState,
    /// No subscription is stored under the given id.
    NotFound,
    /// A full interval has not elapsed since the last charge.
    NotDue,
    /// The vault was already initialized.
    AlreadyInitialized,
    /// The vault has not been initialized yet.
    NotInitialized,
    /// A balance update would overflow a signed 128-bit integer.
    ArithmeticOverflow,
}

impl VaultError {
    /// The canonical code of each error kind, stable across releases.
    pub open spec fn spec_code(self) -> u32 {
        match self {
            VaultError::InvalidArgument => 400,
            VaultError::Unauthorized => 401,
            VaultError::InsufficientBalance => 402,
            VaultError::InvalidState => 403,
            VaultError::NotFound => 404,
            VaultError::NotDue => 405,
            VaultError::AlreadyInitialized => 409,
            VaultError::NotInitialized => 410,
            VaultError::ArithmeticOverflow => 500,
        }
    }

    /// The canonical numeric code of this error kind.
    pub fn code(&self) -> (c: u32)
        ensures
            c == self.spec_code(),
    {
        match self {
            VaultError::InvalidArgument => 400,
            VaultError::Unauthorized => 401,
            VaultError::InsufficientBalance => 402,
            VaultError::InvalidState => 403,
            VaultError::NotFound => 404,
            VaultError::NotDue => 405,
            VaultError::AlreadyInitialized => 409,
            VaultError::NotInitialized => 410,
            VaultError::ArithmeticOverflow => 500,
        }
    }
}

} // verus!
