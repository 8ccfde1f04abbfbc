use vstd::prelude::*;

verus! {

/// Every way an operation of the vault can fail.
#[derive(Debug, Clone, Copy, PartialEq, Eq, Structural)]
pub enum VaultError {
    /// The asserted owner does not match the custody record, or the record's
    /// bump does not re-derive the record's own address.
    Unauthorized,
    /// A checked subtraction in the fee or split arithmetic underflowed.
    InsufficientFunds,
    /// A checked multiplication overflowed, or the balance measured after the
    /// external swap is below the one measured before it.
    SwapFailed,
    /// A custody record already exists at the derived address.
    AlreadyInitialized,
    /// No bump seed yields a valid program-derived address for the owner.
    DerivationFailed,
}

impl VaultError {
    /// The description of each error.
    pub open spec fn message_spec(&self) -> Seq<char> {
        match self {
            VaultError::Unauthorized => "Unauthorized: You are not the owner of this vault"@,
            VaultError::InsufficientFunds => "Insufficient funds in vault"@,
            VaultError::SwapFailed => "Swap failed"@,
            VaultError::AlreadyInitialized => "Vault already initialized for this owner"@,
            VaultError::DerivationFailed => "Unable to derive the vault address"@,
        }
    }

    /// A human-readable description of the error.
    pub fn message(&self) -> (r: String)
        ensures
            r@ == self.message_spec(),
    {
        match self {
            VaultError::Unauthorized => "Unauthorized: You are not the owner of this vault".to_string(),
            VaultError::InsufficientFunds => "Insufficient funds in vault".to_string(),
            VaultError::SwapFailed => "Swap failed".to_string(),
            VaultError::AlreadyInitialized => "Vault already initialized for this owner".to_string(),
            VaultError::DerivationFailed => "Unable to derive the vault address".to_string(),
        }
    }
}

} // verus!
