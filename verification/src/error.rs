use vstd::prelude::*;

verus! {

/// Why an operation of the sale was refused. A refused operation changes
/// nothing.
#[derive(Clone, Copy, Debug, PartialEq, Eq, Structural)]
pub enum TokenSaleError {
    /// No bump in range gives the seeds an address without a private key.
    DerivationFailed,
    /// An account holds less than the operation would take from it.
    InsufficientBalance,
    /// The sale holds less than the payment would buy, or nothing at all.
    InsufficientSupply,
    /// The signer, or an account it named, is not the one the sale requires.
    Unauthorized,
    /// The sale's address, or its holding account's, is already taken.
    AlreadyExists,
    /// There is no sale under this name.
    NotFound,
    /// The rate of a sale must be positive.
    InvalidRate,
    /// The ledger rejected an instruction; nothing of the operation commits.
    LedgerTransferFailed,
}

impl TokenSaleError {
    /// The message shown for this error.
    pub fn message(&self) -> (text: String)
        ensures
            text@ == Self::message_of(*self)@,
    {
        match self {
            TokenSaleError::DerivationFailed => "Unable to get escrow bump".to_string(),
            TokenSaleError::InsufficientBalance => "Insufficient balance".to_string(),
            TokenSaleError::InsufficientSupply => "Insufficient remaining supply".to_string(),
            TokenSaleError::Unauthorized => "Signer is not authorized".to_string(),
            TokenSaleError::AlreadyExists => "Sale already exists".to_string(),
            TokenSaleError::NotFound => "Sale not found".to_string(),
            TokenSaleError::InvalidRate => "Exchange rate must be positive".to_string(),
            TokenSaleError::LedgerTransferFailed => "Ledger rejected the instruction".to_string(),
        }
    }

    /// The message of each error, as a literal.
    pub open spec fn message_of(e: TokenSaleError) -> &'static str {
        match e {
            TokenSaleError::DerivationFailed => "Unable to get escrow bump",
            TokenSaleError::InsufficientBalance => "Insufficient balance",
            TokenSaleError::InsufficientSupply => "Insufficient remaining supply",
            TokenSaleError::Unauthorized => "Signer is not authorized",
            TokenSaleError::AlreadyExists => "Sale already exists",
            TokenSaleError::NotFound => "Sale not found",
            TokenSaleError::InvalidRate => "Exchange rate must be positive",
            TokenSaleError::LedgerTransferFailed => "Ledger rejected the instruction",
        }
    }
}

} // verus!
