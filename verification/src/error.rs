//! The gateway's error taxonomy.
use vstd::prelude::*;

verus! {

/// Every failure a gateway operation can report.
///
/// Input-validation failures (`InvalidNetwork`, `UnsupportedOnMainnet`,
/// `InvalidAddress`, `InvalidKey`) are detected before any node I/O, so a
/// rejected request has no partial side effects. `CorruptAccountState` marks
/// on-chain data that fails structural validation, and `Internal` carries a
/// node failure message verbatim.
#[derive(Debug, Clone, PartialEq, Eq)]
pub enum ServiceError {
    InvalidNetwork,
    UnsupportedOnMainnet,
    InvalidAddress,
    InvalidKey,
    CorruptAccountState,
    Internal(String),
}

impl ServiceError {
    /// The text shown for this error.
    pub open spec fn spec_message(self) -> Seq<char> {
        match self {
            ServiceError::InvalidNetwork => "Invalid network identifier."@,
            ServiceError::UnsupportedOnMainnet => "Faucet is not available on mainnet."@,
            ServiceError::InvalidAddress => "Invalid public key"@,
            ServiceError::InvalidKey => "Invalid secret key"@,
            ServiceError::CorruptAccountState => "Account data failed validation."@,
            ServiceError::Internal(m) => m@,
        }
    }

    pub fn message(&self) -> (r: String)
        ensures
            r@ == self.spec_message(),
    {
        match self {
            ServiceError::InvalidNetwork => "Invalid network identifier.".to_owned(),
            ServiceError::UnsupportedOnMainnet => "Faucet is not available on mainnet.".to_owned(),
            ServiceError::InvalidAddress => "Invalid public key".to_owned(),
            ServiceError::InvalidKey => "Invalid secret key".to_owned(),
            ServiceError::CorruptAccountState => "Account data failed validation.".to_owned(),
            ServiceError::Internal(m) => m.clone(),
        }
    }
}

} // verus!
