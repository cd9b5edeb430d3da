use vstd::prelude::*;

verus! {

/// Every way an instruction of this program can fail. Each failure aborts the
/// whole enclosing operation: no partial effect of a failed instruction is
/// ever persisted.
#[derive(Clone, Copy, PartialEq, Eq, Structural, Debug)]
pub enum LaunchTokenError {
    /// The caller is neither the build-time administrator (at bootstrap) nor
    /// the recorded admin or authority holder (afterwards).
    UnathorizedUser,
    /// The configuration record already exists; bootstrap runs exactly once.
    AlreadyInitialized,
    /// The global kill switch is off: no new asset may be issued.
    ProgramNotActive,
    /// The asset name exceeds `MAX_NAME_LEN` characters.
    NameTooLong,
    /// The asset symbol exceeds `MAX_SYMBOL_LEN` characters.
    SymbolTooLong,
    /// The metadata locator exceeds `MAX_URI_LEN` characters.
    UriTooLong,
    /// The requested number of decimals exceeds `MAX_DECIMALS`.
    InvalidDecimals,
    /// An arithmetic ceiling was reached.
    Overflow,
    /// The fee destination supplied by the caller is not the configured one.
    InvalidFeeAccount,
    /// The value transfer of the issuance fee was refused by the ledger.
    FeeTransferFailed,
    /// The mint authority is absent or held by someone else.
    MintAuthorityRevoked,
    /// The freeze authority has already been relinquished.
    FreezeAlreadyRevoked,
}

impl LaunchTokenError {
    /// The human-readable description of the failure, one fixed line per
    /// named condition.
    pub fn message(self) -> (r: String)
        ensures
            self is UnathorizedUser ==> r@ == "Unauthorized User"@,
            self is AlreadyInitialized ==> r@ == "Config already initialized"@,
            self is ProgramNotActive ==> r@ == "Program is not active"@,
            self is NameTooLong ==> r@ == "Token name too long (max 32 characters)"@,
            self is SymbolTooLong ==> r@ == "Token symbol too long (max 10 characters)"@,
            self is UriTooLong ==> r@ == "URI too long (max 200 characters)"@,
            self is InvalidDecimals ==> r@ == "Invalid decimals (max 9)"@,
            self is Overflow ==> r@ == "Arithmetic overflow occurred"@,
            self is InvalidFeeAccount ==> r@ == "Invalid fee account"@,
            self is FeeTransferFailed ==> r@ == "Fee transfer failed"@,
            self is MintAuthorityRevoked ==> r@ == "Mint authority revoked"@,
            self is FreezeAlreadyRevoked ==> r@ == "Freeze authority already revoked"@,
    {
        match self {
            LaunchTokenError::UnathorizedUser => "Unauthorized User".to_owned(),
            LaunchTokenError::AlreadyInitialized => "Config already initialized".to_owned(),
            LaunchTokenError::ProgramNotActive => "Program is not active".to_owned(),
            LaunchTokenError::NameTooLong => "Token name too long (max 32 characters)".to_owned(),
            LaunchTokenError::SymbolTooLong => "Token symbol too long (max 10 characters)".to_owned(),
            LaunchTokenError::UriTooLong => "URI too long (max 200 characters)".to_owned(),
            LaunchTokenError::InvalidDecimals => "Invalid decimals (max 9)".to_owned(),
            LaunchTokenError::Overflow => "Arithmetic overflow occurred".to_owned(),
            LaunchTokenError::InvalidFeeAccount => "Invalid fee account".to_owned(),
            LaunchTokenError::FeeTransferFailed => "Fee transfer failed".to_owned(),
            LaunchTokenError::MintAuthorityRevoked => "Mint authority revoked".to_owned(),
            LaunchTokenError::FreezeAlreadyRevoked => "Freeze authority already revoked".to_owned(),
        }
    }
}

} // verus!
