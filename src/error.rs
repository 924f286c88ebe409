use vstd::prelude::*;

verus! {

/// Why an operation on a stablecoin configuration was rejected.
#[derive(Clone, Copy, Debug, PartialEq, Eq, Structural)]
pub enum SSSOneError {
    NotInitialized,
    AlreadyInitialized,
    ProgramPaused,
    AlreadyPaused,
    NotPaused,
    UnauthorizedAuthority,
    UnauthorizedMinter,
    UnauthorizedBurner,
    UnauthorizedPauser,
    AccountFrozen,
    AccountNotFrozen,
    InvalidAmount,
    InsufficientBalance,
    Overflow,
    Underflow,
    InvalidMetadata,
    NameTooLong,
    SymbolTooLong,
    URITooLong,
}

impl SSSOneError {
    /// The operation was called outside its valid initialization or pause state.
    pub open spec fn is_lifecycle(self) -> bool {
        ||| self is NotInitialized
        ||| self is AlreadyInitialized
        ||| self is ProgramPaused
        ||| self is AlreadyPaused
        ||| self is NotPaused
    }

    /// The caller does not hold the role the operation asks for.
    pub open spec fn is_authorization(self) -> bool {
        ||| self is UnauthorizedAuthority
        ||| self is UnauthorizedMinter
        ||| self is UnauthorizedBurner
        ||| self is UnauthorizedPauser
    }

    /// Whether this error reports a lifecycle violation.
    pub fn lifecycle(&self) -> (r: bool)
        ensures
            r == self.is_lifecycle(),
    {
        match self {
            SSSOneError::NotInitialized
            | SSSOneError::AlreadyInitialized
            | SSSOneError::ProgramPaused
            | SSSOneError::AlreadyPaused
            | SSSOneError::NotPaused => true,
            _ => false,
        }
    }

    /// Whether this error reports a missing role.
    pub fn authorization(&self) -> (r: bool)
        ensures
            r == self.is_authorization(),
    {
        match self {
            SSSOneError::UnauthorizedAuthority
            | SSSOneError::UnauthorizedMinter
            | SSSOneError::UnauthorizedBurner
            | SSSOneError::UnauthorizedPauser => true,
            _ => false,
        }
    }
}

/// Why an operation of the collateral, counter or vault programs was rejected.
#[derive(Clone, Copy, Debug, PartialEq, Eq, Structural)]
pub enum ErrorCode {
    Unauthorized,
    InsufficientFunds,
    Overflow,
    Underflow,
    Undercollateralized,
    ProgramPaused,
    AlreadyLiquidated,
    InvalidAmount,
}

} // verus!
