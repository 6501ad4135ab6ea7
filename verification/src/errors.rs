//! The errors with which a transition is refused.

use vstd::prelude::*;

verus! {

/// Refusals that follow from the rules of a deal.
#[derive(Clone, Copy, Debug, PartialEq, Eq)]
pub enum ErrorCodes {
    FeeIsTooLow,
    HolderModeUnavailable,
    AmountTooLow,
    DeadlineNotExpired,
    DeadlineExpired,
    NotImplemented,
    DealStateNotWithChecker,
    DealStateWithChecker,
    NoClientBond,
    NoExecutorBond,
    InvalidMint,
    InvalidOwner,
    DealWithClientBond,
    DealWithExecutorBond,
    AdvancePaymentExceeded,
    AmountOverflow,
}

/// Refusals that name the account which does not fit the deal.
#[derive(Clone, Copy, Debug, PartialEq, Eq)]
pub enum InvalidAccount {
    Initializer,
    Checker,
    CheckerDealTokenAccount,
    ClientBondMint,
    ExecutorBondMint,
    DealStateClientBondMint,
    DealStateExecutorBondMint,
    DealStateHolderTokenAccount,
    ClientBondTokenAccount,
    ExecutorBondTokenAccount,
    DealStateClientBondTokenAccount,
    DealStateExecutorBondTokenAccount,
    ClientHolderTokenAccount,
    ClientHolderTokenAccountMint,
    ClientHolderTokenAccountOwner,
}

/// Refusals that concern the record itself and who stands behind a request.
#[derive(Clone, Copy, Debug, PartialEq, Eq)]
pub enum AccessError {
    /// No record exists at the deal's address.
    RecordNotFound,
    /// A record already exists at the deal's address.
    RecordExists,
    /// A party whose signature is needed has not signed.
    NotSigner,
    /// Client and executor are the same identity.
    SameParty,
    /// The address of the record is the key of its client or its executor.
    RecordAddress,
    /// The client named in the request is not the client of the record.
    ClientMismatch,
    /// The executor named in the request is not the executor of the record.
    ExecutorMismatch,
    /// A token account that must already exist does not.
    NotInitialized,
}

/// Every refusal of a transition.
#[derive(Clone, Copy, Debug, PartialEq, Eq)]
pub enum DealError {
    Code(ErrorCodes),
    Account(InvalidAccount),
    Access(AccessError),
}

/// First of the numbers under which the refusals of a deal are reported.
pub const ERROR_CODE_OFFSET: u32 = 6000;

impl ErrorCodes {
    /// Position of the variant in the declaration, counted from zero.
    pub open spec fn ordinal(self) -> nat {
        match self {
            ErrorCodes::FeeIsTooLow => 0,
            ErrorCodes::HolderModeUnavailable => 1,
            ErrorCodes::AmountTooLow => 2,
            ErrorCodes::DeadlineNotExpired => 3,
            ErrorCodes::DeadlineExpired => 4,
            ErrorCodes::NotImplemented => 5,
            ErrorCodes::DealStateNotWithChecker => 6,
            ErrorCodes::DealStateWithChecker => 7,
            ErrorCodes::NoClientBond => 8,
            ErrorCodes::NoExecutorBond => 9,
            ErrorCodes::InvalidMint => 10,
            ErrorCodes::InvalidOwner => 11,
            ErrorCodes::DealWithClientBond => 12,
            ErrorCodes::DealWithExecutorBond => 13,
            ErrorCodes::AdvancePaymentExceeded => 14,
            ErrorCodes::AmountOverflow => 15,
        }
    }

    /// The stable number under which this refusal is reported: the offset
    /// plus the variant's position.
    pub fn code(&self) -> (c: u32)
        ensures
            c == ERROR_CODE_OFFSET + self.ordinal(),
    {
        let ordinal: u32 = match self {
            ErrorCodes::FeeIsTooLow => 0,
            ErrorCodes::HolderModeUnavailable => 1,
            ErrorCodes::AmountTooLow => 2,
            ErrorCodes::DeadlineNotExpired => 3,
            ErrorCodes::DeadlineExpired => 4,
            ErrorCodes::NotImplemented => 5,
            ErrorCodes::DealStateNotWithChecker => 6,
            ErrorCodes::DealStateWithChecker => 7,
            ErrorCodes::NoClientBond => 8,
            ErrorCodes::NoExecutorBond => 9,
            ErrorCodes::InvalidMint => 10,
            ErrorCodes::InvalidOwner => 11,
            ErrorCodes::DealWithClientBond => 12,
            ErrorCodes::DealWithExecutorBond => 13,
            ErrorCodes::AdvancePaymentExceeded => 14,
            ErrorCodes::AmountOverflow => 15,
        };
        ERROR_CODE_OFFSET + ordinal
    }
}

impl ErrorCodes {
    /// The words in which this refusal is reported.
    pub open spec fn text(self) -> Seq<char> {
        match self {
            ErrorCodes::FeeIsTooLow => "The fee is too low"@,
            ErrorCodes::HolderModeUnavailable => "Holder mode unavailable"@,
            ErrorCodes::AmountTooLow => "The amount is too small."@,
            ErrorCodes::DeadlineNotExpired => "The deadline has not yet come."@,
            ErrorCodes::DeadlineExpired => "Deadline expired"@,
            ErrorCodes::NotImplemented => "Not implemented method"@,
            ErrorCodes::DealStateNotWithChecker => "DealStateNotWithChecker"@,
            ErrorCodes::DealStateWithChecker => "DealStateWithChecker"@,
            ErrorCodes::NoClientBond => "NoClientBond"@,
            ErrorCodes::NoExecutorBond => "NoExecutorBond"@,
            ErrorCodes::InvalidMint => "InvalidMint"@,
            ErrorCodes::InvalidOwner => "InvalidOwner"@,
            ErrorCodes::DealWithClientBond => "DealWithClientBond"@,
            ErrorCodes::DealWithExecutorBond => "DealWithExecutorBond"@,
            ErrorCodes::AdvancePaymentExceeded => "The advance payment exceeds what may be released"@,
            ErrorCodes::AmountOverflow => "The amount does not fit a token account"@,
        }
    }

    /// The words in which this refusal is reported.
    pub fn message(&self) -> (m: &'static str)
        ensures
            m@ == self.text(),
    {
        match self {
            ErrorCodes::FeeIsTooLow => "The fee is too low",
            ErrorCodes::HolderModeUnavailable => "Holder mode unavailable",
            ErrorCodes::AmountTooLow => "The amount is too small.",
            ErrorCodes::DeadlineNotExpired => "The deadline has not yet come.",
            ErrorCodes::DeadlineExpired => "Deadline expired",
            ErrorCodes::NotImplemented => "Not implemented method",
            ErrorCodes::DealStateNotWithChecker => "DealStateNotWithChecker",
            ErrorCodes::DealStateWithChecker => "DealStateWithChecker",
            ErrorCodes::NoClientBond => "NoClientBond",
            ErrorCodes::NoExecutorBond => "NoExecutorBond",
            ErrorCodes::InvalidMint => "InvalidMint",
            ErrorCodes::InvalidOwner => "InvalidOwner",
            ErrorCodes::DealWithClientBond => "DealWithClientBond",
            ErrorCodes::DealWithExecutorBond => "DealWithExecutorBond",
            ErrorCodes::AdvancePaymentExceeded => "The advance payment exceeds what may be released",
            ErrorCodes::AmountOverflow => "The amount does not fit a token account",
        }
    }
}

impl InvalidAccount {
    /// The words in which this refusal is reported: the name of the account.
    pub open spec fn text(self) -> Seq<char> {
        match self {
            InvalidAccount::Initializer => "Initializer"@,
            InvalidAccount::Checker => "Checker"@,
            InvalidAccount::CheckerDealTokenAccount => "CheckerDealTokenAccount"@,
            InvalidAccount::ClientBondMint => "ClientBondMint"@,
            InvalidAccount::ExecutorBondMint => "ExecutorBondMint"@,
            InvalidAccount::DealStateClientBondMint => "DealStateClientBondMint"@,
            InvalidAccount::DealStateExecutorBondMint => "DealStateExecutorBondMint"@,
            InvalidAccount::DealStateHolderTokenAccount => "DealStateHolderTokenAccount"@,
            InvalidAccount::ClientBondTokenAccount => "ClientBondTokenAccount"@,
            InvalidAccount::ExecutorBondTokenAccount => "ExecutorBondTokenAccount"@,
            InvalidAccount::DealStateClientBondTokenAccount => "DealStateClientBondTokenAccount"@,
            InvalidAccount::DealStateExecutorBondTokenAccount => "DealStateExecutorBondTokenAccount"@,
            InvalidAccount::ClientHolderTokenAccount => "ClientHolderTokenAccount"@,
            InvalidAccount::ClientHolderTokenAccountMint => "ClientHolderTokenAccountMint"@,
            InvalidAccount::ClientHolderTokenAccountOwner => "ClientHolderTokenAccountOwner"@,
        }
    }

    /// The words in which this refusal is reported.
    pub fn message(&self) -> (m: &'static str)
        ensures
            m@ == self.text(),
    {
        match self {
            InvalidAccount::Initializer => "Initializer",
            InvalidAccount::Checker => "Checker",
            InvalidAccount::CheckerDealTokenAccount => "CheckerDealTokenAccount",
            InvalidAccount::ClientBondMint => "ClientBondMint",
            InvalidAccount::ExecutorBondMint => "ExecutorBondMint",
            InvalidAccount::DealStateClientBondMint => "DealStateClientBondMint",
            InvalidAccount::DealStateExecutorBondMint => "DealStateExecutorBondMint",
            InvalidAccount::DealStateHolderTokenAccount => "DealStateHolderTokenAccount",
            InvalidAccount::ClientBondTokenAccount => "ClientBondTokenAccount",
            InvalidAccount::ExecutorBondTokenAccount => "ExecutorBondTokenAccount",
            InvalidAccount::DealStateClientBondTokenAccount => "DealStateClientBondTokenAccount",
            InvalidAccount::DealStateExecutorBondTokenAccount => "DealStateExecutorBondTokenAccount",
            InvalidAccount::ClientHolderTokenAccount => "ClientHolderTokenAccount",
            InvalidAccount::ClientHolderTokenAccountMint => "ClientHolderTokenAccountMint",
            InvalidAccount::ClientHolderTokenAccountOwner => "ClientHolderTokenAccountOwner",
        }
    }

    /// Position of the variant in the declaration, counted from zero.
    pub open spec fn ordinal(self) -> nat {
        match self {
            InvalidAccount::Initializer => 0,
            InvalidAccount::Checker => 1,
            InvalidAccount::CheckerDealTokenAccount => 2,
            InvalidAccount::ClientBondMint => 3,
            InvalidAccount::ExecutorBondMint => 4,
            InvalidAccount::DealStateClientBondMint => 5,
            InvalidAccount::DealStateExecutorBondMint => 6,
            InvalidAccount::DealStateHolderTokenAccount => 7,
            InvalidAccount::ClientBondTokenAccount => 8,
            InvalidAccount::ExecutorBondTokenAccount => 9,
            InvalidAccount::DealStateClientBondTokenAccount => 10,
            InvalidAccount::DealStateExecutorBondTokenAccount => 11,
            InvalidAccount::ClientHolderTokenAccount => 12,
            InvalidAccount::ClientHolderTokenAccountMint => 13,
            InvalidAccount::ClientHolderTokenAccountOwner => 14,
        }
    }

    /// The stable number under which this refusal is reported: the offset
    /// plus the variant's position.
    pub fn code(&self) -> (c: u32)
        ensures
            c == ERROR_CODE_OFFSET + self.ordinal(),
    {
        let ordinal: u32 = match self {
            InvalidAccount::Initializer => 0,
            InvalidAccount::Checker => 1,
            InvalidAccount::CheckerDealTokenAccount => 2,
            InvalidAccount::ClientBondMint => 3,
            InvalidAccount::ExecutorBondMint => 4,
            InvalidAccount::DealStateClientBondMint => 5,
            InvalidAccount::DealStateExecutorBondMint => 6,
            InvalidAccount::DealStateHolderTokenAccount => 7,
            InvalidAccount::ClientBondTokenAccount => 8,
            InvalidAccount::ExecutorBondTokenAccount => 9,
            InvalidAccount::DealStateClientBondTokenAccount => 10,
            InvalidAccount::DealStateExecutorBondTokenAccount => 11,
            InvalidAccount::ClientHolderTokenAccount => 12,
            InvalidAccount::ClientHolderTokenAccountMint => 13,
            InvalidAccount::ClientHolderTokenAccountOwner => 14,
        };
        ERROR_CODE_OFFSET + ordinal
    }
}

/// The number for a relation between accounts that does not hold.
pub const CONSTRAINT_RAW: u32 = 2003;

/// The number for an account that is not at the address derived for it.
pub const CONSTRAINT_SEEDS: u32 = 2006;

/// The number for an account at another address than the expected one.
pub const CONSTRAINT_ADDRESS: u32 = 2012;

/// The number for an account that was expected to be empty and is not.
pub const CONSTRAINT_ZERO: u32 = 2013;

/// The number for a missing signature.
pub const ACCOUNT_NOT_SIGNER: u32 = 3010;

/// The number for an account that was expected to exist and does not.
pub const ACCOUNT_NOT_INITIALIZED: u32 = 3012;

impl AccessError {
    /// The number under which the account layer of the ledger reports the
    /// same condition.
    pub open spec fn number(self) -> u32 {
        match self {
            AccessError::RecordNotFound => ACCOUNT_NOT_INITIALIZED,
            AccessError::RecordExists => CONSTRAINT_ZERO,
            AccessError::NotSigner => ACCOUNT_NOT_SIGNER,
            AccessError::SameParty => CONSTRAINT_RAW,
            AccessError::RecordAddress => CONSTRAINT_SEEDS,
            AccessError::ClientMismatch => CONSTRAINT_ADDRESS,
            AccessError::ExecutorMismatch => CONSTRAINT_ADDRESS,
            AccessError::NotInitialized => ACCOUNT_NOT_INITIALIZED,
        }
    }

    /// The stable number under which this refusal is reported.
    pub fn code(&self) -> (c: u32)
        ensures
            c == self.number(),
    {
        match self {
            AccessError::RecordNotFound => ACCOUNT_NOT_INITIALIZED,
            AccessError::RecordExists => CONSTRAINT_ZERO,
            AccessError::NotSigner => ACCOUNT_NOT_SIGNER,
            AccessError::SameParty => CONSTRAINT_RAW,
            AccessError::RecordAddress => CONSTRAINT_SEEDS,
            AccessError::ClientMismatch => CONSTRAINT_ADDRESS,
            AccessError::ExecutorMismatch => CONSTRAINT_ADDRESS,
            AccessError::NotInitialized => ACCOUNT_NOT_INITIALIZED,
        }
    }
}

impl DealError {
    /// The number under which a refusal is reported.
    pub open spec fn number(self) -> int {
        match self {
            DealError::Code(e) => ERROR_CODE_OFFSET + e.ordinal(),
            DealError::Account(e) => ERROR_CODE_OFFSET + e.ordinal(),
            DealError::Access(e) => e.number() as int,
        }
    }

    /// The stable number under which this refusal is reported.
    pub fn code(&self) -> (c: u32)
        ensures
            c == self.number(),
    {
        match self {
            DealError::Code(e) => e.code(),
            DealError::Account(e) => e.code(),
            DealError::Access(e) => e.code(),
        }
    }

    /// Whether a later attempt with the same request may succeed: only a
    /// deadline that has not come yet passes with time.
    pub open spec fn spec_is_transient(self) -> bool {
        self == DealError::Code(ErrorCodes::DeadlineNotExpired)
    }

    /// Tells "try again later" from "this will never succeed".
    pub fn is_transient(&self) -> (r: bool)
        ensures
            r == self.spec_is_transient(),
    {
        match self {
            DealError::Code(ErrorCodes::DeadlineNotExpired) => true,
            _ => false,
        }
    }
}

} // verus!
