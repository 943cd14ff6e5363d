//! The errors that the method reports to its caller.
use vstd::prelude::*;

verus! {

/// The error codes of the wallet's JSON-RPC interface that this method uses. They are
/// those of `zcashd`, so that existing clients can go on telling errors apart by number.
#[derive(Clone, Copy, Debug, PartialEq, Eq, Structural)]
pub enum LegacyCode {
    /// A general wallet failure.
    Wallet,
    /// An address or a key that is malformed, of the wrong kind, or not known here.
    InvalidAddressOrKey,
    /// A parameter that is missing, malformed or not supported.
    InvalidParameter,
    /// The wallet has to be unlocked first.
    WalletUnlockNeeded,
    /// A failure of the wallet database.
    Database,
}

/// The number that stands for a code on the wire.
pub open spec fn code_number(code: LegacyCode) -> i32 {
    match code {
        LegacyCode::Wallet => -4i32,
        LegacyCode::InvalidAddressOrKey => -5i32,
        LegacyCode::InvalidParameter => -8i32,
        LegacyCode::WalletUnlockNeeded => -13i32,
        LegacyCode::Database => -20i32,
    }
}

impl LegacyCode {
    /// The number that stands for this code on the wire.
    pub fn number(self) -> (n: i32)
        ensures
            n == code_number(self),
    {
        match self {
            LegacyCode::Wallet => -4,
            LegacyCode::InvalidAddressOrKey => -5,
            LegacyCode::InvalidParameter => -8,
            LegacyCode::WalletUnlockNeeded => -13,
            LegacyCode::Database => -20,
        }
    }

    /// An error with this code and the given text.
    pub fn with_message(self, message: String) -> (e: RpcError)
        ensures
            e@ == failure(self, message@),
    {
        RpcError { code: self, message }
    }

    /// An error with this code and a fixed text.
    pub fn with_static(self, message: &str) -> (e: RpcError)
        ensures
            e@ == failure(self, message@),
    {
        RpcError { code: self, message: message.to_owned() }
    }
}

/// What a caller of the method is told when it fails.
#[derive(Debug, PartialEq, Eq)]
pub struct RpcError {
    /// The kind of failure.
    pub code: LegacyCode,
    /// What went wrong, in words.
    pub message: String,
}

/// An error as a mathematical value.
pub struct Failure {
    pub code: LegacyCode,
    pub message: Seq<char>,
}

/// The error with a given code and text.
pub open spec fn failure(code: LegacyCode, message: Seq<char>) -> Failure {
    Failure { code, message }
}

impl View for RpcError {
    type V = Failure;

    open spec fn view(&self) -> Failure {
        failure(self.code, self.message@)
    }
}

impl RpcError {
    /// The number of the error's code on the wire.
    pub fn code(&self) -> (n: i32)
        ensures
            n == code_number(self@.code),
    {
        self.code.number()
    }
}

/// The result of an operation that can fail with an [`RpcError`].
pub type RpcResult<T> = Result<T, RpcError>;

/// A result with its error as a mathematical value.
pub open spec fn outcome<T>(r: RpcResult<T>) -> Result<T, Failure> {
    match r {
        Ok(value) => Ok(value),
        Err(e) => Err(e@),
    }
}

/// Clients can tell the codes apart: two codes with one number are the same code.
pub proof fn lemma_code_numbers_distinct(a: LegacyCode, b: LegacyCode)
    requires
        code_number(a) == code_number(b),
    ensures
        a == b,
{
}

} // verus!
