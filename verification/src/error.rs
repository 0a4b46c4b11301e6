use vstd::prelude::*;

verus! {

/// The error type of the host's standard library, carried through unchanged
/// where the host reports it (address validation, message encoding).
#[verifier::external_type_specification]
#[verifier::external_body]
pub struct ExHostError(cosmwasm_std::StdError);

/// The standard errors this contract reports.
#[derive(Debug, PartialEq)]
pub enum StdErr {
    /// An error with a message of the contract's own.
    GenericErr { msg: String },
    /// A stored value of the type named by `kind` is missing.
    NotFound { kind: String },
    /// An error that the host reported, passed on as it came.
    Host(cosmwasm_std::StdError),
}

/// The errors of the execute entry points.
#[derive(Debug, PartialEq)]
pub enum ContractError {
    /// A standard error.
    Std(StdErr),
    /// The sender is not the owner, or the contract is frozen.
    Unauthorized {},
    /// The sender has no whitelisted tokens.
    WhitelistError {},
    /// The coin sent is worth nothing.
    ZeroAmount {},
    /// The coin sent is not worth the fee.
    WrongAmount {},
}

} // verus!

verus! {

/// The failures that the contract's specification distinguishes.
pub enum Failure {
    /// A stored value of the named kind is missing.
    NotFound(Seq<char>),
    /// An error of the contract's own, with this message.
    Generic(Seq<char>),
    /// This error, reported by the host, passed on unchanged.
    Passed(StdErr),
    Unauthorized,
    Whitelist,
    ZeroAmount,
    WrongAmount,
}

/// A standard error is the failure `f`.
pub open spec fn std_err_is(e: StdErr, f: Failure) -> bool {
    match f {
        Failure::NotFound(k) => e matches StdErr::NotFound { kind } && kind@ == k,
        Failure::Generic(m) => e matches StdErr::GenericErr { msg } && msg@ == m,
        Failure::Passed(x) => e == x,
        _ => false,
    }
}

/// A contract error is the failure `f`.
pub open spec fn contract_err_is(e: ContractError, f: Failure) -> bool {
    match e {
        ContractError::Std(s) => std_err_is(s, f),
        ContractError::Unauthorized {  } => f is Unauthorized,
        ContractError::WhitelistError {  } => f is Whitelist,
        ContractError::ZeroAmount {  } => f is ZeroAmount,
        ContractError::WrongAmount {  } => f is WrongAmount,
    }
}

} // verus!
