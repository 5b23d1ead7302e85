//! The errors that the contracts answer a refused request with.

use vstd::prelude::*;

verus! {

/// Why a payment check failed.
#[derive(Clone, Copy, Debug, PartialEq, Eq)]
pub enum PaymentError {
    /// Funds were sent to a call that accepts none.
    NonPayable,
}

/// The error of a refused request.
#[allow(inconsistent_fields)]
#[derive(Clone, Debug, PartialEq, Eq)]
pub enum ContractError {
    /// A generic standard error with its message.
    Std { msg: String },
    /// A payment check failed.
    Payment(PaymentError),
    /// The lockdrop would start before the current block.
    StartTimeInThePast { current_time: u64, current_block: u64 },
    /// The deposit and withdrawal windows are not valid.
    InvalidWindow,
    /// A migration from the stored contract or version is not allowed.
    CannotMigrate { previous_contract: String },
    /// The funds sent with the request are not acceptable.
    InvalidFunds { msg: String },
    /// Incentives can no longer be added.
    TokenAlreadyBeingDistributed,
    /// The deposit window is closed.
    DepositWindowClosed,
    /// A withdrawal is not allowed.
    InvalidWithdrawal { msg: Option<String> },
    /// The deposit and withdrawal phase is still running.
    PhaseOngoing,
    /// Claims were already enabled.
    ClaimsAlreadyAllowed,
    /// The user already claimed the lockdrop reward.
    LockdropAlreadyClaimed,
    /// The user has nothing locked.
    NoLockup,
    /// Claims are not enabled yet.
    ClaimsNotAllowed,
    /// The sender may not make this request.
    Unauthorized,
}

/// A `ContractError` with its texts taken as character sequences.
#[allow(inconsistent_fields)]
pub enum ErrorView {
    Std { msg: Seq<char> },
    Payment(PaymentError),
    StartTimeInThePast { current_time: u64, current_block: u64 },
    InvalidWindow,
    CannotMigrate { previous_contract: Seq<char> },
    InvalidFunds { msg: Seq<char> },
    TokenAlreadyBeingDistributed,
    DepositWindowClosed,
    InvalidWithdrawal { msg: Option<Seq<char>> },
    PhaseOngoing,
    ClaimsAlreadyAllowed,
    LockdropAlreadyClaimed,
    NoLockup,
    ClaimsNotAllowed,
    Unauthorized,
}

impl View for ContractError {
    type V = ErrorView;

    open spec fn view(&self) -> ErrorView {
        match self {
            ContractError::Std { msg } => ErrorView::Std { msg: msg@ },
            ContractError::Payment(p) => ErrorView::Payment(*p),
            ContractError::StartTimeInThePast { current_time, current_block } =>
                ErrorView::StartTimeInThePast {
                    current_time: *current_time,
                    current_block: *current_block,
                },
            ContractError::InvalidWindow => ErrorView::InvalidWindow,
            ContractError::CannotMigrate { previous_contract } =>
                ErrorView::CannotMigrate { previous_contract: previous_contract@ },
            ContractError::InvalidFunds { msg } => ErrorView::InvalidFunds { msg: msg@ },
            ContractError::TokenAlreadyBeingDistributed => ErrorView::TokenAlreadyBeingDistributed,
            ContractError::DepositWindowClosed => ErrorView::DepositWindowClosed,
            ContractError::InvalidWithdrawal { msg } => ErrorView::InvalidWithdrawal {
                msg: match msg {
                    Some(m) => Some(m@),
                    None => None,
                },
            },
            ContractError::PhaseOngoing => ErrorView::PhaseOngoing,
            ContractError::ClaimsAlreadyAllowed => ErrorView::ClaimsAlreadyAllowed,
            ContractError::LockdropAlreadyClaimed => ErrorView::LockdropAlreadyClaimed,
            ContractError::NoLockup => ErrorView::NoLockup,
            ContractError::ClaimsNotAllowed => ErrorView::ClaimsNotAllowed,
            ContractError::Unauthorized => ErrorView::Unauthorized,
        }
    }
}

/// Each error is seen as the same kind of error, with the same texts and numbers.
pub proof fn law_error_view(msg: String, detail: Option<String>, p: PaymentError, a: u64, b: u64)
    ensures
        (ContractError::Std { msg })@ == (ErrorView::Std { msg: msg@ }),
        (ContractError::Payment(p))@ == ErrorView::Payment(p),
        (ContractError::StartTimeInThePast { current_time: a, current_block: b })@
            == (ErrorView::StartTimeInThePast { current_time: a, current_block: b }),
        (ContractError::InvalidWindow)@ == ErrorView::InvalidWindow,
        (ContractError::CannotMigrate { previous_contract: msg })@ == (ErrorView::CannotMigrate {
            previous_contract: msg@,
        }),
        (ContractError::InvalidFunds { msg })@ == (ErrorView::InvalidFunds { msg: msg@ }),
        (ContractError::TokenAlreadyBeingDistributed)@ == ErrorView::TokenAlreadyBeingDistributed,
        (ContractError::DepositWindowClosed)@ == ErrorView::DepositWindowClosed,
        (ContractError::InvalidWithdrawal { msg: detail })@ == (ErrorView::InvalidWithdrawal {
            msg: match detail {
                Some(m) => Some(m@),
                None => None,
            },
        }),
        (ContractError::PhaseOngoing)@ == ErrorView::PhaseOngoing,
        (ContractError::ClaimsAlreadyAllowed)@ == ErrorView::ClaimsAlreadyAllowed,
        (ContractError::LockdropAlreadyClaimed)@ == ErrorView::LockdropAlreadyClaimed,
        (ContractError::NoLockup)@ == ErrorView::NoLockup,
        (ContractError::ClaimsNotAllowed)@ == ErrorView::ClaimsNotAllowed,
        (ContractError::Unauthorized)@ == ErrorView::Unauthorized,
{
}

/// A result with its error taken by view.
pub open spec fn view_result<T>(r: Result<T, ContractError>) -> Result<T, ErrorView> {
    match r {
        Ok(t) => Ok(t),
        Err(e) => Err(e@),
    }
}

/// The text of a version-parse error as the contracts report it.
pub open spec fn semver_message(detail: Seq<char>) -> Seq<char> {
    "Semver: "@ + detail
}

/// Turns the text of a version-parse error into the contract error.
pub fn from_semver(detail: &str) -> (e: ContractError)
    ensures
        e@ == (ErrorView::Std { msg: semver_message(detail@) }),
{
    let mut msg = String::from_str("Semver: ");
    msg.append(detail);
    ContractError::Std { msg }
}

} // verus!
