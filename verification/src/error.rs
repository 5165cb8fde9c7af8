//! The ways in which an operation of the strategy can be refused.

use vstd::prelude::*;
use vstd::string::StringExecFns;
use crate::text::{decimal_string, decimal_text, quoted_string, quoted_text};

verus! {

/// Why an operation was refused.
#[derive(Debug, PartialEq)]
pub enum ContractError {
    /// The host's own libraries failed.
    Std(cosmwasm_std::StdError),
    /// The deposit was not a single coin of the source asset.
    PaymentError(cw_utils::PaymentError),
    /// The caller is not the one the operation is reserved for.
    Unauthorized {},
    /// A destination's denom is malformed.
    InvalidDenom(cw_denom::DenomError),
    /// The strategy holds nothing to sweep.
    NoBalance {},
    /// The next cycle is not due; it will be from `next_swap_event_time` on.
    DcaSwapNotAllowedYet { next_swap_event_time: u64 },
    /// The strategy is paused.
    DcaPaused,
    /// The strategy is not paused.
    DcaNotPaused,
    /// Every cycle of the strategy has run.
    MaxTradeLimit {},
    /// A parameter of the strategy is out of bounds; `val` says which.
    CustomError { val: String },
}

/// The model of a [`ContractError`]. What an error of the host's libraries
/// carries is left out.
pub enum ContractErrorView {
    Std,
    PaymentError,
    Unauthorized,
    InvalidDenom,
    NoBalance,
    DcaSwapNotAllowedYet { next_swap_event_time: u64 },
    DcaPaused,
    DcaNotPaused,
    MaxTradeLimit,
    CustomError { val: Seq<char> },
}

impl DeepView for ContractError {
    type V = ContractErrorView;

    open spec fn deep_view(&self) -> ContractErrorView {
        match self {
            ContractError::Std(_) => ContractErrorView::Std,
            ContractError::PaymentError(_) => ContractErrorView::PaymentError,
            ContractError::Unauthorized { } => ContractErrorView::Unauthorized,
            ContractError::InvalidDenom(_) => ContractErrorView::InvalidDenom,
            ContractError::NoBalance { } => ContractErrorView::NoBalance,
            ContractError::DcaSwapNotAllowedYet { next_swap_event_time } => {
                ContractErrorView::DcaSwapNotAllowedYet {
                    next_swap_event_time: *next_swap_event_time,
                }
            },
            ContractError::DcaPaused => ContractErrorView::DcaPaused,
            ContractError::DcaNotPaused => ContractErrorView::DcaNotPaused,
            ContractError::MaxTradeLimit { } => ContractErrorView::MaxTradeLimit,
            ContractError::CustomError { val } => ContractErrorView::CustomError { val: val@ },
        }
    }
}

impl View for ContractError {
    type V = ContractErrorView;

    open spec fn view(&self) -> ContractErrorView {
        self.deep_view()
    }
}

impl ContractErrorView {
    /// The message of the error, where the strategy itself words it.
    pub open spec fn message(self) -> Option<Seq<char>> {
        match self {
            ContractErrorView::Unauthorized => Some("Unauthorized"@),
            ContractErrorView::NoBalance => Some("No balance"@),
            ContractErrorView::DcaSwapNotAllowedYet { next_swap_event_time } => Some(
                "DCA swap not allowed yet, next swap will be executable at "@ + decimal_text(
                    next_swap_event_time as nat,
                ),
            ),
            ContractErrorView::DcaPaused => Some("DCA strategy is paused"@),
            ContractErrorView::DcaNotPaused => Some("DCA strategy is not paused"@),
            ContractErrorView::MaxTradeLimit => Some("Reached max trade limit"@),
            ContractErrorView::CustomError { val } => Some(
                "Custom Error val: "@ + quoted_text(val),
            ),
            _ => None,
        }
    }
}

/// The message of an error of `cosmwasm_std`, as its `Display` writes it.
#[verifier::external_body]
fn std_error_string(e: &cosmwasm_std::StdError) -> String {
    e.to_string()
}

/// The message of an error of `cw_utils`, as its `Display` writes it.
#[verifier::external_body]
fn payment_error_string(e: &cw_utils::PaymentError) -> String {
    e.to_string()
}

/// The message of an error of `cw_denom`, as its `Display` writes it.
#[verifier::external_body]
fn denom_error_string(e: &cw_denom::DenomError) -> String {
    e.to_string()
}

impl ContractError {
    /// The message of the error. An error of the host's libraries words
    /// itself.
    pub fn to_string(&self) -> (s: String)
        ensures
            self@.message() matches Some(m) ==> s@ == m,
    {
        match self {
            ContractError::Std(e) => std_error_string(e),
            ContractError::PaymentError(e) => payment_error_string(e),
            ContractError::Unauthorized { } => String::from_str("Unauthorized"),
            ContractError::InvalidDenom(e) => denom_error_string(e),
            ContractError::NoBalance { } => String::from_str("No balance"),
            ContractError::DcaSwapNotAllowedYet { next_swap_event_time } => {
                let time = decimal_string(*next_swap_event_time as u128);
                String::from_str(
                    "DCA swap not allowed yet, next swap will be executable at ",
                ).concat(time.as_str())
            },
            ContractError::DcaPaused => String::from_str("DCA strategy is paused"),
            ContractError::DcaNotPaused => String::from_str("DCA strategy is not paused"),
            ContractError::MaxTradeLimit { } => String::from_str("Reached max trade limit"),
            ContractError::CustomError { val } => {
                let quoted = quoted_string(val.as_str());
                String::from_str("Custom Error val: ").concat(quoted.as_str())
            },
        }
    }
}

} // verus!
