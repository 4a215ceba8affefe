use vstd::prelude::*;

verus! {

/// The host's error type. Failures of the host (an address that does not
/// validate) are carried through unchanged.
#[verifier::external_type_specification]
#[verifier::external_body]
pub struct ExStdError(cosmwasm_std::StdError);

/// Every way a call into the splitter can fail.
#[derive(Debug, PartialEq)]
pub enum ContractError {
    /// A failure reported by the host, passed on verbatim.
    Std(cosmwasm_std::StdError),
    /// The withdrawal asks for more than the caller's balance allows.
    NotEnoughBalance {},
    /// The transfer amount is below the configured fee.
    SentLessThanFee {},
    /// The transfer amount exceeds the attached funds.
    NotEnoughCoin {},
    /// The attached funds are not in the configured denomination.
    SentIncorrectCoin {},
    /// After the fee, each recipient would receive nothing.
    RecipientPaidZeroOrOneCoin {},
    /// Without a fee: the attached funds are zero.
    SenderHasZeroCoin {},
    /// Without a fee: the transfer amount is zero.
    InvalidZeroAmount {},
    /// A balance would leave the range of `u128`.
    ArithmeticOverflow {},
}

} // verus!
