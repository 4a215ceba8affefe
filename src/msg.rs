use vstd::prelude::*;

verus! {

/// The one-time setup: who receives fees, which coin is accepted, and the
/// fee per transfer (`None` for a splitter without a fee).
#[derive(Debug, PartialEq)]
pub struct InstantiateMsg {
    pub owner: String,
    pub coin_denom: String,
    pub fee: Option<u128>,
}

/// The read-only questions the splitter answers.
#[derive(Debug, PartialEq)]
pub enum QueryMsg {
    Owner {},
    Balance { address: String },
}

/// The answer to `QueryMsg::Owner`.
#[derive(Debug, PartialEq)]
pub struct OwnerResp {
    pub owner: String,
}

/// The answer to `QueryMsg::Balance`.
#[derive(Debug, PartialEq)]
pub struct BalanceResp {
    pub balance: u128,
}

/// The answer to a `QueryMsg`.
#[derive(Debug, PartialEq)]
pub enum QueryAnswer {
    Owner(OwnerResp),
    Balance(BalanceResp),
}

/// The state-changing calls.
#[derive(Debug, PartialEq)]
pub enum ExecuteMsg {
    Withdraw { amount: u128 },
    Transfer { transfer_amount: u128, recipient_1: String, recipient_2: String },
}

/// An amount of one denomination, as attached to a call.
#[derive(Debug, PartialEq)]
pub struct Coin {
    pub denom: String,
    pub amount: u128,
}

} // verus!
