use vstd::prelude::*;

use crate::contract::{
    charged_amount, debited, split_amount, transfer_credits, transfer_rejection, withdraw_refused,
};
use crate::state::{balance_of, Config};

verus! {

/// In a transfer that is credited, each recipient is credited the split once
/// for each role it holds, and the owner the fee; no other balance moves.
/// So the two recipients receive the same amount, and it is the split.
pub proof fn lemma_recipients_credited_the_split(
    m: Map<Seq<char>, u128>,
    fee: Option<u128>,
    owner: Seq<char>,
    recipient_1: Seq<char>,
    recipient_2: Seq<char>,
    t: u128,
)
    requires
        transfer_credits(m, fee, owner, recipient_1, recipient_2, split_amount(fee, t)) is Some,
    ensures
        forall|a: Seq<char>|
            #![trigger balance_of(
                transfer_credits(m, fee, owner, recipient_1, recipient_2, split_amount(fee, t))->0,
                a,
            )]
            balance_of(
                transfer_credits(m, fee, owner, recipient_1, recipient_2, split_amount(fee, t))->0,
                a,
            ) == balance_of(m, a) + (if a == recipient_1 {
                split_amount(fee, t)
            } else {
                0
            }) + (if a == recipient_2 {
                split_amount(fee, t)
            } else {
                0
            }) + (if fee is Some && a == owner {
                fee->0 as nat
            } else {
                0
            }),
{
}

/// Without a fee, an accepted transfer credits no more than it asks for, and
/// asks for no more than was attached; an odd amount leaves exactly one unit
/// uncredited.
pub proof fn lemma_split_without_fee(
    config: Config,
    funds_denom: Seq<char>,
    funds_amount: u128,
    t: u128,
    recipient_1: Result<String, cosmwasm_std::StdError>,
    recipient_2: Result<String, cosmwasm_std::StdError>,
)
    requires
        config.fee is None,
        transfer_rejection(config, funds_denom, funds_amount, t, recipient_1, recipient_2) is None,
    ensures
        2 * split_amount(config.fee, t) <= t <= funds_amount,
        charged_amount(config.fee, t) == 2 * split_amount(config.fee, t),
        t % 2 == 1 ==> split_amount(config.fee, t) == (t - 1) / 2 && t - charged_amount(
            config.fee,
            t,
        ) == 1,
        t % 2 == 0 ==> charged_amount(config.fee, t) == t,
{
}

/// With a fee, an accepted transfer charges the fee and two shares within the
/// amount asked for, each share is at least one, and a transfer whose shares
/// would be zero is refused.
pub proof fn lemma_split_with_fee(
    config: Config,
    funds_denom: Seq<char>,
    funds_amount: u128,
    t: u128,
    recipient_1: Result<String, cosmwasm_std::StdError>,
    recipient_2: Result<String, cosmwasm_std::StdError>,
)
    requires
        config.fee is Some,
    ensures
        transfer_rejection(config, funds_denom, funds_amount, t, recipient_1, recipient_2) is None
            ==> config.fee->0 + 2 * split_amount(config.fee, t) <= t && split_amount(config.fee, t)
            >= 1 && charged_amount(config.fee, t) <= t <= funds_amount,
        split_amount(config.fee, t) == 0 ==> transfer_rejection(
            config,
            funds_denom,
            funds_amount,
            t,
            recipient_1,
            recipient_2,
        ) is Some,
{
}

/// After an accepted withdrawal the caller's balance reads as the old balance
/// less exactly the amount withdrawn, which the old balance covered; every
/// other balance reads as before.
pub proof fn lemma_withdraw_debits_exactly(
    m: Map<Seq<char>, u128>,
    fee: Option<u128>,
    sender: Seq<char>,
    amount: u128,
)
    requires
        !withdraw_refused(fee, balance_of(m, sender), amount),
    ensures
        amount <= balance_of(m, sender),
        balance_of(debited(m, sender, amount), sender) == balance_of(m, sender) - amount,
        forall|a: Seq<char>|
            a != sender ==> #[trigger] balance_of(debited(m, sender, amount), a) == balance_of(m, a),
{
}

} // verus!
