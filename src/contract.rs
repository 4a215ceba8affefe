use vstd::prelude::*;

use crate::decimal::{decimal, to_decimal};
use crate::error::ContractError;
use crate::msg::{BalanceResp, Coin, InstantiateMsg, OwnerResp, QueryAnswer, QueryMsg};
use crate::response::{attribute, Attribute, BankMsg, Response};
use crate::state::{balance_of, credited, Config, Ledger, State};

verus! {

/// What each recipient is credited out of a transfer of `t`: half of what is
/// left after the fee, rounded down.
pub open spec fn split_amount(fee: Option<u128>, t: u128) -> nat {
    match fee {
        Some(f) => ((t - f) / 2) as nat,
        None => (t / 2) as nat,
    }
}

/// What a transfer of `t` takes from the sender: the two shares and the fee.
pub open spec fn charged_amount(fee: Option<u128>, t: u128) -> nat {
    match fee {
        Some(f) => (f + 2 * split_amount(fee, t)) as nat,
        None => (2 * split_amount(fee, t)) as nat,
    }
}

/// The error a transfer fails with before touching the ledger, checked in
/// this order; `None` where the transfer is accepted.
pub open spec fn transfer_rejection(
    config: Config,
    funds_denom: Seq<char>,
    funds_amount: u128,
    t: u128,
    recipient_1: Result<String, cosmwasm_std::StdError>,
    recipient_2: Result<String, cosmwasm_std::StdError>,
) -> Option<ContractError> {
    if funds_denom != config.coin_denom@ {
        Some(ContractError::SentIncorrectCoin {})
    } else if config.fee is None && funds_amount == 0 {
        Some(ContractError::SenderHasZeroCoin {})
    } else if config.fee is None && t == 0 {
        Some(ContractError::InvalidZeroAmount {})
    } else if config.fee is Some && config.fee->0 > t {
        Some(ContractError::SentLessThanFee {})
    } else if t > funds_amount {
        Some(ContractError::NotEnoughCoin {})
    } else if recipient_1 is Err {
        Some(ContractError::Std(recipient_1->Err_0))
    } else if recipient_2 is Err {
        Some(ContractError::Std(recipient_2->Err_0))
    } else if config.fee is Some && split_amount(config.fee, t) == 0 {
        Some(ContractError::RecipientPaidZeroOrOneCoin {})
    } else {
        None
    }
}

/// The ledger model after an accepted transfer: each recipient is credited
/// `split`, then the owner the fee, if there is one. `None` where a balance
/// would leave the range of `u128`.
pub open spec fn transfer_credits(
    m: Map<Seq<char>, u128>,
    fee: Option<u128>,
    owner: Seq<char>,
    recipient_1: Seq<char>,
    recipient_2: Seq<char>,
    split: nat,
) -> Option<Map<Seq<char>, u128>> {
    match credited(m, recipient_1, split) {
        None => None,
        Some(m1) => match credited(m1, recipient_2, split) {
            None => None,
            Some(m2) => match fee {
                None => Some(m2),
                Some(f) => credited(m2, owner, f as nat),
            },
        },
    }
}

/// The attributes of an accepted transfer.
pub open spec fn transfer_attributes(
    fee: Option<u128>,
    owner: Seq<char>,
    recipient_1: Seq<char>,
    recipient_2: Seq<char>,
    split: nat,
    charged: nat,
) -> Seq<(Seq<char>, Seq<char>)> {
    match fee {
        Some(f) => seq![
            ("action"@, "transfer"@),
            ("recipient_1"@, recipient_1),
            ("recipient_2"@, recipient_2),
            ("owner"@, owner),
            ("recipient_1_recieved"@, decimal(split)),
            ("recipient_2_recieved"@, decimal(split)),
            ("owner_recieved"@, decimal(f as nat)),
            ("sender_charged"@, decimal(charged)),
        ],
        None => seq![
            ("action"@, "transfer"@),
            ("recipient_1"@, recipient_1),
            ("recipient_2"@, recipient_2),
            ("recipient_1_recieved"@, decimal(split)),
            ("recipient_2_recieved"@, decimal(split)),
            ("sender_charged"@, decimal(charged)),
        ],
    }
}

/// Splits a deposit between two recipients.
///
/// `funds` is what the caller attached, `contract_address` the splitter's
/// own address, and each recipient comes as the host's verdict on the
/// address given. On success the recipients are credited half of what is
/// left after the fee, the owner the fee, and one payment of the amount
/// charged goes to the splitter itself; the rest of the attached funds is
/// not credited to anyone. On failure nothing changes.
pub fn execute_transfer(
    state: &mut State,
    contract_address: &String,
    funds: &Coin,
    transfer_amount: u128,
    recipient_1: Result<String, cosmwasm_std::StdError>,
    recipient_2: Result<String, cosmwasm_std::StdError>,
) -> (r: Result<Response, ContractError>)
    requires
        old(state).wf(),
    ensures
        final(state).wf(),
        final(state).config == old(state).config,
        r is Err ==> final(state).ledger@ == old(state).ledger@,
        match transfer_rejection(
            old(state).config,
            funds.denom@,
            funds.amount,
            transfer_amount,
            recipient_1,
            recipient_2,
        ) {
            Some(e) => r == Err::<Response, ContractError>(e) && final(state).ledger@ == old(
                state,
            ).ledger@,
            None => match transfer_credits(
                old(state).ledger@,
                old(state).config.fee,
                old(state).config.owner@,
                recipient_1->Ok_0@,
                recipient_2->Ok_0@,
                split_amount(old(state).config.fee, transfer_amount),
            ) {
                None => r == Err::<Response, ContractError>(ContractError::ArithmeticOverflow {})
                    && final(state).ledger@ == old(state).ledger@,
                Some(m) => r is Ok && final(state).ledger@ == m && r->Ok_0.payments() == seq![
                    (
                        contract_address@,
                        old(state).config.coin_denom@,
                        charged_amount(old(state).config.fee, transfer_amount) as u128,
                    ),
                ] && r->Ok_0.attrs() == transfer_attributes(
                    old(state).config.fee,
                    old(state).config.owner@,
                    recipient_1->Ok_0@,
                    recipient_2->Ok_0@,
                    split_amount(old(state).config.fee, transfer_amount),
                    charged_amount(old(state).config.fee, transfer_amount),
                ),
            },
        },
{
    let fee = state.config.fee;
    if funds.denom != state.config.coin_denom {
        return Err(ContractError::SentIncorrectCoin {});
    }
    if fee.is_none() && funds.amount == 0 {
        return Err(ContractError::SenderHasZeroCoin {});
    }
    if fee.is_none() && transfer_amount == 0 {
        return Err(ContractError::InvalidZeroAmount {});
    }
    let fee_amount: u128 = match fee {
        Some(f) => f,
        None => 0,
    };
    if fee_amount > transfer_amount {
        return Err(ContractError::SentLessThanFee {});
    }
    if transfer_amount > funds.amount {
        return Err(ContractError::NotEnoughCoin {});
    }
    let recipient_1 = match recipient_1 {
        Ok(a) => a,
        Err(e) => return Err(ContractError::Std(e)),
    };
    let recipient_2 = match recipient_2 {
        Ok(a) => a,
        Err(e) => return Err(ContractError::Std(e)),
    };
    let split = (transfer_amount - fee_amount) / 2;
    if fee.is_some() && split == 0 {
        return Err(ContractError::RecipientPaidZeroOrOneCoin {});
    }
    let charged = fee_amount + 2 * split;
    assert(split == split_amount(fee, transfer_amount));
    assert(charged == charged_amount(fee, transfer_amount));

    // The credits go to a copy, so that a credit that overflows leaves the
    // ledger as it was.
    let mut ledger = state.ledger.duplicate();
    match ledger.credit(&recipient_1, split) {
        Ok(()) => {},
        Err(e) => return Err(e),
    }
    match ledger.credit(&recipient_2, split) {
        Ok(()) => {},
        Err(e) => return Err(e),
    }
    if fee.is_some() {
        match ledger.credit(&state.config.owner, fee_amount) {
            Ok(()) => {},
            Err(e) => return Err(e),
        }
    }
    state.ledger = ledger;

    let mut messages: Vec<BankMsg> = Vec::new();
    messages.push(
        BankMsg {
            to_address: contract_address.clone(),
            denom: state.config.coin_denom.clone(),
            amount: charged,
        },
    );
    let mut attributes: Vec<Attribute> = Vec::new();
    attributes.push(attribute("action", String::from_str("transfer")));
    attributes.push(attribute("recipient_1", recipient_1.clone()));
    attributes.push(attribute("recipient_2", recipient_2.clone()));
    if fee.is_some() {
        attributes.push(attribute("owner", state.config.owner.clone()));
    }
    attributes.push(attribute("recipient_1_recieved", to_decimal(split)));
    attributes.push(attribute("recipient_2_recieved", to_decimal(split)));
    if fee.is_some() {
        attributes.push(attribute("owner_recieved", to_decimal(fee_amount)));
    }
    attributes.push(attribute("sender_charged", to_decimal(charged)));
    let resp = Response { messages, attributes };
    assert(resp.payments() =~= seq![
        (contract_address@, state.config.coin_denom@, charged),
    ]);
    assert(resp.attrs() =~= transfer_attributes(
        fee,
        state.config.owner@,
        recipient_1@,
        recipient_2@,
        split as nat,
        charged as nat,
    ));
    Ok(resp)
}

/// Sets up the splitter: the owner, which must already be a validated
/// address, the accepted denomination and the fee, over an empty ledger.
pub fn instantiate(msg: InstantiateMsg) -> (r: (State, Response))
    ensures
        r.0.wf(),
        r.0.config.owner@ == msg.owner@,
        r.0.config.coin_denom@ == msg.coin_denom@,
        r.0.config.fee == msg.fee,
        r.0.ledger@ == Map::<Seq<char>, u128>::empty(),
        r.1.payments().len() == 0,
        r.1.attrs().len() == 0,
{
    let config = Config { owner: msg.owner, coin_denom: msg.coin_denom, fee: msg.fee };
    (State { config, ledger: Ledger::new() }, Response::new())
}

/// Whether a withdrawal of `amount` from `balance` is refused. Without a fee
/// the whole balance cannot be withdrawn; with a fee it can.
pub open spec fn withdraw_refused(fee: Option<u128>, balance: u128, amount: u128) -> bool {
    match fee {
        None => balance <= amount,
        Some(_) => balance < amount,
    }
}

/// The attributes of an accepted withdrawal.
pub open spec fn withdraw_attributes(sender: Seq<char>, amount: u128) -> Seq<
    (Seq<char>, Seq<char>),
> {
    seq![
        ("action"@, "withdraw"@),
        ("sender"@, sender),
        ("withdraw_amount"@, decimal(amount as nat)),
    ]
}

/// The ledger model `m` after `amount` is taken from the balance of `a`.
pub open spec fn debited(m: Map<Seq<char>, u128>, a: Seq<char>, amount: u128) -> Map<
    Seq<char>,
    u128,
> {
    m.insert(a, (balance_of(m, a) - amount) as u128)
}

/// Pays `amount` out of the caller's own balance. On success the balance is
/// debited and one payment of `amount` goes to the caller; on failure nothing
/// changes.
pub fn execute_withdraw(state: &mut State, sender: &String, amount: u128) -> (r: Result<
    Response,
    ContractError,
>)
    requires
        old(state).wf(),
    ensures
        final(state).wf(),
        final(state).config == old(state).config,
        r is Err ==> final(state).ledger@ == old(state).ledger@,
        withdraw_refused(old(state).config.fee, balance_of(old(state).ledger@, sender@), amount)
            ==> r == Err::<Response, ContractError>(ContractError::NotEnoughBalance {})
            && final(state).ledger@ == old(state).ledger@,
        !withdraw_refused(old(state).config.fee, balance_of(old(state).ledger@, sender@), amount)
            ==> r is Ok && final(state).ledger@ == debited(old(state).ledger@, sender@, amount)
            && r->Ok_0.payments() == seq![(sender@, old(state).config.coin_denom@, amount)]
            && r->Ok_0.attrs() == withdraw_attributes(sender@, amount),
{
    let balance = state.ledger.get(sender);
    let refused = match state.config.fee {
        None => balance <= amount,
        Some(_) => balance < amount,
    };
    if refused {
        return Err(ContractError::NotEnoughBalance {});
    }
    let remaining = match balance.checked_sub(amount) {
        Some(v) => v,
        None => return Err(ContractError::ArithmeticOverflow {}),
    };
    state.ledger.set(sender, remaining);

    let mut messages: Vec<BankMsg> = Vec::new();
    messages.push(
        BankMsg { to_address: sender.clone(), denom: state.config.coin_denom.clone(), amount },
    );
    let mut attributes: Vec<Attribute> = Vec::new();
    attributes.push(attribute("action", String::from_str("withdraw")));
    attributes.push(attribute("sender", sender.clone()));
    attributes.push(attribute("withdraw_amount", to_decimal(amount)));
    let resp = Response { messages, attributes };
    assert(resp.payments() =~= seq![(sender@, state.config.coin_denom@, amount)]);
    assert(resp.attrs() =~= withdraw_attributes(sender@, amount));
    Ok(resp)
}

/// The owner's address.
pub fn query_owner(state: &State) -> (r: OwnerResp)
    ensures
        r.owner@ == state.config.owner@,
{
    OwnerResp { owner: state.config.owner.clone() }
}

/// The balance of `address`, which must already be a validated address;
/// zero where it was never credited.
pub fn query_balance(state: &State, address: &String) -> (r: BalanceResp)
    requires
        state.wf(),
    ensures
        r.balance == balance_of(state.ledger@, address@),
{
    BalanceResp { balance: state.ledger.get(address) }
}

/// Answers a query; an address asked about must already be validated.
pub fn query(state: &State, msg: &QueryMsg) -> (r: QueryAnswer)
    requires
        state.wf(),
    ensures
        match msg {
            QueryMsg::Owner {} => r is Owner && r->Owner_0.owner@ == state.config.owner@,
            QueryMsg::Balance { address } => r is Balance && r->Balance_0.balance == balance_of(
                state.ledger@,
                address@,
            ),
        },
{
    match msg {
        QueryMsg::Owner {} => QueryAnswer::Owner(query_owner(state)),
        QueryMsg::Balance { address } => QueryAnswer::Balance(query_balance(state, address)),
    }
}

} // verus!
