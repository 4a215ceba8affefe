use cosmwasm_std::StdError;
use payment_splitter::contract::{
    execute_transfer, execute_withdraw, instantiate, query_balance, query_owner,
};
use payment_splitter::error::ContractError;
use payment_splitter::msg::{Coin, InstantiateMsg};
use payment_splitter::response::Response;
use payment_splitter::state::State;

fn setup(fee: Option<u128>) -> (State, Response) {
    let instantiate_msg = InstantiateMsg {
        coin_denom: "sei".to_owned(),
        owner: "owner".to_owned(),
        fee,
    };
    instantiate(instantiate_msg)
}

fn coin(amount: u128, denom: &str) -> Coin {
    Coin { denom: denom.to_owned(), amount }
}

fn addr(a: &str) -> Result<String, StdError> {
    Ok(a.to_owned())
}

fn transfer(state: &mut State, funds: &Coin, amount: u128) -> Result<Response, ContractError> {
    execute_transfer(
        state,
        &"contract".to_owned(),
        funds,
        amount,
        addr("recipient_1"),
        addr("recipient_2"),
    )
}

fn attr(res: &Response, i: usize) -> (&str, &str) {
    (res.attributes[i].key.as_str(), res.attributes[i].value.as_str())
}

fn balance(state: &State, a: &str) -> u128 {
    query_balance(state, &a.to_owned()).balance
}

#[test]
fn test_instantiate() {
    let (_state, res) = setup(Some(1));
    assert_eq!(0, res.messages.len());
}

#[test]
fn test_query_owner_address() {
    let (state, res) = setup(Some(1));
    assert_eq!(0, res.messages.len());
    let owner_resp = query_owner(&state);
    assert_eq!("owner", owner_resp.owner);
}

#[test]
fn test_query_owner_balance() {
    let (state, res) = setup(Some(1));
    assert_eq!(0, res.messages.len());
    assert_eq!(0, balance(&state, "owner"));
}

#[test]
fn test_transfer_even_amount() {
    let (mut state, res) = setup(Some(2));
    assert_eq!(0, res.messages.len());
    let exec_res = transfer(&mut state, &coin(100, "sei"), 100).unwrap();
    assert_eq!(("action", "transfer"), attr(&exec_res, 0));
    assert_eq!(("recipient_1", "recipient_1"), attr(&exec_res, 1));
    assert_eq!(("recipient_1_recieved", "49"), attr(&exec_res, 4));
    assert_eq!(("owner_recieved", "2"), attr(&exec_res, 6));
    assert_eq!(("sender_charged", "100"), attr(&exec_res, 7));
}

#[test]
fn test_transfer_odd_amount() {
    let fee: u128 = 2;
    let (mut state, res) = setup(Some(fee));
    assert_eq!(0, res.messages.len());
    let exec_res = transfer(&mut state, &coin(100, "sei"), 99).unwrap();
    assert_eq!(("action", "transfer"), attr(&exec_res, 0));
    assert_eq!(("recipient_1", "recipient_1"), attr(&exec_res, 1));
    assert_eq!(("recipient_1_recieved", "48"), attr(&exec_res, 4));
    assert_eq!(("owner_recieved", fee.to_string().as_str()), attr(&exec_res, 6));
    assert_eq!(("sender_charged", "98"), attr(&exec_res, 7));
}

#[test]
fn test_transfer_fee_plus_1_error() {
    let (mut state, res) = setup(Some(2));
    assert_eq!(0, res.messages.len());
    let exec_res = transfer(&mut state, &coin(100, "sei"), 3).unwrap_err();
    assert_eq!(ContractError::RecipientPaidZeroOrOneCoin {}, exec_res);
}

#[test]
fn test_transfer_fee_error() {
    let (mut state, res) = setup(Some(2));
    assert_eq!(0, res.messages.len());
    let exec_res = transfer(&mut state, &coin(100, "sei"), 3).unwrap_err();
    assert_eq!(ContractError::RecipientPaidZeroOrOneCoin {}, exec_res);
}

#[test]
fn test_query_zero_balance() {
    let (state, res) = setup(Some(1));
    assert_eq!(0, res.messages.len());
    assert_eq!(0, balance(&state, "no_bal_user"));
}

#[test]
fn test_query_nonzero_balance() {
    let (mut state, res) = setup(Some(1));
    assert_eq!(0, res.messages.len());
    let exec_res = transfer(&mut state, &coin(100, "sei"), 100).unwrap();
    assert_eq!(("action", "transfer"), attr(&exec_res, 0));
    assert_eq!(("recipient_1", "recipient_1"), attr(&exec_res, 1));
    assert_eq!(("recipient_1_recieved", "49"), attr(&exec_res, 4));
    assert_eq!(("owner_recieved", "1"), attr(&exec_res, 6));
    assert_eq!(49, balance(&state, "recipient_1"));
}

#[test]
fn test_withdraw_nonzero_amount() {
    let (mut state, res) = setup(Some(1));
    assert_eq!(0, res.messages.len());
    let exec_res = transfer(&mut state, &coin(100, "sei"), 100).unwrap();
    assert_eq!(("action", "transfer"), attr(&exec_res, 0));
    assert_eq!(("recipient_1", "recipient_1"), attr(&exec_res, 1));
    assert_eq!(("recipient_1_recieved", "49"), attr(&exec_res, 4));
    assert_eq!(("owner_recieved", "1"), attr(&exec_res, 6));
    assert_eq!(49, balance(&state, "recipient_1"));

    let exec_res = execute_withdraw(&mut state, &"recipient_1".to_owned(), 49).unwrap();
    assert_eq!(("action", "withdraw"), attr(&exec_res, 0));
    assert_eq!(("sender", "recipient_1"), attr(&exec_res, 1));
    assert_eq!(("withdraw_amount", "49"), attr(&exec_res, 2));

    assert_eq!(0, balance(&state, "recipient_1"));
    assert_eq!(49, balance(&state, "recipient_2"));
}

#[test]
fn test_withdraw_not_enough_balance_error() {
    let (mut state, res) = setup(Some(1));
    assert_eq!(0, res.messages.len());
    let exec_res = execute_withdraw(&mut state, &"recipient_1".to_owned(), 100).unwrap_err();
    assert_eq!(ContractError::NotEnoughBalance {}, exec_res);
}

#[test]
fn test_transfer_less_than_fee_error() {
    let (mut state, res) = setup(Some(10000));
    assert_eq!(0, res.messages.len());
    let exec_res = transfer(&mut state, &coin(10, "sei"), 100).unwrap_err();
    assert_eq!(ContractError::SentLessThanFee {}, exec_res);
}

#[test]
fn test_transfer_not_enough_coin_error() {
    let (mut state, res) = setup(Some(1));
    assert_eq!(0, res.messages.len());
    let exec_res = transfer(&mut state, &coin(10, "sei"), 100).unwrap_err();
    assert_eq!(ContractError::NotEnoughCoin {}, exec_res);
}

#[test]
fn test_transfer_wrong_coin_denom() {
    let (mut state, res) = setup(Some(1));
    assert_eq!(0, res.messages.len());
    let exec_res = transfer(&mut state, &coin(0, "not_sei"), 100).unwrap_err();
    assert_eq!(ContractError::SentIncorrectCoin {}, exec_res);
}
