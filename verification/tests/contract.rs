use cosmwasm_std::coins;
use cosmwasm_std::testing::mock_info;
use score_ledger::contract::{execute, instantiate, query};
use score_ledger::error::ContractError;
use score_ledger::msg::{
    ExecuteMsg, InstantiateMsg, MessageInfo, OwnerResponse, QueryMsg, QueryResponse,
    ScoreFromAddressResponse,
};

/// The caller that the host vouches for, as the ledger takes it.
fn caller(info: cosmwasm_std::MessageInfo) -> MessageInfo {
    MessageInfo { sender: info.sender.into_string() }
}

fn setup() -> (MessageInfo, InstantiateMsg) {
    let info = mock_info("owner", &coins(1000, "earth"));
    let msg = InstantiateMsg { first_address: "1".to_string(), first_address_score: 10 as i32 };
    (caller(info), msg)
}

fn owner_response(res: QueryResponse) -> OwnerResponse {
    match res {
        QueryResponse::Owner(value) => value,
        other => panic!("not an owner response: {:?}", other),
    }
}

fn score_response(res: QueryResponse) -> ScoreFromAddressResponse {
    match res {
        QueryResponse::ScoreFromAddress(value) => value,
        other => panic!("not a score response: {:?}", other),
    }
}

// - you should be able to instantiate the contract and set the owner
#[test]
fn instantiate_contract_and_set_owner() {
    let (info, msg) = setup();

    // we can just call .unwrap() to assert this was a success
    let (_state, res) = instantiate(info, msg).unwrap();
    assert_eq!(0, res.messages.len());
}

// - you should support a read query to get the owner of the smart contract
#[test]
fn support_a_read_query_to_get_the_owner_of_the_start_contract() {
    let (info, msg) = setup();

    let (state, res) = instantiate(info, msg).unwrap();
    assert_eq!(0, res.messages.len());

    // it worked, let's query the state
    let res = query(&state, QueryMsg::GetOwner {}).unwrap();
    let value: OwnerResponse = owner_response(res);
    assert_eq!("owner", value.owner);
}

// - you should store the score for different addresses in the smart contract state
//   (ex. {address_1: 10, address_2: 20})
#[test]
fn store_the_score_for_different_addresses_in_the_smart_contract_state() {
    let (info, msg) = setup();

    let (mut state, res) = instantiate(info, msg).unwrap();
    assert_eq!(0, res.messages.len());

    // Call AddAddress
    let info = caller(mock_info("owner", &coins(1000, "earth")));
    let new_address = "2".to_string();
    let new_score = 20 as i32;
    let msg = ExecuteMsg::AddAddress { new_address: new_address, new_score: new_score };
    let _res = execute(&mut state, info, msg).unwrap();

    // Make sure Address1's score is 10.
    let address = "1".to_string();
    let res = query(&state, QueryMsg::GetScoreFromAddress { address: address }).unwrap();
    let value: ScoreFromAddressResponse = score_response(res);
    assert_eq!(value.score, 10 as i32);

    // Make sure Address2's score is 20.
    let address = "2".to_string();
    let res = query(&state, QueryMsg::GetScoreFromAddress { address: address }).unwrap();
    let value: ScoreFromAddressResponse = score_response(res);
    assert_eq!(value.score, 20 as i32);
}

// Ensure one cannot add an address if it already exists.
#[test]
fn error_if_adding_to_existing_address() {
    let (info, msg) = setup();

    let (mut state, res) = instantiate(info, msg).unwrap();
    assert_eq!(0, res.messages.len());

    // Call AddAddress
    let info = caller(mock_info("owner", &coins(1000, "earth")));
    let new_address = "1".to_string();
    let new_score = 20 as i32;
    let msg = ExecuteMsg::AddAddress { new_address: new_address, new_score: new_score };
    let res = execute(&mut state, info, msg);

    match res {
        Err(ContractError::KeyAlreadyExists {}) => {}
        _ => panic!("Must return key already exists error"),
    }
}

// - you should support an execute message where only the owner of the smart contract can set
//   the score of an address
#[test]
fn set_by_owner() {
    let (info, msg) = setup();

    let (mut state, res) = instantiate(info, msg).unwrap();
    assert_eq!(0, res.messages.len());

    let info = caller(mock_info("owner", &coins(1000, "earth")));
    let msg = ExecuteMsg::SetScore { address: "1".to_string(), new_score: 21 as i32 };
    let _res = execute(&mut state, info, msg).unwrap();

    // it worked, let's query the state
    let res =
        query(&state, QueryMsg::GetScoreFromAddress { address: "1".to_string() }).unwrap();
    let value: ScoreFromAddressResponse = score_response(res);
    assert_eq!(value.score, 21 as i32);
}

#[test]
fn set_by_anyone() {
    let (info, msg) = setup();

    let (mut state, res) = instantiate(info, msg).unwrap();
    assert_eq!(0, res.messages.len());

    let info = caller(mock_info("anyone", &coins(2, "token")));
    let msg = ExecuteMsg::SetScore { address: "1".to_string(), new_score: 21 as i32 };
    let res = execute(&mut state, info, msg);

    match res {
        Err(ContractError::Unauthorized {}) => {}
        _ => panic!("Must return unauthorized error"),
    }

    // Make sure Address1's score is 10.
    let res =
        query(&state, QueryMsg::GetScoreFromAddress { address: "1".to_string() }).unwrap();
    let value: ScoreFromAddressResponse = score_response(res);
    assert_eq!(value.score, 10 as i32);
}

// - you should support a read query to get the score for a particular address
#[test]
fn read_query_to_get_the_score_of_particular_address() {
    let (info, msg) = setup();

    let (state, res) = instantiate(info, msg).unwrap();
    assert_eq!(0, res.messages.len());

    // it worked, let's query the state
    let res =
        query(&state, QueryMsg::GetScoreFromAddress { address: "1".to_string() }).unwrap();
    let value: ScoreFromAddressResponse = score_response(res);
    assert_eq!(value.score, 10 as i32);
}

// Ensure one cannot set at an invalid address.
#[test]
fn set_by_owner_at_invalid_address() {
    let (info, msg) = setup();

    let (mut state, res) = instantiate(info, msg).unwrap();
    assert_eq!(0, res.messages.len());

    let info = caller(mock_info("owner", &coins(1000, "earth")));
    let msg = ExecuteMsg::SetScore { address: "2".to_string(), new_score: 21 as i32 };
    let res = execute(&mut state, info, msg);

    match res {
        Err(ContractError::UnknownKey {}) => {}
        _ => panic!("Must provide a valid address to set."),
    }
}
