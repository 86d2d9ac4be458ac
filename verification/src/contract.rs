//! The calls that a ledger answers: setting it up, changing it, asking it.

use crate::error::ContractError;
use crate::json::{json_scores, render_scores};
use crate::msg::{
    ExecuteMsg, HashResponse, InstantiateMsg, MessageInfo, OwnerResponse, QueryMsg, QueryResponse,
    Response, ScoreFromAddressResponse,
};
use crate::scores::Scores;
use crate::state::{Ledger, State};
use vstd::prelude::*;

verus! {

/// What listing `address` with `score` makes of the record `before`: the new
/// ledger, or the reason why the call is turned down.
pub open spec fn add_address_expected(
    before: State,
    caller: Seq<char>,
    address: Seq<char>,
    score: i32,
) -> Result<Ledger, ContractError> {
    match before@ {
        Some(ledger) => ledger.add(caller, address, score),
        None => Err(ContractError::InvalidHash {  }),
    }
}

/// What setting the score of `address` to `score` makes of the record
/// `before`: the new ledger, or the reason why the call is turned down. A
/// caller who is not the owner is turned down before the table is read.
pub open spec fn set_expected(
    before: State,
    caller: Seq<char>,
    address: Seq<char>,
    score: i32,
) -> Result<Ledger, ContractError> {
    if caller != before.owner@ {
        Err(ContractError::Unauthorized {  })
    } else {
        match before@ {
            Some(ledger) => ledger.set(caller, address, score),
            None => Err(ContractError::InvalidHash {  }),
        }
    }
}

/// How a change ends, given what it should make of the record.
///
/// The call returns a response exactly where a new ledger is expected: it
/// has then stored that ledger, and the response names the method. Else it
/// fails for the expected reason and has left the record as it was.
pub open spec fn carried_out(
    before: State,
    after: State,
    expected: Result<Ledger, ContractError>,
    method: Seq<char>,
    res: Result<Response, ContractError>,
) -> bool {
    match res {
        Ok(response) => {
            &&& expected matches Ok(ledger)
            &&& after@ == Some(ledger)
            &&& response.messages@.len() == 0
            &&& response@ =~= seq![("method"@, method)]
        },
        Err(e) => {
            &&& expected matches Err(reason)
            &&& e == reason
            &&& after == before
        },
    }
}

/// What a query returns for the record `state`.
pub open spec fn answered(state: State, msg: QueryMsg, res: Result<QueryResponse, ContractError>) -> bool {
    match msg {
        QueryMsg::GetOwner {  } => res matches Ok(QueryResponse::Owner(response))
            && response.owner@ == state.owner@,
        QueryMsg::GetHash {  } => res matches Ok(QueryResponse::Hash(response)) && response.hash@
            == state.hash@,
        QueryMsg::GetScoreFromAddress { address } => score_answered(
            state,
            address@,
            match res {
                Ok(QueryResponse::ScoreFromAddress(response)) => Some(Ok(response)),
                Ok(_) => None,
                Err(e) => Some(Err(e)),
            },
        ),
    }
}

/// What asking for the score of `address` returns for the record `state`.
pub open spec fn score_answered(
    state: State,
    address: Seq<char>,
    res: Option<Result<ScoreFromAddressResponse, ContractError>>,
) -> bool {
    match state@ {
        Some(ledger) => match ledger.get_score(address) {
            Ok(score) => res matches Some(Ok(response)) && response.score == score,
            Err(reason) => res matches Some(Err(e)) && e == reason,
        },
        None => res matches Some(Err(e)) && e == (ContractError::InvalidHash {  }),
    }
}

/// Sets up a ledger: `info.sender` becomes its owner, and its table lists
/// `msg.first_address` with `msg.first_address_score` and nothing else.
///
/// Neither the address nor the score is checked: the call succeeds on every
/// input.
pub fn instantiate(info: MessageInfo, msg: InstantiateMsg) -> (res: Result<
    (State, Response),
    ContractError,
>)
    ensures
        res is Ok,
        res matches Ok((state, response)) ==> {
            &&& state@ == Some(
                Ledger::create(info.sender@, msg.first_address@, msg.first_address_score),
            )
            &&& response.messages@.len() == 0
            &&& response@ =~= seq![
                ("method"@, "instantiate"@),
                ("hash"@, state.hash@),
                ("owner"@, info.sender@),
            ]
        },
{
    let mut table = Scores::new();
    table.insert(msg.first_address, msg.first_address_score);
    let hash = render_scores(&table).unwrap();
    let response = Response::new().add_attribute(
        "method".to_owned(),
        "instantiate".to_owned(),
    ).add_attribute("hash".to_owned(), hash.clone()).add_attribute(
        "owner".to_owned(),
        info.sender.clone(),
    );
    let state = State { owner: info.sender, hash };
    Ok((state, response))
}

/// Carries out a change to the ledger, by its kind.
pub fn execute(state: &mut State, info: MessageInfo, msg: ExecuteMsg) -> (res: Result<
    Response,
    ContractError,
>)
    ensures
        match msg {
            ExecuteMsg::AddAddress { new_address, new_score } => carried_out(
                *old(state),
                *final(state),
                add_address_expected(*old(state), info.sender@, new_address@, new_score),
                "add_address"@,
                res,
            ),
            ExecuteMsg::SetScore { address, new_score } => carried_out(
                *old(state),
                *final(state),
                set_expected(*old(state), info.sender@, address@, new_score),
                "set"@,
                res,
            ),
        },
        msg matches ExecuteMsg::AddAddress { new_address, new_score } ==> (res is Ok <==> old(
            state,
        )@ is Some && !old(state)@->0.scores.contains_key(new_address@)),
        msg matches ExecuteMsg::SetScore { address, new_score } ==> (res is Ok <==> info.sender@
            == old(state).owner@ && old(state)@ is Some && old(state)@->0.scores.contains_key(
            address@,
        )),
{
    match msg {
        ExecuteMsg::AddAddress { new_address, new_score } => try_add_address(
            state,
            info,
            new_address,
            new_score,
        ),
        ExecuteMsg::SetScore { address, new_score } => try_set(state, info, address, new_score),
    }
}

/// Lists `new_address` with `new_score`. Any caller may do so, and the call
/// succeeds exactly where the record holds a table that does not list the
/// address yet.
///
/// An address that is listed already is refused with `KeyAlreadyExists`, and
/// the record stays as it was.
pub fn try_add_address(
    state: &mut State,
    info: MessageInfo,
    new_address: String,
    new_score: i32,
) -> (res: Result<Response, ContractError>)
    ensures
        carried_out(
            *old(state),
            *final(state),
            add_address_expected(*old(state), info.sender@, new_address@, new_score),
            "add_address"@,
            res,
        ),
        res is Ok <==> old(state)@ is Some && !old(state)@->0.scores.contains_key(new_address@),
        old(state)@ is Some && old(state)@->0.scores.contains_key(new_address@) ==> res == Err::<
            Response,
            ContractError,
        >(ContractError::KeyAlreadyExists {  }) && *final(state) == *old(state),
{
    let mut table = match state.scores() {
        Ok(table) => table,
        Err(e) => {
            return Err(e);
        },
    };
    if table.contains_key(&new_address) {
        return Err(ContractError::KeyAlreadyExists {  });
    }
    table.insert(new_address, new_score);
    state.set_scores(&table);
    Ok(Response::new().add_attribute("method".to_owned(), "add_address".to_owned()))
}

/// Gives `address` the score `new_score`.
///
/// The call succeeds exactly where the caller is the owner and the record
/// holds a table that lists the address. A caller who is not the owner is
/// refused with `Unauthorized`, whatever the address; the owner is refused
/// with `UnknownKey` for an address that is not listed. A call that is
/// refused leaves the record as it was.
pub fn try_set(state: &mut State, info: MessageInfo, address: String, new_score: i32) -> (res:
    Result<Response, ContractError>)
    ensures
        carried_out(
            *old(state),
            *final(state),
            set_expected(*old(state), info.sender@, address@, new_score),
            "set"@,
            res,
        ),
        res is Ok <==> info.sender@ == old(state).owner@ && old(state)@ is Some && old(
            state,
        )@->0.scores.contains_key(address@),
        info.sender@ != old(state).owner@ ==> res == Err::<Response, ContractError>(
            ContractError::Unauthorized {  },
        ) && *final(state) == *old(state),
{
    if info.sender != state.owner {
        return Err(ContractError::Unauthorized {  });
    }
    let mut table = match state.scores() {
        Ok(table) => table,
        Err(e) => {
            return Err(e);
        },
    };
    if !table.contains_key(&address) {
        return Err(ContractError::UnknownKey {  });
    }
    table.insert(address, new_score);
    state.set_scores(&table);
    Ok(Response::new().add_attribute("method".to_owned(), "set".to_owned()))
}

/// Answers a question about the ledger, by its kind.
pub fn query(state: &State, msg: QueryMsg) -> (res: Result<QueryResponse, ContractError>)
    ensures
        answered(*state, msg, res),
{
    match msg {
        QueryMsg::GetOwner {  } => Ok(QueryResponse::Owner(query_owner(state))),
        QueryMsg::GetHash {  } => Ok(QueryResponse::Hash(query_hash(state))),
        QueryMsg::GetScoreFromAddress { address } => match query_score_from_address(
            state,
            address,
        ) {
            Ok(response) => Ok(QueryResponse::ScoreFromAddress(response)),
            Err(e) => Err(e),
        },
    }
}

/// The owner of the ledger.
pub fn query_owner(state: &State) -> (response: OwnerResponse)
    ensures
        response.owner@ == state.owner@,
        state@ matches Some(ledger) ==> response.owner@ == ledger.get_owner(),
{
    OwnerResponse { owner: state.owner.clone() }
}

/// The whole table of scores, as the JSON text that the record holds. Where
/// the record holds a table, the text reads as that table.
pub fn query_hash(state: &State) -> (response: HashResponse)
    ensures
        response.hash@ == state.hash@,
        state@ matches Some(ledger) ==> json_scores(response.hash@) == Some(ledger.scores),
{
    HashResponse { hash: state.hash.clone() }
}

/// The score of `address`. Fails with `UnknownKey` where the address is not
/// listed, and with `InvalidHash` where the record holds no table of scores.
pub fn query_score_from_address(state: &State, address: String) -> (res: Result<
    ScoreFromAddressResponse,
    ContractError,
>)
    ensures
        score_answered(*state, address@, Some(res)),
{
    let table = match state.scores() {
        Ok(table) => table,
        Err(e) => {
            return Err(e);
        },
    };
    match table.get(&address) {
        Some(score) => Ok(ScoreFromAddressResponse { score }),
        None => Err(ContractError::UnknownKey {  }),
    }
}

} // verus!
