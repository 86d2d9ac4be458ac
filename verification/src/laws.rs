//! What holds of every ledger, whatever calls it has seen.
//!
//! The laws speak of `Ledger`, the mathematical form of a record. The calls
//! in `contract` are tied to it by their contracts: a call succeeds exactly
//! where the operation of the same kind does, it has then done to the record
//! what the operation does to the ledger, and it fails for the same reason.

use crate::contract::{add_address_expected, carried_out, score_answered, set_expected};
use crate::error::ContractError;
use crate::msg::{OwnerResponse, Response, ScoreFromAddressResponse};
use crate::state::{Ledger, State};
use vstd::prelude::*;

verus! {

/// Right after a ledger is set up, its owner is the caller who set it up.
pub proof fn law_owner_after_create(owner: Seq<char>, address: Seq<char>, score: i32)
    ensures
        Ledger::create(owner, address, score).get_owner() == owner,
{
}

/// A ledger that was just set up lists its first address with the score
/// given, and no other address.
pub proof fn law_scores_after_create(
    owner: Seq<char>,
    address: Seq<char>,
    score: i32,
    other: Seq<char>,
)
    ensures
        Ledger::create(owner, address, score).get_score(address) == Ok::<i32, ContractError>(
            score,
        ),
        other != address ==> Ledger::create(owner, address, score).get_score(other) == Err::<
            i32,
            ContractError,
        >(ContractError::UnknownKey {  }),
{
}

/// An address that is not yet listed can be added by any caller, and its
/// score is then the one given.
pub proof fn law_add_then_get_score(
    ledger: Ledger,
    caller: Seq<char>,
    address: Seq<char>,
    score: i32,
)
    requires
        !ledger.scores.contains_key(address),
    ensures
        ledger.add(caller, address, score) matches Ok(next) && next.get_score(address) == Ok::<
            i32,
            ContractError,
        >(score),
{
}

/// Adding an address changes neither the owner nor the score of any other
/// address.
pub proof fn law_add_keeps_the_rest(
    ledger: Ledger,
    caller: Seq<char>,
    address: Seq<char>,
    score: i32,
    other: Seq<char>,
)
    requires
        other != address,
    ensures
        ledger.add(caller, address, score) matches Ok(next) ==> next.get_owner()
            == ledger.get_owner() && next.get_score(other) == ledger.get_score(other),
{
}

/// An address that is listed already cannot be added again, whoever calls.
pub proof fn law_add_listed_address(
    ledger: Ledger,
    caller: Seq<char>,
    address: Seq<char>,
    score: i32,
)
    requires
        ledger.scores.contains_key(address),
    ensures
        ledger.add(caller, address, score) == Err::<Ledger, ContractError>(
            ContractError::KeyAlreadyExists {  },
        ),
{
}

/// A caller who is not the owner cannot set a score, whatever the address.
pub proof fn law_set_by_stranger(
    ledger: Ledger,
    caller: Seq<char>,
    address: Seq<char>,
    score: i32,
)
    requires
        caller != ledger.owner,
    ensures
        ledger.set(caller, address, score) == Err::<Ledger, ContractError>(
            ContractError::Unauthorized {  },
        ),
{
}

/// The owner can set the score of an address exactly if the address is
/// listed, and its score is then the one given.
pub proof fn law_set_by_owner(ledger: Ledger, address: Seq<char>, score: i32)
    ensures
        ledger.set(ledger.owner, address, score) is Ok <==> ledger.scores.contains_key(address),
        !ledger.scores.contains_key(address) ==> ledger.set(ledger.owner, address, score) == Err::<
            Ledger,
            ContractError,
        >(ContractError::UnknownKey {  }),
        ledger.set(ledger.owner, address, score) matches Ok(next) ==> next.get_score(address)
            == Ok::<i32, ContractError>(score),
{
}

/// Setting a score changes neither the owner, nor which addresses are
/// listed, nor the score of any other address.
pub proof fn law_set_keeps_the_rest(
    ledger: Ledger,
    caller: Seq<char>,
    address: Seq<char>,
    score: i32,
    other: Seq<char>,
)
    requires
        other != address,
    ensures
        ledger.set(caller, address, score) matches Ok(next) ==> next.get_owner()
            == ledger.get_owner() && next.scores.dom() == ledger.scores.dom() && next.get_score(
            other,
        ) == ledger.get_score(other),
{
    if let Ok(next) = ledger.set(caller, address, score) {
        assert(next.scores.dom() =~= ledger.scores.dom());
    }
}

/// Setting the same score twice leaves the ledger as setting it once does.
pub proof fn law_set_twice(ledger: Ledger, caller: Seq<char>, address: Seq<char>, score: i32)
    ensures
        ledger.set(caller, address, score) matches Ok(next) ==> next.set(caller, address, score)
            == Ok::<Ledger, ContractError>(next),
{
    if let Ok(next) = ledger.set(caller, address, score) {
        assert(next.scores.insert(address, score) =~= next.scores);
    }
}

/// The owner that a query reports for a record that was just set up is the
/// caller who set it up. The first premise is what `instantiate` ensures of
/// its record, the second what `query_owner` ensures of its response.
pub proof fn law_query_owner_after_instantiate(
    state: State,
    sender: Seq<char>,
    address: Seq<char>,
    score: i32,
    response: OwnerResponse,
)
    requires
        state@ == Some(Ledger::create(sender, address, score)),
        response.owner@ == state.owner@,
    ensures
        response.owner@ == sender,
{
}

/// On a record that does not list `address` yet, the call that adds it
/// succeeds for any caller, and a query for its score on the record as the
/// call left it returns the score given.
pub proof fn law_query_after_add(
    before: State,
    after: State,
    caller: Seq<char>,
    address: Seq<char>,
    score: i32,
    res: Result<Response, ContractError>,
    found: Result<ScoreFromAddressResponse, ContractError>,
)
    requires
        before@ is Some,
        !before@->0.scores.contains_key(address),
        carried_out(
            before,
            after,
            add_address_expected(before, caller, address, score),
            "add_address"@,
            res,
        ),
        score_answered(after, address, Some(found)),
    ensures
        res is Ok,
        found matches Ok(response) && response.score == score,
{
}

/// The owner's call to set a score succeeds exactly if the address is
/// listed, and a query for its score on the record as the call left it then
/// returns the score given.
pub proof fn law_query_after_set(
    before: State,
    after: State,
    address: Seq<char>,
    score: i32,
    res: Result<Response, ContractError>,
    found: Result<ScoreFromAddressResponse, ContractError>,
)
    requires
        before@ is Some,
        carried_out(
            before,
            after,
            set_expected(before, before.owner@, address, score),
            "set"@,
            res,
        ),
        score_answered(after, address, Some(found)),
    ensures
        res is Ok <==> before@->0.scores.contains_key(address),
        res is Ok ==> (found matches Ok(response) && response.score == score),
{
}

/// A call to set a score that succeeded succeeds again when it is repeated,
/// and the record then stands for the same ledger as after the first call.
/// Of the JSON text only this is said: the order of its members may differ.
pub proof fn law_repeated_set(
    first: State,
    second: State,
    third: State,
    caller: Seq<char>,
    address: Seq<char>,
    score: i32,
    once: Result<Response, ContractError>,
    again: Result<Response, ContractError>,
)
    requires
        carried_out(first, second, set_expected(first, caller, address, score), "set"@, once),
        once is Ok,
        carried_out(second, third, set_expected(second, caller, address, score), "set"@, again),
    ensures
        again is Ok,
        third@ == second@,
{
    let ledger = second@->0;
    assert(ledger.scores.insert(address, score) =~= ledger.scores);
}

} // verus!
