//! What callers send to the ledger and what they get back.

use core::convert::Infallible;
use vstd::prelude::*;

verus! {

/// Who makes a call. The host vouches for `sender`.
#[derive(Clone, Debug, PartialEq)]
pub struct MessageInfo {
    /// The address that the call comes from.
    pub sender: String,
}

/// Sets up a ledger with its first entry.
#[derive(Clone, Debug, PartialEq)]
pub struct InstantiateMsg {
    /// The first address to list.
    pub first_address: String,
    /// The score of the first address.
    pub first_address_score: i32,
}

/// A change to the ledger.
#[derive(Clone, Debug, PartialEq)]
pub enum ExecuteMsg {
    /// Gives a listed address a new score. Only the owner may do so.
    SetScore { address: String, new_score: i32 },
    /// Lists a new address with its score.
    AddAddress { new_address: String, new_score: i32 },
}

/// A question to the ledger. Answering changes nothing.
#[derive(Clone, Debug, PartialEq)]
pub enum QueryMsg {
    /// Who owns the ledger?
    GetOwner {},
    /// What is the whole table, as JSON text?
    GetHash {},
    /// What is the score of this address?
    GetScoreFromAddress { address: String },
}

/// The answer to `QueryMsg::GetOwner`.
#[derive(Clone, Debug, PartialEq)]
pub struct OwnerResponse {
    /// The owner of the ledger.
    pub owner: String,
}

/// The answer to `QueryMsg::GetHash`.
#[derive(Clone, Debug, PartialEq)]
pub struct HashResponse {
    /// The table of scores as JSON text.
    pub hash: String,
}

/// The answer to `QueryMsg::GetScoreFromAddress`.
#[derive(Clone, Debug, PartialEq)]
pub struct ScoreFromAddressResponse {
    /// The score of the address that was asked for.
    pub score: i32,
}

/// The answer to a query, by the kind of question.
#[derive(Clone, Debug, PartialEq)]
pub enum QueryResponse {
    Owner(OwnerResponse),
    Hash(HashResponse),
    ScoreFromAddress(ScoreFromAddressResponse),
}

/// A key and a value that describe what a call did.
#[derive(Clone, Debug, PartialEq)]
pub struct Attribute {
    pub key: String,
    pub value: String,
}

impl View for Attribute {
    type V = (Seq<char>, Seq<char>);

    open spec fn view(&self) -> (Seq<char>, Seq<char>) {
        (self.key@, self.value@)
    }
}

/// What a call that went through hands back to the host.
#[derive(Clone, Debug, PartialEq)]
pub struct Response {
    /// Messages for the host to pass on. The ledger sends none, and the type
    /// of a message has no values.
    pub messages: Vec<Infallible>,
    /// Attributes to log, in the order in which they were added.
    pub attributes: Vec<Attribute>,
}

impl View for Response {
    type V = Seq<(Seq<char>, Seq<char>)>;

    /// The attributes, each as a pair of key and value. The messages are no
    /// part of it: a contract states their number beside it.
    open spec fn view(&self) -> Seq<(Seq<char>, Seq<char>)> {
        Seq::new(self.attributes@.len(), |i: int| self.attributes@[i]@)
    }
}

impl Response {
    /// A response with no messages and no attributes.
    pub fn new() -> (response: Response)
        ensures
            response.messages@.len() == 0,
            response@ == Seq::<(Seq<char>, Seq<char>)>::empty(),
    {
        Response { messages: Vec::new(), attributes: Vec::new() }
    }

    /// Adds one attribute after those that are there.
    pub fn add_attribute(self, key: String, value: String) -> (response: Response)
        ensures
            response.messages@ == self.messages@,
            response@ == self@.push((key@, value@)),
    {
        let mut response = self;
        response.attributes.push(Attribute { key, value });
        response
    }
}

} // verus!
