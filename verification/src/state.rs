//! The record that a ledger keeps, and what each operation makes of it.

use crate::error::ContractError;
use crate::json::{json_scores, parse_scores, render_scores};
use crate::scores::Scores;
use vstd::prelude::*;

verus! {

/// A ledger in mathematical terms: who owns it, and the score of each
/// listed address.
pub struct Ledger {
    pub owner: Seq<char>,
    pub scores: Map<Seq<char>, i32>,
}

impl Ledger {
    /// The ledger that `owner` sets up with one entry.
    pub open spec fn create(owner: Seq<char>, address: Seq<char>, score: i32) -> Ledger {
        Ledger { owner, scores: Map::empty().insert(address, score) }
    }

    /// Lists `address` with `score`. Any caller may do so; an address that is
    /// listed already is refused.
    pub open spec fn add(self, caller: Seq<char>, address: Seq<char>, score: i32) -> Result<
        Ledger,
        ContractError,
    > {
        if self.scores.contains_key(address) {
            Err(ContractError::KeyAlreadyExists {  })
        } else {
            Ok(Ledger { owner: self.owner, scores: self.scores.insert(address, score) })
        }
    }

    /// Gives `address` the score `score`. Only the owner may do so, and only
    /// for an address that is listed.
    pub open spec fn set(self, caller: Seq<char>, address: Seq<char>, score: i32) -> Result<
        Ledger,
        ContractError,
    > {
        if caller != self.owner {
            Err(ContractError::Unauthorized {  })
        } else if !self.scores.contains_key(address) {
            Err(ContractError::UnknownKey {  })
        } else {
            Ok(Ledger { owner: self.owner, scores: self.scores.insert(address, score) })
        }
    }

    /// The owner.
    pub open spec fn get_owner(self) -> Seq<char> {
        self.owner
    }

    /// The score of `address`, which must be listed.
    pub open spec fn get_score(self, address: Seq<char>) -> Result<i32, ContractError> {
        if self.scores.contains_key(address) {
            Ok(self.scores[address])
        } else {
            Err(ContractError::UnknownKey {  })
        }
    }
}

/// The record as it is stored: the owner, and the table of scores as JSON
/// text.
#[derive(Clone, Debug, PartialEq)]
pub struct State {
    /// The owner of the ledger. Set when the ledger is set up, and never
    /// changed.
    pub owner: String,
    /// The table of scores, as a JSON object with one member for each listed
    /// address.
    pub hash: String,
}

impl View for State {
    type V = Option<Ledger>;

    /// The ledger that the record stands for, or `None` where `hash` is not
    /// a table of scores.
    open spec fn view(&self) -> Option<Ledger> {
        match json_scores(self.hash@) {
            Some(scores) => Some(Ledger { owner: self.owner@, scores }),
            None => None,
        }
    }
}

impl State {
    /// Reads the table out of `hash`. Fails with `InvalidHash` exactly where
    /// `hash` is not a table of scores.
    pub fn scores(&self) -> (res: Result<Scores, ContractError>)
        ensures
            match self@ {
                Some(ledger) => res matches Ok(table) && table.wf() && table@ == ledger.scores,
                None => res matches Err(e) && e == (ContractError::InvalidHash {  }),
            },
    {
        match parse_scores(self.hash.as_str()) {
            Ok(table) => Ok(table),
            Err(_) => Err(ContractError::InvalidHash {  }),
        }
    }

    /// Writes `table` into `hash`, as JSON text. The owner stays.
    pub fn set_scores(&mut self, table: &Scores)
        requires
            table.wf(),
        ensures
            final(self).owner == old(self).owner,
            final(self)@ == Some(Ledger { owner: old(self).owner@, scores: table@ }),
    {
        self.hash = render_scores(table).unwrap();
    }
}

} // verus!
