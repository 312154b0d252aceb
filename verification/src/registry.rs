//! The registry: who points at which content identifier, and the rules by
//! which a write is taken or refused.
//!
//! A write is made in the name of the caller alone. No operation takes the
//! account to write for: the caller handed to [`AgentRegistry::set_persona`]
//! is the identity that the host resolved for the call at hand.

use vstd::hash_map::StringHashMap;
use vstd::prelude::*;
use vstd::string::StringExecFns;

use crate::account::AccountId;
use crate::cid::{is_valid_cid, valid_cid, CID};
use crate::event::{PersonaSetEvent, PersonaSetEventView};

verus! {

/// Why a call was refused.
#[derive(Clone, Copy, Debug, PartialEq, Eq, Structural)]
pub enum RegistryError {
    /// The content identifier is empty, or white space only.
    InvalidInput,
}

impl RegistryError {
    /// The words in which the refusal is told to the caller. They name a
    /// prefix; the rule itself asks only that the identifier is not blank.
    pub fn message(&self) -> (text: String)
        ensures
            text@ == "Invalid CID format. Must be a valid IPFS CID starting with 'bafy'."@,
    {
        String::from_str("Invalid CID format. Must be a valid IPFS CID starting with 'bafy'.")
    }
}

/// The records of a registry: for each account that has one, its content
/// identifier.
pub type Records = Map<Seq<char>, Seq<char>>;

/// The event of a write by `caller` with `cid`: one where the identifier is
/// valid, none where it is not.
pub open spec fn accepted(caller: Seq<char>, cid: Seq<char>) -> Option<PersonaSetEventView> {
    if valid_cid(cid) {
        Some(PersonaSetEventView { account_id: caller, cid })
    } else {
        None
    }
}

/// The records after a write by `caller` with `cid`. An accepted write puts
/// `cid` in the place of whatever the caller had; a refused one changes
/// nothing.
pub open spec fn apply_write(records: Records, caller: Seq<char>, cid: Seq<char>) -> Records {
    match accepted(caller, cid) {
        Some(event) => records.insert(event.account_id, event.cid),
        None => records,
    }
}

/// What a reader is told of `account_id`.
pub open spec fn lookup(records: Records, account_id: Seq<char>) -> Option<Seq<char>> {
    if records.contains_key(account_id) {
        Some(records[account_id])
    } else {
        None
    }
}

/// Decides a write by `caller` with `cid`, whatever the records hold: the
/// event to emit where the identifier is valid, the refusal where it is not.
pub fn check_write(caller: AccountId, cid: CID) -> (outcome: Result<
    PersonaSetEvent,
    RegistryError,
>)
    ensures
        match outcome {
            Ok(event) => accepted(caller@, cid@) == Some(event@),
            Err(error) => accepted(caller@, cid@) is None && error == RegistryError::InvalidInput,
        },
{
    if is_valid_cid(cid.as_str()) {
        Ok(PersonaSetEvent { account_id: caller, cid })
    } else {
        Err(RegistryError::InvalidInput)
    }
}

/// A registry of personas, with its records in memory.
pub struct AgentRegistry {
    personas: StringHashMap<CID>,
}

impl View for AgentRegistry {
    type V = Records;

    closed spec fn view(&self) -> Records {
        self.personas@.map_values(|cid: CID| cid@)
    }
}

impl AgentRegistry {
    /// A registry without records.
    pub fn new() -> (registry: Self)
        ensures
            registry@ == Records::empty(),
    {
        AgentRegistry { personas: StringHashMap::new() }
    }

    /// Registers `cid` as the persona of `caller`, in the place of any
    /// earlier one, and returns the event to emit. A `cid` that is not valid
    /// is refused, and then nothing has changed.
    pub fn set_persona(&mut self, caller: AccountId, cid: CID) -> (outcome: Result<
        PersonaSetEvent,
        RegistryError,
    >)
        ensures
            final(self)@ == apply_write(old(self)@, caller@, cid@),
            match outcome {
                Ok(event) => accepted(caller@, cid@) == Some(event@),
                Err(error) => accepted(caller@, cid@) is None && error
                    == RegistryError::InvalidInput,
            },
    {
        match check_write(caller, cid) {
            Ok(event) => {
                let account_id = event.account_id.clone();
                let cid = event.cid.clone();
                self.personas.insert(account_id, cid);
                Ok(event)
            },
            Err(error) => Err(error),
        }
    }

    /// The persona of `account_id`, or `None` where it has none.
    pub fn get_persona(&self, account_id: AccountId) -> (persona: Option<CID>)
        ensures
            match persona {
                Some(cid) => lookup(self@, account_id@) == Some(cid@),
                None => lookup(self@, account_id@) is None,
            },
    {
        match self.personas.get(account_id.as_str()) {
            Some(cid) => Some(cid.clone()),
            None => None,
        }
    }
}

impl Default for AgentRegistry {
    fn default() -> (registry: Self)
        ensures
            registry@ == Records::empty(),
    {
        AgentRegistry::new()
    }
}

} // verus!
