//! The event of a successful write, and the log line that carries it to
//! indexers.

use vstd::prelude::*;
use vstd::string::StringExecFns;

use crate::account::AccountId;
use crate::cid::CID;
use crate::json::{json_text, to_json_text};

verus! {

/// Tells that `account_id` now points at `cid`. One is made for every write
/// that was accepted and none for a write that was refused. The registry
/// does not keep it.
#[derive(Clone, Debug, PartialEq, Eq)]
pub struct PersonaSetEvent {
    pub account_id: AccountId,
    pub cid: CID,
}

/// What an event says, as plain text.
pub struct PersonaSetEventView {
    pub account_id: Seq<char>,
    pub cid: Seq<char>,
}

impl View for PersonaSetEvent {
    type V = PersonaSetEventView;

    open spec fn view(&self) -> PersonaSetEventView {
        PersonaSetEventView { account_id: self.account_id@, cid: self.cid@ }
    }
}

/// The JSON object of an event, given the JSON texts of its two fields: the
/// field `account_id`, then the field `cid`, and no other.
pub open spec fn event_json(account_json: Seq<char>, cid_json: Seq<char>) -> Seq<char> {
    "{\"account_id\":"@ + account_json + ",\"cid\":"@ + cid_json + "}"@
}

/// The log line of an event, given the JSON texts of its two fields: the tag
/// by which indexers find event records, then the JSON object.
pub open spec fn event_log_line(account_json: Seq<char>, cid_json: Seq<char>) -> Seq<char> {
    "EVENT_JSON:"@ + event_json(account_json, cid_json)
}

impl PersonaSetEventView {
    /// The log line of this event, where both fields can be written as JSON.
    pub open spec fn log_line(self) -> Option<Seq<char>> {
        match (json_text(self.account_id), json_text(self.cid)) {
            (Some(account_json), Some(cid_json)) => Some(event_log_line(account_json, cid_json)),
            _ => None,
        }
    }
}

/// Frames the log line of an event from the JSON texts of its two fields.
pub fn frame_log_line(account_json: &str, cid_json: &str) -> (line: String)
    ensures
        line@ == event_log_line(account_json@, cid_json@),
{
    let mut object = String::from_str("{\"account_id\":");
    object.append(account_json);
    object.append(",\"cid\":");
    object.append(cid_json);
    object.append("}");
    let mut line = String::from_str("EVENT_JSON:");
    line.append(object.as_str());
    line
}

impl PersonaSetEvent {
    /// The line to put into the host's log for this event, or `None` where
    /// one of the two fields could not be written as JSON.
    pub fn to_log_line(&self) -> (line: Option<String>)
        ensures
            match line {
                Some(text) => self@.log_line() == Some(text@),
                None => self@.log_line() is None,
            },
    {
        match to_json_text(self.account_id.as_str()) {
            Ok(account_json) => match to_json_text(self.cid.as_str()) {
                Ok(cid_json) => Some(frame_log_line(account_json.as_str(), cid_json.as_str())),
                Err(_) => None,
            },
            Err(_) => None,
        }
    }
}

} // verus!
