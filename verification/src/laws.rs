//! What holds of every registry, stated over the records and proved.
//!
//! A registry starts without records and changes by `set_persona` alone,
//! whose contract says that the records go from `records` to
//! `apply_write(records, caller, cid)`. So what is proved here of
//! [`apply_write`](crate::registry::apply_write),
//! [`lookup`](crate::registry::lookup) and [`replay`] holds of every
//! registry, whatever calls it has seen.

use vstd::prelude::*;

use crate::cid::{is_white_space, lemma_valid_cid_iff_visible, valid_cid};
use crate::event::PersonaSetEventView;
use crate::registry::{accepted, apply_write, lookup, Records};

verus! {

/// One call of `set_persona`: who called, and with which identifier.
pub struct WriteAttempt {
    pub caller: Seq<char>,
    pub cid: Seq<char>,
}

/// The records of a registry that started without any and then received
/// the calls of `history`, one after the other.
pub open spec fn replay(history: Seq<WriteAttempt>) -> Records
    decreases history.len(),
{
    if history.len() == 0 {
        Records::empty()
    } else {
        apply_write(replay(history.drop_last()), history.last().caller, history.last().cid)
    }
}

/// The identifier of the latest call of `history` that `account_id` made and
/// that was accepted, if there is one.
pub open spec fn last_accepted(history: Seq<WriteAttempt>, account_id: Seq<char>) -> Option<
    Seq<char>,
>
    decreases history.len(),
{
    if history.len() == 0 {
        None
    } else if history.last().caller == account_id && valid_cid(history.last().cid) {
        Some(history.last().cid)
    } else {
        last_accepted(history.drop_last(), account_id)
    }
}

/// Read after write: once `caller` has written a valid `cid`, a reader of
/// `caller` is told `cid`.
pub proof fn law_read_after_write(records: Records, caller: Seq<char>, cid: Seq<char>)
    requires
        valid_cid(cid),
    ensures
        lookup(apply_write(records, caller, cid), caller) == Some(cid),
{
}

/// Overwrite: of two writes by one caller the later one stands, where it was
/// accepted, whatever the earlier one was.
pub proof fn law_overwrite(records: Records, caller: Seq<char>, first: Seq<char>, second: Seq<char>)
    requires
        valid_cid(second),
    ensures
        lookup(apply_write(apply_write(records, caller, first), caller, second), caller) == Some(
            second,
        ),
        first != second ==> lookup(
            apply_write(apply_write(records, caller, first), caller, second),
            caller,
        ) != Some(first),
{
}

/// Isolation: what `account_id` wrote is still there after a write by
/// another caller.
pub proof fn law_isolation(
    records: Records,
    account_id: Seq<char>,
    cid: Seq<char>,
    other: Seq<char>,
    other_cid: Seq<char>,
)
    requires
        valid_cid(cid),
        other != account_id,
    ensures
        lookup(
            apply_write(apply_write(records, account_id, cid), other, other_cid),
            account_id,
        ) == Some(cid),
{
}

/// Write ownership: a write touches no record but the caller's own.
pub proof fn law_write_ownership(
    records: Records,
    caller: Seq<char>,
    cid: Seq<char>,
    account_id: Seq<char>,
)
    requires
        account_id != caller,
    ensures
        lookup(apply_write(records, caller, cid), account_id) == lookup(records, account_id),
{
}

/// Rejection: a write with an identifier that is not valid emits no event
/// and leaves the records as they were.
pub proof fn law_rejected_write_changes_nothing(
    records: Records,
    caller: Seq<char>,
    cid: Seq<char>,
)
    requires
        !valid_cid(cid),
    ensures
        accepted(caller, cid) is None,
        apply_write(records, caller, cid) == records,
{
}

/// An identifier that holds nothing but white space, the empty one among
/// them, is not valid.
pub proof fn law_blank_is_not_valid(cid: Seq<char>)
    requires
        forall|i: int| 0 <= i < cid.len() ==> is_white_space(#[trigger] cid[i]),
    ensures
        !valid_cid(cid),
{
    lemma_valid_cid_iff_visible(cid);
}

/// An identifier with a character that is not white space is valid.
pub proof fn law_visible_is_valid(cid: Seq<char>, i: int)
    requires
        0 <= i < cid.len(),
        !is_white_space(cid[i]),
    ensures
        valid_cid(cid),
{
    lemma_valid_cid_iff_visible(cid);
}

/// Event correctness: an accepted write has the one event that names the
/// caller and the identifier; a refused write has none.
pub proof fn law_event_matches_write(caller: Seq<char>, cid: Seq<char>)
    ensures
        valid_cid(cid) ==> accepted(caller, cid) == Some(
            PersonaSetEventView { account_id: caller, cid },
        ),
        !valid_cid(cid) ==> accepted(caller, cid) is None,
{
}

/// A write said twice leaves the records as the first one left them.
pub proof fn law_same_write_twice(records: Records, caller: Seq<char>, cid: Seq<char>)
    ensures
        apply_write(apply_write(records, caller, cid), caller, cid) == apply_write(
            records,
            caller,
            cid,
        ),
{
    assert(apply_write(apply_write(records, caller, cid), caller, cid) =~= apply_write(
        records,
        caller,
        cid,
    ));
}

/// Visibility: after any calls, a reader of `account_id` is told the
/// identifier of the latest accepted write that `account_id` made.
pub proof fn law_lookup_is_last_accepted(history: Seq<WriteAttempt>, account_id: Seq<char>)
    ensures
        lookup(replay(history), account_id) == last_accepted(history, account_id),
    decreases history.len(),
{
    if history.len() > 0 {
        law_lookup_is_last_accepted(history.drop_last(), account_id);
    }
}

/// Absence: an account that made no accepted write has no persona.
pub proof fn law_absent_without_write(history: Seq<WriteAttempt>, account_id: Seq<char>)
    requires
        forall|i: int|
            0 <= i < history.len() ==> !((#[trigger] history[i]).caller == account_id && valid_cid(
                history[i].cid,
            )),
    ensures
        lookup(replay(history), account_id) is None,
    decreases history.len(),
{
    if history.len() > 0 {
        let earlier = history.drop_last();
        law_absent_without_write(earlier, account_id);
    }
}

} // verus!
