//! What holds of the handlers, whatever the store and the request: each law
//! is proved from the contracts of the handlers alone.

use vstd::prelude::*;
use cosmwasm_std::StdError;
use crate::contract::{
    created, deleted, executed, found, gate, initialized, instantiated, listed, may_create,
    may_execute,
    page_size, updated,
};
use crate::error::ContractError;
use crate::msg::{EntryResponse, ExecuteMsg, ListResponse, Response};
use crate::scan::{
    is_page, lemma_page_is_start_of_walk, lemma_table_is_finite, page, read, row_of,
};
use crate::state::{EntryView, PatchView, Priority, Status};
use crate::storage::{not_found, Snapshot};

verus! {

/// Whether the table has no id.
pub open spec fn table_empty(state: Snapshot) -> bool {
    forall|id: u64| !state.table.contains_key(id)
}

/// Whether `id` is the largest id of the table.
pub open spec fn newest(state: Snapshot, id: u64) -> bool {
    &&& state.table.contains_key(id)
    &&& forall|other: u64| state.table.contains_key(other) ==> other <= id
}

/// Whether no id of the table lies beyond the counter. Setting up an empty
/// table makes this so, and every change to the list keeps it so.
pub open spec fn ids_within_counter(state: Snapshot) -> bool {
    &&& state.sequence is Some
    &&& forall|id: u64| state.table.contains_key(id) ==> id <= state.sequence->0
}

/// After setting up a list that had not been set up, the owner chosen passes
/// the owner check, everyone else is turned away, and the counter is at zero.
pub proof fn lemma_instantiate_installs_owner(
    before: Snapshot,
    after: Snapshot,
    owner: Seq<char>,
    outcome: Result<Response, ContractError>,
    caller: Seq<char>,
    check: Result<(), ContractError>,
)
    requires
        !initialized(before),
        instantiated(before, after, owner, outcome),
        gate(after, caller, check),
    ensures
        outcome is Ok,
        initialized(after),
        after.owner == Some(owner),
        after.sequence == Some(0u64),
        after.table == before.table,
        caller == owner ==> check is Ok,
        caller != owner ==> check matches Err(ContractError::Unauthorized {}),
{
}

/// A list is set up once. Setting up a list that has been set up fails and
/// changes nothing: the owner is not replaced, the counter is not put back,
/// and the table is as it was.
pub proof fn lemma_instantiate_only_once(
    before: Snapshot,
    after: Snapshot,
    owner: Seq<char>,
    outcome: Result<Response, ContractError>,
)
    requires
        initialized(before),
        instantiated(before, after, owner, outcome),
    ensures
        outcome matches Err(ContractError::AlreadyInitialized {}),
        after == before,
{
}

/// A list that has been set up stays set up, whatever is done to it: so
/// after the first setting up every other one fails.
pub proof fn lemma_set_up_stays_set_up(
    before: Snapshot,
    after: Snapshot,
    sender: Seq<char>,
    msg: ExecuteMsg,
    outcome: Result<Response, ContractError>,
)
    requires
        initialized(before),
        executed(before, after, sender, msg, outcome),
    ensures
        initialized(after),
{
}

/// Whoever is not the owner changes nothing: each of the three changes fails
/// with `Unauthorized`, and the owner, the counter and the table are as they
/// were.
pub proof fn lemma_stranger_changes_nothing(
    before: Snapshot,
    after: Snapshot,
    owner: Seq<char>,
    sender: Seq<char>,
    msg: ExecuteMsg,
    outcome: Result<Response, ContractError>,
)
    requires
        before.owner == Some(owner),
        sender != owner,
        executed(before, after, sender, msg, outcome),
    ensures
        outcome matches Err(ContractError::Unauthorized {}),
        after == before,
{
}

/// A handler that fails leaves the store as it was.
pub proof fn lemma_failure_changes_nothing(
    before: Snapshot,
    after: Snapshot,
    sender: Seq<char>,
    msg: ExecuteMsg,
    outcome: Result<Response, ContractError>,
)
    requires
        executed(before, after, sender, msg, outcome),
        outcome is Err,
    ensures
        after == before,
{
}

/// No change to the list touches the owner or the registration, and the
/// counter moves only when an entry is created, then by exactly one and never
/// back.
pub proof fn lemma_owner_stays_and_counter_counts(
    before: Snapshot,
    after: Snapshot,
    sender: Seq<char>,
    msg: ExecuteMsg,
    outcome: Result<Response, ContractError>,
)
    requires
        may_execute(before, sender, msg),
        executed(before, after, sender, msg, outcome),
    ensures
        after.owner == before.owner,
        after.registered == before.registered,
        match outcome {
            Ok(Response::EntryCreated { id }) => {
                &&& before.sequence is Some
                &&& id == before.sequence->0 + 1
                &&& after.sequence == Some(id)
            },
            _ => after.sequence == before.sequence,
        },
{
}

/// A create by the owner returns the counter's next value, moves the counter
/// there and keeps under the new id an entry that is still to do, with the
/// description given and with the priority given, or `Unspecified` where none
/// is given. Every other id keeps what it had.
pub proof fn lemma_create_adds_fresh_entry(
    before: Snapshot,
    after: Snapshot,
    sender: Seq<char>,
    description: Seq<char>,
    priority: Option<Priority>,
    outcome: Result<Response, ContractError>,
    counter: u64,
)
    requires
        before.owner == Some(sender),
        before.sequence == Some(counter),
        may_create(before, sender),
        created(before, after, sender, description, priority, outcome),
    ensures
        outcome matches Ok(Response::EntryCreated { id }) && id == counter + 1,
        after.sequence == Some((counter + 1) as u64),
        after.owner == before.owner,
        after.entry((counter + 1) as u64) == Some(
            EntryView {
                id: (counter + 1) as u64,
                description,
                status: Status::ToDo,
                priority: match priority {
                    Some(p) => p,
                    None => Priority::Unspecified,
                },
            },
        ),
        forall|other: u64|
            other != counter + 1 ==> after.table.contains_key(other) == before.table.contains_key(
                other,
            ) && after.table[other] == before.table[other],
{
}

/// While the counter stands at the newest id of the table, a create by the
/// owner returns the newest id plus one; while the table is empty and the
/// counter stands at zero, it returns one. Afterwards the counter stands at
/// the newest id again.
///
/// The counter stands elsewhere once the newest entry has been deleted: the
/// id that a create returns then still follows the counter, not the table.
pub proof fn lemma_create_follows_newest(
    before: Snapshot,
    after: Snapshot,
    sender: Seq<char>,
    description: Seq<char>,
    priority: Option<Priority>,
    outcome: Result<Response, ContractError>,
    counter: u64,
)
    requires
        before.owner == Some(sender),
        before.sequence == Some(counter),
        may_create(before, sender),
        newest(before, counter) || (table_empty(before) && counter == 0),
        created(before, after, sender, description, priority, outcome),
    ensures
        outcome matches Ok(Response::EntryCreated { id }) && newest(after, id) && after.sequence
            == Some(id) && (if table_empty(before) {
            id == 1
        } else {
            id >= 1 && newest(before, (id - 1) as u64)
        }),
{
}

/// While no id of the table lies beyond the counter, the id that a create
/// returns is one that the table did not have; and no change to the list
/// moves an id of the table beyond the counter.
pub proof fn lemma_ids_stay_within_counter(
    before: Snapshot,
    after: Snapshot,
    sender: Seq<char>,
    msg: ExecuteMsg,
    outcome: Result<Response, ContractError>,
)
    requires
        ids_within_counter(before),
        may_execute(before, sender, msg),
        executed(before, after, sender, msg, outcome),
    ensures
        ids_within_counter(after),
        after.sequence->0 >= before.sequence->0,
        outcome matches Ok(Response::EntryCreated { id }) ==> !before.table.contains_key(id)
            && after.sequence == Some(id),
{
}

/// An update by the owner of an entry that can be read succeeds, and
/// afterwards the entry has, field by field, what the patch gives, or what
/// it had where the patch gives nothing. The id, the owner, the counter and
/// every other entry are as they were.
pub proof fn lemma_update_changes_given_fields(
    before: Snapshot,
    after: Snapshot,
    sender: Seq<char>,
    id: u64,
    patch: PatchView,
    outcome: Result<Response, ContractError>,
    entry: EntryView,
)
    requires
        before.owner == Some(sender),
        before.entry(id) == Some(entry),
        updated(before, after, sender, id, patch, outcome),
    ensures
        outcome matches Ok(Response::EntryUpdated { id: kept }) && kept == id,
        after.entry(id) == Some(entry.patched(patch)),
        entry.patched(patch) == (EntryView {
            id,
            description: match patch.description {
                Some(text) => text,
                None => entry.description,
            },
            status: match patch.status {
                Some(status) => status,
                None => entry.status,
            },
            priority: match patch.priority {
                Some(priority) => priority,
                None => entry.priority,
            },
        }),
        after.owner == before.owner,
        after.sequence == before.sequence,
        forall|other: u64|
            other != id ==> after.table.contains_key(other) == before.table.contains_key(other)
                && after.table[other] == before.table[other],
{
}

/// The same update twice is the same update once: the second one succeeds
/// and leaves the store as the first one left it.
pub proof fn lemma_update_is_idempotent(
    before: Snapshot,
    once: Snapshot,
    twice: Snapshot,
    sender: Seq<char>,
    id: u64,
    patch: PatchView,
    first: Result<Response, ContractError>,
    second: Result<Response, ContractError>,
)
    requires
        before.owner == Some(sender),
        updated(before, once, sender, id, patch, first),
        updated(once, twice, sender, id, patch, second),
        first is Ok,
    ensures
        second is Ok,
        twice == once,
{
    // the first update left the patched entry under the id, and patching it
    // again gives the same entry: the second update writes what is there
    let patched = before.entry(id)->0.patched(patch);
    assert(once.table.insert(id, Some(patched.record())) =~= once.table);
}

/// An update of an id that the table does not have fails with "not found"
/// and changes nothing.
pub proof fn lemma_update_of_unknown_id(
    before: Snapshot,
    after: Snapshot,
    sender: Seq<char>,
    id: u64,
    patch: PatchView,
    outcome: Result<Response, ContractError>,
)
    requires
        before.owner == Some(sender),
        !before.table.contains_key(id),
        updated(before, after, sender, id, patch, outcome),
    ensures
        outcome matches Err(error) && error.is_not_found(),
        after == before,
{
}

/// After a delete by the owner the table has nothing under the id, so a
/// query for it fails with "not found". Every other id keeps what it had, and
/// the counter does not move.
pub proof fn lemma_delete_then_query(
    before: Snapshot,
    after: Snapshot,
    sender: Seq<char>,
    id: u64,
    outcome: Result<Response, ContractError>,
    answer: Result<EntryResponse, StdError>,
)
    requires
        before.owner == Some(sender),
        deleted(before, after, sender, id, outcome),
        found(after, id, answer),
    ensures
        outcome matches Ok(Response::EntryDeleted { id: gone }) && gone == id,
        !after.table.contains_key(id),
        answer matches Err(error) && not_found(error),
        after.sequence == before.sequence,
        after.owner == before.owner,
        forall|other: u64|
            other != id ==> after.table.contains_key(other) == before.table.contains_key(other)
                && after.table[other] == before.table[other],
{
}

/// A delete of an id that the table has leaves the table with one id fewer;
/// a create that returns an id that the table did not have leaves it with
/// one id more; an update, and a request that fails, leave it with as many
/// ids as it had.
pub proof fn lemma_table_grows_and_shrinks_by_one(
    before: Snapshot,
    after: Snapshot,
    sender: Seq<char>,
    msg: ExecuteMsg,
    outcome: Result<Response, ContractError>,
)
    requires
        executed(before, after, sender, msg, outcome),
    ensures
        before.table.dom().finite(),
        after.table.dom().finite(),
        outcome matches Ok(Response::EntryDeleted { id }) && before.table.contains_key(id)
            ==> after.table.dom().len() == before.table.dom().len() - 1,
        outcome matches Ok(Response::EntryCreated { id }) && !before.table.contains_key(id)
            ==> after.table.dom().len() == before.table.dom().len() + 1,
        outcome matches Ok(Response::EntryUpdated { id }) ==> after.table.dom().len()
            == before.table.dom().len(),
        outcome is Err ==> after.table.dom().len() == before.table.dom().len(),
{
    lemma_table_is_finite(before.table);
    lemma_table_is_finite(after.table);
    match outcome {
        Ok(Response::EntryCreated { id }) => {
            assert(after.table.dom() =~= before.table.dom().insert(id));
        },
        Ok(Response::EntryUpdated { id }) => {
            assert(after.table.dom() =~= before.table.dom().insert(id));
        },
        Ok(Response::EntryDeleted { id }) => {
            assert(after.table.dom() =~= before.table.dom().remove(id));
        },
        _ => {},
    }
}

/// A delete by the owner of an id that the table does not have succeeds and
/// changes nothing.
pub proof fn lemma_delete_of_unknown_id(
    before: Snapshot,
    after: Snapshot,
    sender: Seq<char>,
    id: u64,
    outcome: Result<Response, ContractError>,
)
    requires
        before.owner == Some(sender),
        !before.table.contains_key(id),
        deleted(before, after, sender, id, outcome),
    ensures
        outcome is Ok,
        after == before,
{
    assert(before.table.remove(id) =~= before.table);
}

/// A page holds ten entries at most where no limit is asked for, the number
/// asked for where that is thirty or less, and thirty where more is asked
/// for.
pub proof fn lemma_page_size(limit: Option<u32>)
    ensures
        page_size(None) == 10,
        limit matches Some(n) ==> page_size(limit) == (if n > 30 {
            30
        } else {
            n as int
        }),
        page_size(limit) <= 30,
{
}

/// A list query succeeds where every key of the table is an id and every row
/// of the page can be read.
pub proof fn lemma_list_succeeds(
    state: Snapshot,
    after: Option<u64>,
    limit: Option<u32>,
    outcome: Result<ListResponse, StdError>,
)
    requires
        !state.stray,
        forall|i: int|
            0 <= i < page(state.table, after, page_size(limit)).len() ==> read(
                #[trigger] page(state.table, after, page_size(limit))[i],
            ) is Some,
        listed(state, after, limit, outcome),
    ensures
        outcome is Ok,
{
}

/// What a list query returns is the page: row by row, the entries returned
/// stand for the first rows of the walk behind the cursor, as many as the
/// limit allows. So there are no more of them than the limit allows, each is
/// the entry that the table keeps under its id, their ids lie behind the
/// cursor and rise strictly, and an id of the table behind the cursor that is
/// not returned lies behind all of a full page.
pub proof fn lemma_list_is_the_page(
    state: Snapshot,
    after: Option<u64>,
    limit: Option<u32>,
    list: ListResponse,
)
    requires
        listed(state, after, limit, Ok(list)),
    ensures
        list@.map_values(|entry: EntryView| row_of(entry)) == page(
            state.table,
            after,
            page_size(limit),
        ),
        is_page(
            list@.map_values(|entry: EntryView| row_of(entry)),
            state.table,
            after,
            page_size(limit),
        ),
        forall|i: int|
            0 <= i < list@.len() ==> state.entry((#[trigger] list@[i]).id) == Some(list@[i]),
{
    let wanted = page(state.table, after, page_size(limit));
    let rows = list@.map_values(|entry: EntryView| row_of(entry));
    lemma_page_is_start_of_walk(state.table, after, page_size(limit));
    // a row that can be read is the row of the entry read from it
    assert forall|i: int| 0 <= i < wanted.len() implies rows[i] == wanted[i] && state.entry(
        (#[trigger] list@[i]).id,
    ) == Some(list@[i]) by {}
}

} // verus!
