//! The handlers: what a caller may ask of the list, and what each request
//! does to the store.
//!
//! A handler that writes first checks that the caller is the owner. Where it
//! fails, for whatever reason, the store is as it was.

use vstd::prelude::*;
use cosmwasm_std::StdError;
use crate::error::ContractError;
use crate::msg::{
    EntryResponse, ExecuteMsg, InstantiateMsg, ListResponse, MessageInfo, QueryMsg, QueryResponse,
    Response,
};
use crate::scan::{lemma_scan_found, lemma_unreadable_in_page, page, read, scan};
use crate::state::{Entry, EntryPatch, EntryView, PatchView, Priority, Status};
use crate::storage::{
    address_valid, cursor_next, entry_load, entry_range, entry_remove, entry_save, not_found,
    owner_load, owner_save, pending, reader, register_contract, sequence_advance, sequence_load,
    sequence_save, stumbles, unreadable, validate_address, Snapshot, Store, StoreRef,
};

verus! {

/// The most entries that one page holds.
pub const MAX_LIMIT: u32 = 30;

/// The number of entries in a page where the caller asks for no number.
pub const DEFAULT_LIMIT: u32 = 10;

/// The name under which the contract is registered.
pub const CONTRACT_NAME: &'static str = "crates.io:cargo-generated-contract";

/// The version under which the contract is registered.
pub const CONTRACT_VERSION: &'static str = "0.1.0";

/// What the owner check answers for a state and a caller: success for the
/// owner, `Unauthorized` for anyone else, and the store's own error while no
/// owner can be read.
pub open spec fn gate(
    state: Snapshot,
    sender: Seq<char>,
    outcome: Result<(), ContractError>,
) -> bool {
    match state.owner {
        Some(owner) => if owner == sender {
            outcome is Ok
        } else {
            outcome matches Err(ContractError::Unauthorized {})
        },
        None => outcome matches Err(ContractError::Std(_)),
    }
}

/// What a handler that writes answers to a caller who does not pass the owner
/// check: the error of the check, and a store that is as it was.
pub open spec fn refused(
    before: Snapshot,
    after: Snapshot,
    outcome: Result<Response, ContractError>,
) -> bool {
    &&& after == before
    &&& match before.owner {
        Some(_) => outcome matches Err(ContractError::Unauthorized {}),
        None => outcome matches Err(ContractError::Std(_)),
    }
}

/// Checks that the caller is the owner of the list.
pub fn authorize(store: &StoreRef, info: &MessageInfo) -> (outcome: Result<(), ContractError>)
    ensures
        gate(store@, info.sender@, outcome),
{
    match owner_load(store) {
        Ok(owner) => {
            if info.sender == owner {
                Ok(())
            } else {
                Err(ContractError::Unauthorized {})
            }
        },
        Err(error) => Err(ContractError::Std(error)),
    }
}

/// The owner that setting up chooses: the address proposed, where there is
/// one and the host takes it for an address, and the caller otherwise.
pub open spec fn chosen_owner(
    sender: Seq<char>,
    proposed: Option<Seq<char>>,
    valid: bool,
) -> Seq<char> {
    match proposed {
        Some(address) => if valid {
            address
        } else {
            sender
        },
        None => sender,
    }
}

/// Picks the owner from the caller and from what the host made of the address
/// proposed.
pub fn choose_owner(sender: String, checked: Option<String>) -> (owner: String)
    ensures
        owner@ == (match checked {
            Some(address) => address@,
            None => sender@,
        }),
{
    match checked {
        Some(address) => address,
        None => sender,
    }
}

/// Whether the list has been set up: an owner or a counter can be read from
/// the store.
pub open spec fn initialized(state: Snapshot) -> bool {
    state.owner is Some || state.sequence is Some
}

/// What setting up does. A list that has been set up is not set up again:
/// the call fails and the store is as it was. Otherwise the contract is
/// registered, the owner is the one chosen, the counter is at zero, and the
/// table is as it was.
pub open spec fn instantiated(
    before: Snapshot,
    after: Snapshot,
    owner: Seq<char>,
    outcome: Result<Response, ContractError>,
) -> bool {
    if initialized(before) {
        &&& outcome matches Err(ContractError::AlreadyInitialized {})
        &&& after == before
    } else {
        &&& outcome matches Ok(Response::Instantiated { owner: named })
        &&& named@ == owner
        &&& after == (Snapshot {
            registered: Some((CONTRACT_NAME@, CONTRACT_VERSION@)),
            owner: Some(owner),
            sequence: Some(0),
            ..before
        })
    }
}

/// Whether the list has been set up.
pub fn is_initialized(store: &StoreRef) -> (set_up: bool)
    ensures
        set_up == initialized(store@),
{
    let has_owner = match owner_load(store) {
        Ok(_) => true,
        Err(_) => false,
    };
    let has_counter = match sequence_load(store) {
        Ok(_) => true,
        Err(_) => false,
    };
    has_owner || has_counter
}

/// Sets the list up, once: registers the contract, records the owner and puts
/// the counter at zero. The owner is never replaced and the counter never put
/// back: on a list that has been set up the call fails and changes nothing.
pub fn instantiate(
    store: &mut Store,
    info: MessageInfo,
    msg: InstantiateMsg,
) -> (outcome: Result<Response, ContractError>)
    ensures
        instantiated(
            old(store)@,
            final(store)@,
            chosen_owner(
                info.sender@,
                match msg.owner {
                    Some(address) => Some(address@),
                    None => None,
                },
                msg.owner matches Some(address) && address_valid(*old(store), address@),
            ),
            outcome,
        ),
{
    let seen = reader(store);
    if is_initialized(&seen) {
        return Err(ContractError::AlreadyInitialized {});
    }
    match register_contract(store, CONTRACT_NAME, CONTRACT_VERSION) {
        Ok(()) => {},
        Err(error) => {
            return Err(ContractError::Std(error));
        },
    }
    let checked = match msg.owner {
        Some(address) => validate_address(store, &address).ok(),
        None => None,
    };
    let owner = choose_owner(info.sender, checked);
    match owner_save(store, &owner) {
        Ok(()) => {},
        Err(error) => {
            return Err(ContractError::Std(error));
        },
    }
    match sequence_save(store, 0) {
        Ok(()) => {},
        Err(error) => {
            return Err(ContractError::Std(error));
        },
    }
    Ok(Response::Instantiated { owner })
}

/// What a create does. A caller who does not pass the owner check is turned
/// away. For the owner the counter moves by one, the new id is the counter's
/// new value, and the table keeps a fresh entry under it.
pub open spec fn created(
    before: Snapshot,
    after: Snapshot,
    sender: Seq<char>,
    description: Seq<char>,
    priority: Option<Priority>,
    outcome: Result<Response, ContractError>,
) -> bool {
    if before.owner != Some(sender) {
        refused(before, after, outcome)
    } else {
        match before.sequence {
            Some(counter) => {
                let id = (counter + 1) as u64;
                &&& outcome matches Ok(Response::EntryCreated { id: made })
                &&& made == id
                &&& after == (Snapshot { sequence: Some(id), ..before }).with_entry(
                    EntryView::fresh(id, description, priority),
                )
            },
            None => outcome matches Err(ContractError::Std(_)) && after == before,
        }
    }
}

/// Whether the caller may ask for a new entry: anyone may whom the owner
/// check turns away, and the owner may while the counter has not reached the
/// largest id.
pub open spec fn may_create(state: Snapshot, sender: Seq<char>) -> bool {
    state.owner == Some(sender) ==> state.sequence != Some(u64::MAX)
}

/// Whether the counter has reached the largest id, so that no entry can be
/// added any more.
pub fn sequence_exhausted(store: &StoreRef) -> (exhausted: bool)
    ensures
        exhausted == (store@.sequence == Some(u64::MAX)),
{
    match sequence_load(store) {
        Ok(counter) => counter == u64::MAX,
        Err(_) => false,
    }
}

/// Adds an entry to the list and returns its id.
///
/// The counter cannot move past the largest id: the owner must not ask for
/// an entry once `sequence_exhausted` holds. `can_create` tests this.
pub fn execute_create_new_entry(
    store: &mut Store,
    info: MessageInfo,
    description: String,
    priority: Option<Priority>,
) -> (outcome: Result<Response, ContractError>)
    requires
        may_create(old(store)@, info.sender@),
    ensures
        created(old(store)@, final(store)@, info.sender@, description@, priority, outcome),
{
    let seen = reader(store);
    match authorize(&seen, &info) {
        Ok(()) => {},
        Err(error) => {
            return Err(error);
        },
    }
    let id = match sequence_advance(store) {
        Ok(id) => id,
        Err(error) => {
            return Err(ContractError::Std(error));
        },
    };
    let entry = Entry::new(id, description, priority);
    match entry_save(store, id, &entry.description, entry.status.code(), entry.priority.code()) {
        Ok(()) => {},
        Err(error) => {
            return Err(ContractError::Std(error));
        },
    }
    Ok(Response::EntryCreated { id })
}

/// What an update does. A caller who does not pass the owner check is turned
/// away. For the owner, an id that the table does not have is "not found"; an
/// id under which no entry can be read is a failure of the store; and
/// otherwise the table keeps the patched entry under the same id.
pub open spec fn updated(
    before: Snapshot,
    after: Snapshot,
    sender: Seq<char>,
    id: u64,
    patch: PatchView,
    outcome: Result<Response, ContractError>,
) -> bool {
    if before.owner != Some(sender) {
        refused(before, after, outcome)
    } else if !before.table.contains_key(id) {
        &&& outcome matches Err(error)
        &&& error.is_not_found()
        &&& after == before
    } else {
        match before.entry(id) {
            Some(entry) => {
                &&& outcome matches Ok(Response::EntryUpdated { id: kept })
                &&& kept == id
                &&& after == before.with_entry(entry.patched(patch))
            },
            None => {
                &&& outcome matches Err(error)
                &&& error.is_storage_failure()
                &&& after == before
            },
        }
    }
}

/// Replaces the fields of an entry that are given and keeps the others.
pub fn execute_update_entry(
    store: &mut Store,
    info: MessageInfo,
    id: u64,
    description: Option<String>,
    status: Option<Status>,
    priority: Option<Priority>,
) -> (outcome: Result<Response, ContractError>)
    ensures
        updated(
            old(store)@,
            final(store)@,
            info.sender@,
            id,
            (EntryPatch { description, status, priority })@,
            outcome,
        ),
{
    let seen = reader(store);
    match authorize(&seen, &info) {
        Ok(()) => {},
        Err(error) => {
            return Err(error);
        },
    }
    let record = match entry_load(&seen, id) {
        Ok(record) => record,
        Err(error) => {
            return Err(ContractError::Std(error));
        },
    };
    let entry = match Entry::from_record(id, record.0, record.1, record.2) {
        Some(entry) => entry,
        None => {
            return Err(ContractError::Std(unreadable("entry", "unknown status or priority code")));
        },
    };
    let entry = entry.apply(EntryPatch { description, status, priority });
    match entry_save(store, id, &entry.description, entry.status.code(), entry.priority.code()) {
        Ok(()) => {},
        Err(error) => {
            return Err(ContractError::Std(error));
        },
    }
    Ok(Response::EntryUpdated { id })
}

/// What a delete does. A caller who does not pass the owner check is turned
/// away. For the owner the table has nothing under the id afterwards, whether
/// it had before or not.
pub open spec fn deleted(
    before: Snapshot,
    after: Snapshot,
    sender: Seq<char>,
    id: u64,
    outcome: Result<Response, ContractError>,
) -> bool {
    if before.owner != Some(sender) {
        refused(before, after, outcome)
    } else {
        &&& outcome matches Ok(Response::EntryDeleted { id: gone })
        &&& gone == id
        &&& after == before.without_entry(id)
    }
}

/// Removes an entry from the list. An id that is not in the list is no error.
pub fn execute_delete_entry(
    store: &mut Store,
    info: MessageInfo,
    id: u64,
) -> (outcome: Result<Response, ContractError>)
    ensures
        deleted(old(store)@, final(store)@, info.sender@, id, outcome),
{
    let seen = reader(store);
    match authorize(&seen, &info) {
        Ok(()) => {},
        Err(error) => {
            return Err(error);
        },
    }
    entry_remove(store, id);
    Ok(Response::EntryDeleted { id })
}

/// What a change to the list does, request by request.
pub open spec fn executed(
    before: Snapshot,
    after: Snapshot,
    sender: Seq<char>,
    msg: ExecuteMsg,
    outcome: Result<Response, ContractError>,
) -> bool {
    match msg {
        ExecuteMsg::NewEntry { description, priority } => created(
            before,
            after,
            sender,
            description@,
            priority,
            outcome,
        ),
        ExecuteMsg::UpdateEntry { id, description, status, priority } => updated(
            before,
            after,
            sender,
            id,
            (EntryPatch { description, status, priority })@,
            outcome,
        ),
        ExecuteMsg::DeleteEntry { id } => deleted(before, after, sender, id, outcome),
    }
}

/// Whether the caller may make the request: a new entry is subject to
/// `may_create`, the other requests to nothing.
pub open spec fn may_execute(state: Snapshot, sender: Seq<char>, msg: ExecuteMsg) -> bool {
    msg is NewEntry ==> may_create(state, sender)
}

/// Tests whether the caller may ask for a new entry.
pub fn can_create(store: &Store, info: &MessageInfo) -> (allowed: bool)
    ensures
        allowed == may_create(store@, info.sender@),
{
    let seen = reader(store);
    match authorize(&seen, info) {
        Ok(()) => !sequence_exhausted(&seen),
        Err(_) => true,
    }
}

/// Tests whether the caller may make the request.
pub fn can_execute(store: &Store, info: &MessageInfo, msg: &ExecuteMsg) -> (allowed: bool)
    ensures
        allowed == may_execute(store@, info.sender@, *msg),
{
    match msg {
        ExecuteMsg::NewEntry { .. } => can_create(store, info),
        _ => true,
    }
}

/// Carries out a change to the list.
///
/// As for `execute_create_new_entry`, the owner must not ask for a new entry
/// once the counter has reached the largest id. `can_execute` tests this.
pub fn execute(
    store: &mut Store,
    info: MessageInfo,
    msg: ExecuteMsg,
) -> (outcome: Result<Response, ContractError>)
    requires
        may_execute(old(store)@, info.sender@, msg),
    ensures
        executed(old(store)@, final(store)@, info.sender@, msg, outcome),
{
    match msg {
        ExecuteMsg::NewEntry { description, priority } => execute_create_new_entry(
            store,
            info,
            description,
            priority,
        ),
        ExecuteMsg::UpdateEntry { id, description, status, priority } => execute_update_entry(
            store,
            info,
            id,
            description,
            status,
            priority,
        ),
        ExecuteMsg::DeleteEntry { id } => execute_delete_entry(store, info, id),
    }
}

/// What a query for one entry answers: the entry kept under the id; "not
/// found" where the table has no such id; and a failure of the store where no
/// entry can be read from what is kept there.
pub open spec fn found(state: Snapshot, id: u64, outcome: Result<EntryResponse, StdError>) -> bool {
    if !state.table.contains_key(id) {
        outcome matches Err(error) && not_found(error)
    } else {
        match state.entry(id) {
            Some(entry) => outcome matches Ok(response) && response@ == entry,
            None => outcome matches Err(error) && !not_found(error),
        }
    }
}

/// Returns the entry with the given id. Anyone may ask.
pub fn query_entry(store: &StoreRef, id: u64) -> (outcome: Result<EntryResponse, StdError>)
    ensures
        found(store@, id, outcome),
{
    let record = match entry_load(store, id) {
        Ok(record) => record,
        Err(error) => {
            return Err(error);
        },
    };
    match Entry::from_record(id, record.0, record.1, record.2) {
        Some(entry) => Ok(
            EntryResponse {
                id,
                description: entry.description,
                status: entry.status,
                priority: entry.priority,
            },
        ),
        None => Err(unreadable("entry", "unknown status or priority code")),
    }
}

/// The number of entries that a page holds at most: what the caller asks
/// for, `DEFAULT_LIMIT` where the caller asks for nothing, and never more
/// than `MAX_LIMIT`.
pub open spec fn page_size(limit: Option<u32>) -> nat {
    let asked = match limit {
        Some(n) => n,
        None => DEFAULT_LIMIT,
    };
    if asked > MAX_LIMIT {
        MAX_LIMIT as nat
    } else {
        asked as nat
    }
}

/// Works out how many entries a page may hold.
pub fn page_limit(limit: Option<u32>) -> (size: usize)
    ensures
        size == page_size(limit),
        size <= MAX_LIMIT,
{
    let asked = match limit {
        Some(n) => n,
        None => DEFAULT_LIMIT,
    };
    if asked > MAX_LIMIT {
        MAX_LIMIT as usize
    } else {
        asked as usize
    }
}

/// What a list query answers. Where it succeeds, it returns the entries of
/// the page behind the cursor, one for each row and in the same order. It
/// fails only where a row of the page cannot be read or where the table
/// holds a key that is no id, and then with a failure of the store.
pub open spec fn listed(
    state: Snapshot,
    after: Option<u64>,
    limit: Option<u32>,
    outcome: Result<ListResponse, StdError>,
) -> bool {
    let wanted = page(state.table, after, page_size(limit));
    match outcome {
        Ok(list) => {
            &&& list@.len() == wanted.len()
            &&& forall|i: int|
                0 <= i < wanted.len() ==> read(#[trigger] wanted[i]) == Some(list@[i])
        },
        Err(error) => {
            &&& !not_found(error)
            &&& {
                ||| state.stray
                ||| exists|i: int| 0 <= i < wanted.len() && read(#[trigger] wanted[i]) is None
            }
        },
    }
}

/// Returns one page of the list: the entries whose ids lie behind
/// `start_after`, in ascending order of id, and no more of them than the
/// limit allows. Anyone may ask.
pub fn query_list(
    store: &StoreRef,
    start_after: Option<u64>,
    limit: Option<u32>,
) -> (outcome: Result<ListResponse, StdError>)
    ensures
        listed(store@, start_after, limit, outcome),
{
    let size = page_limit(limit);
    let mut cursor = entry_range(store, start_after);
    let ghost walk = pending(cursor);
    proof {
        lemma_scan_found(walk, store@.table, start_after);
    }
    let mut entries: Vec<EntryResponse> = Vec::new();
    while entries.len() < size
        invariant_except_break
            pending(cursor) == walk.skip(entries.len() as int),
            stumbles(cursor) ==> store@.stray,
        invariant
            size == page_size(limit),
            walk == scan(store@.table, start_after),
            entries.len() <= size,
            entries.len() <= walk.len(),
            forall|i: int|
                0 <= i < entries.len() ==> read(#[trigger] walk[i]) == Some(entries[i]@),
        ensures
            entries.len() == size || entries.len() == walk.len(),
        decreases size - entries.len(),
    {
        let ghost at = entries.len() as int;
        match cursor_next(&mut cursor) {
            None => {
                break ;
            },
            Some(Err(error)) => {
                proof {
                    if !store@.stray {
                        lemma_unreadable_in_page(store@.table, start_after, size as nat, at);
                    }
                }
                return Err(error);
            },
            Some(Ok((id, record))) => {
                match Entry::from_record(id, record.0, record.1, record.2) {
                    Some(entry) => {
                        entries.push(EntryResponse::from(entry));
                    },
                    None => {
                        proof {
                            lemma_unreadable_in_page(store@.table, start_after, size as nat, at);
                        }
                        return Err(unreadable("entry", "unknown status or priority code"));
                    },
                }
            },
        }
    }
    Ok(ListResponse { entries })
}

/// What a query answers, question by question.
pub open spec fn queried(
    state: Snapshot,
    msg: QueryMsg,
    outcome: Result<QueryResponse, StdError>,
) -> bool {
    match msg {
        QueryMsg::QueryEntry { id } => match outcome {
            Ok(QueryResponse::Entry(entry)) => found(state, id, Ok(entry)),
            Ok(QueryResponse::List(_)) => false,
            Err(error) => found(state, id, Err(error)),
        },
        QueryMsg::QueryList { start_after, limit } => match outcome {
            Ok(QueryResponse::List(list)) => listed(state, start_after, limit, Ok(list)),
            Ok(QueryResponse::Entry(_)) => false,
            Err(error) => listed(state, start_after, limit, Err(error)),
        },
    }
}

/// Answers a question about the list.
pub fn query(store: &StoreRef, msg: QueryMsg) -> (outcome: Result<QueryResponse, StdError>)
    ensures
        queried(store@, msg, outcome),
{
    match msg {
        QueryMsg::QueryEntry { id } => match query_entry(store, id) {
            Ok(entry) => Ok(QueryResponse::Entry(entry)),
            Err(error) => Err(error),
        },
        QueryMsg::QueryList { start_after, limit } => match query_list(store, start_after, limit) {
            Ok(list) => Ok(QueryResponse::List(list)),
            Err(error) => Err(error),
        },
    }
}

} // verus!
