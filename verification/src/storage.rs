//! The store: the handles that reach it, the model of what it holds, and the
//! calls that read and write it.
//!
//! The store is a key-value store that the host of the contract provides. The
//! owner and the counter are each kept under a key of their own, as a string
//! and as a number; the entries are kept in a table whose keys are the ids,
//! so that walking the table's keys in order walks the ids in order. Under an
//! id the table keeps a description, a status code and a priority code.
//!
//! Everything in this file that has a contract and no proof is a statement
//! about `cosmwasm_std`, `cw_storage_plus` or `cw2`. The handlers build on
//! these statements and on nothing else.
//!
//! The store may hold anything: it is not this library alone that can write
//! to it. So the model says what the handlers find where a key holds what
//! they did not write, and the statements below hold of such a store too.

use vstd::prelude::*;
use cosmwasm_std::{Deps, DepsMut, Order, StdError, StdResult};
use cw_storage_plus::{Bound, Item};
use crate::state::{successor, EntryView, Row, Table};
use crate::scan::is_scan;

verus! {

/// `cosmwasm_std::StdError`, the error of every storage call. It is carried
/// through unread.
#[verifier::external_type_specification]
#[verifier::external_body]
pub struct ExStdError(StdError);

/// A handle that may read and write the store. It holds the
/// `cosmwasm_std::DepsMut` that the host hands to a handler. The field is
/// public so that a caller can make the handle with a struct literal; the
/// library reaches into it only in the calls below.
#[verifier::external_body]
pub struct Store<'a> {
    pub deps: DepsMut<'a>,
}

/// A handle that may only read the store. It holds the `cosmwasm_std::Deps`
/// that the host hands to a query, and is made like a `Store`.
#[verifier::external_body]
pub struct StoreRef<'a> {
    pub deps: Deps<'a>,
}

/// A walk over the entry table that is under way. It holds the iterator that
/// `cw_storage_plus::Map::range` returns.
#[verifier::external_body]
pub struct Cursor<'a> {
    items: Box<dyn Iterator<Item = StdResult<(u64, (String, u8, u8))>> + 'a>,
}

/// What a store holds, as far as the handlers are concerned.
pub ghost struct Snapshot {
    /// The name and the version under which the contract is registered.
    /// `None` while none can be read from where `cw2` keeps them.
    pub registered: Option<(Seq<char>, Seq<char>)>,
    /// The owner kept under the configuration key. `None` while no owner can
    /// be read from there.
    pub owner: Option<Seq<char>>,
    /// The counter kept under the sequence key. `None` while no counter can
    /// be read from there.
    pub sequence: Option<u64>,
    /// The entry table: every id that has a key in the table, with the record
    /// kept under it, or with `None` where what is kept under it is no record.
    pub table: Table,
    /// Whether the table holds a key that is no id. A walk fails where it
    /// meets such a key.
    pub stray: bool,
}

impl Snapshot {
    /// The entry kept under `id`: `None` where the table has no key for `id`,
    /// where what it keeps there is no record, or where a code of the record
    /// stands for nothing.
    pub open spec fn entry(self, id: u64) -> Option<EntryView> {
        if self.table.contains_key(id) {
            match self.table[id] {
                Some(record) => EntryView::of_record(id, record),
                None => None,
            }
        } else {
            None
        }
    }

    /// This state with `entry` kept under its id.
    pub open spec fn with_entry(self, entry: EntryView) -> Snapshot {
        Snapshot { table: self.table.insert(entry.id, Some(entry.record())), ..self }
    }

    /// This state with nothing kept under `id`.
    pub open spec fn without_entry(self, id: u64) -> Snapshot {
        Snapshot { table: self.table.remove(id), ..self }
    }
}

/// What the store behind a read-write handle holds.
pub uninterp spec fn snapshot(store: Store) -> Snapshot;

/// What the store behind a read-only handle holds.
pub uninterp spec fn snapshot_seen(store: StoreRef) -> Snapshot;

/// The rows that a walk has still to hand out, in order: each id with its
/// record, or with `None` where what the table keeps under the id is no
/// record. A key that is no id has no row.
pub uninterp spec fn pending(cursor: Cursor) -> Seq<Row>;

/// Whether a walk has still to pass a key that is no id.
pub uninterp spec fn stumbles(cursor: Cursor) -> bool;

/// Whether a storage error says that nothing is kept under the key asked for.
pub uninterp spec fn not_found(error: StdError) -> bool;

/// What a storage error says of itself in words.
pub uninterp spec fn error_text(error: StdError) -> Seq<char>;

/// Whether the host behind the handle takes `human` for an address.
pub uninterp spec fn address_valid(store: Store, human: Seq<char>) -> bool;

impl<'a> View for Store<'a> {
    type V = Snapshot;

    open spec fn view(&self) -> Snapshot {
        snapshot(*self)
    }
}

impl<'a> View for StoreRef<'a> {
    type V = Snapshot;

    open spec fn view(&self) -> Snapshot {
        snapshot_seen(*self)
    }
}

/// The key of the owner.
const CONFIG_KEY: &'static str = "config";

/// The key of the counter.
const SEQUENCE_KEY: &'static str = "entry_seq";

/// The namespace of the entry table.
const TABLE_KEY: &'static str = "list";

/// `DepsMut::as_ref`: a read-only handle on the same store. It holds what the
/// read-write handle holds.
#[verifier::external_body]
pub(crate) fn reader<'a, 'b>(store: &'b Store<'a>) -> (seen: StoreRef<'b>)
    ensures
        snapshot_seen(seen) == snapshot(*store),
{
    StoreRef { deps: store.deps.as_ref() }
}

/// `Api::addr_validate`: the host's check of an address. Its documentation
/// says that the same input always gets the same answer and that the address
/// returned holds the input as it is.
#[verifier::external_body]
pub(crate) fn validate_address(
    store: &Store,
    human: &String,
) -> (checked: Result<String, StdError>)
    ensures
        checked is Ok <==> address_valid(*store, human@),
        checked matches Ok(address) ==> address@ == human@,
{
    store.deps.api.addr_validate(human.as_str()).map(|address| address.into_string())
}

/// `cw2::set_contract_version`: writes the contract's name and version under
/// a key of `cw2`'s own, `contract_info`. That key is none of the keys
/// below, so nothing else changes; and what the host takes for an address
/// does not depend on what the store holds. The two strings always
/// serialize, so the call does not fail.
#[verifier::external_body]
pub(crate) fn register_contract(
    store: &mut Store,
    name: &str,
    version: &str,
) -> (done: Result<(), StdError>)
    ensures
        done is Ok,
        snapshot(*final(store)) == (Snapshot {
            registered: Some((name@, version@)),
            ..snapshot(*old(store))
        }),
        forall|human: Seq<char>|
            address_valid(*final(store), human) == #[trigger] address_valid(*old(store), human),
{
    cw2::set_contract_version(store.deps.storage, name, version)
}

/// `Item::load` on the owner's key: the owner, or an error where the key is
/// absent or does not hold a string.
#[verifier::external_body]
pub(crate) fn owner_load(store: &StoreRef) -> (loaded: Result<String, StdError>)
    ensures
        match loaded {
            Ok(owner) => snapshot_seen(*store).owner == Some(owner@),
            Err(_) => snapshot_seen(*store).owner is None,
        },
{
    Item::<String>::new(CONFIG_KEY).load(store.deps.storage)
}

/// `Item::save` on the owner's key: the key then holds `owner`, and nothing
/// else changes. A string always serializes, so the call does not fail.
#[verifier::external_body]
pub(crate) fn owner_save(store: &mut Store, owner: &String) -> (done: Result<(), StdError>)
    ensures
        done is Ok,
        snapshot(*final(store)) == (Snapshot { owner: Some(owner@), ..snapshot(*old(store)) }),
{
    Item::<String>::new(CONFIG_KEY).save(store.deps.storage, owner)
}

/// `Item::load` on the counter's key: the counter, or an error where the key
/// is absent or does not hold a number.
#[verifier::external_body]
pub(crate) fn sequence_load(store: &StoreRef) -> (loaded: Result<u64, StdError>)
    ensures
        match loaded {
            Ok(value) => snapshot_seen(*store).sequence == Some(value),
            Err(_) => snapshot_seen(*store).sequence is None,
        },
{
    Item::<u64>::new(SEQUENCE_KEY).load(store.deps.storage)
}

/// `Item::save` on the counter's key: the key then holds `value`, and nothing
/// else changes. A number always serializes, so the call does not fail.
#[verifier::external_body]
pub(crate) fn sequence_save(store: &mut Store, value: u64) -> (done: Result<(), StdError>)
    ensures
        done is Ok,
        snapshot(*final(store)) == (Snapshot { sequence: Some(value), ..snapshot(*old(store)) }),
{
    Item::<u64>::new(SEQUENCE_KEY).save(store.deps.storage, &value)
}

/// `Item::update` on the counter's key, with `successor` as the action: loads
/// the counter, writes its successor back and returns it. Where no counter
/// can be loaded the call fails and writes nothing. `successor` must not be
/// asked for what follows the largest number, so a counter that has reached
/// it is left out.
#[verifier::external_body]
pub(crate) fn sequence_advance(store: &mut Store) -> (advanced: Result<u64, StdError>)
    requires
        snapshot(*old(store)).sequence != Some(u64::MAX),
    ensures
        match advanced {
            Ok(id) => {
                &&& snapshot(*old(store)).sequence is Some
                &&& id == snapshot(*old(store)).sequence->0 + 1
                &&& snapshot(*final(store)) == (Snapshot {
                    sequence: Some(id),
                    ..snapshot(*old(store))
                })
            },
            Err(_) => {
                &&& snapshot(*old(store)).sequence is None
                &&& snapshot(*final(store)) == snapshot(*old(store))
            },
        },
{
    let counter = Item::<u64>::new(SEQUENCE_KEY);
    counter.update(store.deps.storage, |id| -> StdResult<u64> { Ok(successor(id)) })
}

/// `Map::load` on the entry table: the record kept under `id`. The error says
/// "not found" exactly where the table has no key for `id`; any other error
/// means that the key is there and what it holds is no record.
#[verifier::external_body]
pub(crate) fn entry_load(
    store: &StoreRef,
    id: u64,
) -> (loaded: Result<(String, u8, u8), StdError>)
    ensures
        match loaded {
            Ok(record) => {
                &&& snapshot_seen(*store).table.contains_key(id)
                &&& snapshot_seen(*store).table[id] == Some((record.0@, record.1, record.2))
            },
            Err(error) => if not_found(error) {
                !snapshot_seen(*store).table.contains_key(id)
            } else {
                &&& snapshot_seen(*store).table.contains_key(id)
                &&& snapshot_seen(*store).table[id] is None
            },
        },
{
    let table: cw_storage_plus::Map<u64, (String, u8, u8)> = cw_storage_plus::Map::new(TABLE_KEY);
    table.load(store.deps.storage, id)
}

/// `Map::save` on the entry table: the table then keeps the record under
/// `id`, and nothing else changes. A string and two numbers always serialize,
/// so the call does not fail.
#[verifier::external_body]
pub(crate) fn entry_save(
    store: &mut Store,
    id: u64,
    description: &String,
    status: u8,
    priority: u8,
) -> (done: Result<(), StdError>)
    ensures
        done is Ok,
        snapshot(*final(store)) == (Snapshot {
            table: snapshot(*old(store)).table.insert(id, Some((description@, status, priority))),
            ..snapshot(*old(store))
        }),
{
    let table: cw_storage_plus::Map<u64, (String, u8, u8)> = cw_storage_plus::Map::new(TABLE_KEY);
    table.save(store.deps.storage, id, &(description.clone(), status, priority))
}

/// `Map::remove` on the entry table: the table then has no key for `id`, and
/// nothing else changes. Removing a key that is not there changes nothing.
#[verifier::external_body]
pub(crate) fn entry_remove(store: &mut Store, id: u64)
    ensures
        snapshot(*final(store)) == (Snapshot {
            table: snapshot(*old(store)).table.remove(id),
            ..snapshot(*old(store))
        }),
{
    let table: cw_storage_plus::Map<u64, (String, u8, u8)> = cw_storage_plus::Map::new(TABLE_KEY);
    table.remove(store.deps.storage, id)
}

/// `Map::range` on the entry table, in ascending order, from just behind
/// `after` or from the start. The ids are kept as big-endian keys, so the
/// store's key order is the order of the ids: the rows that the walk hands
/// out are the table behind the cursor, id by id. On its way the walk passes
/// the keys that are no ids, if the table holds any.
#[verifier::external_body]
pub(crate) fn entry_range<'a>(store: &StoreRef<'a>, after: Option<u64>) -> (cursor: Cursor<'a>)
    ensures
        is_scan(pending(cursor), snapshot_seen(*store).table, after),
        stumbles(cursor) ==> snapshot_seen(*store).stray,
{
    let table: cw_storage_plus::Map<u64, (String, u8, u8)> = cw_storage_plus::Map::new(TABLE_KEY);
    let behind = after.map(Bound::exclusive);
    Cursor { items: table.range(store.deps.storage, behind, None, Order::Ascending) }
}

/// `Iterator::next` on the walk. It hands out the next row and moves past
/// it, or ends where no key is left. It fails where the next key is no id,
/// and where what the next row holds is no record; such an error never says
/// "not found".
#[verifier::external_body]
pub(crate) fn cursor_next(
    cursor: &mut Cursor,
) -> (next: Option<Result<(u64, (String, u8, u8)), StdError>>)
    ensures
        match next {
            None => pending(*old(cursor)).len() == 0,
            Some(Ok((id, record))) => {
                &&& pending(*old(cursor)).len() > 0
                &&& pending(*old(cursor))[0] == (id, Some((record.0@, record.1, record.2)))
                &&& pending(*final(cursor)) == pending(*old(cursor)).skip(1)
                &&& stumbles(*final(cursor)) ==> stumbles(*old(cursor))
            },
            Some(Err(error)) => {
                &&& !not_found(error)
                &&& {
                    ||| stumbles(*old(cursor))
                    ||| pending(*old(cursor)).len() > 0 && pending(*old(cursor))[0].1 is None
                }
            },
        },
{
    cursor.items.next()
}

/// `StdError::parse_err`: the error for a record that cannot be read as the
/// type named. It does not say "not found".
#[verifier::external_body]
pub(crate) fn unreadable(target: &str, reason: &str) -> (error: StdError)
    ensures
        !not_found(error),
{
    StdError::parse_err(target, reason)
}

/// The test for the variant `StdError::NotFound`: whether the error says that
/// nothing is kept under the key asked for.
#[verifier::external_body]
pub(crate) fn says_not_found(error: &StdError) -> (missing: bool)
    ensures
        missing == not_found(*error),
{
    matches!(error, StdError::NotFound { .. })
}

/// `ToString::to_string` on a storage error: the error in words, as its
/// `Display` writes them. The words depend on the error alone.
#[verifier::external_body]
pub(crate) fn error_to_string(error: &StdError) -> (text: String)
    ensures
        text@ == error_text(*error),
{
    error.to_string()
}

} // verus!
