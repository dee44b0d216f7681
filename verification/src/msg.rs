//! What the handlers take and what they hand back.

use vstd::prelude::*;
use vstd::std_specs::convert::FromSpecImpl;
use crate::state::{Entry, EntryView, Priority, Status};

verus! {

/// Who calls a handler.
#[derive(Clone, Debug, PartialEq, Eq)]
pub struct MessageInfo {
    pub sender: String,
}

/// Sets the list up. The owner is the address given here if the host takes it
/// for one, and the caller otherwise.
#[derive(Clone, Debug, PartialEq, Eq)]
pub struct InstantiateMsg {
    pub owner: Option<String>,
}

/// A change to the list.
#[allow(inconsistent_fields)]
#[derive(Clone, Debug, PartialEq, Eq)]
pub enum ExecuteMsg {
    NewEntry { description: String, priority: Option<Priority> },
    UpdateEntry {
        id: u64,
        description: Option<String>,
        status: Option<Status>,
        priority: Option<Priority>,
    },
    DeleteEntry { id: u64 },
}

/// A question about the list.
#[derive(Clone, Debug, PartialEq, Eq)]
pub enum QueryMsg {
    QueryEntry { id: u64 },
    QueryList { start_after: Option<u64>, limit: Option<u32> },
}

/// One entry, as a query returns it.
#[derive(Clone, Debug, PartialEq, Eq)]
pub struct EntryResponse {
    pub id: u64,
    pub description: String,
    pub status: Status,
    pub priority: Priority,
}

/// One page of the list, in ascending order of id.
#[derive(Clone, Debug, PartialEq, Eq)]
pub struct ListResponse {
    pub entries: Vec<EntryResponse>,
}

/// What a handler that writes has done.
#[derive(Clone, Debug, PartialEq, Eq)]
pub enum Response {
    Instantiated { owner: String },
    EntryCreated { id: u64 },
    EntryUpdated { id: u64 },
    EntryDeleted { id: u64 },
}

/// The answer to a query.
#[derive(Clone, Debug, PartialEq, Eq)]
pub enum QueryResponse {
    Entry(EntryResponse),
    List(ListResponse),
}

impl View for EntryResponse {
    type V = EntryView;

    open spec fn view(&self) -> EntryView {
        EntryView {
            id: self.id,
            description: self.description@,
            status: self.status,
            priority: self.priority,
        }
    }
}

impl View for ListResponse {
    type V = Seq<EntryView>;

    open spec fn view(&self) -> Seq<EntryView> {
        Seq::new(self.entries@.len(), |i: int| self.entries@[i]@)
    }
}

impl From<Entry> for EntryResponse {
    fn from(entry: Entry) -> (response: EntryResponse) {
        EntryResponse {
            id: entry.id,
            description: entry.description,
            status: entry.status,
            priority: entry.priority,
        }
    }
}

impl FromSpecImpl<Entry> for EntryResponse {
    open spec fn obeys_from_spec() -> bool {
        true
    }

    open spec fn from_spec(entry: Entry) -> EntryResponse {
        EntryResponse {
            id: entry.id,
            description: entry.description,
            status: entry.status,
            priority: entry.priority,
        }
    }
}

} // verus!
