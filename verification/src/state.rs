//! The entry, its fields, and the record that stands for it in the table.

use vstd::prelude::*;

verus! {

/// How far the work on an entry has got.
#[derive(Clone, Copy, Debug, PartialEq, Eq, Structural)]
pub enum Status {
    ToDo,
    InProgress,
    Done,
}

/// How urgent an entry is. `Unspecified` is what an entry has when none was
/// asked for.
#[derive(Clone, Copy, Debug, PartialEq, Eq, Structural)]
pub enum Priority {
    Unspecified,
    Low,
    Medium,
    High,
}

impl Status {
    /// The number that stands for this status in a record.
    pub open spec fn code_of(self) -> u8 {
        match self {
            Status::ToDo => 0,
            Status::InProgress => 1,
            Status::Done => 2,
        }
    }

    /// The status that a number stands for, if any.
    pub open spec fn of_code(code: u8) -> Option<Status> {
        if code == 0 {
            Some(Status::ToDo)
        } else if code == 1 {
            Some(Status::InProgress)
        } else if code == 2 {
            Some(Status::Done)
        } else {
            None
        }
    }

    /// The code of this status.
    pub fn code(self) -> (code: u8)
        ensures
            code == self.code_of(),
    {
        match self {
            Status::ToDo => 0,
            Status::InProgress => 1,
            Status::Done => 2,
        }
    }

    /// Reads a status from its code. `None` for a number that is no code.
    pub fn from_code(code: u8) -> (status: Option<Status>)
        ensures
            status == Status::of_code(code),
    {
        if code == 0 {
            Some(Status::ToDo)
        } else if code == 1 {
            Some(Status::InProgress)
        } else if code == 2 {
            Some(Status::Done)
        } else {
            None
        }
    }
}

impl Priority {
    /// The number that stands for this priority in a record.
    pub open spec fn code_of(self) -> u8 {
        match self {
            Priority::Unspecified => 0,
            Priority::Low => 1,
            Priority::Medium => 2,
            Priority::High => 3,
        }
    }

    /// The priority that a number stands for, if any.
    pub open spec fn of_code(code: u8) -> Option<Priority> {
        if code == 0 {
            Some(Priority::Unspecified)
        } else if code == 1 {
            Some(Priority::Low)
        } else if code == 2 {
            Some(Priority::Medium)
        } else if code == 3 {
            Some(Priority::High)
        } else {
            None
        }
    }

    /// The code of this priority.
    pub fn code(self) -> (code: u8)
        ensures
            code == self.code_of(),
    {
        match self {
            Priority::Unspecified => 0,
            Priority::Low => 1,
            Priority::Medium => 2,
            Priority::High => 3,
        }
    }

    /// Reads a priority from its code. `None` for a number that is no code.
    pub fn from_code(code: u8) -> (priority: Option<Priority>)
        ensures
            priority == Priority::of_code(code),
    {
        if code == 0 {
            Some(Priority::Unspecified)
        } else if code == 1 {
            Some(Priority::Low)
        } else if code == 2 {
            Some(Priority::Medium)
        } else if code == 3 {
            Some(Priority::High)
        } else {
            None
        }
    }
}

/// The id that follows `id`: the counter moves by exactly one.
pub fn successor(id: u64) -> (next: u64)
    requires
        id < u64::MAX,
    ensures
        next == id + 1,
{
    id + 1
}

/// What the table keeps under an id: a description, a status code and a
/// priority code.
pub type Record = (Seq<char>, u8, u8);

/// An id of the table with what the table keeps under it: a record, or `None`
/// where what is kept there is no record.
pub type Row = (u64, Option<Record>);

/// The entry table.
pub type Table = Map<u64, Option<Record>>;

/// One task of the list.
#[derive(Clone, Debug, PartialEq, Eq)]
pub struct Entry {
    pub id: u64,
    pub description: String,
    pub status: Status,
    pub priority: Priority,
}

/// An entry as a mathematical value.
pub ghost struct EntryView {
    pub id: u64,
    pub description: Seq<char>,
    pub status: Status,
    pub priority: Priority,
}

/// Which fields of an entry an update replaces. A field that is `None` here
/// is left as it is: a patch can override a field, never clear it.
#[derive(Clone, Debug, PartialEq, Eq)]
pub struct EntryPatch {
    pub description: Option<String>,
    pub status: Option<Status>,
    pub priority: Option<Priority>,
}

/// A patch as a mathematical value.
pub ghost struct PatchView {
    pub description: Option<Seq<char>>,
    pub status: Option<Status>,
    pub priority: Option<Priority>,
}

impl View for Entry {
    type V = EntryView;

    open spec fn view(&self) -> EntryView {
        EntryView {
            id: self.id,
            description: self.description@,
            status: self.status,
            priority: self.priority,
        }
    }
}

impl View for EntryPatch {
    type V = PatchView;

    open spec fn view(&self) -> PatchView {
        PatchView {
            description: match self.description {
                Some(text) => Some(text@),
                None => None,
            },
            status: self.status,
            priority: self.priority,
        }
    }
}

impl EntryView {
    /// The entry that a create makes: nothing done yet, and no priority
    /// unless one is given.
    pub open spec fn fresh(
        id: u64,
        description: Seq<char>,
        priority: Option<Priority>,
    ) -> EntryView {
        EntryView {
            id,
            description,
            status: Status::ToDo,
            priority: match priority {
                Some(p) => p,
                None => Priority::Unspecified,
            },
        }
    }

    /// This entry with every field that the patch names replaced. The id
    /// stays.
    pub open spec fn patched(self, patch: PatchView) -> EntryView {
        EntryView {
            id: self.id,
            description: match patch.description {
                Some(text) => text,
                None => self.description,
            },
            status: match patch.status {
                Some(s) => s,
                None => self.status,
            },
            priority: match patch.priority {
                Some(p) => p,
                None => self.priority,
            },
        }
    }

    /// The record that stands for this entry in the table.
    pub open spec fn record(self) -> Record {
        (self.description, self.status.code_of(), self.priority.code_of())
    }

    /// The entry that a record under `id` stands for, if its codes are known.
    pub open spec fn of_record(id: u64, record: Record) -> Option<EntryView> {
        match (Status::of_code(record.1), Priority::of_code(record.2)) {
            (Some(status), Some(priority)) => Some(
                EntryView { id, description: record.0, status, priority },
            ),
            _ => None,
        }
    }
}

impl Entry {
    /// Makes the entry for a new task.
    pub fn new(id: u64, description: String, priority: Option<Priority>) -> (entry: Entry)
        ensures
            entry@ == EntryView::fresh(id, description@, priority),
    {
        let priority = match priority {
            Some(p) => p,
            None => Priority::Unspecified,
        };
        Entry { id, description, status: Status::ToDo, priority }
    }

    /// Replaces the fields that the patch names and keeps the others.
    pub fn apply(self, patch: EntryPatch) -> (entry: Entry)
        ensures
            entry@ == self@.patched(patch@),
    {
        let description = match patch.description {
            Some(text) => text,
            None => self.description,
        };
        let status = match patch.status {
            Some(s) => s,
            None => self.status,
        };
        let priority = match patch.priority {
            Some(p) => p,
            None => self.priority,
        };
        Entry { id: self.id, description, status, priority }
    }

    /// Reads an entry back from the record kept under `id`. `None` where a
    /// code in the record stands for no status or no priority.
    pub fn from_record(
        id: u64,
        description: String,
        status: u8,
        priority: u8,
    ) -> (entry: Option<Entry>)
        ensures
            match entry {
                Some(e) => EntryView::of_record(id, (description@, status, priority)) == Some(e@),
                None => EntryView::of_record(id, (description@, status, priority)) is None,
            },
    {
        match (Status::from_code(status), Priority::from_code(priority)) {
            (Some(status), Some(priority)) => Some(Entry { id, description, status, priority }),
            _ => None,
        }
    }
}

/// Every status has a code of its own, and the code gives the status back.
pub proof fn lemma_status_code_round_trip(status: Status)
    ensures
        Status::of_code(status.code_of()) == Some(status),
{
}

/// Every priority has a code of its own, and the code gives the priority back.
pub proof fn lemma_priority_code_round_trip(priority: Priority)
    ensures
        Priority::of_code(priority.code_of()) == Some(priority),
{
}

/// The record of an entry, read back under the entry's id, is that entry.
pub proof fn lemma_record_round_trip(entry: EntryView)
    ensures
        EntryView::of_record(entry.id, entry.record()) == Some(entry),
{
}

} // verus!
