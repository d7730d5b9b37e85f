//! A session log: an append-only list of records, each pointing at its
//! parent, with the head naming the newest record of the active branch.
//! Named UI state is stored as records on that branch; the newest record for
//! a name wins.

use vstd::prelude::*;
use crate::text::owned;

verus! {

/// What a session record holds.
#[derive(Clone, Copy, Debug, PartialEq, Eq, Structural)]
pub enum RecordKind {
    User,
    Assistant,
    ToolCall,
    ToolResult,
    UiState,
    Other,
}

/// One block of a message's content.
#[derive(Clone, Debug)]
pub enum ContentBlock {
    Text(String),
    Reasoning(String),
    Image,
    Other,
}

/// The data of a record that the library reads.
#[derive(Clone, Debug)]
pub enum RecordPayload {
    /// A named UI state value, as serialized JSON bytes.
    UiState { name: String, value: Vec<u8> },
    /// A conversation entry: its `text` field, its whole payload as
    /// pretty-printed JSON, and its content blocks.
    Entry { text: String, pretty_json: String, content: Vec<ContentBlock> },
    /// Any other record.
    Other,
}

/// One record of the log.
#[derive(Clone, Debug)]
pub struct SessionRecord {
    pub kind: RecordKind,
    /// The index of the previous record on the same branch.
    pub parent: Option<usize>,
    /// The number of bytes the record takes in the log file; records made in
    /// memory count none.
    pub length: usize,
    pub payload: RecordPayload,
}

/// A session log. Record `i` can only point at an earlier record, so every
/// branch is a finite chain that ends at the first record.
#[derive(Clone, Debug)]
pub struct Session {
    pub records: Vec<SessionRecord>,
    pub head: Option<usize>,
}

/// Whether `rec` is the UI state record of `name` and `value` that a save
/// appends after the record `parent`.
pub open spec fn is_ui_state_record(rec: SessionRecord, parent: Option<usize>, name: Seq<char>, value: Seq<u8>) -> bool {
    &&& rec.kind == RecordKind::UiState
    &&& rec.parent == parent
    &&& rec.length == 0
    &&& rec.payload matches RecordPayload::UiState { name: n, value: v } && n@ == name && v@ == value
}

/// The longest UI state name, in characters.
pub const MAX_UI_STATE_NAME: usize = 64;

/// The largest serialized UI state value, in bytes.
pub const MAX_UI_STATE_VALUE: usize = 16777216;

/// The serialized form of the JSON `null` value.
pub open spec fn null_json() -> Seq<u8> {
    seq![110u8, 117u8, 108u8, 108u8]
}

/// Whether a UI state name uses only ASCII letters, digits, `_` and `-`.
pub open spec fn name_char_ok(c: char) -> bool {
    ('a' <= c <= 'z') || ('A' <= c <= 'Z') || ('0' <= c <= '9') || c == '_' || c == '-'
}

/// Whether a UI state name and value fit their budget.
pub open spec fn ui_state_fits(name: Seq<char>, value: Seq<u8>) -> bool {
    &&& name.len() > 0
    &&& name.len() <= MAX_UI_STATE_NAME
    &&& forall|i: int| 0 <= i < name.len() ==> name_char_ok(#[trigger] name[i])
    &&& value.len() <= MAX_UI_STATE_VALUE
}

/// Whether the record at `i` stores UI state under `name`.
pub open spec fn stores_name(r: SessionRecord, name: Seq<char>) -> bool {
    r.kind == RecordKind::UiState && match r.payload {
        RecordPayload::UiState { name: n, value: _ } => n@ == name,
        _ => false,
    }
}

/// The value bytes of a UI state record.
pub open spec fn stored_value(r: SessionRecord) -> Seq<u8> {
    match r.payload {
        RecordPayload::UiState { name: _, value: v } => v@,
        _ => Seq::empty(),
    }
}

/// The UI state stored under `name` on the branch that ends at `at`: the
/// newest record for the name decides, and a stored `null` reads as nothing.
pub open spec fn ui_state_at(records: Seq<SessionRecord>, at: Option<usize>, name: Seq<char>) -> Option<Seq<u8>>
    decreases
            match at {
                Some(i) => i + 1,
                None => 0,
            },
{
    match at {
        None => None,
        Some(i) => if i < records.len() {
            let r = records[i as int];
            if stores_name(r, name) {
                if stored_value(r) == null_json() {
                    None
                } else {
                    Some(stored_value(r))
                }
            } else {
                match r.parent {
                    Some(p) => if p < i {
                        ui_state_at(records, Some(p), name)
                    } else {
                        None
                    },
                    None => None,
                }
            }
        } else {
            None
        },
    }
}

/// Every record points at an earlier one and the head names a record.
pub open spec fn log_wf(records: Seq<SessionRecord>, head: Option<usize>) -> bool {
    &&& forall|i: int| 0 <= i < records.len() ==> match (#[trigger] records[i]).parent {
        Some(p) => p < i,
        None => true,
    }
    &&& match head {
        Some(h) => h < records.len(),
        None => true,
    }
}

/// Appending a record keeps the state stored at every existing position.
proof fn lemma_ui_state_append(records: Seq<SessionRecord>, r: SessionRecord, at: Option<usize>, name: Seq<char>)
    ensures
        ui_state_at(records.push(r), at, name) == (match at {
            Some(i) => if i < records.len() {
                ui_state_at(records, at, name)
            } else if i == records.len() {
                ui_state_at(records.push(r), at, name)
            } else {
                None
            },
            None => None,
        }),
    decreases
            match at {
                Some(i) => i + 1,
                None => 0,
            },
{
    match at {
        Some(i) => {
            if i < records.len() {
                let rr = records[i as int];
                assert(records.push(r)[i as int] == rr);
                match rr.parent {
                    Some(p) => {
                        if p < i {
                            lemma_ui_state_append(records, r, Some(p), name);
                        }
                    },
                    None => {},
                }
            }
        },
        None => {},
    }
}

/// Appending a record at the head decides each name's UI state as follows:
/// a record that stores the name sets its state (the latest save wins, and a
/// stored `null` clears the entry); any other record leaves the state as it
/// was at the record's parent.
pub proof fn lemma_appended_record_ui_state(records: Seq<SessionRecord>, r: SessionRecord, name: Seq<char>)
    requires
        records.len() <= usize::MAX,
    ensures
        ui_state_at(records.push(r), Some(records.len() as usize), name) == (if stores_name(r, name) {
            if stored_value(r) == null_json() {
                None
            } else {
                Some(stored_value(r))
            }
        } else {
            ui_state_at(records, r.parent, name)
        }),
{
    let i = records.len() as usize;
    assert(records.push(r)[i as int] == r);
    if !stores_name(r, name) {
        match r.parent {
            Some(p) => {
                if p < i {
                    lemma_ui_state_append(records, r, Some(p), name);
                }
            },
            None => {},
        }
    }
}

/// A name that no record stores reads as nothing, wherever the branch ends.
pub proof fn lemma_unsaved_name_reads_nothing(records: Seq<SessionRecord>, at: Option<usize>, name: Seq<char>)
    requires
        forall|i: int| 0 <= i < records.len() ==> !stores_name(#[trigger] records[i], name),
    ensures
        ui_state_at(records, at, name) is None,
    decreases
            match at {
                Some(i) => i + 1,
                None => 0,
            },
{
    match at {
        Some(i) => {
            if i < records.len() {
                assert(!stores_name(records[i as int], name));
                match records[i as int].parent {
                    Some(p) => {
                        if p < i {
                            lemma_unsaved_name_reads_nothing(records, Some(p), name);
                        }
                    },
                    None => {},
                }
            }
        },
        None => {},
    }
}

fn bytes_equal(a: &[u8], b: &[u8]) -> (r: bool)
    ensures
        r == (a@ == b@),
{
    if a.len() != b.len() {
        return false;
    }
    let mut i: usize = 0;
    while i < a.len()
        invariant
            a@.len() == b@.len(),
            0 <= i <= a@.len(),
            forall|j: int| 0 <= j < i ==> a@[j] == b@[j],
        decreases a@.len() - i,
    {
        if a[i] != b[i] {
            return false;
        }
        i = i + 1;
    }
    proof {
        assert(a@ =~= b@);
    }
    true
}

fn str_equal(a: &str, b: &str) -> (r: bool)
    ensures
        r == (a@ == b@),
{
    crate::validation::str_eq(a, b)
}

fn name_fits(name: &str) -> (r: bool)
    ensures
        r == (name@.len() > 0 && name@.len() <= MAX_UI_STATE_NAME && forall|i: int|
            0 <= i < name@.len() ==> name_char_ok(#[trigger] name@[i])),
{
    let chars = crate::text::str_chars(name);
    if chars.len() == 0 || chars.len() > MAX_UI_STATE_NAME {
        return false;
    }
    let mut i: usize = 0;
    while i < chars.len()
        invariant
            chars@ == name@,
            0 <= i <= chars@.len(),
            forall|j: int| 0 <= j < i ==> name_char_ok(#[trigger] chars@[j]),
        decreases chars@.len() - i,
    {
        let c = chars[i];
        let ok = ('a' <= c && c <= 'z') || ('A' <= c && c <= 'Z') || ('0' <= c && c <= '9') || c
            == '_' || c == '-';
        if !ok {
            return false;
        }
        i = i + 1;
    }
    true
}

impl Session {
    /// Whether every record points at an earlier one and the head names a record.
    pub open spec fn wf(&self) -> bool {
        log_wf(self.records@, self.head)
    }

    /// The UI state stored under `name` on the active branch.
    pub open spec fn ui_state(&self, name: Seq<char>) -> Option<Seq<u8>> {
        ui_state_at(self.records@, self.head, name)
    }

    /// An empty log.
    pub fn new() -> (s: Session)
        ensures
            s.wf(),
            s.records@.len() == 0,
            s.head is None,
    {
        Session { records: Vec::new(), head: None }
    }

    /// Append a record to the active branch: its parent is the current head,
    /// and it becomes the head.
    pub fn append(&mut self, kind: RecordKind, payload: RecordPayload, length: usize)
        requires
            old(self).wf(),
            old(self).records@.len() < usize::MAX,
        ensures
            final(self).wf(),
            final(self).records@ == old(self).records@.push(
                SessionRecord { kind, parent: old(self).head, length, payload },
            ),
            final(self).head == Some(old(self).records@.len() as usize),
    {
        let id = self.records.len();
        let record = SessionRecord { kind, parent: self.head, length, payload };
        self.records.push(record);
        self.head = Some(id);
    }

    /// The UI state stored under `name` on the active branch, as serialized
    /// JSON bytes: the newest record for the name decides, and a stored
    /// `null` reads as nothing.
    pub fn load_ui_state(&self, name: &str) -> (r: Option<Vec<u8>>)
        requires
            self.wf(),
        ensures
            match r {
                Some(v) => self.ui_state(name@) == Some(v@),
                None => self.ui_state(name@) is None,
            },
    {
        let mut next = self.head;
        let null_bytes: [u8; 4] = [110, 117, 108, 108];
        proof {
            assert(null_bytes@ =~= null_json());
        }
        while next.is_some()
            invariant
                self.wf(),
                null_bytes@ == null_json(),
                ui_state_at(self.records@, next, name@) == self.ui_state(name@),
                match next {
                    Some(i) => i < self.records@.len(),
                    None => true,
                },
            decreases
                    match next {
                        Some(i) => i + 1,
                        None => 0,
                    },
        {
            let id = next.unwrap();
            let record = &self.records[id];
            proof {
                assert(self.records@[id as int] == *record);
            }
            if record.kind == RecordKind::UiState {
                match &record.payload {
                    RecordPayload::UiState { name: stored, value } => {
                        if str_equal(stored.as_str(), name) {
                            if bytes_equal(value.as_slice(), &null_bytes) {
                                return None;
                            }
                            return Some(value.clone());
                        }
                    },
                    _ => {},
                }
            }
            proof {
                assert(self.records@[id as int].parent == record.parent);
            }
            next = record.parent;
        }
        None
    }

    /// Store `value` (serialized JSON bytes) under `name` as a new record on
    /// the active branch. Names are 1 to 64 ASCII letters, digits, `_` or
    /// `-`; values are at most 16 MiB.
    pub fn save_ui_state(&mut self, name: &str, value: &[u8]) -> (r: Result<(), String>)
        requires
            old(self).wf(),
            old(self).records@.len() < usize::MAX,
        ensures
            final(self).wf(),
            match r {
                Ok(()) => ui_state_fits(name@, value@) && final(self).ui_state(name@) == (if value@
                    == null_json() {
                    None
                } else {
                    Some(value@)
                }) && forall|other: Seq<char>|
                    other != name@ ==> #[trigger] final(self).ui_state(other) == old(self).ui_state(
                        other,
                    ),
                Err(e) => !ui_state_fits(name@, value@) && e@ == "UI state exceeds its budget"@
                    && *final(self) == *old(self),
            },
            r is Ok ==> final(self).records@ == old(self).records@.push(final(self).records@.last())
                && is_ui_state_record(final(self).records@.last(), old(self).head, name@, value@)
                && final(self).head == Some(old(self).records@.len() as usize),
    {
        if !name_fits(name) || value.len() > MAX_UI_STATE_VALUE {
            return Err(owned("UI state exceeds its budget"));
        }
        let ghost before = self.records@;
        let ghost old_head = self.head;
        let id = self.records.len();
        let mut stored: Vec<u8> = Vec::new();
        let mut i: usize = 0;
        while i < value.len()
            invariant
                0 <= i <= value@.len(),
                stored@ == value@.take(i as int),
            decreases value@.len() - i,
        {
            stored.push(value[i]);
            proof {
                assert(value@.take(i as int).push(value@[i as int]) =~= value@.take(i + 1));
            }
            i = i + 1;
        }
        proof {
            assert(value@.take(value@.len() as int) =~= value@);
        }
        let record = SessionRecord {
            kind: RecordKind::UiState,
            parent: self.head,
            length: 0,
            payload: RecordPayload::UiState { name: owned(name), value: stored },
        };
        self.records.push(record);
        self.head = Some(id);
        proof {
            assert(self.records@ == before.push(record));
            assert forall|other: Seq<char>| other != name@ implies #[trigger] self.ui_state(other)
                == ui_state_at(before, old_head, other) by {
                lemma_ui_state_append(before, record, Some(id), other);
                lemma_ui_state_append(before, record, old_head, other);
            }
        }
        Ok(())
    }
}

} // verus!
