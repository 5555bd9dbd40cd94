//! Merge request discussions: the latest discussion a user started, and which
//! note an update writes to.

use vstd::prelude::*;

use crate::args::{mr_reference_text, GitLabMrReference};

verus! {

/// The kind of a note.
#[derive(Debug, Clone, Copy, PartialEq, Eq, Structural)]
pub enum NoteType {
    Null,
    DiscussionNote,
    DiffNote,
}

impl Default for NoteType {
    fn default() -> (r: Self)
        ensures
            r == NoteType::Null,
    {
        NoteType::Null
    }
}

impl From<Option<NoteType>> for NoteType {
    fn from(value: Option<NoteType>) -> (r: Self) {
        match value {
            Some(t) => t,
            None => NoteType::Null,
        }
    }
}

impl vstd::std_specs::convert::FromSpecImpl<Option<NoteType>> for NoteType {
    open spec fn obeys_from_spec() -> bool {
        true
    }

    open spec fn from_spec(value: Option<NoteType>) -> NoteType {
        match value {
            Some(t) => t,
            None => NoteType::Null,
        }
    }
}

/// What a note is attached to.
#[derive(Debug, Clone, Copy, PartialEq, Eq, Structural)]
pub enum NoteableType {
    Issue,
    MergeRequest,
}

/// The author of a note.
#[derive(Debug, Clone)]
pub struct NoteAuthor {
    pub id: u64,
    pub name: String,
    pub username: String,
}

/// A point in time (UTC): whole seconds since the Unix epoch and the
/// nanoseconds after them (at least 10^9 during a leap second).
#[derive(Debug, Clone, Copy, PartialEq, Eq, Structural)]
pub struct NoteTime {
    pub seconds: i64,
    pub nanos: u32,
}

/// `a` is not later than `b`.
pub open spec fn time_le(a: NoteTime, b: NoteTime) -> bool {
    a.seconds < b.seconds || (a.seconds == b.seconds && a.nanos <= b.nanos)
}

/// Whether `a` is not later than `b`.
pub fn note_time_le(a: NoteTime, b: NoteTime) -> (r: bool)
    ensures
        r == time_le(a, b),
{
    a.seconds < b.seconds || (a.seconds == b.seconds && a.nanos <= b.nanos)
}

/// A note of a discussion.
#[derive(Debug, Clone)]
pub struct Note {
    pub id: u64,
    pub type_: Option<NoteType>,
    pub body: String,
    pub author: NoteAuthor,
    pub created_at: NoteTime,
    pub system: bool,
    pub noteable_id: u64,
    pub noteable_type: NoteableType,
}

/// A discussion on a merge request: a thread of notes.
#[derive(Debug, Clone)]
pub struct Discussion {
    pub id: String,
    pub individual_note: bool,
    pub notes: Vec<Note>,
}

/// `d` was started by `user`: its first note is theirs and not a system note.
pub open spec fn started_by(d: Discussion, user: u64) -> bool {
    d.notes@.len() > 0 && d.notes@[0].author.id == user && !d.notes@[0].system
}

/// When `d` was started: the time of its first note.
pub open spec fn started_at(d: Discussion) -> NoteTime {
    d.notes@[0].created_at
}

/// Among the first `bound` discussions, the one at `k` was started by `user`,
/// no discussion of `user` was started later, and every later-listed one of
/// theirs was started strictly earlier.
pub open spec fn is_latest_started_by_below(ds: Seq<Discussion>, user: u64, k: int, bound: int) -> bool {
    &&& 0 <= k < bound <= ds.len()
    &&& started_by(ds[k], user)
    &&& forall|j: int|
        0 <= j < bound && started_by(#[trigger] ds[j], user) ==> time_le(started_at(ds[j]), started_at(ds[k]))
    &&& forall|j: int|
        k < j < bound && started_by(#[trigger] ds[j], user) ==> !time_le(started_at(ds[k]), started_at(ds[j]))
}

/// The discussion at `k` is the latest one that `user` started.
pub open spec fn is_latest_started_by(ds: Seq<Discussion>, user: u64, k: int) -> bool {
    is_latest_started_by_below(ds, user, k, ds.len() as int)
}

/// `user` started none of `ds`.
pub open spec fn none_started_by(ds: Seq<Discussion>, user: u64) -> bool {
    forall|j: int| 0 <= j < ds.len() ==> !started_by(#[trigger] ds[j], user)
}

/// The latest discussion that `user` started, ordered by the time of its first
/// note; of several started at the same time, the last one listed.
pub fn latest_discussion_by_user(discussions: Vec<Discussion>, user: u64) -> (r: Option<Discussion>)
    ensures
        r is None <==> none_started_by(discussions@, user),
        r matches Some(d) ==> exists|k: int| is_latest_started_by(discussions@, user, k) && d == discussions@[k],
        r is None <==> forall|j: int|
            0 <= j < discussions@.len() ==> !((#[trigger] discussions@[j]).notes@.len() > 0
                && discussions@[j].notes@[0].author.id == user && !discussions@[j].notes@[0].system),
        r matches Some(d) ==> {
            &&& d.notes@.len() > 0
            &&& d.notes@[0].author.id == user
            &&& !d.notes@[0].system
            &&& forall|j: int|
                0 <= j < discussions@.len() && (#[trigger] discussions@[j]).notes@.len() > 0
                    && discussions@[j].notes@[0].author.id == user && !discussions@[j].notes@[0].system
                    ==> time_le(discussions@[j].notes@[0].created_at, d.notes@[0].created_at)
        },
{
    let n = discussions.len();
    let mut best: Option<usize> = None;
    let mut i: usize = 0;
    while i < n
        invariant
            n == discussions@.len(),
            i <= n,
            best is None ==> forall|j: int| 0 <= j < i ==> !started_by(#[trigger] discussions@[j], user),
            best matches Some(b) ==> is_latest_started_by_below(discussions@, user, b as int, i as int),
        decreases n - i,
    {
        let d = &discussions[i];
        let candidate = d.notes.len() > 0 && d.notes[0].author.id == user && !d.notes[0].system;
        if candidate {
            match best {
                None => {
                    best = Some(i);
                },
                Some(b) => {
                    if note_time_le(discussions[b].notes[0].created_at, d.notes[0].created_at) {
                        best = Some(i);
                    }
                },
            }
        }
        i = i + 1;
    }
    match best {
        None => None,
        Some(b) => {
            let mut v = discussions;
            Some(v.remove(b))
        },
    }
}

/// Whether a discussion counts as started by a user depends on its first note
/// alone: its author is the user and it is not a system note. Whether the
/// discussion is an individual note (a plain comment) or a thread, and its id,
/// do not matter.
pub proof fn lemma_started_by_first_note(d: Discussion, user: u64, individual_note: bool, id: String)
    ensures
        started_by(d, user) <==> (d.notes@.len() > 0 && d.notes@[0].author.id == user && !d.notes@[0].system),
        started_by(d, user) == started_by(Discussion { individual_note, id, ..d }, user),
{
}

/// `time_le` orders start times chronologically: by the second, then by the
/// nanosecond; it is total, reflexive and antisymmetric.
pub proof fn lemma_time_le_total(a: NoteTime, b: NoteTime)
    ensures
        time_le(a, b) || time_le(b, a),
        time_le(a, b) && time_le(b, a) ==> a == b,
        a.seconds < b.seconds ==> time_le(a, b) && !time_le(b, a),
        a.seconds == b.seconds && a.nanos < b.nanos ==> time_le(a, b) && !time_le(b, a),
        time_le(a, a),
{
}

/// The latest discussion of a user is determined by the list: no two positions qualify.
pub proof fn lemma_latest_started_by_unique(ds: Seq<Discussion>, user: u64, k1: int, k2: int)
    requires
        is_latest_started_by(ds, user, k1),
        is_latest_started_by(ds, user, k2),
    ensures
        k1 == k2,
{
}

/// Why no note of the latest discussion can be changed.
#[derive(Debug, Clone, Copy, PartialEq, Eq, Structural)]
pub enum LatestNoteError {
    /// The user started no discussion on the merge request.
    NoDiscussion,
    /// The discussion holds no note.
    EmptyDiscussion,
}

/// The message shown when the user started no discussion on `mr`.
pub fn no_discussion_message(mr: &GitLabMrReference) -> (r: String)
    ensures
        r@ == "You didn't open a discussion for merge request "@ + mr_reference_text(mr@),
{
    let mut s = "You didn't open a discussion for merge request ".to_owned();
    let t = mr.to_text();
    s.append(t.as_str());
    s
}

/// The message shown for a discussion without notes.
pub fn empty_discussion_message() -> (r: &'static str)
    ensures
        r@ == "Internal Error, empty discussion?"@,
{
    "Internal Error, empty discussion?"
}

/// The note that an update of the latest discussion changes: the first one.
pub open spec fn note_to_update_spec(discussion: Option<Discussion>) -> Result<u64, LatestNoteError> {
    match discussion {
        None => Err(LatestNoteError::NoDiscussion),
        Some(d) => if d.notes@.len() == 0 {
            Err(LatestNoteError::EmptyDiscussion)
        } else {
            Ok(d.notes@[0].id)
        },
    }
}

/// The id of the note that updating the latest discussion changes.
pub fn note_to_update(discussion: Option<&Discussion>) -> (r: Result<u64, LatestNoteError>)
    ensures
        r == note_to_update_spec(match discussion {
            Some(d) => Some(*d),
            None => None,
        }),
{
    match discussion {
        None => Err(LatestNoteError::NoDiscussion),
        Some(d) => {
            if d.notes.len() == 0 {
                Err(LatestNoteError::EmptyDiscussion)
            } else {
                Ok(d.notes[0].id)
            }
        },
    }
}

/// What setting the latest discussion does.
#[derive(Debug, Clone, Copy, PartialEq, Eq, Structural)]
pub enum PutAction {
    /// Change the text of this note.
    ModifyNote(u64),
    /// Open a new discussion.
    CreateDiscussion,
}

/// Setting the latest discussion changes its first note, or opens a new
/// discussion where the user has none.
pub open spec fn put_action_spec(discussion: Option<Discussion>) -> Result<PutAction, LatestNoteError> {
    match discussion {
        None => Ok(PutAction::CreateDiscussion),
        Some(d) => if d.notes@.len() == 0 {
            Err(LatestNoteError::EmptyDiscussion)
        } else {
            Ok(PutAction::ModifyNote(d.notes@[0].id))
        },
    }
}

/// Decides what setting the latest discussion does.
pub fn put_action(discussion: Option<&Discussion>) -> (r: Result<PutAction, LatestNoteError>)
    ensures
        r == put_action_spec(match discussion {
            Some(d) => Some(*d),
            None => None,
        }),
{
    match discussion {
        None => Ok(PutAction::CreateDiscussion),
        Some(d) => {
            if d.notes.len() == 0 {
                Err(LatestNoteError::EmptyDiscussion)
            } else {
                Ok(PutAction::ModifyNote(d.notes[0].id))
            }
        },
    }
}

/// The latest discussion a user started always has a first note, and that is
/// the note an update or a put changes.
pub proof fn lemma_latest_discussion_note(ds: Seq<Discussion>, user: u64, k: int)
    requires
        is_latest_started_by(ds, user, k),
    ensures
        note_to_update_spec(Some(ds[k])) == Ok::<u64, LatestNoteError>(ds[k].notes@[0].id),
        put_action_spec(Some(ds[k])) == Ok::<PutAction, LatestNoteError>(PutAction::ModifyNote(ds[k].notes@[0].id)),
        ds[k].notes@[0].author.id == user,
{
}

} // verus!
