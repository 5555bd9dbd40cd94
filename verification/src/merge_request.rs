//! GitLab merge requests and the choice of the one that a commit belongs to.

use vstd::prelude::*;

verus! {

/// The state of a merge request as GitLab reports it.
#[derive(Debug, Clone, Copy, PartialEq, Eq, Structural)]
pub enum MergeRequestState {
    Opened,
    Closed,
    Locked,
    Merged,
}

impl MergeRequestState {
    /// Returns `true` if the merge request state is `Locked`.
    pub fn is_locked(&self) -> (r: bool)
        ensures
            r == (*self is Locked),
    {
        matches!(self, Self::Locked)
    }

    /// Returns `true` if the merge request state is `Closed`.
    pub fn is_closed(&self) -> (r: bool)
        ensures
            r == (*self is Closed),
    {
        matches!(self, Self::Closed)
    }
}

/// A merge request as listed by GitLab for a commit.
#[derive(Debug, Clone)]
pub struct MergeRequest {
    pub id: i64,
    pub iid: i64,
    pub project_id: i64,
    pub title: String,
    pub state: MergeRequestState,
}

/// A merge request that a changelog entry may name: neither closed nor locked.
pub open spec fn is_relevant(mr: MergeRequest) -> bool {
    !(mr.state is Closed) && !(mr.state is Locked)
}

/// Among the first `bound` merge requests of `mrs`, the one at `k` is relevant,
/// has the highest `iid` of the relevant ones, and is the last one with that `iid`.
pub open spec fn is_latest_relevant_below(mrs: Seq<MergeRequest>, k: int, bound: int) -> bool {
    &&& 0 <= k < bound <= mrs.len()
    &&& is_relevant(mrs[k])
    &&& forall|j: int| 0 <= j < bound && is_relevant(#[trigger] mrs[j]) ==> mrs[j].iid <= mrs[k].iid
    &&& forall|j: int| k < j < bound && is_relevant(#[trigger] mrs[j]) ==> mrs[j].iid < mrs[k].iid
}

/// The merge request at `k` is the one a commit is attributed to: the relevant
/// merge request of highest `iid`, the last one listed where several share it.
pub open spec fn is_latest_relevant(mrs: Seq<MergeRequest>, k: int) -> bool {
    is_latest_relevant_below(mrs, k, mrs.len() as int)
}

/// No merge request of `mrs` is relevant.
pub open spec fn none_relevant(mrs: Seq<MergeRequest>) -> bool {
    forall|j: int| 0 <= j < mrs.len() ==> !is_relevant(#[trigger] mrs[j])
}

/// Picks the merge request a commit belongs to: closed and locked merge
/// requests are left out, and of the rest the newest (highest `iid`) is taken.
pub fn latest_relevant_merge_request(mrs: Vec<MergeRequest>) -> (r: Option<MergeRequest>)
    ensures
        r is None <==> none_relevant(mrs@),
        r matches Some(m) ==> exists|k: int| is_latest_relevant(mrs@, k) && m == mrs@[k],
{
    let n = mrs.len();
    let mut best: Option<usize> = None;
    let mut i: usize = 0;
    while i < n
        invariant
            n == mrs@.len(),
            i <= n,
            best is None ==> forall|j: int| 0 <= j < i ==> !is_relevant(#[trigger] mrs@[j]),
            best matches Some(b) ==> is_latest_relevant_below(mrs@, b as int, i as int),
        decreases n - i,
    {
        let relevant = !mrs[i].state.is_closed() && !mrs[i].state.is_locked();
        if relevant {
            match best {
                None => {
                    best = Some(i);
                },
                Some(b) => {
                    if mrs[i].iid >= mrs[b].iid {
                        best = Some(i);
                    }
                },
            }
        }
        i = i + 1;
    }
    match best {
        None => None,
        Some(b) => {
            let mut v = mrs;
            let m = v.remove(b);
            Some(m)
        },
    }
}

/// The latest relevant merge request of a list is determined by it: no two
/// positions qualify.
pub proof fn lemma_latest_relevant_unique(mrs: Seq<MergeRequest>, k1: int, k2: int)
    requires
        is_latest_relevant(mrs, k1),
        is_latest_relevant(mrs, k2),
    ensures
        k1 == k2,
{
    if k1 < k2 {
        assert(mrs[k2].iid < mrs[k1].iid);
        assert(mrs[k2].iid >= mrs[k1].iid);
    } else if k2 < k1 {
        assert(mrs[k1].iid < mrs[k2].iid);
        assert(mrs[k1].iid >= mrs[k2].iid);
    }
}

/// The labels among the entries of a `labels` list: the entries that are
/// text, in order.
pub open spec fn text_labels(entries: Seq<Option<String>>) -> Seq<Seq<char>>
    decreases entries.len(),
{
    if entries.len() == 0 {
        Seq::empty()
    } else {
        match entries.last() {
            Some(s) => text_labels(entries.drop_last()).push(s@),
            None => text_labels(entries.drop_last()),
        }
    }
}

/// The number of entries of `entries` that are text.
pub open spec fn count_texts(entries: Seq<Option<String>>) -> nat
    decreases entries.len(),
{
    if entries.len() == 0 {
        0
    } else {
        count_texts(entries.drop_last()) + if entries.last() is Some {
            1nat
        } else {
            0nat
        }
    }
}

/// The labels are exactly the text entries, in order: there is one label per
/// text entry, and the text entry at position `k` is the label at the position
/// given by the number of text entries before it.
pub proof fn lemma_text_labels_complete(entries: Seq<Option<String>>)
    ensures
        text_labels(entries).len() == count_texts(entries),
        forall|k: int|
            0 <= k < entries.len() && entries[k] is Some ==> count_texts(entries.take(k)) < count_texts(entries)
                && text_labels(entries)[count_texts(#[trigger] entries.take(k)) as int]
                == entries[k]->0@,
    decreases entries.len(),
{
    if entries.len() > 0 {
        let rest = entries.drop_last();
        let n = entries.len() - 1;
        lemma_text_labels_complete(rest);
        assert forall|k: int|
            0 <= k < entries.len() && entries[k] is Some implies count_texts(entries.take(k)) < count_texts(entries)
                && text_labels(entries)[count_texts(#[trigger] entries.take(k)) as int] == entries[k]->0@ by {
            if k < n {
                assert(entries.take(k) =~= rest.take(k));
                assert(rest[k] == entries[k]);
                assert(count_texts(rest.take(k)) < count_texts(rest));
            } else {
                assert(entries.take(k) =~= rest);
            }
        }
    }
}

/// The view of a list of texts.
pub open spec fn texts(v: Seq<String>) -> Seq<Seq<char>> {
    v.map_values(|s: String| s@)
}

/// The labels of a merge request from its `labels` field: no labels where
/// the field is missing or not a list, otherwise the entries that are text.
pub fn labels_of(entries: Option<Vec<Option<String>>>) -> (r: Vec<String>)
    ensures
        entries is None ==> r@.len() == 0,
        entries matches Some(v) ==> texts(r@) == text_labels(v@),
        entries matches Some(v) ==> r@.len() == count_texts(v@),
        entries matches Some(v) ==> forall|k: int|
            0 <= k < v@.len() && v@[k] is Some ==> r@[count_texts(#[trigger] v@.take(k)) as int]@ == v@[k]->0@,
{
    let mut labels: Vec<String> = Vec::new();
    match entries {
        None => {},
        Some(v) => {
            let n = v.len();
            let mut i: usize = 0;
            while i < n
                invariant
                    n == v@.len(),
                    i <= n,
                    texts(labels@) == text_labels(v@.take(i as int)),
                decreases n - i,
            {
                assert(v@.take(i + 1).drop_last() =~= v@.take(i as int));
                match &v[i] {
                    Some(s) => {
                        labels.push(s.clone());
                    },
                    None => {},
                }
                assert(texts(labels@) =~= text_labels(v@.take(i + 1)));
                i = i + 1;
            }
            assert(v@.take(n as int) =~= v@);
            proof {
                lemma_text_labels_complete(v@);
                assert forall|k: int| 0 <= k < v@.len() && v@[k] is Some implies labels@[count_texts(#[trigger] v@.take(k)) as int]@ == v@[k]->0@ by {
                    assert(texts(labels@)[count_texts(v@.take(k)) as int] == labels@[count_texts(v@.take(k)) as int]@);
                }
            }
        },
    }
    labels
}

} // verus!
