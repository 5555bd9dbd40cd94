//! The git-cliff context that the changelog enhancer reads and writes, and the
//! requests it makes to attach merge request information to commits.

use std::collections::BTreeMap;

use serde_json::Value;
use vstd::prelude::*;
use vstd::string::StringSliceAdditionalSpecFns;

use crate::merge_request::{is_latest_relevant, none_relevant, MergeRequest, latest_relevant_merge_request};

verus! {

/// A JSON value of serde_json, carried through unchanged.
#[verifier::external_type_specification]
#[verifier::external_body]
pub struct ExJsonValue(serde_json::Value);

/// The remote (GitLab) information that git-cliff keeps for a commit.
pub struct CliffRemoteContributor {
    pub username: Option<String>,
    pub pr_title: Option<String>,
    pub pr_number: Option<i64>,
    pub pr_labels: Vec<String>,
    pub is_first_time: bool,
    /// Fields of the context that this tool does not read.
    pub values: BTreeMap<String, Value>,
}

/// A commit of the git-cliff context.
pub struct CliffCommit {
    pub id: String,
    pub message: String,
    pub gitlab: CliffRemoteContributor,
    /// Fields of the context that this tool does not read.
    pub values: BTreeMap<String, Value>,
}

/// One release of the git-cliff context.
pub struct CliffVersionContext {
    pub commits: Vec<CliffCommit>,
    /// Fields of the context that this tool does not read.
    pub values: BTreeMap<String, Value>,
}

/// `commit` with the number and title of `mr` recorded as its merge request.
pub open spec fn with_merge_request(commit: CliffCommit, mr: MergeRequest) -> CliffCommit {
    CliffCommit {
        gitlab: CliffRemoteContributor {
            pr_number: Some(mr.iid),
            pr_title: Some(mr.title),
            ..commit.gitlab
        },
        ..commit
    }
}

/// Records `mr` as the merge request of `commit`; nothing else changes.
pub fn attach_merge_request(commit: &mut CliffCommit, mr: &MergeRequest)
    ensures
        *final(commit) == with_merge_request(*old(commit), *mr),
        final(commit).gitlab.pr_number == Some(mr.iid),
        final(commit).gitlab.pr_title == Some(mr.title),
        final(commit).id == old(commit).id,
        final(commit).message == old(commit).message,
        final(commit).values == old(commit).values,
        final(commit).gitlab.username == old(commit).gitlab.username,
        final(commit).gitlab.pr_labels == old(commit).gitlab.pr_labels,
        final(commit).gitlab.is_first_time == old(commit).gitlab.is_first_time,
        final(commit).gitlab.values == old(commit).gitlab.values,
{
    commit.gitlab.pr_number = Some(mr.iid);
    commit.gitlab.pr_title = Some(mr.title.clone());
}

/// Recording a merge request on a commit sets its number to the merge
/// request's `iid` (not its global `id`) and its title to the merge request's
/// title, and keeps every other field of the commit.
pub proof fn lemma_with_merge_request_fields(commit: CliffCommit, mr: MergeRequest)
    ensures
        with_merge_request(commit, mr).gitlab.pr_number == Some(mr.iid),
        with_merge_request(commit, mr).gitlab.pr_title == Some(mr.title),
        with_merge_request(commit, mr).id == commit.id,
        with_merge_request(commit, mr).message == commit.message,
        with_merge_request(commit, mr).values == commit.values,
        with_merge_request(commit, mr).gitlab.username == commit.gitlab.username,
        with_merge_request(commit, mr).gitlab.pr_labels == commit.gitlab.pr_labels,
        with_merge_request(commit, mr).gitlab.is_first_time == commit.gitlab.is_first_time,
        with_merge_request(commit, mr).gitlab.values == commit.gitlab.values,
{
}

/// Records on `commit` the merge request it belongs to among `mrs`, if any is
/// relevant; returns whether one was recorded.
pub fn attach_latest_merge_request(commit: &mut CliffCommit, mrs: Vec<MergeRequest>) -> (attached: bool)
    ensures
        attached == !none_relevant(mrs@),
        !attached ==> *final(commit) == *old(commit),
        attached ==> exists|k: int|
            is_latest_relevant(mrs@, k) && *final(commit) == with_merge_request(*old(commit), mrs@[k]),
        attached ==> exists|k: int|
            0 <= k < mrs@.len() && final(commit).gitlab.pr_number == Some(#[trigger] mrs@[k].iid)
                && final(commit).gitlab.pr_title == Some(mrs@[k].title) && !(mrs@[k].state is Closed)
                && !(mrs@[k].state is Locked) && (forall|j: int|
                0 <= j < mrs@.len() && !(mrs@[j].state is Closed) && !(mrs@[j].state is Locked)
                    ==> mrs@[j].iid <= mrs@[k].iid),
        !attached ==> forall|j: int|
            0 <= j < mrs@.len() ==> (mrs@[j].state is Closed) || (mrs@[j].state is Locked),
{
    match latest_relevant_merge_request(mrs) {
        Some(mr) => {
            attach_merge_request(commit, &mr);
            true
        },
        None => false,
    }
}

/// An HTTP status in the success class (200 to 299).
pub open spec fn is_success_status_spec(status: u16) -> bool {
    200 <= status <= 299
}

/// Whether `status` is in the success class (200 to 299).
pub fn is_success_status(status: u16) -> (r: bool)
    ensures
        r == is_success_status_spec(status),
{
    200 <= status && status <= 299
}

/// What the answer to a request for the merge requests of a commit means.
#[derive(Debug, Clone, Copy, PartialEq, Eq, Structural)]
pub enum CommitLookup {
    /// The body lists the merge requests of the commit.
    Found,
    /// GitLab does not know the commit; it is left as it is.
    CommitNotFound,
    /// The request failed; the body holds GitLab's message.
    Failed,
}

/// Classifies the HTTP status of the answer to a merge request lookup.
pub fn classify_commit_lookup(status: u16) -> (r: CommitLookup)
    ensures
        status == 404 ==> r == CommitLookup::CommitNotFound,
        status != 404 && !is_success_status_spec(status) ==> r == CommitLookup::Failed,
        is_success_status_spec(status) ==> r == CommitLookup::Found,
{
    if status == 404 {
        CommitLookup::CommitNotFound
    } else if !is_success_status(status) {
        CommitLookup::Failed
    } else {
        CommitLookup::Found
    }
}

/// A byte that percent-encoding leaves as it is: ASCII letters, digits, `-`, `.`, `_`, `~`.
pub open spec fn is_unreserved(b: u8) -> bool {
    (48 <= b <= 57) || (65 <= b <= 90) || (97 <= b <= 122) || b == 45 || b == 46 || b == 95
        || b == 126
}

/// The upper-case hexadecimal digit for `d` in `0..16`.
pub open spec fn hex_digit(d: int) -> char {
    if d < 10 {
        (d + '0' as int) as char
    } else {
        (d - 10 + 'A' as int) as char
    }
}

/// Percent-encoding of `bytes`: each unreserved byte stands for itself, every
/// other byte becomes `%` and two upper-case hexadecimal digits.
pub open spec fn percent_encoded(bytes: Seq<u8>) -> Seq<char>
    decreases bytes.len(),
{
    if bytes.len() == 0 {
        Seq::empty()
    } else {
        let b = bytes.last();
        percent_encoded(bytes.drop_last()) + if is_unreserved(b) {
            seq![b as char]
        } else {
            seq!['%', hex_digit((b / 16) as int), hex_digit((b % 16) as int)]
        }
    }
}

/// urlencoding::encode percent-encodes every byte of the UTF-8 text of `s`
/// except ASCII letters, digits, `-`, `_`, `.` and `~`, which it keeps.
#[verifier::external_body]
fn url_encode(s: &str) -> (r: String)
    ensures
        r@ == percent_encoded(s.spec_bytes()),
{
    urlencoding::encode(s).into_owned()
}

/// The repository path as it stands in GitLab API URLs (percent-encoded).
pub fn encode_repository(repo: &str) -> (r: String)
    ensures
        r@ == percent_encoded(repo.spec_bytes()),
{
    url_encode(repo)
}

/// Percent-encoding leaves text made of unreserved bytes as it is.
pub proof fn lemma_unreserved_text_unchanged(bytes: Seq<u8>)
    requires
        forall|i: int| 0 <= i < bytes.len() ==> is_unreserved(#[trigger] bytes[i]),
    ensures
        percent_encoded(bytes) == bytes.map_values(|b: u8| b as char),
    decreases bytes.len(),
{
    if bytes.len() > 0 {
        let t = bytes.drop_last();
        assert forall|i: int| 0 <= i < t.len() implies is_unreserved(#[trigger] t[i]) by {
            assert(t[i] == bytes[i]);
        }
        lemma_unreserved_text_unchanged(t);
        assert(bytes.map_values(|b: u8| b as char) =~= t.map_values(|b: u8| b as char) + seq![
            bytes.last() as char,
        ]);
    } else {
        assert(bytes.map_values(|b: u8| b as char) =~= Seq::<char>::empty());
    }
}

/// The API URL of a project.
pub open spec fn project_url_spec(api: Seq<char>, encoded_repo: Seq<char>) -> Seq<char> {
    api + "/projects/"@ + encoded_repo
}

/// The API URL that lists the merge requests of a commit.
pub open spec fn commit_merge_requests_url_spec(
    api: Seq<char>,
    encoded_repo: Seq<char>,
    commit_id: Seq<char>,
) -> Seq<char> {
    project_url_spec(api, encoded_repo) + "/repository/commits/"@ + commit_id + "/merge_requests"@
}

/// The API URL of a project: `<api>/projects/<encoded_repo>`.
pub fn project_url(api: &str, encoded_repo: &str) -> (r: String)
    ensures
        r@ == project_url_spec(api@, encoded_repo@),
{
    let mut s = api.to_owned();
    s.append("/projects/");
    s.append(encoded_repo);
    s
}

/// The API URL listing the merge requests of a commit:
/// `<api>/projects/<encoded_repo>/repository/commits/<commit_id>/merge_requests`.
pub fn commit_merge_requests_url(api: &str, encoded_repo: &str, commit_id: &str) -> (r: String)
    ensures
        r@ == commit_merge_requests_url_spec(api@, encoded_repo@, commit_id@),
{
    let mut s = project_url(api, encoded_repo);
    s.append("/repository/commits/");
    s.append(commit_id);
    s.append("/merge_requests");
    s
}

} // verus!
