use std::collections::BTreeMap;

use ot_gitlab_tools::cliff::{
    attach_latest_merge_request, classify_commit_lookup, commit_merge_requests_url, encode_repository,
    is_success_status, project_url, CliffCommit, CliffRemoteContributor, CommitLookup,
};
use ot_gitlab_tools::merge_request::{labels_of, latest_relevant_merge_request, MergeRequest, MergeRequestState};

fn mr(id: i64, iid: i64, title: &str, state: MergeRequestState) -> MergeRequest {
    MergeRequest { id, iid, project_id: 1, title: title.to_string(), state }
}

fn commit(id: &str) -> CliffCommit {
    let mut values = BTreeMap::new();
    values.insert("author".to_string(), serde_json::Value::String("someone".to_string()));
    CliffCommit {
        id: id.to_string(),
        message: "feat: thing".to_string(),
        gitlab: CliffRemoteContributor {
            username: Some("dev".to_string()),
            pr_title: None,
            pr_number: None,
            pr_labels: vec!["label".to_string()],
            is_first_time: false,
            values: BTreeMap::new(),
        },
        values,
    }
}

#[test]
fn merge_request_state_predicates() {
    assert!(MergeRequestState::Locked.is_locked());
    assert!(!MergeRequestState::Locked.is_closed());
    assert!(MergeRequestState::Closed.is_closed());
    assert!(!MergeRequestState::Closed.is_locked());
    assert!(!MergeRequestState::Opened.is_closed() && !MergeRequestState::Opened.is_locked());
    assert!(!MergeRequestState::Merged.is_closed() && !MergeRequestState::Merged.is_locked());
}

#[test]
fn latest_relevant_takes_highest_iid() {
    let mrs = vec![
        mr(1, 10, "old", MergeRequestState::Merged),
        mr(2, 30, "closed", MergeRequestState::Closed),
        mr(3, 20, "newer", MergeRequestState::Opened),
        mr(4, 40, "locked", MergeRequestState::Locked),
        mr(5, 15, "middle", MergeRequestState::Merged),
    ];
    let m = latest_relevant_merge_request(mrs).unwrap();
    assert_eq!(m.id, 3);
    assert_eq!(m.iid, 20);
    assert_eq!(m.title, "newer");
}

#[test]
fn latest_relevant_ties_take_last_listed() {
    let mrs = vec![
        mr(1, 7, "first", MergeRequestState::Opened),
        mr(2, 7, "second", MergeRequestState::Merged),
        mr(3, 3, "lower", MergeRequestState::Opened),
    ];
    assert_eq!(latest_relevant_merge_request(mrs).unwrap().id, 2);
}

#[test]
fn latest_relevant_none() {
    assert!(latest_relevant_merge_request(vec![]).is_none());
    let mrs = vec![mr(1, 1, "a", MergeRequestState::Closed), mr(2, 2, "b", MergeRequestState::Locked)];
    assert!(latest_relevant_merge_request(mrs).is_none());
}

#[test]
fn attach_sets_number_and_title_only() {
    let mut c = commit("abc123");
    let attached = attach_latest_merge_request(
        &mut c,
        vec![mr(1, 5, "Add feature", MergeRequestState::Merged), mr(2, 9, "Closed one", MergeRequestState::Closed)],
    );
    assert!(attached);
    assert_eq!(c.gitlab.pr_number, Some(5));
    assert_eq!(c.gitlab.pr_title.as_deref(), Some("Add feature"));
    assert_eq!(c.id, "abc123");
    assert_eq!(c.message, "feat: thing");
    assert_eq!(c.gitlab.username.as_deref(), Some("dev"));
    assert_eq!(c.gitlab.pr_labels, vec!["label".to_string()]);
    assert_eq!(c.values.get("author"), Some(&serde_json::Value::String("someone".to_string())));
}

#[test]
fn attach_without_relevant_leaves_commit() {
    let mut c = commit("abc123");
    let attached = attach_latest_merge_request(&mut c, vec![mr(1, 5, "x", MergeRequestState::Locked)]);
    assert!(!attached);
    assert_eq!(c.gitlab.pr_number, None);
    assert_eq!(c.gitlab.pr_title, None);
}

#[test]
fn commit_lookup_classification() {
    assert_eq!(classify_commit_lookup(200), CommitLookup::Found);
    assert_eq!(classify_commit_lookup(299), CommitLookup::Found);
    assert_eq!(classify_commit_lookup(404), CommitLookup::CommitNotFound);
    assert_eq!(classify_commit_lookup(401), CommitLookup::Failed);
    assert_eq!(classify_commit_lookup(500), CommitLookup::Failed);
    assert_eq!(classify_commit_lookup(302), CommitLookup::Failed);
    assert!(is_success_status(204));
    assert!(!is_success_status(199));
    assert!(!is_success_status(300));
}

#[test]
fn repository_is_percent_encoded() {
    assert_eq!(encode_repository("opentalk/backend"), "opentalk%2Fbackend");
    assert_eq!(encode_repository("a b"), "a%20b");
    assert_eq!(encode_repository("ü"), "%C3%BC");
    assert_eq!(encode_repository("A-z_0.9~"), "A-z_0.9~");
    assert_eq!(encode_repository(""), "");
}

#[test]
fn api_urls() {
    assert_eq!(project_url("https://gitlab.com/api/v4", "a%2Fb"), "https://gitlab.com/api/v4/projects/a%2Fb");
    assert_eq!(
        commit_merge_requests_url("https://gitlab.com/api/v4", "a%2Fb", "deadbeef"),
        "https://gitlab.com/api/v4/projects/a%2Fb/repository/commits/deadbeef/merge_requests"
    );
}

#[test]
fn labels_from_entries() {
    assert!(labels_of(None).is_empty());
    assert!(labels_of(Some(vec![])).is_empty());
    let labels = labels_of(Some(vec![Some("bug".to_string()), None, Some("ux".to_string())]));
    assert_eq!(labels, vec!["bug".to_string(), "ux".to_string()]);
}
