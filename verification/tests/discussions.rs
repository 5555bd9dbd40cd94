use ot_gitlab_tools::args::GitLabMrReference;
use ot_gitlab_tools::discussion::{
    empty_discussion_message, latest_discussion_by_user, no_discussion_message, note_to_update, put_action,
    Discussion, LatestNoteError, Note, NoteAuthor, NoteTime, NoteType, NoteableType, PutAction,
};

fn note(id: u64, author: u64, seconds: i64, nanos: u32, system: bool) -> Note {
    Note {
        id,
        type_: None,
        body: format!("note {id}"),
        author: NoteAuthor { id: author, name: "Name".to_string(), username: "user".to_string() },
        created_at: NoteTime { seconds, nanos },
        system,
        noteable_id: 1,
        noteable_type: NoteableType::MergeRequest,
    }
}

fn discussion(id: &str, notes: Vec<Note>) -> Discussion {
    Discussion { id: id.to_string(), individual_note: false, notes }
}

#[test]
fn latest_discussion_of_user() {
    let ds = vec![
        discussion("a", vec![note(1, 7, 100, 0, false)]),
        discussion("b", vec![note(2, 8, 500, 0, false)]),
        discussion("c", vec![note(3, 7, 300, 0, false), note(4, 8, 900, 0, false)]),
        discussion("d", vec![note(5, 7, 800, 0, true)]),
        discussion("e", vec![]),
        discussion("f", vec![note(6, 7, 200, 0, false)]),
    ];
    let d = latest_discussion_by_user(ds, 7).unwrap();
    assert_eq!(d.id, "c");
}

#[test]
fn latest_discussion_orders_by_nanoseconds_and_ties_take_last() {
    let ds = vec![
        discussion("a", vec![note(1, 7, 100, 5, false)]),
        discussion("b", vec![note(2, 7, 100, 4, false)]),
        discussion("c", vec![note(3, 7, 100, 5, false)]),
    ];
    assert_eq!(latest_discussion_by_user(ds, 7).unwrap().id, "c");
    let ds = vec![
        discussion("a", vec![note(1, 7, -5, 0, false)]),
        discussion("b", vec![note(2, 7, -6, 999, false)]),
    ];
    assert_eq!(latest_discussion_by_user(ds, 7).unwrap().id, "a");
}

#[test]
fn latest_discussion_none() {
    let ds = vec![discussion("a", vec![note(1, 8, 100, 0, false)]), discussion("b", vec![note(2, 7, 1, 0, true)])];
    assert!(latest_discussion_by_user(ds, 7).is_none());
    assert!(latest_discussion_by_user(vec![], 7).is_none());
}

#[test]
fn note_to_update_cases() {
    assert_eq!(note_to_update(None), Err(LatestNoteError::NoDiscussion));
    let empty = discussion("e", vec![]);
    assert_eq!(note_to_update(Some(&empty)), Err(LatestNoteError::EmptyDiscussion));
    let d = discussion("d", vec![note(11, 7, 1, 0, false), note(12, 8, 2, 0, false)]);
    assert_eq!(note_to_update(Some(&d)), Ok(11));
}

#[test]
fn put_action_cases() {
    assert_eq!(put_action(None), Ok(PutAction::CreateDiscussion));
    let empty = discussion("e", vec![]);
    assert_eq!(put_action(Some(&empty)), Err(LatestNoteError::EmptyDiscussion));
    let d = discussion("d", vec![note(11, 7, 1, 0, false)]);
    assert_eq!(put_action(Some(&d)), Ok(PutAction::ModifyNote(11)));
}

#[test]
fn latest_discussion_feeds_update() {
    let ds = vec![discussion("a", vec![note(21, 7, 1, 0, false)]), discussion("b", vec![note(22, 7, 2, 0, false)])];
    let latest = latest_discussion_by_user(ds, 7);
    assert_eq!(note_to_update(latest.as_ref()), Ok(22));
    assert_eq!(put_action(latest.as_ref()), Ok(PutAction::ModifyNote(22)));
}

#[test]
fn note_type_from_option() {
    assert_eq!(NoteType::from(None), NoteType::Null);
    assert_eq!(NoteType::from(Some(NoteType::DiffNote)), NoteType::DiffNote);
    assert_eq!(NoteType::default(), NoteType::Null);
}

#[test]
fn discussion_messages() {
    let mr = GitLabMrReference::new("group/project".to_string(), 12);
    assert_eq!(no_discussion_message(&mr), "You didn't open a discussion for merge request group/project!12");
    assert_eq!(empty_discussion_message(), "Internal Error, empty discussion?");
}
