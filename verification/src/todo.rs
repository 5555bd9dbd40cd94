//! GitLab todos: which pending todos are marked as done because what they
//! point to is closed or merged, and the endpoints used for them.

use vstd::prelude::*;

use crate::decimal::{decimal_text, u64_to_decimal};
use crate::text::text_equals;

verus! {

/// What a todo points to (a merge request or an issue).
#[derive(Debug, Clone)]
pub struct Target {
    pub id: u64,
    pub iid: Option<u64>,
    pub state: String,
    pub title: String,
}

/// A pending todo of the current user.
#[derive(Debug, Clone)]
pub struct Todo {
    pub id: u64,
    pub action_name: String,
    pub target_type: String,
    pub target: Target,
    pub target_url: String,
    pub body: String,
    pub state: String,
}

/// What is reported of a todo.
#[derive(Debug, Clone)]
pub struct TodoInfo {
    pub id: u64,
    pub target_type: String,
    pub target_id: u64,
    pub target_state: String,
    pub title: String,
}

/// The report of marking todos as done.
#[derive(Debug, Clone)]
pub struct MarkResult {
    pub marked_as_done: Vec<TodoInfo>,
}

/// A target state after which a todo is done: `closed` or `merged`.
pub open spec fn is_finished_state(state: Seq<char>) -> bool {
    state == "closed"@ || state == "merged"@
}

/// Whether a target in `state` is closed or merged.
pub fn is_finished_state_text(state: &str) -> (r: bool)
    ensures
        r == is_finished_state(state@),
{
    text_equals(state, "closed") || text_equals(state, "merged")
}

/// The todo's target is closed or merged.
pub open spec fn is_finished(todo: Todo) -> bool {
    is_finished_state(todo.target.state@)
}

/// What is reported of `todo`.
pub open spec fn info_of(todo: Todo) -> TodoInfo {
    TodoInfo {
        id: todo.id,
        target_type: todo.target_type,
        target_id: todo.target.id,
        target_state: todo.target.state,
        title: todo.target.title,
    }
}

/// What is reported of `todo`.
pub fn todo_info(todo: &Todo) -> (r: TodoInfo)
    ensures
        r == info_of(*todo),
        r.id == todo.id,
        r.target_type == todo.target_type,
        r.target_id == todo.target.id,
        r.target_state == todo.target.state,
        r.title == todo.target.title,
{
    TodoInfo {
        id: todo.id,
        target_type: todo.target_type.clone(),
        target_id: todo.target.id,
        target_state: todo.target.state.clone(),
        title: todo.target.title.clone(),
    }
}

/// The reports of the todos of `todos` that are done (closed or merged
/// target), in order.
pub open spec fn finished_infos(todos: Seq<Todo>) -> Seq<TodoInfo>
    decreases todos.len(),
{
    if todos.len() == 0 {
        Seq::empty()
    } else if is_finished(todos.last()) {
        finished_infos(todos.drop_last()).push(info_of(todos.last()))
    } else {
        finished_infos(todos.drop_last())
    }
}

/// The reports of the todos of `todos` that are still open, in order.
pub open spec fn open_infos(todos: Seq<Todo>) -> Seq<TodoInfo>
    decreases todos.len(),
{
    if todos.len() == 0 {
        Seq::empty()
    } else if is_finished(todos.last()) {
        open_infos(todos.drop_last())
    } else {
        open_infos(todos.drop_last()).push(info_of(todos.last()))
    }
}

/// The todos to mark as done and the todos to skip.
pub struct TodoPlan {
    /// In the order of the todos: each is marked as done, in this order.
    pub to_mark: Vec<TodoInfo>,
    /// In the order of the todos.
    pub skipped: Vec<TodoInfo>,
}

/// Splits pending todos into those whose target is closed or merged, which
/// are marked as done, and the others, which are skipped.
pub fn plan_mark_closed_done(todos: &Vec<Todo>) -> (r: TodoPlan)
    ensures
        r.to_mark@ == finished_infos(todos@),
        r.skipped@ == open_infos(todos@),
        forall|i: int| 0 <= i < r.to_mark@.len() ==> #[trigger] marked_from(todos@, r.to_mark@[i]),
        forall|j: int|
            0 <= j < todos@.len() && target_closed_or_merged(#[trigger] todos@[j]) ==> exists|i: int|
                #![trigger r.to_mark@[i]]
                0 <= i < r.to_mark@.len() && reports(r.to_mark@[i], todos@[j]),
        forall|i: int| 0 <= i < r.skipped@.len() ==> #[trigger] skipped_from(todos@, r.skipped@[i]),
        forall|j: int|
            0 <= j < todos@.len() && !target_closed_or_merged(#[trigger] todos@[j]) ==> exists|i: int|
                #![trigger r.skipped@[i]]
                0 <= i < r.skipped@.len() && reports(r.skipped@[i], todos@[j]),
{
    let n = todos.len();
    let mut to_mark: Vec<TodoInfo> = Vec::new();
    let mut skipped: Vec<TodoInfo> = Vec::new();
    let mut i: usize = 0;
    while i < n
        invariant
            n == todos@.len(),
            i <= n,
            to_mark@ == finished_infos(todos@.take(i as int)),
            skipped@ == open_infos(todos@.take(i as int)),
        decreases n - i,
    {
        let todo = &todos[i];
        let info = todo_info(todo);
        assert(todos@.take(i + 1).drop_last() =~= todos@.take(i as int));
        assert(todos@.take(i + 1).last() == *todo);
        if is_finished_state_text(todo.target.state.as_str()) {
            to_mark.push(info);
        } else {
            skipped.push(info);
        }
        i = i + 1;
    }
    assert(todos@.take(n as int) =~= todos@);
    proof {
        lemma_marked_reports(todos@);
        lemma_skipped_reports(todos@);
    }
    TodoPlan { to_mark, skipped }
}

/// Every todo is either marked or skipped, never both: the two reports
/// together are as long as the list of todos.
pub proof fn lemma_plan_partitions(todos: Seq<Todo>)
    ensures
        finished_infos(todos).len() + open_infos(todos).len() == todos.len(),
    decreases todos.len(),
{
    if todos.len() > 0 {
        lemma_plan_partitions(todos.drop_last());
    }
}

/// A marked todo has a closed or merged target; a skipped one does not.
pub proof fn lemma_plan_states(todos: Seq<Todo>)
    ensures
        forall|i: int|
            0 <= i < finished_infos(todos).len() ==> is_finished_state(
                (finished_infos(todos)[i]).target_state@,
            ),
        forall|i: int|
            0 <= i < open_infos(todos).len() ==> !is_finished_state(
                (open_infos(todos)[i]).target_state@,
            ),
    decreases todos.len(),
{
    if todos.len() > 0 {
        let rest = todos.drop_last();
        lemma_plan_states(rest);
        let f = finished_infos(todos);
        let o = open_infos(todos);
        assert forall|i: int| 0 <= i < f.len() implies is_finished_state((#[trigger] f[i]).target_state@) by {
            if i < finished_infos(rest).len() {
                assert(f[i] == finished_infos(rest)[i]);
            }
        }
        assert forall|i: int| 0 <= i < o.len() implies !is_finished_state((#[trigger] o[i]).target_state@) by {
            if i < open_infos(rest).len() {
                assert(o[i] == open_infos(rest)[i]);
            }
        }
    }
}

/// `info` is the report of the todo `t`: the todo's own id, and its target's
/// type, id, state and title.
pub open spec fn reports(info: TodoInfo, t: Todo) -> bool {
    &&& info.id == t.id
    &&& info.target_type == t.target_type
    &&& info.target_id == t.target.id
    &&& info.target_state == t.target.state
    &&& info.title == t.target.title
}

/// The target of `t` is closed or merged.
pub open spec fn target_closed_or_merged(t: Todo) -> bool {
    t.target.state@ == "closed"@ || t.target.state@ == "merged"@
}

/// Every report to mark as done is the report of a todo of the list whose
/// target is closed or merged, carrying that todo's own id; every such todo is
/// reported there; and the reports keep the order of the todos.
/// `info` is the report of a todo of `todos` whose target is closed or merged.
pub open spec fn marked_from(todos: Seq<Todo>, info: TodoInfo) -> bool {
    exists|j: int| 0 <= j < todos.len() && target_closed_or_merged(todos[j]) && reports(info, #[trigger] todos[j])
}

pub proof fn lemma_marked_reports(todos: Seq<Todo>)
    ensures
        forall|i: int|
            0 <= i < finished_infos(todos).len() ==> #[trigger] marked_from(todos, finished_infos(todos)[i]),
        forall|j: int|
            0 <= j < todos.len() && target_closed_or_merged(#[trigger] todos[j]) ==> exists|i: int|
                #![trigger finished_infos(todos)[i]]
                0 <= i < finished_infos(todos).len() && reports(finished_infos(todos)[i], todos[j]),
    decreases todos.len(),
{
    if todos.len() > 0 {
        let rest = todos.drop_last();
        lemma_marked_reports(rest);
        let f = finished_infos(todos);
        let fr = finished_infos(rest);
        let n = todos.len() - 1;
        assert forall|i: int| 0 <= i < finished_infos(todos).len() implies #[trigger] marked_from(todos, finished_infos(todos)[i]) by {
            if i < fr.len() {
                assert(f[i] == fr[i]);
                assert(marked_from(rest, fr[i]));
                let j = choose|j: int| 0 <= j < rest.len() && target_closed_or_merged(rest[j]) && reports(fr[i], rest[j]);
                assert(rest[j] == todos[j]);
                assert(target_closed_or_merged(todos[j]) && reports(f[i], todos[j]));
            } else {
                assert(is_finished(todos.last()));
                assert(f == fr.push(info_of(todos.last())));
                assert(f[i] == info_of(todos[n]));
                assert(target_closed_or_merged(todos[n]));
                assert(reports(f[i], todos[n]));
            }
            assert(marked_from(todos, f[i]));
        }
        assert forall|j: int| 0 <= j < todos.len() && target_closed_or_merged(#[trigger] todos[j]) implies exists|i: int|
            #![trigger f[i]]
            0 <= i < f.len() && reports(f[i], todos[j]) by {
            if j < n {
                assert(rest[j] == todos[j]);
                assert(target_closed_or_merged(rest[j]));
                assert(exists|i: int| #![trigger finished_infos(rest)[i]] 0 <= i < finished_infos(rest).len() && reports(finished_infos(rest)[i], rest[j]));
                let i = choose|i: int| 0 <= i < fr.len() && reports(fr[i], rest[j]);
                assert(f[i] == fr[i]);
            } else {
                assert(f[fr.len() as int] == info_of(todos[n]));
                assert(reports(f[fr.len() as int], todos[j]));
            }
        }
    } else {
        assert(finished_infos(todos).len() == 0);
    }
}

/// `info` is the report of a todo of `todos` whose target is neither closed nor merged.
pub open spec fn skipped_from(todos: Seq<Todo>, info: TodoInfo) -> bool {
    exists|j: int| 0 <= j < todos.len() && !target_closed_or_merged(todos[j]) && reports(info, #[trigger] todos[j])
}

/// Every skipped report is the report of a todo of the list whose target is
/// neither closed nor merged, and every such todo is reported there.
pub proof fn lemma_skipped_reports(todos: Seq<Todo>)
    ensures
        forall|i: int|
            0 <= i < open_infos(todos).len() ==> #[trigger] skipped_from(todos, open_infos(todos)[i]),
        forall|j: int|
            0 <= j < todos.len() && !target_closed_or_merged(#[trigger] todos[j]) ==> exists|i: int|
                #![trigger open_infos(todos)[i]]
                0 <= i < open_infos(todos).len() && reports(open_infos(todos)[i], todos[j]),
    decreases todos.len(),
{
    if todos.len() > 0 {
        let rest = todos.drop_last();
        lemma_skipped_reports(rest);
        let f = open_infos(todos);
        let fr = open_infos(rest);
        let n = todos.len() - 1;
        assert forall|i: int| 0 <= i < open_infos(todos).len() implies #[trigger] skipped_from(todos, open_infos(todos)[i]) by {
            if i < fr.len() {
                assert(f[i] == fr[i]);
                assert(skipped_from(rest, fr[i]));
                let j = choose|j: int| 0 <= j < rest.len() && !target_closed_or_merged(rest[j]) && reports(fr[i], rest[j]);
                assert(rest[j] == todos[j]);
                assert(!target_closed_or_merged(todos[j]) && reports(f[i], todos[j]));
            } else {
                assert(!is_finished(todos.last()));
                assert(f == fr.push(info_of(todos.last())));
                assert(f[i] == info_of(todos[n]));
                assert(!target_closed_or_merged(todos[n]));
                assert(reports(f[i], todos[n]));
            }
            assert(skipped_from(todos, f[i]));
        }
        assert forall|j: int| 0 <= j < todos.len() && !target_closed_or_merged(#[trigger] todos[j]) implies exists|i: int|
            #![trigger f[i]]
            0 <= i < f.len() && reports(f[i], todos[j]) by {
            if j < n {
                assert(rest[j] == todos[j]);
                assert(!target_closed_or_merged(rest[j]));
                assert(exists|i: int| #![trigger open_infos(rest)[i]] 0 <= i < open_infos(rest).len() && reports(open_infos(rest)[i], rest[j]));
                let i = choose|i: int| 0 <= i < fr.len() && reports(fr[i], rest[j]);
                assert(f[i] == fr[i]);
            } else {
                assert(f[fr.len() as int] == info_of(todos[n]));
                assert(reports(f[fr.len() as int], todos[j]));
            }
        }
    }
}

/// The endpoint that marks todo `id` as done: `todos/<id>/mark_as_done`.
pub fn mark_todo_endpoint(id: u64) -> (r: String)
    ensures
        r@ == "todos/"@ + decimal_text(id as nat) + "/mark_as_done"@,
{
    let mut s = "todos/".to_owned();
    let t = u64_to_decimal(id);
    s.append(t.as_str());
    s.append("/mark_as_done");
    s
}

/// The query parameters of the todo listing: `state` when one is asked for.
pub fn todo_query_parameters(state: Option<&str>) -> (r: Vec<(String, String)>)
    ensures
        state is None ==> r@.len() == 0,
        state matches Some(s) ==> r@.len() == 1 && r@[0].0@ == "state"@ && r@[0].1@ == s@,
{
    let mut params: Vec<(String, String)> = Vec::new();
    match state {
        Some(s) => {
            params.push(("state".to_owned(), s.to_owned()));
        },
        None => {},
    }
    params
}

} // verus!
