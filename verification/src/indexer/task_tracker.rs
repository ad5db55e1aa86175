//! Projects and their tasks.

use crate::ipc::handlers::chat::execute::{arg_or, arg_text_or};
use crate::ipc::handlers::chat::modes::{arg, arg_text};
use crate::json::{Json, JsonV};
use crate::links::{Link, CONTAINS, CONTAINS_STRENGTH};
use vstd::prelude::*;

verus! {

/// A task or a project.
#[derive(Debug)]
pub struct TaskInfo {
    pub id: String,
    pub title: String,
    pub description: String,
    pub project_id: Option<String>,
    pub status: String,
    pub metadata: Option<Json>,
}

/// A node of the memory.
#[derive(Debug)]
pub struct TaskNode {
    pub id: String,
    pub title: String,
    /// Whether the node is a task.
    pub is_task: bool,
    pub metadata: Option<Json>,
}

/// A tracker of tasks, with a handle of the memory.
#[derive(Debug)]
pub struct TaskTracker<M> {
    pub memory: M,
}

/// A task that is to be kept.
#[derive(Debug)]
pub struct NewTask {
    pub title: String,
    /// What is noted of its node.
    pub metadata: Json,
    pub summary: String,
    /// Its project, if it has one, and the link from it.
    pub link: Option<(String, Link)>,
}

/// The description in what is noted of a node.
pub open spec fn description(metadata: Option<Json>) -> Seq<char> {
    match metadata {
        Some(m) => arg(m@, "description"@),
        None => Seq::empty(),
    }
}

/// The state in what is noted of a node.
pub open spec fn status(metadata: Option<Json>) -> Seq<char> {
    match metadata {
        Some(m) => arg_or(m@, "status"@, "open"@),
        None => "open"@,
    }
}

/// What is noted of a new task.
pub open spec fn new_task(description: Seq<char>) -> JsonV {
    JsonV::Object(
        seq![("description"@, JsonV::Text(description)), ("status"@, JsonV::Text("open"@))],
    )
}

/// What is noted of a task whose state changes.
pub open spec fn new_status(status: Seq<char>) -> JsonV {
    JsonV::Object(seq![("status"@, JsonV::Text(status))])
}

/// A node as a task of a project.
pub open spec fn is_task_of(t: TaskInfo, n: TaskNode, project_id: Seq<char>) -> bool {
    &&& t.id == n.id
    &&& t.title == n.title
    &&& t.description@ == description(n.metadata)
    &&& t.project_id matches Some(p) && p@ == project_id
    &&& t.status@ == status(n.metadata)
    &&& t.metadata == n.metadata
}

/// A node as a project.
pub open spec fn is_project(t: TaskInfo, n: TaskNode) -> bool {
    &&& t.id == n.id
    &&& t.title == n.title
    &&& t.description@ == description(n.metadata)
    &&& t.project_id is None
    &&& t.status@ == "active"@
    &&& t.metadata == n.metadata
}

/// The nodes of a list that are tasks, in order.
pub open spec fn tasks_among(nodes: Seq<TaskNode>) -> Seq<TaskNode>
    decreases nodes.len(),
{
    if nodes.len() == 0 {
        Seq::empty()
    } else {
        let before = tasks_among(nodes.drop_last());
        if nodes.last().is_task {
            before.push(nodes.last())
        } else {
            before
        }
    }
}

fn describe(metadata: &Option<Json>) -> (r: String)
    ensures
        r@ == description(*metadata),
{
    match metadata {
        Some(m) => arg_text(m, "description"),
        None => String::new(),
    }
}

impl<M> TaskTracker<M> {
    /// A tracker of tasks.
    pub fn new(memory: M) -> (r: Self)
        ensures
            r.memory == memory,
    {
        TaskTracker { memory }
    }

    /// What is noted of a new project.
    pub fn create_project(description: &str) -> (r: Json)
        ensures
            r@ == JsonV::Object(seq![("description"@, JsonV::Text(description@))]),
    {
        let r = Json::Object(vec![("description".to_owned(), Json::Text(description.to_owned()))]);
        proof {
            reveal_with_fuel(Json::model, 3);
            assert(r@->Object_0 =~= seq![("description"@, JsonV::Text(description@))]);
        }
        r
    }

    /// What is kept of a new task: its description is its summary too, and its
    /// project, if it has one, contains it.
    pub fn create_task(title: &str, description: &str, project_id: Option<&str>) -> (r: NewTask)
        ensures
            r.title@ == title@,
            r.metadata@ == new_task(description@),
            r.summary@ == description@,
            match project_id {
                Some(p) => r.link matches Some((from, l)) && from@ == p@ && l.is_link(
                    CONTAINS@,
                    CONTAINS_STRENGTH,
                ),
                None => r.link is None,
            },
    {
        let metadata = Json::Object(
            vec![
                ("description".to_owned(), Json::Text(description.to_owned())),
                ("status".to_owned(), Json::Text("open".to_owned())),
            ],
        );
        proof {
            reveal_with_fuel(Json::model, 3);
            assert(metadata@->Object_0 =~= new_task(description@)->Object_0);
        }
        NewTask {
            title: title.to_owned(),
            metadata,
            summary: description.to_owned(),
            link: match project_id {
                Some(p) => Some((p.to_owned(), Link::contains())),
                None => None,
            },
        }
    }

    /// What is noted of a task whose state changes.
    pub fn update_task_status(status: &str) -> (r: Json)
        ensures
            r@ == new_status(status@),
    {
        let r = Json::Object(vec![("status".to_owned(), Json::Text(status.to_owned()))]);
        proof {
            reveal_with_fuel(Json::model, 3);
            assert(r@->Object_0 =~= new_status(status@)->Object_0);
        }
        r
    }

    /// The tasks of a project, from the nodes it is linked to.
    pub fn get_tasks_for_project(project_id: &str, nodes: Vec<TaskNode>) -> (r: Vec<TaskInfo>)
        ensures
            r@.len() == tasks_among(nodes@).len(),
            forall|i: int|
                0 <= i < r@.len() ==> is_task_of(
                    #[trigger] r@[i],
                    tasks_among(nodes@)[i],
                    project_id@,
                ),
    {
        let ghost all = nodes@;
        let mut nodes = nodes;
        let mut back: Vec<TaskInfo> = Vec::new();
        let ghost mut done: Seq<TaskNode> = Seq::empty();
        assert(tasks_among(all) =~= tasks_among(nodes@) + done);
        while nodes.len() > 0
            invariant
                tasks_among(all) == tasks_among(nodes@) + done,
                back@.len() == done.len(),
                forall|i: int|
                    0 <= i < back@.len() ==> is_task_of(
                        #[trigger] back@[i],
                        done[done.len() - 1 - i],
                        project_id@,
                    ),
            decreases nodes@.len(),
        {
            let ghost before = nodes@;
            if let Some(n) = nodes.pop() {
                assert(nodes@ =~= before.drop_last());
                if n.is_task {
                    let ghost whole = n;
                    let t = TaskInfo {
                        description: describe(&n.metadata),
                        project_id: Some(project_id.to_owned()),
                        status: match &n.metadata {
                            Some(m) => arg_text_or(m, "status", "open"),
                            None => "open".to_owned(),
                        },
                        id: n.id,
                        title: n.title,
                        metadata: n.metadata,
                    };
                    let ghost old_done = done;
                    let ghost old_back = back@;
                    proof {
                        done = seq![whole] + done;
                    }
                    back.push(t);
                    assert(tasks_among(all) =~= tasks_among(nodes@) + done);
                    assert forall|i: int| 0 <= i < back@.len() implies is_task_of(
                        #[trigger] back@[i],
                        done[done.len() - 1 - i],
                        project_id@,
                    ) by {
                        if i < old_back.len() {
                            assert(back@[i] == old_back[i]);
                            assert(done[done.len() - 1 - i] == old_done[old_done.len() - 1 - i]);
                        }
                    }
                }
            }
        }
        assert(tasks_among(all) =~= done);
        let mut out: Vec<TaskInfo> = Vec::new();
        let ghost all_back = back@;
        while back.len() > 0
            invariant
                done == tasks_among(all),
                all_back.len() == done.len(),
                back@.len() + out@.len() == done.len(),
                back@ == all_back.take(back@.len() as int),
                forall|i: int|
                    0 <= i < all_back.len() ==> is_task_of(
                        #[trigger] all_back[i],
                        done[done.len() - 1 - i],
                        project_id@,
                    ),
                forall|i: int|
                    0 <= i < out@.len() ==> is_task_of(#[trigger] out@[i], done[i], project_id@),
            decreases back@.len(),
        {
            let ghost n = back@.len();
            if let Some(t) = back.pop() {
                assert(t == all_back[n - 1]);
                assert(is_task_of(t, done[done.len() - n], project_id@));
                assert(back@ =~= all_back.take(n - 1));
                out.push(t);
            }
        }
        out
    }

    /// The projects.
    pub fn get_projects(nodes: Vec<TaskNode>) -> (r: Vec<TaskInfo>)
        ensures
            r@.len() == nodes@.len(),
            forall|i: int| 0 <= i < r@.len() ==> is_project(#[trigger] r@[i], nodes@[i]),
    {
        let mut out: Vec<TaskInfo> = Vec::new();
        let ghost all = nodes@;
        let mut nodes = nodes;
        let mut back: Vec<TaskInfo> = Vec::new();
        while nodes.len() > 0
            invariant
                nodes@.len() + back@.len() == all.len(),
                nodes@ == all.take(nodes@.len() as int),
                forall|i: int|
                    0 <= i < back@.len() ==> is_project(#[trigger] back@[i], all[all.len() - 1 - i]),
            decreases nodes@.len(),
        {
            let ghost n = nodes@.len();
            if let Some(m) = nodes.pop() {
                assert(m == all[n - 1]);
                assert(nodes@ =~= all.take(n - 1));
                let t = TaskInfo {
                    description: describe(&m.metadata),
                    project_id: None,
                    status: "active".to_owned(),
                    id: m.id,
                    title: m.title,
                    metadata: m.metadata,
                };
                assert(is_project(t, all[n - 1]));
                back.push(t);
            }
        }
        let ghost all_back = back@;
        while back.len() > 0
            invariant
                all_back.len() == all.len(),
                back@.len() + out@.len() == all.len(),
                back@ == all_back.take(back@.len() as int),
                forall|i: int|
                    0 <= i < all_back.len() ==> is_project(
                        #[trigger] all_back[i],
                        all[all.len() - 1 - i],
                    ),
                forall|i: int| 0 <= i < out@.len() ==> is_project(#[trigger] out@[i], all[i]),
            decreases back@.len(),
        {
            let ghost n = back@.len();
            if let Some(t) = back.pop() {
                assert(t == all_back[n - 1]);
                assert(is_project(t, all[all.len() - n]));
                assert(back@ =~= all_back.take(n - 1));
                out.push(t);
            }
        }
        out
    }
}

/// A new task is open and has its description, and a task whose state was
/// changed has that state.
pub proof fn states_are_read_back(new: Json, changed: Json, d: Seq<char>, s: Seq<char>)
    requires
        new@ == new_task(d),
        changed@ == new_status(s),
    ensures
        status(Some(new)) == "open"@,
        description(Some(new)) == d,
        status(Some(changed)) == s,
{
    let members = new@->Object_0;
    reveal_strlit("description");
    reveal_strlit("status");
    reveal_with_fuel(JsonV::find, 3);
    assert("description"@.len() == 11);
    assert("status"@.len() == 6);
    assert(members.skip(1)[0] == members[1]);
    assert(new@.get("description"@) == Some(members[0].1));
    assert(new@.get("status"@) == Some(members[1].1));
    assert(changed@.get("status"@) == Some(changed@->Object_0[0].1));
}

} // verus!
