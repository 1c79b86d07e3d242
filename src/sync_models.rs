//! Records of the synchronization protocol, and the adapter that turns wire
//! records (which carry two generations of field names) into canonical ones.
use crate::models::{Due, Project, Task, TaskOutput};
use vstd::prelude::*;

verus! {

/// The body of a successful read round trip.
#[derive(Debug)]
pub struct SyncReadResponse {
    pub sync_token: String,
    pub full_sync: bool,
    pub projects: Vec<SyncProject>,
    pub items: Vec<SyncTask>,
    pub sections: Vec<SyncSection>,
    pub labels: Vec<SyncLabel>,
    pub filters: Vec<SyncFilter>,
}

/// A project in canonical form.
#[derive(Debug, Clone)]
pub struct SyncProject {
    pub id: String,
    pub name: String,
    pub color: String,
    pub shared: bool,
    pub favorite: bool,
    pub sort_order: i64,
    pub is_archived: bool,
    pub is_deleted: bool,
    pub created_at: String,
    pub updated_at: String,
}

/// A task (an "item" of the protocol) in canonical form.
#[derive(Debug, Clone)]
pub struct SyncTask {
    pub id: String,
    pub project_id: Option<String>,
    pub section_id: Option<String>,
    pub content: String,
    pub description: Option<String>,
    pub priority: u8,
    pub due: Option<SyncDue>,
    pub labels: Vec<String>,
    pub order: i64,
    pub indentation: i64,
    pub is_completed: bool,
    pub is_archived: bool,
    pub is_deleted: bool,
    pub created_at: String,
    pub updated_at: String,
}

/// A section of a project.
#[derive(Debug, Clone)]
pub struct SyncSection {
    pub id: String,
    pub project_id: String,
    pub name: String,
    pub order: i64,
    pub is_archived: bool,
    pub is_deleted: bool,
    pub created_at: String,
    pub archived_at: Option<String>,
    pub is_collapsed: Option<bool>,
}

/// A label.
#[derive(Debug, Clone)]
pub struct SyncLabel {
    pub id: String,
    pub name: String,
    pub color: String,
    pub is_favorite: bool,
}

/// A saved filter.
#[derive(Debug, Clone)]
pub struct SyncFilter {
    pub id: String,
    pub name: String,
    pub query: String,
}

/// The due date of a task in canonical form.
#[derive(Debug, Clone)]
pub struct SyncDue {
    pub date: Option<String>,
    pub is_recurring: bool,
    pub datetime: Option<String>,
    pub timezone: Option<String>,
}

/// A project exactly as it arrives: every field that may be absent is an
/// `Option`, and each field that has two names has one slot per name.
#[derive(Debug, Clone)]
pub struct WireProject {
    pub id: String,
    pub name: String,
    pub color: Option<String>,
    pub shared: Option<bool>,
    pub is_shared: Option<bool>,
    pub favorite: Option<bool>,
    pub is_favorite: Option<bool>,
    pub sort_order: Option<i64>,
    pub child_order: Option<i64>,
    pub is_archived: Option<bool>,
    pub is_deleted: Option<bool>,
    pub created_at: Option<String>,
    pub added_at: Option<String>,
    pub updated_at: Option<String>,
}

/// A task exactly as it arrives (see `WireProject`).
#[derive(Debug, Clone)]
pub struct WireTask {
    pub id: String,
    pub project_id: Option<String>,
    pub section_id: Option<String>,
    pub content: String,
    pub description: Option<String>,
    pub priority: Option<u8>,
    pub due: Option<WireDue>,
    pub labels: Option<Vec<String>>,
    pub order: Option<i64>,
    pub child_order: Option<i64>,
    pub indentation: Option<i64>,
    pub is_completed: Option<bool>,
    pub checked: Option<bool>,
    pub is_archived: Option<bool>,
    pub is_deleted: Option<bool>,
    pub created_at: Option<String>,
    pub added_at: Option<String>,
    pub updated_at: Option<String>,
}

/// A due date exactly as it arrives.
#[derive(Debug, Clone)]
pub struct WireDue {
    pub date: Option<String>,
    pub is_recurring: Option<bool>,
    pub datetime: Option<String>,
    pub timezone: Option<String>,
}

/// The first of two alternatives that is present.
pub open spec fn either<T>(a: Option<T>, b: Option<T>) -> Option<T> {
    if a is Some {
        a
    } else {
        b
    }
}

/// The flag carried by `o`, false when absent.
pub open spec fn flag(o: Option<bool>) -> bool {
    match o {
        Some(b) => b,
        None => false,
    }
}

/// The number carried by `o`, zero when absent.
pub open spec fn number(o: Option<i64>) -> i64 {
    match o {
        Some(n) => n,
        None => 0,
    }
}

/// The text carried by `o`, empty when absent.
pub open spec fn text(o: Option<String>) -> Seq<char> {
    match o {
        Some(s) => s@,
        None => Seq::empty(),
    }
}

fn take_flag(o: Option<bool>) -> (r: bool)
    ensures
        r == flag(o),
{
    match o {
        Some(b) => b,
        None => false,
    }
}

fn take_number(o: Option<i64>) -> (r: i64)
    ensures
        r == number(o),
{
    match o {
        Some(n) => n,
        None => 0,
    }
}

fn take_text(o: Option<String>) -> (r: String)
    ensures
        r@ == text(o),
{
    match o {
        Some(s) => s,
        None => String::new(),
    }
}

fn take_either<T>(a: Option<T>, b: Option<T>) -> (r: Option<T>)
    ensures
        r == either(a, b),
{
    match a {
        Some(x) => Some(x),
        None => b,
    }
}

impl SyncDue {
    /// Canonical form of a wire due date: an absent recurrence flag is false.
    pub open spec fn adapted(w: WireDue) -> SyncDue {
        SyncDue {
            date: w.date,
            is_recurring: flag(w.is_recurring),
            datetime: w.datetime,
            timezone: w.timezone,
        }
    }

    pub fn from_wire(w: WireDue) -> (r: SyncDue)
        ensures
            r == Self::adapted(w),
    {
        SyncDue {
            date: w.date,
            is_recurring: take_flag(w.is_recurring),
            datetime: w.datetime,
            timezone: w.timezone,
        }
    }
}

impl SyncProject {
    /// Canonical form of a wire project: the current name of each field is
    /// preferred, the legacy one is the fallback, and absent fields take
    /// their defaults.
    pub open spec fn adapted_from(self, w: WireProject) -> bool {
        &&& self.id == w.id
        &&& self.name == w.name
        &&& self.color@ == text(w.color)
        &&& self.shared == flag(either(w.shared, w.is_shared))
        &&& self.favorite == flag(either(w.favorite, w.is_favorite))
        &&& self.sort_order == number(either(w.sort_order, w.child_order))
        &&& self.is_archived == flag(w.is_archived)
        &&& self.is_deleted == flag(w.is_deleted)
        &&& self.created_at@ == text(either(w.created_at, w.added_at))
        &&& self.updated_at@ == text(w.updated_at)
    }

    pub fn from_wire(w: WireProject) -> (r: SyncProject)
        ensures
            r.adapted_from(w),
    {
        SyncProject {
            id: w.id,
            name: w.name,
            color: take_text(w.color),
            shared: take_flag(take_either(w.shared, w.is_shared)),
            favorite: take_flag(take_either(w.favorite, w.is_favorite)),
            sort_order: take_number(take_either(w.sort_order, w.child_order)),
            is_archived: take_flag(w.is_archived),
            is_deleted: take_flag(w.is_deleted),
            created_at: take_text(take_either(w.created_at, w.added_at)),
            updated_at: take_text(w.updated_at),
        }
    }
}

impl SyncTask {
    /// Canonical form of a wire task (see `SyncProject::adapted_from`);
    /// absent labels become an empty list and an absent priority is zero.
    pub open spec fn adapted_from(self, w: WireTask) -> bool {
        &&& self.id == w.id
        &&& self.project_id == w.project_id
        &&& self.section_id == w.section_id
        &&& self.content == w.content
        &&& self.description == w.description
        &&& self.priority == (match w.priority {
            Some(p) => p,
            None => 0u8,
        })
        &&& self.due == (match w.due {
            Some(d) => Some(SyncDue::adapted(d)),
            None => None,
        })
        &&& self.labels@ == (match w.labels {
            Some(l) => l@,
            None => Seq::<String>::empty(),
        })
        &&& self.order == number(either(w.order, w.child_order))
        &&& self.indentation == number(w.indentation)
        &&& self.is_completed == flag(either(w.is_completed, w.checked))
        &&& self.is_archived == flag(w.is_archived)
        &&& self.is_deleted == flag(w.is_deleted)
        &&& self.created_at@ == text(either(w.created_at, w.added_at))
        &&& self.updated_at@ == text(w.updated_at)
    }

    pub fn from_wire(w: WireTask) -> (r: SyncTask)
        ensures
            r.adapted_from(w),
    {
        let priority = match w.priority {
            Some(p) => p,
            None => 0u8,
        };
        let due = match w.due {
            Some(d) => Some(SyncDue::from_wire(d)),
            None => None,
        };
        let labels = match w.labels {
            Some(l) => l,
            None => Vec::new(),
        };
        SyncTask {
            id: w.id,
            project_id: w.project_id,
            section_id: w.section_id,
            content: w.content,
            description: w.description,
            priority,
            due,
            labels,
            order: take_number(take_either(w.order, w.child_order)),
            indentation: take_number(w.indentation),
            is_completed: take_flag(take_either(w.is_completed, w.checked)),
            is_archived: take_flag(w.is_archived),
            is_deleted: take_flag(w.is_deleted),
            created_at: take_text(take_either(w.created_at, w.added_at)),
            updated_at: take_text(w.updated_at),
        }
    }
}

/// The domain project that a canonical project stands for.
pub open spec fn project_of(s: SyncProject) -> Project {
    Project {
        id: s.id,
        name: s.name,
        color: s.color,
        is_shared: s.shared,
        is_favorite: s.favorite,
    }
}

/// The domain task that a canonical task stands for: the order is narrowed
/// to 32 bits and a due date keeps its recurrence flag.
pub open spec fn task_of(s: SyncTask) -> Task {
    Task {
        id: s.id,
        content: s.content,
        description: s.description,
        project_id: s.project_id,
        due: match s.due {
            Some(d) => Some(
                Due { date: d.date, is_recurring: Some(d.is_recurring), datetime: d.datetime },
            ),
            None => None,
        },
        is_completed: s.is_completed,
        created_at: s.created_at,
        order: s.order as i32,
        priority: s.priority,
        labels: s.labels,
    }
}

impl From<SyncProject> for Project {
    fn from(sync: SyncProject) -> (r: Project)
        ensures
            r == project_of(sync),
    {
        Project {
            id: sync.id,
            name: sync.name,
            color: sync.color,
            is_shared: sync.shared,
            is_favorite: sync.favorite,
        }
    }
}

impl vstd::std_specs::convert::FromSpecImpl<SyncProject> for Project {
    open spec fn obeys_from_spec() -> bool {
        true
    }

    open spec fn from_spec(v: SyncProject) -> Project {
        project_of(v)
    }
}

impl From<SyncTask> for Task {
    fn from(sync: SyncTask) -> (r: Task)
        ensures
            r == task_of(sync),
    {
        let due = match sync.due {
            Some(d) => Some(Due { date: d.date, is_recurring: Some(d.is_recurring), datetime: d.datetime }),
            None => None,
        };
        Task {
            id: sync.id,
            content: sync.content,
            description: sync.description,
            project_id: sync.project_id,
            due,
            is_completed: sync.is_completed,
            created_at: sync.created_at,
            order: sync.order as i32,
            priority: sync.priority,
            labels: sync.labels,
        }
    }
}

impl vstd::std_specs::convert::FromSpecImpl<SyncTask> for Task {
    open spec fn obeys_from_spec() -> bool {
        true
    }

    open spec fn from_spec(v: SyncTask) -> Task {
        task_of(v)
    }
}

/// A read response exactly as it arrives: absent collections are `None`.
#[derive(Debug)]
pub struct WireReadResponse {
    pub sync_token: String,
    pub full_sync: Option<bool>,
    pub projects: Option<Vec<WireProject>>,
    pub items: Option<Vec<WireTask>>,
    pub sections: Option<Vec<SyncSection>>,
    pub labels: Option<Vec<SyncLabel>>,
    pub filters: Option<Vec<SyncFilter>>,
}

/// The collection carried by `o`, empty when absent.
pub open spec fn listed<T>(o: Option<Vec<T>>) -> Seq<T> {
    match o {
        Some(v) => v@,
        None => Seq::empty(),
    }
}

fn take_list<T>(o: Option<Vec<T>>) -> (r: Vec<T>)
    ensures
        r@ == listed(o),
{
    match o {
        Some(v) => v,
        None => Vec::new(),
    }
}

/// Each project of `out` is the canonical form of the wire project at the
/// same position of `wire`.
pub open spec fn projects_adapted(out: Seq<SyncProject>, wire: Seq<WireProject>) -> bool {
    &&& out.len() == wire.len()
    &&& forall|i: int| 0 <= i < out.len() ==> (#[trigger] out[i]).adapted_from(wire[i])
}

/// Each task of `out` is the canonical form of the wire task at the same
/// position of `wire`.
pub open spec fn tasks_adapted(out: Seq<SyncTask>, wire: Seq<WireTask>) -> bool {
    &&& out.len() == wire.len()
    &&& forall|i: int| 0 <= i < out.len() ==> (#[trigger] out[i]).adapted_from(wire[i])
}

fn adapt_projects(wire: Vec<WireProject>) -> (r: Vec<SyncProject>)
    ensures
        projects_adapted(r@, wire@),
{
    let ghost all = wire@;
    let mut rest = wire;
    let mut out: Vec<SyncProject> = Vec::new();
    while rest.len() > 0
        invariant
            out@.len() + rest@.len() == all.len(),
            rest@ == all.subrange(out@.len() as int, all.len() as int),
            projects_adapted(out@, all.subrange(0, out@.len() as int)),
        decreases rest@.len(),
    {
        let w = rest.remove(0);
        out.push(SyncProject::from_wire(w));
    }
    out
}

fn adapt_tasks(wire: Vec<WireTask>) -> (r: Vec<SyncTask>)
    ensures
        tasks_adapted(r@, wire@),
{
    let ghost all = wire@;
    let mut rest = wire;
    let mut out: Vec<SyncTask> = Vec::new();
    while rest.len() > 0
        invariant
            out@.len() + rest@.len() == all.len(),
            rest@ == all.subrange(out@.len() as int, all.len() as int),
            tasks_adapted(out@, all.subrange(0, out@.len() as int)),
        decreases rest@.len(),
    {
        let w = rest.remove(0);
        out.push(SyncTask::from_wire(w));
    }
    out
}

impl SyncReadResponse {
    /// Canonical form of a wire read response: absent collections are empty
    /// and every project and task goes through the adapter.
    pub open spec fn adapted_from(self, w: WireReadResponse) -> bool {
        &&& self.sync_token == w.sync_token
        &&& self.full_sync == flag(w.full_sync)
        &&& projects_adapted(self.projects@, listed(w.projects))
        &&& tasks_adapted(self.items@, listed(w.items))
        &&& self.sections@ == listed(w.sections)
        &&& self.labels@ == listed(w.labels)
        &&& self.filters@ == listed(w.filters)
    }

    pub fn from_wire(w: WireReadResponse) -> (r: SyncReadResponse)
        ensures
            r.adapted_from(w),
    {
        SyncReadResponse {
            sync_token: w.sync_token,
            full_sync: take_flag(w.full_sync),
            projects: adapt_projects(take_list(w.projects)),
            items: adapt_tasks(take_list(w.items)),
            sections: take_list(w.sections),
            labels: take_list(w.labels),
            filters: take_list(w.filters),
        }
    }
}

/// The outcome that the server reports for one operation, as it arrives:
/// a bare string (the success marker is the string `ok`), or any other
/// payload, kept as its JSON text.
#[derive(Debug)]
pub enum StatusValue {
    Text(String),
    Other(String),
}

/// One entry of the per-operation status map: correlation identifier and
/// reported outcome.
#[derive(Debug)]
pub struct StatusEntry {
    pub uuid: String,
    pub status: StatusValue,
}

/// One entry of the placeholder map: placeholder identifier and the real
/// identifier the server assigned.
#[derive(Debug)]
pub struct IdMapping {
    pub temp_id: String,
    pub real_id: String,
}

/// The body of a successful write round trip. The two maps of the wire are
/// lists of entries; where a key repeats, its first entry counts.
#[derive(Debug)]
pub struct SyncWriteResponse {
    pub sync_token: String,
    pub sync_status: Vec<StatusEntry>,
    pub temp_id_mapping: Vec<IdMapping>,
}

/// The domain projects of a list of canonical projects.
pub fn projects_from(v: Vec<SyncProject>) -> (r: Vec<Project>)
    ensures
        r@ == v@.map_values(|s: SyncProject| project_of(s)),
{
    let ghost all = v@;
    let mut rest = v;
    let mut out: Vec<Project> = Vec::new();
    while rest.len() > 0
        invariant
            out@.len() + rest@.len() == all.len(),
            rest@ == all.subrange(out@.len() as int, all.len() as int),
            out@ == all.subrange(0, out@.len() as int).map_values(|s: SyncProject| project_of(s)),
        decreases rest@.len(),
    {
        let ghost n: int = out@.len() as int;
        let x = rest.remove(0);
        out.push(Project::from(x));
        assert(out@ =~= all.subrange(0, n + 1).map_values(|s: SyncProject| project_of(s)));
    }
    assert(all.subrange(0, all.len() as int) =~= all);
    out
}

/// The domain tasks of a list of canonical tasks.
pub fn tasks_from(v: Vec<SyncTask>) -> (r: Vec<Task>)
    ensures
        r@ == v@.map_values(|s: SyncTask| task_of(s)),
{
    let ghost all = v@;
    let mut rest = v;
    let mut out: Vec<Task> = Vec::new();
    while rest.len() > 0
        invariant
            out@.len() + rest@.len() == all.len(),
            rest@ == all.subrange(out@.len() as int, all.len() as int),
            out@ == all.subrange(0, out@.len() as int).map_values(|s: SyncTask| task_of(s)),
        decreases rest@.len(),
    {
        let ghost n: int = out@.len() as int;
        let x = rest.remove(0);
        out.push(Task::from(x));
        assert(out@ =~= all.subrange(0, n + 1).map_values(|s: SyncTask| task_of(s)));
    }
    assert(all.subrange(0, all.len() as int) =~= all);
    out
}

/// The name of the first project whose identifier is `id`.
pub open spec fn project_name_for(ps: Seq<Project>, id: Seq<char>) -> Option<String>
    decreases ps.len(),
{
    if ps.len() == 0 {
        None
    } else if ps[0].id@ == id {
        Some(ps[0].name)
    } else {
        project_name_for(ps.drop_first(), id)
    }
}

/// A task joined with the name of its project, when the project is known.
pub open spec fn output_of(t: Task, ps: Seq<Project>) -> TaskOutput {
    TaskOutput {
        id: t.id,
        content: t.content,
        description: t.description,
        project_id: t.project_id,
        project_name: match t.project_id {
            Some(pid) => project_name_for(ps, pid@),
            None => None,
        },
        due_date: match t.due {
            Some(d) => d.date,
            None => None,
        },
        is_completed: t.is_completed,
        created_at: t.created_at,
        order: t.order,
        priority: t.priority,
        labels: t.labels,
    }
}

fn find_project_name(projects: &[Project], id: &String) -> (r: Option<String>)
    ensures
        r == project_name_for(projects@, id@),
{
    let mut i: usize = 0;
    assert(projects@.skip(0) =~= projects@);
    while i < projects.len()
        invariant
            i <= projects@.len(),
            project_name_for(projects@, id@) == project_name_for(projects@.skip(i as int), id@),
        decreases projects@.len() - i,
    {
        assert(projects@.skip(i as int).drop_first() =~= projects@.skip(i + 1));
        if projects[i].id == *id {
            return Some(projects[i].name.clone());
        }
        i += 1;
    }
    None
}

/// Joins a task with the name of its project.
pub fn task_output(t: Task, projects: &[Project]) -> (r: TaskOutput)
    ensures
        r == output_of(t, projects@),
{
    let project_name = match &t.project_id {
        Some(pid) => find_project_name(projects, pid),
        None => None,
    };
    let due_date = match t.due {
        Some(d) => d.date,
        None => None,
    };
    TaskOutput {
        id: t.id,
        content: t.content,
        description: t.description,
        project_id: t.project_id,
        project_name,
        due_date,
        is_completed: t.is_completed,
        created_at: t.created_at,
        order: t.order,
        priority: t.priority,
        labels: t.labels,
    }
}

/// Joins each task with the name of its project, keeping their order.
pub fn task_outputs(tasks: Vec<Task>, projects: &[Project]) -> (r: Vec<TaskOutput>)
    ensures
        r@ == tasks@.map_values(|t: Task| output_of(t, projects@)),
{
    let ghost all = tasks@;
    let mut rest = tasks;
    let mut out: Vec<TaskOutput> = Vec::new();
    while rest.len() > 0
        invariant
            out@.len() + rest@.len() == all.len(),
            rest@ == all.subrange(out@.len() as int, all.len() as int),
            out@ == all.subrange(0, out@.len() as int).map_values(|t: Task| output_of(t, projects@)),
        decreases rest@.len(),
    {
        let ghost n: int = out@.len() as int;
        let x = rest.remove(0);
        out.push(task_output(x, projects));
        assert(out@ =~= all.subrange(0, n + 1).map_values(|t: Task| output_of(t, projects@)));
    }
    assert(all.subrange(0, all.len() as int) =~= all);
    out
}

} // verus!
