//! Human-readable renderings of records: a checklist (one line per record)
//! and a structured view (headed blocks). JSON output is produced outside
//! the library, from serializable copies of the records.
use crate::models::{Filter, Project, TaskOutput};
use crate::sync_models::{SyncFilter, SyncLabel, SyncSection};
use crate::text::{
    join, join_with, lemma_text_lt_total, lemma_text_lt_transitive,
    push_decimal, decimal, str_lt, text_lt, texts,
};
use vstd::prelude::*;
use vstd::string::StringExecFns;

verus! {

#[derive(Clone, Copy, Debug, PartialEq, Eq, Structural)]
pub enum OutputFormat {
    Json,
    Checklist,
    Structured,
}

/// Records that the library can render as a checklist or a structured view.
pub trait Formattable {
    /// `out` is a rendering of `self` in `format`.
    spec fn renders(&self, format: OutputFormat, out: Seq<char>) -> bool;

    fn format(&self, format: &OutputFormat) -> (r: String)
        requires
            !(*format is Json),
        ensures
            self.renders(*format, r@),
    ;
}

/// The keys of `ks` are in strictly increasing order.
pub open spec fn strictly_sorted(ks: Seq<Seq<char>>) -> bool {
    forall|p: int, q: int| 0 <= p < q < ks.len() ==> text_lt(#[trigger] ks[p], #[trigger] ks[q])
}

/// `ks` lists the keys of `all`, each once, in increasing order.
pub open spec fn sorted_distinct(ks: Seq<Seq<char>>, all: Seq<Seq<char>>) -> bool {
    &&& strictly_sorted(ks)
    &&& ks.to_set() == all.to_set()
}

/// The distinct strings of `keys`, in increasing order.
pub fn sorted_distinct_keys(keys: &Vec<String>) -> (r: Vec<String>)
    ensures
        sorted_distinct(texts(r@), texts(keys@)),
{
    let mut out: Vec<String> = Vec::new();
    let mut i: usize = 0;
    while i < keys.len()
        invariant
            i <= keys@.len(),
            strictly_sorted(texts(out@)),
            texts(out@).to_set() == texts(keys@).take(i as int).to_set(),
        decreases keys@.len() - i,
    {
        let key = &keys[i];
        let mut j: usize = 0;
        while j < out.len() && str_lt(out[j].as_str(), key.as_str())
            invariant
                j <= out@.len(),
                forall|k: int| 0 <= k < j ==> text_lt(#[trigger] out@[k]@, key@),
            decreases out@.len() - j,
        {
            j += 1;
        }
        let ghost before = texts(out@);
        assert(texts(keys@).take(i + 1) =~= texts(keys@).take(i as int).push(key@));
        if j < out.len() && out[j] == *key {
            proof {
                texts(keys@).take(i as int).lemma_push_to_set_commute(key@);
                assert(before[j as int] == key@);
                assert(before.to_set().contains(key@));
                assert(texts(keys@).take(i + 1).to_set() =~= before.to_set());
            }
        } else {
            proof {
                if j < out@.len() {
                    lemma_text_lt_total(out@[j as int]@, key@);
                }
            }
            out.insert(j, key.clone());
            let ghost after = texts(out@);
            assert(after =~= before.insert(j as int, key@));
            assert forall|p: int, q: int| 0 <= p < q < after.len() implies text_lt(
                #[trigger] after[p],
                #[trigger] after[q],
            ) by {
                if q < j {
                } else if q == j {
                    assert(after[p] == before[p]);
                } else if p < j {
                    assert(after[q] == before[q - 1]);
                    if q - 1 > j {
                        assert(text_lt(before[j as int], before[q - 1]));
                        lemma_text_lt_transitive(key@, before[j as int], before[q - 1]);
                    }
                    lemma_text_lt_transitive(after[p], key@, after[q]);
                } else if p == j {
                    if q - 1 > j {
                        assert(text_lt(before[j as int], before[q - 1]));
                        lemma_text_lt_transitive(key@, before[j as int], before[q - 1]);
                    }
                } else {
                    assert(after[p] == before[p - 1]);
                    assert(after[q] == before[q - 1]);
                }
            }
            assert(after.to_set() =~= before.to_set().insert(key@)) by {
                assert forall|x: Seq<char>| after.to_set().contains(x) implies before.to_set().insert(
                    key@,
                ).contains(x) by {
                    let k = choose|k: int| 0 <= k < after.len() && after[k] == x;
                    if k < j {
                        assert(after[k] == before[k]);
                    } else if k > j {
                        assert(after[k] == before[k - 1]);
                    }
                }
                assert forall|x: Seq<char>| before.to_set().insert(key@).contains(x) implies after.to_set().contains(x) by {
                    if x == key@ {
                        assert(after[j as int] == x);
                    } else {
                        let k = choose|k: int| 0 <= k < before.len() && before[k] == x;
                        if k < j {
                            assert(after[k] == x);
                        } else {
                            assert(after[k + 1] == x);
                        }
                    }
                }
            }
            proof {
                texts(keys@).take(i as int).lemma_push_to_set_commute(key@);
            }
        }
        i += 1;
    }
    assert(texts(keys@).take(i as int) =~= texts(keys@));
    out
}

// ---------------------------------------------------------------- tasks

pub open spec fn checkbox(done: bool) -> Seq<char> {
    if done {
        "[x]"@
    } else {
        "[ ]"@
    }
}

fn checkbox_str(done: bool) -> (r: &'static str)
    ensures
        r@ == checkbox(done),
{
    if done {
        "[x]"
    } else {
        "[ ]"
    }
}

/// `- [x] content (project)`, without the parenthesis when there is no project.
pub open spec fn task_checklist_line(t: TaskOutput) -> Seq<char> {
    let head = "- "@ + checkbox(t.is_completed) + " "@ + t.content@;
    match t.project_name {
        Some(p) => head + " ("@ + p@ + ")"@,
        None => head,
    }
}

/// `- [x] content (Priority: n)`, without the parenthesis for priority 1 or less.
pub open spec fn task_structured_line(t: TaskOutput) -> Seq<char> {
    let head = "- "@ + checkbox(t.is_completed) + " "@ + t.content@;
    if t.priority > 1 {
        head + " (Priority: "@ + decimal(t.priority as nat) + ")"@
    } else {
        head
    }
}

/// The group a task is listed under: its project's name, or `Inbox`.
pub open spec fn task_key(t: TaskOutput) -> Seq<char> {
    match t.project_name {
        Some(p) => p@,
        None => "Inbox"@,
    }
}

pub open spec fn task_checklist_lines(ts: Seq<TaskOutput>) -> Seq<Seq<char>> {
    ts.map_values(|t: TaskOutput| task_checklist_line(t))
}

pub open spec fn task_keys(ts: Seq<TaskOutput>) -> Seq<Seq<char>> {
    ts.map_values(|t: TaskOutput| task_key(t))
}

/// The structured lines of the tasks under key `k`, in their order.
pub open spec fn task_group_lines(ts: Seq<TaskOutput>, k: Seq<char>) -> Seq<Seq<char>>
    decreases ts.len(),
{
    if ts.len() == 0 {
        Seq::empty()
    } else {
        let rest = task_group_lines(ts.drop_last(), k);
        if task_key(ts.last()) == k {
            rest.push(task_structured_line(ts.last()))
        } else {
            rest
        }
    }
}

/// `## key`, a blank line, then the group's lines.
pub open spec fn task_block(ts: Seq<TaskOutput>, k: Seq<char>) -> Seq<char> {
    "## "@ + k + "\n\n"@ + join(task_group_lines(ts, k), "\n"@)
}

pub open spec fn task_blocks(ts: Seq<TaskOutput>, ks: Seq<Seq<char>>) -> Seq<Seq<char>> {
    ks.map_values(|k: Seq<char>| task_block(ts, k))
}

fn task_checklist(t: &TaskOutput) -> (r: String)
    ensures
        r@ == task_checklist_line(*t),
{
    let mut s = String::from_str("- ");
    s.append(checkbox_str(t.is_completed));
    s.append(" ");
    s.append(t.content.as_str());
    match &t.project_name {
        Some(p) => {
            s.append(" (");
            s.append(p.as_str());
            s.append(")");
        },
        None => {},
    }
    s
}

fn task_structured(t: &TaskOutput) -> (r: String)
    ensures
        r@ == task_structured_line(*t),
{
    let mut s = String::from_str("- ");
    s.append(checkbox_str(t.is_completed));
    s.append(" ");
    s.append(t.content.as_str());
    if t.priority > 1 {
        s.append(" (Priority: ");
        push_decimal(&mut s, t.priority as u64);
        s.append(")");
    }
    s
}

fn task_key_of(t: &TaskOutput) -> (r: String)
    ensures
        r@ == task_key(*t),
{
    match &t.project_name {
        Some(p) => p.clone(),
        None => String::from_str("Inbox"),
    }
}

/// One checklist line per task.
pub fn format_checklist(tasks: &[TaskOutput]) -> (r: String)
    ensures
        r@ == join(task_checklist_lines(tasks@), "\n"@),
{
    let mut lines: Vec<String> = Vec::new();
    let mut i: usize = 0;
    while i < tasks.len()
        invariant
            i <= tasks@.len(),
            texts(lines@) == task_checklist_lines(tasks@.take(i as int)),
        decreases tasks@.len() - i,
    {
        let ghost prev = lines@;
        lines.push(task_checklist(&tasks[i]));
        assert(texts(lines@) =~= texts(prev).push(lines@.last()@));
        assert(task_checklist_lines(tasks@.take(i + 1)) =~= task_checklist_lines(
            tasks@.take(i as int),
        ).push(task_checklist_line(tasks@[i as int])));
        i += 1;
    }
    assert(tasks@.take(i as int) =~= tasks@);
    join_with(&lines, "\n")
}

fn task_group(tasks: &[TaskOutput], key: &String) -> (r: String)
    ensures
        r@ == task_block(tasks@, key@),
{
    let mut lines: Vec<String> = Vec::new();
    let mut i: usize = 0;
    while i < tasks.len()
        invariant
            i <= tasks@.len(),
            texts(lines@) == task_group_lines(tasks@.take(i as int), key@),
        decreases tasks@.len() - i,
    {
        assert(tasks@.take(i + 1).drop_last() =~= tasks@.take(i as int));
        let k = task_key_of(&tasks[i]);
        if k == *key {
            lines.push(task_structured(&tasks[i]));
        }
        assert(texts(lines@) =~= task_group_lines(tasks@.take(i + 1), key@));
        i += 1;
    }
    assert(tasks@.take(i as int) =~= tasks@);
    let mut s = String::from_str("## ");
    s.append(key.as_str());
    s.append("\n\n");
    let body = join_with(&lines, "\n");
    s.append(body.as_str());
    s
}

/// The tasks grouped by project name (`Inbox` for none), groups in
/// increasing order of name, tasks in their order within a group.
pub fn format_structured(tasks: &[TaskOutput]) -> (r: String)
    ensures
        exists|ks: Seq<Seq<char>>|
            sorted_distinct(ks, task_keys(tasks@)) && r@ == join(
                #[trigger] task_blocks(tasks@, ks),
                "\n\n"@,
            ),
{
    let mut keys: Vec<String> = Vec::new();
    let mut i: usize = 0;
    while i < tasks.len()
        invariant
            i <= tasks@.len(),
            texts(keys@) == task_keys(tasks@.take(i as int)),
        decreases tasks@.len() - i,
    {
        let ghost prev = keys@;
        keys.push(task_key_of(&tasks[i]));
        assert(texts(keys@) =~= texts(prev).push(keys@.last()@));
        assert(task_keys(tasks@.take(i + 1)) =~= task_keys(tasks@.take(i as int)).push(
            task_key(tasks@[i as int]),
        ));
        i += 1;
    }
    assert(tasks@.take(i as int) =~= tasks@);
    let sorted = sorted_distinct_keys(&keys);
    let mut blocks: Vec<String> = Vec::new();
    let mut b: usize = 0;
    while b < sorted.len()
        invariant
            b <= sorted@.len(),
            texts(blocks@) == task_blocks(tasks@, texts(sorted@).take(b as int)),
        decreases sorted@.len() - b,
    {
        let ghost prev = blocks@;
        blocks.push(task_group(tasks, &sorted[b]));
        assert(texts(blocks@) =~= texts(prev).push(blocks@.last()@));
        assert(texts(sorted@).take(b + 1) =~= texts(sorted@).take(b as int).push(sorted@[b as int]@));
        assert(task_blocks(tasks@, texts(sorted@).take(b + 1)) =~= task_blocks(
            tasks@,
            texts(sorted@).take(b as int),
        ).push(task_block(tasks@, sorted@[b as int]@)));
        b += 1;
    }
    assert(texts(sorted@).take(b as int) =~= texts(sorted@));
    join_with(&blocks, "\n\n")
}

impl Formattable for Vec<TaskOutput> {
    open spec fn renders(&self, format: OutputFormat, out: Seq<char>) -> bool {
        match format {
            OutputFormat::Checklist => out == join(task_checklist_lines(self@), "\n"@),
            OutputFormat::Structured => exists|ks: Seq<Seq<char>>|
                sorted_distinct(ks, task_keys(self@)) && out == join(
                    #[trigger] task_blocks(self@, ks),
                    "\n\n"@,
                ),
            OutputFormat::Json => false,
        }
    }

    fn format(&self, format: &OutputFormat) -> (r: String) {
        match format {
            OutputFormat::Checklist => format_checklist(self.as_slice()),
            _ => format_structured(self.as_slice()),
        }
    }
}

// ---------------------------------------------------------------- projects

/// `- [ ] ⭐ name (shared)`, the star for a favorite, the mark for a shared project.
pub open spec fn project_checklist_line(p: Project) -> Seq<char> {
    "- [ ] "@ + (if p.is_favorite { "⭐ "@ } else { ""@ }) + p.name@ + (if p.is_shared {
        " (shared)"@
    } else {
        ""@
    })
}

/// The meta line of a project: its marks separated and ended by ` | `, or
/// nothing when it has none.
pub open spec fn project_meta(p: Project) -> Seq<char> {
    if p.is_favorite && p.is_shared {
        "**Meta:** ⭐ Favorite | 👥 Shared | "@
    } else if p.is_favorite {
        "**Meta:** ⭐ Favorite | "@
    } else if p.is_shared {
        "**Meta:** 👥 Shared | "@
    } else {
        ""@
    }
}

/// A heading with the name, then color, identifier and meta line.
pub open spec fn project_structured_line(p: Project) -> Seq<char> {
    "### "@ + p.name@ + "\n\n**Color:** "@ + p.color@ + "\n**ID:** "@ + p.id@ + "\n"@ + project_meta(p)
}

fn project_checklist(p: &Project) -> (r: String)
    ensures
        r@ == project_checklist_line(*p),
{
    let mut s = String::from_str("- [ ] ");
    s.append(if p.is_favorite { "⭐ " } else { "" });
    s.append(p.name.as_str());
    s.append(if p.is_shared { " (shared)" } else { "" });
    s
}

fn project_structured(p: &Project) -> (r: String)
    ensures
        r@ == project_structured_line(*p),
{
    let mut s = String::from_str("### ");
    s.append(p.name.as_str());
    s.append("\n\n**Color:** ");
    s.append(p.color.as_str());
    s.append("\n**ID:** ");
    s.append(p.id.as_str());
    s.append("\n");
    let meta = if p.is_favorite && p.is_shared {
        "**Meta:** ⭐ Favorite | 👥 Shared | "
    } else if p.is_favorite {
        "**Meta:** ⭐ Favorite | "
    } else if p.is_shared {
        "**Meta:** 👥 Shared | "
    } else {
        ""
    };
    s.append(meta);
    s
}

pub open spec fn project_checklist_lines(ts: Seq<Project>) -> Seq<Seq<char>> {
    ts.map_values(|t: Project| project_checklist_line(t))
}

/// One checklist line per project.
pub fn format_projects_checklist(items: &[Project]) -> (r: String)
    ensures
        r@ == join(project_checklist_lines(items@), "\n"@),
{
    let mut lines: Vec<String> = Vec::new();
    let mut i: usize = 0;
    while i < items.len()
        invariant
            i <= items@.len(),
            texts(lines@) == project_checklist_lines(items@.take(i as int)),
        decreases items@.len() - i,
    {
        let ghost prev = lines@;
        lines.push(project_checklist(&items[i]));
        assert(texts(lines@) =~= texts(prev).push(lines@.last()@));
        assert(project_checklist_lines(items@.take(i + 1)) =~= project_checklist_lines(items@.take(i as int)).push(
            project_checklist_line(items@[i as int]),
        ));
        i += 1;
    }
    assert(items@.take(i as int) =~= items@);
    join_with(&lines, "\n")
}

pub open spec fn project_structured_lines(ts: Seq<Project>) -> Seq<Seq<char>> {
    ts.map_values(|t: Project| project_structured_line(t))
}

/// One block per project, blocks separated by a blank line.
pub fn format_projects_structured(items: &[Project]) -> (r: String)
    ensures
        r@ == join(project_structured_lines(items@), "\n\n"@),
{
    let mut lines: Vec<String> = Vec::new();
    let mut i: usize = 0;
    while i < items.len()
        invariant
            i <= items@.len(),
            texts(lines@) == project_structured_lines(items@.take(i as int)),
        decreases items@.len() - i,
    {
        let ghost prev = lines@;
        lines.push(project_structured(&items[i]));
        assert(texts(lines@) =~= texts(prev).push(lines@.last()@));
        assert(project_structured_lines(items@.take(i + 1)) =~= project_structured_lines(items@.take(i as int)).push(
            project_structured_line(items@[i as int]),
        ));
        i += 1;
    }
    assert(items@.take(i as int) =~= items@);
    join_with(&lines, "\n\n")
}

impl Formattable for Vec<Project> {
    open spec fn renders(&self, format: OutputFormat, out: Seq<char>) -> bool {
        match format {
            OutputFormat::Checklist => out == join(project_checklist_lines(self@), "\n"@),
            OutputFormat::Structured => out == join(project_structured_lines(self@), "\n\n"@),
            OutputFormat::Json => false,
        }
    }

    fn format(&self, format: &OutputFormat) -> (r: String) {
        match format {
            OutputFormat::Checklist => format_projects_checklist(self.as_slice()),
            _ => format_projects_structured(self.as_slice()),
        }
    }
}

// ---------------------------------------------------------------- filters

/// `- [ ] name (query)`.
pub open spec fn filter_checklist_text(name: Seq<char>, query: Seq<char>) -> Seq<char> {
    "- [ ] "@ + name + " ("@ + query + ")"@
}

/// A heading with the name, then the query and the identifier.
pub open spec fn filter_structured_text(name: Seq<char>, query: Seq<char>, id: Seq<char>) -> Seq<char> {
    "### "@ + name + "\n\n**Filter:** `"@ + query + "`\n**ID:** "@ + id + "\n"@
}

fn filter_checklist_of(name: &String, query: &String) -> (r: String)
    ensures
        r@ == filter_checklist_text(name@, query@),
{
    let mut s = String::from_str("- [ ] ");
    s.append(name.as_str());
    s.append(" (");
    s.append(query.as_str());
    s.append(")");
    s
}

fn filter_structured_of(name: &String, query: &String, id: &String) -> (r: String)
    ensures
        r@ == filter_structured_text(name@, query@, id@),
{
    let mut s = String::from_str("### ");
    s.append(name.as_str());
    s.append("\n\n**Filter:** `");
    s.append(query.as_str());
    s.append("`\n**ID:** ");
    s.append(id.as_str());
    s.append("\n");
    s
}

pub open spec fn filter_checklist_line(f: Filter) -> Seq<char> {
    filter_checklist_text(f.name@, f.query@)
}

pub open spec fn filter_structured_line(f: Filter) -> Seq<char> {
    filter_structured_text(f.name@, f.query@, f.id@)
}

pub open spec fn sync_filter_checklist_line(f: SyncFilter) -> Seq<char> {
    filter_checklist_text(f.name@, f.query@)
}

pub open spec fn sync_filter_structured_line(f: SyncFilter) -> Seq<char> {
    filter_structured_text(f.name@, f.query@, f.id@)
}

fn filter_checklist(f: &Filter) -> (r: String)
    ensures
        r@ == filter_checklist_line(*f),
{
    filter_checklist_of(&f.name, &f.query)
}

fn filter_structured(f: &Filter) -> (r: String)
    ensures
        r@ == filter_structured_line(*f),
{
    filter_structured_of(&f.name, &f.query, &f.id)
}

fn sync_filter_checklist(f: &SyncFilter) -> (r: String)
    ensures
        r@ == sync_filter_checklist_line(*f),
{
    filter_checklist_of(&f.name, &f.query)
}

fn sync_filter_structured(f: &SyncFilter) -> (r: String)
    ensures
        r@ == sync_filter_structured_line(*f),
{
    filter_structured_of(&f.name, &f.query, &f.id)
}

pub open spec fn filter_checklist_lines(ts: Seq<Filter>) -> Seq<Seq<char>> {
    ts.map_values(|t: Filter| filter_checklist_line(t))
}

/// One checklist line per filter.
pub fn format_filters_checklist(items: &[Filter]) -> (r: String)
    ensures
        r@ == join(filter_checklist_lines(items@), "\n"@),
{
    let mut lines: Vec<String> = Vec::new();
    let mut i: usize = 0;
    while i < items.len()
        invariant
            i <= items@.len(),
            texts(lines@) == filter_checklist_lines(items@.take(i as int)),
        decreases items@.len() - i,
    {
        let ghost prev = lines@;
        lines.push(filter_checklist(&items[i]));
        assert(texts(lines@) =~= texts(prev).push(lines@.last()@));
        assert(filter_checklist_lines(items@.take(i + 1)) =~= filter_checklist_lines(items@.take(i as int)).push(
            filter_checklist_line(items@[i as int]),
        ));
        i += 1;
    }
    assert(items@.take(i as int) =~= items@);
    join_with(&lines, "\n")
}

pub open spec fn filter_structured_lines(ts: Seq<Filter>) -> Seq<Seq<char>> {
    ts.map_values(|t: Filter| filter_structured_line(t))
}

/// One block per filter, blocks separated by a blank line.
pub fn format_filters_structured(items: &[Filter]) -> (r: String)
    ensures
        r@ == join(filter_structured_lines(items@), "\n\n"@),
{
    let mut lines: Vec<String> = Vec::new();
    let mut i: usize = 0;
    while i < items.len()
        invariant
            i <= items@.len(),
            texts(lines@) == filter_structured_lines(items@.take(i as int)),
        decreases items@.len() - i,
    {
        let ghost prev = lines@;
        lines.push(filter_structured(&items[i]));
        assert(texts(lines@) =~= texts(prev).push(lines@.last()@));
        assert(filter_structured_lines(items@.take(i + 1)) =~= filter_structured_lines(items@.take(i as int)).push(
            filter_structured_line(items@[i as int]),
        ));
        i += 1;
    }
    assert(items@.take(i as int) =~= items@);
    join_with(&lines, "\n\n")
}

pub open spec fn sync_filter_checklist_lines(ts: Seq<SyncFilter>) -> Seq<Seq<char>> {
    ts.map_values(|t: SyncFilter| sync_filter_checklist_line(t))
}

/// One checklist line per filter.
pub fn format_sync_filters_checklist(items: &[SyncFilter]) -> (r: String)
    ensures
        r@ == join(sync_filter_checklist_lines(items@), "\n"@),
{
    let mut lines: Vec<String> = Vec::new();
    let mut i: usize = 0;
    while i < items.len()
        invariant
            i <= items@.len(),
            texts(lines@) == sync_filter_checklist_lines(items@.take(i as int)),
        decreases items@.len() - i,
    {
        let ghost prev = lines@;
        lines.push(sync_filter_checklist(&items[i]));
        assert(texts(lines@) =~= texts(prev).push(lines@.last()@));
        assert(sync_filter_checklist_lines(items@.take(i + 1)) =~= sync_filter_checklist_lines(items@.take(i as int)).push(
            sync_filter_checklist_line(items@[i as int]),
        ));
        i += 1;
    }
    assert(items@.take(i as int) =~= items@);
    join_with(&lines, "\n")
}

pub open spec fn sync_filter_structured_lines(ts: Seq<SyncFilter>) -> Seq<Seq<char>> {
    ts.map_values(|t: SyncFilter| sync_filter_structured_line(t))
}

/// One block per filter, blocks separated by a blank line.
pub fn format_sync_filters_structured(items: &[SyncFilter]) -> (r: String)
    ensures
        r@ == join(sync_filter_structured_lines(items@), "\n\n"@),
{
    let mut lines: Vec<String> = Vec::new();
    let mut i: usize = 0;
    while i < items.len()
        invariant
            i <= items@.len(),
            texts(lines@) == sync_filter_structured_lines(items@.take(i as int)),
        decreases items@.len() - i,
    {
        let ghost prev = lines@;
        lines.push(sync_filter_structured(&items[i]));
        assert(texts(lines@) =~= texts(prev).push(lines@.last()@));
        assert(sync_filter_structured_lines(items@.take(i + 1)) =~= sync_filter_structured_lines(items@.take(i as int)).push(
            sync_filter_structured_line(items@[i as int]),
        ));
        i += 1;
    }
    assert(items@.take(i as int) =~= items@);
    join_with(&lines, "\n\n")
}

impl Formattable for Vec<Filter> {
    open spec fn renders(&self, format: OutputFormat, out: Seq<char>) -> bool {
        match format {
            OutputFormat::Checklist => out == join(filter_checklist_lines(self@), "\n"@),
            OutputFormat::Structured => out == join(filter_structured_lines(self@), "\n\n"@),
            OutputFormat::Json => false,
        }
    }

    fn format(&self, format: &OutputFormat) -> (r: String) {
        match format {
            OutputFormat::Checklist => format_filters_checklist(self.as_slice()),
            _ => format_filters_structured(self.as_slice()),
        }
    }
}

impl Formattable for Vec<SyncFilter> {
    open spec fn renders(&self, format: OutputFormat, out: Seq<char>) -> bool {
        match format {
            OutputFormat::Checklist => out == join(sync_filter_checklist_lines(self@), "\n"@),
            OutputFormat::Structured => out == join(sync_filter_structured_lines(self@), "\n\n"@),
            OutputFormat::Json => false,
        }
    }

    fn format(&self, format: &OutputFormat) -> (r: String) {
        match format {
            OutputFormat::Checklist => format_sync_filters_checklist(self.as_slice()),
            _ => format_sync_filters_structured(self.as_slice()),
        }
    }
}

// ---------------------------------------------------------------- labels

/// `- [ ] ⭐ name (Color: color)`, the star for a favorite.
pub open spec fn label_checklist_line(l: SyncLabel) -> Seq<char> {
    "- [ ] "@ + (if l.is_favorite { "⭐ "@ } else { ""@ }) + l.name@ + " (Color: "@ + l.color@ + ")"@
}

/// A heading with the name, then color, identifier and, for a favorite, a
/// favorite line.
pub open spec fn label_structured_line(l: SyncLabel) -> Seq<char> {
    "### "@ + l.name@ + "\n\n**Color:** "@ + l.color@ + "\n**ID:** "@ + l.id@ + "\n"@ + (if l.is_favorite {
        "**Favorite:** Yes\n"@
    } else {
        ""@
    })
}

fn label_checklist(l: &SyncLabel) -> (r: String)
    ensures
        r@ == label_checklist_line(*l),
{
    let mut s = String::from_str("- [ ] ");
    s.append(if l.is_favorite { "⭐ " } else { "" });
    s.append(l.name.as_str());
    s.append(" (Color: ");
    s.append(l.color.as_str());
    s.append(")");
    s
}

fn label_structured(l: &SyncLabel) -> (r: String)
    ensures
        r@ == label_structured_line(*l),
{
    let mut s = String::from_str("### ");
    s.append(l.name.as_str());
    s.append("\n\n**Color:** ");
    s.append(l.color.as_str());
    s.append("\n**ID:** ");
    s.append(l.id.as_str());
    s.append("\n");
    s.append(if l.is_favorite { "**Favorite:** Yes\n" } else { "" });
    s
}

pub open spec fn label_checklist_lines(ts: Seq<SyncLabel>) -> Seq<Seq<char>> {
    ts.map_values(|t: SyncLabel| label_checklist_line(t))
}

/// One checklist line per label.
pub fn format_sync_labels_checklist(items: &[SyncLabel]) -> (r: String)
    ensures
        r@ == join(label_checklist_lines(items@), "\n"@),
{
    let mut lines: Vec<String> = Vec::new();
    let mut i: usize = 0;
    while i < items.len()
        invariant
            i <= items@.len(),
            texts(lines@) == label_checklist_lines(items@.take(i as int)),
        decreases items@.len() - i,
    {
        let ghost prev = lines@;
        lines.push(label_checklist(&items[i]));
        assert(texts(lines@) =~= texts(prev).push(lines@.last()@));
        assert(label_checklist_lines(items@.take(i + 1)) =~= label_checklist_lines(items@.take(i as int)).push(
            label_checklist_line(items@[i as int]),
        ));
        i += 1;
    }
    assert(items@.take(i as int) =~= items@);
    join_with(&lines, "\n")
}

pub open spec fn label_structured_lines(ts: Seq<SyncLabel>) -> Seq<Seq<char>> {
    ts.map_values(|t: SyncLabel| label_structured_line(t))
}

/// One block per label, blocks separated by a blank line.
pub fn format_sync_labels_structured(items: &[SyncLabel]) -> (r: String)
    ensures
        r@ == join(label_structured_lines(items@), "\n\n"@),
{
    let mut lines: Vec<String> = Vec::new();
    let mut i: usize = 0;
    while i < items.len()
        invariant
            i <= items@.len(),
            texts(lines@) == label_structured_lines(items@.take(i as int)),
        decreases items@.len() - i,
    {
        let ghost prev = lines@;
        lines.push(label_structured(&items[i]));
        assert(texts(lines@) =~= texts(prev).push(lines@.last()@));
        assert(label_structured_lines(items@.take(i + 1)) =~= label_structured_lines(items@.take(i as int)).push(
            label_structured_line(items@[i as int]),
        ));
        i += 1;
    }
    assert(items@.take(i as int) =~= items@);
    join_with(&lines, "\n\n")
}

impl Formattable for Vec<SyncLabel> {
    open spec fn renders(&self, format: OutputFormat, out: Seq<char>) -> bool {
        match format {
            OutputFormat::Checklist => out == join(label_checklist_lines(self@), "\n"@),
            OutputFormat::Structured => out == join(label_structured_lines(self@), "\n\n"@),
            OutputFormat::Json => false,
        }
    }

    fn format(&self, format: &OutputFormat) -> (r: String) {
        match format {
            OutputFormat::Checklist => format_sync_labels_checklist(self.as_slice()),
            _ => format_sync_labels_structured(self.as_slice()),
        }
    }
}

// ---------------------------------------------------------------- sections

/// `- [ ] name (Project: project)`.
pub open spec fn section_checklist_line(x: SyncSection) -> Seq<char> {
    "- [ ] "@ + x.name@ + " (Project: "@ + x.project_id@ + ")"@
}

/// `- [ ] name (ID: id)`, a line of a project's group.
pub open spec fn section_group_line(x: SyncSection) -> Seq<char> {
    "- [ ] "@ + x.name@ + " (ID: "@ + x.id@ + ")"@
}

pub open spec fn section_key(x: SyncSection) -> Seq<char> {
    x.project_id@
}

pub open spec fn section_keys(ts: Seq<SyncSection>) -> Seq<Seq<char>> {
    ts.map_values(|t: SyncSection| section_key(t))
}

/// The group lines of the sections of project `k`, in their order.
pub open spec fn section_group_lines(ts: Seq<SyncSection>, k: Seq<char>) -> Seq<Seq<char>>
    decreases ts.len(),
{
    if ts.len() == 0 {
        Seq::empty()
    } else {
        let rest = section_group_lines(ts.drop_last(), k);
        if section_key(ts.last()) == k {
            rest.push(section_group_line(ts.last()))
        } else {
            rest
        }
    }
}

/// `## Project: id`, a blank line, then the group's lines.
pub open spec fn section_block(ts: Seq<SyncSection>, k: Seq<char>) -> Seq<char> {
    "## Project: "@ + k + "\n\n"@ + join(section_group_lines(ts, k), "\n"@)
}

pub open spec fn section_blocks(ts: Seq<SyncSection>, ks: Seq<Seq<char>>) -> Seq<Seq<char>> {
    ks.map_values(|k: Seq<char>| section_block(ts, k))
}

fn section_checklist(x: &SyncSection) -> (r: String)
    ensures
        r@ == section_checklist_line(*x),
{
    let mut s = String::from_str("- [ ] ");
    s.append(x.name.as_str());
    s.append(" (Project: ");
    s.append(x.project_id.as_str());
    s.append(")");
    s
}

fn section_group_entry(x: &SyncSection) -> (r: String)
    ensures
        r@ == section_group_line(*x),
{
    let mut s = String::from_str("- [ ] ");
    s.append(x.name.as_str());
    s.append(" (ID: ");
    s.append(x.id.as_str());
    s.append(")");
    s
}

pub open spec fn section_checklist_lines(ts: Seq<SyncSection>) -> Seq<Seq<char>> {
    ts.map_values(|t: SyncSection| section_checklist_line(t))
}

/// One checklist line per section.
pub fn format_sections_checklist(items: &[SyncSection]) -> (r: String)
    ensures
        r@ == join(section_checklist_lines(items@), "\n"@),
{
    let mut lines: Vec<String> = Vec::new();
    let mut i: usize = 0;
    while i < items.len()
        invariant
            i <= items@.len(),
            texts(lines@) == section_checklist_lines(items@.take(i as int)),
        decreases items@.len() - i,
    {
        let ghost prev = lines@;
        lines.push(section_checklist(&items[i]));
        assert(texts(lines@) =~= texts(prev).push(lines@.last()@));
        assert(section_checklist_lines(items@.take(i + 1)) =~= section_checklist_lines(items@.take(i as int)).push(
            section_checklist_line(items@[i as int]),
        ));
        i += 1;
    }
    assert(items@.take(i as int) =~= items@);
    join_with(&lines, "\n")
}

fn section_group(sections: &[SyncSection], key: &String) -> (r: String)
    ensures
        r@ == section_block(sections@, key@),
{
    let mut lines: Vec<String> = Vec::new();
    let mut i: usize = 0;
    while i < sections.len()
        invariant
            i <= sections@.len(),
            texts(lines@) == section_group_lines(sections@.take(i as int), key@),
        decreases sections@.len() - i,
    {
        assert(sections@.take(i + 1).drop_last() =~= sections@.take(i as int));
        if sections[i].project_id == *key {
            lines.push(section_group_entry(&sections[i]));
        }
        assert(texts(lines@) =~= section_group_lines(sections@.take(i + 1), key@));
        i += 1;
    }
    assert(sections@.take(i as int) =~= sections@);
    let mut s = String::from_str("## Project: ");
    s.append(key.as_str());
    s.append("\n\n");
    let body = join_with(&lines, "\n");
    s.append(body.as_str());
    s
}

/// The sections grouped by project identifier, groups in increasing order
/// of identifier, sections in their order within a group.
pub fn format_sections_structured(sections: &[SyncSection]) -> (r: String)
    ensures
        exists|ks: Seq<Seq<char>>|
            sorted_distinct(ks, section_keys(sections@)) && r@ == join(
                #[trigger] section_blocks(sections@, ks),
                "\n\n"@,
            ),
{
    let mut keys: Vec<String> = Vec::new();
    let mut i: usize = 0;
    while i < sections.len()
        invariant
            i <= sections@.len(),
            texts(keys@) == section_keys(sections@.take(i as int)),
        decreases sections@.len() - i,
    {
        let ghost prev = keys@;
        keys.push(sections[i].project_id.clone());
        assert(texts(keys@) =~= texts(prev).push(keys@.last()@));
        assert(section_keys(sections@.take(i + 1)) =~= section_keys(sections@.take(i as int)).push(
            section_key(sections@[i as int]),
        ));
        i += 1;
    }
    assert(sections@.take(i as int) =~= sections@);
    let sorted = sorted_distinct_keys(&keys);
    let mut blocks: Vec<String> = Vec::new();
    let mut b: usize = 0;
    while b < sorted.len()
        invariant
            b <= sorted@.len(),
            texts(blocks@) == section_blocks(sections@, texts(sorted@).take(b as int)),
        decreases sorted@.len() - b,
    {
        let ghost prev = blocks@;
        blocks.push(section_group(sections, &sorted[b]));
        assert(texts(blocks@) =~= texts(prev).push(blocks@.last()@));
        assert(texts(sorted@).take(b + 1) =~= texts(sorted@).take(b as int).push(sorted@[b as int]@));
        assert(section_blocks(sections@, texts(sorted@).take(b + 1)) =~= section_blocks(
            sections@,
            texts(sorted@).take(b as int),
        ).push(section_block(sections@, sorted@[b as int]@)));
        b += 1;
    }
    assert(texts(sorted@).take(b as int) =~= texts(sorted@));
    join_with(&blocks, "\n\n")
}

impl Formattable for Vec<SyncSection> {
    open spec fn renders(&self, format: OutputFormat, out: Seq<char>) -> bool {
        match format {
            OutputFormat::Checklist => out == join(section_checklist_lines(self@), "\n"@),
            OutputFormat::Structured => exists|ks: Seq<Seq<char>>|
                sorted_distinct(ks, section_keys(self@)) && out == join(
                    #[trigger] section_blocks(self@, ks),
                    "\n\n"@,
                ),
            OutputFormat::Json => false,
        }
    }

    fn format(&self, format: &OutputFormat) -> (r: String) {
        match format {
            OutputFormat::Checklist => format_sections_checklist(self.as_slice()),
            _ => format_sections_structured(self.as_slice()),
        }
    }
}

} // verus!
