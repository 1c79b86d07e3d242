//! Command envelopes and the builder that accumulates one batch of them.
//!
//! Each envelope carries a fresh correlation identifier; the envelope of a
//! creation also carries a fresh placeholder identifier, which the server
//! maps to the real identifier of what it created.
use vstd::prelude::*;
use vstd::string::StringExecFns;

verus! {

/// Relies on `uuid::Uuid::new_v4` and on `Uuid`'s `Display`, which writes
/// the hyphenated form: 32 hexadecimal digits and 4 hyphens.
#[verifier::external_body]
fn new_v4_text() -> (r: String)
    ensures
        r@.len() == 36,
{
    uuid::Uuid::new_v4().to_string()
}

/// The arguments of one operation, one variant per kind of operation.
#[derive(Debug)]
pub enum CommandArgs {
    ItemAdd(ItemAddArgs),
    ItemClose { id: String },
    ItemReopen { id: String },
    ItemDelete { id: String },
    ItemMove { id: String, project_id: String, section_id: Option<String> },
    ItemComplete { id: String },
    ItemUpdate(ItemUpdateArgs),
    ProjectAdd(ProjectAddArgs),
    ProjectUpdate { id: String, name: Option<String>, color: Option<String>, favorite: Option<bool> },
    ProjectDelete { id: String },
    SectionAdd(SectionAddArgs),
    SectionUpdate { id: String, name: String },
    SectionDelete { id: String },
    SectionArchive { id: String },
    SectionUnarchive { id: String },
    SectionMove { id: String, project_id: String },
    SectionReorder { sections: Vec<SectionOrderArgs> },
    LabelAdd(LabelAddArgs),
    LabelUpdate { id: String, name: Option<String>, color: Option<String> },
    LabelDelete { id: String },
    FilterAdd(FilterAddArgs),
    FilterUpdate { id: String, name: Option<String>, query: Option<String>, color: Option<String> },
    FilterDelete { id: String },
    FilterUpdateOrders { filters: Vec<FilterOrderArgs> },
}

impl CommandArgs {
    /// The operation type named on the wire.
    pub open spec fn kind(&self) -> Seq<char> {
        match self {
            CommandArgs::ItemAdd(_) => "item_add"@,
            CommandArgs::ItemClose { .. } => "item_close"@,
            CommandArgs::ItemReopen { .. } => "item_reopen"@,
            CommandArgs::ItemDelete { .. } => "item_delete"@,
            CommandArgs::ItemMove { .. } => "item_move"@,
            CommandArgs::ItemComplete { .. } => "item_complete"@,
            CommandArgs::ItemUpdate(_) => "item_update"@,
            CommandArgs::ProjectAdd(_) => "project_add"@,
            CommandArgs::ProjectUpdate { .. } => "project_update"@,
            CommandArgs::ProjectDelete { .. } => "project_delete"@,
            CommandArgs::SectionAdd(_) => "section_add"@,
            CommandArgs::SectionUpdate { .. } => "section_update"@,
            CommandArgs::SectionDelete { .. } => "section_delete"@,
            CommandArgs::SectionArchive { .. } => "section_archive"@,
            CommandArgs::SectionUnarchive { .. } => "section_unarchive"@,
            CommandArgs::SectionMove { .. } => "section_move"@,
            CommandArgs::SectionReorder { .. } => "section_reorder"@,
            CommandArgs::LabelAdd(_) => "label_add"@,
            CommandArgs::LabelUpdate { .. } => "label_update"@,
            CommandArgs::LabelDelete { .. } => "label_delete"@,
            CommandArgs::FilterAdd(_) => "filter_add"@,
            CommandArgs::FilterUpdate { .. } => "filter_update"@,
            CommandArgs::FilterDelete { .. } => "filter_delete"@,
            CommandArgs::FilterUpdateOrders { .. } => "filter_update_orders"@,
        }
    }

    /// Whether the operation creates something that will receive a
    /// server-assigned identifier.
    pub open spec fn creates(&self) -> bool {
        ||| self is ItemAdd
        ||| self is ProjectAdd
        ||| self is SectionAdd
        ||| self is LabelAdd
        ||| self is FilterAdd
    }

    pub fn kind_name(&self) -> (r: &'static str)
        ensures
            r@ == self.kind(),
    {
        match self {
            CommandArgs::ItemAdd(_) => "item_add",
            CommandArgs::ItemClose { .. } => "item_close",
            CommandArgs::ItemReopen { .. } => "item_reopen",
            CommandArgs::ItemDelete { .. } => "item_delete",
            CommandArgs::ItemMove { .. } => "item_move",
            CommandArgs::ItemComplete { .. } => "item_complete",
            CommandArgs::ItemUpdate(_) => "item_update",
            CommandArgs::ProjectAdd(_) => "project_add",
            CommandArgs::ProjectUpdate { .. } => "project_update",
            CommandArgs::ProjectDelete { .. } => "project_delete",
            CommandArgs::SectionAdd(_) => "section_add",
            CommandArgs::SectionUpdate { .. } => "section_update",
            CommandArgs::SectionDelete { .. } => "section_delete",
            CommandArgs::SectionArchive { .. } => "section_archive",
            CommandArgs::SectionUnarchive { .. } => "section_unarchive",
            CommandArgs::SectionMove { .. } => "section_move",
            CommandArgs::SectionReorder { .. } => "section_reorder",
            CommandArgs::LabelAdd(_) => "label_add",
            CommandArgs::LabelUpdate { .. } => "label_update",
            CommandArgs::LabelDelete { .. } => "label_delete",
            CommandArgs::FilterAdd(_) => "filter_add",
            CommandArgs::FilterUpdate { .. } => "filter_update",
            CommandArgs::FilterDelete { .. } => "filter_delete",
            CommandArgs::FilterUpdateOrders { .. } => "filter_update_orders",
        }
    }

    pub fn is_creation(&self) -> (r: bool)
        ensures
            r == self.creates(),
    {
        match self {
            CommandArgs::ItemAdd(_) | CommandArgs::ProjectAdd(_) | CommandArgs::SectionAdd(_)
            | CommandArgs::LabelAdd(_) | CommandArgs::FilterAdd(_) => true,
            _ => false,
        }
    }
}

/// The text of an optional owned string.
pub open spec fn opt_text(o: Option<String>) -> Option<Seq<char>> {
    match o {
        Some(s) => Some(s@),
        None => None,
    }
}

/// The text of an optional borrowed string.
pub open spec fn opt_str_text(o: Option<&str>) -> Option<Seq<char>> {
    match o {
        Some(s) => Some(s@),
        None => None,
    }
}

fn owned(o: Option<&str>) -> (r: Option<String>)
    ensures
        opt_text(r) == opt_str_text(o),
{
    match o {
        Some(s) => Some(String::from_str(s)),
        None => None,
    }
}

/// One envelope: operation type, correlation identifier, placeholder
/// identifier for creations, and arguments.
#[derive(Debug)]
pub struct Command {
    pub type_: String,
    pub uuid: String,
    pub temp_id: Option<String>,
    pub args: CommandArgs,
}

impl Command {
    /// The envelope is consistent: its type names its arguments' kind, its
    /// correlation identifier is a UUID, and it has a placeholder identifier
    /// (a UUID) exactly when it is a creation.
    pub open spec fn wf(&self) -> bool {
        &&& self.type_@ == self.args.kind()
        &&& self.uuid@.len() == 36
        &&& (self.temp_id is Some <==> self.args.creates())
        &&& (self.temp_id matches Some(t) ==> t@.len() == 36)
    }

    /// A fresh correlation identifier.
    pub fn generate_uuid() -> (r: String)
        ensures
            r@.len() == 36,
    {
        new_v4_text()
    }

    /// A fresh placeholder identifier.
    pub fn generate_temp_id() -> (r: String)
        ensures
            r@.len() == 36,
    {
        new_v4_text()
    }

    /// A new envelope for `args`, with fresh identifiers.
    pub fn new(args: CommandArgs) -> (r: Command)
        ensures
            r.wf(),
            r.args == args,
    {
        let temp_id = if args.is_creation() {
            Some(Self::generate_temp_id())
        } else {
            None
        };
        Command {
            type_: String::from_str(args.kind_name()),
            uuid: Self::generate_uuid(),
            temp_id,
            args,
        }
    }
}

/// Accumulates the envelopes of one batch, in submission order.
pub struct CommandBuilder {
    commands: Vec<Command>,
}

impl CommandBuilder {
    pub closed spec fn view(&self) -> Seq<Command> {
        self.commands@
    }

    /// Every envelope gathered so far is consistent.
    pub open spec fn wf(&self) -> bool {
        forall|i: int| 0 <= i < self.view().len() ==> (#[trigger] self.view()[i]).wf()
    }

    /// `after` is `before` with one more consistent envelope for `args` at
    /// the end.
    pub open spec fn appended(before: Seq<Command>, after: Seq<Command>, args: CommandArgs) -> bool {
        &&& after.len() == before.len() + 1
        &&& after.drop_last() == before
        &&& after.last().args == args
        &&& after.last().wf()
    }

    /// `after` is `before` with one more consistent envelope at the end.
    pub open spec fn grew(before: Seq<Command>, after: Seq<Command>) -> bool {
        &&& after.len() == before.len() + 1
        &&& after.drop_last() == before
        &&& after.last().wf()
    }

    pub fn new() -> (r: Self)
        ensures
            r.view() == Seq::<Command>::empty(),
            r.wf(),
    {
        CommandBuilder { commands: Vec::new() }
    }

    /// Appends an envelope for `args`.
    pub fn push(self, args: CommandArgs) -> (r: Self)
        requires
            self.wf(),
        ensures
            Self::appended(self.view(), r.view(), args),
            r.wf(),
    {
        let ghost before = self.commands@;
        let mut commands = self.commands;
        commands.push(Command::new(args));
        assert(commands@.drop_last() =~= before);
        CommandBuilder { commands }
    }

    /// The envelopes in submission order; the builder is left as it was.
    pub fn build(self) -> (r: Vec<Command>)
        ensures
            r@ == self.view(),
    {
        self.commands
    }

    /// Number of envelopes gathered so far.
    pub fn len(&self) -> (r: usize)
        ensures
            r == self.view().len(),
    {
        self.commands.len()
    }

    pub fn item_add(self, args: ItemAddArgs) -> (r: Self)
        requires
            self.wf(),
        ensures
            Self::appended(self.view(), r.view(), CommandArgs::ItemAdd(args)),
            r.wf(),
    {
        self.push(CommandArgs::ItemAdd(args))
    }

    pub fn item_close(self, id: &str) -> (r: Self)
        requires
            self.wf(),
        ensures
            Self::grew(self.view(), r.view()),
            r.view().last().args matches CommandArgs::ItemClose { id: x_id } && x_id@ == id@,
            r.wf(),
    {
        self.push(CommandArgs::ItemClose { id: String::from_str(id) })
    }

    pub fn item_reopen(self, id: &str) -> (r: Self)
        requires
            self.wf(),
        ensures
            Self::grew(self.view(), r.view()),
            r.view().last().args matches CommandArgs::ItemReopen { id: x_id } && x_id@ == id@,
            r.wf(),
    {
        self.push(CommandArgs::ItemReopen { id: String::from_str(id) })
    }

    pub fn item_delete(self, id: &str) -> (r: Self)
        requires
            self.wf(),
        ensures
            Self::grew(self.view(), r.view()),
            r.view().last().args matches CommandArgs::ItemDelete { id: x_id } && x_id@ == id@,
            r.wf(),
    {
        self.push(CommandArgs::ItemDelete { id: String::from_str(id) })
    }

    pub fn item_complete(self, id: &str) -> (r: Self)
        requires
            self.wf(),
        ensures
            Self::grew(self.view(), r.view()),
            r.view().last().args matches CommandArgs::ItemComplete { id: x_id } && x_id@ == id@,
            r.wf(),
    {
        self.push(CommandArgs::ItemComplete { id: String::from_str(id) })
    }

    pub fn item_move(self, id: &str, project_id: &str, section_id: Option<&str>) -> (r: Self)
        requires
            self.wf(),
        ensures
            Self::grew(self.view(), r.view()),
            r.view().last().args matches CommandArgs::ItemMove { id: x_id, project_id: x_project_id, section_id: x_section_id } && x_id@ == id@ && x_project_id@ == project_id@ && opt_text(x_section_id) == opt_str_text(section_id),
            r.wf(),
    {
        self.push(CommandArgs::ItemMove { id: String::from_str(id), project_id: String::from_str(project_id), section_id: owned(section_id) })
    }

    pub fn item_update(self, args: ItemUpdateArgs) -> (r: Self)
        requires
            self.wf(),
        ensures
            Self::appended(self.view(), r.view(), CommandArgs::ItemUpdate(args)),
            r.wf(),
    {
        self.push(CommandArgs::ItemUpdate(args))
    }

    pub fn project_add(self, args: ProjectAddArgs) -> (r: Self)
        requires
            self.wf(),
        ensures
            Self::appended(self.view(), r.view(), CommandArgs::ProjectAdd(args)),
            r.wf(),
    {
        self.push(CommandArgs::ProjectAdd(args))
    }

    pub fn project_update(self, id: &str, name: Option<&str>, color: Option<&str>, favorite: Option<bool>) -> (r: Self)
        requires
            self.wf(),
        ensures
            Self::grew(self.view(), r.view()),
            r.view().last().args matches CommandArgs::ProjectUpdate { id: x_id, name: x_name, color: x_color, favorite: x_favorite } && x_id@ == id@ && opt_text(x_name) == opt_str_text(name) && opt_text(x_color) == opt_str_text(color) && x_favorite == favorite,
            r.wf(),
    {
        self.push(CommandArgs::ProjectUpdate { id: String::from_str(id), name: owned(name), color: owned(color), favorite: favorite })
    }

    pub fn project_delete(self, id: &str) -> (r: Self)
        requires
            self.wf(),
        ensures
            Self::grew(self.view(), r.view()),
            r.view().last().args matches CommandArgs::ProjectDelete { id: x_id } && x_id@ == id@,
            r.wf(),
    {
        self.push(CommandArgs::ProjectDelete { id: String::from_str(id) })
    }

    pub fn section_add(self, args: SectionAddArgs) -> (r: Self)
        requires
            self.wf(),
        ensures
            Self::appended(self.view(), r.view(), CommandArgs::SectionAdd(args)),
            r.wf(),
    {
        self.push(CommandArgs::SectionAdd(args))
    }

    pub fn section_update(self, id: &str, name: &str) -> (r: Self)
        requires
            self.wf(),
        ensures
            Self::grew(self.view(), r.view()),
            r.view().last().args matches CommandArgs::SectionUpdate { id: x_id, name: x_name } && x_id@ == id@ && x_name@ == name@,
            r.wf(),
    {
        self.push(CommandArgs::SectionUpdate { id: String::from_str(id), name: String::from_str(name) })
    }

    pub fn section_delete(self, id: &str) -> (r: Self)
        requires
            self.wf(),
        ensures
            Self::grew(self.view(), r.view()),
            r.view().last().args matches CommandArgs::SectionDelete { id: x_id } && x_id@ == id@,
            r.wf(),
    {
        self.push(CommandArgs::SectionDelete { id: String::from_str(id) })
    }

    pub fn section_archive(self, id: &str) -> (r: Self)
        requires
            self.wf(),
        ensures
            Self::grew(self.view(), r.view()),
            r.view().last().args matches CommandArgs::SectionArchive { id: x_id } && x_id@ == id@,
            r.wf(),
    {
        self.push(CommandArgs::SectionArchive { id: String::from_str(id) })
    }

    pub fn section_unarchive(self, id: &str) -> (r: Self)
        requires
            self.wf(),
        ensures
            Self::grew(self.view(), r.view()),
            r.view().last().args matches CommandArgs::SectionUnarchive { id: x_id } && x_id@ == id@,
            r.wf(),
    {
        self.push(CommandArgs::SectionUnarchive { id: String::from_str(id) })
    }

    pub fn section_move(self, id: &str, project_id: &str) -> (r: Self)
        requires
            self.wf(),
        ensures
            Self::grew(self.view(), r.view()),
            r.view().last().args matches CommandArgs::SectionMove { id: x_id, project_id: x_project_id } && x_id@ == id@ && x_project_id@ == project_id@,
            r.wf(),
    {
        self.push(CommandArgs::SectionMove { id: String::from_str(id), project_id: String::from_str(project_id) })
    }

    pub fn section_reorder(self, sections: Vec<SectionOrderArgs>) -> (r: Self)
        requires
            self.wf(),
        ensures
            Self::grew(self.view(), r.view()),
            r.view().last().args matches CommandArgs::SectionReorder { sections: x } && x@ == sections@,
            r.wf(),
    {
        self.push(CommandArgs::SectionReorder { sections })
    }

    pub fn label_add(self, args: LabelAddArgs) -> (r: Self)
        requires
            self.wf(),
        ensures
            Self::appended(self.view(), r.view(), CommandArgs::LabelAdd(args)),
            r.wf(),
    {
        self.push(CommandArgs::LabelAdd(args))
    }

    pub fn label_update(self, id: &str, name: Option<&str>, color: Option<&str>) -> (r: Self)
        requires
            self.wf(),
        ensures
            Self::grew(self.view(), r.view()),
            r.view().last().args matches CommandArgs::LabelUpdate { id: x_id, name: x_name, color: x_color } && x_id@ == id@ && opt_text(x_name) == opt_str_text(name) && opt_text(x_color) == opt_str_text(color),
            r.wf(),
    {
        self.push(CommandArgs::LabelUpdate { id: String::from_str(id), name: owned(name), color: owned(color) })
    }

    pub fn label_delete(self, id: &str) -> (r: Self)
        requires
            self.wf(),
        ensures
            Self::grew(self.view(), r.view()),
            r.view().last().args matches CommandArgs::LabelDelete { id: x_id } && x_id@ == id@,
            r.wf(),
    {
        self.push(CommandArgs::LabelDelete { id: String::from_str(id) })
    }

    pub fn filter_update_orders(self, filters: Vec<FilterOrderArgs>) -> (r: Self)
        requires
            self.wf(),
        ensures
            Self::grew(self.view(), r.view()),
            r.view().last().args matches CommandArgs::FilterUpdateOrders { filters: x } && x@ == filters@,
            r.wf(),
    {
        self.push(CommandArgs::FilterUpdateOrders { filters })
    }

    pub fn filter_add(self, args: FilterAddArgs) -> (r: Self)
        requires
            self.wf(),
        ensures
            Self::appended(self.view(), r.view(), CommandArgs::FilterAdd(args)),
            r.wf(),
    {
        self.push(CommandArgs::FilterAdd(args))
    }

    pub fn filter_update(self, id: &str, name: Option<&str>, query: Option<&str>, color: Option<&str>) -> (r: Self)
        requires
            self.wf(),
        ensures
            Self::grew(self.view(), r.view()),
            r.view().last().args matches CommandArgs::FilterUpdate { id: x_id, name: x_name, query: x_query, color: x_color } && x_id@ == id@ && opt_text(x_name) == opt_str_text(name) && opt_text(x_query) == opt_str_text(query) && opt_text(x_color) == opt_str_text(color),
            r.wf(),
    {
        self.push(CommandArgs::FilterUpdate { id: String::from_str(id), name: owned(name), query: owned(query), color: owned(color) })
    }

    pub fn filter_delete(self, id: &str) -> (r: Self)
        requires
            self.wf(),
        ensures
            Self::grew(self.view(), r.view()),
            r.view().last().args matches CommandArgs::FilterDelete { id: x_id } && x_id@ == id@,
            r.wf(),
    {
        self.push(CommandArgs::FilterDelete { id: String::from_str(id) })
    }
}

impl Default for CommandBuilder {
    fn default() -> (r: Self)
        ensures
            r.view() == Seq::<Command>::empty(),
    {
        CommandBuilder::new()
    }
}

/// Arguments of a task creation; only the fields that were given are sent.
#[derive(Debug, Clone)]
pub struct ItemAddArgs {
    pub content: String,
    pub description: Option<String>,
    pub project_id: Option<String>,
    pub section_id: Option<String>,
    pub due_string: Option<String>,
    pub priority: Option<u8>,
    pub labels: Option<Vec<String>>,
}

/// Arguments of a project creation.
#[derive(Debug, Clone)]
pub struct ProjectAddArgs {
    pub name: String,
    pub color: Option<String>,
    pub favorite: Option<bool>,
}

/// Arguments of a section creation.
#[derive(Debug, Clone)]
pub struct SectionAddArgs {
    pub name: String,
    pub project_id: String,
}

/// Arguments of a task update; only the fields that were given are sent.
#[derive(Debug, Clone)]
pub struct ItemUpdateArgs {
    pub id: String,
    pub content: Option<String>,
    pub description: Option<String>,
    pub priority: Option<u8>,
    pub due_string: Option<String>,
    pub due_datetime: Option<String>,
    pub due_lang: Option<String>,
    pub labels: Option<Vec<String>>,
}

/// Arguments of a label creation.
#[derive(Debug, Clone)]
pub struct LabelAddArgs {
    pub name: String,
    pub color: Option<String>,
}

/// The position of one filter.
#[derive(Debug, Clone)]
pub struct FilterOrderArgs {
    pub id: String,
    pub order: i64,
}

/// Arguments of a filter creation.
#[derive(Debug, Clone)]
pub struct FilterAddArgs {
    pub name: String,
    pub query: String,
    pub color: Option<String>,
}

/// The position of one section.
#[derive(Debug, Clone)]
pub struct SectionOrderArgs {
    pub id: String,
    pub order: i64,
}

impl ItemAddArgs {
    pub fn new(content: String) -> (r: Self)
        ensures
            r.content == content && r.description is None && r.project_id is None && r.section_id is None && r.due_string is None && r.priority is None && r.labels is None,
    {
        ItemAddArgs { content, description: None, project_id: None, section_id: None, due_string: None, priority: None, labels: None }
    }

    pub fn description(self, description: Option<String>) -> (r: Self)
        ensures
            r == (ItemAddArgs { description, ..self }),
    {
        ItemAddArgs { description, ..self }
    }

    pub fn project_id(self, project_id: Option<String>) -> (r: Self)
        ensures
            r == (ItemAddArgs { project_id, ..self }),
    {
        ItemAddArgs { project_id, ..self }
    }

    pub fn section_id(self, section_id: Option<String>) -> (r: Self)
        ensures
            r == (ItemAddArgs { section_id, ..self }),
    {
        ItemAddArgs { section_id, ..self }
    }

    pub fn due_string(self, due_string: Option<String>) -> (r: Self)
        ensures
            r == (ItemAddArgs { due_string, ..self }),
    {
        ItemAddArgs { due_string, ..self }
    }

    pub fn priority(self, priority: Option<u8>) -> (r: Self)
        ensures
            r == (ItemAddArgs { priority, ..self }),
    {
        ItemAddArgs { priority, ..self }
    }

    pub fn labels(self, labels: Option<Vec<String>>) -> (r: Self)
        ensures
            r == (ItemAddArgs { labels, ..self }),
    {
        ItemAddArgs { labels, ..self }
    }
}

impl ProjectAddArgs {
    pub fn new(name: String) -> (r: Self)
        ensures
            r.name == name && r.color is None && r.favorite is None,
    {
        ProjectAddArgs { name, color: None, favorite: None }
    }

    pub fn color(self, color: Option<String>) -> (r: Self)
        ensures
            r == (ProjectAddArgs { color, ..self }),
    {
        ProjectAddArgs { color, ..self }
    }

    pub fn favorite(self, favorite: Option<bool>) -> (r: Self)
        ensures
            r == (ProjectAddArgs { favorite, ..self }),
    {
        ProjectAddArgs { favorite, ..self }
    }
}

impl SectionAddArgs {
    pub fn new(name: String, project_id: String) -> (r: Self)
        ensures
            r.name == name && r.project_id == project_id,
    {
        SectionAddArgs { name, project_id }
    }
}

impl ItemUpdateArgs {
    pub fn new(id: String) -> (r: Self)
        ensures
            r.id == id && r.content is None && r.description is None && r.priority is None && r.due_string is None && r.due_datetime is None && r.due_lang is None && r.labels is None,
    {
        ItemUpdateArgs { id, content: None, description: None, priority: None, due_string: None, due_datetime: None, due_lang: None, labels: None }
    }

    pub fn content(self, content: Option<String>) -> (r: Self)
        ensures
            r == (ItemUpdateArgs { content, ..self }),
    {
        ItemUpdateArgs { content, ..self }
    }

    pub fn description(self, description: Option<String>) -> (r: Self)
        ensures
            r == (ItemUpdateArgs { description, ..self }),
    {
        ItemUpdateArgs { description, ..self }
    }

    pub fn priority(self, priority: Option<u8>) -> (r: Self)
        ensures
            r == (ItemUpdateArgs { priority, ..self }),
    {
        ItemUpdateArgs { priority, ..self }
    }

    pub fn due_string(self, due_string: Option<String>) -> (r: Self)
        ensures
            r == (ItemUpdateArgs { due_string, ..self }),
    {
        ItemUpdateArgs { due_string, ..self }
    }

    pub fn due_datetime(self, due_datetime: Option<String>) -> (r: Self)
        ensures
            r == (ItemUpdateArgs { due_datetime, ..self }),
    {
        ItemUpdateArgs { due_datetime, ..self }
    }

    pub fn due_lang(self, due_lang: Option<String>) -> (r: Self)
        ensures
            r == (ItemUpdateArgs { due_lang, ..self }),
    {
        ItemUpdateArgs { due_lang, ..self }
    }

    pub fn labels(self, labels: Option<Vec<String>>) -> (r: Self)
        ensures
            r == (ItemUpdateArgs { labels, ..self }),
    {
        ItemUpdateArgs { labels, ..self }
    }
}

impl LabelAddArgs {
    pub fn new(name: String) -> (r: Self)
        ensures
            r.name == name && r.color is None,
    {
        LabelAddArgs { name, color: None }
    }

    pub fn color(self, color: Option<String>) -> (r: Self)
        ensures
            r == (LabelAddArgs { color, ..self }),
    {
        LabelAddArgs { color, ..self }
    }
}

impl FilterOrderArgs {
    pub fn new(id: String, order: i64) -> (r: Self)
        ensures
            r.id == id && r.order == order,
    {
        FilterOrderArgs { id, order }
    }
}

impl FilterAddArgs {
    pub fn new(name: String, query: String) -> (r: Self)
        ensures
            r.name == name && r.query == query && r.color is None,
    {
        FilterAddArgs { name, query, color: None }
    }

    pub fn color(self, color: Option<String>) -> (r: Self)
        ensures
            r == (FilterAddArgs { color, ..self }),
    {
        FilterAddArgs { color, ..self }
    }
}

impl SectionOrderArgs {
    pub fn new(id: String, order: i64) -> (r: Self)
        ensures
            r.id == id && r.order == order,
    {
        SectionOrderArgs { id, order }
    }
}

} // verus!
