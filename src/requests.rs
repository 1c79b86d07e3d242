//! Preparation of requests from the command line's plain arguments: the
//! rules that decide whether an operation can be asked for at all, and the
//! arguments that go into its envelope.
use crate::commands::{ItemAddArgs, ItemUpdateArgs, SectionOrderArgs};
use crate::error::TodoError;
use crate::text::{decimal, push_decimal, texts};
use vstd::prelude::*;
use vstd::string::{StrSliceExecFns, StringExecFns};

verus! {

/// A text without its leading and trailing white space, as `str::trim`
/// gives it.
pub uninterp spec fn trimmed(s: Seq<char>) -> Seq<char>;

/// Relies on `str::trim`: its result depends on the text alone.
#[verifier::external_body]
fn trim_text(s: &str) -> (r: String)
    ensures
        r@ == trimmed(s@),
{
    s.trim().to_string()
}

/// The pieces of `s` between commas; a text without commas is one piece.
pub open spec fn split_commas(s: Seq<char>) -> Seq<Seq<char>>
    decreases s.len(),
{
    if s.len() == 0 {
        seq![Seq::empty()]
    } else {
        let parts = split_commas(s.drop_last());
        if s.last() == ',' {
            parts.push(Seq::empty())
        } else {
            parts.update(parts.len() - 1, parts.last().push(s.last()))
        }
    }
}

proof fn lemma_split_commas_nonempty(s: Seq<char>)
    ensures
        split_commas(s).len() >= 1,
    decreases s.len(),
{
    if s.len() > 0 {
        lemma_split_commas_nonempty(s.drop_last());
    }
}

/// The trimmed pieces of a comma-separated list.
pub open spec fn list_items(s: Seq<char>) -> Seq<Seq<char>> {
    split_commas(s).map_values(|p: Seq<char>| trimmed(p))
}

fn split_on_commas(s: &str) -> (r: Vec<String>)
    ensures
        texts(r@) == split_commas(s@),
{
    let n = s.unicode_len();
    let mut pieces: Vec<String> = Vec::new();
    let mut current = String::new();
    let mut i: usize = 0;
    while i < n
        invariant
            i <= n == s@.len(),
            texts(pieces@).push(current@) == split_commas(s@.take(i as int)),
        decreases n - i,
    {
        proof {
            assert(s@.take(i + 1).drop_last() =~= s@.take(i as int));
            lemma_split_commas_nonempty(s@.take(i as int));
        }
        let c = s.get_char(i);
        if c == ',' {
            let ghost prev = pieces@;
            let done = current;
            pieces.push(done);
            current = String::new();
            assert(texts(pieces@) =~= texts(prev).push(pieces@.last()@));
            assert(texts(pieces@).push(current@) =~= split_commas(s@.take(i + 1)));
        } else {
            let ghost before = current@;
            current.append(s.substring_char(i, i + 1));
            assert(current@ =~= before.push(c));
            assert(texts(pieces@).push(current@) =~= split_commas(s@.take(i + 1)));
        }
        i += 1;
    }
    assert(s@.take(i as int) =~= s@);
    let ghost prev = pieces@;
    pieces.push(current);
    assert(texts(pieces@) =~= texts(prev).push(pieces@.last()@));
    pieces
}

/// The trimmed pieces of a comma-separated list, in order.
pub fn split_list(s: &str) -> (r: Vec<String>)
    ensures
        texts(r@) == list_items(s@),
{
    let pieces = split_on_commas(s);
    let mut out: Vec<String> = Vec::new();
    let mut i: usize = 0;
    while i < pieces.len()
        invariant
            i <= pieces@.len(),
            texts(pieces@) == split_commas(s@),
            texts(out@) == texts(pieces@).take(i as int).map_values(|p: Seq<char>| trimmed(p)),
        decreases pieces@.len() - i,
    {
        let ghost prev = out@;
        out.push(trim_text(pieces[i].as_str()));
        assert(texts(out@) =~= texts(prev).push(out@.last()@));
        assert(texts(pieces@).take(i + 1).map_values(|p: Seq<char>| trimmed(p)) =~= texts(pieces@).take(
            i as int,
        ).map_values(|p: Seq<char>| trimmed(p)).push(trimmed(pieces@[i as int]@)));
        i += 1;
    }
    assert(texts(pieces@).take(i as int) =~= texts(pieces@));
    out
}

/// The text of a task: its title, else its content.
pub fn task_content(title: Option<String>, content: Option<String>) -> (r: Result<String, TodoError>)
    ensures
        match (title, content) {
            (Some(t), _) => r == Ok::<String, TodoError>(t),
            (None, Some(c)) => r == Ok::<String, TodoError>(c),
            (None, None) => r matches Err(TodoError::InvalidInput(m)) && m@ == "Task title or content required"@,
        },
{
    match title {
        Some(t) => Ok(t),
        None => match content {
            Some(c) => Ok(c),
            None => Err(TodoError::InvalidInput(String::from_str("Task title or content required"))),
        },
    }
}

/// The message for a priority outside 1 to 4.
pub open spec fn priority_message(p: u8) -> Seq<char> {
    "Invalid priority "@ + decimal(p as nat) + ". Priority must be between 1 and 4."@
}

/// A priority was given and is not one of 1 to 4.
pub open spec fn bad_priority(p: Option<u8>) -> bool {
    p matches Some(x) && !(1 <= x <= 4)
}

/// A priority, when given, is one of 1 to 4.
pub fn checked_priority(priority: Option<u8>) -> (r: Result<Option<u8>, TodoError>)
    ensures
        match priority {
            Some(p) => if 1 <= p <= 4 {
                r == Ok::<Option<u8>, TodoError>(Some(p))
            } else {
                r matches Err(TodoError::InvalidInput(m)) && m@ == priority_message(p)
            },
            None => r == Ok::<Option<u8>, TodoError>(None),
        },
{
    match priority {
        Some(p) => {
            if 1 <= p && p <= 4 {
                Ok(Some(p))
            } else {
                let mut m = String::from_str("Invalid priority ");
                push_decimal(&mut m, p as u64);
                m.append(". Priority must be between 1 and 4.");
                Err(TodoError::InvalidInput(m))
            }
        },
        None => Ok(None),
    }
}

fn labels_of(labels: Option<String>) -> (r: Option<Vec<String>>)
    ensures
        match labels {
            Some(l) => r matches Some(v) && texts(v@) == list_items(l@),
            None => r is None,
        },
{
    match labels {
        Some(l) => Some(split_list(l.as_str())),
        None => None,
    }
}

/// The arguments of a task creation from the command line: a title or a
/// content is required, a given priority must be 1 to 4, and labels come
/// as a comma-separated list.
pub fn add_task_args(
    title: Option<String>,
    content: Option<String>,
    description: Option<String>,
    project_id: Option<String>,
    due_date: Option<String>,
    priority: Option<u8>,
    labels: Option<String>,
) -> (r: Result<ItemAddArgs, TodoError>)
    ensures
        (title is None && content is None) ==> r matches Err(TodoError::InvalidInput(_)),
        (title is Some || content is Some) && bad_priority(priority) ==> (r matches Err(
            TodoError::InvalidInput(m),
        ) && m@ == priority_message(priority->0)),
        (title is Some || content is Some) && !bad_priority(priority) ==> (r matches Ok(a) && {
            &&& a.content == (if title is Some {
                title->0
            } else {
                content->0
            })
            &&& a.description == description
            &&& a.project_id == project_id
            &&& a.section_id is None
            &&& a.due_string == due_date
            &&& a.priority == priority
            &&& match labels {
                Some(l) => a.labels matches Some(v) && texts(v@) == list_items(l@),
                None => a.labels is None,
            }
        }),
{
    let text = match task_content(title, content) {
        Ok(t) => t,
        Err(e) => {
            return Err(e);
        },
    };
    let p = match checked_priority(priority) {
        Ok(p) => p,
        Err(e) => {
            return Err(e);
        },
    };
    Ok(ItemAddArgs {
        content: text,
        description,
        project_id,
        section_id: None,
        due_string: due_date,
        priority: p,
        labels: labels_of(labels),
    })
}

/// The arguments of a task update from the command line: a given priority
/// must be 1 to 4, the title (else the content) becomes the new text, and
/// labels come as a comma-separated list.
pub fn update_task_args(
    task_id: String,
    title: Option<String>,
    content: Option<String>,
    due_date: Option<String>,
    priority: Option<u8>,
    labels: Option<String>,
) -> (r: Result<ItemUpdateArgs, TodoError>)
    ensures
        bad_priority(priority) ==> (r matches Err(TodoError::InvalidInput(m)) && m@
            == priority_message(priority->0)),
        !bad_priority(priority) ==> (r matches Ok(a) && {
            &&& a.id == task_id
            &&& a.content == (if title is Some {
                title
            } else {
                content
            })
            &&& a.description is None
            &&& a.priority == priority
            &&& a.due_string == due_date
            &&& a.due_datetime is None
            &&& a.due_lang is None
            &&& match labels {
                Some(l) => a.labels matches Some(v) && texts(v@) == list_items(l@),
                None => a.labels is None,
            }
        }),
{
    let p = match checked_priority(priority) {
        Ok(p) => p,
        Err(e) => {
            return Err(e);
        },
    };
    let text = match title {
        Some(t) => Some(t),
        None => content,
    };
    Ok(ItemUpdateArgs {
        id: task_id,
        content: text,
        description: None,
        priority: p,
        due_string: due_date,
        due_datetime: None,
        due_lang: None,
        labels: labels_of(labels),
    })
}

/// The new positions of sections listed by identifier, comma-separated:
/// each takes its place in the list as its order.
pub fn section_order(section_ids: &str) -> (r: Vec<SectionOrderArgs>)
    ensures
        r@.len() == list_items(section_ids@).len(),
        forall|i: int|
            0 <= i < r@.len() ==> (#[trigger] r@[i]).id@ == list_items(section_ids@)[i] && r@[i].order
                == i as i64,
{
    let ids = split_list(section_ids);
    let mut out: Vec<SectionOrderArgs> = Vec::new();
    let mut i: usize = 0;
    let mut rest = ids;
    let ghost all = rest@;
    let total = rest.len();
    while rest.len() > 0
        invariant
            texts(all) == list_items(section_ids@),
            total == all.len(),
            i == out@.len(),
            i + rest@.len() == all.len(),
            rest@ == all.subrange(i as int, all.len() as int),
            forall|k: int| 0 <= k < i ==> (#[trigger] out@[k]).id@ == all[k]@ && out@[k].order == k as i64,
        decreases rest@.len(),
    {
        let id = rest.remove(0);
        assert(id == all[i as int]);
        let order = #[verifier::truncate] (i as i64);
        out.push(SectionOrderArgs { id, order });
        i += 1;
    }
    out
}

/// The message when an edit names no field to change.
pub open spec fn no_fields_message(fields: Seq<char>) -> Seq<char> {
    "No fields to update. Provide at least "@ + fields + "."@
}

/// An edit must change at least one field; `fields` names the options.
pub fn require_some_field(any_given: bool, fields: &str) -> (r: Result<(), TodoError>)
    ensures
        any_given ==> r is Ok,
        !any_given ==> (r matches Err(TodoError::InvalidInput(m)) && m@ == no_fields_message(fields@)),
{
    if any_given {
        Ok(())
    } else {
        let mut m = String::from_str("No fields to update. Provide at least ");
        m.append(fields);
        m.append(".");
        Err(TodoError::InvalidInput(m))
    }
}

} // verus!
