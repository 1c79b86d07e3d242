//! Selection of tasks by a free-form filter: a priority (`p:N` or
//! `priority:N`), a status word, or text found in the content or the
//! project's name, compared in lower case.
use crate::error::TodoError;
use crate::models::TaskOutput;
use crate::sync_models::SyncSection;
use vstd::prelude::*;
use vstd::string::{StrSliceExecFns, StringExecFns};

verus! {

/// The lowercase form of a text, as `str::to_lowercase` gives it.
pub uninterp spec fn lower_of(s: Seq<char>) -> Seq<char>;

/// Relies on `str::to_lowercase`: its result depends on the text alone.
#[verifier::external_body]
fn lowercase(s: &str) -> (r: String)
    ensures
        r@ == lower_of(s@),
{
    s.to_lowercase()
}

/// `needle` occurs in `hay`.
pub open spec fn contains_text(hay: Seq<char>, needle: Seq<char>) -> bool {
    exists|i: int| 0 <= i <= hay.len() - needle.len() && #[trigger] hay.subrange(i, i + needle.len()) == needle
}

/// Whether `needle` occurs in `hay`.
pub fn contains_str(hay: &str, needle: &str) -> (r: bool)
    ensures
        r == contains_text(hay@, needle@),
{
    let n = hay.unicode_len();
    let m = needle.unicode_len();
    if m > n {
        return false;
    }
    let target = String::from_str(needle);
    let last = n - m;
    let mut i: usize = 0;
    loop
        invariant
            n == hay@.len(),
            m == needle@.len(),
            m <= n,
            last == n - m,
            i <= last,
            target@ == needle@,
            forall|k: int| 0 <= k < i ==> #[trigger] hay@.subrange(k, k + m) != needle@,
        decreases last - i,
    {
        let piece = String::from_str(hay.substring_char(i, i + m));
        if piece == target {
            return true;
        }
        if i == last {
            return false;
        }
        i += 1;
    }
}

pub open spec fn is_digit(c: char) -> bool {
    48 <= (c as u32) <= 57
}

/// The value of a string of decimal digits.
pub open spec fn digits_value(s: Seq<char>) -> int
    decreases s.len(),
{
    if s.len() == 0 {
        0
    } else {
        digits_value(s.drop_last()) * 10 + ((s.last() as u32) - 48)
    }
}

/// What `u8`'s `from_str` reads: an optional `+`, then one or more decimal
/// digits whose value is at most 255.
/// The text after an optional leading `+`.
pub open spec fn unsigned_part(s: Seq<char>) -> Seq<char> {
    if s.len() > 0 && s[0] == '+' {
        s.drop_first()
    } else {
        s
    }
}

pub open spec fn parsed_u8(s: Seq<char>) -> Option<u8> {
    let d = unsigned_part(s);
    if d.len() > 0 && (forall|i: int| 0 <= i < d.len() ==> is_digit(#[trigger] d[i])) && digits_value(d)
        <= 255 {
        Some(digits_value(d) as u8)
    } else {
        None
    }
}

proof fn lemma_digits_value_nonneg(s: Seq<char>)
    requires
        forall|i: int| 0 <= i < s.len() ==> is_digit(#[trigger] s[i]),
    ensures
        digits_value(s) >= 0,
    decreases s.len(),
{
    if s.len() > 0 {
        lemma_digits_value_nonneg(s.drop_last());
    }
}

/// Reads a `u8` as `from_str` does.
pub fn parse_u8(s: &str) -> (r: Option<u8>)
    ensures
        r == parsed_u8(s@),
{
    let n = s.unicode_len();
    let start: usize = if n > 0 && s.get_char(0) == '+' {
        1
    } else {
        0
    };
    let ghost d = unsigned_part(s@);
    assert(d =~= s@.subrange(start as int, n as int));
    if start >= n {
        return None;
    }
    let mut v: u32 = 0;
    let mut i: usize = start;
    while i < n
        invariant
            start <= i <= n == s@.len(),
            d == s@.subrange(start as int, n as int),
            d == unsigned_part(s@),
            forall|k: int| start <= k < i ==> is_digit(#[trigger] s@[k]),
            v as int == if digits_value(s@.subrange(start as int, i as int)) > 256 {
                256
            } else {
                digits_value(s@.subrange(start as int, i as int))
            },
        decreases n - i,
    {
        let c = s.get_char(i);
        if !((c as u32) >= 48 && (c as u32) <= 57) {
            assert(d[i - start] == c);
            assert(!is_digit(d[i - start]));
            return None;
        }
        proof {
            let p = s@.subrange(start as int, i as int);
            let q = s@.subrange(start as int, i + 1);
            assert(q.drop_last() =~= p);
            assert(q.last() == c);
            assert forall|k: int| 0 <= k < p.len() implies is_digit(#[trigger] p[k]) by {
                assert(p[k] == s@[start + k]);
            }
            lemma_digits_value_nonneg(p);
        }
        let dv = (c as u32) - 48;
        if v >= 256 {
            v = 256;
        } else {
            v = v * 10 + dv;
            if v > 256 {
                v = 256;
            }
        }
        i += 1;
    }
    assert forall|k: int| 0 <= k < d.len() implies is_digit(#[trigger] d[k]) by {
        assert(d[k] == s@[start + k]);
    }
    assert(s@.subrange(start as int, i as int) =~= d);
    if v > 255 {
        None
    } else {
        Some(v as u8)
    }
}

/// The priority asked for by `p:N` or `priority:N`.
pub open spec fn priority_filter(f: Seq<char>) -> Option<u8> {
    if f.len() >= 2 && f.subrange(0, 2) == "p:"@ {
        parsed_u8(f.skip(2))
    } else if f.len() >= 9 && f.subrange(0, 9) == "priority:"@ {
        parsed_u8(f.skip(9))
    } else {
        None
    }
}

/// The completion state asked for by a status word.
pub open spec fn status_filter(f: Seq<char>) -> Option<bool> {
    if f == "is:completed"@ || f == "completed"@ {
        Some(true)
    } else if f == "is:active"@ || f == "active"@ || f == "incomplete"@ {
        Some(false)
    } else {
        None
    }
}

/// Whether a task is selected by the lowercase filter `f`, given its
/// content and its project's name in lower case.
pub open spec fn selected(t: TaskOutput, f: Seq<char>, content: Seq<char>, project: Option<Seq<char>>) -> bool {
    ||| priority_filter(f) == Some(t.priority)
    ||| status_filter(f) == Some(t.is_completed)
    ||| contains_text(content, f)
    ||| (project matches Some(p) && contains_text(p, f))
}

fn has_prefix(f: &str, n: usize, prefix: &str) -> (r: bool)
    requires
        prefix@.len() == n,
    ensures
        r == (f@.len() >= n && f@.subrange(0, n as int) == prefix@),
{
    if f.unicode_len() < n {
        return false;
    }
    String::from_str(f.substring_char(0, n)) == String::from_str(prefix)
}

fn is_word(f: &String, w: &str) -> (r: bool)
    ensures
        r == (f@ == w@),
{
    *f == String::from_str(w)
}

fn priority_filter_of(f: &String) -> (r: Option<u8>)
    ensures
        r == priority_filter(f@),
{
    proof {
        reveal_strlit("p:");
        reveal_strlit("priority:");
    }
    let s = f.as_str();
    let n = s.unicode_len();
    if has_prefix(s, 2, "p:") {
        parse_u8(s.substring_char(2, n))
    } else if has_prefix(s, 9, "priority:") {
        parse_u8(s.substring_char(9, n))
    } else {
        None
    }
}

fn status_filter_of(f: &String) -> (r: Option<bool>)
    ensures
        r == status_filter(f@),
{
    if is_word(f, "is:completed") || is_word(f, "completed") {
        Some(true)
    } else if is_word(f, "is:active") || is_word(f, "active") || is_word(f, "incomplete") {
        Some(false)
    } else {
        None
    }
}

/// Whether `task` is selected by the lowercase filter `f`, given the lower
/// case of its content and of its project's name.
pub fn matches_filter(task: &TaskOutput, f: &String, content: &str, project: Option<&str>) -> (r: bool)
    ensures
        r == selected(
            *task,
            f@,
            content@,
            match project {
                Some(p) => Some(p@),
                None => None,
            },
        ),
{
    let by_priority = match priority_filter_of(f) {
        Some(p) => p == task.priority,
        None => false,
    };
    let by_status = match status_filter_of(f) {
        Some(c) => c == task.is_completed,
        None => false,
    };
    if by_priority || by_status {
        return true;
    }
    if contains_str(content, f.as_str()) {
        return true;
    }
    match project {
        Some(p) => contains_str(p, f.as_str()),
        None => false,
    }
}

/// Whether `t` is selected by the filter text `f`, everything compared in
/// lower case.
pub open spec fn task_selected(t: TaskOutput, f: Seq<char>) -> bool {
    selected(
        t,
        lower_of(f),
        lower_of(t.content@),
        match t.project_name {
            Some(p) => Some(lower_of(p@)),
            None => None,
        },
    )
}

/// The tasks selected by `f`, in their order.
pub open spec fn tasks_selected(ts: Seq<TaskOutput>, f: Seq<char>) -> Seq<TaskOutput>
    decreases ts.len(),
{
    if ts.len() == 0 {
        Seq::empty()
    } else {
        let rest = tasks_selected(ts.drop_last(), f);
        if task_selected(ts.last(), f) {
            rest.push(ts.last())
        } else {
            rest
        }
    }
}

/// At most `limit` of `ts`, from the front.
pub open spec fn limited(ts: Seq<TaskOutput>, limit: Option<usize>) -> Seq<TaskOutput> {
    match limit {
        Some(l) => if l < ts.len() {
            ts.take(l as int)
        } else {
            ts
        },
        None => ts,
    }
}

/// The tasks that `filter` selects (all when there is none), in their
/// order, then at most `limit` of them.
pub fn filter_tasks(tasks: Vec<TaskOutput>, filter: Option<&str>, limit: Option<usize>) -> (r: Vec<TaskOutput>)
    ensures
        r@ == limited(
            match filter {
                Some(f) => tasks_selected(tasks@, f@),
                None => tasks@,
            },
            limit,
        ),
{
    let mut kept: Vec<TaskOutput> = match filter {
        None => tasks,
        Some(f) => {
            let f_lower = lowercase(f);
            let ghost all = tasks@;
            let mut rest = tasks;
            let mut out: Vec<TaskOutput> = Vec::new();
            let ghost mut i: int = 0;
            while rest.len() > 0
                invariant
                    0 <= i,
                    i + rest@.len() == all.len(),
                    rest@ == all.subrange(i, all.len() as int),
                    out@ == tasks_selected(all.take(i), f@),
                    f_lower@ == lower_of(f@),
                decreases rest@.len(),
            {
                let t = rest.remove(0);
                proof {
                    assert(all.take(i + 1).drop_last() =~= all.take(i));
                    assert(all.take(i + 1).last() == t);
                }
                let content = lowercase(t.content.as_str());
                let keep = match &t.project_name {
                    Some(p) => {
                        let pl = lowercase(p.as_str());
                        matches_filter(&t, &f_lower, content.as_str(), Some(pl.as_str()))
                    },
                    None => matches_filter(&t, &f_lower, content.as_str(), None),
                };
                if keep {
                    out.push(t);
                }
                proof {
                    i = i + 1;
                }
            }
            assert(all.take(i) =~= all);
            out
        },
    };
    match limit {
        Some(l) => {
            if l < kept.len() {
                kept.truncate(l);
            }
        },
        None => {},
    }
    kept
}

/// The position of the first task whose identifier is `id`.
pub open spec fn first_with_id(ts: Seq<TaskOutput>, id: Seq<char>) -> Option<int>
    decreases ts.len(),
{
    if ts.len() == 0 {
        None
    } else if ts[0].id@ == id {
        Some(0)
    } else {
        match first_with_id(ts.drop_first(), id) {
            Some(k) => Some(k + 1),
            None => None,
        }
    }
}

/// The first task whose identifier is `id`, or an error naming it.
pub fn find_task(tasks: Vec<TaskOutput>, id: &str) -> (r: Result<TaskOutput, TodoError>)
    ensures
        match first_with_id(tasks@, id@) {
            Some(k) => r == Ok::<TaskOutput, TodoError>(tasks@[k]),
            None => r matches Err(TodoError::InvalidInput(m)) && m@ == "Task "@ + id@ + " not found"@,
        },
{
    let ghost all = tasks@;
    let target = String::from_str(id);
    let mut rest = tasks;
    let ghost mut i: int = 0;
    assert(all.skip(0) =~= all);
    while rest.len() > 0
        invariant
            0 <= i <= all.len(),
            all == tasks@,
            rest@ == all.skip(i),
            target@ == id@,
            first_with_id(all, id@) == match first_with_id(all.skip(i), id@) {
                Some(k) => Some(k + i),
                None => None,
            },
        decreases rest@.len(),
    {
        let t = rest.remove(0);
        proof {
            assert(all.skip(i).drop_first() =~= all.skip(i + 1));
        }
        if t.id == target {
            proof {
                assert(all.skip(i)[0] == all[i]);
                assert(first_with_id(all.skip(i), id@) == Some(0int));
            }
            return Ok(t);
        }
        proof {
            i = i + 1;
        }
    }
    let mut m = String::from_str("Task ");
    m.append(id);
    m.append(" not found");
    Err(TodoError::InvalidInput(m))
}

/// The sections of project `project_id`, in their order.
pub open spec fn sections_of(ss: Seq<SyncSection>, project_id: Seq<char>) -> Seq<SyncSection>
    decreases ss.len(),
{
    if ss.len() == 0 {
        Seq::empty()
    } else {
        let rest = sections_of(ss.drop_last(), project_id);
        if ss.last().project_id@ == project_id {
            rest.push(ss.last())
        } else {
            rest
        }
    }
}

/// Keeps the sections of project `project_id`, in their order.
pub fn sections_in_project(sections: Vec<SyncSection>, project_id: &str) -> (r: Vec<SyncSection>)
    ensures
        r@ == sections_of(sections@, project_id@),
{
    let ghost all = sections@;
    let target = String::from_str(project_id);
    let mut rest = sections;
    let mut out: Vec<SyncSection> = Vec::new();
    let ghost mut i: int = 0;
    while rest.len() > 0
        invariant
            0 <= i,
            i + rest@.len() == all.len(),
            rest@ == all.subrange(i, all.len() as int),
            out@ == sections_of(all.take(i), project_id@),
            target@ == project_id@,
        decreases rest@.len(),
    {
        let x = rest.remove(0);
        proof {
            assert(all.take(i + 1).drop_last() =~= all.take(i));
            assert(all.take(i + 1).last() == x);
        }
        if x.project_id == target {
            out.push(x);
        }
        proof {
            i = i + 1;
        }
    }
    assert(all.take(i) =~= all);
    out
}

} // verus!
