//! Checks and messages for the command-line front end.
use crate::engine::OperationFailure;
use crate::error::TodoError;
use crate::text::{decimal, join, join_with, push_decimal, texts};
use vstd::prelude::*;
use vstd::string::StringExecFns;

verus! {

/// A priority is one of 1 to 4.
pub fn validate_priority(priority: u8) -> (r: bool)
    ensures
        r == (1 <= priority <= 4),
{
    1 <= priority && priority <= 4
}

/// `uuid (reason)` for each failure.
pub open spec fn failure_descriptions(fs: Seq<OperationFailure>) -> Seq<Seq<char>> {
    fs.map_values(|f: OperationFailure| f.uuid@ + " ("@ + f.reason@ + ")"@)
}

/// The message shown for each kind of error.
pub open spec fn error_message(e: TodoError) -> Seq<char> {
    match e {
        TodoError::ConfigNotFound => "Error: Configuration not found.\nTo get started, obtain your API token from https://todoist.com/app/settings/integrations\nThen run: todorust init --api-token YOUR_TOKEN"@,
        TodoError::Http { status, .. } => if status == 401 {
            "Error: Unauthorized (401). Your API token might be invalid or expired."@
        } else if status == 403 {
            "Error: Forbidden (403). You don't have permission to perform this action."@
        } else if status == 404 {
            "Error: Not Found (404). The requested resource was not found."@
        } else if status == 429 {
            "Error: Too Many Requests (429). Todoist API rate limit exceeded. Please wait a moment."@
        } else {
            "Error: Todoist API returned HTTP "@ + decimal(status as nat) + "."@
        },
        TodoError::Api(m) => "Todoist API Error: "@ + m@,
        TodoError::Malformed(m) => "Todoist API Error: unexpected response: "@ + m@,
        TodoError::Request(m) => "Network Request Error: "@ + m@,
        TodoError::Config(m) => "Configuration Error: "@ + m@,
        TodoError::InvalidInput(m) => "Invalid Input: "@ + m@,
        TodoError::Serialize(m) => "Data Processing Error: "@ + m@,
        TodoError::Io(m) => "System IO Error: "@ + m@,
        TodoError::OperationsFailed { failures, .. } => "Error: some operations in the batch did not apply: "@
            + join(failure_descriptions(failures@), ", "@),
        TodoError::AmbiguousOutcome { missing, .. } => "Error: the outcome of these operations is unknown, please re-run: "@
            + join(texts(missing@), ", "@),
        TodoError::MissingRealId { temp_ids, .. } => "Todoist API Error: no ID returned for "@ + join(
            texts(temp_ids@),
            ", "@,
        ),
    }
}

fn describe_failures(fs: &Vec<OperationFailure>) -> (r: Vec<String>)
    ensures
        texts(r@) == failure_descriptions(fs@),
{
    let mut out: Vec<String> = Vec::new();
    let mut i: usize = 0;
    while i < fs.len()
        invariant
            i <= fs@.len(),
            texts(out@) == failure_descriptions(fs@.take(i as int)),
        decreases fs@.len() - i,
    {
        let mut s = fs[i].uuid.clone();
        s.append(" (");
        s.append(fs[i].reason.as_str());
        s.append(")");
        let ghost prev = out@;
        out.push(s);
        assert(texts(out@) =~= texts(prev).push(out@.last()@));
        assert(failure_descriptions(fs@.take(i + 1)) =~= failure_descriptions(fs@.take(i as int)).push(
            fs@[i as int].uuid@ + " ("@ + fs@[i as int].reason@ + ")"@,
        ));
        i += 1;
    }
    assert(fs@.take(i as int) =~= fs@);
    out
}

fn prefixed(prefix: &str, rest: &str) -> (r: String)
    ensures
        r@ == prefix@ + rest@,
{
    let mut s = String::from_str(prefix);
    s.append(rest);
    s
}

/// The message to show the user for `error`.
pub fn get_error_message(error: &TodoError) -> (r: String)
    ensures
        r@ == error_message(*error),
{
    match error {
        TodoError::ConfigNotFound => String::from_str(
            "Error: Configuration not found.\nTo get started, obtain your API token from https://todoist.com/app/settings/integrations\nThen run: todorust init --api-token YOUR_TOKEN",
        ),
        TodoError::Http { status, .. } => {
            if *status == 401 {
                String::from_str("Error: Unauthorized (401). Your API token might be invalid or expired.")
            } else if *status == 403 {
                String::from_str("Error: Forbidden (403). You don't have permission to perform this action.")
            } else if *status == 404 {
                String::from_str("Error: Not Found (404). The requested resource was not found.")
            } else if *status == 429 {
                String::from_str("Error: Too Many Requests (429). Todoist API rate limit exceeded. Please wait a moment.")
            } else {
                let mut s = String::from_str("Error: Todoist API returned HTTP ");
                push_decimal(&mut s, *status as u64);
                s.append(".");
                s
            }
        },
        TodoError::Api(m) => prefixed("Todoist API Error: ", m.as_str()),
        TodoError::Malformed(m) => prefixed("Todoist API Error: unexpected response: ", m.as_str()),
        TodoError::Request(m) => prefixed("Network Request Error: ", m.as_str()),
        TodoError::Config(m) => prefixed("Configuration Error: ", m.as_str()),
        TodoError::InvalidInput(m) => prefixed("Invalid Input: ", m.as_str()),
        TodoError::Serialize(m) => prefixed("Data Processing Error: ", m.as_str()),
        TodoError::Io(m) => prefixed("System IO Error: ", m.as_str()),
        TodoError::OperationsFailed { failures, .. } => {
            let parts = describe_failures(failures);
            let joined = join_with(&parts, ", ");
            prefixed("Error: some operations in the batch did not apply: ", joined.as_str())
        },
        TodoError::AmbiguousOutcome { missing, .. } => {
            let joined = join_with(missing, ", ");
            prefixed("Error: the outcome of these operations is unknown, please re-run: ", joined.as_str())
        },
        TodoError::MissingRealId { temp_ids, .. } => {
            let joined = join_with(temp_ids, ", ");
            prefixed("Todoist API Error: no ID returned for ", joined.as_str())
        },
    }
}

} // verus!
