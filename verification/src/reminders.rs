//! The reminders connector: the scripts of its stand-in, and how the
//! answers of both are read.
//!
//! The connector is an outside program. It answers with a JSON array, or
//! with a JSON object that holds an `error` text. Where it is denied
//! access during development, a scripted stand-in is asked instead.

use crate::text::{
    contains, lossy, lossy_text, lowercase, lowercased, occurs_in, trim, trimmed_text, utf8,
    utf8_error_text,
};
use vstd::prelude::*;
use vstd::string::*;
use vstd::utf8::*;

verus! {

/// A list of reminders.
#[derive(Clone, Debug, PartialEq, Eq)]
pub struct RemindersList {
    pub id: String,
    pub name: String,
}

/// The connector's answer to a change.
#[derive(Clone, Debug, PartialEq, Eq)]
pub struct RemindersResult {
    pub success: Option<bool>,
    pub error: Option<String>,
    pub id: Option<String>,
}

impl RemindersResult {
    /// The answer given where there is no connector: the change failed,
    /// for the platform is not the connector's.
    pub fn not_on_macos() -> (answer: Self)
        ensures
            answer.success == Some(false),
            answer.error matches Some(e) && e@ == "Not on macOS"@,
            answer.id is None,
    {
        RemindersResult {
            success: Some(false),
            error: Some(String::from_str("Not on macOS")),
            id: None,
        }
    }
}

// ------------------------------------------------------------ JSON text

/// The lower-case hexadecimal digit for a value below sixteen.
pub open spec fn hex_lower(d: int) -> char {
    if d < 10 {
        (0x30 + d) as u8 as char
    } else {
        (0x61 + d - 10) as u8 as char
    }
}

/// One character as it stands inside a JSON string.
pub open spec fn json_escaped_char(c: char) -> Seq<char> {
    if c == '"' {
        seq!['\\', '"']
    } else if c == '\\' {
        seq!['\\', '\\']
    } else if c == '\u{8}' {
        seq!['\\', 'b']
    } else if c == '\u{9}' {
        seq!['\\', 't']
    } else if c == '\u{a}' {
        seq!['\\', 'n']
    } else if c == '\u{c}' {
        seq!['\\', 'f']
    } else if c == '\u{d}' {
        seq!['\\', 'r']
    } else if (c as u32) < 0x20 {
        seq!['\\', 'u', '0', '0', hex_lower(c as u32 as int / 16), hex_lower(c as u32 as int % 16)]
    } else {
        seq![c]
    }
}

/// A text as it stands inside a JSON string.
pub open spec fn json_escaped(text: Seq<char>) -> Seq<char>
    decreases text.len(),
{
    if text.len() == 0 {
        Seq::empty()
    } else {
        json_escaped_char(text[0]) + json_escaped(text.drop_first())
    }
}

/// A text as a JSON string, quotes included.
pub open spec fn json_quoted(text: Seq<char>) -> Seq<char> {
    seq!['"'] + json_escaped(text) + seq!['"']
}

/// Calls `serde_json::to_string` on a string. That function writes the
/// string between double quotes: a quote and a backslash get a backslash
/// before them; backspace, tab, line feed, form feed and carriage return
/// become `\b`, `\t`, `\n`, `\f` and `\r`; any other character below
/// U+0020 becomes `\u00` and two lower-case hexadecimal digits; all others
/// stand for themselves. Of the failures that it documents, a failing
/// `Serialize` impl and a map whose keys are no strings, a string can have
/// neither.
#[verifier::external_body]
fn json_text(text: &str) -> (quoted: Option<String>)
    ensures
        quoted is Some,
        quoted->0@ == json_quoted(text@),
{
    serde_json::to_string(text).ok()
}

/// `text` as a string literal of a script.
pub fn js_string(text: &str) -> (quoted: String)
    ensures
        quoted@ == json_quoted(text@),
{
    match json_text(text) {
        Some(quoted) => quoted,
        None => String::from_str("\"\""),
    }
}

// -------------------------------------------------------------- scripts
pub const LISTS_SCRIPT: &'static str = r#"
var app = Application('Reminders');
try {
  var lists = app.lists();
  var out = lists.map(function(l) { return { id: l.id(), name: l.name() }; });
  JSON.stringify(out);
} catch (e) {
  JSON.stringify({ error: String(e) });
}
"#;

/// The script that lists the reminder lists.
pub open spec fn lists_script() -> Seq<char> {
    LISTS_SCRIPT@
}

/// The script that lists the reminder lists. The adapter runs it and hands what came of it to [`run_jxa`].
pub fn jxa_lists_output() -> (script: String)
    ensures
        script@ == lists_script(),
{
    String::from_str(LISTS_SCRIPT)
}

/// The word for a truth value in a script.
pub open spec fn truth_word(value: bool) -> Seq<char> {
    if value {
        "true"@
    } else {
        "false"@
    }
}

fn truth(value: bool) -> (word: &'static str)
    ensures
        word@ == truth_word(value),
{
    if value {
        "true"
    } else {
        "false"
    }
}

pub const TASKS_SCRIPT_1: &'static str = r#"
var app = Application('Reminders');
var listId = "#;

pub const TASKS_SCRIPT_2: &'static str = r#";
function ts(d) {
  return d ? (new Date(d).getTime() / 1000) : 0;
}
try {
  var list = app.lists.byId(listId);
  var tasks = list.reminders();
  var out = tasks.map(function(t) {
    return {
      id: t.id(),
      name: t.name() || "No Title",
      completed: !!t.completed(),
      notes: t.body() || "",
      creationDate: ts(t.creationDate()),
      completionDate: ts(t.completionDate()),
      lastModifiedDate: ts(t.modificationDate())
    };
  });
  JSON.stringify(out);
} catch (e) {
  JSON.stringify({ error: String(e) });
}
"#;

/// The script that lists the reminders of a list.
pub open spec fn tasks_script(list_id: Seq<char>) -> Seq<char> {
    TASKS_SCRIPT_1@ + json_quoted(list_id) + TASKS_SCRIPT_2@
}

/// The script that lists the reminders of a list. The adapter runs it and hands what came of it to [`run_jxa`].
pub fn jxa_tasks_output(list_id: &str) -> (script: String)
    ensures
        script@ == tasks_script(list_id@),
{
    String::from_str(TASKS_SCRIPT_1).concat(js_string(list_id).as_str()).concat(TASKS_SCRIPT_2)
}

pub const UPDATE_STATUS_SCRIPT_1: &'static str = r#"
var app = Application('Reminders');
var taskId = "#;

pub const UPDATE_STATUS_SCRIPT_2: &'static str = r#";
var completed = "#;

pub const UPDATE_STATUS_SCRIPT_3: &'static str = r#";
try {
  var task = app.reminders.byId(taskId);
  task.completed = completed;
  JSON.stringify({ success: true });
} catch (e) {
  JSON.stringify({ error: String(e) });
}
"#;

/// The script that marks a reminder done or not done.
pub open spec fn update_status_script(task_id: Seq<char>, completed: bool) -> Seq<char> {
    UPDATE_STATUS_SCRIPT_1@ + json_quoted(task_id) + UPDATE_STATUS_SCRIPT_2@ + truth_word(completed) + UPDATE_STATUS_SCRIPT_3@
}

/// The script that marks a reminder done or not done. The adapter runs it and hands what came of it to [`run_jxa`].
pub fn jxa_update_status_output(task_id: &str, completed: bool) -> (script: String)
    ensures
        script@ == update_status_script(task_id@, completed),
{
    String::from_str(UPDATE_STATUS_SCRIPT_1).concat(js_string(task_id).as_str()).concat(UPDATE_STATUS_SCRIPT_2).concat(truth(completed)).concat(UPDATE_STATUS_SCRIPT_3)
}

pub const UPDATE_TITLE_SCRIPT_1: &'static str = r#"
var app = Application('Reminders');
var taskId = "#;

pub const UPDATE_TITLE_SCRIPT_2: &'static str = r#";
var title = "#;

pub const UPDATE_TITLE_SCRIPT_3: &'static str = r#";
try {
  var task = app.reminders.byId(taskId);
  task.name = title;
  JSON.stringify({ success: true });
} catch (e) {
  JSON.stringify({ error: String(e) });
}
"#;

/// The script that renames a reminder.
pub open spec fn update_title_script(task_id: Seq<char>, title: Seq<char>) -> Seq<char> {
    UPDATE_TITLE_SCRIPT_1@ + json_quoted(task_id) + UPDATE_TITLE_SCRIPT_2@ + json_quoted(title) + UPDATE_TITLE_SCRIPT_3@
}

/// The script that renames a reminder. The adapter runs it and hands what came of it to [`run_jxa`].
pub fn jxa_update_title_output(task_id: &str, title: &str) -> (script: String)
    ensures
        script@ == update_title_script(task_id@, title@),
{
    String::from_str(UPDATE_TITLE_SCRIPT_1).concat(js_string(task_id).as_str()).concat(UPDATE_TITLE_SCRIPT_2).concat(js_string(title).as_str()).concat(UPDATE_TITLE_SCRIPT_3)
}

pub const UPDATE_NOTES_SCRIPT_1: &'static str = r#"
var app = Application('Reminders');
var taskId = "#;

pub const UPDATE_NOTES_SCRIPT_2: &'static str = r#";
var notes = "#;

pub const UPDATE_NOTES_SCRIPT_3: &'static str = r#";
try {
  var task = app.reminders.byId(taskId);
  task.body = notes;
  JSON.stringify({ success: true });
} catch (e) {
  JSON.stringify({ error: String(e) });
}
"#;

/// The script that rewrites the notes of a reminder.
pub open spec fn update_notes_script(task_id: Seq<char>, notes: Seq<char>) -> Seq<char> {
    UPDATE_NOTES_SCRIPT_1@ + json_quoted(task_id) + UPDATE_NOTES_SCRIPT_2@ + json_quoted(notes) + UPDATE_NOTES_SCRIPT_3@
}

/// The script that rewrites the notes of a reminder. The adapter runs it and hands what came of it to [`run_jxa`].
pub fn jxa_update_notes_output(task_id: &str, notes: &str) -> (script: String)
    ensures
        script@ == update_notes_script(task_id@, notes@),
{
    String::from_str(UPDATE_NOTES_SCRIPT_1).concat(js_string(task_id).as_str()).concat(UPDATE_NOTES_SCRIPT_2).concat(js_string(notes).as_str()).concat(UPDATE_NOTES_SCRIPT_3)
}

pub const DELETE_TASK_SCRIPT_1: &'static str = r#"
var app = Application('Reminders');
var taskId = "#;

pub const DELETE_TASK_SCRIPT_2: &'static str = r#";
try {
  var task = app.reminders.byId(taskId);
  task.delete();
  JSON.stringify({ success: true });
} catch (e) {
  JSON.stringify({ error: String(e) });
}
"#;

/// The script that deletes a reminder.
pub open spec fn delete_task_script(task_id: Seq<char>) -> Seq<char> {
    DELETE_TASK_SCRIPT_1@ + json_quoted(task_id) + DELETE_TASK_SCRIPT_2@
}

/// The script that deletes a reminder. The adapter runs it and hands what came of it to [`run_jxa`].
pub fn jxa_delete_task_output(task_id: &str) -> (script: String)
    ensures
        script@ == delete_task_script(task_id@),
{
    String::from_str(DELETE_TASK_SCRIPT_1).concat(js_string(task_id).as_str()).concat(DELETE_TASK_SCRIPT_2)
}

pub const CREATE_TASK_SCRIPT_1: &'static str = r#"
var app = Application('Reminders');
var listId = "#;

pub const CREATE_TASK_SCRIPT_2: &'static str = r#";
var title = "#;

pub const CREATE_TASK_SCRIPT_3: &'static str = r#";
try {
  var list = app.lists.byId(listId);
  var reminder = app.Reminder({ name: title });
  list.reminders.push(reminder);
  JSON.stringify({ success: true, id: reminder.id() });
} catch (e) {
  JSON.stringify({ error: String(e) });
}
"#;

/// The script that adds a reminder to a list.
pub open spec fn create_task_script(list_id: Seq<char>, title: Seq<char>) -> Seq<char> {
    CREATE_TASK_SCRIPT_1@ + json_quoted(list_id) + CREATE_TASK_SCRIPT_2@ + json_quoted(title) + CREATE_TASK_SCRIPT_3@
}

/// The script that adds a reminder to a list. The adapter runs it and hands what came of it to [`run_jxa`].
pub fn jxa_create_task_output(list_id: &str, title: &str) -> (script: String)
    ensures
        script@ == create_task_script(list_id@, title@),
{
    String::from_str(CREATE_TASK_SCRIPT_1).concat(js_string(list_id).as_str()).concat(CREATE_TASK_SCRIPT_2).concat(js_string(title).as_str()).concat(CREATE_TASK_SCRIPT_3)
}

// ------------------------------------------------------------- answers

/// What came of running a program.
#[derive(Clone, Debug, PartialEq, Eq)]
pub struct ProcessOutput {
    pub success: bool,
    pub stdout: Vec<u8>,
    pub stderr: Vec<u8>,
}

/// A program's run as character sequences: its output, or the words of the
/// error that kept it from starting.
pub open spec fn run_view(ran: Result<ProcessOutput, String>) -> Result<ProcessOutput, Seq<char>> {
    match ran {
        Ok(output) => Ok(output),
        Err(e) => Err(e@),
    }
}

/// The view of a result of texts.
pub open spec fn text_result(r: Result<String, String>) -> Result<Seq<char>, Seq<char>> {
    match r {
        Ok(t) => Ok(t@),
        Err(e) => Err(e@),
    }
}

/// What a run of the scripted stand-in amounts to: its output as text, or
/// why there is none.
pub open spec fn jxa_outcome(ran: Result<ProcessOutput, Seq<char>>) -> Result<
    Seq<char>,
    Seq<char>,
> {
    match ran {
        Err(e) => Err("Failed to execute JXA script: "@ + e),
        Ok(output) => if !output.success {
            Err("JXA execution failed: "@ + trimmed_text(lossy_text(output.stderr@)))
        } else if valid_utf8(output.stdout@) {
            Ok(decode_utf8(output.stdout@))
        } else {
            Err("Invalid UTF-8 output from JXA: "@ + utf8_error_text(output.stdout@))
        },
    }
}

/// The view of a run that the standard library has read: whether it
/// succeeded, what it said on its error stream, trimmed, and its output as
/// text or why it is none.
pub open spec fn jxa_verdict_of(
    success: bool,
    said: Seq<char>,
    output: Result<Seq<char>, Seq<char>>,
) -> Result<Seq<char>, Seq<char>> {
    if !success {
        Err("JXA execution failed: "@ + said)
    } else {
        match output {
            Ok(text) => Ok(text),
            Err(e) => Err("Invalid UTF-8 output from JXA: "@ + e),
        }
    }
}

/// Judges a run of the stand-in from what was read of it: a failed run
/// is told in the words of its error stream, a run whose output is no
/// text in the words of that error.
pub fn jxa_verdict(success: bool, said: &str, output: Result<String, String>) -> (answer: Result<
    String,
    String,
>)
    ensures
        text_result(answer) == jxa_verdict_of(success, said@, text_result(output)),
{
    if !success {
        Err(String::from_str("JXA execution failed: ").concat(said))
    } else {
        match output {
            Ok(text) => Ok(text),
            Err(e) => Err(String::from_str("Invalid UTF-8 output from JXA: ").concat(e.as_str())),
        }
    }
}

/// Reads what came of running a script of the stand-in.
pub fn run_jxa(ran: Result<ProcessOutput, String>) -> (answer: Result<String, String>)
    ensures
        text_result(answer) == jxa_outcome(run_view(ran)),
{
    match ran {
        Err(e) => Err(String::from_str("Failed to execute JXA script: ").concat(e.as_str())),
        Ok(output) => {
            let said = trim(lossy(&output.stderr).as_str());
            jxa_verdict(output.success, said.as_str(), utf8(output.stdout))
        },
    }
}

/// What a run of the connector amounts to: its output as text, or why
/// there is none.
pub open spec fn connector_outcome(ran: Result<ProcessOutput, Seq<char>>) -> Result<
    Seq<char>,
    Seq<char>,
> {
    match ran {
        Err(e) => Err("Failed to execute reminders-connector: "@ + e),
        Ok(output) => if !output.success {
            Err("Reminders connector error: "@ + lossy_text(output.stderr@))
        } else if valid_utf8(output.stdout@) {
            Ok(decode_utf8(output.stdout@))
        } else {
            Err("Invalid UTF-8 output: "@ + utf8_error_text(output.stdout@))
        },
    }
}

/// The judgement of a run of the connector from what was read of it.
pub open spec fn connector_verdict_of(
    success: bool,
    said: Seq<char>,
    output: Result<Seq<char>, Seq<char>>,
) -> Result<Seq<char>, Seq<char>> {
    if !success {
        Err("Reminders connector error: "@ + said)
    } else {
        match output {
            Ok(text) => Ok(text),
            Err(e) => Err("Invalid UTF-8 output: "@ + e),
        }
    }
}

/// Judges a run of the connector from what was read of it: a failed run
/// is told in the words of its error stream, a run whose output is no
/// text in the words of that error.
pub fn connector_verdict(success: bool, said: &str, output: Result<String, String>) -> (answer:
    Result<String, String>)
    ensures
        text_result(answer) == connector_verdict_of(success, said@, text_result(output)),
{
    if !success {
        Err(String::from_str("Reminders connector error: ").concat(said))
    } else {
        match output {
            Ok(text) => Ok(text),
            Err(e) => Err(String::from_str("Invalid UTF-8 output: ").concat(e.as_str())),
        }
    }
}

/// Reads what came of running the connector.
pub fn run_connector(ran: Result<ProcessOutput, String>) -> (answer: Result<String, String>)
    ensures
        text_result(answer) == connector_outcome(run_view(ran)),
{
    match ran {
        Err(e) => Err(
            String::from_str("Failed to execute reminders-connector: ").concat(e.as_str()),
        ),
        Ok(output) => {
            let said = lossy(&output.stderr);
            connector_verdict(output.success, said.as_str(), utf8(output.stdout))
        },
    }
}

/// Whether the stand-in is to be asked after the connector failed with
/// `error`: during development, where the error speaks of a denied
/// permission, in whatever case.
pub open spec fn fallback_applies(error: Seq<char>, development: bool) -> bool {
    development && occurs_in("permission denied"@, lowercased(error))
}

/// Whether a text in lower case speaks of a denied permission.
pub fn speaks_of_denial(lowered: &str) -> (yes: bool)
    ensures
        yes == occurs_in("permission denied"@, lowered@),
{
    contains(lowered, "permission denied")
}

/// Decides whether the scripted stand-in is asked after the connector
/// failed with `error`.
pub fn should_use_jxa_fallback(error: &str, development: bool) -> (yes: bool)
    ensures
        yes == fallback_applies(error@, development),
{
    development && speaks_of_denial(lowercase(error).as_str())
}

/// What follows the reading of the connector's answer.
#[derive(Debug, PartialEq, Eq)]
pub enum Next<T> {
    /// The reading stands, a failure too.
    Settled(Result<T, String>),
    /// The stand-in is asked, and the reading of its answer stands.
    AskStandIn,
}

/// Decides what follows the reading of the connector's answer: the
/// stand-in is asked where the reading failed and the fallback applies to
/// the failure's words; any other reading stands.
pub fn after_connector<T>(reading: Result<T, String>, development: bool) -> (next: Next<T>)
    ensures
        match reading {
            Ok(value) => next == Next::Settled(Ok(value)),
            Err(e) => if fallback_applies(e@, development) {
                next is AskStandIn
            } else {
                next == Next::<T>::Settled(Err(e))
            },
        },
{
    match reading {
        Ok(value) => Next::Settled(Ok(value)),
        Err(e) => if should_use_jxa_fallback(e.as_str(), development) {
            Next::AskStandIn
        } else {
            Next::Settled(Err(e))
        },
    }
}

/// A member of a JSON object, as far as an answer's reading goes.
#[derive(Clone, Copy, Debug, PartialEq, Eq, Structural)]
pub enum Member {
    Absent,
    Array,
    Other,
}

/// What an answer's reading looks at in a JSON value: whether it is an
/// array, or an object, with its `error` member where that is a text and
/// the kind of its `lists` and `tasks` members, or something else.
#[derive(Clone, Debug, PartialEq, Eq)]
pub enum JsonShape {
    Array,
    Object { error: Option<String>, lists: Member, tasks: Member },
    Other,
}

/// The array of an answer that holds its items.
#[derive(Clone, Copy, Debug, PartialEq, Eq, Structural)]
pub enum ArraySource {
    Root,
    Lists,
    Tasks,
}

/// A parsed answer as character sequences.
pub enum ShapeView {
    Unparsed { reason: Seq<char> },
    Array,
    Object { error: Option<Seq<char>>, lists: Member, tasks: Member },
    Other,
}

pub open spec fn shape_view(parsed: Result<JsonShape, String>) -> ShapeView {
    match parsed {
        Err(e) => ShapeView::Unparsed { reason: e@ },
        Ok(JsonShape::Array) => ShapeView::Array,
        Ok(JsonShape::Object { error, lists, tasks }) => ShapeView::Object {
            error: match error {
                Some(e) => Some(e@),
                None => None,
            },
            lists,
            tasks,
        },
        Ok(JsonShape::Other) => ShapeView::Other,
    }
}

/// The complaint about an answer that is no JSON.
pub open spec fn unparsed_complaint(label: Seq<char>, reason: Seq<char>) -> Seq<char> {
    "Failed to parse "@ + label + " JSON: "@ + reason
}

/// The complaint about an answer of the wrong kind.
pub open spec fn format_complaint(label: Seq<char>) -> Seq<char> {
    "Unexpected "@ + label + " format from reminders connector"@
}

/// Where the items of an answer are, or why it has none.
///
/// An answer that is no JSON and an object with an `error` text are
/// failures. An array holds the items itself. An object holds them in its
/// `lists` member, or without one in its `tasks` member, where that member
/// is an array. Anything else is of the wrong kind.
pub open spec fn array_reading(shape: ShapeView, label: Seq<char>) -> Result<
    ArraySource,
    Seq<char>,
> {
    match shape {
        ShapeView::Unparsed { reason } => Err(unparsed_complaint(label, reason)),
        ShapeView::Object { error: Some(e), .. } => Err("Reminders connector error: "@ + e),
        ShapeView::Array => Ok(ArraySource::Root),
        ShapeView::Object { error: None, lists: Member::Array, .. } => Ok(ArraySource::Lists),
        ShapeView::Object { error: None, lists: Member::Absent, tasks: Member::Array } => Ok(
            ArraySource::Tasks,
        ),
        _ => Err(format_complaint(label)),
    }
}

/// The view of a reading.
pub open spec fn reading_view<T>(r: Result<T, String>) -> Result<T, Seq<char>> {
    match r {
        Ok(t) => Ok(t),
        Err(e) => Err(e@),
    }
}

fn unparsed(label: &str, reason: &str) -> (text: String)
    ensures
        text@ == unparsed_complaint(label@, reason@),
{
    String::from_str("Failed to parse ").concat(label).concat(" JSON: ").concat(reason)
}

fn connector_error(error: &str) -> (text: String)
    ensures
        text@ == "Reminders connector error: "@ + error@,
{
    String::from_str("Reminders connector error: ").concat(error)
}

/// Reads an answer that is to hold a list of items. `parsed` is the
/// answer as JSON, or the words of the parser's error; `label` names the
/// answer in complaints. See [`array_reading`].
pub fn parse_array_or_error(parsed: &Result<JsonShape, String>, label: &str) -> (reading: Result<
    ArraySource,
    String,
>)
    ensures
        reading_view(reading) == array_reading(shape_view(*parsed), label@),
{
    match parsed {
        Err(reason) => Err(unparsed(label, reason.as_str())),
        Ok(JsonShape::Object { error: Some(e), .. }) => Err(connector_error(e.as_str())),
        Ok(JsonShape::Array) => Ok(ArraySource::Root),
        Ok(JsonShape::Object { error: None, lists: Member::Array, .. }) => Ok(ArraySource::Lists),
        Ok(JsonShape::Object { error: None, lists: Member::Absent, tasks: Member::Array }) => Ok(
            ArraySource::Tasks,
        ),
        _ => Err(
            String::from_str("Unexpected ").concat(label).concat(
                " format from reminders connector",
            ),
        ),
    }
}

/// Whether an answer to a change can be taken as it is, or why not: an
/// answer that is no JSON and an object with an `error` text are
/// failures.
pub open spec fn result_reading(shape: ShapeView, label: Seq<char>) -> Result<(), Seq<char>> {
    match shape {
        ShapeView::Unparsed { reason } => Err(unparsed_complaint(label, reason)),
        ShapeView::Object { error: Some(e), .. } => Err("Reminders connector error: "@ + e),
        _ => Ok(()),
    }
}

/// Reads an answer to a change. See [`result_reading`].
pub fn parse_result_or_error(parsed: &Result<JsonShape, String>, label: &str) -> (reading: Result<
    (),
    String,
>)
    ensures
        reading_view(reading) == result_reading(shape_view(*parsed), label@),
{
    match parsed {
        Err(reason) => Err(unparsed(label, reason.as_str())),
        Ok(JsonShape::Object { error: Some(e), .. }) => Err(connector_error(e.as_str())),
        _ => Ok(()),
    }
}

} // verus!
