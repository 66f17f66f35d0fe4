//! Labels that name the surfaces of a task.
//!
//! A task identifier is percent-escaped byte by byte, the underscore too,
//! the percent signs are swapped for underscores, and a fixed prefix tells
//! a panel from a fullscreen surface. An underscore in a label thus always
//! begins an escape, and no two identifiers share a label.

use crate::uniqueness::{lemma_labels_are_safe, lemma_labels_differ};
use vstd::prelude::*;
use vstd::string::*;
use vstd::utf8::*;

verus! {

/// The characters that a label is made of: ASCII letters and digits, `-`,
/// `.`, `_` and `~`.
pub open spec fn is_safe_char(c: char) -> bool {
    ||| '0' <= c <= '9'
    ||| 'A' <= c <= 'Z'
    ||| 'a' <= c <= 'z'
    ||| c == '-'
    ||| c == '.'
    ||| c == '_'
    ||| c == '~'
}

/// Every character of the text is safe.
pub open spec fn all_safe(text: Seq<char>) -> bool {
    forall|i: int| 0 <= i < text.len() ==> is_safe_char(#[trigger] text[i])
}

/// The bytes that percent-escaping leaves as they are: ASCII letters and
/// digits, `-`, `.`, `_` and `~`.
pub open spec fn is_unreserved(b: u8) -> bool {
    ||| 0x30 <= b <= 0x39
    ||| 0x41 <= b <= 0x5a
    ||| 0x61 <= b <= 0x7a
    ||| b == 0x2d
    ||| b == 0x2e
    ||| b == 0x5f
    ||| b == 0x7e
}

/// The upper-case hexadecimal digit for a value below sixteen.
pub open spec fn hex_upper(d: int) -> char {
    if d < 10 {
        (0x30 + d) as u8 as char
    } else {
        (0x41 + d - 10) as u8 as char
    }
}

/// One byte, percent-escaped.
pub open spec fn escaped_byte(b: u8) -> Seq<char> {
    if is_unreserved(b) {
        seq![b as char]
    } else {
        seq!['%', hex_upper(b as int / 16), hex_upper(b as int % 16)]
    }
}

/// A byte string, percent-escaped byte by byte.
pub open spec fn percent_escaped(bytes: Seq<u8>) -> Seq<char>
    decreases bytes.len(),
{
    if bytes.len() == 0 {
        Seq::empty()
    } else {
        escaped_byte(bytes[0]) + percent_escaped(bytes.drop_first())
    }
}

/// `text` with every occurrence of `from` replaced by `to`.
pub open spec fn replaced(text: Seq<char>, from: char, to: Seq<char>) -> Seq<char>
    decreases text.len(),
{
    if text.len() == 0 {
        Seq::empty()
    } else if text[0] == from {
        to + replaced(text.drop_first(), from, to)
    } else {
        seq![text[0]] + replaced(text.drop_first(), from, to)
    }
}

/// Calls `urlencoding::encode`. That function escapes the UTF-8 bytes of its
/// argument one by one: an unreserved byte stands for itself, any other byte
/// becomes `%` and two upper-case hexadecimal digits.
#[verifier::external_body]
pub(crate) fn percent_encode(text: &str) -> (out: String)
    ensures
        out@ == percent_escaped(encode_utf8(text@)),
{
    urlencoding::encode(text).into_owned()
}

/// Calls `str::replace` with a character pattern: every occurrence of `from`
/// gives way to `to`, everything else stays in place.
#[verifier::external_body]
fn replace_char(text: &str, from: char, to: &str) -> (out: String)
    ensures
        out@ == replaced(text@, from, to@),
{
    text.replace(from, to)
}

/// The escape of the underscore.
pub open spec fn escaped_underscore() -> Seq<char> {
    seq!['%', '5', 'F']
}

/// The part of a label that stands for the task identifier: its bytes
/// percent-escaped, the underscores escaped as well, and every percent
/// sign written as an underscore.
pub open spec fn safe_id(task: Seq<char>) -> Seq<char> {
    replaced(
        replaced(percent_escaped(encode_utf8(task)), '_', escaped_underscore()),
        '%',
        seq!['_'],
    )
}

/// The prefix of every panel label.
pub open spec fn panel_prefix() -> Seq<char> {
    seq!['f', 'o', 'c', 'u', 's', '-']
}

/// The prefix of every fullscreen label.
pub open spec fn fullscreen_prefix() -> Seq<char> {
    seq!['f', 'o', 'c', 'u', 's', 'f', 's', '-']
}

/// The label of the panel surface of `task`.
pub open spec fn panel_label(task: Seq<char>) -> Seq<char> {
    panel_prefix() + safe_id(task)
}

/// The label of the fullscreen surface of `task`.
pub open spec fn fullscreen_label(task: Seq<char>) -> Seq<char> {
    fullscreen_prefix() + safe_id(task)
}

/// The label form of a task identifier.
pub(crate) fn safe_task_id(task_id: &str) -> (out: String)
    ensures
        out@ == safe_id(task_id@),
{
    let encoded = percent_encode(task_id);
    proof {
        reveal_strlit("_");
        reveal_strlit("%5F");
        assert("_"@ =~= seq!['_']);
        assert("%5F"@ =~= escaped_underscore());
    }
    let escaped = replace_char(encoded.as_str(), '_', "%5F");
    replace_char(escaped.as_str(), '%', "_")
}

/// The panel label for a key.
pub(crate) fn panel_label_of(key: &str) -> (label: String)
    ensures
        label@ == panel_prefix() + key@,
{
    proof {
        reveal_strlit("focus-");
        assert("focus-"@ =~= panel_prefix());
    }
    String::from_str("focus-").concat(key)
}

/// The fullscreen label for a key.
pub(crate) fn fullscreen_label_of(key: &str) -> (label: String)
    ensures
        label@ == fullscreen_prefix() + key@,
{
    proof {
        reveal_strlit("focusfs-");
        assert("focusfs-"@ =~= fullscreen_prefix());
    }
    String::from_str("focusfs-").concat(key)
}

/// The label of the panel surface that belongs to `task_id`. It is made of
/// safe characters only, and no other identifier has it.
pub fn focus_window_label(task_id: &str) -> (label: String)
    ensures
        label@ == panel_label(task_id@),
        all_safe(label@),
        forall|other: Seq<char>| other != task_id@ ==> label@ != #[trigger] panel_label(other),
{
    proof {
        lemma_labels_are_safe(task_id@);
        assert forall|other: Seq<char>| other != task_id@ implies panel_label(task_id@)
            != #[trigger] panel_label(other) by {
            lemma_labels_differ(task_id@, other);
        }
    }
    let safe = safe_task_id(task_id);
    panel_label_of(safe.as_str())
}

/// The label of the fullscreen surface that belongs to `task_id`. It is
/// made of safe characters only, and no other identifier has it.
pub fn fullscreen_focus_window_label(task_id: &str) -> (label: String)
    ensures
        label@ == fullscreen_label(task_id@),
        all_safe(label@),
        forall|other: Seq<char>|
            other != task_id@ ==> label@ != #[trigger] fullscreen_label(other),
{
    proof {
        lemma_labels_are_safe(task_id@);
        assert forall|other: Seq<char>| other != task_id@ implies fullscreen_label(task_id@)
            != #[trigger] fullscreen_label(other) by {
            lemma_labels_differ(task_id@, other);
        }
    }
    let safe = safe_task_id(task_id);
    fullscreen_label_of(safe.as_str())
}

} // verus!
