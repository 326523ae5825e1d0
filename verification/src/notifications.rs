//! Notifications for the desktop. A notification is shown by a script for the
//! system's script runner; this file writes the script, and running it is
//! left to the caller.

use crate::text::{appended, replace_char, substituted};
use vstd::prelude::*;
use vstd::string::*;

verus! {

/// A text with a backslash before each of its double quotes.
pub open spec fn escaped(s: Seq<char>) -> Seq<char> {
    substituted(s, '"', "\\\""@)
}

/// The script that shows `message` under `title`.
pub open spec fn script(title: Seq<char>, message: Seq<char>) -> Seq<char> {
    "display notification \""@ + escaped(message) + "\" with title \""@ + escaped(title)
        + "\""@
}

/// The script that shows `message` under `title` and plays `sound`.
pub open spec fn script_with_sound(title: Seq<char>, message: Seq<char>, sound: Seq<char>) -> Seq<
    char,
> {
    "display notification \""@ + escaped(message) + "\" with title \""@ + escaped(title)
        + "\" sound name \""@ + sound + "\""@
}

/// In an escaped text no double quote stands without a backslash before it,
/// so the text cannot end the string of the script in which it is put.
pub proof fn lemma_escaped_quotes(s: Seq<char>, i: int)
    requires
        0 <= i < escaped(s).len(),
        escaped(s)[i] == '"',
    ensures
        i > 0,
        escaped(s)[i - 1] == '\\',
    decreases s.len(),
{
    reveal_strlit("\\\"");
    if s.len() > 0 && i < escaped(s.drop_last()).len() {
        lemma_escaped_quotes(s.drop_last(), i);
    }
}

/// Puts a backslash before each double quote of `s`.
pub fn escape_quotes(s: &str) -> (r: String)
    ensures
        r@ == escaped(s@),
{
    replace_char(s, '"', "\\\"")
}

/// Writes the script that shows `message` under `title`.
pub fn notification_script(title: &str, message: &str) -> (r: String)
    ensures
        r@ == script(title@, message@),
{
    let title = escape_quotes(title);
    let message = escape_quotes(message);
    let mut script = appended("display notification \"", message.as_str());
    script.append("\" with title \"");
    script.append(title.as_str());
    script.append("\"");
    script
}

/// Writes the script that shows `message` under `title` and plays `sound`.
pub fn notification_script_with_sound(title: &str, message: &str, sound: &str) -> (r: String)
    ensures
        r@ == script_with_sound(title@, message@, sound@),
{
    let title = escape_quotes(title);
    let message = escape_quotes(message);
    let mut script = appended("display notification \"", message.as_str());
    script.append("\" with title \"");
    script.append(title.as_str());
    script.append("\" sound name \"");
    script.append(sound);
    script.append("\"");
    script
}

} // verus!
