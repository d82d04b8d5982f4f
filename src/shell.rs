//! The name of the current shell, read from the value of `SHELL`.

use vstd::prelude::*;
use crate::session::UNKNOWN;
use crate::text::{chars_of, last_field, last_field_in, replace_char, replace_in, string_of};

verus! {

/// The shell name of a `SHELL` value: its last piece when split on `/` and
/// on spaces. An unset variable gives "Unknown".
pub open spec fn shell_name(shell: Option<Seq<char>>) -> Seq<char> {
    match shell {
        Some(path) => last_field(replace_char(path, '/', ' '), ' '),
        None => UNKNOWN@,
    }
}

/// The name of the current shell, given the value of `SHELL` (`None` when it
/// is unset or unreadable).
pub fn get_shell_name(shell: Option<String>) -> (r: String)
    ensures
        r@ == shell_name(shell.deep_view()),
{
    match shell {
        Some(path) => {
            let spaced = replace_in(&chars_of(path.as_str()), '/', ' ');
            let name = last_field_in(&spaced, 0, spaced.len(), ' ');
            assert(spaced@.subrange(0, spaced@.len() as int) == spaced@);
            string_of(&name)
        },
        None => String::from_str(UNKNOWN),
    }
}

} // verus!
