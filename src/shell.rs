//! The interpreter's state for one line: the command word and its arguments.
use vstd::prelude::*;

use crate::lexer::tokens;

verus! {

/// The command line being interpreted: its first word, and the words after
/// it, `None` when there are none.
pub struct Shell {
    pub cmd: String,
    pub args: Option<Vec<String>>,
}

/// The characters of each word of a list.
pub open spec fn words_view(v: Vec<String>) -> Seq<Seq<char>> {
    v@.map_values(|w: String| w@)
}

/// The command word of a line: its first word, or nothing.
pub open spec fn command_of(line: Seq<char>) -> Seq<char> {
    if tokens(line).len() > 0 {
        tokens(line)[0]
    } else {
        Seq::empty()
    }
}

/// The arguments of a line: the words after the first, if there are any.
pub open spec fn arguments_of(line: Seq<char>) -> Option<Seq<Seq<char>>> {
    if tokens(line).len() > 1 {
        Some(tokens(line).drop_first())
    } else {
        None
    }
}

/// The words of an optional list.
pub open spec fn opt_words_view(v: Option<Vec<String>>) -> Option<Seq<Seq<char>>> {
    match v {
        Some(w) => Some(words_view(w)),
        None => None,
    }
}

impl Shell {
    /// A shell before any line was read: no command, no arguments.
    pub fn new() -> (r: Shell)
        ensures
            r.cmd@.len() == 0,
            r.args is None,
    {
        Shell { cmd: String::new(), args: None }
    }
}

} // verus!
