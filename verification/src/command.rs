//! The command grammar: one trimmed line of input, read as a command.
//!
//! A line is a command word, or a command word, one blank and an identifier
//! token. Words are case sensitive. A word that is not known, or a known word
//! with an argument it does not take, asks for the help text.

use vstd::prelude::*;
use crate::text::{chars_of, parse_id_from, parsed_id, trim, trimmed};

verus! {

/// Which usage hint a command without its identifier asks for.
#[derive(Clone, Copy, Debug, PartialEq, Eq, Structural)]
pub enum Hint {
    /// `complete` came alone.
    Complete,
    /// `c` came alone.
    CompleteShort,
    /// `edit` or `e` came alone.
    Edit,
    /// `delete` or `d` came alone.
    Delete,
}

/// A command of the session.
#[derive(Clone, Copy, Debug, PartialEq, Eq, Structural)]
pub enum Command {
    /// Start adding entries, one per line.
    Add,
    /// Show the entries.
    List,
    /// Mark the entry with this identifier as done.
    Complete(u64),
    /// Give the entry with this identifier another title.
    Edit(u64),
    /// Remove the entry with this identifier.
    Delete(u64),
    /// A command that needs an identifier came without one.
    Hint(Hint),
    /// A command came with a token that is no identifier: nothing is done.
    Ignored,
    /// Leave the session.
    Quit,
    /// Clear the screen.
    Clear,
    /// Show the help text.
    Help,
}

/// How many characters stand before the first blank of `text`; its length
/// where it has no blank.
pub open spec fn word_len(text: Seq<char>) -> nat
    decreases text.len(),
{
    if text.len() == 0 || text.first() == ' ' {
        0
    } else {
        1 + word_len(text.drop_first())
    }
}

/// What a command word means when nothing follows it.
pub open spec fn bare(word: Seq<char>) -> Command {
    if word == "add"@ || word == "a"@ {
        Command::Add
    } else if word == "list"@ || word == "ls"@ {
        Command::List
    } else if word == "complete"@ {
        Command::Hint(Hint::Complete)
    } else if word == "c"@ {
        Command::Hint(Hint::CompleteShort)
    } else if word == "edit"@ || word == "e"@ {
        Command::Hint(Hint::Edit)
    } else if word == "delete"@ || word == "d"@ {
        Command::Hint(Hint::Delete)
    } else if word == "quit"@ || word == "q"@ {
        Command::Quit
    } else if word == "clear"@ || word == "cls"@ {
        Command::Clear
    } else {
        Command::Help
    }
}

/// What a command word means when a blank and a token follow it.
pub open spec fn with_token(word: Seq<char>, token: Seq<char>) -> Command {
    if word == "complete"@ || word == "c"@ {
        match parsed_id(token) {
            Some(id) => Command::Complete(id),
            None => Command::Ignored,
        }
    } else if word == "edit"@ || word == "e"@ {
        match parsed_id(token) {
            Some(id) => Command::Edit(id),
            None => Command::Ignored,
        }
    } else if word == "delete"@ || word == "d"@ {
        match parsed_id(token) {
            Some(id) => Command::Delete(id),
            None => Command::Ignored,
        }
    } else {
        Command::Help
    }
}

/// The command that a trimmed line denotes. The word ends at the first
/// blank; the token is everything after that blank.
pub open spec fn command_of(text: Seq<char>) -> Command {
    let n = word_len(text) as int;
    if n == text.len() {
        bare(text)
    } else {
        with_token(text.take(n), text.skip(n + 1))
    }
}

/// The word ends where the first blank stands, or where the text ends.
pub proof fn lemma_word_len(text: Seq<char>, n: int)
    requires
        0 <= n <= text.len(),
        forall|k: int| 0 <= k < n ==> text[k] != ' ',
        n < text.len() ==> text[n] == ' ',
    ensures
        word_len(text) == n,
    decreases n,
{
    if n > 0 {
        lemma_word_len(text.drop_first(), n - 1);
    }
}

/// Whether the first `n` characters are exactly the characters of `word`.
fn word_is(chars: &Vec<char>, n: usize, word: &str) -> (same: bool)
    requires
        n <= chars.len(),
    ensures
        same == (chars@.take(n as int) == word@),
{
    let letters = chars_of(word);
    if letters.len() != n {
        return false;
    }
    let mut at: usize = 0;
    while at < n
        invariant
            at <= n <= chars.len(),
            letters.len() == n,
            letters@ == word@,
            forall|k: int| 0 <= k < at ==> chars[k] == letters[k],
        decreases n - at,
    {
        if chars[at] != letters[at] {
            assert(chars@.take(n as int)[at as int] != word@[at as int]);
            return false;
        }
        at += 1;
    }
    assert(chars@.take(n as int) =~= word@);
    true
}

/// Reads a trimmed line as a command.
pub fn classify(text: &str) -> (command: Command)
    ensures
        command == command_of(text@),
{
    let chars = chars_of(text);
    let len = chars.len();
    let mut n: usize = 0;
    while n < len && chars[n] != ' '
        invariant
            n <= len == chars.len(),
            forall|k: int| 0 <= k < n ==> chars[k] != ' ',
        decreases len - n,
    {
        n += 1;
    }
    proof {
        lemma_word_len(chars@, n as int);
        assert(chars@.take(len as int) =~= chars@);
    }
    if n == len {
        if word_is(&chars, n, "add") || word_is(&chars, n, "a") {
            Command::Add
        } else if word_is(&chars, n, "list") || word_is(&chars, n, "ls") {
            Command::List
        } else if word_is(&chars, n, "complete") {
            Command::Hint(Hint::Complete)
        } else if word_is(&chars, n, "c") {
            Command::Hint(Hint::CompleteShort)
        } else if word_is(&chars, n, "edit") || word_is(&chars, n, "e") {
            Command::Hint(Hint::Edit)
        } else if word_is(&chars, n, "delete") || word_is(&chars, n, "d") {
            Command::Hint(Hint::Delete)
        } else if word_is(&chars, n, "quit") || word_is(&chars, n, "q") {
            Command::Quit
        } else if word_is(&chars, n, "clear") || word_is(&chars, n, "cls") {
            Command::Clear
        } else {
            Command::Help
        }
    } else if word_is(&chars, n, "complete") || word_is(&chars, n, "c") {
        match parse_id_from(&chars, n + 1) {
            Some(id) => Command::Complete(id),
            None => Command::Ignored,
        }
    } else if word_is(&chars, n, "edit") || word_is(&chars, n, "e") {
        match parse_id_from(&chars, n + 1) {
            Some(id) => Command::Edit(id),
            None => Command::Ignored,
        }
    } else if word_is(&chars, n, "delete") || word_is(&chars, n, "d") {
        match parse_id_from(&chars, n + 1) {
            Some(id) => Command::Delete(id),
            None => Command::Ignored,
        }
    } else {
        Command::Help
    }
}

/// Reads a line of input as a command: the line is trimmed of the white
/// space around it, and what is left is read by [`classify`].
pub fn parse(line: &str) -> (command: Command)
    ensures
        command == command_of(trimmed(line@)),
{
    classify(trim(line))
}

} // verus!
