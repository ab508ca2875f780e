//! A single todo entry.

use vstd::prelude::*;
use vstd::string::StringExecFns;
use crate::style::{coloured, green, green_code, red, red_code};
use crate::text::{decimal, decimal_string};

verus! {

/// What a todo entry is, mathematically: its identifier, its title as a
/// sequence of characters, and whether it is done.
pub struct TodoView {
    pub id: nat,
    pub title: Seq<char>,
    pub completed: bool,
}

impl TodoView {
    /// The entry with its flag set.
    pub open spec fn complete(self) -> TodoView {
        TodoView { completed: true, ..self }
    }

    /// The entry under another title.
    pub open spec fn edit(self, title: Seq<char>) -> TodoView {
        TodoView { title, ..self }
    }
}

/// What stands between the columns of a printed entry.
pub open spec fn separator() -> Seq<char> {
    seq![' ', '|', ' ']
}

/// The word that says whether an entry is done.
pub open spec fn status_word(completed: bool) -> Seq<char> {
    if completed {
        seq!['D', 'o', 'n', 'e']
    } else {
        seq!['T', 'o', ' ', 'd', 'o']
    }
}

/// The rendition code of an entry's status: green when done, red when not.
pub open spec fn status_code(completed: bool) -> Seq<char> {
    if completed {
        green_code()
    } else {
        red_code()
    }
}

/// An entry as one line: identifier, title and status, in that order.
pub open spec fn line_of(todo: TodoView, status: Seq<char>) -> Seq<char> {
    decimal(todo.id) + separator() + todo.title + separator() + status
}

/// A todo entry.
#[derive(Debug)]
pub struct Todo {
    id: u64,
    title: String,
    completed: bool,
}

impl View for Todo {
    type V = TodoView;

    closed spec fn view(&self) -> TodoView {
        TodoView { id: self.id as nat, title: self.title@, completed: self.completed }
    }
}

impl DeepView for Todo {
    type V = TodoView;

    open spec fn deep_view(&self) -> TodoView {
        self@
    }
}

impl Clone for Todo {
    fn clone(&self) -> (copy: Todo)
        ensures
            copy@ == self@,
    {
        Todo { id: self.id, title: self.title.clone(), completed: self.completed }
    }
}

impl Todo {
    /// A fresh entry: not yet done.
    pub fn new(id: u64, title: String) -> (todo: Todo)
        ensures
            todo@ == (TodoView { id: id as nat, title: title@, completed: false }),
    {
        Todo { id, title, completed: false }
    }

    /// Marks the entry as done. Doing so again changes nothing.
    pub fn complete(&mut self)
        ensures
            final(self)@ == old(self)@.complete(),
    {
        self.completed = true;
    }

    /// Replaces the title and nothing else.
    pub fn edit(&mut self, new_title: &str)
        ensures
            final(self)@ == old(self)@.edit(new_title@),
    {
        self.title = new_title.to_owned();
    }

    /// The word for the entry's status: `Done` or `To do`.
    pub fn status_word(&self) -> (word: &'static str)
        ensures
            word@ == status_word(self@.completed),
    {
        proof {
            reveal_strlit("Done");
            reveal_strlit("To do");
        }
        let word = if self.completed {
            "Done"
        } else {
            "To do"
        };
        assert(word@ =~= status_word(self.completed));
        word
    }

    /// The entry as one line, with `status` in the last column.
    pub fn line_with(&self, status: &str) -> (line: String)
        ensures
            line@ == line_of(self@, status@),
    {
        proof {
            reveal_strlit(" | ");
        }
        let mut line = decimal_string(self.id);
        line.append(" | ");
        line.append(self.title.as_str());
        line.append(" | ");
        line.append(status);
        assert(" | "@ =~= separator());
        line
    }

    /// The entry as one line, its status word green when done and red when
    /// not, or plain where the terminal takes no colours.
    pub fn line(&self) -> (line: String)
        ensures
            line@ == line_of(self@, status_word(self@.completed)) || line@ == line_of(
                self@,
                coloured(status_word(self@.completed), status_code(self@.completed)),
            ),
    {
        let status = if self.completed {
            green(self.status_word())
        } else {
            red(self.status_word())
        };
        self.line_with(status.as_str())
    }

    /// The identifier.
    pub fn id(&self) -> (id: u64)
        ensures
            id as nat == self@.id,
    {
        self.id
    }

    /// The title.
    pub fn title(&self) -> (title: &str)
        ensures
            title@ == self@.title,
    {
        self.title.as_str()
    }

    /// Whether the entry is done.
    pub fn completed(&self) -> (done: bool)
        ensures
            done == self@.completed,
    {
        self.completed
    }
}

} // verus!
