//! The interactive session as a state machine: each line of input moves the
//! session on and is answered by a reply for the caller to show.
//!
//! The session reads nothing and prints nothing. Its caller reads a line,
//! hands it to [`Session::feed`], and shows what the reply asks for.

use vstd::prelude::*;
use crate::command::{classify, command_of, Command, Hint};
use crate::store::{AppState, StoreModel};
use crate::text::{trim, trimmed};
use crate::todo::{Todo, TodoView};

verus! {

/// What the session waits for.
#[derive(Clone, Copy, Debug, PartialEq, Eq, Structural)]
pub enum Mode {
    /// A command.
    Command,
    /// The title of one more entry, or an empty line to stop adding; so many
    /// entries were added since `add` came.
    Adding(u32),
    /// The new title of the entry with this identifier.
    Editing(u64),
    /// Nothing: the session is over.
    Terminated,
}

/// What the caller is to show after a line.
#[derive(Debug)]
pub enum Reply {
    /// Nothing.
    Silent,
    /// The help text.
    Help,
    /// The number of entries and the entries, in order.
    List,
    /// A hint that the command needs an identifier.
    Hint(Hint),
    /// The entry that was completed, edited or deleted.
    Item(Todo),
    /// That no entry has the identifier asked for.
    NotFound,
    /// That an entry was added.
    Added,
    /// How many entries were added since `add` came.
    AddedTotal(u32),
    /// A cleared screen.
    Clear,
    /// Nothing more: the session is over.
    Quit,
}

/// A reply as a mathematical value.
pub enum ReplyView {
    Silent,
    Help,
    List,
    Hint(Hint),
    Item(TodoView),
    NotFound,
    Added,
    AddedTotal(u32),
    Clear,
    Quit,
}

impl View for Reply {
    type V = ReplyView;

    open spec fn view(&self) -> ReplyView {
        match self {
            Reply::Silent => ReplyView::Silent,
            Reply::Help => ReplyView::Help,
            Reply::List => ReplyView::List,
            Reply::Hint(hint) => ReplyView::Hint(*hint),
            Reply::Item(todo) => ReplyView::Item(todo@),
            Reply::NotFound => ReplyView::NotFound,
            Reply::Added => ReplyView::Added,
            Reply::AddedTotal(count) => ReplyView::AddedTotal(*count),
            Reply::Clear => ReplyView::Clear,
            Reply::Quit => ReplyView::Quit,
        }
    }
}

/// The reply that shows the outcome of a lookup.
pub open spec fn shown(found: Option<TodoView>) -> ReplyView {
    match found {
        Some(todo) => ReplyView::Item(todo),
        None => ReplyView::NotFound,
    }
}

/// The session as a mathematical value.
pub struct SessionModel {
    pub store: StoreModel,
    pub mode: Mode,
}

impl SessionModel {
    /// Whether one more entry can be added: the identifier counter and the
    /// count of added entries both have a successor in their type.
    pub open spec fn has_room(self) -> bool {
        match self.mode {
            Mode::Adding(count) => self.store.next_id < u64::MAX && count < u32::MAX,
            _ => true,
        }
    }

    /// The session after the command `command`, and the reply to it.
    pub open spec fn run(self, command: Command) -> (SessionModel, ReplyView) {
        match command {
            Command::Add => (SessionModel { mode: Mode::Adding(0), ..self }, ReplyView::Silent),
            Command::List => (self, ReplyView::List),
            Command::Complete(id) => (
                SessionModel { store: self.store.complete(id as nat), ..self },
                shown(self.store.completed(id as nat)),
            ),
            Command::Edit(id) => (
                SessionModel { mode: Mode::Editing(id), ..self },
                ReplyView::Silent,
            ),
            Command::Delete(id) => (
                SessionModel { store: self.store.delete(id as nat), ..self },
                shown(self.store.find(id as nat)),
            ),
            Command::Hint(hint) => (self, ReplyView::Hint(hint)),
            Command::Ignored => (self, ReplyView::Silent),
            Command::Quit => (SessionModel { mode: Mode::Terminated, ..self }, ReplyView::Quit),
            Command::Clear => (self, ReplyView::Clear),
            Command::Help => (self, ReplyView::Help),
        }
    }

    /// The session after the trimmed line `text`, and the reply to it.
    ///
    /// While adding, a line that is not empty becomes an entry and an empty
    /// one ends the adding. While editing, the line becomes the entry's title,
    /// whatever it holds. Otherwise the line is a command. A session that is
    /// over stays as it is.
    pub open spec fn step(self, text: Seq<char>) -> (SessionModel, ReplyView) {
        match self.mode {
            Mode::Command => self.run(command_of(text)),
            Mode::Adding(count) => if text.len() == 0 {
                (SessionModel { mode: Mode::Command, ..self }, ReplyView::AddedTotal(count))
            } else {
                (
                    SessionModel {
                        store: self.store.create(text),
                        mode: Mode::Adding((count + 1) as u32),
                    },
                    ReplyView::Added,
                )
            },
            Mode::Editing(id) => (
                SessionModel { store: self.store.edit(id as nat, text), mode: Mode::Command },
                shown(self.store.edited(id as nat, text)),
            ),
            Mode::Terminated => (self, ReplyView::Quit),
        }
    }
}

/// The session ends on a quit command and on nothing else: it is over after
/// a line just where it was over before, or waited for a command and the line
/// says quit.
pub proof fn lemma_ends_only_on_quit(session: SessionModel, text: Seq<char>)
    ensures
        session.step(text).0.mode is Terminated <==> session.mode is Terminated || (session.mode
            is Command && command_of(text) is Quit),
{
}

/// An interactive session over a store.
pub struct Session {
    store: AppState,
    mode: Mode,
}

impl View for Session {
    type V = SessionModel;

    closed spec fn view(&self) -> SessionModel {
        SessionModel { store: self.store@, mode: self.mode }
    }
}

/// The reply that shows the outcome of a lookup.
fn show(found: Option<&Todo>) -> (reply: Reply)
    ensures
        reply@ == shown(found.deep_view()),
{
    match found {
        Some(todo) => Reply::Item(todo.clone()),
        None => Reply::NotFound,
    }
}

impl Session {
    /// The session's invariant: its store is well formed.
    pub open spec fn wf(&self) -> bool {
        self@.store.wf()
    }

    /// A session over `store`, waiting for a command.
    pub fn new(store: AppState) -> (session: Session)
        requires
            store.wf(),
        ensures
            session@ == (SessionModel { store: store@, mode: Mode::Command }),
            session.wf(),
    {
        Session { store, mode: Mode::Command }
    }

    /// The store.
    pub fn store(&self) -> (store: &AppState)
        ensures
            store@ == self@.store,
    {
        &self.store
    }

    /// What the session waits for.
    pub fn mode(&self) -> (mode: Mode)
        ensures
            mode == self@.mode,
    {
        self.mode
    }

    /// Whether one more entry can be added: see [`SessionModel::has_room`].
    pub fn has_room(&self) -> (room: bool)
        ensures
            room == self@.has_room(),
    {
        match self.mode {
            Mode::Adding(count) => self.store.next_id() < u64::MAX && count < u32::MAX,
            _ => true,
        }
    }

    /// Carries out a command given while the session waits for one.
    fn run(&mut self, command: Command) -> (reply: Reply)
        requires
            old(self).wf(),
        ensures
            final(self).wf(),
            (final(self)@, reply@) == old(self)@.run(command),
    {
        match command {
            Command::Add => {
                self.mode = Mode::Adding(0);
                Reply::Silent
            },
            Command::List => Reply::List,
            Command::Complete(id) => show(self.store.complete_todo(id)),
            Command::Edit(id) => {
                self.mode = Mode::Editing(id);
                Reply::Silent
            },
            Command::Delete(id) => match self.store.delete_todo(id) {
                Some(todo) => Reply::Item(todo),
                None => Reply::NotFound,
            },
            Command::Hint(hint) => Reply::Hint(hint),
            Command::Ignored => Reply::Silent,
            Command::Quit => {
                self.mode = Mode::Terminated;
                Reply::Quit
            },
            Command::Clear => Reply::Clear,
            Command::Help => Reply::Help,
        }
    }

    /// Takes one line of input that is already trimmed.
    pub fn step(&mut self, text: &str) -> (reply: Reply)
        requires
            old(self).wf(),
            text@.len() > 0 ==> old(self)@.has_room(),
        ensures
            final(self).wf(),
            (final(self)@, reply@) == old(self)@.step(text@),
    {
        match self.mode {
            Mode::Command => self.run(classify(text)),
            Mode::Adding(count) => {
                if text.is_empty() {
                    self.mode = Mode::Command;
                    Reply::AddedTotal(count)
                } else {
                    let _ = self.store.new_todo(text);
                    self.mode = Mode::Adding(count + 1);
                    Reply::Added
                }
            },
            Mode::Editing(id) => {
                let reply = show(self.store.edit_todo(id, text));
                self.mode = Mode::Command;
                reply
            },
            Mode::Terminated => Reply::Quit,
        }
    }

    /// Takes one line of input: the line is trimmed of the white space around
    /// it, and what is left is taken by [`Session::step`].
    ///
    /// The one line that cannot be taken is a title for which no identifier
    /// or no count is left: then nothing changes and nothing is returned.
    pub fn feed(&mut self, line: &str) -> (reply: Option<Reply>)
        requires
            old(self).wf(),
        ensures
            final(self).wf(),
            match reply {
                Some(reply) => {
                    &&& trimmed(line@).len() > 0 ==> old(self)@.has_room()
                    &&& (final(self)@, reply@) == old(self)@.step(trimmed(line@))
                },
                None => {
                    &&& trimmed(line@).len() > 0
                    &&& !old(self)@.has_room()
                    &&& final(self)@ == old(self)@
                },
            },
    {
        let text = trim(line);
        if text.is_empty() || self.has_room() {
            Some(self.step(text))
        } else {
            None
        }
    }
}

} // verus!
