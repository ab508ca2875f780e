//! The store: owner of the todo entries and of the identifier counter.

use vstd::prelude::*;
use crate::todo::{Todo, TodoView};

verus! {

/// The store as a mathematical value: the next identifier to hand out and the
/// entries in the order they were created.
pub struct StoreModel {
    pub next_id: nat,
    pub items: Seq<TodoView>,
}

impl StoreModel {
    /// The store that has handed out nothing yet.
    pub open spec fn empty(next_id: nat) -> StoreModel {
        StoreModel { next_id, items: Seq::empty() }
    }

    /// Identifiers grow along the sequence, so no two entries share one and
    /// the sequence is in creation order; the counter lies above them all.
    pub open spec fn wf(self) -> bool {
        &&& forall|i: int, j: int|
            0 <= i < j < self.items.len() ==> self.items[i].id < self.items[j].id
        &&& forall|i: int| 0 <= i < self.items.len() ==> self.items[i].id < self.next_id
    }

    /// Whether some entry carries `id`.
    pub open spec fn contains(self, id: nat) -> bool {
        exists|i: int| 0 <= i < self.items.len() && self.items[i].id == id
    }

    /// The place of the entry that carries `id`. Meaningful where
    /// `self.contains(id)`.
    pub open spec fn position(self, id: nat) -> int {
        choose|i: int| 0 <= i < self.items.len() && self.items[i].id == id
    }

    /// In a well-formed store an identifier names one place only.
    pub proof fn lemma_position(self, id: nat, at: int)
        requires
            self.wf(),
            0 <= at < self.items.len(),
            self.items[at].id == id,
        ensures
            self.contains(id),
            self.position(id) == at,
    {
        let chosen = self.position(id);
        assert(0 <= chosen < self.items.len() && self.items[chosen].id == id);
        if chosen < at {
            assert(self.items[chosen].id < self.items[at].id);
        } else if at < chosen {
            assert(self.items[at].id < self.items[chosen].id);
        }
    }

    /// The entry that carries `id`, if there is one.
    pub open spec fn find(self, id: nat) -> Option<TodoView> {
        if self.contains(id) {
            Some(self.items[self.position(id)])
        } else {
            None
        }
    }

    /// The entry that carries `id` as it is once it is done, if there is one.
    pub open spec fn completed(self, id: nat) -> Option<TodoView> {
        match self.find(id) {
            Some(todo) => Some(todo.complete()),
            None => None,
        }
    }

    /// The entry that carries `id` as it is under another title, if there is
    /// one.
    pub open spec fn edited(self, id: nat, title: Seq<char>) -> Option<TodoView> {
        match self.find(id) {
            Some(todo) => Some(todo.edit(title)),
            None => None,
        }
    }

    /// A new entry at the end, under the counter's value; the counter moves on.
    pub open spec fn create(self, title: Seq<char>) -> StoreModel {
        StoreModel {
            next_id: self.next_id + 1,
            items: self.items.push(TodoView { id: self.next_id, title, completed: false }),
        }
    }

    /// The entry that carries `id` gets another title; without such an entry
    /// nothing changes.
    pub open spec fn edit(self, id: nat, title: Seq<char>) -> StoreModel {
        if self.contains(id) {
            let at = self.position(id);
            StoreModel { items: self.items.update(at, self.items[at].edit(title)), ..self }
        } else {
            self
        }
    }

    /// The entry that carries `id` is marked as done; without such an entry
    /// nothing changes.
    pub open spec fn complete(self, id: nat) -> StoreModel {
        if self.contains(id) {
            let at = self.position(id);
            StoreModel { items: self.items.update(at, self.items[at].complete()), ..self }
        } else {
            self
        }
    }

    /// The entry that carries `id` leaves; the others keep their order.
    /// Without such an entry nothing changes.
    pub open spec fn delete(self, id: nat) -> StoreModel {
        if self.contains(id) {
            StoreModel { items: self.items.remove(self.position(id)), ..self }
        } else {
            self
        }
    }
}

/// The todo store.
pub struct AppState {
    next_id: u64,
    todos: Vec<Todo>,
}

impl View for AppState {
    type V = StoreModel;

    closed spec fn view(&self) -> StoreModel {
        StoreModel { next_id: self.next_id as nat, items: self.todos.deep_view() }
    }
}

/// The store a session starts from: empty, with identifiers from zero.
pub fn init() -> (store: AppState)
    ensures
        store@ == StoreModel::empty(0),
        store.wf(),
{
    AppState::new(0)
}

impl AppState {
    /// The store's invariant: see [`StoreModel::wf`].
    pub open spec fn wf(&self) -> bool {
        self@.wf()
    }

    /// An empty store whose first entry will get `next_id`.
    pub fn new(next_id: u64) -> (store: AppState)
        ensures
            store@ == StoreModel::empty(next_id as nat),
            store.wf(),
    {
        let store = AppState { next_id, todos: Vec::new() };
        assert(store@.items =~= Seq::empty());
        store
    }

    /// The entries, in creation order.
    pub fn todos(&self) -> (todos: &[Todo])
        ensures
            todos.deep_view() == self@.items,
    {
        self.todos.as_slice()
    }

    /// The identifier that the next entry will get.
    pub fn next_id(&self) -> (next_id: u64)
        ensures
            next_id as nat == self@.next_id,
    {
        self.next_id
    }

    /// The place of the entry that carries `id`, by a scan from the front.
    fn locate(&self, id: u64) -> (place: Option<usize>)
        ensures
            match place {
                Some(at) => at < self@.items.len() && self@.items[at as int].id == id as nat,
                None => !self@.contains(id as nat),
            },
    {
        let mut at: usize = 0;
        while at < self.todos.len()
            invariant
                at <= self.todos.len(),
                forall|k: int| 0 <= k < at ==> self@.items[k].id != id as nat,
            decreases self.todos.len() - at,
        {
            if self.todos[at].id() == id {
                return Some(at);
            }
            at += 1;
        }
        None
    }

    /// Creates an entry under the next identifier and returns that identifier.
    pub fn new_todo(&mut self, title: &str) -> (id: u64)
        requires
            old(self).wf(),
            old(self)@.next_id < u64::MAX,
        ensures
            final(self).wf(),
            id as nat == old(self)@.next_id,
            final(self)@ == old(self)@.create(title@),
    {
        let id = self.next_id;
        self.next_id += 1;
        self.todos.push(Todo::new(id, title.to_owned()));
        assert(self@.items =~= old(self)@.items.push(
            TodoView { id: id as nat, title: title@, completed: false },
        ));
        id
    }

    /// Gives the entry that carries `id` another title and returns the entry.
    pub fn edit_todo(&mut self, id: u64, new_title: &str) -> (found: Option<&Todo>)
        requires
            old(self).wf(),
        ensures
            final(self).wf(),
            final(self)@ == old(self)@.edit(id as nat, new_title@),
            found.deep_view() == old(self)@.edited(id as nat, new_title@),
    {
        match self.locate(id) {
            Some(at) => {
                self.todos[at].edit(new_title);
                proof {
                    let before = old(self)@;
                    before.lemma_position(id as nat, at as int);
                    assert(self@.items =~= before.items.update(
                        at as int,
                        before.items[at as int].edit(new_title@),
                    ));
                }
                Some(&self.todos[at])
            },
            None => None,
        }
    }

    /// Marks the entry that carries `id` as done and returns the entry.
    pub fn complete_todo(&mut self, id: u64) -> (found: Option<&Todo>)
        requires
            old(self).wf(),
        ensures
            final(self).wf(),
            final(self)@ == old(self)@.complete(id as nat),
            found.deep_view() == old(self)@.completed(id as nat),
    {
        match self.locate(id) {
            Some(at) => {
                self.todos[at].complete();
                proof {
                    let before = old(self)@;
                    before.lemma_position(id as nat, at as int);
                    assert(self@.items =~= before.items.update(
                        at as int,
                        before.items[at as int].complete(),
                    ));
                }
                Some(&self.todos[at])
            },
            None => None,
        }
    }

    /// Removes the entry that carries `id` and hands it to the caller.
    pub fn delete_todo(&mut self, id: u64) -> (removed: Option<Todo>)
        requires
            old(self).wf(),
        ensures
            final(self).wf(),
            final(self)@ == old(self)@.delete(id as nat),
            removed.deep_view() == old(self)@.find(id as nat),
    {
        match self.locate(id) {
            Some(at) => {
                let todo = self.todos.remove(at);
                proof {
                    let before = old(self)@;
                    before.lemma_position(id as nat, at as int);
                    assert(self@.items =~= before.items.remove(at as int));
                }
                Some(todo)
            },
            None => None,
        }
    }
}

} // verus!
