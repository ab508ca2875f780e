//! What holds of the store whatever is done with it, proved over
//! [`StoreModel`], the model in which the store's operations state their
//! results.

use vstd::prelude::*;
use crate::store::StoreModel;
use crate::todo::TodoView;

verus! {

/// One operation on the store.
pub enum Op {
    Create(Seq<char>),
    Edit(nat, Seq<char>),
    Complete(nat),
    Delete(nat),
}

/// The store after one operation.
pub open spec fn apply(store: StoreModel, op: Op) -> StoreModel {
    match op {
        Op::Create(title) => store.create(title),
        Op::Edit(id, title) => store.edit(id, title),
        Op::Complete(id) => store.complete(id),
        Op::Delete(id) => store.delete(id),
    }
}

/// The store after a run of operations, the first of them first.
pub open spec fn run(store: StoreModel, ops: Seq<Op>) -> StoreModel
    decreases ops.len(),
{
    if ops.len() == 0 {
        store
    } else {
        apply(run(store, ops.drop_last()), ops.last())
    }
}

/// How many operations of a run create an entry.
pub open spec fn creations(ops: Seq<Op>) -> nat
    decreases ops.len(),
{
    if ops.len() == 0 {
        0
    } else {
        creations(ops.drop_last()) + if ops.last() is Create { 1nat } else { 0nat }
    }
}

/// How many operations of a run delete an entry that is there when they come.
pub open spec fn deletions(store: StoreModel, ops: Seq<Op>) -> nat
    decreases ops.len(),
{
    if ops.len() == 0 {
        0
    } else {
        let before = run(store, ops.drop_last());
        deletions(store, ops.drop_last()) + match ops.last() {
            Op::Delete(id) => if before.contains(id) { 1nat } else { 0nat },
            _ => 0nat,
        }
    }
}

/// Every operation keeps the store well formed, and never moves the counter
/// back.
pub proof fn lemma_apply_wf(store: StoreModel, op: Op)
    requires
        store.wf(),
    ensures
        apply(store, op).wf(),
        apply(store, op).next_id >= store.next_id,
{
}

/// A run of operations keeps the store well formed: identifiers stay distinct
/// and below the counter, and the entries stay in the order of their creation.
pub proof fn lemma_run_wf(store: StoreModel, ops: Seq<Op>)
    requires
        store.wf(),
    ensures
        run(store, ops).wf(),
        run(store, ops).next_id >= store.next_id,
    decreases ops.len(),
{
    if ops.len() > 0 {
        lemma_run_wf(store, ops.drop_last());
        lemma_apply_wf(run(store, ops.drop_last()), ops.last());
    }
}

/// Identifiers are handed out in strictly growing order: of two creations in
/// a run, the later one gets the larger identifier, whatever happens between
/// them. A creation gets the counter's value at the moment it comes, so no
/// identifier is handed out twice, not even after its entry was deleted.
pub proof fn lemma_created_ids_increase(store: StoreModel, ops: Seq<Op>, i: int, j: int)
    requires
        0 <= i < j < ops.len(),
        ops[i] is Create,
        ops[j] is Create,
    ensures
        run(store, ops.take(i)).next_id < run(store, ops.take(j)).next_id,
{
    lemma_counter_passes(store, ops, i, j);
}

/// From a creation on, the counter lies above the value that creation got.
pub proof fn lemma_counter_passes(store: StoreModel, ops: Seq<Op>, i: int, k: int)
    requires
        0 <= i < k <= ops.len(),
        ops[i] is Create,
    ensures
        run(store, ops.take(i)).next_id < run(store, ops.take(k)).next_id,
    decreases k - i,
{
    let upto = ops.take(k);
    assert(upto.drop_last() =~= ops.take(k - 1));
    assert(upto.last() == ops[k - 1]);
    if k - 1 > i {
        lemma_counter_passes(store, ops, i, k - 1);
    }
}

/// Completing an entry twice is completing it once: the second call finds
/// what the first found, hands out the same entry, and leaves the store as the
/// first left it. Where the entry exists it is done afterwards.
pub proof fn lemma_complete_idempotent(store: StoreModel, id: nat)
    requires
        store.wf(),
    ensures
        store.complete(id).complete(id) == store.complete(id),
        store.complete(id).completed(id) == store.completed(id),
        store.complete(id).find(id) == store.completed(id),
        store.contains(id) ==> store.complete(id).find(id)->0.completed,
{
    if store.contains(id) {
        let at = store.position(id);
        let once = store.complete(id);
        once.lemma_position(id, at);
        assert(once.complete(id).items =~= once.items);
    }
}

/// Deleting removes exactly the entry asked for: the list is one shorter, the
/// identifier is gone, and every other entry is found as before.
pub proof fn lemma_delete_removes_one(store: StoreModel, id: nat)
    requires
        store.wf(),
        store.contains(id),
    ensures
        store.delete(id).items.len() == store.items.len() - 1,
        !store.delete(id).contains(id),
        forall|other: nat|
            other != id ==> #[trigger] store.delete(id).find(other) == store.find(other),
{
    let at = store.position(id);
    let after = store.delete(id);
    assert forall|k: int| 0 <= k < after.items.len() implies after.items[k] == store.items[if k
        < at {
        k
    } else {
        k + 1
    }] by {}
    assert forall|other: nat| other != id implies #[trigger] after.find(other) == store.find(
        other,
    ) by {
        if store.contains(other) {
            let there = store.position(other);
            after.lemma_position(other, if there < at { there } else { there - 1 });
        }
    }
}

/// Once an entry is deleted, editing, completing or deleting it again finds
/// nothing and changes nothing.
pub proof fn lemma_deleted_is_gone(store: StoreModel, id: nat, title: Seq<char>)
    requires
        store.wf(),
    ensures
        store.delete(id).find(id) is None,
        store.delete(id).edited(id, title) is None,
        store.delete(id).completed(id) is None,
        store.delete(id).edit(id, title) == store.delete(id),
        store.delete(id).complete(id) == store.delete(id),
        store.delete(id).delete(id) == store.delete(id),
{
    if store.contains(id) {
        lemma_delete_removes_one(store, id);
    }
}

/// Editing changes the title of the entry asked for and nothing else: the
/// entry keeps its place, its identifier and its flag, every other entry is
/// untouched, and the counter stays.
pub proof fn lemma_edit_changes_title_only(store: StoreModel, id: nat, title: Seq<char>)
    requires
        store.wf(),
        store.contains(id),
    ensures
        store.edit(id, title).next_id == store.next_id,
        store.edit(id, title).items.len() == store.items.len(),
        store.edit(id, title).find(id) == store.edited(id, title),
        store.edited(id, title) == Some(
            TodoView { id, title, completed: store.find(id)->0.completed },
        ),
        forall|k: int|
            0 <= k < store.items.len() && store.items[k].id != id ==> store.edit(
                id,
                title,
            ).items[k] == #[trigger] store.items[k],
{
    let at = store.position(id);
    store.edit(id, title).lemma_position(id, at);
}

/// The list is as long as it was, plus the creations, minus the deletions
/// that found their entry.
pub proof fn lemma_length_counts(store: StoreModel, ops: Seq<Op>)
    requires
        store.wf(),
    ensures
        run(store, ops).items.len() == store.items.len() + creations(ops) - deletions(store, ops),
    decreases ops.len(),
{
    if ops.len() > 0 {
        lemma_length_counts(store, ops.drop_last());
        lemma_run_wf(store, ops.drop_last());
    }
}

} // verus!
