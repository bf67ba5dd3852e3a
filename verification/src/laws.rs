//! Laws of the allocator and of component storage, stated over the
//! mathematical models in [`crate::ecs`] and proved once and for all.

use vstd::prelude::*;

use crate::ecs::AllocatorView;
use crate::ecs::Entity;
use crate::ecs::create_step;
use crate::ecs::destroy_step;
use crate::ecs::insert_step;
use crate::ecs::remove_step;
use crate::ecs::slot_of;

verus! {

/// One observable call on an allocator: `Create(id)` records that `create`
/// returned `id`; `Destroy(e)` records a call of `destroy(e)`.
pub ghost enum AllocatorOp {
    Create(Entity),
    Destroy(Entity),
}

/// Whether one allocator call with the recorded outcome takes the state
/// `pre` to the state `post`.
pub open spec fn op_step(pre: AllocatorView, post: AllocatorView, op: AllocatorOp) -> bool {
    match op {
        AllocatorOp::Create(id) => create_step(pre, post, id),
        AllocatorOp::Destroy(e) => destroy_step(pre, post, e),
    }
}

/// Whether the sequence of calls `ops`, performed in order, takes the
/// allocator state `pre` to the state `post`.
pub open spec fn reaches(pre: AllocatorView, ops: Seq<AllocatorOp>, post: AllocatorView) -> bool
    decreases ops.len(),
{
    if ops.len() == 0 {
        post == pre
    } else {
        exists|mid: AllocatorView|
            op_step(pre, mid, #[trigger] ops.first()) && reaches(mid, ops.drop_first(), post)
    }
}

/// The allocator state `a` agrees with a set `live` of identifiers that the
/// application currently considers allocated and not destroyed: live and
/// recycled identifiers all lie below `next`, no identifier is both live and
/// recycled, and no identifier is recycled twice.
///
/// This is the inductive invariant behind uniqueness of live identifiers; it
/// holds of a fresh allocator with no live identifiers and, by the lemmas
/// below, is preserved by `create` and by `destroy` of a live identifier.
pub open spec fn consistent(a: AllocatorView, live: Set<Entity>) -> bool {
    &&& forall|e: Entity| live.contains(e) ==> (e as int) < a.next
    &&& forall|i: int| 0 <= i < a.recycled.len() ==> (#[trigger] a.recycled[i] as int) < a.next
    &&& forall|i: int| 0 <= i < a.recycled.len() ==> !live.contains(#[trigger] a.recycled[i])
    &&& forall|i: int, j: int|
        0 <= i < j < a.recycled.len() ==> a.recycled[i] != a.recycled[j]
}

/// The base case of uniqueness while live: a fresh allocator — nothing
/// issued, nothing recycled, as `EntityAllocator::default` builds it — is
/// consistent with an empty live set.
pub proof fn lemma_fresh_allocator_consistent(a: AllocatorView)
    requires
        a.next == 0,
        a.recycled.len() == 0,
    ensures
        consistent(a, Set::<Entity>::empty()),
{
}

/// Uniqueness while live: as long as `destroy` is only ever called on live
/// identifiers, an identifier returned by `create` differs from every
/// identifier that is still live, so no two concurrently live identifiers
/// are equal. `create` also keeps the allocator consistent with the enlarged
/// live set.
pub proof fn lemma_create_is_fresh(
    pre: AllocatorView,
    post: AllocatorView,
    id: Entity,
    live: Set<Entity>,
)
    requires
        consistent(pre, live),
        create_step(pre, post, id),
    ensures
        !live.contains(id),
        consistent(post, live.insert(id)),
{
    if pre.recycled.len() > 0 {
        let n = pre.recycled.len() as int;
        assert(id == pre.recycled[n - 1]);
        assert(!live.contains(id));
        assert forall|i: int| 0 <= i < post.recycled.len() implies
            !live.insert(id).contains(#[trigger] post.recycled[i]) by {
            assert(post.recycled[i] == pre.recycled[i]);
            assert(pre.recycled[i] != pre.recycled[n - 1]);
        }
    }
}

/// The counterpart of [`lemma_create_is_fresh`]: destroying a live
/// identifier keeps the allocator consistent with the shrunken live set. In
/// particular the recycled stack stays free of duplicates, so the identifier
/// will be reissued only once.
pub proof fn lemma_destroy_keeps_consistent(
    pre: AllocatorView,
    post: AllocatorView,
    entity: Entity,
    live: Set<Entity>,
)
    requires
        consistent(pre, live),
        destroy_step(pre, post, entity),
        live.contains(entity),
    ensures
        consistent(post, live.remove(entity)),
{
    let n = pre.recycled.len() as int;
    assert forall|i: int, j: int|
        0 <= i < j < post.recycled.len() implies post.recycled[i] != post.recycled[j] by {
        if j == n {
            assert(post.recycled[i] == pre.recycled[i]);
            assert(!live.contains(pre.recycled[i]));
        }
    }
}

/// Reuse: destroying an identifier and then creating hands the same
/// identifier back, and returns the allocator to the state it had before the
/// destroy. Reuse is last-in-first-out, so the most recently destroyed
/// identifier is the one reissued.
pub proof fn lemma_destroy_then_create_reuses(
    pre: AllocatorView,
    mid: AllocatorView,
    post: AllocatorView,
    entity: Entity,
    id: Entity,
)
    requires
        destroy_step(pre, mid, entity),
        create_step(mid, post, id),
    ensures
        id == entity,
        post.next == pre.next,
        post.recycled == pre.recycled,
{
    assert(post.recycled =~= pre.recycled);
}

/// Monotonic floor: over any sequence of allocator calls, `next` never
/// decreases.
pub proof fn lemma_next_never_decreases(
    pre: AllocatorView,
    ops: Seq<AllocatorOp>,
    post: AllocatorView,
)
    requires
        reaches(pre, ops, post),
    ensures
        post.next >= pre.next,
    decreases ops.len(),
{
    if ops.len() > 0 {
        let mid = choose|mid: AllocatorView|
            op_step(pre, mid, ops.first()) && reaches(mid, ops.drop_first(), post);
        lemma_next_never_decreases(mid, ops.drop_first(), post);
    }
}

/// Monotonic floor, second half: a fresh (non-recycled) identifier equals
/// the `next` value at its issuance — that is what [`create_step`] states —
/// and is strictly greater than every fresh identifier issued earlier,
/// however many calls lie in between.
pub proof fn lemma_fresh_identifiers_increase(
    pre1: AllocatorView,
    post1: AllocatorView,
    id1: Entity,
    ops: Seq<AllocatorOp>,
    pre2: AllocatorView,
    post2: AllocatorView,
    id2: Entity,
)
    requires
        pre1.recycled.len() == 0,
        create_step(pre1, post1, id1),
        reaches(post1, ops, pre2),
        pre2.recycled.len() == 0,
        create_step(pre2, post2, id2),
    ensures
        id1 < id2,
{
    lemma_next_never_decreases(post1, ops, pre2);
}

/// Storage round-trip: after `insert(entity, value)`, the slot of `entity`
/// holds `value`, which is exactly what `get(entity)` then returns.
pub proof fn lemma_insert_then_get<T>(
    pre: Seq<Option<T>>,
    post: Seq<Option<T>>,
    entity: Entity,
    value: T,
)
    requires
        insert_step(pre, post, entity, value),
    ensures
        slot_of(post, entity) == Some(value),
{
}

/// Absence after remove: removing an entity's component empties its slot —
/// a following `get(entity)` returns absent — and yields the value that the
/// preceding `insert` had placed there.
pub proof fn lemma_insert_then_remove_clears<T>(
    s0: Seq<Option<T>>,
    s1: Seq<Option<T>>,
    s2: Seq<Option<T>>,
    entity: Entity,
    value: T,
    removed: Option<T>,
)
    requires
        insert_step(s0, s1, entity, value),
        remove_step(s1, s2, entity, removed),
    ensures
        removed == Some(value),
        slot_of(s2, entity) is None,
{
}

/// Absence by default, base case: on a fresh storage every entity's slot
/// reads as absent, including entities beyond the current length.
pub proof fn lemma_fresh_storage_absent<T>(entity: Entity)
    ensures
        slot_of(Seq::<Option<T>>::empty(), entity) is None,
{
}

/// Absence by default, inductive case: inserting or removing at one entity
/// leaves every other entity's slot untouched, so an entity never passed to
/// `insert` keeps reading as absent.
pub proof fn lemma_other_entity_untouched<T>(
    pre: Seq<Option<T>>,
    post: Seq<Option<T>>,
    entity: Entity,
    other: Entity,
    value: T,
    removed: Option<T>,
)
    requires
        entity != other,
        insert_step(pre, post, other, value) || remove_step(pre, post, other, removed),
    ensures
        slot_of(post, entity) == slot_of(pre, entity),
{
}

/// Overwrite: inserting twice at the same entity leaves the later value in
/// the slot; the earlier value is no longer reachable through the storage.
pub proof fn lemma_overwrite<T>(
    s0: Seq<Option<T>>,
    s1: Seq<Option<T>>,
    s2: Seq<Option<T>>,
    entity: Entity,
    first_value: T,
    second_value: T,
)
    requires
        insert_step(s0, s1, entity, first_value),
        insert_step(s1, s2, entity, second_value),
    ensures
        slot_of(s2, entity) == Some(second_value),
{
}

} // verus!
