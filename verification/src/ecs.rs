//! Entity identifier allocation and per-type component storage.

use vstd::prelude::*;

verus! {

/// An entity identifier: an opaque, densely packed integer handle.
///
/// An identifier carries no payload of its own; it is purely a key into
/// component storages. Once destroyed, the same value may be reissued to a
/// logically different entity.
pub type Entity = u32;

/// The mathematical state of an [`EntityAllocator`]: the smallest identifier
/// never yet issued, and the stack of identifiers available for reuse.
pub ghost struct AllocatorView {
    /// The smallest identifier never yet issued fresh.
    pub next: int,
    /// Destroyed identifiers awaiting reuse, most recently destroyed last.
    pub recycled: Seq<Entity>,
}

/// Relates an allocator state before and after `create` to the identifier
/// `id` that the call returns: `create` pops the most recently recycled
/// identifier if one is available, and otherwise issues `next` and
/// increments it.
pub open spec fn create_step(pre: AllocatorView, post: AllocatorView, id: Entity) -> bool {
    if pre.recycled.len() > 0 {
        &&& id == pre.recycled.last()
        &&& post.recycled == pre.recycled.drop_last()
        &&& post.next == pre.next
    } else {
        &&& id as int == pre.next
        &&& post.recycled == pre.recycled
        &&& post.next == pre.next + 1
    }
}

/// Relates an allocator state before and after `destroy(entity)`:
/// the identifier is unconditionally appended to the recycled stack.
pub open spec fn destroy_step(pre: AllocatorView, post: AllocatorView, entity: Entity) -> bool {
    &&& post.next == pre.next
    &&& post.recycled == pre.recycled.push(entity)
}

/// Issues and recycles entity identifiers.
///
/// `create` returns a recycled identifier if one is available (most recently
/// destroyed first), and otherwise the smallest identifier never yet issued.
/// `destroy` unconditionally marks an identifier as free for reuse; it
/// performs no liveness check, so destroying the same identifier twice makes
/// it eligible to be handed out twice.
pub struct EntityAllocator {
    next: Entity,
    recycled: Vec<Entity>,
}

impl View for EntityAllocator {
    type V = AllocatorView;

    closed spec fn view(&self) -> AllocatorView {
        AllocatorView { next: self.next as int, recycled: self.recycled@ }
    }
}

impl Default for EntityAllocator {
    /// A fresh allocator: no identifier issued yet, none recycled.
    fn default() -> (r: Self)
        ensures
            r@.next == 0,
            r@.recycled == Seq::<Entity>::empty(),
    {
        EntityAllocator { next: 0, recycled: Vec::new() }
    }
}

impl EntityAllocator {
    /// Allocate an entity identifier: a recycled one if available, else a
    /// brand-new one.
    ///
    /// Issuing a fresh identifier when the counter has reached the top of
    /// the identifier space would exhaust the allocator, so that case is
    /// excluded up front.
    pub fn create(&mut self) -> (id: Entity)
        requires
            old(self)@.recycled.len() > 0 || old(self)@.next < u32::MAX as int,
        ensures
            create_step(old(self)@, final(self)@, id),
    {
        match self.recycled.pop() {
            Some(id) => id,
            None => {
                let id: Entity = self.next;
                self.next = self.next + 1;
                id
            },
        }
    }

    /// Mark an entity identifier as free for future reuse.
    ///
    /// The identifier is recycled unconditionally: no check is made that it
    /// was ever issued or is still live.
    pub fn destroy(&mut self, entity: Entity)
        ensures
            destroy_step(old(self)@, final(self)@, entity),
    {
        self.recycled.push(entity);
    }
}

/// The component value sitting at `entity`'s index in a storage with
/// contents `s`, or `None` both when the index is out of range and when the
/// slot is empty. This is the one observable outcome of a lookup: the two
/// causes of absence are deliberately folded together.
pub open spec fn slot_of<T>(s: Seq<Option<T>>, entity: Entity) -> Option<T> {
    if (entity as int) < s.len() {
        s[entity as int]
    } else {
        None
    }
}

/// Relates storage contents before and after `insert(entity, value)`: the
/// sequence grows (with empty slots) exactly as far as needed to cover
/// `entity`'s index, `value` lands in that slot, and every other slot reads
/// as before.
pub open spec fn insert_step<T>(
    pre: Seq<Option<T>>,
    post: Seq<Option<T>>,
    entity: Entity,
    value: T,
) -> bool {
    &&& post.len() == if (entity as int) < pre.len() {
        pre.len() as int
    } else {
        entity as int + 1
    }
    &&& slot_of(post, entity) == Some(value)
    &&& forall|e: Entity| e != entity ==> slot_of(post, e) == slot_of(pre, e)
}

/// Relates storage contents before and after `remove(entity)`, whose result
/// is `removed`: the previous occupant of `entity`'s slot (if any) comes
/// out, the slot reads as empty afterwards, and every other slot, as well as
/// the length, is untouched.
pub open spec fn remove_step<T>(
    pre: Seq<Option<T>>,
    post: Seq<Option<T>>,
    entity: Entity,
    removed: Option<T>,
) -> bool {
    &&& post.len() == pre.len()
    &&& removed == slot_of(pre, entity)
    &&& slot_of(post, entity) is None
    &&& forall|e: Entity| e != entity ==> slot_of(post, e) == slot_of(pre, e)
}

/// Growable, densely indexed storage of optional component values of one
/// type, where the position in the sequence is the entity identifier's
/// integer value.
///
/// Memory is proportional to the highest identifier ever inserted, whether
/// or not the entities in between carry the component: a deliberate
/// density-over-sparsity trade.
pub struct Storage<T> {
    data: Vec<Option<T>>,
}

impl<T> View for Storage<T> {
    type V = Seq<Option<T>>;

    closed spec fn view(&self) -> Seq<Option<T>> {
        self.data@
    }
}

impl<T> Storage<T> {
    /// An empty storage: every entity's slot reads as absent.
    pub fn new() -> (r: Self)
        ensures
            r@ == Seq::<Option<T>>::empty(),
    {
        Storage { data: Vec::new() }
    }

    /// Insert or replace the component for the given entity, growing the
    /// backing sequence with empty slots if the entity's index is not yet
    /// covered.
    ///
    /// The index one past `entity` must be representable in a `usize` for
    /// the backing sequence to reach it.
    pub fn insert(&mut self, entity: Entity, component: T)
        requires
            entity as int + 1 <= usize::MAX as int,
        ensures
            insert_step(old(self)@, final(self)@, entity, component),
    {
        let idx: usize = entity as usize;
        while self.data.len() <= idx
            invariant
                idx as int + 1 <= usize::MAX as int,
                old(self)@.len() <= self.data@.len(),
                self.data@.len() <= old(self)@.len() || self.data@.len() <= idx + 1,
                forall|i: int| 0 <= i < old(self)@.len() ==> self.data@[i] == old(self)@[i],
                forall|i: int| old(self)@.len() <= i < self.data@.len()
                    ==> self.data@[i] is None,
            decreases idx + 1 - self.data.len(),
        {
            self.data.push(None);
        }
        self.data[idx] = Some(component);
    }

    /// Borrow the component for the given entity, or `None` when the
    /// entity's index is out of range or its slot is empty.
    pub fn get(&self, entity: Entity) -> (r: Option<&T>)
        ensures
            (match r {
                Some(v) => slot_of(self@, entity) == Some(*v),
                None => slot_of(self@, entity) is None,
            }),
    {
        let idx: usize = entity as usize;
        if idx < self.data.len() {
            self.data[idx].as_ref()
        } else {
            None
        }
    }

    /// Clear the given entity's slot and yield its previous occupant, if
    /// any. The backing sequence keeps its length; only the one slot is
    /// emptied.
    pub fn remove(&mut self, entity: Entity) -> (r: Option<T>)
        ensures
            remove_step(old(self)@, final(self)@, entity, r),
    {
        let idx: usize = entity as usize;
        if idx < self.data.len() {
            self.data[idx].take()
        } else {
            None
        }
    }
}

} // verus!
