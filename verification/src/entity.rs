//! The entity tree: a generational-index forest holding every view instance.
//!
//! Slots are appended and never recycled, so a child's index is always
//! strictly greater than its parent's; that order is what makes ancestor
//! walks and subtree traversals terminate. Removing an entity marks its
//! whole subtree dead and bumps the generation of each slot, so that stale
//! identifiers are rejected rather than silently reused.
use vstd::prelude::*;

verus! {

/// An opaque, stable identifier for a view instance: a slot index plus the
/// generation the slot had when the entity was created.
#[derive(Clone, Copy, PartialEq, Eq, Structural, Debug)]
pub struct Entity {
    pub index: u32,
    pub generation: u32,
}

impl Entity {
    /// The root of the tree, present from creation and never removed.
    pub fn root() -> (r: Entity)
        ensures
            r == (Entity { index: 0u32, generation: 0u32 }),
    {
        Entity { index: 0, generation: 0 }
    }
}

/// One slot of the tree.
#[derive(Clone, Debug)]
pub struct Slot {
    /// Whether the entity in this slot still exists.
    pub alive: bool,
    /// Bumped when the slot's entity is removed, so stale [`Entity`] values
    /// no longer match.
    pub generation: u32,
    /// The parent slot; `None` only for the root.
    pub parent: Option<u32>,
    /// Child slots, in creation order; every child index is greater than the
    /// parent's own index.
    pub children: Vec<u32>,
}

/// The generational-index forest.
#[derive(Debug)]
pub struct EntityTree {
    pub slots: Vec<Slot>,
}

impl EntityTree {
    pub open spec fn len(self) -> int {
        self.slots@.len() as int
    }

    /// Structural well-formedness of one slot: the root has no parent, every
    /// other slot has a parent with a smaller index, and children have larger
    /// indices than their parent.
    pub open spec fn slot_ok(self, i: int) -> bool {
        &&& (i == 0 ==> self.slots@[i].parent is None)
        &&& (i >= 1 ==> match self.slots@[i].parent {
            Option::Some(p) => p < i,
            Option::None => false,
        })
        &&& (forall|j: int|
            0 <= j < self.slots@[i].children@.len() ==> i < #[trigger] self.slots@[i].children@[j]
                < self.len())
    }

    /// Well-formedness of the whole tree.
    pub open spec fn wf(self) -> bool {
        &&& 1 <= self.len() < 0x1_0000_0000
        &&& forall|i: int| 0 <= i < self.len() ==> #[trigger] self.slot_ok(i)
    }

    /// Whether `e` currently refers to a live entity: its slot exists, is
    /// alive, and still carries the generation `e` was created with.
    pub open spec fn valid_spec(self, e: Entity) -> bool {
        &&& e.index < self.len()
        &&& self.slots@[e.index as int].alive
        &&& self.slots@[e.index as int].generation == e.generation
    }

    /// A tree holding only the root entity.
    pub fn new() -> (r: EntityTree)
        ensures
            r.wf(),
            r.len() == 1,
            r.valid_spec(Entity { index: 0u32, generation: 0u32 }),
    {
        let mut slots: Vec<Slot> = Vec::new();
        slots.push(Slot { alive: true, generation: 0, parent: Option::None, children: Vec::new() });
        EntityTree { slots }
    }

    /// Rejects stale identifiers: true only while the slot's generation
    /// matches the entity's.
    pub fn is_valid(&self, e: Entity) -> (r: bool)
        ensures
            r == self.valid_spec(e),
    {
        let n = self.slots.len();
        if (e.index as usize) < n {
            let slot = &self.slots[e.index as usize];
            slot.alive && slot.generation == e.generation
        } else {
            false
        }
    }

    /// Creates a new entity as the last child of `parent`. Returns `None`
    /// (and changes nothing) if `parent` is stale or the index space is
    /// exhausted.
    pub fn create_child(&mut self, parent: Entity) -> (r: Option<Entity>)
        requires
            old(self).wf(),
        ensures
            final(self).wf(),
            r is None ==> *final(self) == *old(self),
            old(self).valid_spec(parent) && old(self).len() + 1 < 0x1_0000_0000 ==> (r is Some),
            r matches Some(e) ==> {
                &&& old(self).valid_spec(parent)
                &&& e.index == old(self).len()
                &&& e.generation == 0
                &&& final(self).len() == old(self).len() + 1
                &&& final(self).valid_spec(e)
                &&& final(self).slots@[e.index as int].parent == Option::Some(parent.index)
                &&& final(self).slots@[e.index as int].children@.len() == 0
                &&& final(self).slots@[parent.index as int].children@ == old(
                    self,
                ).slots@[parent.index as int].children@.push(e.index)
                &&& final(self).slots@[parent.index as int].alive == old(
                    self,
                ).slots@[parent.index as int].alive
                &&& final(self).slots@[parent.index as int].generation == old(
                    self,
                ).slots@[parent.index as int].generation
                &&& final(self).slots@[parent.index as int].parent == old(
                    self,
                ).slots@[parent.index as int].parent
                &&& (forall|i: int|
                    0 <= i < old(self).len() && i != parent.index ==> final(self).slots@[i] == old(
                        self,
                    ).slots@[i])
            },
    {
        if !self.is_valid(parent) {
            return None;
        }
        let n = self.slots.len();
        if n >= 0xFFFF_FFFFusize {
            return None;
        }
        let idx: u32 = n as u32;
        self.slots.push(
            Slot {
                alive: true,
                generation: 0,
                parent: Option::Some(parent.index),
                children: Vec::new(),
            },
        );
        let pslot = &mut self.slots[parent.index as usize];
        pslot.children.push(idx);
        let e = Entity { index: idx, generation: 0 };
        proof {
            assert forall|i: int| 0 <= i < self.len() implies #[trigger] self.slot_ok(i) by {
                assert(old(self).wf());
                if i < old(self).len() {
                    assert(old(self).slot_ok(i));
                }
            }
        }
        Some(e)
    }

    /// Whether slot `i` lies in the subtree rooted at slot `root`, following
    /// parent links.
    pub open spec fn is_desc_spec(self, i: int, root: int) -> bool
        decreases i,
        when self.wf() && 0 <= i < self.len()
    {
        if i == root {
            true
        } else {
            match self.slots@[i].parent {
                Option::Some(p) => if 0 <= p < i {
                    self.is_desc_spec(p as int, root)
                } else {
                    false
                },
                Option::None => false,
            }
        }
    }

    /// Follows parent links to decide subtree membership.
    pub fn is_descendant_or_self(&self, i: u32, root: u32) -> (r: bool)
        requires
            self.wf(),
            i < self.len(),
            root < self.len(),
        ensures
            r == self.is_desc_spec(i as int, root as int),
        decreases i,
    {
        if i == root {
            true
        } else {
            proof {
                assert(self.slot_ok(i as int));
            }
            match self.slots[i as usize].parent {
                Option::Some(p) => self.is_descendant_or_self(p, root),
                Option::None => false,
            }
        }
    }

    /// Subtree membership depends only on the parent links, which no
    /// operation ever rewrites; liveness and generation changes do not
    /// affect it.
    pub proof fn lemma_desc_frame(t1: EntityTree, t2: EntityTree, i: int, root: int)
        requires
            t1.wf(),
            t2.wf(),
            t1.len() == t2.len(),
            forall|k: int| 0 <= k < t1.len() ==> t1.slots@[k].parent == t2.slots@[k].parent,
            0 <= i < t1.len(),
            0 <= root < t1.len(),
        ensures
            t1.is_desc_spec(i, root) == t2.is_desc_spec(i, root),
        decreases i,
    {
        if i != root {
            assert(t1.slot_ok(i));
            assert(t2.slot_ok(i));
            match t1.slots@[i].parent {
                Option::Some(p) => {
                    if 0 <= p < i {
                        Self::lemma_desc_frame(t1, t2, p as int, root);
                    }
                },
                Option::None => {},
            }
        }
    }

    /// The chain of slots from `i` up to the root: `i`, its parent, and so
    /// on. This is the delivery path of an ascending (bubbling) event.
    pub open spec fn ancestors_spec(self, i: int) -> Seq<u32>
        decreases i,
        when self.wf() && 0 <= i < self.len()
    {
        match self.slots@[i].parent {
            Option::Some(p) => if 0 <= p < i {
                seq![i as u32] + self.ancestors_spec(p as int)
            } else {
                seq![i as u32]
            },
            Option::None => seq![i as u32],
        }
    }

    /// Collects the ascending delivery path starting at slot `i`.
    pub fn ancestor_path(&self, i: u32) -> (path: Vec<u32>)
        requires
            self.wf(),
            i < self.len(),
        ensures
            path@ == self.ancestors_spec(i as int),
            forall|k: int| 0 <= k < path@.len() ==> #[trigger] path@[k] < self.len(),
    {
        let mut path: Vec<u32> = Vec::new();
        let mut cur: u32 = i;
        loop
            invariant_except_break
                path@ + self.ancestors_spec(cur as int) == self.ancestors_spec(i as int),
            invariant
                self.wf(),
                cur < self.len(),
                forall|k: int| 0 <= k < path@.len() ==> #[trigger] path@[k] < self.len(),
            ensures
                path@ == self.ancestors_spec(i as int),
                forall|k: int| 0 <= k < path@.len() ==> #[trigger] path@[k] < self.len(),
            decreases cur,
        {
            proof {
                assert(self.slot_ok(cur as int));
            }
            let ghost path0 = path@;
            path.push(cur);
            match self.slots[cur as usize].parent {
                Option::Some(p) => {
                    proof {
                        assert(self.ancestors_spec(cur as int) == seq![cur]
                            + self.ancestors_spec(p as int));
                        assert(path@ + self.ancestors_spec(p as int) =~= path0
                            + self.ancestors_spec(cur as int));
                    }
                    cur = p;
                },
                Option::None => {
                    proof {
                        assert(self.ancestors_spec(cur as int) =~= seq![cur]);
                        assert(path@ =~= self.ancestors_spec(i as int));
                    }
                    break ;
                },
            }
        }
        path
    }

    /// The subtree rooted at slot `i` in pre-order: the slot itself, then
    /// each child's subtree in creation order. This is the delivery path of
    /// a subtree event.
    pub open spec fn preorder_spec(self, i: int) -> Seq<u32>
        decreases self.len() - i, 1int, 0int,
        when self.wf() && 0 <= i < self.len()
    {
        seq![i as u32] + self.preorder_children(i, 0)
    }

    /// The concatenated pre-orders of the children of slot `i` starting at
    /// child position `k`.
    pub open spec fn preorder_children(self, i: int, k: int) -> Seq<u32>
        decreases self.len() - i, 0int, self.slots@[i].children@.len() - k,
        when self.wf() && 0 <= i < self.len() && 0 <= k
    {
        if k < self.slots@[i].children@.len() {
            let c = self.slots@[i].children@[k];
            if i < c < self.len() {
                self.preorder_spec(c as int) + self.preorder_children(i, k + 1)
            } else {
                Seq::empty()
            }
        } else {
            Seq::empty()
        }
    }

    /// Every slot named by a pre-order traversal lies within the tree.
    pub proof fn lemma_preorder_bounds(self, i: int)
        requires
            self.wf(),
            0 <= i < self.len(),
        ensures
            forall|k: int|
                0 <= k < self.preorder_spec(i).len() ==> #[trigger] self.preorder_spec(i)[k]
                    < self.len(),
        decreases self.len() - i, 1int, 0int,
    {
        self.lemma_preorder_children_bounds(i, 0);
        assert forall|k: int|
            0 <= k < self.preorder_spec(i).len() implies #[trigger] self.preorder_spec(i)[k]
            < self.len() by {
            if k > 0 {
                assert(self.preorder_spec(i)[k] == self.preorder_children(i, 0)[k - 1]);
            }
        }
    }

    /// Bounds for the concatenated child pre-orders.
    pub proof fn lemma_preorder_children_bounds(self, i: int, k: int)
        requires
            self.wf(),
            0 <= i < self.len(),
            0 <= k,
        ensures
            forall|m: int|
                0 <= m < self.preorder_children(i, k).len() ==> #[trigger] self.preorder_children(
                    i,
                    k,
                )[m] < self.len(),
        decreases self.len() - i, 0int, self.slots@[i].children@.len() - k,
    {
        assert(self.slot_ok(i));
        if k < self.slots@[i].children@.len() {
            let c = self.slots@[i].children@[k];
            if i < c < self.len() {
                self.lemma_preorder_bounds(c as int);
                self.lemma_preorder_children_bounds(i, k + 1);
                assert forall|m: int|
                    0 <= m < self.preorder_children(i, k).len()
                    implies #[trigger] self.preorder_children(i, k)[m] < self.len() by {
                    let front = self.preorder_spec(c as int);
                    if m < front.len() {
                        assert(self.preorder_children(i, k)[m] == front[m]);
                    } else {
                        assert(self.preorder_children(i, k)[m] == self.preorder_children(i, k + 1)[m
                            - front.len()]);
                    }
                }
            }
        }
    }

    /// Appends the pre-order of the subtree rooted at `i` to `out`.
    pub fn push_preorder(&self, i: u32, out: &mut Vec<u32>)
        requires
            self.wf(),
            i < self.len(),
        ensures
            final(out)@ == old(out)@ + self.preorder_spec(i as int),
        decreases self.len() - i,
    {
        let ghost out0 = out@;
        out.push(i);
        let n_children = self.slots[i as usize].children.len();
        let mut k: usize = 0;
        proof {
            assert(out@ + self.preorder_children(i as int, 0) =~= out0 + self.preorder_spec(
                i as int,
            ));
        }
        while k < n_children
            invariant
                self.wf(),
                i < self.len(),
                n_children == self.slots@[i as int].children@.len(),
                k <= n_children,
                out@ + self.preorder_children(i as int, k as int) == out0 + self.preorder_spec(
                    i as int,
                ),
            decreases n_children - k,
        {
            proof {
                assert(self.slot_ok(i as int));
            }
            let ghost out_before = out@;
            let c = self.slots[i as usize].children[k];
            self.push_preorder(c, out);
            proof {
                assert(out@ + self.preorder_children(i as int, k + 1 as int) =~= out_before
                    + self.preorder_children(i as int, k as int));
            }
            k = k + 1;
        }
        proof {
            assert(out@ =~= out@ + self.preorder_children(i as int, n_children as int));
        }
    }

    /// Removes the entity `e` and its whole subtree: every slot in the
    /// subtree is marked dead and its generation bumped, so identifiers into
    /// it become stale. Removing a stale entity is a no-op, not an error.
    pub fn remove(&mut self, e: Entity)
        requires
            old(self).wf(),
        ensures
            final(self).wf(),
            final(self).len() == old(self).len(),
            !old(self).valid_spec(e) ==> *final(self) == *old(self),
            old(self).valid_spec(e) && e.index > 0 ==> {
                &&& (forall|i: int|
                    0 <= i < old(self).len() && old(self).is_desc_spec(i, e.index as int)
                        ==> !(#[trigger] final(self).slots@[i]).alive && final(self).slots@[i].generation
                        != old(self).slots@[i].generation)
                &&& (forall|i: int|
                    0 <= i < old(self).len() && !old(self).is_desc_spec(i, e.index as int)
                        ==> #[trigger] final(self).slots@[i] == old(self).slots@[i])
            },
            e.index == 0 ==> *final(self) == *old(self),
    {
        if !self.is_valid(e) {
            return;
        }
        if e.index == 0 {
            // The root cannot be removed; the application tears the whole
            // context down instead.
            return;
        }
        let ghost t0 = *self;
        let n = self.slots.len();
        let mut i: usize = 0;
        while i < n
            invariant
                self.wf(),
                t0.wf(),
                n == self.len(),
                n == t0.len(),
                e.index < n,
                i <= n,
                forall|k: int| 0 <= k < n ==> self.slots@[k].parent == t0.slots@[k].parent,
                forall|k: int|
                    0 <= k < n ==> (#[trigger] self.slots@[k]).children == t0.slots@[k].children,
                forall|k: int|
                    0 <= k < i && t0.is_desc_spec(k, e.index as int) ==> !(
                    #[trigger] self.slots@[k]).alive && self.slots@[k].generation
                        != t0.slots@[k].generation,
                forall|k: int|
                    0 <= k < n && (i <= k || !t0.is_desc_spec(k, e.index as int))
                        ==> #[trigger] self.slots@[k] == t0.slots@[k],
            decreases n - i,
        {
            proof {
                EntityTree::lemma_desc_frame(*self, t0, i as int, e.index as int);
            }
            if self.is_descendant_or_self(i as u32, e.index) {
                let slot = &mut self.slots[i];
                slot.alive = false;
                slot.generation = if slot.generation == 0xFFFF_FFFFu32 {
                    0
                } else {
                    slot.generation + 1
                };
            }
            proof {
                assert forall|k: int| 0 <= k < self.len() implies #[trigger] self.slot_ok(k) by {
                    assert(t0.slot_ok(k));
                }
            }
            i = i + 1;
        }
    }
}

} // verus!
