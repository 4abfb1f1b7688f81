//! Fixed-capacity slot allocator with a LIFO free list.

use vstd::prelude::*;

verus! {

/// Abstract state of a pool: what each slot holds (`None` for a free slot)
/// and the stack of free slot indices, whose top is the last element.
#[verifier::ext_equal]
pub struct PoolView<T> {
    pub slots: Seq<Option<T>>,
    pub free: Seq<usize>,
}

impl<T> PoolView<T> {
    /// The pool that `ObjectPool::new(capacity, _)` builds: every slot free,
    /// the free stack holding `0, 1, ..., capacity - 1` (so `capacity - 1`
    /// is handed out first).
    pub open spec fn fresh(capacity: nat) -> PoolView<T> {
        PoolView {
            slots: Seq::new(capacity, |i: int| None),
            free: Seq::new(capacity, |i: int| i as usize),
        }
    }

    /// Number of slots.
    pub open spec fn capacity(self) -> nat {
        self.slots.len()
    }

    /// Whether `index` names a slot that is in use.
    pub open spec fn is_active(self, index: int) -> bool {
        0 <= index < self.slots.len() && self.slots[index] is Some
    }

    /// The free stack lists exactly the inactive slots, each once.
    pub open spec fn wf(self) -> bool {
        &&& self.slots.len() <= usize::MAX
        &&& self.free.no_duplicates()
        &&& forall|k: int|
            0 <= k < self.free.len() ==> {
                &&& (#[trigger] self.free[k]) < self.slots.len()
                &&& self.slots[self.free[k] as int] is None
            }
        &&& forall|i: int|
            0 <= i < self.slots.len() && (#[trigger] self.slots[i]) is None
                ==> self.free.contains(i as usize)
    }

    /// Allocation: pop the top free index and store `value` there; with no
    /// free index the pool is unchanged and nothing is returned.
    pub open spec fn allocated(self, value: T) -> (PoolView<T>, Option<usize>) {
        if self.free.len() == 0 {
            (self, None)
        } else {
            let index = self.free.last();
            (
                PoolView {
                    slots: self.slots.update(index as int, Some(value)),
                    free: self.free.drop_last(),
                },
                Some(index),
            )
        }
    }

    /// Deallocation: an active slot becomes free and its index is pushed on
    /// the free stack; any other index leaves the pool unchanged.
    pub open spec fn deallocated(self, index: usize) -> PoolView<T> {
        if self.is_active(index as int) {
            PoolView { slots: self.slots.update(index as int, None), free: self.free.push(index) }
        } else {
            self
        }
    }

    /// A new pool is well formed.
    pub proof fn lemma_fresh_wf(self)
        requires
            self == Self::fresh(self.capacity()),
            self.capacity() <= usize::MAX,
        ensures
            self.wf(),
    {
        assert forall|i: int|
            0 <= i < self.slots.len() && (#[trigger] self.slots[i]) is None implies self.free.contains(i as usize) by {
            assert(self.free[i] == i as usize);
        }
    }

    /// Allocation keeps the view well formed.
    pub proof fn lemma_allocate_keeps_wf(self, value: T)
        requires
            self.wf(),
        ensures
            self.allocated(value).0.wf(),
    {
        if self.free.len() > 0 {
            let index = self.free.last();
            let q = self.allocated(value).0;
            assert(self.free[self.free.len() - 1] == index);
            assert forall|i: int| 0 <= i < q.slots.len() && (#[trigger] q.slots[i]) is None implies q.free.contains(i as usize) by {
                assert(i != index);
                let k = choose|k: int| 0 <= k < self.free.len() && self.free[k] == i as usize;
                assert(k != self.free.len() - 1);
                assert(q.free[k] == i as usize);
            }
        }
    }

    /// Deallocation keeps the view well formed.
    pub proof fn lemma_deallocate_keeps_wf(self, index: usize)
        requires
            self.wf(),
        ensures
            self.deallocated(index).wf(),
    {
        if self.is_active(index as int) {
            let q = self.deallocated(index);
            assert(!self.free.contains(index));
            assert forall|i: int| 0 <= i < q.slots.len() && (#[trigger] q.slots[i]) is None implies q.free.contains(i as usize) by {
                if i == index {
                    assert(q.free[q.free.len() - 1] == index);
                } else {
                    let k = choose|k: int| 0 <= k < self.free.len() && self.free[k] == i as usize;
                    assert(q.free[k] == i as usize);
                }
            }
        }
    }

    /// The same pool with `x` as the occupant of slot `index`.
    pub open spec fn replaced(self, index: int, x: T) -> PoolView<T> {
        PoolView { slots: self.slots.update(index, Some(x)), free: self.free }
    }

    /// Replacing the occupant of an active slot keeps the view well formed.
    pub proof fn lemma_replace_keeps_wf(self, index: int)
        requires
            self.wf(),
            self.is_active(index),
        ensures
            forall|x: T| (#[trigger] self.replaced(index, x)).wf(),
    {
        assert forall|x: T| (#[trigger] self.replaced(index, x)).wf() by {
            let q = self.replaced(index, x);
            assert forall|i: int| 0 <= i < q.slots.len() && (#[trigger] q.slots[i]) is None implies q.free.contains(i as usize) by {
                assert(self.slots[i] is None);
            }
        }
    }

    /// The active slot indices in increasing order, below `end`.
    pub open spec fn active_below(self, end: int) -> Seq<usize>
        decreases end,
    {
        if end <= 0 {
            seq![]
        } else if self.is_active(end - 1) {
            self.active_below(end - 1).push((end - 1) as usize)
        } else {
            self.active_below(end - 1)
        }
    }

    /// All active slot indices in increasing order.
    pub open spec fn active_indices(self) -> Seq<usize> {
        self.active_below(self.slots.len() as int)
    }
}

/// The results of allocating `values` one after another, starting from `pool`.
pub open spec fn allocation_results<T>(pool: PoolView<T>, values: Seq<T>) -> Seq<Option<usize>>
    decreases values.len(),
{
    if values.len() == 0 {
        seq![]
    } else {
        let (next, r) = pool.allocated(values[0]);
        seq![r] + allocation_results(next, values.drop_first())
    }
}

/// From a well-formed pool with `f` free slots, a run of allocations
/// succeeds exactly for its first `f` requests.
pub proof fn lemma_allocation_run<T>(pool: PoolView<T>, values: Seq<T>)
    requires
        pool.wf(),
    ensures
        allocation_results(pool, values).len() == values.len(),
        forall|i: int|
            0 <= i < values.len() ==> ((#[trigger] allocation_results(pool, values)[i]) is Some
                <==> i < pool.free.len()),
    decreases values.len(),
{
    if values.len() > 0 {
        let (next, r) = pool.allocated(values[0]);
        if pool.free.len() > 0 {
            pool.lemma_allocate_keeps_wf(values[0]);
        }
        lemma_allocation_run(next, values.drop_first());
        let rs = allocation_results(pool, values);
        assert forall|i: int|
            0 <= i < values.len() implies ((#[trigger] rs[i]) is Some <==> i < pool.free.len()) by {
            if i > 0 {
                assert(rs[i] == allocation_results(next, values.drop_first())[i - 1]);
            }
        }
    }
}

/// A new pool of capacity `n` grants `n` allocations in a row and refuses
/// the next one.
pub proof fn lemma_fresh_pool_capacity<T>(n: nat, values: Seq<T>)
    requires
        values.len() == n + 1,
        n <= usize::MAX,
    ensures
        forall|i: int| 0 <= i < n ==> (#[trigger] allocation_results(PoolView::<T>::fresh(n), values)[i]) is Some,
        allocation_results(PoolView::<T>::fresh(n), values)[n as int] is None,
{
    let p = PoolView::<T>::fresh(n);
    p.lemma_fresh_wf();
    lemma_allocation_run(p, values);
}

/// A slot that is given back is the next one handed out.
pub proof fn lemma_lifo_reuse<T>(pool: PoolView<T>, index: usize, value: T)
    requires
        pool.wf(),
        pool.is_active(index as int),
    ensures
        pool.deallocated(index).allocated(value).1 == Some(index),
{
}

/// Allocation fails exactly when every slot is in use.
pub proof fn lemma_allocate_fails_iff_full<T>(pool: PoolView<T>, value: T)
    requires
        pool.wf(),
    ensures
        pool.allocated(value).1 is None <==> (forall|i: int| 0 <= i < pool.capacity() ==> pool.is_active(i)),
{
    if pool.free.len() > 0 {
        assert(!pool.is_active(pool.free[0] as int));
    } else {
        assert forall|i: int| 0 <= i < pool.capacity() implies pool.is_active(i) by {
            if pool.slots[i] is None {
                assert(pool.free.contains(i as usize));
            }
        }
    }
}

/// A pool of `capacity` slots; `allocate` and `deallocate` take constant time.
pub struct ObjectPool<T> {
    objects: Vec<T>,
    active: Vec<bool>,
    free_list: Vec<usize>,
    capacity: usize,
}

impl<T> View for ObjectPool<T> {
    type V = PoolView<T>;

    closed spec fn view(&self) -> PoolView<T> {
        PoolView {
            slots: Seq::new(
                self.active@.len(),
                |i: int| if self.active@[i] { Some(self.objects@[i]) } else { None },
            ),
            free: self.free_list@,
        }
    }
}

impl<T: Clone> ObjectPool<T> {
    /// Internal consistency of the three vectors.
    pub closed spec fn wf(&self) -> bool {
        &&& self.objects@.len() == self.capacity
        &&& self.active@.len() == self.capacity
        &&& self@.wf()
    }

    /// A pool of `capacity` free slots; `default_value` fills the storage.
    pub fn new(capacity: usize, default_value: T) -> (r: Self)
        ensures
            r.wf(),
            r@ == PoolView::<T>::fresh(capacity as nat),
    {
        let objects: Vec<T> = vec![default_value; capacity];
        let active: Vec<bool> = vec![false; capacity];
        let mut free_list: Vec<usize> = Vec::new();
        let mut i: usize = 0;
        while i < capacity
            invariant
                i <= capacity,
                free_list@.len() == i,
                forall|k: int| 0 <= k < i ==> free_list@[k] == k,
            decreases capacity - i,
        {
            free_list.push(i);
            i = i + 1;
        }
        let r = ObjectPool { objects, active, free_list, capacity };
        proof {
            assert(r@ =~= PoolView::<T>::fresh(capacity as nat));
            r@.lemma_fresh_wf();
        }
        r
    }

    /// Stores `value` in the most recently freed slot and returns its index,
    /// or returns `None` and changes nothing when every slot is in use.
    pub fn allocate(&mut self, value: T) -> (r: Option<usize>)
        requires
            old(self).wf(),
        ensures
            final(self).wf(),
            (final(self)@, r) == old(self)@.allocated(value),
    {
        match self.free_list.pop() {
            Some(index) => {
                proof {
                    assert(old(self)@.free.last() == index);
                    assert(old(self)@.free[old(self)@.free.len() - 1] == index);
                }
                self.objects.set(index, value);
                self.active.set(index, true);
                proof {
                    assert(self@ =~= old(self)@.allocated(value).0);
                    old(self)@.lemma_allocate_keeps_wf(value);
                }
                Some(index)
            },
            None => None,
        }
    }

    /// Frees slot `index`; a no-op when the slot is free or out of range.
    pub fn deallocate(&mut self, index: usize)
        requires
            old(self).wf(),
        ensures
            final(self).wf(),
            final(self)@ == old(self)@.deallocated(index),
    {
        if index < self.capacity && self.active[index] {
            self.active.set(index, false);
            self.free_list.push(index);
            proof {
                assert(self@ =~= old(self)@.deallocated(index));
                old(self)@.lemma_deallocate_keeps_wf(index);
            }
        }
    }

    /// The occupant of slot `index`, absent for a free or out-of-range slot.
    pub fn get(&self, index: usize) -> (r: Option<&T>)
        requires
            self.wf(),
        ensures
            match r {
                Some(x) => self@.is_active(index as int) && self@.slots[index as int] == Some(*x),
                None => !self@.is_active(index as int),
            },
    {
        if index < self.capacity && self.active[index] {
            Some(&self.objects[index])
        } else {
            None
        }
    }

    /// Mutable access to the occupant of slot `index`, absent for a free or
    /// out-of-range slot.
    pub fn get_mut(&mut self, index: usize) -> (r: Option<&mut T>)
        requires
            old(self).wf(),
        ensures
            match r {
                Some(x) => {
                    &&& old(self)@.is_active(index as int)
                    &&& old(self)@.slots[index as int] == Some(*x)
                    &&& final(self)@ =~= old(self)@.replaced(index as int, *final(x))
                    &&& final(self).wf()
                },
                None => {
                    &&& !old(self)@.is_active(index as int)
                    &&& final(self)@ == old(self)@
                    &&& final(self).wf()
                },
            },
    {
        if index < self.capacity && self.active[index] {
            proof {
                self@.lemma_replace_keeps_wf(index as int);
            }
            let x = &mut self.objects[index];
            Some(x)
        } else {
            None
        }
    }

    /// The active slots in increasing index order, each with its occupant.
    pub fn iter_active(&self) -> (r: Vec<(usize, &T)>)
        requires
            self.wf(),
        ensures
            r@.len() == self@.active_indices().len(),
            forall|k: int|
                0 <= k < r@.len() ==> {
                    &&& (#[trigger] r@[k]).0 == self@.active_indices()[k]
                    &&& self@.slots[r@[k].0 as int] == Some(*r@[k].1)
                },
    {
        let mut out: Vec<(usize, &T)> = Vec::new();
        let mut i: usize = 0;
        while i < self.capacity
            invariant
                self.wf(),
                i <= self.capacity,
                out@.len() == self@.active_below(i as int).len(),
                forall|k: int|
                    0 <= k < out@.len() ==> {
                        &&& (#[trigger] out@[k]).0 == self@.active_below(i as int)[k]
                        &&& self@.slots[out@[k].0 as int] == Some(*out@[k].1)
                    },
            decreases self.capacity - i,
        {
            if self.active[i] {
                out.push((i, &self.objects[i]));
            }
            i = i + 1;
        }
        out
    }

    /// The active slots in increasing index order, each with a mutable
    /// reference to its occupant; what is written through the references
    /// becomes the new occupant of the slot.
    pub fn iter_active_mut(&mut self) -> (r: Vec<(usize, &mut T)>)
        requires
            old(self).wf(),
        ensures
            r@.len() == old(self)@.active_indices().len(),
            forall|k: int|
                0 <= k < r@.len() ==> {
                    &&& (#[trigger] r@[k]).0 == old(self)@.active_indices()[k]
                    &&& old(self)@.slots[r@[k].0 as int] == Some(*r@[k].1)
                },
            forall|k: int|
                0 <= k < r@.len() ==> final(self)@.slots[(#[trigger] r@[k]).0 as int] == Some(*final(r@[k].1)),
            final(self).wf(),
            final(self)@.free == old(self)@.free,
            final(self)@.slots.len() == old(self)@.slots.len(),
            forall|i: int|
                0 <= i < old(self)@.slots.len() ==> (#[trigger] final(self)@.slots[i] is Some
                    <==> old(self)@.is_active(i)),
    {
        let ghost old_view = self@;
        let ghost old_objects = self.objects@;
        let cap = self.capacity;
        let active = &self.active;
        let whole: &mut [T] = self.objects.as_mut_slice();
        // The objects as they will be once every handed-out reference is done.
        let ghost fin: Seq<T> = final(whole)@;
        let mut rest: &mut [T] = whole;
        let mut out: Vec<(usize, &mut T)> = Vec::new();
        let mut i: usize = 0;
        while i < cap
            invariant
                i <= cap,
                cap == old_objects.len(),
                cap == old_view.slots.len(),
                active@.len() == cap,
                forall|j: int| 0 <= j < cap ==> (old_view.slots[j] is Some <==> #[trigger] active@[j]),
                forall|j: int| 0 <= j < cap && active@[j] ==> old_view.slots[j] == Some(#[trigger] old_objects[j]),
                rest@ == old_objects.subrange(i as int, cap as int),
                fin.len() == i + final(rest)@.len(),
                forall|j: int| 0 <= j < final(rest)@.len() ==> fin[i + j] == #[trigger] final(rest)@[j],
                out@.len() == old_view.active_below(i as int).len(),
                forall|k: int|
                    0 <= k < out@.len() ==> {
                        &&& (#[trigger] out@[k]).0 == old_view.active_below(i as int)[k]
                        &&& out@[k].0 < i
                        &&& old_view.is_active(out@[k].0 as int)
                        &&& *out@[k].1 == old_objects[out@[k].0 as int]
                        &&& fin[out@[k].0 as int] == *final(out@[k].1)
                    },
            decreases cap - i,
        {
            let cur = rest;
            let (head, tail) = { cur }.split_at_mut(1);
            let first = { head }.first_mut().unwrap();
            proof {
                assert(final(head)@ =~= seq![*final(first)]);
                assert(fin[i + 0] == final(cur)@[0]);
                assert forall|j: int| 0 <= j < final(tail)@.len() implies fin[i + 1 + j]
                    == #[trigger] final(tail)@[j] by {
                    assert(final(cur)@[1 + j] == final(tail)@[j]);
                }
                assert(old_view.is_active(i as int) == active@[i as int]);
            }
            if active[i] {
                out.push((i, first));
            }
            rest = tail;
            i = i + 1;
        }
        // `rest` is empty now; asking it for an element pins its final value
        // to the empty sequence, and so the length of `fin` to `cap`.
        let _ = rest.first_mut();
        out
    }
}

} // verus!
