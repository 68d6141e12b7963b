//! The growable constant pool backing a chunk.
use vstd::prelude::*;
use crate::values::value::Value;

verus! {

/// An append-only pool of [`Value`]s with explicit capacity bookkeeping.
///
/// The backing vector always holds exactly `capacity` slots; the first
/// `count` hold the written values and the rest are `Nil` filler. Capacity
/// grows by doubling, starting at 8, only when a write would pass it.
pub struct ValueArray {
    pub capacity: usize,
    pub count: usize,
    pub values: Vec<Value>,
}

impl ValueArray {
    /// The pool's well-formedness: the vector is the capacity, the written
    /// prefix is within it, and the filler beyond `count` is `Nil`.
    pub open spec fn wf(&self) -> bool {
        &&& self.values@.len() == self.capacity
        &&& self.count <= self.capacity
        &&& forall|i: int| self.count <= i < self.capacity ==> self.values@[i] is Nil
    }

    /// The written values, in insertion order.
    pub open spec fn contents(&self) -> Seq<Value> {
        self.values@.take(self.count as int)
    }

    /// An empty, zero-capacity pool.
    pub fn init() -> (r: ValueArray)
        ensures
            r.wf(),
            r.count == 0,
            r.capacity == 0,
            r.contents() == Seq::<Value>::empty(),
            r.values@ == Seq::<Value>::empty(),
    {
        let r = ValueArray { count: 0, capacity: 0, values: Vec::new() };
        proof {
            assert(r.contents() =~= Seq::<Value>::empty());
        }
        r
    }

    /// A pool holding exactly the given values.
    pub fn build(values: Vec<Value>) -> (r: ValueArray)
        ensures
            r.wf(),
            r.count == values@.len(),
            r.capacity == values@.len(),
            r.contents() == values@,
            r.values@ == values@,
    {
        let n = values.len();
        let r = ValueArray { capacity: n, count: n, values };
        proof {
            assert(r.contents() =~= r.values@);
        }
        r
    }

    /// Appends one value, growing the backing vector by doubling when the
    /// capacity is reached.
    pub fn write(&mut self, value: Value)
        requires
            old(self).wf(),
            old(self).count < usize::MAX / 2,
        ensures
            final(self).wf(),
            final(self).count == old(self).count + 1,
            final(self).contents() == old(self).contents().push(value),
            final(self).capacity as int == (if old(self).count + 1 <= old(self).capacity {
                old(self).capacity as int
            } else {
                grow_capacity(old(self).capacity as int)
            }),
    {
        if self.capacity < self.count + 1 {
            let old_capacity = self.capacity;
            self.capacity = grow_capacity_x(old_capacity);
            while self.values.len() < self.capacity
                invariant
                    old(self).values@.len() <= self.values@.len() <= self.capacity,
                    self.values@.subrange(0, old(self).values@.len() as int) == old(self).values@,
                    forall|i: int|
                        old(self).values@.len() <= i < self.values@.len()
                            ==> self.values@[i] is Nil,
                    self.capacity == grow_capacity(old(self).capacity as int),
                    self.count == old(self).count,
                decreases self.capacity - self.values.len(),
            {
                self.values.push(Value::Nil);
            }
        }
        let i = self.count;
        self.values[i] = value;
        self.count = self.count + 1;
        proof {
            assert(final(self).contents() =~= old(self).contents().push(value));
        }
    }

    /// Empties the pool and releases its storage.
    pub fn free(&mut self)
        ensures
            final(self).wf(),
            final(self).count == 0,
            final(self).capacity == 0,
            final(self).contents() == Seq::<Value>::empty(),
    {
        self.count = 0;
        self.capacity = 0;
        self.values = Vec::new();
        proof {
            assert(final(self).contents() =~= Seq::<Value>::empty());
        }
    }
}

/// The capacity-doubling rule: at least 8, else twice the old capacity.
pub open spec fn grow_capacity(capacity: int) -> int {
    if capacity < 8 {
        8
    } else {
        capacity * 2
    }
}

fn grow_capacity_x(capacity: usize) -> (r: usize)
    requires
        capacity < usize::MAX / 2,
    ensures
        r == grow_capacity(capacity as int),
        r > capacity,
{
    if capacity < 8 {
        8
    } else {
        capacity * 2
    }
}

} // verus!
