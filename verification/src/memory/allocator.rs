//! Lists the memory manager keeps before and after the heap is available:
//! a list bounded by a fixed capacity, held inline without heap memory, or
//! a growable one.
use vstd::prelude::*;

verus! {

/// An empty slot, for filling a fresh array of slots.
fn vacant<T>(_i: usize) -> (r: Option<T>)
    ensures
        r is None,
{
    None
}

/// An array of `N` empty slots, made by `core::array::from_fn`, which calls
/// `vacant` for each position.
#[verifier::external_body]
fn vacant_slots<T, const N: usize>() -> (r: [Option<T>; N])
    ensures
        forall|i: int| 0 <= i < N ==> r@[i] is None,
{
    core::array::from_fn(vacant)
}

/// A list of at most `MAX` items held inline: the first `len` slots hold
/// the items in order, the others are empty.
#[derive(Clone)]
pub struct BoundedList<T, const MAX: usize> {
    slots: [Option<T>; MAX],
    len: usize,
}

impl<T, const MAX: usize> BoundedList<T, MAX> {
    /// The items, in order.
    pub closed spec fn view(&self) -> Seq<T> {
        Seq::new(self.len as nat, |i: int| self.slots@[i].unwrap())
    }

    /// Exactly the first `len` slots, no more than `MAX`, hold an item.
    pub closed spec fn wf(&self) -> bool {
        &&& self.len <= MAX
        &&& forall|i: int| 0 <= i < MAX ==> (#[trigger] self.slots@[i] is Some <==> i < self.len)
    }

    /// An empty list.
    pub fn new() -> (r: Self)
        ensures
            r.wf(),
            r@ == Seq::<T>::empty(),
    {
        let r = BoundedList { slots: vacant_slots(), len: 0 };
        assert(r@ =~= Seq::<T>::empty());
        r
    }

    /// The number of items.
    pub fn len(&self) -> (r: usize)
        requires
            self.wf(),
        ensures
            r == self@.len(),
    {
        self.len
    }

    /// Appends `item`; there must be room for it.
    pub fn push(&mut self, item: T)
        requires
            old(self).wf(),
            old(self)@.len() < MAX,
        ensures
            final(self).wf(),
            final(self)@ == old(self)@.push(item),
    {
        let ghost before = self@;
        let i = self.len;
        self.slots[i] = Some(item);
        self.len = i + 1;
        assert(self@ =~= before.push(item));
    }

    /// Removes and returns the item at `index`, shifting the later ones
    /// down; `index` must be in the list.
    pub fn remove(&mut self, index: usize) -> (r: T)
        requires
            old(self).wf(),
            index < old(self)@.len(),
        ensures
            final(self).wf(),
            r == old(self)@[index as int],
            final(self)@ == old(self)@.remove(index as int),
    {
        let ghost before = self.slots@;
        let ghost items = self@;
        let n = self.len;
        let mut out: Option<T> = None;
        core::mem::swap(&mut out, &mut self.slots[index]);
        let mut j = index;
        while j + 1 < n
            invariant
                index <= j < n,
                n == self.len,
                n <= MAX,
                out == before[index as int],
                before.len() == MAX,
                forall|k: int| 0 <= k < MAX ==> (#[trigger] before[k] is Some <==> k < n),
                self.slots@.len() == MAX,
                forall|k: int| 0 <= k < index ==> self.slots@[k] == before[k],
                forall|k: int| index <= k < j ==> self.slots@[k] == before[k + 1],
                self.slots@[j as int] is None,
                forall|k: int| j < k < MAX ==> self.slots@[k] == before[k],
            decreases n - j,
        {
            let mut moving: Option<T> = None;
            core::mem::swap(&mut moving, &mut self.slots[j + 1]);
            core::mem::swap(&mut moving, &mut self.slots[j]);
            j = j + 1;
        }
        self.len = n - 1;
        assert forall|k: int| 0 <= k < MAX implies (#[trigger] self.slots@[k] is Some <==> k < self.len) by {
            if k < index {
                assert(before[k] is Some);
            } else if k < j {
                assert(before[k + 1] is Some);
            } else if k > j {
                assert(before[k] is None);
            }
        }
        assert(self@ =~= items.remove(index as int));
        out.unwrap()
    }

    /// Moves the items, in order, into a growable list.
    pub fn into_vec(self) -> (r: Vec<T>)
        requires
            self.wf(),
        ensures
            r@ == self@,
    {
        let ghost items = self@;
        let n = self.len;
        let mut slots = self.slots;
        let mut out: Vec<T> = Vec::new();
        let mut i: usize = 0;
        while i < n
            invariant
                i <= n,
                n <= MAX,
                items.len() == n,
                slots@.len() == MAX,
                out@.len() == i,
                forall|k: int| 0 <= k < i ==> out@[k] == items[k],
                forall|k: int| i <= k < n ==> slots@[k] == Some(items[k]),
            decreases n - i,
        {
            let mut slot: Option<T> = None;
            core::mem::swap(&mut slot, &mut slots[i]);
            out.push(slot.unwrap());
            i = i + 1;
        }
        assert(out@ =~= items);
        out
    }
}

/// A list of items that is either bounded by the capacity `MAX` and held
/// inline (`StaticList`) or growable (`Vec`).
#[derive(Clone)]
pub enum Lists<T: Clone, const MAX: usize> {
    /// A list that holds at most `MAX` items.
    StaticList(BoundedList<T, MAX>),
    /// A growable list.
    Vec(Vec<T>),
}

impl<T: Clone, const MAX: usize> Lists<T, MAX> {
    /// The items of the list, in order.
    pub open spec fn items(&self) -> Seq<T> {
        match self {
            Lists::StaticList(l) => l@,
            Lists::Vec(v) => v@,
        }
    }

    /// Whether the list is the bounded kind.
    pub open spec fn is_static(&self) -> bool {
        self is StaticList
    }

    /// A bounded list holds no more than its capacity, in its first slots.
    pub open spec fn wf(&self) -> bool {
        match self {
            Lists::StaticList(l) => l.wf(),
            Lists::Vec(_) => true,
        }
    }

    /// An empty bounded list.
    pub fn new_static() -> (r: Self)
        ensures
            r.is_static(),
            r.items() == Seq::<T>::empty(),
            r.wf(),
    {
        Lists::StaticList(BoundedList::new())
    }

    /// An empty growable list.
    pub fn new_vec() -> (r: Self)
        ensures
            !r.is_static(),
            r.items() == Seq::<T>::empty(),
            r.wf(),
    {
        Lists::Vec(Vec::new())
    }

    /// Appends `item`. A bounded list must have room for it.
    pub fn push(&mut self, item: T)
        requires
            old(self).wf(),
            old(self).is_static() ==> old(self).items().len() < MAX,
        ensures
            final(self).is_static() == old(self).is_static(),
            final(self).items() == old(self).items().push(item),
            final(self).wf(),
    {
        match self {
            Lists::StaticList(a) => a.push(item),
            Lists::Vec(a) => a.push(item),
        }
    }

    /// Removes and returns the item at `index`, shifting the later ones
    /// down; `index` must be in the list.
    pub fn remove(&mut self, index: usize) -> (r: T)
        requires
            old(self).wf(),
            index < old(self).items().len(),
        ensures
            r == old(self).items()[index as int],
            final(self).is_static() == old(self).is_static(),
            final(self).items() == old(self).items().remove(index as int),
            final(self).wf(),
    {
        match self {
            Lists::StaticList(a) => a.remove(index),
            Lists::Vec(a) => a.remove(index),
        }
    }

    /// Turns a bounded list into a growable one with the same items; a
    /// growable list stays as it is.
    pub fn to_vec(&mut self)
        requires
            old(self).wf(),
        ensures
            !final(self).is_static(),
            final(self).items() == old(self).items(),
            final(self).wf(),
    {
        let mut taken: Lists<T, MAX> = Lists::Vec(Vec::new());
        core::mem::swap(&mut taken, self);
        match taken {
            Lists::StaticList(l) => {
                *self = Lists::Vec(l.into_vec());
            },
            Lists::Vec(v) => {
                *self = Lists::Vec(v);
            },
        }
    }
}

} // verus!
