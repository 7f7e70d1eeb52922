use crate::capacity::fits;
use crate::fist::{lemma_fist_access_yields_value, Fist};
use vstd::prelude::*;

verus! {

/// Where a hybrid container keeps its value.
enum Storage<V, const SIZE: usize> {
    /// In the container's own fixed-capacity storage.
    Inline(Fist<V, SIZE>),
    /// In a heap allocation that the container owns.
    Heap(Box<V>),
}

/// A hybrid container: it keeps its value inline when the value's type takes
/// at most `SIZE` bytes, and in a heap allocation otherwise. The choice is
/// made once, when the container is built.
pub struct DynFist<V, const SIZE: usize>(Storage<V, SIZE>);

impl<V, const SIZE: usize> View for DynFist<V, SIZE> {
    type V = V;

    /// The value the container holds, wherever it is stored.
    closed spec fn view(&self) -> V {
        match self.0 {
            Storage::Inline(f) => f@,
            Storage::Heap(b) => *b,
        }
    }
}

impl<V, const SIZE: usize> DynFist<V, SIZE> {
    /// Whether the value is kept in the container's own storage.
    pub closed spec fn is_inline(&self) -> bool {
        self.0 is Inline
    }

    /// The container that holds `v`, in the storage its type calls for.
    pub closed spec fn holding(v: V) -> Self {
        if fits::<V>(SIZE as nat) {
            DynFist(Storage::Inline(Fist::holding(v)))
        } else {
            DynFist(Storage::Heap(Box::new(v)))
        }
    }

    /// A hybrid container is well formed when its value is inline exactly
    /// when the value's type fits the capacity.
    pub open spec fn wf(&self) -> bool {
        self.is_inline() == fits::<V>(SIZE as nat)
    }

    /// Moves `v` into a new container: inline when its type fits the
    /// capacity, on the heap otherwise. This never fails.
    pub fn new(v: V) -> (r: Self)
        ensures
            r == Self::holding(v),
            r@ == v,
            r.wf(),
    {
        if core::mem::size_of::<V>() <= SIZE {
            DynFist(Storage::Inline(Fist::new(v)))
        } else {
            DynFist(Storage::Heap(Box::new(v)))
        }
    }

    /// Returns `true` if the value is kept in the container's own storage.
    pub fn on_stack(&self) -> (r: bool)
        ensures
            r == self.is_inline(),
    {
        matches!(self.0, Storage::Inline(_))
    }

    /// Returns `true` if the value is kept in a heap allocation.
    pub fn on_heap(&self) -> (r: bool)
        ensures
            r == !self.is_inline(),
    {
        matches!(self.0, Storage::Heap(_))
    }

    /// Shared access to the stored value, from whichever storage holds it.
    pub fn access(&self) -> (r: &V)
        ensures
            *r == self@,
    {
        match &self.0 {
            Storage::Inline(f) => f.access(),
            Storage::Heap(b) => b,
        }
    }

    /// Exclusive access to the stored value; the storage stays where it was,
    /// and what is written through the reference is what the container holds
    /// afterwards.
    pub fn access_mut(&mut self) -> (r: &mut V)
        ensures
            *r == old(self)@,
            final(self)@ == *final(r),
            final(self).is_inline() == old(self).is_inline(),
    {
        match &mut self.0 {
            Storage::Inline(f) => f.access_mut(),
            Storage::Heap(b) => &mut **b,
        }
    }
}

/// A hybrid container built from a value hands back that very value, whether
/// it keeps it inline or on the heap.
pub proof fn lemma_dyn_fist_access_yields_value<V, const SIZE: usize>(v: V)
    ensures
        DynFist::<V, SIZE>::holding(v)@ == v,
{
    if fits::<V>(SIZE as nat) {
        lemma_fist_access_yields_value::<V, SIZE>(v);
    }
}

/// A hybrid container built from a value whose type is larger than the
/// capacity keeps it on the heap, never inline.
pub proof fn lemma_oversized_value_goes_to_heap<V, const SIZE: usize>(v: V)
    requires
        !fits::<V>(SIZE as nat),
    ensures
        !DynFist::<V, SIZE>::holding(v).is_inline(),
{
}

/// A hybrid container built from a value whose type fits the capacity keeps
/// it inline.
pub proof fn lemma_fitting_value_stays_inline<V, const SIZE: usize>(v: V)
    requires
        fits::<V>(SIZE as nat),
    ensures
        DynFist::<V, SIZE>::holding(v).is_inline(),
{
}

impl<V, const SIZE: usize> core::ops::Deref for DynFist<V, SIZE> {
    type Target = V;

    fn deref(&self) -> (r: &V)
        ensures
            *r == self@,
    {
        self.access()
    }
}

impl<V, const SIZE: usize> core::ops::DerefMut for DynFist<V, SIZE> {
    fn deref_mut(&mut self) -> (r: &mut V)
        ensures
            *r == old(self)@,
            final(self)@ == *final(r),
            final(self).is_inline() == old(self).is_inline(),
    {
        self.access_mut()
    }
}

} // verus!
