use crate::capacity::fits;
use vstd::prelude::*;

verus! {

/// A fixed-capacity container: it owns one value of type `V` and keeps it in
/// its own storage, never on the heap. It can only be built from a value whose
/// type takes at most `SIZE` bytes.
pub struct Fist<V, const SIZE: usize> {
    value: V,
}

impl<V, const SIZE: usize> View for Fist<V, SIZE> {
    type V = V;

    /// The value the container holds.
    closed spec fn view(&self) -> V {
        self.value
    }
}

impl<V, const SIZE: usize> Fist<V, SIZE> {
    /// The container that holds `v`.
    pub closed spec fn holding(v: V) -> Self {
        Fist { value: v }
    }

    /// A fixed-capacity container is well formed when its value's type fits
    /// its capacity.
    pub open spec fn wf(&self) -> bool {
        fits::<V>(SIZE as nat)
    }

    /// Moves `v` into a new container. A value whose type is larger than the
    /// capacity is a misuse of the type and is ruled out by the precondition.
    pub fn new(v: V) -> (r: Self)
        requires
            fits::<V>(SIZE as nat),
        ensures
            r == Self::holding(v),
            r@ == v,
            r.wf(),
    {
        Fist { value: v }
    }

    /// Shared access to the stored value.
    pub fn access(&self) -> (r: &V)
        ensures
            *r == self@,
    {
        &self.value
    }

    /// Exclusive access to the stored value; what is written through the
    /// reference is what the container holds afterwards.
    pub fn access_mut(&mut self) -> (r: &mut V)
        ensures
            *r == old(self)@,
            final(self)@ == *final(r),
    {
        &mut self.value
    }
}

/// A fixed-capacity container built from a value hands back that very value:
/// any operation applied through the container sees what it would see on the
/// value itself.
pub proof fn lemma_fist_access_yields_value<V, const SIZE: usize>(v: V)
    requires
        fits::<V>(SIZE as nat),
    ensures
        Fist::<V, SIZE>::holding(v)@ == v,
{
}

impl<V, const SIZE: usize> core::ops::Deref for Fist<V, SIZE> {
    type Target = V;

    fn deref(&self) -> (r: &V)
        ensures
            *r == self@,
    {
        self.access()
    }
}

impl<V, const SIZE: usize> core::ops::DerefMut for Fist<V, SIZE> {
    fn deref_mut(&mut self) -> (r: &mut V)
        ensures
            *r == old(self)@,
            final(self)@ == *final(r),
    {
        self.access_mut()
    }
}

} // verus!
