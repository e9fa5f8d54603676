//! Common per-component property containers.
//!
//! A [`NormalMap`] is a dense, index-aligned table of optional per-vertex
//! values, one slot per mesh vertex: `Some` for a vertex whose normal has
//! been computed (or substituted), `None` for a vertex with no normal
//! defined. It is a derived, disposable artifact, rebuilt per
//! normal-computation pass.

use vstd::prelude::*;

use crate::property_map::PropertyType;

verus! {

/// A dense, index-aligned table of optional per-vertex values. The view
/// is the sequence of slots.
pub struct NormalMap<T> {
    data: Vec<Option<T>>,
}

impl<T> View for NormalMap<T> {
    type V = Seq<Option<T>>;

    closed spec fn view(&self) -> Seq<Option<T>> {
        self.data@
    }
}

impl<T> NormalMap<T> {
    /// Builds an empty map.
    pub fn new() -> (r: Self)
        ensures
            r@ == Seq::<Option<T>>::empty(),
    {
        NormalMap { data: Vec::new() }
    }

    /// Builds an empty map with room for `capacity` entries.
    pub fn with_capacity(capacity: usize) -> (r: Self)
        ensures
            r@ == Seq::<Option<T>>::empty(),
    {
        NormalMap { data: Vec::with_capacity(capacity) }
    }

    /// Builds a map of `size` slots, each holding no value yet.
    pub fn with_size(size: usize) -> (r: Self)
        ensures
            r@.len() == size,
            forall|i: int| 0 <= i < size ==> r@[i] is None,
    {
        let mut data: Vec<Option<T>> = Vec::new();
        let mut i: usize = 0;
        while i < size
            invariant
                0 <= i <= size,
                data@.len() == i,
                forall|j: int| 0 <= j < i ==> data@[j] is None,
            decreases size - i,
        {
            data.push(None);
            i = i + 1;
        }
        NormalMap { data }
    }

    /// The number of slots.
    pub fn len(&self) -> (r: usize)
        ensures
            r == self@.len(),
    {
        self.data.len()
    }

    /// Appends one filled slot.
    pub fn push(&mut self, value: T)
        ensures
            final(self)@ == old(self)@.push(Some(value)),
    {
        self.data.push(Some(value));
    }

    /// Fills slot `idx` with `value`.
    pub fn set(&mut self, idx: usize, value: T)
        requires
            idx < old(self)@.len(),
        ensures
            final(self)@ == old(self)@.update(idx as int, Some(value)),
    {
        let slot = &mut self.data[idx];
        *slot = Some(value);
    }

    /// The value of slot `idx`, if one was stored.
    pub fn get(&self, idx: usize) -> (r: Option<&T>)
        requires
            idx < self@.len(),
        ensures
            match r {
                Some(v) => self@[idx as int] is Some && *v == self@[idx as int]->Some_0,
                None => self@[idx as int] is None,
            },
    {
        self.data[idx].as_ref()
    }

    /// The property kind this container stores.
    pub fn property_type() -> (r: PropertyType)
        ensures
            r == PropertyType::NORMAL,
    {
        PropertyType::NORMAL
    }
}

} // verus!
