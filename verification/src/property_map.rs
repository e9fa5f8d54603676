//! Per-component attribute storage.
//!
//! Meshes and polygons can carry named per-vertex or per-face property
//! collections. The property kinds form a small closed set, so the store
//! is a tagged registry: each kind maps to one known typed container.
//! The kernel registers one container kind, the normal map; adding or
//! fetching a kind without a registered container fails, it never panics,
//! and adding a kind twice reports failure rather than replacing data.

use vstd::prelude::*;

use crate::common_properties::NormalMap;

verus! {

/// A kind of per-component property.
#[allow(non_camel_case_types)]
#[derive(Clone, Copy, PartialEq, Eq, Structural, Hash, Debug)]
pub enum PropertyType {
    NORMAL,
    COLOR,
}

/// A registry of per-component property collections, keyed by property
/// kind. `T` is the element type stored for each component.
pub struct PropertyStore<T> {
    normal: Option<NormalMap<T>>,
}

impl<T> PropertyStore<T> {
    /// Whether a collection for the given kind has been added.
    pub closed spec fn has(&self, property_type: PropertyType) -> bool {
        match property_type {
            PropertyType::NORMAL => self.normal is Some,
            PropertyType::COLOR => false,
        }
    }

    /// The slots of the stored collection for the given kind.
    pub closed spec fn map_view(&self, property_type: PropertyType) -> Seq<Option<T>> {
        self.normal->Some_0@
    }

    /// Builds an empty store.
    pub fn new() -> (r: Self)
        ensures
            forall|pt: PropertyType| !(#[trigger] r.has(pt)),
    {
        PropertyStore { normal: None }
    }

    /// Adds a fresh, empty collection for the given kind. Reports `false`
    /// without changing anything when a collection of that kind is
    /// already present, and when no container is registered for the kind.
    pub fn add_property_map(&mut self, property_type: PropertyType) -> (added: bool)
        ensures
            added == (property_type == PropertyType::NORMAL && !old(self).has(
                PropertyType::NORMAL,
            )),
            added ==> final(self).has(property_type) && final(self).map_view(property_type)
                == Seq::<Option<T>>::empty(),
            !added ==> *final(self) == *old(self),
            forall|pt: PropertyType|
                pt != property_type ==> #[trigger] final(self).has(pt) == old(self).has(pt),
    {
        match property_type {
            PropertyType::NORMAL => {
                if self.normal.is_some() {
                    false
                } else {
                    self.normal = Some(NormalMap::new());
                    true
                }
            },
            PropertyType::COLOR => false,
        }
    }

    /// The collection stored for the given kind, or `None` when the kind
    /// was never added (or has no registered container).
    pub fn get_property_map(&mut self, property_type: PropertyType) -> (r: Option<
        &mut NormalMap<T>,
    >)
        ensures
            match r {
                Some(m) => {
                    &&& old(self).has(property_type)
                    &&& property_type == PropertyType::NORMAL
                    &&& m@ == old(self).map_view(property_type)
                    &&& final(self).has(property_type)
                    &&& final(self).map_view(property_type) == final(m)@
                    &&& forall|pt: PropertyType|
                        pt != property_type ==> #[trigger] final(self).has(pt) == old(self).has(pt)
                },
                None => *final(self) == *old(self) && !old(self).has(property_type),
            },
    {
        match property_type {
            PropertyType::NORMAL => {
                match &mut self.normal {
                    Some(m) => Some(m),
                    None => None,
                }
            },
            PropertyType::COLOR => None,
        }
    }
}

} // verus!
