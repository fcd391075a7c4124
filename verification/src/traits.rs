//! The public traits that derived code implements.

use vstd::prelude::*;

use std::collections::HashMap;

verus! {

/// A type with one distinguished identity field.
pub trait Id {
    type Id: Clone;

    fn id(&self) -> Self::Id;
}

/// A sum type that splits into its flattened positional container: one
/// optional component per field across all variants, of which exactly the
/// active variant's are populated.
pub trait Split: Sized {
    type Components: From<Self>;

    fn split(self) -> Self::Components;
}

/// A record carrying a sum-typed field, updated against a map of existing
/// records keyed by identity.
pub trait WithVariantUpdate: Id + Sized where Self::Id: std::hash::Hash {
    type Variant: Split;

    type Split;

    fn split(self, existing: &HashMap<Self::Id, Self>) -> Self::Split;
}

} // verus!
