//! What probing hands to confirmation: the candidate that it picked for a
//! method call.

use crate::list::List;
use crate::tables::Predicate;
use crate::ty::{BareFnTy, DefId, Mutability, PolyTraitRef, Ty};
use vstd::prelude::*;

verus! {

/// Where a method is declared.
#[derive(Clone, Copy, Debug, PartialEq, Eq, Structural)]
pub enum Container {
    Trait(DefId),
    Impl(DefId),
}

/// A method as it is declared.
#[derive(Debug, PartialEq, Eq)]
pub struct Method {
    pub def_id: DefId,
    pub container: Container,
    /// The number of type parameters of the method itself.
    pub type_params: u32,
    /// The number of region parameters of the method itself that are
    /// substituted (the others are bound in its signature).
    pub region_params: u32,
    /// The bounds on the parameters of the method and of its container.
    pub predicates: List<Predicate>,
    /// The type of the method as a function. Its first input is the
    /// receiver.
    pub fty: BareFnTy,
}

/// The kind of candidate, with what confirmation needs to build the
/// substitution of the receiver.
#[derive(Debug, PartialEq, Eq)]
pub enum PickKind {
    /// A method of an inherent impl.
    InherentImpl(DefId),
    /// A method of a trait object: the trait, the number of the method in
    /// it, and its slot in the table of the object.
    Object(DefId, usize, usize),
    /// A method of a trait, provided by this impl; with the number of the
    /// method.
    ExtensionImpl(DefId, usize),
    /// A method of a trait that is in scope.
    Trait(DefId, usize),
    /// A method of a trait that a where clause says the receiver implements.
    WhereClause(PolyTraitRef, usize),
}

/// The candidate that probing picked.
#[derive(Debug, PartialEq, Eq)]
pub struct Pick {
    pub item: Method,
    pub kind: PickKind,
    /// How often the receiver is dereferenced implicitly.
    pub autoderefs: u32,
    /// The reference then taken of it, if any.
    pub autoref: Option<Mutability>,
    /// The type to which the receiver is then converted, if it is converted
    /// to an unsized type. Only a referenced receiver is.
    pub unsize: Option<Ty>,
}

} // verus!
