//! The type context: what is known of the items of the program.

use crate::list::List;
use crate::ty::{DefId, ItemVariances, NodeId, Span, TraitRef};
use vstd::prelude::*;

verus! {

/// The declared variances of one item.
#[derive(Debug, PartialEq, Eq)]
pub struct ItemVarianceEntry {
    pub def_id: DefId,
    pub variances: ItemVariances,
}

/// How many parameters an impl or a trait declares for itself.
#[derive(Clone, Copy, Debug, PartialEq, Eq, Structural)]
pub struct Generics {
    pub types: u32,
    pub regions: u32,
}

/// An impl.
#[derive(Debug, PartialEq, Eq)]
pub struct ImplDef {
    pub def_id: DefId,
    pub generics: Generics,
    /// The trait that the impl implements, in terms of the parameters of the
    /// impl; none for an inherent impl.
    pub trait_ref: Option<TraitRef>,
}

/// A trait.
#[derive(Clone, Copy, Debug, PartialEq, Eq, Structural)]
pub struct TraitDef {
    pub def_id: DefId,
    pub generics: Generics,
}

/// Where an expression of this crate stands in the source.
#[derive(Clone, Copy, Debug, PartialEq, Eq, Structural)]
pub struct ExprSpan {
    pub id: NodeId,
    pub span: Span,
}

/// The type context.
#[derive(Debug, PartialEq, Eq)]
pub struct Ctxt {
    /// Whether the variances of the items have been computed. Until they
    /// are, every parameter counts as invariant.
    pub variance_computed: bool,
    pub item_variances: List<ItemVarianceEntry>,
    pub impls: List<ImplDef>,
    pub traits: List<TraitDef>,
    /// The trait of destructors, if the program declares one.
    pub drop_trait: Option<DefId>,
    /// The methods that are destructors.
    pub destructors: List<DefId>,
    /// Where the expressions of this crate stand in the source.
    pub expr_spans: List<ExprSpan>,
}

/// The span of the first entry for the expression `id`, if there is one.
pub open spec fn find_span(l: List<ExprSpan>, id: NodeId) -> Option<Span>
    decreases l,
{
    match l {
        List::Nil => None,
        List::Cons(entry, rest) => if entry.id == id {
            Some(entry.span)
        } else {
            find_span(*rest, id)
        },
    }
}

/// The variances of the first entry for `id`, if there is one.
pub open spec fn find_variances(l: List<ItemVarianceEntry>, id: DefId) -> Option<ItemVariances>
    decreases l,
{
    match l {
        List::Nil => None,
        List::Cons(entry, rest) => if entry.def_id == id {
            Some(entry.variances)
        } else {
            find_variances(*rest, id)
        },
    }
}

/// The first impl with the id `id`, if there is one.
pub open spec fn find_impl(l: List<ImplDef>, id: DefId) -> Option<ImplDef>
    decreases l,
{
    match l {
        List::Nil => None,
        List::Cons(entry, rest) => if entry.def_id == id {
            Some(*entry)
        } else {
            find_impl(*rest, id)
        },
    }
}

/// The first trait with the id `id`, if there is one.
pub open spec fn find_trait(l: List<TraitDef>, id: DefId) -> Option<TraitDef>
    decreases l,
{
    match l {
        List::Nil => None,
        List::Cons(entry, rest) => if entry.def_id == id {
            Some(*entry)
        } else {
            find_trait(*rest, id)
        },
    }
}

/// Whether `id` is in the list.
pub open spec fn has_def_id(l: List<DefId>, id: DefId) -> bool
    decreases l,
{
    match l {
        List::Nil => false,
        List::Cons(first, rest) => *first == id || has_def_id(*rest, id),
    }
}

fn lookup_variances(l: &List<ItemVarianceEntry>, id: DefId) -> (r: Option<&ItemVariances>)
    ensures
        r == match find_variances(*l, id) {
            Some(v) => Some(&v),
            None => None,
        },
    decreases l,
{
    match l {
        List::Nil => None,
        List::Cons(entry, rest) => if entry.def_id == id {
            Some(&entry.variances)
        } else {
            lookup_variances(rest, id)
        },
    }
}

fn lookup_impl(l: &List<ImplDef>, id: DefId) -> (r: Option<&ImplDef>)
    ensures
        r == match find_impl(*l, id) {
            Some(v) => Some(&v),
            None => None,
        },
    decreases l,
{
    match l {
        List::Nil => None,
        List::Cons(entry, rest) => if entry.def_id == id {
            Some(&**entry)
        } else {
            lookup_impl(rest, id)
        },
    }
}

fn lookup_trait(l: &List<TraitDef>, id: DefId) -> (r: Option<TraitDef>)
    ensures
        r == find_trait(*l, id),
    decreases l,
{
    match l {
        List::Nil => None,
        List::Cons(entry, rest) => if entry.def_id == id {
            Some(**entry)
        } else {
            lookup_trait(rest, id)
        },
    }
}

fn contains_def_id(l: &List<DefId>, id: DefId) -> (r: bool)
    ensures
        r == has_def_id(*l, id),
    decreases l,
{
    match l {
        List::Nil => false,
        List::Cons(first, rest) => **first == id || contains_def_id(rest, id),
    }
}

fn lookup_span(l: &List<ExprSpan>, id: NodeId) -> (r: Option<Span>)
    ensures
        r == find_span(*l, id),
    decreases l,
{
    match l {
        List::Nil => None,
        List::Cons(entry, rest) => if entry.id == id {
            Some(entry.span)
        } else {
            lookup_span(rest, id)
        },
    }
}

impl Ctxt {
    /// The variances to use for the parameters of `id`: those declared for
    /// it, once variances have been computed and if it has any.
    pub open spec fn known_variances(self, id: DefId) -> Option<ItemVariances> {
        if self.variance_computed {
            find_variances(self.item_variances, id)
        } else {
            None
        }
    }

    /// A context in which nothing is known.
    pub fn new() -> (r: Self)
        ensures
            r == (Ctxt {
                variance_computed: false,
                item_variances: List::Nil,
                impls: List::Nil,
                traits: List::Nil,
                drop_trait: None,
                destructors: List::Nil,
                expr_spans: List::Nil,
            }),
    {
        Ctxt {
            variance_computed: false,
            item_variances: List::Nil,
            impls: List::Nil,
            traits: List::Nil,
            drop_trait: None,
            destructors: List::Nil,
            expr_spans: List::Nil,
        }
    }

    /// Where the expression `id` of this crate stands in the source, if the
    /// context knows it.
    pub fn expr_span(&self, id: NodeId) -> (r: Option<Span>)
        ensures
            r == find_span(self.expr_spans, id),
    {
        lookup_span(&self.expr_spans, id)
    }

    /// The variances to use for the parameters of `id`, if any are known.
    pub fn item_variances(&self, id: DefId) -> (r: Option<&ItemVariances>)
        ensures
            r == match self.known_variances(id) {
                Some(v) => Some(&v),
                None => None,
            },
    {
        if self.variance_computed {
            lookup_variances(&self.item_variances, id)
        } else {
            None
        }
    }

    /// The impl with the id `id`, if the context knows it.
    pub fn lookup_impl(&self, id: DefId) -> (r: Option<&ImplDef>)
        ensures
            r == match find_impl(self.impls, id) {
                Some(v) => Some(&v),
                None => None,
            },
    {
        lookup_impl(&self.impls, id)
    }

    /// The trait with the id `id`, if the context knows it.
    pub fn lookup_trait_def(&self, id: DefId) -> (r: Option<TraitDef>)
        ensures
            r == find_trait(self.traits, id),
    {
        lookup_trait(&self.traits, id)
    }

    /// Whether the method `id` is a destructor.
    pub fn is_destructor(&self, id: DefId) -> (r: bool)
        ensures
            r == has_def_id(self.destructors, id),
    {
        contains_def_id(&self.destructors, id)
    }
}

} // verus!
