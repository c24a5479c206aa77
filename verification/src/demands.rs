//! What a term is made of: predicates that hold of a term if they hold of
//! each of its parts.

use crate::list::List;
use crate::ty::{
    ExistentialBounds, FnOutput, FnSig, PolyProjectionPredicate, ProjectionPredicate, Region,
    RegionSubsts, Substs, TraitRef, Ty,
};
use vstd::prelude::*;

verus! {

/// What is asked of every part of a term.
pub struct Demands {
    /// No placeholder, of a type or of a region.
    pub no_placeholders: bool,
    /// No error type.
    pub no_errors: bool,
    /// No substitution whose regions are erased.
    pub no_erased: bool,
    /// No trait object whose region bound is a default that will change.
    pub no_defaults: bool,
}

/// A term without placeholders: what writeback leaves in the permanent
/// tables.
pub open spec fn concrete() -> Demands {
    Demands { no_placeholders: true, no_errors: false, no_erased: false, no_defaults: false }
}

/// A term all of whose parts are written out: no placeholder, no error type,
/// no erased regions, no defaulted region bound.
pub open spec fn exact() -> Demands {
    Demands { no_placeholders: true, no_errors: true, no_erased: true, no_defaults: true }
}

/// Whether a region meets the demands.
pub open spec fn region_meets(d: Demands, r: Region) -> bool {
    d.no_placeholders ==> !(r is Var)
}

/// Whether each region of a list meets the demands.
pub open spec fn regions_meet(d: Demands, l: List<Region>) -> bool
    decreases l,
{
    match l {
        List::Nil => true,
        List::Cons(r, rest) => region_meets(d, *r) && regions_meet(d, *rest),
    }
}

/// Whether the regions of a substitution meet the demands.
pub open spec fn region_substs_meet(d: Demands, regions: RegionSubsts) -> bool {
    match regions {
        RegionSubsts::Erased => !d.no_erased,
        RegionSubsts::NonErased(r) => regions_meet(d, r.types) && regions_meet(d, r.selfs)
            && regions_meet(d, r.fns),
    }
}

/// Whether every part of a type meets the demands.
pub open spec fn ty_meets(d: Demands, t: Ty) -> bool
    decreases t,
{
    match t {
        Ty::Infer(_) => !d.no_placeholders,
        Ty::Error => !d.no_errors,
        Ty::Enum(_, substs) => substs_meet(d, substs),
        Ty::Struct(_, substs) => substs_meet(d, substs),
        Ty::Closure(_, substs) => substs_meet(d, substs),
        Ty::Uniq(inner) => ty_meets(d, *inner),
        Ty::RawPtr(mt) => ty_meets(d, *mt.ty),
        Ty::Ref(r, mt) => region_meets(d, r) && ty_meets(d, *mt.ty),
        Ty::Array(inner, _) => ty_meets(d, *inner),
        Ty::Slice(inner) => ty_meets(d, *inner),
        Ty::Tuple(parts) => tys_meet(d, parts),
        Ty::BareFn(_, fty) => fn_sig_meets(d, fty.sig.0),
        Ty::Trait(data) => trait_ref_meets(d, data.principal.0) && bounds_meet(d, data.bounds),
        Ty::Projection(data) => trait_ref_meets(d, data.trait_ref),
        _ => true,
    }
}

/// Whether each type of a list meets the demands.
pub open spec fn tys_meet(d: Demands, l: List<Ty>) -> bool
    decreases l,
{
    match l {
        List::Nil => true,
        List::Cons(t, rest) => ty_meets(d, *t) && tys_meet(d, *rest),
    }
}

/// Whether every argument of a substitution meets the demands.
pub open spec fn substs_meet(d: Demands, substs: Substs) -> bool
    decreases substs,
{
    tys_meet(d, substs.types.types) && tys_meet(d, substs.types.selfs) && tys_meet(
        d,
        substs.types.fns,
    ) && region_substs_meet(d, substs.regions)
}

/// Whether the arguments of a trait reference meet the demands.
pub open spec fn trait_ref_meets(d: Demands, t: TraitRef) -> bool
    decreases t,
{
    substs_meet(d, t.substs)
}

/// Whether what a function returns meets the demands.
pub open spec fn fn_output_meets(d: Demands, output: FnOutput) -> bool
    decreases output,
{
    match output {
        FnOutput::Converging(t) => ty_meets(d, t),
        FnOutput::Diverging => true,
    }
}

/// Whether the inputs and the output of a signature meet the demands.
pub open spec fn fn_sig_meets(d: Demands, sig: FnSig) -> bool
    decreases sig,
{
    tys_meet(d, sig.inputs) && fn_output_meets(d, sig.output)
}

/// Whether both sides of a projection predicate meet the demands.
pub open spec fn projection_predicate_meets(d: Demands, p: ProjectionPredicate) -> bool
    decreases p,
{
    trait_ref_meets(d, p.projection_ty.trait_ref) && ty_meets(d, p.ty)
}

/// Whether each of a list of projection bounds meets the demands.
pub open spec fn projection_bounds_meet(d: Demands, l: List<PolyProjectionPredicate>) -> bool
    decreases l,
{
    match l {
        List::Nil => true,
        List::Cons(p, rest) => projection_predicate_meets(d, p.0) && projection_bounds_meet(
            d,
            *rest,
        ),
    }
}

/// Whether the bounds of a trait object meet the demands.
pub open spec fn bounds_meet(d: Demands, bounds: ExistentialBounds) -> bool
    decreases bounds,
{
    region_meets(d, bounds.region_bound) && (d.no_defaults ==> !bounds.region_bound_will_change)
        && projection_bounds_meet(d, bounds.projection_bounds)
}

} // verus!
