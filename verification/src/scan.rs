//! Looking through a term: which placeholder it holds first, if any, and
//! how many regions the binder around it binds.

use crate::list::List;
use crate::fold::deeper;
use crate::ty::{
    BareFnTy, ExistentialBounds, FnOutput, FnSig, Mt, PolyProjectionPredicate,
    ProjectionPredicate, ProjectionTy, Region, RegionSubsts, Substs, TraitRef, TraitTy, Ty,
};
use vstd::prelude::*;

verus! {

/// A placeholder that the oracle has left without an answer.
#[derive(Clone, Copy, Debug, PartialEq, Eq, Structural)]
pub enum FixupError {
    UnresolvedTy(u32),
    UnresolvedRegion(u32),
}

/// What a look through a term found.
#[derive(Clone, Copy, Debug, PartialEq, Eq, Structural)]
pub struct Summary {
    /// The first placeholder of the term, in the order in which the term is
    /// written.
    pub unresolved: Option<FixupError>,
    /// One more than the largest index of a region that the binder around
    /// the term binds, as far as a `u32` can hold it; 0 if it binds none.
    pub bound: u32,
}

/// Nothing found.
pub open spec fn nothing() -> Summary {
    Summary { unresolved: None, bound: 0 }
}

/// What was found in a term whose first part gave `a` and whose rest gave
/// `b`.
pub open spec fn both(a: Summary, b: Summary) -> Summary {
    Summary {
        unresolved: if a.unresolved is Some {
            a.unresolved
        } else {
            b.unresolved
        },
        bound: if a.bound >= b.bound {
            a.bound
        } else {
            b.bound
        },
    }
}

/// What a look at a region met at `depth` finds.
pub open spec fn scan_region_spec(depth: u32, r: Region) -> Summary {
    match r {
        Region::Var(v) => Summary { unresolved: Some(FixupError::UnresolvedRegion(v)), bound: 0 },
        Region::LateBound(d, idx) => if d == depth {
            Summary { unresolved: None, bound: deeper(idx) }
        } else {
            nothing()
        },
        _ => nothing(),
    }
}

/// What a look through a list of regions finds.
pub open spec fn scan_regions_spec(depth: u32, l: List<Region>) -> Summary
    decreases l,
{
    match l {
        List::Nil => nothing(),
        List::Cons(r, rest) => both(scan_region_spec(depth, *r), scan_regions_spec(depth, *rest)),
    }
}

/// What a look through the regions of a substitution finds.
pub open spec fn scan_region_substs_spec(depth: u32, regions: RegionSubsts) -> Summary {
    match regions {
        RegionSubsts::Erased => nothing(),
        RegionSubsts::NonErased(r) => both(
            scan_regions_spec(depth, r.types),
            both(scan_regions_spec(depth, r.selfs), scan_regions_spec(depth, r.fns)),
        ),
    }
}

/// What a look through a type finds. `depth` is the depth at which a
/// region of the binder around the type is met at the top of the type.
pub open spec fn scan_ty_spec(depth: u32, t: Ty) -> Summary
    decreases t,
{
    match t {
        Ty::Infer(v) => Summary { unresolved: Some(FixupError::UnresolvedTy(v)), bound: 0 },
        Ty::Enum(_, substs) => scan_substs_spec(depth, substs),
        Ty::Struct(_, substs) => scan_substs_spec(depth, substs),
        Ty::Closure(_, substs) => scan_substs_spec(depth, substs),
        Ty::Uniq(inner) => scan_ty_spec(depth, *inner),
        Ty::RawPtr(mt) => scan_mt_spec(depth, mt),
        Ty::Ref(r, mt) => both(scan_region_spec(depth, r), scan_mt_spec(depth, mt)),
        Ty::Array(inner, _) => scan_ty_spec(depth, *inner),
        Ty::Slice(inner) => scan_ty_spec(depth, *inner),
        Ty::Tuple(parts) => scan_tys_spec(depth, parts),
        Ty::BareFn(_, fty) => scan_bare_fn_spec(depth, *fty),
        Ty::Trait(data) => scan_trait_ty_spec(depth, *data),
        Ty::Projection(data) => scan_projection_ty_spec(depth, data),
        _ => nothing(),
    }
}

/// What a look through a list of types finds.
pub open spec fn scan_tys_spec(depth: u32, l: List<Ty>) -> Summary
    decreases l,
{
    match l {
        List::Nil => nothing(),
        List::Cons(t, rest) => both(scan_ty_spec(depth, *t), scan_tys_spec(depth, *rest)),
    }
}

/// What a look through a pointee finds.
pub open spec fn scan_mt_spec(depth: u32, mt: Mt) -> Summary
    decreases mt,
{
    scan_ty_spec(depth, *mt.ty)
}

/// What a look through a substitution finds: the types space by space,
/// then the regions.
pub open spec fn scan_substs_spec(depth: u32, substs: Substs) -> Summary
    decreases substs,
{
    both(
        scan_tys_spec(depth, substs.types.types),
        both(
            scan_tys_spec(depth, substs.types.selfs),
            both(
                scan_tys_spec(depth, substs.types.fns),
                scan_region_substs_spec(depth, substs.regions),
            ),
        ),
    )
}

/// What a look through the arguments of a trait reference finds.
pub open spec fn scan_trait_ref_spec(depth: u32, t: TraitRef) -> Summary
    decreases t,
{
    scan_substs_spec(depth, t.substs)
}

/// What a look through what a function returns finds.
pub open spec fn scan_fn_output_spec(depth: u32, output: FnOutput) -> Summary
    decreases output,
{
    match output {
        FnOutput::Converging(t) => scan_ty_spec(depth, t),
        FnOutput::Diverging => nothing(),
    }
}

/// What a look through a signature finds: the inputs, then the output.
pub open spec fn scan_fn_sig_spec(depth: u32, sig: FnSig) -> Summary
    decreases sig,
{
    both(scan_tys_spec(depth, sig.inputs), scan_fn_output_spec(depth, sig.output))
}

/// What a look through a function type finds.
pub open spec fn scan_bare_fn_spec(depth: u32, fty: BareFnTy) -> Summary
    decreases fty,
{
    scan_fn_sig_spec(deeper(depth), fty.sig.0)
}

/// What a look through a projection finds.
pub open spec fn scan_projection_ty_spec(depth: u32, p: ProjectionTy) -> Summary
    decreases p,
{
    scan_trait_ref_spec(depth, p.trait_ref)
}

/// What a look through a projection predicate finds.
pub open spec fn scan_projection_predicate_spec(depth: u32, p: ProjectionPredicate) -> Summary
    decreases p,
{
    both(scan_projection_ty_spec(depth, p.projection_ty), scan_ty_spec(depth, p.ty))
}

/// What a look through a list of projection bounds finds.
pub open spec fn scan_projection_bounds_spec(depth: u32, l: List<PolyProjectionPredicate>) -> Summary
    decreases l,
{
    match l {
        List::Nil => nothing(),
        List::Cons(p, rest) => both(
            scan_projection_predicate_spec(deeper(depth), p.0),
            scan_projection_bounds_spec(depth, *rest),
        ),
    }
}

/// What a look through the bounds of a trait object finds.
pub open spec fn scan_existential_bounds_spec(depth: u32, bounds: ExistentialBounds) -> Summary
    decreases bounds,
{
    both(
        scan_region_spec(depth, bounds.region_bound),
        scan_projection_bounds_spec(depth, bounds.projection_bounds),
    )
}

/// What a look through a trait object finds.
pub open spec fn scan_trait_ty_spec(depth: u32, data: TraitTy) -> Summary
    decreases data,
{
    both(
        scan_trait_ref_spec(deeper(depth), data.principal.0),
        scan_existential_bounds_spec(depth, data.bounds),
    )
}

fn join(a: Summary, b: Summary) -> (r: Summary)
    ensures
        r == both(a, b),
{
    Summary {
        unresolved: match a.unresolved {
            Some(e) => Some(e),
            None => b.unresolved,
        },
        bound: if a.bound >= b.bound {
            a.bound
        } else {
            b.bound
        },
    }
}

fn none_found() -> (r: Summary)
    ensures
        r == nothing(),
{
    Summary { unresolved: None, bound: 0 }
}

fn inside(depth: u32) -> (r: u32)
    ensures
        r == deeper(depth),
{
    if depth < u32::MAX {
        depth + 1
    } else {
        depth
    }
}

/// Looks at a region.
pub fn scan_region(depth: u32, r: Region) -> (out: Summary)
    ensures
        out == scan_region_spec(depth, r),
{
    match r {
        Region::Var(v) => Summary { unresolved: Some(FixupError::UnresolvedRegion(v)), bound: 0 },
        Region::LateBound(d, idx) => if d == depth {
            Summary { unresolved: None, bound: inside(idx) }
        } else {
            none_found()
        },
        _ => none_found(),
    }
}

/// Looks through a list of regions.
pub fn scan_regions(depth: u32, l: &List<Region>) -> (out: Summary)
    ensures
        out == scan_regions_spec(depth, *l),
    decreases l,
{
    match l {
        List::Nil => none_found(),
        List::Cons(r, rest) => join(scan_region(depth, **r), scan_regions(depth, rest)),
    }
}

fn scan_region_substs(depth: u32, regions: &RegionSubsts) -> (out: Summary)
    ensures
        out == scan_region_substs_spec(depth, *regions),
{
    match regions {
        RegionSubsts::Erased => none_found(),
        RegionSubsts::NonErased(r) => join(
            scan_regions(depth, &r.types),
            join(scan_regions(depth, &r.selfs), scan_regions(depth, &r.fns)),
        ),
    }
}

/// Looks through a type.
pub fn scan_ty(depth: u32, t: &Ty) -> (out: Summary)
    ensures
        out == scan_ty_spec(depth, *t),
    decreases t,
{
    match t {
        Ty::Infer(v) => Summary { unresolved: Some(FixupError::UnresolvedTy(*v)), bound: 0 },
        Ty::Enum(_, substs) => scan_substs(depth, substs),
        Ty::Struct(_, substs) => scan_substs(depth, substs),
        Ty::Closure(_, substs) => scan_substs(depth, substs),
        Ty::Uniq(inner) => scan_ty(depth, inner),
        Ty::RawPtr(mt) => scan_mt(depth, mt),
        Ty::Ref(r, mt) => join(scan_region(depth, *r), scan_mt(depth, mt)),
        Ty::Array(inner, _) => scan_ty(depth, inner),
        Ty::Slice(inner) => scan_ty(depth, inner),
        Ty::Tuple(parts) => scan_tys(depth, parts),
        Ty::BareFn(_, fty) => scan_bare_fn(depth, fty),
        Ty::Trait(data) => scan_trait_ty(depth, data),
        Ty::Projection(data) => scan_projection_ty(depth, data),
        _ => none_found(),
    }
}

/// Looks through a list of types.
pub fn scan_tys(depth: u32, l: &List<Ty>) -> (out: Summary)
    ensures
        out == scan_tys_spec(depth, *l),
    decreases l,
{
    match l {
        List::Nil => none_found(),
        List::Cons(t, rest) => join(scan_ty(depth, t), scan_tys(depth, rest)),
    }
}

fn scan_mt(depth: u32, mt: &Mt) -> (out: Summary)
    ensures
        out == scan_mt_spec(depth, *mt),
    decreases mt,
{
    scan_ty(depth, &mt.ty)
}

/// Looks through a substitution.
pub fn scan_substs(depth: u32, substs: &Substs) -> (out: Summary)
    ensures
        out == scan_substs_spec(depth, *substs),
    decreases substs,
{
    join(
        scan_tys(depth, &substs.types.types),
        join(
            scan_tys(depth, &substs.types.selfs),
            join(scan_tys(depth, &substs.types.fns), scan_region_substs(depth, &substs.regions)),
        ),
    )
}

/// Looks through the arguments of a trait reference.
pub fn scan_trait_ref(depth: u32, t: &TraitRef) -> (out: Summary)
    ensures
        out == scan_trait_ref_spec(depth, *t),
    decreases t,
{
    scan_substs(depth, &t.substs)
}

fn scan_fn_output(depth: u32, output: &FnOutput) -> (out: Summary)
    ensures
        out == scan_fn_output_spec(depth, *output),
    decreases output,
{
    match output {
        FnOutput::Converging(t) => scan_ty(depth, t),
        FnOutput::Diverging => none_found(),
    }
}

/// Looks through a signature.
pub fn scan_fn_sig(depth: u32, sig: &FnSig) -> (out: Summary)
    ensures
        out == scan_fn_sig_spec(depth, *sig),
    decreases sig,
{
    join(scan_tys(depth, &sig.inputs), scan_fn_output(depth, &sig.output))
}

fn scan_bare_fn(depth: u32, fty: &BareFnTy) -> (out: Summary)
    ensures
        out == scan_bare_fn_spec(depth, *fty),
    decreases fty,
{
    scan_fn_sig(inside(depth), &fty.sig.0)
}

fn scan_projection_ty(depth: u32, p: &ProjectionTy) -> (out: Summary)
    ensures
        out == scan_projection_ty_spec(depth, *p),
    decreases p,
{
    scan_trait_ref(depth, &p.trait_ref)
}

/// Looks through a projection predicate.
pub fn scan_projection_predicate(depth: u32, p: &ProjectionPredicate) -> (out: Summary)
    ensures
        out == scan_projection_predicate_spec(depth, *p),
    decreases p,
{
    join(scan_projection_ty(depth, &p.projection_ty), scan_ty(depth, &p.ty))
}

fn scan_projection_bounds(depth: u32, l: &List<PolyProjectionPredicate>) -> (out: Summary)
    ensures
        out == scan_projection_bounds_spec(depth, *l),
    decreases l,
{
    match l {
        List::Nil => none_found(),
        List::Cons(p, rest) => join(
            scan_projection_predicate(inside(depth), &p.0),
            scan_projection_bounds(depth, rest),
        ),
    }
}

fn scan_existential_bounds(depth: u32, bounds: &ExistentialBounds) -> (out: Summary)
    ensures
        out == scan_existential_bounds_spec(depth, *bounds),
    decreases bounds,
{
    join(
        scan_region(depth, bounds.region_bound),
        scan_projection_bounds(depth, &bounds.projection_bounds),
    )
}

fn scan_trait_ty(depth: u32, data: &TraitTy) -> (out: Summary)
    ensures
        out == scan_trait_ty_spec(depth, *data),
    decreases data,
{
    join(
        scan_trait_ref(inside(depth), &data.principal.0),
        scan_existential_bounds(depth, &data.bounds),
    )
}

} // verus!
