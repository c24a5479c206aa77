//! Resolution leaves a term without placeholders as it is. So resolving
//! twice gives what resolving once gives.

use crate::fold::{
    fold_bare_fn_spec, fold_existential_bounds_spec, fold_fn_output_spec, fold_fn_sig_spec,
    fold_mt_spec, fold_projection_bounds_spec, fold_projection_predicate_spec,
    fold_projection_ty_spec, fold_region_substs_spec, fold_regions_spec, fold_substs_spec,
    fold_trait_ref_spec, fold_trait_ty_spec, fold_ty_spec, fold_tys_spec, Folder,
};
use crate::infer::InferCtxt;
use crate::list::List;
use crate::resolve::{resolved_region, resolved_ty};
use crate::scan::{
    scan_bare_fn_spec, scan_existential_bounds_spec, scan_fn_output_spec, scan_fn_sig_spec,
    scan_mt_spec, scan_projection_bounds_spec, scan_projection_predicate_spec,
    scan_projection_ty_spec, scan_region_substs_spec, scan_regions_spec, scan_substs_spec,
    scan_trait_ref_spec, scan_trait_ty_spec, scan_ty_spec, scan_tys_spec,
};
use crate::ty::{
    BareFnTy, ExistentialBounds, FnOutput, FnSig, Mt, PolyProjectionPredicate,
    ProjectionPredicate, ProjectionTy, Region, RegionSubsts, Substs, TraitRef, TraitTy, Ty,
};
use vstd::prelude::*;

verus! {

/// Full resolution is idempotent: what it returns, it returns again.
pub proof fn lemma_resolution_idempotent(infcx: InferCtxt, t: Ty, r: Region)
    ensures
        resolved_ty(infcx, resolved_ty(infcx, t)) == resolved_ty(infcx, t),
        resolved_region(infcx, resolved_region(infcx, r)) == resolved_region(infcx, r),
{
    lemma_ty_stable(infcx, 0, 0, resolved_ty(infcx, t));
}

/// A type in which a look finds no placeholder is left as it is when the
/// oracle's answers are put in place.
pub proof fn lemma_ty_stable(infcx: InferCtxt, seen: u32, depth: u32, t: Ty)
    requires
        scan_ty_spec(seen, t).unresolved is None,
    ensures
        fold_ty_spec(Folder::Resolve(&infcx), depth, t) == t,
    decreases t,
{
    match t {
        Ty::Enum(_, substs) => lemma_substs_stable(infcx, seen, depth, substs),
        Ty::Struct(_, substs) => lemma_substs_stable(infcx, seen, depth, substs),
        Ty::Closure(_, substs) => lemma_substs_stable(infcx, seen, depth, substs),
        Ty::Uniq(inner) => lemma_ty_stable(infcx, seen, depth, *inner),
        Ty::RawPtr(mt) => lemma_mt_stable(infcx, seen, depth, mt),
        Ty::Ref(_, mt) => lemma_mt_stable(infcx, seen, depth, mt),
        Ty::Array(inner, _) => lemma_ty_stable(infcx, seen, depth, *inner),
        Ty::Slice(inner) => lemma_ty_stable(infcx, seen, depth, *inner),
        Ty::Tuple(parts) => lemma_tys_stable(infcx, seen, depth, parts),
        Ty::BareFn(_, fty) => lemma_bare_fn_stable(infcx, seen, depth, *fty),
        Ty::Trait(data) => lemma_trait_ty_stable(infcx, seen, depth, *data),
        Ty::Projection(data) => lemma_projection_ty_stable(infcx, seen, depth, data),
        _ => {},
    }
}

proof fn lemma_regions_stable(infcx: InferCtxt, seen: u32, depth: u32, l: List<Region>)
    requires
        scan_regions_spec(seen, l).unresolved is None,
    ensures
        fold_regions_spec(Folder::Resolve(&infcx), depth, l) == l,
    decreases l,
{
    match l {
        List::Nil => {},
        List::Cons(_, rest) => lemma_regions_stable(infcx, seen, depth, *rest),
    }
}

proof fn lemma_region_substs_stable(infcx: InferCtxt, seen: u32, depth: u32, regions: RegionSubsts)
    requires
        scan_region_substs_spec(seen, regions).unresolved is None,
    ensures
        fold_region_substs_spec(Folder::Resolve(&infcx), depth, regions) == regions,
{
    match regions {
        RegionSubsts::Erased => {},
        RegionSubsts::NonErased(r) => {
            lemma_regions_stable(infcx, seen, depth, r.types);
            lemma_regions_stable(infcx, seen, depth, r.selfs);
            lemma_regions_stable(infcx, seen, depth, r.fns);
        },
    }
}

proof fn lemma_tys_stable(infcx: InferCtxt, seen: u32, depth: u32, l: List<Ty>)
    requires
        scan_tys_spec(seen, l).unresolved is None,
    ensures
        fold_tys_spec(Folder::Resolve(&infcx), depth, l) == l,
    decreases l,
{
    match l {
        List::Nil => {},
        List::Cons(t, rest) => {
            lemma_ty_stable(infcx, seen, depth, *t);
            lemma_tys_stable(infcx, seen, depth, *rest);
        },
    }
}

proof fn lemma_mt_stable(infcx: InferCtxt, seen: u32, depth: u32, mt: Mt)
    requires
        scan_mt_spec(seen, mt).unresolved is None,
    ensures
        fold_mt_spec(Folder::Resolve(&infcx), depth, mt) == mt,
    decreases mt,
{
    lemma_ty_stable(infcx, seen, depth, *mt.ty);
}

/// A substitution in which a look finds no placeholder is left as it is
/// when the oracle's answers are put in place.
pub proof fn lemma_substs_stable(infcx: InferCtxt, seen: u32, depth: u32, substs: Substs)
    requires
        scan_substs_spec(seen, substs).unresolved is None,
    ensures
        fold_substs_spec(Folder::Resolve(&infcx), depth, substs) == substs,
    decreases substs,
{
    lemma_tys_stable(infcx, seen, depth, substs.types.types);
    lemma_tys_stable(infcx, seen, depth, substs.types.selfs);
    lemma_tys_stable(infcx, seen, depth, substs.types.fns);
    lemma_region_substs_stable(infcx, seen, depth, substs.regions);
}

proof fn lemma_trait_ref_stable(infcx: InferCtxt, seen: u32, depth: u32, t: TraitRef)
    requires
        scan_trait_ref_spec(seen, t).unresolved is None,
    ensures
        fold_trait_ref_spec(Folder::Resolve(&infcx), depth, t) == t,
    decreases t,
{
    lemma_substs_stable(infcx, seen, depth, t.substs);
}

proof fn lemma_fn_output_stable(infcx: InferCtxt, seen: u32, depth: u32, output: FnOutput)
    requires
        scan_fn_output_spec(seen, output).unresolved is None,
    ensures
        fold_fn_output_spec(Folder::Resolve(&infcx), depth, output) == output,
    decreases output,
{
    match output {
        FnOutput::Converging(t) => lemma_ty_stable(infcx, seen, depth, t),
        FnOutput::Diverging => {},
    }
}

proof fn lemma_fn_sig_stable(infcx: InferCtxt, seen: u32, depth: u32, sig: FnSig)
    requires
        scan_fn_sig_spec(seen, sig).unresolved is None,
    ensures
        fold_fn_sig_spec(Folder::Resolve(&infcx), depth, sig) == sig,
    decreases sig,
{
    lemma_tys_stable(infcx, seen, depth, sig.inputs);
    lemma_fn_output_stable(infcx, seen, depth, sig.output);
}

proof fn lemma_bare_fn_stable(infcx: InferCtxt, seen: u32, depth: u32, fty: BareFnTy)
    requires
        scan_bare_fn_spec(seen, fty).unresolved is None,
    ensures
        fold_bare_fn_spec(Folder::Resolve(&infcx), depth, fty) == fty,
    decreases fty,
{
    lemma_fn_sig_stable(
        infcx,
        crate::fold::deeper(seen),
        crate::fold::deeper(depth),
        fty.sig.0,
    );
}

proof fn lemma_projection_ty_stable(infcx: InferCtxt, seen: u32, depth: u32, p: ProjectionTy)
    requires
        scan_projection_ty_spec(seen, p).unresolved is None,
    ensures
        fold_projection_ty_spec(Folder::Resolve(&infcx), depth, p) == p,
    decreases p,
{
    lemma_trait_ref_stable(infcx, seen, depth, p.trait_ref);
}

proof fn lemma_projection_predicate_stable(
    infcx: InferCtxt,
    seen: u32,
    depth: u32,
    p: ProjectionPredicate,
)
    requires
        scan_projection_predicate_spec(seen, p).unresolved is None,
    ensures
        fold_projection_predicate_spec(Folder::Resolve(&infcx), depth, p) == p,
    decreases p,
{
    lemma_projection_ty_stable(infcx, seen, depth, p.projection_ty);
    lemma_ty_stable(infcx, seen, depth, p.ty);
}

proof fn lemma_projection_bounds_stable(
    infcx: InferCtxt,
    seen: u32,
    depth: u32,
    l: List<PolyProjectionPredicate>,
)
    requires
        scan_projection_bounds_spec(seen, l).unresolved is None,
    ensures
        fold_projection_bounds_spec(Folder::Resolve(&infcx), depth, l) == l,
    decreases l,
{
    match l {
        List::Nil => {},
        List::Cons(p, rest) => {
            lemma_projection_predicate_stable(
                infcx,
                crate::fold::deeper(seen),
                crate::fold::deeper(depth),
                p.0,
            );
            lemma_projection_bounds_stable(infcx, seen, depth, *rest);
        },
    }
}

proof fn lemma_existential_bounds_stable(
    infcx: InferCtxt,
    seen: u32,
    depth: u32,
    bounds: ExistentialBounds,
)
    requires
        scan_existential_bounds_spec(seen, bounds).unresolved is None,
    ensures
        fold_existential_bounds_spec(Folder::Resolve(&infcx), depth, bounds) == bounds,
    decreases bounds,
{
    lemma_projection_bounds_stable(infcx, seen, depth, bounds.projection_bounds);
}

proof fn lemma_trait_ty_stable(infcx: InferCtxt, seen: u32, depth: u32, data: TraitTy)
    requires
        scan_trait_ty_spec(seen, data).unresolved is None,
    ensures
        fold_trait_ty_spec(Folder::Resolve(&infcx), depth, data) == data,
    decreases data,
{
    lemma_trait_ref_stable(
        infcx,
        crate::fold::deeper(seen),
        crate::fold::deeper(depth),
        data.principal.0,
    );
    lemma_existential_bounds_stable(infcx, seen, depth, data.bounds);
}

} // verus!
