//! Opening a binder leaves none of its regions behind: each becomes a
//! placeholder, as long as there are numbers left for them.

use crate::fold::{
    deeper, fold_bare_fn_spec, fold_existential_bounds_spec, fold_fn_output_spec,
    fold_fn_sig_spec, fold_mt_spec, fold_projection_bounds_spec,
    fold_projection_predicate_spec, fold_projection_ty_spec, fold_region_substs_spec,
    fold_regions_spec, fold_substs_spec, fold_trait_ref_spec, fold_trait_ty_spec, fold_ty_spec,
    fold_tys_spec, Folder,
};
use crate::list::List;
use crate::scan::{
    scan_bare_fn_spec, scan_existential_bounds_spec, scan_fn_output_spec, scan_fn_sig_spec,
    scan_mt_spec, scan_projection_bounds_spec, scan_projection_predicate_spec,
    scan_projection_ty_spec, scan_region_substs_spec, scan_regions_spec, scan_substs_spec,
    scan_trait_ref_spec, scan_trait_ty_spec, scan_ty_spec, scan_tys_spec,
};
use crate::ty::{
    BareFnTy, ExistentialBounds, FnOutput, FnSig, Mt, PolyProjectionPredicate,
    ProjectionPredicate, ProjectionTy, Region, RegionSubsts, Substs, TraitRef, TraitTy, Ty,
};
use vstd::prelude::*;

verus! {

/// The signature under a binder, opened from the placeholder `base` on,
/// holds no region that the binder binds.
pub proof fn lemma_fn_sig_opened(base: u32, depth: u32, sig: FnSig)
    requires
        base + scan_fn_sig_spec(depth, sig).bound <= u32::MAX,
    ensures
        scan_fn_sig_spec(depth, fold_fn_sig_spec(Folder::Open(base), depth, sig)).bound == 0,
    decreases sig,
{
    lemma_tys_opened(base, depth, sig.inputs);
    lemma_fn_output_opened(base, depth, sig.output);
}

/// The trait reference under a binder, opened from the placeholder `base`
/// on, holds no region that the binder binds.
pub proof fn lemma_trait_ref_opened(base: u32, depth: u32, t: TraitRef)
    requires
        base + scan_trait_ref_spec(depth, t).bound <= u32::MAX,
    ensures
        scan_trait_ref_spec(depth, fold_trait_ref_spec(Folder::Open(base), depth, t)).bound == 0,
    decreases t,
{
    lemma_substs_opened(base, depth, t.substs);
}

proof fn lemma_regions_opened(base: u32, depth: u32, l: List<Region>)
    requires
        base + scan_regions_spec(depth, l).bound <= u32::MAX,
    ensures
        scan_regions_spec(depth, fold_regions_spec(Folder::Open(base), depth, l)).bound == 0,
    decreases l,
{
    match l {
        List::Nil => {},
        List::Cons(_, rest) => lemma_regions_opened(base, depth, *rest),
    }
}

proof fn lemma_region_substs_opened(base: u32, depth: u32, regions: RegionSubsts)
    requires
        base + scan_region_substs_spec(depth, regions).bound <= u32::MAX,
    ensures
        scan_region_substs_spec(
            depth,
            fold_region_substs_spec(Folder::Open(base), depth, regions),
        ).bound == 0,
{
    match regions {
        RegionSubsts::Erased => {},
        RegionSubsts::NonErased(r) => {
            lemma_regions_opened(base, depth, r.types);
            lemma_regions_opened(base, depth, r.selfs);
            lemma_regions_opened(base, depth, r.fns);
        },
    }
}

proof fn lemma_ty_opened(base: u32, depth: u32, t: Ty)
    requires
        base + scan_ty_spec(depth, t).bound <= u32::MAX,
    ensures
        scan_ty_spec(depth, fold_ty_spec(Folder::Open(base), depth, t)).bound == 0,
    decreases t,
{
    match t {
        Ty::Enum(_, substs) => lemma_substs_opened(base, depth, substs),
        Ty::Struct(_, substs) => lemma_substs_opened(base, depth, substs),
        Ty::Closure(_, substs) => lemma_substs_opened(base, depth, substs),
        Ty::Uniq(inner) => lemma_ty_opened(base, depth, *inner),
        Ty::RawPtr(mt) => lemma_mt_opened(base, depth, mt),
        Ty::Ref(_, mt) => lemma_mt_opened(base, depth, mt),
        Ty::Array(inner, _) => lemma_ty_opened(base, depth, *inner),
        Ty::Slice(inner) => lemma_ty_opened(base, depth, *inner),
        Ty::Tuple(parts) => lemma_tys_opened(base, depth, parts),
        Ty::BareFn(_, fty) => lemma_bare_fn_opened(base, depth, *fty),
        Ty::Trait(data) => lemma_trait_ty_opened(base, depth, *data),
        Ty::Projection(data) => lemma_projection_ty_opened(base, depth, data),
        _ => {},
    }
}

proof fn lemma_tys_opened(base: u32, depth: u32, l: List<Ty>)
    requires
        base + scan_tys_spec(depth, l).bound <= u32::MAX,
    ensures
        scan_tys_spec(depth, fold_tys_spec(Folder::Open(base), depth, l)).bound == 0,
    decreases l,
{
    match l {
        List::Nil => {},
        List::Cons(t, rest) => {
            lemma_ty_opened(base, depth, *t);
            lemma_tys_opened(base, depth, *rest);
        },
    }
}

proof fn lemma_mt_opened(base: u32, depth: u32, mt: Mt)
    requires
        base + scan_mt_spec(depth, mt).bound <= u32::MAX,
    ensures
        scan_mt_spec(depth, fold_mt_spec(Folder::Open(base), depth, mt)).bound == 0,
    decreases mt,
{
    lemma_ty_opened(base, depth, *mt.ty);
}

proof fn lemma_substs_opened(base: u32, depth: u32, substs: Substs)
    requires
        base + scan_substs_spec(depth, substs).bound <= u32::MAX,
    ensures
        scan_substs_spec(depth, fold_substs_spec(Folder::Open(base), depth, substs)).bound == 0,
    decreases substs,
{
    lemma_tys_opened(base, depth, substs.types.types);
    lemma_tys_opened(base, depth, substs.types.selfs);
    lemma_tys_opened(base, depth, substs.types.fns);
    lemma_region_substs_opened(base, depth, substs.regions);
}

proof fn lemma_fn_output_opened(base: u32, depth: u32, output: FnOutput)
    requires
        base + scan_fn_output_spec(depth, output).bound <= u32::MAX,
    ensures
        scan_fn_output_spec(depth, fold_fn_output_spec(Folder::Open(base), depth, output)).bound
            == 0,
    decreases output,
{
    match output {
        FnOutput::Converging(t) => lemma_ty_opened(base, depth, t),
        FnOutput::Diverging => {},
    }
}

proof fn lemma_bare_fn_opened(base: u32, depth: u32, fty: BareFnTy)
    requires
        base + scan_bare_fn_spec(depth, fty).bound <= u32::MAX,
    ensures
        scan_bare_fn_spec(depth, fold_bare_fn_spec(Folder::Open(base), depth, fty)).bound == 0,
    decreases fty,
{
    lemma_fn_sig_opened(base, deeper(depth), fty.sig.0);
}

proof fn lemma_projection_ty_opened(base: u32, depth: u32, p: ProjectionTy)
    requires
        base + scan_projection_ty_spec(depth, p).bound <= u32::MAX,
    ensures
        scan_projection_ty_spec(depth, fold_projection_ty_spec(Folder::Open(base), depth, p)).bound
            == 0,
    decreases p,
{
    lemma_trait_ref_opened(base, depth, p.trait_ref);
}

proof fn lemma_projection_predicate_opened(base: u32, depth: u32, p: ProjectionPredicate)
    requires
        base + scan_projection_predicate_spec(depth, p).bound <= u32::MAX,
    ensures
        scan_projection_predicate_spec(
            depth,
            fold_projection_predicate_spec(Folder::Open(base), depth, p),
        ).bound == 0,
    decreases p,
{
    lemma_projection_ty_opened(base, depth, p.projection_ty);
    lemma_ty_opened(base, depth, p.ty);
}

proof fn lemma_projection_bounds_opened(base: u32, depth: u32, l: List<PolyProjectionPredicate>)
    requires
        base + scan_projection_bounds_spec(depth, l).bound <= u32::MAX,
    ensures
        scan_projection_bounds_spec(
            depth,
            fold_projection_bounds_spec(Folder::Open(base), depth, l),
        ).bound == 0,
    decreases l,
{
    match l {
        List::Nil => {},
        List::Cons(p, rest) => {
            lemma_projection_predicate_opened(base, deeper(depth), p.0);
            lemma_projection_bounds_opened(base, depth, *rest);
        },
    }
}

proof fn lemma_existential_bounds_opened(base: u32, depth: u32, bounds: ExistentialBounds)
    requires
        base + scan_existential_bounds_spec(depth, bounds).bound <= u32::MAX,
    ensures
        scan_existential_bounds_spec(
            depth,
            fold_existential_bounds_spec(Folder::Open(base), depth, bounds),
        ).bound == 0,
    decreases bounds,
{
    lemma_projection_bounds_opened(base, depth, bounds.projection_bounds);
}

proof fn lemma_trait_ty_opened(base: u32, depth: u32, data: TraitTy)
    requires
        base + scan_trait_ty_spec(depth, data).bound <= u32::MAX,
    ensures
        scan_trait_ty_spec(depth, fold_trait_ty_spec(Folder::Open(base), depth, data)).bound == 0,
    decreases data,
{
    lemma_trait_ref_opened(base, deeper(depth), data.principal.0);
    lemma_existential_bounds_opened(base, depth, data.bounds);
}

} // verus!
