//! A term in which a look for placeholders finds none is a term none of
//! whose parts is a placeholder, and the other way round.

use crate::demands::{
    bounds_meet, concrete, fn_output_meets, fn_sig_meets, projection_bounds_meet,
    projection_predicate_meets, region_substs_meet, regions_meet, substs_meet, trait_ref_meets,
    ty_meets, tys_meet,
};
use crate::fold::deeper;
use crate::list::List;
use crate::scan::{
    scan_bare_fn_spec, scan_existential_bounds_spec, scan_fn_output_spec, scan_fn_sig_spec,
    scan_mt_spec, scan_projection_bounds_spec, scan_projection_predicate_spec,
    scan_projection_ty_spec, scan_region_substs_spec, scan_regions_spec, scan_substs_spec,
    scan_trait_ref_spec, scan_trait_ty_spec, scan_ty_spec, scan_tys_spec,
};
use crate::ty::{
    BareFnTy, ExistentialBounds, FnOutput, FnSig, Mt, PolyProjectionPredicate,
    ProjectionPredicate, ProjectionTy, Region, RegionSubsts, Substs, TraitRef, TraitTy, Ty,
};
use vstd::prelude::*;

verus! {

/// A type is free of placeholders exactly if a look through it, started at
/// whatever depth, reports none.
pub proof fn lemma_ty_concrete(depth: u32, t: Ty)
    ensures
        scan_ty_spec(depth, t).unresolved is None <==> ty_meets(concrete(), t),
    decreases t,
{
    match t {
        Ty::Enum(_, substs) => lemma_substs_concrete(depth, substs),
        Ty::Struct(_, substs) => lemma_substs_concrete(depth, substs),
        Ty::Closure(_, substs) => lemma_substs_concrete(depth, substs),
        Ty::Uniq(inner) => lemma_ty_concrete(depth, *inner),
        Ty::RawPtr(mt) => lemma_mt_concrete(depth, mt),
        Ty::Ref(_, mt) => lemma_mt_concrete(depth, mt),
        Ty::Array(inner, _) => lemma_ty_concrete(depth, *inner),
        Ty::Slice(inner) => lemma_ty_concrete(depth, *inner),
        Ty::Tuple(parts) => lemma_tys_concrete(depth, parts),
        Ty::BareFn(_, fty) => lemma_bare_fn_concrete(depth, *fty),
        Ty::Trait(data) => lemma_trait_ty_concrete(depth, *data),
        Ty::Projection(data) => lemma_projection_ty_concrete(depth, data),
        _ => {},
    }
}

proof fn lemma_regions_concrete(depth: u32, l: List<Region>)
    ensures
        scan_regions_spec(depth, l).unresolved is None <==> regions_meet(concrete(), l),
    decreases l,
{
    match l {
        List::Nil => {},
        List::Cons(_, rest) => lemma_regions_concrete(depth, *rest),
    }
}

proof fn lemma_region_substs_concrete(depth: u32, regions: RegionSubsts)
    ensures
        scan_region_substs_spec(depth, regions).unresolved is None <==> region_substs_meet(
            concrete(),
            regions,
        ),
{
    match regions {
        RegionSubsts::Erased => {},
        RegionSubsts::NonErased(r) => {
            lemma_regions_concrete(depth, r.types);
            lemma_regions_concrete(depth, r.selfs);
            lemma_regions_concrete(depth, r.fns);
        },
    }
}

proof fn lemma_tys_concrete(depth: u32, l: List<Ty>)
    ensures
        scan_tys_spec(depth, l).unresolved is None <==> tys_meet(concrete(), l),
    decreases l,
{
    match l {
        List::Nil => {},
        List::Cons(t, rest) => {
            lemma_ty_concrete(depth, *t);
            lemma_tys_concrete(depth, *rest);
        },
    }
}

proof fn lemma_mt_concrete(depth: u32, mt: Mt)
    ensures
        scan_mt_spec(depth, mt).unresolved is None <==> ty_meets(concrete(), *mt.ty),
    decreases mt,
{
    lemma_ty_concrete(depth, *mt.ty);
}

/// A substitution is free of placeholders exactly if a look through it
/// reports none.
pub proof fn lemma_substs_concrete(depth: u32, substs: Substs)
    ensures
        scan_substs_spec(depth, substs).unresolved is None <==> substs_meet(concrete(), substs),
    decreases substs,
{
    lemma_tys_concrete(depth, substs.types.types);
    lemma_tys_concrete(depth, substs.types.selfs);
    lemma_tys_concrete(depth, substs.types.fns);
    lemma_region_substs_concrete(depth, substs.regions);
}

proof fn lemma_trait_ref_concrete(depth: u32, t: TraitRef)
    ensures
        scan_trait_ref_spec(depth, t).unresolved is None <==> trait_ref_meets(concrete(), t),
    decreases t,
{
    lemma_substs_concrete(depth, t.substs);
}

proof fn lemma_fn_output_concrete(depth: u32, output: FnOutput)
    ensures
        scan_fn_output_spec(depth, output).unresolved is None <==> fn_output_meets(
            concrete(),
            output,
        ),
    decreases output,
{
    match output {
        FnOutput::Converging(t) => lemma_ty_concrete(depth, t),
        FnOutput::Diverging => {},
    }
}

proof fn lemma_fn_sig_concrete(depth: u32, sig: FnSig)
    ensures
        scan_fn_sig_spec(depth, sig).unresolved is None <==> fn_sig_meets(concrete(), sig),
    decreases sig,
{
    lemma_tys_concrete(depth, sig.inputs);
    lemma_fn_output_concrete(depth, sig.output);
}

proof fn lemma_bare_fn_concrete(depth: u32, fty: BareFnTy)
    ensures
        scan_bare_fn_spec(depth, fty).unresolved is None <==> fn_sig_meets(concrete(), fty.sig.0),
    decreases fty,
{
    lemma_fn_sig_concrete(deeper(depth), fty.sig.0);
}

proof fn lemma_projection_ty_concrete(depth: u32, p: ProjectionTy)
    ensures
        scan_projection_ty_spec(depth, p).unresolved is None <==> trait_ref_meets(
            concrete(),
            p.trait_ref,
        ),
    decreases p,
{
    lemma_trait_ref_concrete(depth, p.trait_ref);
}

proof fn lemma_projection_predicate_concrete(depth: u32, p: ProjectionPredicate)
    ensures
        scan_projection_predicate_spec(depth, p).unresolved is None
            <==> projection_predicate_meets(concrete(), p),
    decreases p,
{
    lemma_projection_ty_concrete(depth, p.projection_ty);
    lemma_ty_concrete(depth, p.ty);
}

proof fn lemma_projection_bounds_concrete(depth: u32, l: List<PolyProjectionPredicate>)
    ensures
        scan_projection_bounds_spec(depth, l).unresolved is None <==> projection_bounds_meet(
            concrete(),
            l,
        ),
    decreases l,
{
    match l {
        List::Nil => {},
        List::Cons(p, rest) => {
            lemma_projection_predicate_concrete(deeper(depth), p.0);
            lemma_projection_bounds_concrete(depth, *rest);
        },
    }
}

proof fn lemma_existential_bounds_concrete(depth: u32, bounds: ExistentialBounds)
    ensures
        scan_existential_bounds_spec(depth, bounds).unresolved is None <==> bounds_meet(
            concrete(),
            bounds,
        ),
    decreases bounds,
{
    lemma_projection_bounds_concrete(depth, bounds.projection_bounds);
}

proof fn lemma_trait_ty_concrete(depth: u32, data: TraitTy)
    ensures
        scan_trait_ty_spec(depth, data).unresolved is None <==> trait_ref_meets(
            concrete(),
            data.principal.0,
        ) && bounds_meet(concrete(), data.bounds),
    decreases data,
{
    lemma_trait_ref_concrete(deeper(depth), data.principal.0);
    lemma_existential_bounds_concrete(depth, data.bounds);
}

} // verus!
