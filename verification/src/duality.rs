//! Turning a relation round: `a` relates to `b` in one direction exactly if
//! `b` relates to `a` in the other.
//!
//! The engine never swaps the two terms. In a contravariant slot it goes on
//! with the strategy turned round instead, and this law is what makes the
//! two the same: "the arguments relate contravariantly" and "the arguments
//! relate the other way round" succeed on the same terms.

use crate::combine::{turned, Combine};
use crate::list::List;
use crate::relate::{
    first_variance, region_variances, relate_arg_vecs_spec, relate_bare_fn_spec,
    relate_existential_bounds_spec, relate_fn_output_spec, relate_fn_sig_spec,
    relate_item_substs_spec, relate_mt_spec, relate_poly_fn_sig_spec,
    relate_poly_projection_predicate_spec, relate_poly_trait_ref_spec,
    relate_projection_bounds_spec, relate_projection_pairs_spec,
    relate_projection_predicate_spec, relate_projection_ty_spec, relate_region_params_spec,
    relate_region_slots_spec, relate_region_substs_spec, relate_substs_spec,
    relate_trait_ref_spec, relate_trait_ty_spec, relate_tuple_spec, relate_ty_lists_spec,
    relate_type_params_spec, relate_type_slots_spec, relate_tys_spec, rest_variances,
    super_relate_tys_spec, type_variances, Cause, TypeRelation,
};
use crate::ty::{
    BareFnTy, DefId, ExistentialBounds, FnOutput, FnSig, ItemVariances, Mt, ParamSpace,
    PolyFnSig, PolyProjectionPredicate, PolyTraitRef, ProjectionPredicate, ProjectionTy, Region,
    RegionSubsts, Substs, TraitRef, TraitTy, Ty, Variance,
};
use vstd::prelude::*;

verus! {

/// The relation turned round: subtyping becomes supertyping and the other
/// way; equality and the relation that asks nothing stay what they are.
pub open spec fn reversed(relation: Combine) -> Combine {
    relation.directed(turned(relation.ambient))
}

/// `a` relates to `b` exactly if `b` relates to `a` in the reversed
/// relation.
pub proof fn lemma_tys_dual(relation: Combine, a: Ty, b: Ty)
    ensures
        relate_tys_spec(relation, a, b) is Ok <==> relate_tys_spec(reversed(relation), b, a) is Ok,
    decreases a, 1nat,
{
    lemma_super_tys_dual(relation, a, b);
}

/// Two regions relate exactly if they relate, swapped, in the reversed
/// relation.
pub proof fn lemma_regions_dual(relation: Combine, a: Region, b: Region)
    ensures
        relation.spec_regions(a, b) is Ok <==> reversed(relation).spec_regions(b, a) is Ok,
{
}

proof fn lemma_super_tys_dual(relation: Combine, a: Ty, b: Ty)
    ensures
        super_relate_tys_spec(relation, a, b) is Ok <==> super_relate_tys_spec(
            reversed(relation),
            b,
            a,
        ) is Ok,
    decreases a, 0nat,
{
    match (a, b) {
        (Ty::Enum(a_id, a_substs), Ty::Enum(b_id, b_substs)) => {
            lemma_item_substs_dual(relation, a_id, a_substs, b_substs);
        },
        (Ty::Struct(a_id, a_substs), Ty::Struct(b_id, b_substs)) => {
            lemma_item_substs_dual(relation, a_id, a_substs, b_substs);
        },
        (Ty::Closure(_, a_substs), Ty::Closure(_, b_substs)) => {
            lemma_substs_dual(relation, None, a_substs, b_substs);
        },
        (Ty::Uniq(x), Ty::Uniq(y)) => lemma_tys_dual(relation, *x, *y),
        (Ty::RawPtr(x), Ty::RawPtr(y)) => lemma_mt_dual(relation, x, y),
        (Ty::Ref(r, x), Ty::Ref(s, y)) => {
            lemma_regions_dual(relation.spec_relate_with_variance(Variance::Contravariant), r, s);
            lemma_mt_dual(relation, x, y);
        },
        (Ty::Array(x, _), Ty::Array(y, _)) => lemma_tys_dual(relation, *x, *y),
        (Ty::Slice(x), Ty::Slice(y)) => lemma_tys_dual(relation, *x, *y),
        (Ty::Tuple(x), Ty::Tuple(y)) => lemma_tuple_dual(relation, a, b, x, y),
        (Ty::BareFn(_, x), Ty::BareFn(_, y)) => lemma_bare_fn_dual(relation, *x, *y),
        (Ty::Trait(x), Ty::Trait(y)) => lemma_trait_ty_dual(relation, *x, *y),
        (Ty::Projection(x), Ty::Projection(y)) => lemma_projection_ty_dual(relation, x, y),
        _ => {},
    }
}

proof fn lemma_tuple_dual(relation: Combine, a: Ty, b: Ty, x: List<Ty>, y: List<Ty>)
    ensures
        relate_tuple_spec(relation, a, b, x, y) is Ok <==> relate_tuple_spec(
            reversed(relation),
            b,
            a,
            y,
            x,
        ) is Ok,
    decreases x, 1nat,
{
    lemma_ty_lists_dual(relation, x, y);
}

/// Two lists of types relate pairwise exactly if they do, swapped, in the
/// reversed relation.
pub proof fn lemma_ty_lists_dual(relation: Combine, x: List<Ty>, y: List<Ty>)
    ensures
        relate_ty_lists_spec(relation, x, y) is Ok <==> relate_ty_lists_spec(
            reversed(relation),
            y,
            x,
        ) is Ok,
    decreases x, 0nat,
{
    match (x, y) {
        (List::Cons(t, ts), List::Cons(u, us)) => {
            lemma_tys_dual(relation, *t, *u);
            lemma_ty_lists_dual(relation, *ts, *us);
        },
        _ => {},
    }
}

/// Two pointees relate exactly if they relate, swapped, in the reversed
/// relation.
pub proof fn lemma_mt_dual(relation: Combine, a: Mt, b: Mt)
    ensures
        relate_mt_spec(relation, a, b) is Ok <==> relate_mt_spec(reversed(relation), b, a) is Ok,
    decreases a, 0nat,
{
    lemma_tys_dual(relation.spec_relate_with_variance(Variance::Covariant), *a.ty, *b.ty);
    lemma_tys_dual(relation.spec_relate_with_variance(Variance::Invariant), *a.ty, *b.ty);
}

proof fn lemma_item_substs_dual(relation: Combine, item_def_id: DefId, a: Substs, b: Substs)
    ensures
        relate_item_substs_spec(relation, item_def_id, a, b) is Ok <==> relate_item_substs_spec(
            reversed(relation),
            item_def_id,
            b,
            a,
        ) is Ok,
    decreases a, 1nat,
{
    lemma_substs_dual(relation, relation.spec_tcx().known_variances(item_def_id), a, b);
}

/// Two substitutions relate exactly if they relate, swapped, in the reversed
/// relation.
pub proof fn lemma_substs_dual(
    relation: Combine,
    variances: Option<ItemVariances>,
    a: Substs,
    b: Substs,
)
    ensures
        relate_substs_spec(relation, variances, a, b) is Ok <==> relate_substs_spec(
            reversed(relation),
            variances,
            b,
            a,
        ) is Ok,
    decreases a, 0nat,
{
    lemma_type_params_dual(
        relation,
        type_variances(variances, ParamSpace::TypeSpace),
        a.types.types,
        b.types.types,
    );
    lemma_type_params_dual(
        relation,
        type_variances(variances, ParamSpace::SelfSpace),
        a.types.selfs,
        b.types.selfs,
    );
    lemma_type_params_dual(
        relation,
        type_variances(variances, ParamSpace::FnSpace),
        a.types.fns,
        b.types.fns,
    );
    lemma_region_substs_dual(relation, variances, a.regions, b.regions);
}

proof fn lemma_region_substs_dual(
    relation: Combine,
    variances: Option<ItemVariances>,
    a: RegionSubsts,
    b: RegionSubsts,
)
    ensures
        relate_region_substs_spec(relation, variances, a, b) is Ok <==> relate_region_substs_spec(
            reversed(relation),
            variances,
            b,
            a,
        ) is Ok,
{
    match (a, b) {
        (RegionSubsts::NonErased(x), RegionSubsts::NonErased(y)) => {
            lemma_region_params_dual(
                relation,
                region_variances(variances, ParamSpace::TypeSpace),
                x.types,
                y.types,
            );
            lemma_region_params_dual(
                relation,
                region_variances(variances, ParamSpace::SelfSpace),
                x.selfs,
                y.selfs,
            );
            lemma_region_params_dual(
                relation,
                region_variances(variances, ParamSpace::FnSpace),
                x.fns,
                y.fns,
            );
        },
        _ => {},
    }
}

proof fn lemma_type_params_dual(
    relation: Combine,
    variances: Option<List<Variance>>,
    x: List<Ty>,
    y: List<Ty>,
)
    ensures
        relate_type_params_spec(relation, variances, x, y) is Ok <==> relate_type_params_spec(
            reversed(relation),
            variances,
            y,
            x,
        ) is Ok,
    decreases x, 1nat,
{
    lemma_type_slots_dual(relation, variances, x, y);
}

proof fn lemma_type_slots_dual(
    relation: Combine,
    variances: Option<List<Variance>>,
    x: List<Ty>,
    y: List<Ty>,
)
    ensures
        relate_type_slots_spec(relation, variances, x, y) is Ok <==> relate_type_slots_spec(
            reversed(relation),
            variances,
            y,
            x,
        ) is Ok,
    decreases x, 0nat,
{
    match (x, y) {
        (List::Cons(t, ts), List::Cons(u, us)) => {
            lemma_tys_dual(
                relation.spec_relate_with_variance(first_variance(variances)),
                *t,
                *u,
            );
            lemma_type_slots_dual(relation, rest_variances(variances), *ts, *us);
        },
        _ => {},
    }
}

proof fn lemma_region_params_dual(
    relation: Combine,
    variances: Option<List<Variance>>,
    x: List<Region>,
    y: List<Region>,
)
    ensures
        relate_region_params_spec(relation, variances, x, y) is Ok <==> relate_region_params_spec(
            reversed(relation),
            variances,
            y,
            x,
        ) is Ok,
{
    lemma_region_slots_dual(relation, variances, x, y);
}

proof fn lemma_region_slots_dual(
    relation: Combine,
    variances: Option<List<Variance>>,
    x: List<Region>,
    y: List<Region>,
)
    ensures
        relate_region_slots_spec(relation, variances, x, y) is Ok <==> relate_region_slots_spec(
            reversed(relation),
            variances,
            y,
            x,
        ) is Ok,
    decreases x,
{
    match (x, y) {
        (List::Cons(r, rs), List::Cons(s, ss)) => {
            lemma_regions_dual(
                relation.spec_relate_with_variance(first_variance(variances)),
                *r,
                *s,
            );
            lemma_region_slots_dual(relation, rest_variances(variances), *rs, *ss);
        },
        _ => {},
    }
}

proof fn lemma_bare_fn_dual(relation: Combine, a: BareFnTy, b: BareFnTy)
    ensures
        relate_bare_fn_spec(relation, a, b) is Ok <==> relate_bare_fn_spec(
            reversed(relation),
            b,
            a,
        ) is Ok,
    decreases a, 0nat,
{
    lemma_poly_fn_sig_dual(relation, a.sig, b.sig);
}

proof fn lemma_poly_fn_sig_dual(relation: Combine, a: PolyFnSig, b: PolyFnSig)
    ensures
        relate_poly_fn_sig_spec(relation, a, b) is Ok <==> relate_poly_fn_sig_spec(
            reversed(relation),
            b,
            a,
        ) is Ok,
    decreases a, 0nat,
{
    lemma_fn_sig_dual(relation.spec_binders(), a.0, b.0);
}

/// Two signatures relate exactly if they relate, swapped, in the reversed
/// relation.
pub proof fn lemma_fn_sig_dual(relation: Combine, a: FnSig, b: FnSig)
    ensures
        relate_fn_sig_spec(relation, a, b) is Ok <==> relate_fn_sig_spec(
            reversed(relation),
            b,
            a,
        ) is Ok,
    decreases a, 0nat,
{
    lemma_arg_vecs_dual(relation, a.inputs, b.inputs);
    lemma_fn_output_dual(relation, a.output, b.output);
}

proof fn lemma_fn_output_dual(relation: Combine, a: FnOutput, b: FnOutput)
    ensures
        relate_fn_output_spec(relation, a, b) is Ok <==> relate_fn_output_spec(
            reversed(relation),
            b,
            a,
        ) is Ok,
    decreases a, 0nat,
{
    match (a, b) {
        (FnOutput::Converging(x), FnOutput::Converging(y)) => lemma_tys_dual(relation, x, y),
        _ => {},
    }
}

proof fn lemma_arg_vecs_dual(relation: Combine, x: List<Ty>, y: List<Ty>)
    ensures
        relate_arg_vecs_spec(relation, x, y) is Ok <==> relate_arg_vecs_spec(
            reversed(relation),
            y,
            x,
        ) is Ok,
    decreases x, 1nat,
{
    lemma_ty_lists_dual(relation.spec_relate_with_variance(Variance::Contravariant), x, y);
}

proof fn lemma_trait_ref_dual(relation: Combine, a: TraitRef, b: TraitRef)
    ensures
        relate_trait_ref_spec(relation, a, b) is Ok <==> relate_trait_ref_spec(
            reversed(relation),
            b,
            a,
        ) is Ok,
    decreases a, 0nat,
{
    lemma_item_substs_dual(relation, a.def_id, a.substs, b.substs);
}

proof fn lemma_poly_trait_ref_dual(relation: Combine, a: PolyTraitRef, b: PolyTraitRef)
    ensures
        relate_poly_trait_ref_spec(relation, a, b) is Ok <==> relate_poly_trait_ref_spec(
            reversed(relation),
            b,
            a,
        ) is Ok,
    decreases a, 0nat,
{
    lemma_trait_ref_dual(relation.spec_binders(), a.0, b.0);
}

proof fn lemma_projection_ty_dual(relation: Combine, a: ProjectionTy, b: ProjectionTy)
    ensures
        relate_projection_ty_spec(relation, a, b) is Ok <==> relate_projection_ty_spec(
            reversed(relation),
            b,
            a,
        ) is Ok,
    decreases a, 0nat,
{
    lemma_trait_ref_dual(relation, a.trait_ref, b.trait_ref);
}

proof fn lemma_projection_predicate_dual(
    relation: Combine,
    a: ProjectionPredicate,
    b: ProjectionPredicate,
)
    ensures
        relate_projection_predicate_spec(relation, a, b) is Ok
            <==> relate_projection_predicate_spec(reversed(relation), b, a) is Ok,
    decreases a, 0nat,
{
    lemma_projection_ty_dual(relation, a.projection_ty, b.projection_ty);
    lemma_tys_dual(relation, a.ty, b.ty);
}

proof fn lemma_poly_projection_predicate_dual(
    relation: Combine,
    a: PolyProjectionPredicate,
    b: PolyProjectionPredicate,
)
    ensures
        relate_poly_projection_predicate_spec(relation, a, b) is Ok
            <==> relate_poly_projection_predicate_spec(reversed(relation), b, a) is Ok,
    decreases a, 0nat,
{
    lemma_projection_predicate_dual(relation.spec_binders(), a.0, b.0);
}

proof fn lemma_projection_bounds_dual(
    relation: Combine,
    x: List<PolyProjectionPredicate>,
    y: List<PolyProjectionPredicate>,
)
    ensures
        relate_projection_bounds_spec(relation, x, y) is Ok <==> relate_projection_bounds_spec(
            reversed(relation),
            y,
            x,
        ) is Ok,
    decreases x, 1nat,
{
    lemma_projection_pairs_dual(relation, x, y);
}

proof fn lemma_projection_pairs_dual(
    relation: Combine,
    x: List<PolyProjectionPredicate>,
    y: List<PolyProjectionPredicate>,
)
    ensures
        relate_projection_pairs_spec(relation, x, y) is Ok <==> relate_projection_pairs_spec(
            reversed(relation),
            y,
            x,
        ) is Ok,
    decreases x, 0nat,
{
    match (x, y) {
        (List::Cons(p, ps), List::Cons(q, qs)) => {
            lemma_poly_projection_predicate_dual(relation, *p, *q);
            lemma_projection_pairs_dual(relation, *ps, *qs);
        },
        _ => {},
    }
}

proof fn lemma_existential_bounds_dual(
    relation: Combine,
    a: ExistentialBounds,
    b: ExistentialBounds,
)
    ensures
        relate_existential_bounds_spec(relation, a, b) is Ok
            <==> relate_existential_bounds_spec(reversed(relation), b, a) is Ok,
    decreases a, 0nat,
{
    let forth = relation.spec_will_change(a.region_bound_will_change, b.region_bound_will_change);
    let back = reversed(relation).spec_will_change(
        b.region_bound_will_change,
        a.region_bound_will_change,
    );
    lemma_regions_dual(
        relation.spec_with_cause(Cause::ExistentialRegionBound(forth)).spec_relate_with_variance(
            Variance::Contravariant,
        ),
        a.region_bound,
        b.region_bound,
    );
    assert(reversed(relation).spec_with_cause(
        Cause::ExistentialRegionBound(back),
    ).spec_relate_with_variance(Variance::Contravariant) == reversed(
        relation.spec_with_cause(Cause::ExistentialRegionBound(forth)).spec_relate_with_variance(
            Variance::Contravariant,
        ),
    ));
    lemma_projection_bounds_dual(relation, a.projection_bounds, b.projection_bounds);
}

proof fn lemma_trait_ty_dual(relation: Combine, a: TraitTy, b: TraitTy)
    ensures
        relate_trait_ty_spec(relation, a, b) is Ok <==> relate_trait_ty_spec(
            reversed(relation),
            b,
            a,
        ) is Ok,
    decreases a, 0nat,
{
    lemma_poly_trait_ref_dual(relation, a.principal, b.principal);
    lemma_existential_bounds_dual(relation, a.bounds, b.bounds);
}

} // verus!
