//! Under equality two terms relate exactly if they are the same term.
//!
//! The engine lets an error type, a placeholder, erased regions and a
//! defaulted region bound pass without comparing them, so the law is stated
//! of the terms in which every part is written out.

use crate::combine::Combine;
use crate::demands::{
    bounds_meet, exact, fn_output_meets, fn_sig_meets, projection_bounds_meet,
    projection_predicate_meets, region_substs_meet, regions_meet, substs_meet, trait_ref_meets,
    ty_meets, tys_meet,
};
use crate::list::List;
use crate::reflexivity::lemma_tys_reflexive;
use crate::relate::{
    first_variance, region_variances, relate_arg_vecs_spec, relate_bare_fn_spec,
    relate_existential_bounds_spec, relate_fn_output_spec, relate_fn_sig_spec,
    relate_item_substs_spec, relate_mt_spec, relate_poly_fn_sig_spec,
    relate_poly_projection_predicate_spec, relate_poly_trait_ref_spec,
    relate_projection_bounds_spec, relate_projection_pairs_spec,
    relate_projection_predicate_spec, relate_projection_ty_spec, relate_region_params_spec,
    relate_region_slots_spec, relate_region_substs_spec, relate_substs_spec,
    relate_trait_ref_spec, relate_trait_ty_spec, relate_tuple_spec, relate_ty_lists_spec,
    relate_type_params_spec, relate_type_slots_spec, relate_tys_spec, rest_variances,
    super_relate_tys_spec, type_variances, TypeRelation,
};
use crate::ty::{
    BareFnTy, DefId, ExistentialBounds, FnOutput, FnSig, ItemVariances, Mt, ParamSpace,
    PolyFnSig, PolyProjectionPredicate, PolyTraitRef, ProjectionPredicate, ProjectionTy, Region,
    RegionSubsts, Substs, TraitRef, TraitTy, Ty, TypeError, Variance,
};
use vstd::prelude::*;

verus! {

/// Two types in which every part is written out relate under equality if
/// and only if they are the same type, and then the result is that type.
pub proof fn lemma_equate_is_equality(relation: Combine, a: Ty, b: Ty)
    requires
        relation.ambient is Invariant,
        ty_meets(exact(), a),
        ty_meets(exact(), b),
    ensures
        relate_tys_spec(relation, a, b) is Ok <==> a == b,
        a == b ==> relate_tys_spec(relation, a, b) == Ok::<Ty, TypeError>(a),
{
    if relate_tys_spec(relation, a, b) is Ok {
        lemma_tys_equal(relation, a, b);
    }
    if a == b {
        lemma_tys_reflexive(relation, a);
    }
}

/// Types that relate under equality are equal.
pub proof fn lemma_tys_equal(relation: Combine, a: Ty, b: Ty)
    requires
        relation.ambient is Invariant,
        ty_meets(exact(), a),
        ty_meets(exact(), b),
        relate_tys_spec(relation, a, b) is Ok,
    ensures
        a == b,
    decreases a, 1nat,
{
    lemma_super_tys_equal(relation, a, b);
}

proof fn lemma_super_tys_equal(relation: Combine, a: Ty, b: Ty)
    requires
        relation.ambient is Invariant,
        ty_meets(exact(), a),
        ty_meets(exact(), b),
        super_relate_tys_spec(relation, a, b) is Ok,
    ensures
        a == b,
    decreases a, 0nat,
{
    match (a, b) {
        (Ty::Enum(a_id, a_substs), Ty::Enum(b_id, b_substs)) => {
            lemma_item_substs_equal(relation, a_id, a_substs, b_substs);
        },
        (Ty::Struct(a_id, a_substs), Ty::Struct(b_id, b_substs)) => {
            lemma_item_substs_equal(relation, a_id, a_substs, b_substs);
        },
        (Ty::Closure(_, a_substs), Ty::Closure(_, b_substs)) => {
            lemma_substs_equal(relation, None, a_substs, b_substs);
        },
        (Ty::Uniq(x), Ty::Uniq(y)) => lemma_tys_equal(relation, *x, *y),
        (Ty::RawPtr(x), Ty::RawPtr(y)) => lemma_mt_equal(relation, x, y),
        (Ty::Ref(_, x), Ty::Ref(_, y)) => lemma_mt_equal(relation, x, y),
        (Ty::Array(x, _), Ty::Array(y, _)) => lemma_tys_equal(relation, *x, *y),
        (Ty::Slice(x), Ty::Slice(y)) => lemma_tys_equal(relation, *x, *y),
        (Ty::Tuple(x), Ty::Tuple(y)) => lemma_tuple_equal(relation, a, b, x, y),
        (Ty::BareFn(_, x), Ty::BareFn(_, y)) => lemma_bare_fn_equal(relation, *x, *y),
        (Ty::Trait(x), Ty::Trait(y)) => lemma_trait_ty_equal(relation, *x, *y),
        (Ty::Projection(x), Ty::Projection(y)) => lemma_projection_ty_equal(relation, x, y),
        _ => {},
    }
}

proof fn lemma_tuple_equal(relation: Combine, a: Ty, b: Ty, x: List<Ty>, y: List<Ty>)
    requires
        relation.ambient is Invariant,
        tys_meet(exact(), x),
        tys_meet(exact(), y),
        relate_tuple_spec(relation, a, b, x, y) is Ok,
    ensures
        x == y,
    decreases x, 1nat,
{
    lemma_ty_lists_equal(relation, x, y);
}

proof fn lemma_ty_lists_equal(relation: Combine, x: List<Ty>, y: List<Ty>)
    requires
        relation.ambient is Invariant,
        tys_meet(exact(), x),
        tys_meet(exact(), y),
        x.len() == y.len(),
        relate_ty_lists_spec(relation, x, y) is Ok,
    ensures
        x == y,
    decreases x, 0nat,
{
    match (x, y) {
        (List::Cons(t, ts), List::Cons(u, us)) => {
            lemma_tys_equal(relation, *t, *u);
            lemma_ty_lists_equal(relation, *ts, *us);
        },
        _ => {},
    }
}

/// Pointees that relate under equality are equal.
pub proof fn lemma_mt_equal(relation: Combine, a: Mt, b: Mt)
    requires
        relation.ambient is Invariant,
        ty_meets(exact(), *a.ty),
        ty_meets(exact(), *b.ty),
        relate_mt_spec(relation, a, b) is Ok,
    ensures
        a == b,
    decreases a, 0nat,
{
    lemma_tys_equal(relation, *a.ty, *b.ty);
}

proof fn lemma_item_substs_equal(relation: Combine, item_def_id: DefId, a: Substs, b: Substs)
    requires
        relation.ambient is Invariant,
        substs_meet(exact(), a),
        substs_meet(exact(), b),
        relate_item_substs_spec(relation, item_def_id, a, b) is Ok,
    ensures
        a == b,
    decreases a, 1nat,
{
    lemma_substs_equal(relation, relation.spec_tcx().known_variances(item_def_id), a, b);
}

/// Substitutions that relate under equality are equal.
pub proof fn lemma_substs_equal(
    relation: Combine,
    variances: Option<ItemVariances>,
    a: Substs,
    b: Substs,
)
    requires
        relation.ambient is Invariant,
        substs_meet(exact(), a),
        substs_meet(exact(), b),
        relate_substs_spec(relation, variances, a, b) is Ok,
    ensures
        a == b,
    decreases a, 0nat,
{
    lemma_type_params_equal(
        relation,
        type_variances(variances, ParamSpace::TypeSpace),
        a.types.types,
        b.types.types,
    );
    lemma_type_params_equal(
        relation,
        type_variances(variances, ParamSpace::SelfSpace),
        a.types.selfs,
        b.types.selfs,
    );
    lemma_type_params_equal(
        relation,
        type_variances(variances, ParamSpace::FnSpace),
        a.types.fns,
        b.types.fns,
    );
    lemma_region_substs_equal(relation, variances, a.regions, b.regions);
}

proof fn lemma_region_substs_equal(
    relation: Combine,
    variances: Option<ItemVariances>,
    a: RegionSubsts,
    b: RegionSubsts,
)
    requires
        relation.ambient is Invariant,
        region_substs_meet(exact(), a),
        region_substs_meet(exact(), b),
        relate_region_substs_spec(relation, variances, a, b) is Ok,
    ensures
        a == b,
{
    match (a, b) {
        (RegionSubsts::NonErased(x), RegionSubsts::NonErased(y)) => {
            lemma_region_params_equal(
                relation,
                region_variances(variances, ParamSpace::TypeSpace),
                x.types,
                y.types,
            );
            lemma_region_params_equal(
                relation,
                region_variances(variances, ParamSpace::SelfSpace),
                x.selfs,
                y.selfs,
            );
            lemma_region_params_equal(
                relation,
                region_variances(variances, ParamSpace::FnSpace),
                x.fns,
                y.fns,
            );
        },
        _ => {},
    }
}

proof fn lemma_type_params_equal(
    relation: Combine,
    variances: Option<List<Variance>>,
    x: List<Ty>,
    y: List<Ty>,
)
    requires
        relation.ambient is Invariant,
        tys_meet(exact(), x),
        tys_meet(exact(), y),
        relate_type_params_spec(relation, variances, x, y) is Ok,
    ensures
        x == y,
    decreases x, 1nat,
{
    lemma_type_slots_equal(relation, variances, x, y);
}

proof fn lemma_type_slots_equal(
    relation: Combine,
    variances: Option<List<Variance>>,
    x: List<Ty>,
    y: List<Ty>,
)
    requires
        relation.ambient is Invariant,
        tys_meet(exact(), x),
        tys_meet(exact(), y),
        x.len() == y.len(),
        relate_type_slots_spec(relation, variances, x, y) is Ok,
    ensures
        x == y,
    decreases x, 0nat,
{
    match (x, y) {
        (List::Cons(t, ts), List::Cons(u, us)) => {
            lemma_tys_equal(
                relation.spec_relate_with_variance(first_variance(variances)),
                *t,
                *u,
            );
            lemma_type_slots_equal(relation, rest_variances(variances), *ts, *us);
        },
        _ => {},
    }
}

proof fn lemma_region_params_equal(
    relation: Combine,
    variances: Option<List<Variance>>,
    x: List<Region>,
    y: List<Region>,
)
    requires
        relation.ambient is Invariant,
        regions_meet(exact(), x),
        regions_meet(exact(), y),
        relate_region_params_spec(relation, variances, x, y) is Ok,
    ensures
        x == y,
{
    lemma_region_slots_equal(relation, variances, x, y);
}

proof fn lemma_region_slots_equal(
    relation: Combine,
    variances: Option<List<Variance>>,
    x: List<Region>,
    y: List<Region>,
)
    requires
        relation.ambient is Invariant,
        regions_meet(exact(), x),
        regions_meet(exact(), y),
        x.len() == y.len(),
        relate_region_slots_spec(relation, variances, x, y) is Ok,
    ensures
        x == y,
    decreases x,
{
    match (x, y) {
        (List::Cons(_, ts), List::Cons(_, us)) => {
            lemma_region_slots_equal(relation, rest_variances(variances), *ts, *us);
        },
        _ => {},
    }
}

proof fn lemma_bare_fn_equal(relation: Combine, a: BareFnTy, b: BareFnTy)
    requires
        relation.ambient is Invariant,
        fn_sig_meets(exact(), a.sig.0),
        fn_sig_meets(exact(), b.sig.0),
        relate_bare_fn_spec(relation, a, b) is Ok,
    ensures
        a == b,
    decreases a, 0nat,
{
    lemma_poly_fn_sig_equal(relation, a.sig, b.sig);
}

proof fn lemma_poly_fn_sig_equal(relation: Combine, a: PolyFnSig, b: PolyFnSig)
    requires
        relation.ambient is Invariant,
        fn_sig_meets(exact(), a.0),
        fn_sig_meets(exact(), b.0),
        relate_poly_fn_sig_spec(relation, a, b) is Ok,
    ensures
        a == b,
    decreases a, 0nat,
{
    lemma_fn_sig_equal(relation.spec_binders(), a.0, b.0);
}

/// Function signatures that relate under equality are equal.
pub proof fn lemma_fn_sig_equal(relation: Combine, a: FnSig, b: FnSig)
    requires
        relation.ambient is Invariant,
        fn_sig_meets(exact(), a),
        fn_sig_meets(exact(), b),
        relate_fn_sig_spec(relation, a, b) is Ok,
    ensures
        a == b,
    decreases a, 0nat,
{
    lemma_arg_vecs_equal(relation, a.inputs, b.inputs);
    lemma_fn_output_equal(relation, a.output, b.output);
}

proof fn lemma_fn_output_equal(relation: Combine, a: FnOutput, b: FnOutput)
    requires
        relation.ambient is Invariant,
        fn_output_meets(exact(), a),
        fn_output_meets(exact(), b),
        relate_fn_output_spec(relation, a, b) is Ok,
    ensures
        a == b,
    decreases a, 0nat,
{
    match (a, b) {
        (FnOutput::Converging(x), FnOutput::Converging(y)) => lemma_tys_equal(relation, x, y),
        _ => {},
    }
}

proof fn lemma_arg_vecs_equal(relation: Combine, x: List<Ty>, y: List<Ty>)
    requires
        relation.ambient is Invariant,
        tys_meet(exact(), x),
        tys_meet(exact(), y),
        relate_arg_vecs_spec(relation, x, y) is Ok,
    ensures
        x == y,
    decreases x, 1nat,
{
    lemma_ty_lists_equal(relation.spec_relate_with_variance(Variance::Contravariant), x, y);
}

/// Trait references that relate under equality are equal.
pub proof fn lemma_trait_ref_equal(relation: Combine, a: TraitRef, b: TraitRef)
    requires
        relation.ambient is Invariant,
        trait_ref_meets(exact(), a),
        trait_ref_meets(exact(), b),
        relate_trait_ref_spec(relation, a, b) is Ok,
    ensures
        a == b,
    decreases a, 0nat,
{
    lemma_item_substs_equal(relation, a.def_id, a.substs, b.substs);
}

proof fn lemma_poly_trait_ref_equal(relation: Combine, a: PolyTraitRef, b: PolyTraitRef)
    requires
        relation.ambient is Invariant,
        trait_ref_meets(exact(), a.0),
        trait_ref_meets(exact(), b.0),
        relate_poly_trait_ref_spec(relation, a, b) is Ok,
    ensures
        a == b,
    decreases a, 0nat,
{
    lemma_trait_ref_equal(relation.spec_binders(), a.0, b.0);
}

proof fn lemma_projection_ty_equal(relation: Combine, a: ProjectionTy, b: ProjectionTy)
    requires
        relation.ambient is Invariant,
        trait_ref_meets(exact(), a.trait_ref),
        trait_ref_meets(exact(), b.trait_ref),
        relate_projection_ty_spec(relation, a, b) is Ok,
    ensures
        a == b,
    decreases a, 0nat,
{
    lemma_trait_ref_equal(relation, a.trait_ref, b.trait_ref);
}

proof fn lemma_projection_predicate_equal(
    relation: Combine,
    a: ProjectionPredicate,
    b: ProjectionPredicate,
)
    requires
        relation.ambient is Invariant,
        projection_predicate_meets(exact(), a),
        projection_predicate_meets(exact(), b),
        relate_projection_predicate_spec(relation, a, b) is Ok,
    ensures
        a == b,
    decreases a, 0nat,
{
    lemma_projection_ty_equal(relation, a.projection_ty, b.projection_ty);
    lemma_tys_equal(relation, a.ty, b.ty);
}

proof fn lemma_poly_projection_predicate_equal(
    relation: Combine,
    a: PolyProjectionPredicate,
    b: PolyProjectionPredicate,
)
    requires
        relation.ambient is Invariant,
        projection_predicate_meets(exact(), a.0),
        projection_predicate_meets(exact(), b.0),
        relate_poly_projection_predicate_spec(relation, a, b) is Ok,
    ensures
        a == b,
    decreases a, 0nat,
{
    lemma_projection_predicate_equal(relation.spec_binders(), a.0, b.0);
}

proof fn lemma_projection_bounds_equal(
    relation: Combine,
    x: List<PolyProjectionPredicate>,
    y: List<PolyProjectionPredicate>,
)
    requires
        relation.ambient is Invariant,
        projection_bounds_meet(exact(), x),
        projection_bounds_meet(exact(), y),
        relate_projection_bounds_spec(relation, x, y) is Ok,
    ensures
        x == y,
    decreases x, 1nat,
{
    lemma_projection_pairs_equal(relation, x, y);
}

proof fn lemma_projection_pairs_equal(
    relation: Combine,
    x: List<PolyProjectionPredicate>,
    y: List<PolyProjectionPredicate>,
)
    requires
        relation.ambient is Invariant,
        projection_bounds_meet(exact(), x),
        projection_bounds_meet(exact(), y),
        x.len() == y.len(),
        relate_projection_pairs_spec(relation, x, y) is Ok,
    ensures
        x == y,
    decreases x, 0nat,
{
    match (x, y) {
        (List::Cons(p, ps), List::Cons(q, qs)) => {
            lemma_poly_projection_predicate_equal(relation, *p, *q);
            lemma_projection_pairs_equal(relation, *ps, *qs);
        },
        _ => {},
    }
}

proof fn lemma_existential_bounds_equal(
    relation: Combine,
    a: ExistentialBounds,
    b: ExistentialBounds,
)
    requires
        relation.ambient is Invariant,
        bounds_meet(exact(), a),
        bounds_meet(exact(), b),
        relate_existential_bounds_spec(relation, a, b) is Ok,
    ensures
        a == b,
    decreases a, 0nat,
{
    lemma_projection_bounds_equal(relation, a.projection_bounds, b.projection_bounds);
}

proof fn lemma_trait_ty_equal(relation: Combine, a: TraitTy, b: TraitTy)
    requires
        relation.ambient is Invariant,
        trait_ref_meets(exact(), a.principal.0),
        bounds_meet(exact(), a.bounds),
        trait_ref_meets(exact(), b.principal.0),
        bounds_meet(exact(), b.bounds),
        relate_trait_ty_spec(relation, a, b) is Ok,
    ensures
        a == b,
    decreases a, 0nat,
{
    lemma_poly_trait_ref_equal(relation, a.principal, b.principal);
    lemma_existential_bounds_equal(relation, a.bounds, b.bounds);
}

} // verus!
