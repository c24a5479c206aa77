//! Every term relates to itself, and what comes back is the term: under
//! equality, under subtyping in either direction, and under the relation
//! that asks nothing of regions.

use crate::combine::Combine;
use crate::list::List;
use crate::relate::{
    relate_arg_vecs_spec, relate_bare_fn_spec, relate_existential_bounds_spec,
    relate_fn_output_spec, relate_fn_sig_spec, relate_item_substs_spec, relate_mt_spec,
    relate_poly_fn_sig_spec, relate_poly_projection_predicate_spec, relate_poly_trait_ref_spec,
    relate_projection_bounds_spec, relate_projection_pairs_spec,
    relate_projection_predicate_spec, relate_projection_ty_spec, relate_region_params_spec,
    relate_region_slots_spec, relate_region_substs_spec, relate_substs_spec,
    relate_trait_ref_spec, relate_trait_ty_spec, relate_tuple_spec, relate_ty_lists_spec,
    relate_type_params_spec, relate_type_slots_spec, relate_tys_spec, super_relate_tys_spec,
    TypeRelation,
};
use crate::ty::{
    BareFnTy, DefId, ExistentialBounds, FnOutput, FnSig, ItemVariances, Mt, PolyFnSig,
    PolyProjectionPredicate, PolyTraitRef, ProjectionPredicate, ProjectionTy, Region, RegionSubsts,
    Substs, TraitRef, TraitTy, Ty, TypeError, Variance,
};
use vstd::prelude::*;

verus! {

/// A type relates to itself under equality, under subtyping in either
/// direction and under the relation that asks nothing of regions, and the
/// result is the type itself.
pub proof fn lemma_tys_reflexive(relation: Combine, a: Ty)
    ensures
        relate_tys_spec(relation, a, a) == Ok::<Ty, TypeError>(a),
    decreases a, 1nat,
{
    if !(a is Infer) {
        lemma_super_tys_reflexive(relation, a);
    }
}

/// The part-by-part relation of a type to itself gives the type.
pub proof fn lemma_super_tys_reflexive(relation: Combine, a: Ty)
    requires
        !(a is Infer),
    ensures
        super_relate_tys_spec(relation, a, a) == Ok::<Ty, TypeError>(a),
    decreases a, 0nat,
{
    match a {
        Ty::Enum(id, substs) => lemma_item_substs_reflexive(relation, id, substs),
        Ty::Struct(id, substs) => lemma_item_substs_reflexive(relation, id, substs),
        Ty::Closure(_, substs) => lemma_substs_reflexive(relation, None, substs),
        Ty::Uniq(inner) => lemma_tys_reflexive(relation, *inner),
        Ty::RawPtr(mt) => lemma_mt_reflexive(relation, mt),
        Ty::Ref(r, mt) => {
            lemma_regions_reflexive(relation.spec_relate_with_variance(Variance::Contravariant), r);
            lemma_mt_reflexive(relation, mt);
        },
        Ty::Array(inner, _) => lemma_tys_reflexive(relation, *inner),
        Ty::Slice(inner) => lemma_tys_reflexive(relation, *inner),
        Ty::Tuple(parts) => lemma_tuple_reflexive(relation, a, parts),
        Ty::BareFn(_, fty) => lemma_bare_fn_reflexive(relation, *fty),
        Ty::Trait(data) => lemma_trait_ty_reflexive(relation, *data),
        Ty::Projection(data) => lemma_projection_ty_reflexive(relation, data),
        _ => {},
    }
}

/// A region relates to itself and comes back.
pub proof fn lemma_regions_reflexive(relation: Combine, r: Region)
    ensures
        relation.spec_regions(r, r) == Ok::<Region, TypeError>(r),
{
}

proof fn lemma_tuple_reflexive(relation: Combine, a: Ty, parts: List<Ty>)
    ensures
        relate_tuple_spec(relation, a, a, parts, parts) == Ok::<Ty, TypeError>(Ty::Tuple(parts)),
    decreases parts, 1nat,
{
    lemma_ty_lists_reflexive(relation, parts);
}

proof fn lemma_ty_lists_reflexive(relation: Combine, l: List<Ty>)
    ensures
        relate_ty_lists_spec(relation, l, l) == Ok::<List<Ty>, TypeError>(l),
    decreases l, 0nat,
{
    match l {
        List::Nil => {},
        List::Cons(t, rest) => {
            lemma_tys_reflexive(relation, *t);
            lemma_ty_lists_reflexive(relation, *rest);
        },
    }
}

proof fn lemma_mt_reflexive(relation: Combine, a: Mt)
    ensures
        relate_mt_spec(relation, a, a) == Ok::<Mt, TypeError>(a),
    decreases a, 0nat,
{
    lemma_tys_reflexive(relation.spec_relate_with_variance(Variance::Covariant), *a.ty);
    lemma_tys_reflexive(relation.spec_relate_with_variance(Variance::Invariant), *a.ty);
}

proof fn lemma_item_substs_reflexive(relation: Combine, item_def_id: DefId, a: Substs)
    ensures
        relate_item_substs_spec(relation, item_def_id, a, a) == Ok::<Substs, TypeError>(a),
    decreases a, 1nat,
{
    lemma_substs_reflexive(relation, relation.spec_tcx().known_variances(item_def_id), a);
}

/// A substitution relates to itself, whatever variances its slots have.
pub proof fn lemma_substs_reflexive(relation: Combine, variances: Option<ItemVariances>, a: Substs)
    ensures
        relate_substs_spec(relation, variances, a, a) == Ok::<Substs, TypeError>(a),
    decreases a, 0nat,
{
    lemma_type_params_reflexive(
        relation,
        crate::relate::type_variances(variances, crate::ty::ParamSpace::TypeSpace),
        a.types.types,
    );
    lemma_type_params_reflexive(
        relation,
        crate::relate::type_variances(variances, crate::ty::ParamSpace::SelfSpace),
        a.types.selfs,
    );
    lemma_type_params_reflexive(
        relation,
        crate::relate::type_variances(variances, crate::ty::ParamSpace::FnSpace),
        a.types.fns,
    );
    lemma_region_substs_reflexive(relation, variances, a.regions);
}

proof fn lemma_region_substs_reflexive(
    relation: Combine,
    variances: Option<ItemVariances>,
    a: RegionSubsts,
)
    ensures
        relate_region_substs_spec(relation, variances, a, a) == Ok::<RegionSubsts, TypeError>(a),
{
    match a {
        RegionSubsts::Erased => {},
        RegionSubsts::NonErased(r) => {
            lemma_region_params_reflexive(
                relation,
                crate::relate::region_variances(variances, crate::ty::ParamSpace::TypeSpace),
                r.types,
            );
            lemma_region_params_reflexive(
                relation,
                crate::relate::region_variances(variances, crate::ty::ParamSpace::SelfSpace),
                r.selfs,
            );
            lemma_region_params_reflexive(
                relation,
                crate::relate::region_variances(variances, crate::ty::ParamSpace::FnSpace),
                r.fns,
            );
        },
    }
}

proof fn lemma_type_params_reflexive(
    relation: Combine,
    variances: Option<List<Variance>>,
    l: List<Ty>,
)
    ensures
        relate_type_params_spec(relation, variances, l, l) == Ok::<List<Ty>, TypeError>(l),
    decreases l, 1nat,
{
    lemma_type_slots_reflexive(relation, variances, l);
}

proof fn lemma_type_slots_reflexive(
    relation: Combine,
    variances: Option<List<Variance>>,
    l: List<Ty>,
)
    ensures
        relate_type_slots_spec(relation, variances, l, l) == Ok::<List<Ty>, TypeError>(l),
    decreases l, 0nat,
{
    match l {
        List::Nil => {},
        List::Cons(t, rest) => {
            lemma_tys_reflexive(
                relation.spec_relate_with_variance(crate::relate::first_variance(variances)),
                *t,
            );
            lemma_type_slots_reflexive(relation, crate::relate::rest_variances(variances), *rest);
        },
    }
}

proof fn lemma_region_params_reflexive(
    relation: Combine,
    variances: Option<List<Variance>>,
    l: List<Region>,
)
    ensures
        relate_region_params_spec(relation, variances, l, l) == Ok::<List<Region>, TypeError>(l),
{
    lemma_region_slots_reflexive(relation, variances, l);
}

proof fn lemma_region_slots_reflexive(
    relation: Combine,
    variances: Option<List<Variance>>,
    l: List<Region>,
)
    ensures
        relate_region_slots_spec(relation, variances, l, l) == Ok::<List<Region>, TypeError>(l),
    decreases l,
{
    match l {
        List::Nil => {},
        List::Cons(r, rest) => {
            lemma_regions_reflexive(
                relation.spec_relate_with_variance(crate::relate::first_variance(variances)),
                *r,
            );
            lemma_region_slots_reflexive(relation, crate::relate::rest_variances(variances), *rest);
        },
    }
}

proof fn lemma_bare_fn_reflexive(relation: Combine, a: BareFnTy)
    ensures
        relate_bare_fn_spec(relation, a, a) == Ok::<BareFnTy, TypeError>(a),
    decreases a, 0nat,
{
    lemma_poly_fn_sig_reflexive(relation, a.sig);
}

proof fn lemma_poly_fn_sig_reflexive(relation: Combine, a: PolyFnSig)
    ensures
        relate_poly_fn_sig_spec(relation, a, a) == Ok::<PolyFnSig, TypeError>(a),
    decreases a, 0nat,
{
    lemma_fn_sig_reflexive(relation.spec_binders(), a.0);
}

/// A function signature relates to itself.
pub proof fn lemma_fn_sig_reflexive(relation: Combine, a: FnSig)
    ensures
        relate_fn_sig_spec(relation, a, a) == Ok::<FnSig, TypeError>(a),
    decreases a, 0nat,
{
    lemma_arg_vecs_reflexive(relation, a.inputs);
    lemma_fn_output_reflexive(relation, a.output);
}

/// What a function returns relates to itself.
pub proof fn lemma_fn_output_reflexive(relation: Combine, a: FnOutput)
    ensures
        relate_fn_output_spec(relation, a, a) == Ok::<FnOutput, TypeError>(a),
    decreases a, 0nat,
{
    match a {
        FnOutput::Converging(t) => lemma_tys_reflexive(relation, t),
        FnOutput::Diverging => {},
    }
}

proof fn lemma_arg_vecs_reflexive(relation: Combine, l: List<Ty>)
    ensures
        relate_arg_vecs_spec(relation, l, l) == Ok::<List<Ty>, TypeError>(l),
    decreases l, 1nat,
{
    lemma_ty_lists_reflexive(relation.spec_relate_with_variance(Variance::Contravariant), l);
}

/// A trait reference relates to itself.
pub proof fn lemma_trait_ref_reflexive(relation: Combine, a: TraitRef)
    ensures
        relate_trait_ref_spec(relation, a, a) == Ok::<TraitRef, TypeError>(a),
    decreases a, 0nat,
{
    lemma_item_substs_reflexive(relation, a.def_id, a.substs);
}

proof fn lemma_poly_trait_ref_reflexive(relation: Combine, a: PolyTraitRef)
    ensures
        relate_poly_trait_ref_spec(relation, a, a) == Ok::<PolyTraitRef, TypeError>(a),
    decreases a, 0nat,
{
    lemma_trait_ref_reflexive(relation.spec_binders(), a.0);
}

proof fn lemma_projection_ty_reflexive(relation: Combine, a: ProjectionTy)
    ensures
        relate_projection_ty_spec(relation, a, a) == Ok::<ProjectionTy, TypeError>(a),
    decreases a, 0nat,
{
    lemma_trait_ref_reflexive(relation, a.trait_ref);
}

proof fn lemma_projection_predicate_reflexive(relation: Combine, a: ProjectionPredicate)
    ensures
        relate_projection_predicate_spec(relation, a, a) == Ok::<ProjectionPredicate, TypeError>(
            a,
        ),
    decreases a, 0nat,
{
    lemma_projection_ty_reflexive(relation, a.projection_ty);
    lemma_tys_reflexive(relation, a.ty);
}

proof fn lemma_poly_projection_predicate_reflexive(relation: Combine, a: PolyProjectionPredicate)
    ensures
        relate_poly_projection_predicate_spec(relation, a, a) == Ok::<
            PolyProjectionPredicate,
            TypeError,
        >(a),
    decreases a, 0nat,
{
    lemma_projection_predicate_reflexive(relation.spec_binders(), a.0);
}

proof fn lemma_projection_bounds_reflexive(relation: Combine, l: List<PolyProjectionPredicate>)
    ensures
        relate_projection_bounds_spec(relation, l, l) == Ok::<
            List<PolyProjectionPredicate>,
            TypeError,
        >(l),
    decreases l, 1nat,
{
    lemma_projection_pairs_reflexive(relation, l);
}

proof fn lemma_projection_pairs_reflexive(relation: Combine, l: List<PolyProjectionPredicate>)
    ensures
        relate_projection_pairs_spec(relation, l, l) == Ok::<
            List<PolyProjectionPredicate>,
            TypeError,
        >(l),
    decreases l, 0nat,
{
    match l {
        List::Nil => {},
        List::Cons(p, rest) => {
            lemma_poly_projection_predicate_reflexive(relation, *p);
            lemma_projection_pairs_reflexive(relation, *rest);
        },
    }
}

proof fn lemma_existential_bounds_reflexive(relation: Combine, a: ExistentialBounds)
    ensures
        relate_existential_bounds_spec(relation, a, a) == Ok::<ExistentialBounds, TypeError>(a),
    decreases a, 0nat,
{
    let will_change = relation.spec_will_change(
        a.region_bound_will_change,
        a.region_bound_will_change,
    );
    lemma_regions_reflexive(
        relation.spec_with_cause(
            crate::relate::Cause::ExistentialRegionBound(will_change),
        ).spec_relate_with_variance(Variance::Contravariant),
        a.region_bound,
    );
    lemma_projection_bounds_reflexive(relation, a.projection_bounds);
}

proof fn lemma_trait_ty_reflexive(relation: Combine, a: TraitTy)
    ensures
        relate_trait_ty_spec(relation, a, a) == Ok::<TraitTy, TypeError>(a),
    decreases a, 0nat,
{
    lemma_poly_trait_ref_reflexive(relation, a.principal);
    lemma_existential_bounds_reflexive(relation, a.bounds);
}

} // verus!
