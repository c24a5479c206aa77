//! What the engine's policies come to under subtyping: how the variance of a
//! slot, the mutability of a pointer and the position of a type in a
//! function signature decide in which direction its arguments must relate.

use crate::combine::{outlives, Combine};
use crate::demands::{exact, ty_meets};
use crate::duality::{lemma_tys_dual, lemma_ty_lists_dual, reversed};
use crate::equality::lemma_equate_is_equality;
use crate::list::List;
use crate::relate::{
    expected_found_spec, relate_fn_output_spec, relate_fn_sig_spec, relate_item_substs_spec,
    relate_mt_spec, relate_region_params_spec, relate_ty_lists_spec, relate_type_params_spec,
    relate_substs_spec, relate_tys_spec, slot_count_mismatch_spec, super_relate_tys_spec,
    TypeRelation,
};
use crate::reflexivity::lemma_fn_output_reflexive;
use crate::ty::{
    DefId, FnSig, ItemVariances, Mt, Mutability, PerSpace, Region, RegionSubsts, Substs, Ty,
    TypeError, Variance,
};
use vstd::prelude::*;

verus! {

/// The substitution for an item with one type parameter and no others.
pub open spec fn unary(t: Ty) -> Substs {
    Substs {
        types: PerSpace {
            types: List::Cons(Box::new(t), Box::new(List::Nil)),
            selfs: List::Nil,
            fns: List::Nil,
        },
        regions: RegionSubsts::Erased,
    }
}

/// The variances of an item with one type parameter, of variance `v`.
pub open spec fn unary_variances(v: Variance) -> ItemVariances {
    ItemVariances {
        types: PerSpace {
            types: List::Cons(Box::new(v), Box::new(List::Nil)),
            selfs: List::Nil,
            fns: List::Nil,
        },
        regions: PerSpace { types: List::Nil, selfs: List::Nil, fns: List::Nil },
    }
}

/// Let `N` have one type parameter. Then `N<A>` is a subtype of `N<B>`
/// exactly if `A` and `B` relate as the variance of the parameter asks:
/// if it is covariant, `A` is a subtype of `B`; if it is contravariant, `B`
/// is a subtype of `A`; if it is invariant, `A` and `B` relate under
/// equality, which for types with every part written out means that they
/// are the same type.
pub proof fn lemma_variance_of_slot(relation: Combine, item: DefId, v: Variance, a: Ty, b: Ty)
    requires
        relation.ambient is Covariant,
        relation.spec_tcx().known_variances(item) == Some(unary_variances(v)),
    ensures
        v is Covariant ==> (relate_item_substs_spec(relation, item, unary(a), unary(b)) is Ok
            <==> relate_tys_spec(relation, a, b) is Ok),
        v is Contravariant ==> (relate_item_substs_spec(relation, item, unary(a), unary(b)) is Ok
            <==> relate_tys_spec(relation, b, a) is Ok),
        v is Invariant ==> (relate_item_substs_spec(relation, item, unary(a), unary(b)) is Ok
            <==> relate_tys_spec(relation.directed(Variance::Invariant), a, b) is Ok),
        v is Invariant && ty_meets(exact(), a) && ty_meets(exact(), b) ==> (
        relate_item_substs_spec(relation, item, unary(a), unary(b)) is Ok <==> a == b),
        relate_tys_spec(relation, Ty::Struct(item, unary(a)), Ty::Struct(item, unary(b))) is Ok
            <==> relate_item_substs_spec(relation, item, unary(a), unary(b)) is Ok,
        relate_tys_spec(relation, Ty::Enum(item, unary(a)), Ty::Enum(item, unary(b))) is Ok
            <==> relate_item_substs_spec(relation, item, unary(a), unary(b)) is Ok,
{
    let inner = relation.spec_relate_with_variance(v);
    let types_a = unary(a).types.types;
    let types_b = unary(b).types.types;
    assert(types_a.len() == 1 && types_b.len() == 1) by {
        reveal_with_fuel(List::len, 2);
    }
    assert(relate_type_params_spec(relation, Some(unary_variances(v).types.types), types_a, types_b)
        is Ok <==> relate_tys_spec(inner, a, b) is Ok) by {
        reveal_with_fuel(crate::relate::relate_type_slots_spec, 2);
    }
    assert(relate_item_substs_spec(relation, item, unary(a), unary(b)) is Ok <==> relate_tys_spec(
        inner,
        a,
        b,
    ) is Ok);
    if v is Contravariant {
        lemma_tys_dual(relation, b, a);
        assert(inner == reversed(relation));
    }
    if v is Invariant && ty_meets(exact(), a) && ty_meets(exact(), b) {
        lemma_equate_is_equality(inner, a, b);
    }
}

/// Substitutions that differ in the number of type arguments fail with both
/// numbers, whatever the arguments are, under every relation.
pub proof fn lemma_slot_count_mismatch<R: TypeRelation>(
    relation: R,
    variances: Option<List<Variance>>,
    a_tys: List<Ty>,
    b_tys: List<Ty>,
    a_rs: List<Region>,
    b_rs: List<Region>,
)
    ensures
        a_tys.len() != b_tys.len() ==> relate_type_params_spec(relation, variances, a_tys, b_tys)
            == Err::<List<Ty>, TypeError>(
            TypeError::ParamCount(expected_found_spec(relation, a_tys.count(), b_tys.count())),
        ),
        a_rs.len() != b_rs.len() ==> relate_region_params_spec(relation, variances, a_rs, b_rs)
            == Err::<List<Region>, TypeError>(
            TypeError::ParamCount(expected_found_spec(relation, a_rs.count(), b_rs.count())),
        ),
{
}

/// Two substitutions that differ in the number of slots of some space do
/// not relate for any item, whatever the slots hold: no slot is compared,
/// and the error names both numbers of the first space in which they differ.
pub proof fn lemma_item_slot_count_mismatch<R: TypeRelation>(
    relation: R,
    item: DefId,
    a: Substs,
    b: Substs,
)
    requires
        slot_count_mismatch_spec(relation, a, b) is Some,
    ensures
        relate_item_substs_spec(relation, item, a, b) == Err::<Substs, TypeError>(
            slot_count_mismatch_spec(relation, a, b)->0,
        ),
        super_relate_tys_spec(relation, Ty::Struct(item, a), Ty::Struct(item, b)) == Err::<
            Ty,
            TypeError,
        >(slot_count_mismatch_spec(relation, a, b)->0),
        super_relate_tys_spec(relation, Ty::Enum(item, a), Ty::Enum(item, b)) == Err::<
            Ty,
            TypeError,
        >(slot_count_mismatch_spec(relation, a, b)->0),
{
}

/// Two substitutions with as many types in the first space and not as many
/// in the second fail with the two numbers of the second space, though the
/// types of the first space may not relate either.
pub proof fn lemma_later_space_count_mismatch<R: TypeRelation>(
    relation: R,
    variances: Option<ItemVariances>,
    a: Substs,
    b: Substs,
)
    requires
        a.types.types.len() == b.types.types.len(),
        a.types.selfs.len() != b.types.selfs.len(),
    ensures
        relate_substs_spec(relation, variances, a, b) == Err::<Substs, TypeError>(
            TypeError::ParamCount(
                expected_found_spec(relation, a.types.selfs.count(), b.types.selfs.count()),
            ),
        ),
{
}

/// References of different mutability fail with the mutability error where
/// they are compared part by part, whatever their regions and pointees are:
/// neither is looked at.
pub proof fn lemma_reference_mutability_mismatch<R: TypeRelation>(
    relation: R,
    r: Region,
    s: Region,
    a: Mt,
    b: Mt,
)
    requires
        a.mutbl != b.mutbl,
    ensures
        super_relate_tys_spec(relation, Ty::Ref(r, a), Ty::Ref(s, b)) == Err::<Ty, TypeError>(
            TypeError::Mutability,
        ),
        super_relate_tys_spec(relation, Ty::RawPtr(a), Ty::RawPtr(b)) == Err::<Ty, TypeError>(
            TypeError::Mutability,
        ),
{
}

/// Pointers of different mutability do not relate. Behind mutable pointers
/// the pointees must relate under equality, which for types with every part
/// written out means that they are the same type. Behind immutable pointers
/// it is enough that the first pointee is a subtype of the second.
pub proof fn lemma_mutability_asymmetry(relation: Combine, a: Ty, b: Ty, m: Mutability, n: Mutability)
    requires
        relation.ambient is Covariant,
    ensures
        m != n ==> relate_mt_spec(
            relation,
            Mt { ty: Box::new(a), mutbl: m },
            Mt { ty: Box::new(b), mutbl: n },
        ) == Err::<Mt, TypeError>(TypeError::Mutability),
        m is Mutable && n is Mutable ==> (relate_mt_spec(
            relation,
            Mt { ty: Box::new(a), mutbl: m },
            Mt { ty: Box::new(b), mutbl: n },
        ) is Ok <==> relate_tys_spec(relation.directed(Variance::Invariant), a, b) is Ok),
        m is Mutable && n is Mutable && ty_meets(exact(), a) && ty_meets(exact(), b) ==> (
        relate_mt_spec(
            relation,
            Mt { ty: Box::new(a), mutbl: m },
            Mt { ty: Box::new(b), mutbl: n },
        ) is Ok <==> a == b),
        m is Immutable && n is Immutable ==> (relate_mt_spec(
            relation,
            Mt { ty: Box::new(a), mutbl: m },
            Mt { ty: Box::new(b), mutbl: n },
        ) is Ok <==> relate_tys_spec(relation, a, b) is Ok),
{
    if ty_meets(exact(), a) && ty_meets(exact(), b) {
        lemma_equate_is_equality(relation.directed(Variance::Invariant), a, b);
    }
}

/// A reference is a subtype of another exactly if its region outlives the
/// other's and the pointees relate as their mutability asks.
pub proof fn lemma_reference_subtyping(relation: Combine, r: Region, s: Region, a: Mt, b: Mt)
    requires
        relation.ambient is Covariant,
    ensures
        relate_tys_spec(relation, Ty::Ref(r, a), Ty::Ref(s, b)) is Ok <==> outlives(
            *relation.facts,
            r,
            s,
        ) && relate_mt_spec(relation, a, b) is Ok,
{
}

/// A function is a subtype of another exactly if both are variadic or
/// neither, they take the same number of inputs, each input of the second is
/// a subtype of the input of the first, and the outputs relate. So a function
/// that accepts a supertype is a subtype of one that accepts the subtype.
pub proof fn lemma_function_contravariance(relation: Combine, a: FnSig, b: FnSig)
    requires
        relation.ambient is Covariant,
    ensures
        relate_fn_sig_spec(relation, a, b) is Ok <==> a.variadic == b.variadic && a.inputs.len()
            == b.inputs.len() && relate_ty_lists_spec(relation, b.inputs, a.inputs) is Ok
            && relate_fn_output_spec(relation, a.output, b.output) is Ok,
{
    lemma_ty_lists_dual(relation, b.inputs, a.inputs);
    assert(relation.spec_relate_with_variance(Variance::Contravariant) == reversed(relation));
}

/// Of two functions that differ in their inputs only, the first is a
/// subtype of the second exactly if each input of the second is a subtype of
/// the input of the first. What comes back then has as many inputs, and is
/// variadic if they are.
pub proof fn lemma_function_accepting_supertype(relation: Combine, a: FnSig, b: FnSig)
    requires
        relation.ambient is Covariant,
        a.variadic == b.variadic,
        a.output == b.output,
        a.inputs.len() == b.inputs.len(),
    ensures
        relate_fn_sig_spec(relation, a, b) is Ok <==> each_relates(relation, b.inputs, a.inputs),
        relate_fn_sig_spec(relation, a, b) matches Ok(s) ==> s.variadic == a.variadic
            && s.inputs.len() == a.inputs.len() && s.output == a.output,
{
    lemma_ty_lists_pointwise(relation, b.inputs, a.inputs);
    lemma_function_contravariance(relation, a, b);
    lemma_fn_output_reflexive(relation, a.output);
    lemma_ty_lists_length(reversed(relation), a.inputs, b.inputs);
    assert(relation.spec_relate_with_variance(Variance::Contravariant) == reversed(relation));
}

/// Whether each type of `a` relates to the type of `b` at its position.
pub open spec fn each_relates<R: TypeRelation>(relation: R, a: List<Ty>, b: List<Ty>) -> bool {
    forall|i: int| 0 <= i < a.len() ==> relate_tys_spec(relation, #[trigger] a.at(i), b.at(i)) is Ok
}

/// Two lists of types of one length relate exactly if the types at each
/// position do.
pub proof fn lemma_ty_lists_pointwise<R: TypeRelation>(relation: R, a: List<Ty>, b: List<Ty>)
    requires
        a.len() == b.len(),
    ensures
        relate_ty_lists_spec(relation, a, b) is Ok <==> each_relates(relation, a, b),
    decreases a,
{
    match (a, b) {
        (List::Cons(x, xs), List::Cons(y, ys)) => {
            lemma_ty_lists_pointwise(relation, *xs, *ys);
            assert(a.at(0) == *x && b.at(0) == *y);
            if each_relates(relation, a, b) {
                assert(relate_tys_spec(relation, a.at(0), b.at(0)) is Ok);
                assert forall|i: int| 0 <= i < xs.len() implies relate_tys_spec(
                    relation,
                    #[trigger] xs.at(i),
                    ys.at(i),
                ) is Ok by {
                    assert(a.at(i + 1) == xs.at(i) && b.at(i + 1) == ys.at(i));
                }
            }
            if relate_ty_lists_spec(relation, a, b) is Ok {
                assert forall|i: int| 0 <= i < a.len() implies relate_tys_spec(
                    relation,
                    #[trigger] a.at(i),
                    b.at(i),
                ) is Ok by {
                    if i > 0 {
                        assert(a.at(i) == xs.at(i - 1) && b.at(i) == ys.at(i - 1));
                    }
                }
            }
        },
        _ => {},
    }
}

/// Lists of types that relate pairwise give a list as long as the shorter
/// of them.
pub proof fn lemma_ty_lists_length<R: TypeRelation>(relation: R, a: List<Ty>, b: List<Ty>)
    requires
        a.len() == b.len(),
    ensures
        relate_ty_lists_spec(relation, a, b) matches Ok(l) ==> l.len() == a.len(),
    decreases a,
{
    match (a, b) {
        (List::Cons(_, xs), List::Cons(_, ys)) => lemma_ty_lists_length(relation, *xs, *ys),
        _ => {},
    }
}

/// Signatures of which one is variadic and the other is not never relate.
pub proof fn lemma_variadic_mismatch<R: TypeRelation>(relation: R, a: FnSig, b: FnSig)
    requires
        a.variadic != b.variadic,
    ensures
        relate_fn_sig_spec(relation, a, b) == Err::<FnSig, TypeError>(
            TypeError::VariadicMismatch(expected_found_spec(relation, a.variadic, b.variadic)),
        ),
{
}

} // verus!
