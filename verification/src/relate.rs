//! The relation engine: the structural comparison of two terms of one shape
//! under a relation such as subtyping or equality.
//!
//! A relation is a strategy ([`TypeRelation`]). It decides the base cases:
//! two regions, two types that it wants to settle itself (placeholders, most
//! of all), two terms under binders, which go to it as they are, and what
//! becomes of it under a variance or a cause. The engine owns the recursion
//! over the terms, written once for all relations, and its result is a
//! function of the strategy and the two terms, given by the `_spec`
//! functions of this module.

use crate::ctxt::Ctxt;
use crate::list::List;
use crate::ty::{
    Abi, BareFnTy, Binder, BuiltinBounds, DefId, ExistentialBounds, ExpectedFound, FnOutput,
    FnSig, ItemVariances, Mt, Mutability, ParamSpace, PerSpace, PolyFnSig,
    PolyProjectionPredicate, PolyTraitRef, ProjectionPredicate, ProjectionTy, Region,
    RegionSubsts, RelateResult, Substs, TraitRef, TraitTy, Ty, TypeError, Unsafety, Variance,
};
use vstd::prelude::*;

verus! {

/// Why two terms are being related, where the engine knows more than the
/// terms say.
#[derive(Clone, Copy, Debug, PartialEq, Eq, Structural)]
pub enum Cause {
    /// The region bound of a trait object; `true` if the bound is a default
    /// rather than written out.
    ExistentialRegionBound(bool),
}

/// A relation between terms.
///
/// The `spec_` functions say what the strategy decides; each method returns
/// what its `spec_` function says. A strategy is a value: under a variance or
/// a cause the engine goes on with the strategy that the corresponding
/// method returns. Two terms under binders always go to the strategy first,
/// unopened, and what it answers is the result. The engine relates what
/// stands under the binders only for a strategy that gives no answer and so
/// asks for it, and then under the strategy that [`TypeRelation::binders`]
/// returns.
pub trait TypeRelation: Sized {
    spec fn spec_tcx(&self) -> Ctxt;

    spec fn spec_tag(&self) -> Seq<char>;

    spec fn spec_a_is_expected(&self) -> bool;

    spec fn spec_with_cause(&self, cause: Cause) -> Self;

    spec fn spec_will_change(&self, a: bool, b: bool) -> bool;

    spec fn spec_relate_with_variance(&self, variance: Variance) -> Self;

    spec fn spec_tys(&self, a: Ty, b: Ty) -> Option<RelateResult<Ty>>;

    spec fn spec_regions(&self, a: Region, b: Region) -> RelateResult<Region>;

    spec fn spec_binders(&self) -> Self;

    spec fn spec_fn_sig_binders(&self, a: PolyFnSig, b: PolyFnSig) -> Option<
        RelateResult<PolyFnSig>,
    >;

    spec fn spec_trait_ref_binders(&self, a: PolyTraitRef, b: PolyTraitRef) -> Option<
        RelateResult<PolyTraitRef>,
    >;

    spec fn spec_projection_binders(
        &self,
        a: PolyProjectionPredicate,
        b: PolyProjectionPredicate,
    ) -> Option<RelateResult<PolyProjectionPredicate>>;

    fn tcx(&self) -> (r: &Ctxt)
        ensures
            *r == self.spec_tcx(),
    ;

    /// A name for the relation, for printouts.
    fn tag(&self) -> (r: &'static str)
        ensures
            r@ == self.spec_tag(),
    ;

    /// Whether the first term is the "expected" one. It only orders the two
    /// sides of an error.
    fn a_is_expected(&self) -> (r: bool)
        ensures
            r == self.spec_a_is_expected(),
    ;

    /// The strategy to relate two terms with for the given cause.
    fn with_cause(&self, cause: Cause) -> (r: Self)
        ensures
            r == self.spec_with_cause(cause),
    ;

    /// Whether relating two region bounds may come out otherwise once bounds
    /// that are defaults change to `'static`. `a` and `b` say which of the
    /// two bounds are such defaults.
    fn will_change(&self, a: bool, b: bool) -> (r: bool)
        ensures
            r == self.spec_will_change(a, b),
    ;

    /// The strategy to relate the arguments of a slot of the given variance
    /// with.
    fn relate_with_variance(&self, variance: Variance) -> (r: Self)
        ensures
            r == self.spec_relate_with_variance(variance),
    ;

    /// The strategy's own answer for two types, or `None` where the types are
    /// to be compared part by part. A placeholder never is.
    fn tys(&self, a: &Ty, b: &Ty) -> (r: Option<RelateResult<Ty>>)
        ensures
            r == self.spec_tys(*a, *b),
            r is None ==> !(a is Infer) && !(b is Infer),
    ;

    fn regions(&self, a: Region, b: Region) -> (r: RelateResult<Region>)
        ensures
            r == self.spec_regions(a, b),
    ;

    /// The strategy to relate what stands under two binders with, where the
    /// strategy does not answer for the two binders itself. The engine never
    /// instantiates a bound region.
    fn binders(&self) -> (r: Self)
        ensures
            r == self.spec_binders(),
    ;

    /// The strategy's own answer for two signatures under their binders,
    /// which it gets as they are. `None` leaves the signatures to be related
    /// part by part under [`TypeRelation::binders`].
    fn fn_sig_binders(&self, a: &PolyFnSig, b: &PolyFnSig) -> (r: Option<RelateResult<PolyFnSig>>)
        ensures
            r == self.spec_fn_sig_binders(*a, *b),
    ;

    /// The strategy's own answer for two trait references under their
    /// binders, which it gets as they are. `None` leaves the references to be
    /// related part by part under [`TypeRelation::binders`].
    fn trait_ref_binders(&self, a: &PolyTraitRef, b: &PolyTraitRef) -> (r: Option<
        RelateResult<PolyTraitRef>,
    >)
        ensures
            r == self.spec_trait_ref_binders(*a, *b),
    ;

    /// The strategy's own answer for two projection predicates under their
    /// binders, which it gets as they are. `None` leaves the predicates to be
    /// related part by part under [`TypeRelation::binders`].
    fn projection_binders(
        &self,
        a: &PolyProjectionPredicate,
        b: &PolyProjectionPredicate,
    ) -> (r: Option<RelateResult<PolyProjectionPredicate>>)
        ensures
            r == self.spec_projection_binders(*a, *b),
    ;
}

/// A term that can be related to another of its kind under the relation `R`.
pub trait Relate<R: TypeRelation>: Sized {
    spec fn relate_spec(relation: R, a: Self, b: Self) -> RelateResult<Self>;

    fn relate(relation: &R, a: &Self, b: &Self) -> (r: RelateResult<Self>)
        ensures
            r == Self::relate_spec(*relation, *a, *b),
    ;
}

/// Relates two terms of any kind that can be related.
pub fn relate<R: TypeRelation, T: Relate<R>>(relation: &R, a: &T, b: &T) -> (r: RelateResult<T>)
    ensures
        r == T::relate_spec(*relation, *a, *b),
{
    T::relate(relation, a, b)
}

// ---------------------------------------------------------------------------
// What the engine computes
/// The two sides of a mismatch: `a` as the expected one if `a_is_expected`.
pub open spec fn expected_found_bool_spec<T>(a_is_expected: bool, a: T, b: T) -> ExpectedFound<T> {
    if a_is_expected {
        ExpectedFound { expected: a, found: b }
    } else {
        ExpectedFound { expected: b, found: a }
    }
}

/// The two sides of a mismatch: `a` as the expected one if the relation
/// expects `a`.
pub open spec fn expected_found_spec<R: TypeRelation, T>(relation: R, a: T, b: T) -> ExpectedFound<
    T,
> {
    expected_found_bool_spec(relation.spec_a_is_expected(), a, b)
}

/// The variance of the first of the slots that `variances` speaks of:
/// the declared one, or invariant where none is declared.
pub open spec fn first_variance(variances: Option<List<Variance>>) -> Variance {
    match variances {
        Some(List::Cons(v, _)) => *v,
        _ => Variance::Invariant,
    }
}

/// The variances of the slots after the first.
pub open spec fn rest_variances(variances: Option<List<Variance>>) -> Option<List<Variance>> {
    match variances {
        Some(List::Cons(_, rest)) => Some(*rest),
        _ => variances,
    }
}

/// The variances declared for the type parameters of a space.
pub open spec fn type_variances(variances: Option<ItemVariances>, space: ParamSpace) -> Option<
    List<Variance>,
> {
    match variances {
        Some(v) => Some(v.types.of(space)),
        None => None,
    }
}

/// The variances declared for the region parameters of a space.
pub open spec fn region_variances(variances: Option<ItemVariances>, space: ParamSpace) -> Option<
    List<Variance>,
> {
    match variances {
        Some(v) => Some(v.regions.of(space)),
        None => None,
    }
}

/// What relating two types gives: the strategy's own answer where it has
/// one, and the part-by-part relation otherwise.
pub open spec fn relate_tys_spec<R: TypeRelation>(relation: R, a: Ty, b: Ty) -> RelateResult<Ty>
    decreases a, 1nat,
{
    match relation.spec_tys(a, b) {
        Some(r) => r,
        None => super_relate_tys_spec(relation, a, b),
    }
}

/// The pairwise relation of two lists of types, as far as the shorter goes.
pub open spec fn relate_ty_lists_spec<R: TypeRelation>(
    relation: R,
    a: List<Ty>,
    b: List<Ty>,
) -> RelateResult<List<Ty>>
    decreases a, 0nat,
{
    match (a, b) {
        (List::Cons(x, xs), List::Cons(y, ys)) => match relate_tys_spec(relation, *x, *y) {
            Err(e) => Err(e),
            Ok(t) => match relate_ty_lists_spec(relation, *xs, *ys) {
                Err(e) => Err(e),
                Ok(ts) => Ok(List::Cons(Box::new(t), Box::new(ts))),
            },
        },
        _ => Ok(List::Nil),
    }
}

/// What relating two pointees gives. Their mutability must be the same; a
/// mutable pointee is invariant, an immutable one covariant.
pub open spec fn relate_mt_spec<R: TypeRelation>(relation: R, a: Mt, b: Mt) -> RelateResult<Mt>
    decreases a, 0nat,
{
    if a.mutbl != b.mutbl {
        Err(TypeError::Mutability)
    } else {
        let variance = match a.mutbl {
            Mutability::Immutable => Variance::Covariant,
            Mutability::Mutable => Variance::Invariant,
        };
        match relate_tys_spec(relation.spec_relate_with_variance(variance), *a.ty, *b.ty) {
            Ok(t) => Ok(Mt { ty: Box::new(t), mutbl: a.mutbl }),
            Err(e) => Err(e),
        }
    }
}

/// What relating two substitutions for the item `item_def_id` gives, each
/// slot under the variance known for it.
pub open spec fn relate_item_substs_spec<R: TypeRelation>(
    relation: R,
    item_def_id: DefId,
    a: Substs,
    b: Substs,
) -> RelateResult<Substs>
    decreases a, 2nat,
{
    relate_substs_spec(relation, relation.spec_tcx().known_variances(item_def_id), a, b)
}

/// The error for the first two lists of slots that differ in length, if
/// any do: the types space by space, then the regions, unless the regions of
/// either side are erased.
pub open spec fn slot_count_mismatch_spec<R: TypeRelation>(relation: R, a: Substs, b: Substs) -> Option<
    TypeError,
> {
    if a.types.types.len() != b.types.types.len() {
        Some(count_mismatch_spec(relation, a.types.types.count(), b.types.types.count()))
    } else if a.types.selfs.len() != b.types.selfs.len() {
        Some(count_mismatch_spec(relation, a.types.selfs.count(), b.types.selfs.count()))
    } else if a.types.fns.len() != b.types.fns.len() {
        Some(count_mismatch_spec(relation, a.types.fns.count(), b.types.fns.count()))
    } else {
        match (a.regions, b.regions) {
            (RegionSubsts::NonErased(ra), RegionSubsts::NonErased(rb)) => {
                if ra.types.len() != rb.types.len() {
                    Some(count_mismatch_spec(relation, ra.types.count(), rb.types.count()))
                } else if ra.selfs.len() != rb.selfs.len() {
                    Some(count_mismatch_spec(relation, ra.selfs.count(), rb.selfs.count()))
                } else if ra.fns.len() != rb.fns.len() {
                    Some(count_mismatch_spec(relation, ra.fns.count(), rb.fns.count()))
                } else {
                    None
                }
            },
            _ => None,
        }
    }
}

/// The error for two lists of slots of the lengths `a` and `b`.
pub open spec fn count_mismatch_spec<R: TypeRelation>(relation: R, a: usize, b: usize) -> TypeError {
    TypeError::ParamCount(expected_found_spec(relation, a, b))
}

/// What relating two substitutions gives. If two lists of slots differ in
/// length, in whichever space, that is the error, and no slot is compared.
/// Otherwise the types are related space by space, then the regions.
pub open spec fn relate_substs_spec<R: TypeRelation>(
    relation: R,
    variances: Option<ItemVariances>,
    a: Substs,
    b: Substs,
) -> RelateResult<Substs>
    decreases a, 1nat,
{
    match slot_count_mismatch_spec(relation, a, b) {
        Some(e) => Err(e),
        None => relate_all_slots_spec(relation, variances, a, b),
    }
}

/// What relating the slots of two substitutions gives: the types space by
/// space, then the regions.
pub open spec fn relate_all_slots_spec<R: TypeRelation>(
    relation: R,
    variances: Option<ItemVariances>,
    a: Substs,
    b: Substs,
) -> RelateResult<Substs>
    decreases a, 0nat,
{
    match relate_type_params_spec(
        relation,
        type_variances(variances, ParamSpace::TypeSpace),
        a.types.types,
        b.types.types,
    ) {
        Err(e) => Err(e),
        Ok(types) => match relate_type_params_spec(
            relation,
            type_variances(variances, ParamSpace::SelfSpace),
            a.types.selfs,
            b.types.selfs,
        ) {
            Err(e) => Err(e),
            Ok(selfs) => match relate_type_params_spec(
                relation,
                type_variances(variances, ParamSpace::FnSpace),
                a.types.fns,
                b.types.fns,
            ) {
                Err(e) => Err(e),
                Ok(fns) => match relate_region_substs_spec(
                    relation,
                    variances,
                    a.regions,
                    b.regions,
                ) {
                    Err(e) => Err(e),
                    Ok(regions) => Ok(Substs { types: PerSpace { types, selfs, fns }, regions }),
                },
            },
        },
    }
}

/// What relating the regions of two substitutions gives: erased if either
/// side is erased, and space by space otherwise.
pub open spec fn relate_region_substs_spec<R: TypeRelation>(
    relation: R,
    variances: Option<ItemVariances>,
    a: RegionSubsts,
    b: RegionSubsts,
) -> RelateResult<RegionSubsts> {
    match (a, b) {
        (RegionSubsts::NonErased(ra), RegionSubsts::NonErased(rb)) => match relate_region_params_spec(
            relation,
            region_variances(variances, ParamSpace::TypeSpace),
            ra.types,
            rb.types,
        ) {
            Err(e) => Err(e),
            Ok(types) => match relate_region_params_spec(
                relation,
                region_variances(variances, ParamSpace::SelfSpace),
                ra.selfs,
                rb.selfs,
            ) {
                Err(e) => Err(e),
                Ok(selfs) => match relate_region_params_spec(
                    relation,
                    region_variances(variances, ParamSpace::FnSpace),
                    ra.fns,
                    rb.fns,
                ) {
                    Err(e) => Err(e),
                    Ok(fns) => Ok(RegionSubsts::NonErased(PerSpace { types, selfs, fns })),
                },
            },
        },
        _ => Ok(RegionSubsts::Erased),
    }
}

/// What relating the type arguments of one space gives. Lists of
/// different length fail with both lengths.
pub open spec fn relate_type_params_spec<R: TypeRelation>(
    relation: R,
    variances: Option<List<Variance>>,
    a_tys: List<Ty>,
    b_tys: List<Ty>,
) -> RelateResult<List<Ty>>
    decreases a_tys, 1nat,
{
    if a_tys.len() != b_tys.len() {
        Err(TypeError::ParamCount(expected_found_spec(relation, a_tys.count(), b_tys.count())))
    } else {
        relate_type_slots_spec(relation, variances, a_tys, b_tys)
    }
}

/// The slot-by-slot relation of two lists of type arguments, each slot under
/// its variance.
pub open spec fn relate_type_slots_spec<R: TypeRelation>(
    relation: R,
    variances: Option<List<Variance>>,
    a_tys: List<Ty>,
    b_tys: List<Ty>,
) -> RelateResult<List<Ty>>
    decreases a_tys, 0nat,
{
    match (a_tys, b_tys) {
        (List::Cons(x, xs), List::Cons(y, ys)) => match relate_tys_spec(
            relation.spec_relate_with_variance(first_variance(variances)),
            *x,
            *y,
        ) {
            Err(e) => Err(e),
            Ok(t) => match relate_type_slots_spec(relation, rest_variances(variances), *xs, *ys) {
                Err(e) => Err(e),
                Ok(ts) => Ok(List::Cons(Box::new(t), Box::new(ts))),
            },
        },
        _ => Ok(List::Nil),
    }
}

/// What relating the region arguments of one space gives. Lists of
/// different length fail with both lengths.
pub open spec fn relate_region_params_spec<R: TypeRelation>(
    relation: R,
    variances: Option<List<Variance>>,
    a_rs: List<Region>,
    b_rs: List<Region>,
) -> RelateResult<List<Region>> {
    if a_rs.len() != b_rs.len() {
        Err(TypeError::ParamCount(expected_found_spec(relation, a_rs.count(), b_rs.count())))
    } else {
        relate_region_slots_spec(relation, variances, a_rs, b_rs)
    }
}

/// The slot-by-slot relation of two lists of region arguments, each slot
/// under its variance.
pub open spec fn relate_region_slots_spec<R: TypeRelation>(
    relation: R,
    variances: Option<List<Variance>>,
    a_rs: List<Region>,
    b_rs: List<Region>,
) -> RelateResult<List<Region>>
    decreases a_rs,
{
    match (a_rs, b_rs) {
        (List::Cons(x, xs), List::Cons(y, ys)) => match relation.spec_relate_with_variance(
            first_variance(variances),
        ).spec_regions(*x, *y) {
            Err(e) => Err(e),
            Ok(r) => match relate_region_slots_spec(relation, rest_variances(variances), *xs, *ys) {
                Err(e) => Err(e),
                Ok(rs) => Ok(List::Cons(Box::new(r), Box::new(rs))),
            },
        },
        _ => Ok(List::Nil),
    }
}

/// Two unsafety qualifiers relate only if they are the same.
pub open spec fn relate_unsafety_spec<R: TypeRelation>(
    relation: R,
    a: Unsafety,
    b: Unsafety,
) -> RelateResult<Unsafety> {
    if a != b {
        Err(TypeError::UnsafetyMismatch(expected_found_spec(relation, a, b)))
    } else {
        Ok(a)
    }
}

/// Two calling conventions relate only if they are the same.
pub open spec fn relate_abi_spec<R: TypeRelation>(relation: R, a: Abi, b: Abi) -> RelateResult<
    Abi,
> {
    if a == b {
        Ok(a)
    } else {
        Err(TypeError::AbiMismatch(expected_found_spec(relation, a, b)))
    }
}

/// Two sets of built-in bounds relate only if they are the same set.
pub open spec fn relate_builtin_bounds_spec<R: TypeRelation>(
    relation: R,
    a: BuiltinBounds,
    b: BuiltinBounds,
) -> RelateResult<BuiltinBounds> {
    if a != b {
        Err(TypeError::BuiltinBounds(expected_found_spec(relation, a, b)))
    } else {
        Ok(a)
    }
}

/// What relating two function types gives: the qualifiers, the calling
/// conventions, then the signatures under their binders.
pub open spec fn relate_bare_fn_spec<R: TypeRelation>(
    relation: R,
    a: BareFnTy,
    b: BareFnTy,
) -> RelateResult<BareFnTy>
    decreases a, 0nat,
{
    match relate_unsafety_spec(relation, a.unsafety, b.unsafety) {
        Err(e) => Err(e),
        Ok(unsafety) => match relate_abi_spec(relation, a.abi, b.abi) {
            Err(e) => Err(e),
            Ok(abi) => match relate_poly_fn_sig_spec(relation, a.sig, b.sig) {
                Err(e) => Err(e),
                Ok(sig) => Ok(BareFnTy { unsafety, abi, sig }),
            },
        },
    }
}

/// What relating two signatures under their binders gives: what the
/// relation answers for the two binders, where it answers.
pub open spec fn relate_poly_fn_sig_spec<R: TypeRelation>(
    relation: R,
    a: PolyFnSig,
    b: PolyFnSig,
) -> RelateResult<PolyFnSig>
    decreases a, 0nat,
{
    match relation.spec_fn_sig_binders(a, b) {
        Some(answer) => answer,
        None => match relate_fn_sig_spec(relation.spec_binders(), a.0, b.0) {
            Ok(sig) => Ok(Binder(sig)),
            Err(e) => Err(e),
        },
    }
}

/// What relating what two functions return gives. A function that
/// returns does not relate to one that does not.
pub open spec fn relate_fn_output_spec<R: TypeRelation>(
    relation: R,
    a: FnOutput,
    b: FnOutput,
) -> RelateResult<FnOutput>
    decreases a, 0nat,
{
    match (a, b) {
        (FnOutput::Converging(a_ty), FnOutput::Converging(b_ty)) => match relate_tys_spec(
            relation,
            a_ty,
            b_ty,
        ) {
            Ok(t) => Ok(FnOutput::Converging(t)),
            Err(e) => Err(e),
        },
        (FnOutput::Diverging, FnOutput::Diverging) => Ok(FnOutput::Diverging),
        _ => Err(
            TypeError::ConvergenceMismatch(
                expected_found_spec(relation, a is Converging, b is Converging),
            ),
        ),
    }
}

/// What relating two signatures gives. Both must be variadic or neither;
/// the inputs are contravariant, the outputs covariant.
pub open spec fn relate_fn_sig_spec<R: TypeRelation>(
    relation: R,
    a: FnSig,
    b: FnSig,
) -> RelateResult<FnSig>
    decreases a, 0nat,
{
    if a.variadic != b.variadic {
        Err(TypeError::VariadicMismatch(expected_found_spec(relation, a.variadic, b.variadic)))
    } else {
        match relate_arg_vecs_spec(relation, a.inputs, b.inputs) {
            Err(e) => Err(e),
            Ok(inputs) => match relate_fn_output_spec(relation, a.output, b.output) {
                Err(e) => Err(e),
                Ok(output) => Ok(FnSig { inputs, output, variadic: a.variadic }),
            },
        }
    }
}

/// What relating the inputs of two signatures gives: as many on both
/// sides, each pair contravariantly.
pub open spec fn relate_arg_vecs_spec<R: TypeRelation>(
    relation: R,
    a_args: List<Ty>,
    b_args: List<Ty>,
) -> RelateResult<List<Ty>>
    decreases a_args, 1nat,
{
    if a_args.len() != b_args.len() {
        Err(TypeError::ArgCount)
    } else {
        relate_ty_lists_spec(
            relation.spec_relate_with_variance(Variance::Contravariant),
            a_args,
            b_args,
        )
    }
}

/// What relating two trait references gives. References to different
/// traits do not relate.
pub open spec fn relate_trait_ref_spec<R: TypeRelation>(
    relation: R,
    a: TraitRef,
    b: TraitRef,
) -> RelateResult<TraitRef>
    decreases a, 0nat,
{
    if a.def_id != b.def_id {
        Err(TypeError::Traits(expected_found_spec(relation, a.def_id, b.def_id)))
    } else {
        match relate_item_substs_spec(relation, a.def_id, a.substs, b.substs) {
            Ok(substs) => Ok(TraitRef { def_id: a.def_id, substs }),
            Err(e) => Err(e),
        }
    }
}

/// What relating two trait references under their binders gives: what the
/// relation answers for the two binders, where it answers.
pub open spec fn relate_poly_trait_ref_spec<R: TypeRelation>(
    relation: R,
    a: PolyTraitRef,
    b: PolyTraitRef,
) -> RelateResult<PolyTraitRef>
    decreases a, 0nat,
{
    match relation.spec_trait_ref_binders(a, b) {
        Some(answer) => answer,
        None => match relate_trait_ref_spec(relation.spec_binders(), a.0, b.0) {
            Ok(t) => Ok(Binder(t)),
            Err(e) => Err(e),
        },
    }
}

/// What relating two projections gives. Projections of different items
/// do not relate.
pub open spec fn relate_projection_ty_spec<R: TypeRelation>(
    relation: R,
    a: ProjectionTy,
    b: ProjectionTy,
) -> RelateResult<ProjectionTy>
    decreases a, 0nat,
{
    if a.item_name != b.item_name {
        Err(
            TypeError::ProjectionNameMismatched(
                expected_found_spec(relation, a.item_name, b.item_name),
            ),
        )
    } else {
        match relate_trait_ref_spec(relation, a.trait_ref, b.trait_ref) {
            Ok(trait_ref) => Ok(ProjectionTy { trait_ref, item_name: a.item_name }),
            Err(e) => Err(e),
        }
    }
}

/// What relating two projection predicates gives: the projections, then
/// the types.
pub open spec fn relate_projection_predicate_spec<R: TypeRelation>(
    relation: R,
    a: ProjectionPredicate,
    b: ProjectionPredicate,
) -> RelateResult<ProjectionPredicate>
    decreases a, 0nat,
{
    match relate_projection_ty_spec(relation, a.projection_ty, b.projection_ty) {
        Err(e) => Err(e),
        Ok(projection_ty) => match relate_tys_spec(relation, a.ty, b.ty) {
            Err(e) => Err(e),
            Ok(ty) => Ok(ProjectionPredicate { projection_ty, ty }),
        },
    }
}

/// What relating two projection predicates under their binders gives: what
/// the relation answers for the two binders, where it answers.
pub open spec fn relate_poly_projection_predicate_spec<R: TypeRelation>(
    relation: R,
    a: PolyProjectionPredicate,
    b: PolyProjectionPredicate,
) -> RelateResult<PolyProjectionPredicate>
    decreases a, 0nat,
{
    match relation.spec_projection_binders(a, b) {
        Some(answer) => answer,
        None => match relate_projection_predicate_spec(relation.spec_binders(), a.0, b.0) {
            Ok(p) => Ok(Binder(p)),
            Err(e) => Err(e),
        },
    }
}

/// What relating two lists of projection bounds gives. Lists of
/// different length fail with both lengths.
pub open spec fn relate_projection_bounds_spec<R: TypeRelation>(
    relation: R,
    a: List<PolyProjectionPredicate>,
    b: List<PolyProjectionPredicate>,
) -> RelateResult<List<PolyProjectionPredicate>>
    decreases a, 1nat,
{
    if a.len() != b.len() {
        Err(TypeError::ProjectionBoundsLength(expected_found_spec(relation, a.count(), b.count())))
    } else {
        relate_projection_pairs_spec(relation, a, b)
    }
}

/// The pairwise relation of two lists of projection bounds, position by
/// position.
pub open spec fn relate_projection_pairs_spec<R: TypeRelation>(
    relation: R,
    a: List<PolyProjectionPredicate>,
    b: List<PolyProjectionPredicate>,
) -> RelateResult<List<PolyProjectionPredicate>>
    decreases a, 0nat,
{
    match (a, b) {
        (List::Cons(x, xs), List::Cons(y, ys)) => match relate_poly_projection_predicate_spec(
            relation,
            *x,
            *y,
        ) {
            Err(e) => Err(e),
            Ok(p) => match relate_projection_pairs_spec(relation, *xs, *ys) {
                Err(e) => Err(e),
                Ok(ps) => Ok(List::Cons(Box::new(p), Box::new(ps))),
            },
        },
        _ => Ok(List::Nil),
    }
}

/// What relating the bounds of two trait objects gives: the region
/// bounds contravariantly, then the built-in bounds, then the projection
/// bounds. The region bound of the result is a default that will change
/// where the relation says that the outcome may change, and where the region
/// bounds of both sides are such defaults.
pub open spec fn relate_existential_bounds_spec<R: TypeRelation>(
    relation: R,
    a: ExistentialBounds,
    b: ExistentialBounds,
) -> RelateResult<ExistentialBounds>
    decreases a, 0nat,
{
    let will_change = relation.spec_will_change(
        a.region_bound_will_change,
        b.region_bound_will_change,
    );
    match relation.spec_with_cause(
        Cause::ExistentialRegionBound(will_change),
    ).spec_relate_with_variance(Variance::Contravariant).spec_regions(
        a.region_bound,
        b.region_bound,
    ) {
        Err(e) => Err(e),
        Ok(region_bound) => match relate_builtin_bounds_spec(
            relation,
            a.builtin_bounds,
            b.builtin_bounds,
        ) {
            Err(e) => Err(e),
            Ok(builtin_bounds) => match relate_projection_bounds_spec(
                relation,
                a.projection_bounds,
                b.projection_bounds,
            ) {
                Err(e) => Err(e),
                Ok(projection_bounds) => Ok(
                    ExistentialBounds {
                        region_bound,
                        builtin_bounds,
                        projection_bounds,
                        region_bound_will_change: bound_will_change_spec(
                            will_change,
                            a.region_bound_will_change,
                            b.region_bound_will_change,
                        ),
                    },
                ),
            },
        },
    }
}

/// Whether the region bound of the result is a default that will change:
/// where the relation says so of the two bounds, and where both are.
pub open spec fn bound_will_change_spec(will_change: bool, a: bool, b: bool) -> bool {
    will_change || (a && b)
}

/// What relating two trait objects gives: the principal trait
/// references, then the bounds.
pub open spec fn relate_trait_ty_spec<R: TypeRelation>(
    relation: R,
    a: TraitTy,
    b: TraitTy,
) -> RelateResult<TraitTy>
    decreases a, 0nat,
{
    match relate_poly_trait_ref_spec(relation, a.principal, b.principal) {
        Err(e) => Err(e),
        Ok(principal) => match relate_existential_bounds_spec(relation, a.bounds, b.bounds) {
            Err(e) => Err(e),
            Ok(bounds) => Ok(TraitTy { principal, bounds }),
        },
    }
}

/// The relation of two tuples, given their parts.
pub open spec fn relate_tuple_spec<R: TypeRelation>(
    relation: R,
    a: Ty,
    b: Ty,
    a_parts: List<Ty>,
    b_parts: List<Ty>,
) -> RelateResult<Ty>
    decreases a_parts, 1nat,
{
    if a_parts.len() == b_parts.len() {
        match relate_ty_lists_spec(relation, a_parts, b_parts) {
            Ok(ts) => Ok(Ty::Tuple(ts)),
            Err(e) => Err(e),
        }
    } else if !(a_parts.len() == 0 || b_parts.len() == 0) {
        Err(TypeError::TupleSize(expected_found_spec(relation, a_parts.count(), b_parts.count())))
    } else {
        Err(TypeError::Sorts(expected_found_spec(relation, a, b)))
    }
}

/// What [`super_relate_tys`] returns: the part-by-part relation of two types,
/// neither of them a placeholder.
pub open spec fn super_relate_tys_spec<R: TypeRelation>(relation: R, a: Ty, b: Ty) -> RelateResult<
    Ty,
>
    decreases a, 0nat,
{
    let sorts = Err(TypeError::Sorts(expected_found_spec(relation, a, b)));
    if a is Infer || b is Infer {
        sorts
    } else if a is Error || b is Error {
        Ok(Ty::Error)
    } else if a.is_leaf() {
        if a == b {
            Ok(a)
        } else {
            sorts
        }
    } else {
        match (a, b) {
            (Ty::Param(a_p), Ty::Param(b_p)) => if a_p.idx == b_p.idx && a_p.space == b_p.space {
                Ok(a)
            } else {
                sorts
            },
            (Ty::Enum(a_id, a_substs), Ty::Enum(b_id, b_substs)) => if a_id == b_id {
                match relate_item_substs_spec(relation, a_id, a_substs, b_substs) {
                    Ok(substs) => Ok(Ty::Enum(a_id, substs)),
                    Err(e) => Err(e),
                }
            } else {
                sorts
            },
            (Ty::Trait(a_data), Ty::Trait(b_data)) => match relate_trait_ty_spec(
                relation,
                *a_data,
                *b_data,
            ) {
                Ok(data) => Ok(Ty::Trait(Box::new(data))),
                Err(e) => Err(e),
            },
            (Ty::Struct(a_id, a_substs), Ty::Struct(b_id, b_substs)) => if a_id == b_id {
                match relate_item_substs_spec(relation, a_id, a_substs, b_substs) {
                    Ok(substs) => Ok(Ty::Struct(a_id, substs)),
                    Err(e) => Err(e),
                }
            } else {
                sorts
            },
            (Ty::Closure(a_id, a_substs), Ty::Closure(b_id, b_substs)) => if a_id == b_id {
                match relate_substs_spec(relation, None, a_substs, b_substs) {
                    Ok(substs) => Ok(Ty::Closure(a_id, substs)),
                    Err(e) => Err(e),
                }
            } else {
                sorts
            },
            (Ty::Uniq(a_inner), Ty::Uniq(b_inner)) => match relate_tys_spec(
                relation,
                *a_inner,
                *b_inner,
            ) {
                Ok(t) => Ok(Ty::Uniq(Box::new(t))),
                Err(e) => Err(e),
            },
            (Ty::RawPtr(a_mt), Ty::RawPtr(b_mt)) => match relate_mt_spec(relation, a_mt, b_mt) {
                Ok(mt) => Ok(Ty::RawPtr(mt)),
                Err(e) => Err(e),
            },
            (Ty::Ref(a_r, a_mt), Ty::Ref(b_r, b_mt)) => if a_mt.mutbl != b_mt.mutbl {
                Err(TypeError::Mutability)
            } else {
                match relation.spec_relate_with_variance(Variance::Contravariant).spec_regions(
                    a_r,
                    b_r,
                ) {
                    Err(e) => Err(e),
                    Ok(r) => match relate_mt_spec(relation, a_mt, b_mt) {
                        Ok(mt) => Ok(Ty::Ref(r, mt)),
                        Err(e) => Err(e),
                    },
                }
            },
            (Ty::Array(a_t, sz_a), Ty::Array(b_t, sz_b)) => match relate_tys_spec(
                relation,
                *a_t,
                *b_t,
            ) {
                Err(e) => Err(e),
                Ok(t) => if sz_a == sz_b {
                    Ok(Ty::Array(Box::new(t), sz_a))
                } else {
                    Err(TypeError::FixedArraySize(expected_found_spec(relation, sz_a, sz_b)))
                },
            },
            (Ty::Slice(a_t), Ty::Slice(b_t)) => match relate_tys_spec(relation, *a_t, *b_t) {
                Ok(t) => Ok(Ty::Slice(Box::new(t))),
                Err(e) => Err(e),
            },
            (Ty::Tuple(a_parts), Ty::Tuple(b_parts)) => relate_tuple_spec(
                relation,
                a,
                b,
                a_parts,
                b_parts,
            ),
            (Ty::BareFn(a_id, a_fty), Ty::BareFn(b_id, b_fty)) => if a_id == b_id {
                match relate_bare_fn_spec(relation, *a_fty, *b_fty) {
                    Ok(fty) => Ok(Ty::BareFn(a_id, Box::new(fty))),
                    Err(e) => Err(e),
                }
            } else {
                sorts
            },
            (Ty::Projection(a_data), Ty::Projection(b_data)) => match relate_projection_ty_spec(
                relation,
                a_data,
                b_data,
            ) {
                Ok(data) => Ok(Ty::Projection(data)),
                Err(e) => Err(e),
            },
            _ => sorts,
        }
    }
}

// ---------------------------------------------------------------------------
// Errors
/// The two sides of a mismatch, as copies: `a` is the expected one if the
/// relation expects `a`, the found one otherwise.
pub fn expected_found<R: TypeRelation, T: Clone>(relation: &R, a: &T, b: &T) -> (r: ExpectedFound<
    T,
>)
    ensures
        relation.spec_a_is_expected() ==> cloned(*a, r.expected) && cloned(*b, r.found),
        !relation.spec_a_is_expected() ==> cloned(*b, r.expected) && cloned(*a, r.found),
{
    expected_found_bool(relation.a_is_expected(), a, b)
}

/// The two sides of a mismatch, as copies: `a` is the expected one if
/// `a_is_expected`, the found one otherwise.
pub fn expected_found_bool<T: Clone>(a_is_expected: bool, a: &T, b: &T) -> (r: ExpectedFound<T>)
    ensures
        a_is_expected ==> cloned(*a, r.expected) && cloned(*b, r.found),
        !a_is_expected ==> cloned(*b, r.expected) && cloned(*a, r.found),
{
    let a = a.clone();
    let b = b.clone();
    if a_is_expected {
        ExpectedFound { expected: a, found: b }
    } else {
        ExpectedFound { expected: b, found: a }
    }
}

/// The error for two types of different shape.
fn sorts<R: TypeRelation>(relation: &R, a: &Ty, b: &Ty) -> (r: RelateResult<Ty>)
    ensures
        r == Err::<Ty, TypeError>(TypeError::Sorts(expected_found_spec(*relation, *a, *b))),
{
    Err(TypeError::Sorts(expected_found(relation, a, b)))
}

/// The lengths of two lists as the two sides of a mismatch.
fn lengths<R: TypeRelation, A, B>(relation: &R, a: &List<A>, b: &List<B>) -> (r: ExpectedFound<
    usize,
>)
    ensures
        r == expected_found_spec(*relation, a.count(), b.count()),
{
    let n = a.length();
    let m = b.length();
    expected_found(relation, &n, &m)
}

// ---------------------------------------------------------------------------
// The engine
/// Relates two types: by the strategy's own answer where it has one, part by
/// part otherwise.
pub fn relate_tys<R: TypeRelation>(relation: &R, a: &Ty, b: &Ty) -> (r: RelateResult<Ty>)
    ensures
        r == relate_tys_spec(*relation, *a, *b),
    decreases a, 1nat,
{
    match relation.tys(a, b) {
        Some(r) => r,
        None => super_relate_tys(relation, a, b),
    }
}

fn relate_ty_lists<R: TypeRelation>(relation: &R, a: &List<Ty>, b: &List<Ty>) -> (r: RelateResult<
    List<Ty>,
>)
    ensures
        r == relate_ty_lists_spec(*relation, *a, *b),
    decreases a, 0nat,
{
    match (a, b) {
        (List::Cons(x, xs), List::Cons(y, ys)) => {
            let t = relate_tys(relation, x, y)?;
            let ts = relate_ty_lists(relation, xs, ys)?;
            Ok(List::Cons(Box::new(t), Box::new(ts)))
        },
        _ => Ok(List::Nil),
    }
}

/// Relates two pointees. Their mutability must be the same; a mutable
/// pointee is invariant, an immutable one covariant.
pub fn relate_mt<R: TypeRelation>(relation: &R, a: &Mt, b: &Mt) -> (r: RelateResult<Mt>)
    ensures
        r == relate_mt_spec(*relation, *a, *b),
    decreases a, 0nat,
{
    if a.mutbl != b.mutbl {
        Err(TypeError::Mutability)
    } else {
        let mutbl = a.mutbl;
        let variance = match mutbl {
            Mutability::Immutable => Variance::Covariant,
            Mutability::Mutable => Variance::Invariant,
        };
        let inner = relation.relate_with_variance(variance);
        let ty = relate_tys(&inner, &a.ty, &b.ty)?;
        Ok(Mt { ty: Box::new(ty), mutbl })
    }
}

/// Relates two substitutions for the item `item_def_id`, each slot under the
/// variance declared for it, or as invariant while variances are not known.
pub fn relate_item_substs<R: TypeRelation>(
    relation: &R,
    item_def_id: DefId,
    a_subst: &Substs,
    b_subst: &Substs,
) -> (r: RelateResult<Substs>)
    ensures
        r == relate_item_substs_spec(*relation, item_def_id, *a_subst, *b_subst),
    decreases a_subst, 1nat,
{
    let opt_variances = relation.tcx().item_variances(item_def_id);
    relate_substs(relation, opt_variances, a_subst, b_subst)
}

fn type_variances_of(variances: Option<&ItemVariances>, space: ParamSpace) -> (r: Option<
    &List<Variance>,
>)
    ensures
        r == match type_variances(
            match variances {
                Some(v) => Some(*v),
                None => None,
            },
            space,
        ) {
            Some(l) => Some(&l),
            None => None,
        },
{
    match variances {
        Some(v) => Some(v.types.get_slice(space)),
        None => None,
    }
}

fn region_variances_of(variances: Option<&ItemVariances>, space: ParamSpace) -> (r: Option<
    &List<Variance>,
>)
    ensures
        r == match region_variances(
            match variances {
                Some(v) => Some(*v),
                None => None,
            },
            space,
        ) {
            Some(l) => Some(&l),
            None => None,
        },
{
    match variances {
        Some(v) => Some(v.regions.get_slice(space)),
        None => None,
    }
}

/// What a reference to optional variances stands for.
pub open spec fn deref_variances(variances: Option<&ItemVariances>) -> Option<ItemVariances> {
    match variances {
        Some(v) => Some(*v),
        None => None,
    }
}

/// What a reference to an optional list of variances stands for.
pub open spec fn deref_variance_list(variances: Option<&List<Variance>>) -> Option<
    List<Variance>,
> {
    match variances {
        Some(v) => Some(*v),
        None => None,
    }
}

fn count_mismatch<R: TypeRelation>(relation: &R, a: usize, b: usize) -> (r: TypeError)
    ensures
        r == count_mismatch_spec(*relation, a, b),
{
    TypeError::ParamCount(expected_found(relation, &a, &b))
}

fn slot_count_mismatch<R: TypeRelation>(relation: &R, a: &Substs, b: &Substs) -> (r: Option<
    TypeError,
>)
    ensures
        r == slot_count_mismatch_spec(*relation, *a, *b),
{
    if !a.types.types.same_length(&b.types.types) {
        return Some(count_mismatch(relation, a.types.types.length(), b.types.types.length()));
    }
    if !a.types.selfs.same_length(&b.types.selfs) {
        return Some(count_mismatch(relation, a.types.selfs.length(), b.types.selfs.length()));
    }
    if !a.types.fns.same_length(&b.types.fns) {
        return Some(count_mismatch(relation, a.types.fns.length(), b.types.fns.length()));
    }
    match (&a.regions, &b.regions) {
        (RegionSubsts::NonErased(ra), RegionSubsts::NonErased(rb)) => {
            if !ra.types.same_length(&rb.types) {
                Some(count_mismatch(relation, ra.types.length(), rb.types.length()))
            } else if !ra.selfs.same_length(&rb.selfs) {
                Some(count_mismatch(relation, ra.selfs.length(), rb.selfs.length()))
            } else if !ra.fns.same_length(&rb.fns) {
                Some(count_mismatch(relation, ra.fns.length(), rb.fns.length()))
            } else {
                None
            }
        },
        _ => None,
    }
}

/// Relates two substitutions. The lengths of all lists of slots are compared
/// before any slot is: the first two that differ give the error. Then the
/// types are related space by space, and then the regions. If the regions of
/// either are erased, so are those of the result.
pub fn relate_substs<R: TypeRelation>(
    relation: &R,
    variances: Option<&ItemVariances>,
    a_subst: &Substs,
    b_subst: &Substs,
) -> (r: RelateResult<Substs>)
    ensures
        r == relate_substs_spec(*relation, deref_variances(variances), *a_subst, *b_subst),
    decreases a_subst, 0nat,
{
    if let Some(e) = slot_count_mismatch(relation, a_subst, b_subst) {
        return Err(e);
    }
    let types = relate_type_params(
        relation,
        type_variances_of(variances, ParamSpace::TypeSpace),
        &a_subst.types.types,
        &b_subst.types.types,
    )?;
    let selfs = relate_type_params(
        relation,
        type_variances_of(variances, ParamSpace::SelfSpace),
        &a_subst.types.selfs,
        &b_subst.types.selfs,
    )?;
    let fns = relate_type_params(
        relation,
        type_variances_of(variances, ParamSpace::FnSpace),
        &a_subst.types.fns,
        &b_subst.types.fns,
    )?;
    let regions = relate_region_substs(relation, variances, &a_subst.regions, &b_subst.regions)?;
    Ok(Substs { types: PerSpace { types, selfs, fns }, regions })
}

fn relate_region_substs<R: TypeRelation>(
    relation: &R,
    variances: Option<&ItemVariances>,
    a: &RegionSubsts,
    b: &RegionSubsts,
) -> (r: RelateResult<RegionSubsts>)
    ensures
        r == relate_region_substs_spec(*relation, deref_variances(variances), *a, *b),
{
    match (a, b) {
        (RegionSubsts::NonErased(ra), RegionSubsts::NonErased(rb)) => {
            let types = relate_region_params(
                relation,
                region_variances_of(variances, ParamSpace::TypeSpace),
                &ra.types,
                &rb.types,
            )?;
            let selfs = relate_region_params(
                relation,
                region_variances_of(variances, ParamSpace::SelfSpace),
                &ra.selfs,
                &rb.selfs,
            )?;
            let fns = relate_region_params(
                relation,
                region_variances_of(variances, ParamSpace::FnSpace),
                &ra.fns,
                &rb.fns,
            )?;
            Ok(RegionSubsts::NonErased(PerSpace { types, selfs, fns }))
        },
        _ => Ok(RegionSubsts::Erased),
    }
}

fn split_variances(variances: Option<&List<Variance>>) -> (r: (Variance, Option<&List<Variance>>))
    ensures
        r.0 == first_variance(deref_variance_list(variances)),
        deref_variance_list(r.1) == rest_variances(deref_variance_list(variances)),
{
    match variances {
        Some(List::Cons(v, rest)) => (**v, Some(&**rest)),
        _ => (Variance::Invariant, variances),
    }
}

/// Relates the type arguments of one space. Lists of different length fail
/// with both lengths, and no slot is compared.
pub fn relate_type_params<R: TypeRelation>(
    relation: &R,
    variances: Option<&List<Variance>>,
    a_tys: &List<Ty>,
    b_tys: &List<Ty>,
) -> (r: RelateResult<List<Ty>>)
    ensures
        r == relate_type_params_spec(*relation, deref_variance_list(variances), *a_tys, *b_tys),
        a_tys.len() != b_tys.len() ==> r == Err::<List<Ty>, TypeError>(
            TypeError::ParamCount(expected_found_spec(*relation, a_tys.count(), b_tys.count())),
        ),
    decreases a_tys, 1nat,
{
    if !a_tys.same_length(b_tys) {
        return Err(TypeError::ParamCount(lengths(relation, a_tys, b_tys)));
    }
    relate_type_slots(relation, variances, a_tys, b_tys)
}

fn relate_type_slots<R: TypeRelation>(
    relation: &R,
    variances: Option<&List<Variance>>,
    a_tys: &List<Ty>,
    b_tys: &List<Ty>,
) -> (r: RelateResult<List<Ty>>)
    ensures
        r == relate_type_slots_spec(*relation, deref_variance_list(variances), *a_tys, *b_tys),
    decreases a_tys, 0nat,
{
    match (a_tys, b_tys) {
        (List::Cons(x, xs), List::Cons(y, ys)) => {
            let (v, rest) = split_variances(variances);
            let inner = relation.relate_with_variance(v);
            let t = relate_tys(&inner, x, y)?;
            let ts = relate_type_slots(relation, rest, xs, ys)?;
            Ok(List::Cons(Box::new(t), Box::new(ts)))
        },
        _ => Ok(List::Nil),
    }
}

/// Relates the region arguments of one space. Lists of different length fail
/// with both lengths, and no slot is compared.
pub fn relate_region_params<R: TypeRelation>(
    relation: &R,
    variances: Option<&List<Variance>>,
    a_rs: &List<Region>,
    b_rs: &List<Region>,
) -> (r: RelateResult<List<Region>>)
    ensures
        r == relate_region_params_spec(*relation, deref_variance_list(variances), *a_rs, *b_rs),
{
    if !a_rs.same_length(b_rs) {
        return Err(TypeError::ParamCount(lengths(relation, a_rs, b_rs)));
    }
    relate_region_slots(relation, variances, a_rs, b_rs)
}

fn relate_region_slots<R: TypeRelation>(
    relation: &R,
    variances: Option<&List<Variance>>,
    a_rs: &List<Region>,
    b_rs: &List<Region>,
) -> (r: RelateResult<List<Region>>)
    ensures
        r == relate_region_slots_spec(*relation, deref_variance_list(variances), *a_rs, *b_rs),
    decreases a_rs,
{
    match (a_rs, b_rs) {
        (List::Cons(x, xs), List::Cons(y, ys)) => {
            let (v, rest) = split_variances(variances);
            let inner = relation.relate_with_variance(v);
            let r = inner.regions(**x, **y)?;
            let rs = relate_region_slots(relation, rest, xs, ys)?;
            Ok(List::Cons(Box::new(r), Box::new(rs)))
        },
        _ => Ok(List::Nil),
    }
}

/// Relates two unsafety qualifiers.
pub fn relate_unsafety<R: TypeRelation>(relation: &R, a: &Unsafety, b: &Unsafety) -> (r:
    RelateResult<Unsafety>)
    ensures
        r == relate_unsafety_spec(*relation, *a, *b),
{
    if *a != *b {
        Err(TypeError::UnsafetyMismatch(expected_found(relation, a, b)))
    } else {
        Ok(*a)
    }
}

/// Relates two calling conventions.
pub fn relate_abi<R: TypeRelation>(relation: &R, a: &Abi, b: &Abi) -> (r: RelateResult<Abi>)
    ensures
        r == relate_abi_spec(*relation, *a, *b),
{
    if *a == *b {
        Ok(*a)
    } else {
        Err(TypeError::AbiMismatch(expected_found(relation, a, b)))
    }
}

/// Two sets of built-in bounds relate only if they are the same set.
pub fn relate_builtin_bounds<R: TypeRelation>(
    relation: &R,
    a: &BuiltinBounds,
    b: &BuiltinBounds,
) -> (r: RelateResult<BuiltinBounds>)
    ensures
        r == relate_builtin_bounds_spec(*relation, *a, *b),
{
    if *a != *b {
        Err(TypeError::BuiltinBounds(expected_found(relation, a, b)))
    } else {
        Ok(*a)
    }
}

/// Relates two function types.
pub fn relate_bare_fn<R: TypeRelation>(relation: &R, a: &BareFnTy, b: &BareFnTy) -> (r:
    RelateResult<BareFnTy>)
    ensures
        r == relate_bare_fn_spec(*relation, *a, *b),
    decreases a, 0nat,
{
    let unsafety = relate_unsafety(relation, &a.unsafety, &b.unsafety)?;
    let abi = relate_abi(relation, &a.abi, &b.abi)?;
    let sig = relate_poly_fn_sig(relation, &a.sig, &b.sig)?;
    Ok(BareFnTy { unsafety, abi, sig })
}

/// Relates two signatures under their binders. The two go to the strategy
/// as they are; only where it gives no answer are the signatures related
/// part by part, under its strategy for binders.
pub fn relate_poly_fn_sig<R: TypeRelation>(relation: &R, a: &PolyFnSig, b: &PolyFnSig) -> (r:
    RelateResult<PolyFnSig>)
    ensures
        r == relate_poly_fn_sig_spec(*relation, *a, *b),
    decreases a, 0nat,
{
    match relation.fn_sig_binders(a, b) {
        Some(answer) => answer,
        None => {
            let inner = relation.binders();
            let sig = relate_fn_sig(&inner, &a.0, &b.0)?;
            Ok(Binder(sig))
        },
    }
}

fn relate_fn_output<R: TypeRelation>(relation: &R, a: &FnOutput, b: &FnOutput) -> (r: RelateResult<
    FnOutput,
>)
    ensures
        r == relate_fn_output_spec(*relation, *a, *b),
    decreases a, 0nat,
{
    match (a, b) {
        (FnOutput::Converging(a_ty), FnOutput::Converging(b_ty)) => {
            let t = relate_tys(relation, a_ty, b_ty)?;
            Ok(FnOutput::Converging(t))
        },
        (FnOutput::Diverging, FnOutput::Diverging) => Ok(FnOutput::Diverging),
        (FnOutput::Converging(_), FnOutput::Diverging) => Err(
            TypeError::ConvergenceMismatch(expected_found(relation, &true, &false)),
        ),
        (FnOutput::Diverging, FnOutput::Converging(_)) => Err(
            TypeError::ConvergenceMismatch(expected_found(relation, &false, &true)),
        ),
    }
}

/// Relates two signatures. Both must be variadic or neither; the inputs are
/// contravariant; the outputs relate if both functions return or neither.
pub fn relate_fn_sig<R: TypeRelation>(relation: &R, a: &FnSig, b: &FnSig) -> (r: RelateResult<
    FnSig,
>)
    ensures
        r == relate_fn_sig_spec(*relation, *a, *b),
        a.variadic != b.variadic ==> r is Err,
    decreases a, 0nat,
{
    if a.variadic != b.variadic {
        return Err(
            TypeError::VariadicMismatch(expected_found(relation, &a.variadic, &b.variadic)),
        );
    }
    let inputs = relate_arg_vecs(relation, &a.inputs, &b.inputs)?;
    let output = relate_fn_output(relation, &a.output, &b.output)?;
    Ok(FnSig { inputs, output, variadic: a.variadic })
}

/// Relates the inputs of two signatures, contravariantly. Lists of
/// different length fail.
pub fn relate_arg_vecs<R: TypeRelation>(relation: &R, a_args: &List<Ty>, b_args: &List<Ty>) -> (r:
    RelateResult<List<Ty>>)
    ensures
        r == relate_arg_vecs_spec(*relation, *a_args, *b_args),
    decreases a_args, 1nat,
{
    if !a_args.same_length(b_args) {
        return Err(TypeError::ArgCount);
    }
    let inner = relation.relate_with_variance(Variance::Contravariant);
    relate_ty_lists(&inner, a_args, b_args)
}

/// Two references to different traits do not relate.
pub fn relate_trait_ref<R: TypeRelation>(relation: &R, a: &TraitRef, b: &TraitRef) -> (r:
    RelateResult<TraitRef>)
    ensures
        r == relate_trait_ref_spec(*relation, *a, *b),
    decreases a, 0nat,
{
    if a.def_id != b.def_id {
        Err(TypeError::Traits(expected_found(relation, &a.def_id, &b.def_id)))
    } else {
        let substs = relate_item_substs(relation, a.def_id, &a.substs, &b.substs)?;
        Ok(TraitRef { def_id: a.def_id, substs })
    }
}

/// Relates two trait references under their binders. The two go to the
/// strategy as they are; only where it gives no answer are the references
/// related part by part, under its strategy for binders.
pub fn relate_poly_trait_ref<R: TypeRelation>(relation: &R, a: &PolyTraitRef, b: &PolyTraitRef) -> (r:
    RelateResult<PolyTraitRef>)
    ensures
        r == relate_poly_trait_ref_spec(*relation, *a, *b),
    decreases a, 0nat,
{
    match relation.trait_ref_binders(a, b) {
        Some(answer) => answer,
        None => {
            let inner = relation.binders();
            let t = relate_trait_ref(&inner, &a.0, &b.0)?;
            Ok(Binder(t))
        },
    }
}

/// Two projections relate only if they name the same item.
pub fn relate_projection_ty<R: TypeRelation>(relation: &R, a: &ProjectionTy, b: &ProjectionTy) -> (r:
    RelateResult<ProjectionTy>)
    ensures
        r == relate_projection_ty_spec(*relation, *a, *b),
    decreases a, 0nat,
{
    if a.item_name != b.item_name {
        Err(
            TypeError::ProjectionNameMismatched(
                expected_found(relation, &a.item_name, &b.item_name),
            ),
        )
    } else {
        let trait_ref = relate_trait_ref(relation, &a.trait_ref, &b.trait_ref)?;
        Ok(ProjectionTy { trait_ref, item_name: a.item_name })
    }
}

/// Relates two projection predicates.
pub fn relate_projection_predicate<R: TypeRelation>(
    relation: &R,
    a: &ProjectionPredicate,
    b: &ProjectionPredicate,
) -> (r: RelateResult<ProjectionPredicate>)
    ensures
        r == relate_projection_predicate_spec(*relation, *a, *b),
    decreases a, 0nat,
{
    let projection_ty = relate_projection_ty(relation, &a.projection_ty, &b.projection_ty)?;
    let ty = relate_tys(relation, &a.ty, &b.ty)?;
    Ok(ProjectionPredicate { projection_ty, ty })
}

/// Relates two projection predicates under their binders. The two go to the
/// strategy as they are; only where it gives no answer are the predicates
/// related part by part, under its strategy for binders.
pub fn relate_poly_projection_predicate<R: TypeRelation>(
    relation: &R,
    a: &PolyProjectionPredicate,
    b: &PolyProjectionPredicate,
) -> (r: RelateResult<PolyProjectionPredicate>)
    ensures
        r == relate_poly_projection_predicate_spec(*relation, *a, *b),
    decreases a, 0nat,
{
    match relation.projection_binders(a, b) {
        Some(answer) => answer,
        None => {
            let inner = relation.binders();
            let p = relate_projection_predicate(&inner, &a.0, &b.0)?;
            Ok(Binder(p))
        },
    }
}

/// Relates two lists of projection bounds position by position: both are
/// taken to be in the producer's canonical order. Lists of different length
/// fail with both lengths.
pub fn relate_projection_bounds<R: TypeRelation>(
    relation: &R,
    a: &List<PolyProjectionPredicate>,
    b: &List<PolyProjectionPredicate>,
) -> (r: RelateResult<List<PolyProjectionPredicate>>)
    ensures
        r == relate_projection_bounds_spec(*relation, *a, *b),
    decreases a, 1nat,
{
    if !a.same_length(b) {
        Err(TypeError::ProjectionBoundsLength(lengths(relation, a, b)))
    } else {
        relate_projection_pairs(relation, a, b)
    }
}

fn relate_projection_pairs<R: TypeRelation>(
    relation: &R,
    a: &List<PolyProjectionPredicate>,
    b: &List<PolyProjectionPredicate>,
) -> (r: RelateResult<List<PolyProjectionPredicate>>)
    ensures
        r == relate_projection_pairs_spec(*relation, *a, *b),
    decreases a, 0nat,
{
    match (a, b) {
        (List::Cons(x, xs), List::Cons(y, ys)) => {
            let p = relate_poly_projection_predicate(relation, x, y)?;
            let ps = relate_projection_pairs(relation, xs, ys)?;
            Ok(List::Cons(Box::new(p), Box::new(ps)))
        },
        _ => Ok(List::Nil),
    }
}

/// Relates the bounds of two trait objects. The region bound is
/// contravariant. Where the region bounds of both sides are defaults that
/// will change, that of the result is one too, so bounds relate to
/// themselves unchanged.
pub fn relate_existential_bounds<R: TypeRelation>(
    relation: &R,
    a: &ExistentialBounds,
    b: &ExistentialBounds,
) -> (r: RelateResult<ExistentialBounds>)
    ensures
        r == relate_existential_bounds_spec(*relation, *a, *b),
    decreases a, 0nat,
{
    let will_change = relation.will_change(
        a.region_bound_will_change,
        b.region_bound_will_change,
    );
    let with_cause = relation.with_cause(Cause::ExistentialRegionBound(will_change));
    let inner = with_cause.relate_with_variance(Variance::Contravariant);
    let region_bound = inner.regions(a.region_bound, b.region_bound)?;
    let builtin_bounds = relate_builtin_bounds(relation, &a.builtin_bounds, &b.builtin_bounds)?;
    let projection_bounds = relate_projection_bounds(
        relation,
        &a.projection_bounds,
        &b.projection_bounds,
    )?;
    Ok(
        ExistentialBounds {
            region_bound,
            builtin_bounds,
            projection_bounds,
            region_bound_will_change: will_change || (a.region_bound_will_change
                && b.region_bound_will_change),
        },
    )
}

/// Relates two trait objects: the principal trait references, then the
/// bounds.
pub fn relate_trait_ty<R: TypeRelation>(relation: &R, a: &TraitTy, b: &TraitTy) -> (r:
    RelateResult<TraitTy>)
    ensures
        r == relate_trait_ty_spec(*relation, *a, *b),
    decreases a, 0nat,
{
    let principal = relate_poly_trait_ref(relation, &a.principal, &b.principal)?;
    let bounds = relate_existential_bounds(relation, &a.bounds, &b.bounds)?;
    Ok(TraitTy { principal, bounds })
}

fn relate_tuple<R: TypeRelation>(
    relation: &R,
    a: &Ty,
    b: &Ty,
    a_parts: &List<Ty>,
    b_parts: &List<Ty>,
) -> (r: RelateResult<Ty>)
    ensures
        r == relate_tuple_spec(*relation, *a, *b, *a_parts, *b_parts),
    decreases a_parts, 1nat,
{
    if a_parts.same_length(b_parts) {
        let ts = relate_ty_lists(relation, a_parts, b_parts)?;
        Ok(Ty::Tuple(ts))
    } else if !(a_parts.is_empty() || b_parts.is_empty()) {
        Err(TypeError::TupleSize(lengths(relation, a_parts, b_parts)))
    } else {
        sorts(relation, a, b)
    }
}

/// Whether two types without parts are the same type.
fn same_leaf(a: &Ty, b: &Ty) -> (r: bool)
    requires
        a.is_leaf(),
    ensures
        r == (*a == *b),
{
    match (a, b) {
        (Ty::Bool, Ty::Bool) => true,
        (Ty::Char, Ty::Char) => true,
        (Ty::Str, Ty::Str) => true,
        (Ty::Int(x), Ty::Int(y)) => *x == *y,
        (Ty::Uint(x), Ty::Uint(y)) => *x == *y,
        (Ty::Float(x), Ty::Float(y)) => *x == *y,
        _ => false,
    }
}

fn is_leaf(a: &Ty) -> (r: bool)
    ensures
        r == a.is_leaf(),
{
    match a {
        Ty::Bool | Ty::Char | Ty::Str | Ty::Int(_) | Ty::Uint(_) | Ty::Float(_) => true,
        _ => false,
    }
}

fn same_def_id(a: &Option<DefId>, b: &Option<DefId>) -> (r: bool)
    ensures
        r == (*a == *b),
{
    match (a, b) {
        (Some(x), Some(y)) => *x == *y,
        (None, None) => true,
        _ => false,
    }
}

/// Relates two types part by part. It does not handle placeholders: the
/// caller filters them out before.
///
/// Types of the same shape relate if their parts do, and the result is built
/// from the related parts. An error type relates to anything and gives the
/// error type. Nominal types relate only if they name the same item, and
/// generic parameters only if they are the same parameter. Everything else
/// fails as a mismatch of shape that carries both types.
pub fn super_relate_tys<R: TypeRelation>(relation: &R, a: &Ty, b: &Ty) -> (r: RelateResult<Ty>)
    requires
        !(a is Infer),
        !(b is Infer),
    ensures
        r == super_relate_tys_spec(*relation, *a, *b),
    decreases a, 0nat,
{
    if matches!(a, Ty::Error) || matches!(b, Ty::Error) {
        return Ok(Ty::Error);
    }
    if is_leaf(a) {
        return if same_leaf(a, b) {
            Ok(a.clone())
        } else {
            sorts(relation, a, b)
        };
    }
    match (a, b) {
        (Ty::Param(a_p), Ty::Param(b_p)) => {
            if a_p.idx == b_p.idx && a_p.space == b_p.space {
                Ok(Ty::Param(*a_p))
            } else {
                sorts(relation, a, b)
            }
        },
        (Ty::Enum(a_id, a_substs), Ty::Enum(b_id, b_substs)) => {
            if *a_id == *b_id {
                let substs = relate_item_substs(relation, *a_id, a_substs, b_substs)?;
                Ok(Ty::Enum(*a_id, substs))
            } else {
                sorts(relation, a, b)
            }
        },
        (Ty::Trait(a_data), Ty::Trait(b_data)) => {
            let data = relate_trait_ty(relation, a_data, b_data)?;
            Ok(Ty::Trait(Box::new(data)))
        },
        (Ty::Struct(a_id, a_substs), Ty::Struct(b_id, b_substs)) => {
            if *a_id == *b_id {
                let substs = relate_item_substs(relation, *a_id, a_substs, b_substs)?;
                Ok(Ty::Struct(*a_id, substs))
            } else {
                sorts(relation, a, b)
            }
        },
        (Ty::Closure(a_id, a_substs), Ty::Closure(b_id, b_substs)) => {
            if *a_id == *b_id {
                // All closure types with one id are the type of one closure
                // expression, so their arguments are equated.
                let substs = relate_substs(relation, None, a_substs, b_substs)?;
                Ok(Ty::Closure(*a_id, substs))
            } else {
                sorts(relation, a, b)
            }
        },
        (Ty::Uniq(a_inner), Ty::Uniq(b_inner)) => {
            let typ = relate_tys(relation, a_inner, b_inner)?;
            Ok(Ty::Uniq(Box::new(typ)))
        },
        (Ty::RawPtr(a_mt), Ty::RawPtr(b_mt)) => {
            let mt = relate_mt(relation, a_mt, b_mt)?;
            Ok(Ty::RawPtr(mt))
        },
        (Ty::Ref(a_r, a_mt), Ty::Ref(b_r, b_mt)) => {
            if a_mt.mutbl != b_mt.mutbl {
                return Err(TypeError::Mutability);
            }
            let inner = relation.relate_with_variance(Variance::Contravariant);
            let r = inner.regions(*a_r, *b_r)?;
            let mt = relate_mt(relation, a_mt, b_mt)?;
            Ok(Ty::Ref(r, mt))
        },
        (Ty::Array(a_t, sz_a), Ty::Array(b_t, sz_b)) => {
            let t = relate_tys(relation, a_t, b_t)?;
            if *sz_a == *sz_b {
                Ok(Ty::Array(Box::new(t), *sz_a))
            } else {
                Err(TypeError::FixedArraySize(expected_found(relation, sz_a, sz_b)))
            }
        },
        (Ty::Slice(a_t), Ty::Slice(b_t)) => {
            let t = relate_tys(relation, a_t, b_t)?;
            Ok(Ty::Slice(Box::new(t)))
        },
        (Ty::Tuple(a_parts), Ty::Tuple(b_parts)) => relate_tuple(relation, a, b, a_parts, b_parts),
        (Ty::BareFn(a_id, a_fty), Ty::BareFn(b_id, b_fty)) => {
            if same_def_id(a_id, b_id) {
                let fty = relate_bare_fn(relation, a_fty, b_fty)?;
                Ok(Ty::BareFn(*a_id, Box::new(fty)))
            } else {
                sorts(relation, a, b)
            }
        },
        (Ty::Projection(a_data), Ty::Projection(b_data)) => {
            let data = relate_projection_ty(relation, a_data, b_data)?;
            Ok(Ty::Projection(data))
        },
        _ => sorts(relation, a, b),
    }
}

// ---------------------------------------------------------------------------
// The terms that relate
impl<R: TypeRelation> Relate<R> for Ty {
    open spec fn relate_spec(relation: R, a: Self, b: Self) -> RelateResult<Self> {
        relate_tys_spec(relation, a, b)
    }

    fn relate(relation: &R, a: &Self, b: &Self) -> (r: RelateResult<Self>) {
        relate_tys(relation, a, b)
    }
}

impl<R: TypeRelation> Relate<R> for Mt {
    open spec fn relate_spec(relation: R, a: Self, b: Self) -> RelateResult<Self> {
        relate_mt_spec(relation, a, b)
    }

    fn relate(relation: &R, a: &Self, b: &Self) -> (r: RelateResult<Self>) {
        relate_mt(relation, a, b)
    }
}

impl<R: TypeRelation> Relate<R> for BareFnTy {
    open spec fn relate_spec(relation: R, a: Self, b: Self) -> RelateResult<Self> {
        relate_bare_fn_spec(relation, a, b)
    }

    fn relate(relation: &R, a: &Self, b: &Self) -> (r: RelateResult<Self>) {
        relate_bare_fn(relation, a, b)
    }
}

impl<R: TypeRelation> Relate<R> for FnSig {
    open spec fn relate_spec(relation: R, a: Self, b: Self) -> RelateResult<Self> {
        relate_fn_sig_spec(relation, a, b)
    }

    fn relate(relation: &R, a: &Self, b: &Self) -> (r: RelateResult<Self>) {
        relate_fn_sig(relation, a, b)
    }
}

impl<R: TypeRelation> Relate<R> for Unsafety {
    open spec fn relate_spec(relation: R, a: Self, b: Self) -> RelateResult<Self> {
        relate_unsafety_spec(relation, a, b)
    }

    fn relate(relation: &R, a: &Self, b: &Self) -> (r: RelateResult<Self>) {
        relate_unsafety(relation, a, b)
    }
}

impl<R: TypeRelation> Relate<R> for Abi {
    open spec fn relate_spec(relation: R, a: Self, b: Self) -> RelateResult<Self> {
        relate_abi_spec(relation, a, b)
    }

    fn relate(relation: &R, a: &Self, b: &Self) -> (r: RelateResult<Self>) {
        relate_abi(relation, a, b)
    }
}

impl<R: TypeRelation> Relate<R> for ProjectionTy {
    open spec fn relate_spec(relation: R, a: Self, b: Self) -> RelateResult<Self> {
        relate_projection_ty_spec(relation, a, b)
    }

    fn relate(relation: &R, a: &Self, b: &Self) -> (r: RelateResult<Self>) {
        relate_projection_ty(relation, a, b)
    }
}

impl<R: TypeRelation> Relate<R> for ProjectionPredicate {
    open spec fn relate_spec(relation: R, a: Self, b: Self) -> RelateResult<Self> {
        relate_projection_predicate_spec(relation, a, b)
    }

    fn relate(relation: &R, a: &Self, b: &Self) -> (r: RelateResult<Self>) {
        relate_projection_predicate(relation, a, b)
    }
}

impl<R: TypeRelation> Relate<R> for List<PolyProjectionPredicate> {
    open spec fn relate_spec(relation: R, a: Self, b: Self) -> RelateResult<Self> {
        relate_projection_bounds_spec(relation, a, b)
    }

    fn relate(relation: &R, a: &Self, b: &Self) -> (r: RelateResult<Self>) {
        relate_projection_bounds(relation, a, b)
    }
}

impl<R: TypeRelation> Relate<R> for ExistentialBounds {
    open spec fn relate_spec(relation: R, a: Self, b: Self) -> RelateResult<Self> {
        relate_existential_bounds_spec(relation, a, b)
    }

    fn relate(relation: &R, a: &Self, b: &Self) -> (r: RelateResult<Self>) {
        relate_existential_bounds(relation, a, b)
    }
}

impl<R: TypeRelation> Relate<R> for BuiltinBounds {
    open spec fn relate_spec(relation: R, a: Self, b: Self) -> RelateResult<Self> {
        relate_builtin_bounds_spec(relation, a, b)
    }

    fn relate(relation: &R, a: &Self, b: &Self) -> (r: RelateResult<Self>) {
        relate_builtin_bounds(relation, a, b)
    }
}

impl<R: TypeRelation> Relate<R> for TraitRef {
    open spec fn relate_spec(relation: R, a: Self, b: Self) -> RelateResult<Self> {
        relate_trait_ref_spec(relation, a, b)
    }

    fn relate(relation: &R, a: &Self, b: &Self) -> (r: RelateResult<Self>) {
        relate_trait_ref(relation, a, b)
    }
}

impl<R: TypeRelation> Relate<R> for TraitTy {
    open spec fn relate_spec(relation: R, a: Self, b: Self) -> RelateResult<Self> {
        relate_trait_ty_spec(relation, a, b)
    }

    fn relate(relation: &R, a: &Self, b: &Self) -> (r: RelateResult<Self>) {
        relate_trait_ty(relation, a, b)
    }
}

impl<R: TypeRelation> Relate<R> for Binder<FnSig> {
    open spec fn relate_spec(relation: R, a: Self, b: Self) -> RelateResult<Self> {
        relate_poly_fn_sig_spec(relation, a, b)
    }

    fn relate(relation: &R, a: &Self, b: &Self) -> (r: RelateResult<Self>) {
        relate_poly_fn_sig(relation, a, b)
    }
}

impl<R: TypeRelation> Relate<R> for Binder<TraitRef> {
    open spec fn relate_spec(relation: R, a: Self, b: Self) -> RelateResult<Self> {
        relate_poly_trait_ref_spec(relation, a, b)
    }

    fn relate(relation: &R, a: &Self, b: &Self) -> (r: RelateResult<Self>) {
        relate_poly_trait_ref(relation, a, b)
    }
}

impl<R: TypeRelation> Relate<R> for Binder<ProjectionPredicate> {
    open spec fn relate_spec(relation: R, a: Self, b: Self) -> RelateResult<Self> {
        relate_poly_projection_predicate_spec(relation, a, b)
    }

    fn relate(relation: &R, a: &Self, b: &Self) -> (r: RelateResult<Self>) {
        relate_poly_projection_predicate(relation, a, b)
    }
}

impl<R: TypeRelation> Relate<R> for Region {
    open spec fn relate_spec(relation: R, a: Self, b: Self) -> RelateResult<Self> {
        relation.spec_regions(a, b)
    }

    fn relate(relation: &R, a: &Self, b: &Self) -> (r: RelateResult<Self>) {
        relation.regions(*a, *b)
    }
}

/// An owning pointer relates as what it holds, and the result is boxed anew.
impl<R: TypeRelation, T: Relate<R>> Relate<R> for Box<T> {
    open spec fn relate_spec(relation: R, a: Self, b: Self) -> RelateResult<Self> {
        match T::relate_spec(relation, *a, *b) {
            Ok(t) => Ok(Box::new(t)),
            Err(e) => Err(e),
        }
    }

    fn relate(relation: &R, a: &Self, b: &Self) -> (r: RelateResult<Self>) {
        let t = T::relate(relation, &**a, &**b)?;
        Ok(Box::new(t))
    }
}

/// A shared pointer relates as what it holds, and the result is a pointer of
/// its own.
impl<R: TypeRelation, T: Relate<R>> Relate<R> for std::rc::Rc<T> {
    open spec fn relate_spec(relation: R, a: Self, b: Self) -> RelateResult<Self> {
        match T::relate_spec(relation, *a, *b) {
            Ok(t) => Ok(std::rc::Rc::new(t)),
            Err(e) => Err(e),
        }
    }

    fn relate(relation: &R, a: &Self, b: &Self) -> (r: RelateResult<Self>) {
        let t = T::relate(relation, &**a, &**b)?;
        Ok(std::rc::Rc::new(t))
    }
}

} // verus!
