use typeck::combine::{Combine, Outlives};
use typeck::ctxt::{Ctxt, ItemVarianceEntry};
use typeck::list::List;
use typeck::relate::{
    expected_found, expected_found_bool, relate, relate_fn_sig, relate_item_substs,
    relate_projection_bounds, relate_region_params, relate_substs, relate_type_params,
    relate_tys, super_relate_tys, Relate, TypeRelation,
};
use typeck::ty::{
    Abi, BareFnTy, Binder, BuiltinBounds, DefId, ExistentialBounds, ExpectedFound, FnOutput,
    FnSig, IntTy, ItemVariances, Mt, Mutability, ParamSpace, ParamTy, PerSpace,
    ProjectionPredicate, ProjectionTy, Region, RegionSubsts, Substs, TraitRef, TraitTy, Ty,
    TypeError, UintTy, Unsafety, Variance,
};

fn i32_ty() -> Ty {
    Ty::Int(IntTy::I32)
}

fn reference(region: Region, mutbl: Mutability, ty: Ty) -> Ty {
    Ty::Ref(region, Mt { ty: Box::new(ty), mutbl })
}

fn no_regions() -> RegionSubsts {
    RegionSubsts::NonErased(PerSpace { types: List::Nil, selfs: List::Nil, fns: List::Nil })
}

fn substs_of(types: Vec<Ty>) -> Substs {
    Substs {
        types: PerSpace { types: List::from_vec(types), selfs: List::Nil, fns: List::Nil },
        regions: no_regions(),
    }
}

fn item(node: u32) -> DefId {
    DefId { krate: 0, node }
}

fn nominal(node: u32, types: Vec<Ty>) -> Ty {
    Ty::Struct(item(node), substs_of(types))
}

fn variances_of(types: Vec<Variance>) -> ItemVariances {
    ItemVariances {
        types: PerSpace { types: List::from_vec(types), selfs: List::Nil, fns: List::Nil },
        regions: PerSpace { types: List::Nil, selfs: List::Nil, fns: List::Nil },
    }
}

fn ctxt_with(node: u32, types: Vec<Variance>) -> Ctxt {
    let mut tcx = Ctxt::new();
    tcx.variance_computed = true;
    tcx.item_variances = List::from_vec(vec![ItemVarianceEntry {
        def_id: item(node),
        variances: variances_of(types),
    }]);
    tcx
}

fn fn_sig(inputs: Vec<Ty>, output: Ty, variadic: bool) -> FnSig {
    FnSig { inputs: List::from_vec(inputs), output: FnOutput::Converging(output), variadic }
}

fn fn_ty(sig: FnSig) -> Ty {
    Ty::BareFn(
        None,
        Box::new(BareFnTy { unsafety: Unsafety::Normal, abi: Abi::Rust, sig: Binder(sig) }),
    )
}

fn long_ref() -> Ty {
    reference(Region::Static, Mutability::Immutable, i32_ty())
}

fn short_ref() -> Ty {
    reference(Region::Free(1), Mutability::Immutable, i32_ty())
}

#[test]
fn expected_found_bool_orders_the_sides() {
    assert_eq!(
        expected_found_bool(true, &1usize, &2usize),
        ExpectedFound { expected: 1, found: 2 }
    );
    assert_eq!(
        expected_found_bool(false, &1usize, &2usize),
        ExpectedFound { expected: 2, found: 1 }
    );
}

#[test]
fn expected_found_follows_the_relation() {
    let tcx = Ctxt::new();
    let facts: List<Outlives> = List::Nil;
    let mut sub = Combine::sub(&tcx, &facts);
    assert_eq!(expected_found(&sub, &true, &false), ExpectedFound { expected: true, found: false });
    sub.a_is_expected = false;
    assert_eq!(expected_found(&sub, &true, &false), ExpectedFound { expected: false, found: true });
}

#[test]
fn static_reference_is_a_subtype_of_any_reference() {
    let tcx = Ctxt::new();
    let facts: List<Outlives> = List::Nil;
    let sub = Combine::sub(&tcx, &facts);
    assert_eq!(relate_tys(&sub, &long_ref(), &short_ref()), Ok(short_ref()));
    assert_eq!(
        relate_tys(&sub, &short_ref(), &long_ref()),
        Err(TypeError::RegionsDoNotOutlive(ExpectedFound {
            expected: Region::Free(1),
            found: Region::Static
        }))
    );
}

#[test]
fn listed_outlives_facts_are_used() {
    let tcx = Ctxt::new();
    let facts = List::from_vec(vec![Outlives { longer: Region::Free(2), shorter: Region::Free(1) }]);
    let sub = Combine::sub(&tcx, &facts);
    let a = reference(Region::Free(2), Mutability::Immutable, i32_ty());
    assert_eq!(relate_tys(&sub, &a, &short_ref()), Ok(short_ref()));
    assert!(relate_tys(&sub, &short_ref(), &a).is_err());
    assert!(sub.outlives(Region::Free(2), Region::Free(1)));
    assert!(!sub.outlives(Region::Free(1), Region::Free(2)));
}

#[test]
fn every_term_relates_to_itself() {
    let tcx = Ctxt::new();
    let facts: List<Outlives> = List::Nil;
    let sub = Combine::sub(&tcx, &facts);
    let equate = Combine::equate(&tcx, &facts);
    let terms = vec![
        Ty::Bool,
        Ty::Str,
        Ty::Tuple(List::Nil),
        Ty::Tuple(List::from_vec(vec![i32_ty(), Ty::Char])),
        short_ref(),
        nominal(7, vec![short_ref(), Ty::Uint(UintTy::U8)]),
        Ty::Array(Box::new(i32_ty()), 4),
        fn_ty(fn_sig(vec![short_ref()], Ty::Bool, false)),
        Ty::Param(ParamTy { space: ParamSpace::TypeSpace, idx: 0 }),
        Ty::Error,
    ];
    for t in terms.iter() {
        assert_eq!(relate_tys(&sub, t, t), Ok(t.clone()));
        assert_eq!(relate_tys(&equate, t, t), Ok(t.clone()));
        assert_eq!(super_relate_tys(&sub, t, t), Ok(t.clone()));
    }
}

#[test]
fn equality_asks_for_the_same_region() {
    let tcx = Ctxt::new();
    let facts: List<Outlives> = List::Nil;
    let equate = Combine::equate(&tcx, &facts);
    assert_eq!(
        relate_tys(&equate, &long_ref(), &short_ref()),
        Err(TypeError::RegionsNotSame(ExpectedFound {
            expected: Region::Static,
            found: Region::Free(1)
        }))
    );
}

#[test]
fn covariant_slot_follows_subtyping() {
    let tcx = ctxt_with(7, vec![Variance::Covariant]);
    let facts: List<Outlives> = List::Nil;
    let sub = Combine::sub(&tcx, &facts);
    let a = nominal(7, vec![long_ref()]);
    let b = nominal(7, vec![short_ref()]);
    assert_eq!(relate_tys(&sub, &a, &b), Ok(b.clone()));
    assert!(relate_tys(&sub, &b, &a).is_err());
}

#[test]
fn contravariant_slot_reverses_subtyping() {
    let tcx = ctxt_with(7, vec![Variance::Contravariant]);
    let facts: List<Outlives> = List::Nil;
    let sub = Combine::sub(&tcx, &facts);
    let a = nominal(7, vec![long_ref()]);
    let b = nominal(7, vec![short_ref()]);
    assert!(relate_tys(&sub, &a, &b).is_err());
    assert_eq!(relate_tys(&sub, &b, &a), Ok(b.clone()));
}

#[test]
fn invariant_slot_asks_for_equality() {
    let tcx = ctxt_with(7, vec![Variance::Invariant]);
    let facts: List<Outlives> = List::Nil;
    let sub = Combine::sub(&tcx, &facts);
    let a = nominal(7, vec![long_ref()]);
    let b = nominal(7, vec![short_ref()]);
    assert!(relate_tys(&sub, &a, &b).is_err());
    assert!(relate_tys(&sub, &b, &a).is_err());
    assert_eq!(relate_tys(&sub, &a, &a), Ok(a.clone()));
}

#[test]
fn slots_are_invariant_until_variances_are_computed() {
    let mut tcx = ctxt_with(7, vec![Variance::Covariant]);
    tcx.variance_computed = false;
    let facts: List<Outlives> = List::Nil;
    let sub = Combine::sub(&tcx, &facts);
    let a = nominal(7, vec![long_ref()]);
    let b = nominal(7, vec![short_ref()]);
    assert!(relate_tys(&sub, &a, &b).is_err());
}

#[test]
fn bivariant_slot_asks_nothing_of_regions() {
    let tcx = ctxt_with(7, vec![Variance::Bivariant]);
    let facts: List<Outlives> = List::Nil;
    let sub = Combine::sub(&tcx, &facts);
    let a = nominal(7, vec![long_ref()]);
    let b = nominal(7, vec![short_ref()]);
    assert!(relate_tys(&sub, &a, &b).is_ok());
    assert!(relate_tys(&sub, &b, &a).is_ok());
}

#[test]
fn mutable_pointee_is_invariant() {
    let tcx = Ctxt::new();
    let facts: List<Outlives> = List::Nil;
    let sub = Combine::sub(&tcx, &facts);
    let a = reference(Region::Static, Mutability::Mutable, long_ref());
    let b = reference(Region::Static, Mutability::Mutable, short_ref());
    assert!(relate_tys(&sub, &a, &b).is_err());
    assert_eq!(relate_tys(&sub, &a, &a), Ok(a.clone()));
    let c = reference(Region::Static, Mutability::Immutable, long_ref());
    let d = reference(Region::Static, Mutability::Immutable, short_ref());
    assert_eq!(relate_tys(&sub, &c, &d), Ok(d.clone()));
}

#[test]
fn mutability_must_match() {
    let tcx = Ctxt::new();
    let facts: List<Outlives> = List::Nil;
    let sub = Combine::sub(&tcx, &facts);
    let a = reference(Region::Static, Mutability::Mutable, i32_ty());
    let b = reference(Region::Static, Mutability::Immutable, i32_ty());
    assert_eq!(relate_tys(&sub, &a, &b), Err(TypeError::Mutability));
    let ma = Mt { ty: Box::new(i32_ty()), mutbl: Mutability::Mutable };
    let mb = Mt { ty: Box::new(i32_ty()), mutbl: Mutability::Immutable };
    assert_eq!(<Mt as Relate<Combine>>::relate(&sub, &ma, &mb), Err(TypeError::Mutability));
    assert_eq!(Ty::RawPtr(ma.clone()), Ty::RawPtr(ma.clone()));
    assert_eq!(
        relate_tys(&sub, &Ty::RawPtr(ma), &Ty::RawPtr(mb)),
        Err(TypeError::Mutability)
    );
}

#[test]
fn mutability_is_compared_before_regions_and_pointees() {
    let tcx = Ctxt::new();
    let facts: List<Outlives> = List::Nil;
    let sub = Combine::sub(&tcx, &facts);
    // the regions do not relate, and the pointees do not either
    let a = reference(Region::Free(1), Mutability::Mutable, i32_ty());
    let b = reference(Region::Static, Mutability::Immutable, Ty::Bool);
    assert!(relate_tys(&sub, &reference(Region::Free(1), Mutability::Mutable, i32_ty()),
        &reference(Region::Static, Mutability::Mutable, i32_ty())).is_err());
    assert_eq!(relate_tys(&sub, &a, &b), Err(TypeError::Mutability));
    assert_eq!(super_relate_tys(&sub, &a, &b), Err(TypeError::Mutability));
    assert_eq!(relate_tys(&sub, &b, &a), Err(TypeError::Mutability));
}

#[test]
fn function_inputs_are_contravariant() {
    let tcx = Ctxt::new();
    let facts: List<Outlives> = List::Nil;
    let sub = Combine::sub(&tcx, &facts);
    // short_ref is a supertype of long_ref
    let takes_super = fn_sig(vec![short_ref()], Ty::Bool, false);
    let takes_sub = fn_sig(vec![long_ref()], Ty::Bool, false);
    assert_eq!(
        relate_fn_sig(&sub, &takes_super, &takes_sub),
        Ok(fn_sig(vec![short_ref()], Ty::Bool, false))
    );
    assert!(relate_fn_sig(&sub, &takes_sub, &takes_super).is_err());
    assert!(relate_tys(&sub, &fn_ty(fn_sig(vec![short_ref()], Ty::Bool, false)),
        &fn_ty(fn_sig(vec![long_ref()], Ty::Bool, false))).is_ok());
}

#[test]
fn function_outputs_are_covariant() {
    let tcx = Ctxt::new();
    let facts: List<Outlives> = List::Nil;
    let sub = Combine::sub(&tcx, &facts);
    let a = fn_sig(vec![], long_ref(), false);
    let b = fn_sig(vec![], short_ref(), false);
    assert!(relate_fn_sig(&sub, &a, &b).is_ok());
    assert!(relate_fn_sig(&sub, &b, &a).is_err());
}

#[test]
fn variadic_flags_must_match() {
    let tcx = Ctxt::new();
    let facts: List<Outlives> = List::Nil;
    let sub = Combine::sub(&tcx, &facts);
    let a = fn_sig(vec![i32_ty()], Ty::Bool, true);
    let b = fn_sig(vec![i32_ty()], Ty::Bool, false);
    assert_eq!(
        relate_fn_sig(&sub, &a, &b),
        Err(TypeError::VariadicMismatch(ExpectedFound { expected: true, found: false }))
    );
}

#[test]
fn argument_counts_must_match() {
    let tcx = Ctxt::new();
    let facts: List<Outlives> = List::Nil;
    let sub = Combine::sub(&tcx, &facts);
    let a = fn_sig(vec![i32_ty()], Ty::Bool, false);
    let b = fn_sig(vec![i32_ty(), i32_ty()], Ty::Bool, false);
    assert_eq!(relate_fn_sig(&sub, &a, &b), Err(TypeError::ArgCount));
}

#[test]
fn convergence_must_match() {
    let tcx = Ctxt::new();
    let facts: List<Outlives> = List::Nil;
    let sub = Combine::sub(&tcx, &facts);
    let a = fn_sig(vec![], Ty::Bool, false);
    let b = FnSig { inputs: List::Nil, output: FnOutput::Diverging, variadic: false };
    assert_eq!(
        relate_fn_sig(&sub, &a, &b),
        Err(TypeError::ConvergenceMismatch(ExpectedFound { expected: true, found: false }))
    );
    assert_eq!(relate_fn_sig(&sub, &b, &b), Ok(FnSig {
        inputs: List::Nil,
        output: FnOutput::Diverging,
        variadic: false
    }));
}

#[test]
fn unsafety_and_abi_must_match() {
    let tcx = Ctxt::new();
    let facts: List<Outlives> = List::Nil;
    let sub = Combine::sub(&tcx, &facts);
    let sig = || Binder(fn_sig(vec![], Ty::Bool, false));
    let safe = BareFnTy { unsafety: Unsafety::Normal, abi: Abi::Rust, sig: sig() };
    let not_safe = BareFnTy { unsafety: Unsafety::Unsafe, abi: Abi::Rust, sig: sig() };
    let c = BareFnTy { unsafety: Unsafety::Normal, abi: Abi::C, sig: sig() };
    assert_eq!(
        <BareFnTy as Relate<Combine>>::relate(&sub, &safe, &not_safe),
        Err(TypeError::UnsafetyMismatch(ExpectedFound {
            expected: Unsafety::Normal,
            found: Unsafety::Unsafe
        }))
    );
    assert_eq!(
        <BareFnTy as Relate<Combine>>::relate(&sub, &safe, &c),
        Err(TypeError::AbiMismatch(ExpectedFound { expected: Abi::Rust, found: Abi::C }))
    );
}

#[test]
fn slot_count_mismatch_fails_with_both_lengths() {
    let tcx = Ctxt::new();
    let facts: List<Outlives> = List::Nil;
    let sub = Combine::sub(&tcx, &facts);
    let a = List::from_vec(vec![i32_ty(), Ty::Bool]);
    // the first slots would not relate either; the lengths are reported
    let b = List::from_vec(vec![Ty::Char]);
    assert_eq!(
        relate_type_params(&sub, None, &a, &b),
        Err(TypeError::ParamCount(ExpectedFound { expected: 2, found: 1 }))
    );
    let ra = List::from_vec(vec![Region::Static]);
    let rb: List<Region> = List::Nil;
    assert_eq!(
        relate_region_params(&sub, None, &ra, &rb),
        Err(TypeError::ParamCount(ExpectedFound { expected: 1, found: 0 }))
    );
    assert_eq!(
        relate_item_substs(&sub, item(7), &substs_of(vec![i32_ty()]), &substs_of(vec![])),
        Err(TypeError::ParamCount(ExpectedFound { expected: 1, found: 0 }))
    );
    assert_eq!(
        relate_tys(&sub, &nominal(7, vec![i32_ty()]), &nominal(7, vec![i32_ty(), i32_ty()])),
        Err(TypeError::ParamCount(ExpectedFound { expected: 1, found: 2 }))
    );
}

#[test]
fn slot_counts_of_all_spaces_are_compared_before_any_slot() {
    let tcx = Ctxt::new();
    let facts: List<Outlives> = List::Nil;
    let sub = Combine::sub(&tcx, &facts);
    let with = |types: Vec<Ty>, fns: Vec<Ty>, regions: RegionSubsts| Substs {
        types: PerSpace { types: List::from_vec(types), selfs: List::Nil, fns: List::from_vec(fns) },
        regions,
    };
    // the types of the first space do not relate; the last space differs in length
    let a = with(vec![i32_ty()], vec![Ty::Bool, Ty::Bool], no_regions());
    let b = with(vec![Ty::Char], vec![Ty::Bool], no_regions());
    assert!(relate_substs(&sub, None, &with(vec![i32_ty()], vec![], no_regions()),
        &with(vec![Ty::Char], vec![], no_regions())).is_err());
    assert_eq!(
        relate_substs(&sub, None, &a, &b),
        Err(TypeError::ParamCount(ExpectedFound { expected: 2, found: 1 }))
    );
    assert_eq!(
        relate_item_substs(&sub, item(7), &a, &b),
        Err(TypeError::ParamCount(ExpectedFound { expected: 2, found: 1 }))
    );
    // the same for the regions
    let regions = |rs: Vec<Region>| RegionSubsts::NonErased(PerSpace {
        types: List::from_vec(rs),
        selfs: List::Nil,
        fns: List::Nil,
    });
    let a = with(vec![i32_ty()], vec![], regions(vec![Region::Static]));
    let b = with(vec![Ty::Char], vec![], regions(vec![]));
    assert_eq!(
        relate_substs(&sub, None, &a, &b),
        Err(TypeError::ParamCount(ExpectedFound { expected: 1, found: 0 }))
    );
    // erased regions have no length to compare
    let b = with(vec![Ty::Char], vec![], RegionSubsts::Erased);
    assert_eq!(
        relate_substs(&sub, None, &a, &b),
        Err(TypeError::Sorts(ExpectedFound { expected: i32_ty(), found: Ty::Char }))
    );
}

#[test]
fn erased_regions_win() {
    let tcx = Ctxt::new();
    let facts: List<Outlives> = List::Nil;
    let sub = Combine::sub(&tcx, &facts);
    let erased = Substs {
        types: PerSpace { types: List::Nil, selfs: List::Nil, fns: List::Nil },
        regions: RegionSubsts::Erased,
    };
    let kept = Substs {
        types: PerSpace { types: List::Nil, selfs: List::Nil, fns: List::Nil },
        regions: RegionSubsts::NonErased(PerSpace {
            types: List::from_vec(vec![Region::Static]),
            selfs: List::Nil,
            fns: List::Nil,
        }),
    };
    assert_eq!(relate_substs(&sub, None, &erased, &kept).map(|s| s.regions), Ok(RegionSubsts::Erased));
    assert_eq!(relate_substs(&sub, None, &kept, &erased).map(|s| s.regions), Ok(RegionSubsts::Erased));
}

#[test]
fn nominal_types_relate_only_to_themselves() {
    let tcx = Ctxt::new();
    let facts: List<Outlives> = List::Nil;
    let sub = Combine::sub(&tcx, &facts);
    let a = nominal(7, vec![]);
    let b = nominal(8, vec![]);
    assert_eq!(
        relate_tys(&sub, &a, &b),
        Err(TypeError::Sorts(ExpectedFound { expected: a.clone(), found: b.clone() }))
    );
    let e = Ty::Enum(item(7), substs_of(vec![]));
    assert_eq!(
        relate_tys(&sub, &a, &e),
        Err(TypeError::Sorts(ExpectedFound { expected: a.clone(), found: e.clone() }))
    );
    assert_eq!(
        relate_tys(&sub, &Ty::Bool, &Ty::Char),
        Err(TypeError::Sorts(ExpectedFound { expected: Ty::Bool, found: Ty::Char }))
    );
}

#[test]
fn generic_parameters_relate_only_to_themselves() {
    let tcx = Ctxt::new();
    let facts: List<Outlives> = List::Nil;
    let sub = Combine::sub(&tcx, &facts);
    let t0 = Ty::Param(ParamTy { space: ParamSpace::TypeSpace, idx: 0 });
    let t1 = Ty::Param(ParamTy { space: ParamSpace::TypeSpace, idx: 1 });
    let f0 = Ty::Param(ParamTy { space: ParamSpace::FnSpace, idx: 0 });
    assert_eq!(relate_tys(&sub, &t0, &t0), Ok(t0.clone()));
    assert!(relate_tys(&sub, &t0, &t1).is_err());
    assert!(relate_tys(&sub, &t0, &f0).is_err());
}

#[test]
fn tuples_and_arrays() {
    let tcx = Ctxt::new();
    let facts: List<Outlives> = List::Nil;
    let sub = Combine::sub(&tcx, &facts);
    let two = Ty::Tuple(List::from_vec(vec![i32_ty(), Ty::Bool]));
    let three = Ty::Tuple(List::from_vec(vec![i32_ty(), Ty::Bool, Ty::Char]));
    let unit = Ty::Tuple(List::Nil);
    assert_eq!(
        relate_tys(&sub, &two, &three),
        Err(TypeError::TupleSize(ExpectedFound { expected: 2, found: 3 }))
    );
    assert_eq!(
        relate_tys(&sub, &two, &unit),
        Err(TypeError::Sorts(ExpectedFound { expected: two.clone(), found: unit.clone() }))
    );
    let a4 = Ty::Array(Box::new(i32_ty()), 4);
    let a5 = Ty::Array(Box::new(i32_ty()), 5);
    assert_eq!(
        relate_tys(&sub, &a4, &a5),
        Err(TypeError::FixedArraySize(ExpectedFound { expected: 4, found: 5 }))
    );
    let slice = Ty::Slice(Box::new(long_ref()));
    assert_eq!(relate_tys(&sub, &slice, &Ty::Slice(Box::new(short_ref()))),
        Ok(Ty::Slice(Box::new(short_ref()))));
    let boxed = Ty::Uniq(Box::new(long_ref()));
    assert_eq!(relate_tys(&sub, &boxed, &Ty::Uniq(Box::new(short_ref()))),
        Ok(Ty::Uniq(Box::new(short_ref()))));
}

#[test]
fn error_type_relates_to_anything() {
    let tcx = Ctxt::new();
    let facts: List<Outlives> = List::Nil;
    let sub = Combine::sub(&tcx, &facts);
    assert_eq!(relate_tys(&sub, &Ty::Error, &i32_ty()), Ok(Ty::Error));
    assert_eq!(relate_tys(&sub, &nominal(7, vec![]), &Ty::Error), Ok(Ty::Error));
}

#[test]
fn placeholder_gives_way() {
    let tcx = Ctxt::new();
    let facts: List<Outlives> = List::Nil;
    let sub = Combine::sub(&tcx, &facts);
    assert_eq!(relate_tys(&sub, &Ty::Infer(0), &i32_ty()), Ok(i32_ty()));
    assert_eq!(relate_tys(&sub, &i32_ty(), &Ty::Infer(0)), Ok(i32_ty()));
    assert_eq!(sub.tys(&i32_ty(), &Ty::Bool), None);
    assert_eq!(
        relate_tys(&sub, &nominal(7, vec![Ty::Infer(3)]), &nominal(7, vec![Ty::Bool])),
        Ok(nominal(7, vec![Ty::Bool]))
    );
}

fn object(trait_node: u32, region: Region, will_change: bool, bounds: Vec<(u32, Ty)>) -> Ty {
    let principal = TraitRef { def_id: item(trait_node), substs: substs_of(vec![]) };
    let projection_bounds = bounds
        .into_iter()
        .map(|(name, ty)| {
            Binder(ProjectionPredicate {
                projection_ty: ProjectionTy {
                    trait_ref: TraitRef { def_id: item(trait_node), substs: substs_of(vec![]) },
                    item_name: name,
                },
                ty,
            })
        })
        .collect::<Vec<_>>();
    Ty::Trait(Box::new(TraitTy {
        principal: Binder(principal),
        bounds: ExistentialBounds {
            region_bound: region,
            builtin_bounds: BuiltinBounds { send: true, sized: false, copy: false, sync: false },
            projection_bounds: List::from_vec(projection_bounds),
            region_bound_will_change: will_change,
        },
    }))
}

#[test]
fn trait_objects() {
    let tcx = Ctxt::new();
    let facts: List<Outlives> = List::Nil;
    let sub = Combine::sub(&tcx, &facts);
    let a = object(20, Region::Static, false, vec![(1, i32_ty())]);
    assert_eq!(relate_tys(&sub, &a, &a), Ok(a.clone()));
    let other_trait = object(21, Region::Static, false, vec![(1, i32_ty())]);
    assert_eq!(
        relate_tys(&sub, &a, &other_trait),
        Err(TypeError::Traits(ExpectedFound { expected: item(20), found: item(21) }))
    );
    let other_name = object(20, Region::Static, false, vec![(2, i32_ty())]);
    assert_eq!(
        relate_tys(&sub, &a, &other_name),
        Err(TypeError::ProjectionNameMismatched(ExpectedFound { expected: 1, found: 2 }))
    );
    let more = object(20, Region::Static, false, vec![(1, i32_ty()), (2, i32_ty())]);
    assert_eq!(
        relate_tys(&sub, &a, &more),
        Err(TypeError::ProjectionBoundsLength(ExpectedFound { expected: 1, found: 2 }))
    );
    // the region bound is contravariant: an object that lives long is a
    // subtype of one that lives shorter
    let short = object(20, Region::Free(1), false, vec![(1, i32_ty())]);
    assert_eq!(relate_tys(&sub, &a, &short), Ok(short.clone()));
    assert!(relate_tys(&sub, &short, &a).is_err());
}

#[test]
fn builtin_bounds_must_be_the_same_set() {
    let tcx = Ctxt::new();
    let facts: List<Outlives> = List::Nil;
    let sub = Combine::sub(&tcx, &facts);
    let a = BuiltinBounds { send: true, sized: false, copy: false, sync: false };
    let b = BuiltinBounds { send: true, sized: false, copy: false, sync: true };
    assert_eq!(
        <BuiltinBounds as Relate<Combine>>::relate(&sub, &a, &b),
        Err(TypeError::BuiltinBounds(ExpectedFound { expected: a, found: b }))
    );
    assert_eq!(<BuiltinBounds as Relate<Combine>>::relate(&sub, &a, &a), Ok(a));
}

#[test]
fn defaulted_region_bound_is_recorded() {
    let tcx = Ctxt::new();
    let facts: List<Outlives> = List::Nil;
    let sub = Combine::sub(&tcx, &facts);
    let written = object(20, Region::Static, false, vec![]);
    let defaulted = object(20, Region::Static, true, vec![]);
    // a default on the second side may change the outcome of subtyping
    assert_eq!(relate_tys(&sub, &written, &defaulted), Ok(defaulted.clone()));
    // one on the first side does not
    assert_eq!(relate_tys(&sub, &defaulted, &written), Ok(written.clone()));
    assert!(sub.will_change(false, true));
    assert!(!sub.will_change(true, false));
    let equate = Combine::equate(&tcx, &facts);
    assert!(equate.will_change(true, false));
    assert_eq!(relate_tys(&equate, &defaulted, &defaulted), Ok(defaulted.clone()));
}

#[test]
fn defaulted_bound_on_both_sides_stays() {
    let tcx = Ctxt::new();
    let facts: List<Outlives> = List::Nil;
    let defaulted = object(20, Region::Static, true, vec![]);
    let written = object(20, Region::Static, false, vec![]);
    for relation in [
        Combine::sub(&tcx, &facts),
        Combine::equate(&tcx, &facts),
        Combine::sub(&tcx, &facts).relate_with_variance(Variance::Contravariant),
        Combine::sub(&tcx, &facts).relate_with_variance(Variance::Bivariant),
    ] {
        assert_eq!(relate_tys(&relation, &defaulted, &defaulted), Ok(defaulted.clone()));
        assert_eq!(super_relate_tys(&relation, &defaulted, &defaulted), Ok(defaulted.clone()));
        assert_eq!(relate_tys(&relation, &written, &written), Ok(written.clone()));
    }
}

#[test]
fn projection_bounds_compare_by_position() {
    let tcx = Ctxt::new();
    let facts: List<Outlives> = List::Nil;
    let sub = Combine::sub(&tcx, &facts);
    let bound = |name: u32| {
        Binder(ProjectionPredicate {
            projection_ty: ProjectionTy {
                trait_ref: TraitRef { def_id: item(20), substs: substs_of(vec![]) },
                item_name: name,
            },
            ty: Ty::Bool,
        })
    };
    let ab = List::from_vec(vec![bound(1), bound(2)]);
    let ba = List::from_vec(vec![bound(2), bound(1)]);
    assert!(relate_projection_bounds(&sub, &ab, &ab).is_ok());
    assert_eq!(
        relate_projection_bounds(&sub, &ab, &ba),
        Err(TypeError::ProjectionNameMismatched(ExpectedFound { expected: 1, found: 2 }))
    );
}

#[test]
fn relation_names() {
    let tcx = Ctxt::new();
    let facts: List<Outlives> = List::Nil;
    let sub = Combine::sub(&tcx, &facts);
    assert_eq!(sub.tag(), "Sub");
    assert_eq!(Combine::equate(&tcx, &facts).tag(), "Equate");
    assert_eq!(sub.relate_with_variance(Variance::Contravariant).tag(), "Sup");
    assert_eq!(sub.relate_with_variance(Variance::Invariant).tag(), "Equate");
    assert_eq!(sub.relate_with_variance(Variance::Bivariant).tag(), "Bivariate");
    assert_eq!(
        sub.relate_with_variance(Variance::Contravariant)
            .relate_with_variance(Variance::Contravariant)
            .tag(),
        "Sub"
    );
    assert!(sub.a_is_expected());
    assert!(!sub.tcx().variance_computed);
}

#[test]
fn list_round_trip() {
    let l = List::from_vec(vec![1u32, 2, 3]);
    assert_eq!(l.length(), 3);
    assert_eq!(l.get(0), Some(&1));
    assert_eq!(l.get(2), Some(&3));
    assert_eq!(l.get(3), None);
    assert!(!l.is_empty());
    assert!(l.same_length(&List::from_vec(vec![true, false, true])));
    assert_eq!(
        List::from_vec(vec![1u32]).append(List::from_vec(vec![2, 3])),
        List::from_vec(vec![1, 2, 3])
    );
    assert_eq!(List::cons(1u32, List::new()), List::from_vec(vec![1]));
}

#[test]
fn any_kind_of_term_relates() {
    let tcx = Ctxt::new();
    let facts: List<Outlives> = List::Nil;
    let sub = Combine::sub(&tcx, &facts);
    assert_eq!(relate(&sub, &long_ref(), &short_ref()), Ok(short_ref()));
    assert_eq!(relate(&sub, &Region::Free(1), &Region::Static), Ok(Region::Free(1)));
    assert!(relate(&sub, &Region::Static, &Region::Free(1)).is_err());
    assert_eq!(
        relate(&sub, &Box::new(long_ref()), &Box::new(short_ref())),
        Ok(Box::new(short_ref()))
    );
    assert_eq!(
        relate(&sub, &std::rc::Rc::new(long_ref()), &std::rc::Rc::new(short_ref())),
        Ok(std::rc::Rc::new(short_ref()))
    );
    assert_eq!(relate(&sub, &Unsafety::Normal, &Unsafety::Normal), Ok(Unsafety::Normal));
    assert_eq!(relate(&sub, &Abi::C, &Abi::C), Ok(Abi::C));
    let tr = TraitRef { def_id: item(20), substs: substs_of(vec![long_ref()]) };
    let other = TraitRef { def_id: item(20), substs: substs_of(vec![short_ref()]) };
    // the arguments of a trait are invariant while no variances are known
    assert!(relate(&sub, &tr, &other).is_err());
    assert_eq!(
        relate(&sub, &Binder(tr), &Binder(TraitRef { def_id: item(20), substs: substs_of(vec![long_ref()]) })),
        Ok(Binder(TraitRef { def_id: item(20), substs: substs_of(vec![long_ref()]) }))
    );
    let sig = Binder(fn_sig(vec![short_ref()], long_ref(), false));
    assert_eq!(
        relate(&sub, &sig, &Binder(fn_sig(vec![long_ref()], short_ref(), false))),
        Ok(Binder(fn_sig(vec![short_ref()], short_ref(), false)))
    );
}
