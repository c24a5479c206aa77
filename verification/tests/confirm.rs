use typeck::adjust::{adjust_ty, autoderef, deref};
use typeck::ast::{Expr, ExprKind, UnOp};
use typeck::combine::{Combine, Outlives};
use typeck::confirm::{
    confirm, AwaitingNormalization, Bug, ConfirmContext, Confirmed, Confirming, Fatal,
};
use typeck::fixup::{autoderef_fixup, place_fixup, takes_mut_receiver, Fixup};
use typeck::ctxt::{Ctxt, Generics, ImplDef, TraitDef};
use typeck::infer::InferCtxt;
use typeck::list::List;
use typeck::probe::{Container, Method, Pick, PickKind};
use typeck::tables::{
    clone_predicates, AutoAdjustment, AutoDerefRef, AutoRef, Diagnostic, FnCtxt, MethodCall, MethodCallee,
    MethodObject, MethodOrigin, MethodParam, Obligation, ObligationCause, Predicate,
};
use typeck::ty::{
    Abi, BareFnTy, Binder, BuiltinBounds, DefId, ExistentialBounds, FnOutput, FnSig, IntTy, Mt,
    Mutability, ParamSpace, ParamTy, PerSpace, Region, RegionSubsts, Span, Substs, TraitRef,
    TraitTy, Ty, TypeError, ExpectedFound, Unsafety,
};

const WIDGET: u32 = 100;
const WIDGET_IMPL: u32 = 101;
const GET: u32 = 102;
const DRAWABLE: u32 = 200;
const DRAW: u32 = 201;
const DROP: u32 = 300;

fn item(node: u32) -> DefId {
    DefId { krate: 0, node }
}

fn span() -> Span {
    Span { lo: 5, hi: 9 }
}

fn path(id: u32) -> Expr {
    Expr { id, span: Span { lo: id, hi: id + 1 }, node: ExprKind::Path }
}

fn empty_substs() -> Substs {
    Substs {
        types: PerSpace { types: List::Nil, selfs: List::Nil, fns: List::Nil },
        regions: RegionSubsts::NonErased(PerSpace {
            types: List::Nil,
            selfs: List::Nil,
            fns: List::Nil,
        }),
    }
}

fn widget() -> Ty {
    Ty::Struct(item(WIDGET), empty_substs())
}

fn i32_ty() -> Ty {
    Ty::Int(IntTy::I32)
}

fn reference(region: Region, mutbl: Mutability, ty: Ty) -> Ty {
    Ty::Ref(region, Mt { ty: Box::new(ty), mutbl })
}

fn sig(inputs: Vec<Ty>, output: Ty) -> FnSig {
    FnSig { inputs: List::from_vec(inputs), output: FnOutput::Converging(output), variadic: false }
}

fn fn_of(sig: FnSig) -> BareFnTy {
    BareFnTy { unsafety: Unsafety::Normal, abi: Abi::Rust, sig: Binder(sig) }
}

/// `fn get(&self) -> i32` of the inherent impl of `Widget`.
fn widget_get(self_mutbl: Mutability) -> Method {
    Method {
        def_id: item(GET),
        container: Container::Impl(item(WIDGET_IMPL)),
        type_params: 0,
        region_params: 0,
        predicates: List::Nil,
        fty: fn_of(sig(vec![reference(Region::LateBound(1, 0), self_mutbl, widget())], i32_ty())),
    }
}

fn widget_ctxt() -> Ctxt {
    let mut tcx = Ctxt::new();
    tcx.impls = List::from_vec(vec![ImplDef {
        def_id: item(WIDGET_IMPL),
        generics: Generics { types: 0, regions: 0 },
        trait_ref: None,
    }]);
    tcx.drop_trait = Some(item(DROP));
    tcx
}

fn widget_pick() -> Pick {
    Pick {
        item: widget_get(Mutability::Immutable),
        kind: PickKind::InherentImpl(item(WIDGET_IMPL)),
        autoderefs: 0,
        autoref: Some(Mutability::Immutable),
        unsize: None,
    }
}

fn normalize(c: Confirming) -> AwaitingNormalization {
    match c {
        Confirming::Normalize(state) => state,
        other => panic!("confirmation asks for something else: {:?}", other),
    }
}

/// finishes with the signature and the bounds as they are: nothing to normalize
fn finish_as_is(
    cx: &ConfirmContext,
    fcx: &mut FnCtxt,
    tcx: &Ctxt,
    state: AwaitingNormalization,
) -> Result<Confirmed, Fatal> {
    let facts: List<Outlives> = List::Nil;
    let sub = Combine::sub(tcx, &facts);
    let method_sig = state.instantiated.method_sig.clone();
    let predicates = clone_predicates(&state.instantiated.method_predicates);
    cx.finish(fcx, &sub, state, method_sig, predicates)
}

#[test]
fn inherent_method_on_widget() {
    let tcx = widget_ctxt();
    let mut fcx = FnCtxt::new(1, 0);
    let mut infcx = InferCtxt::new();
    let self_expr = path(10);
    let call_expr = path(11);
    let cx = ConfirmContext::new(&tcx, span(), &self_expr, &call_expr);

    let confirming = confirm(
        &mut fcx,
        &mut infcx,
        &tcx,
        span(),
        &self_expr,
        &call_expr,
        widget(),
        widget_pick(),
        List::Nil,
    )
    .unwrap();
    let state = normalize(confirming);
    assert_eq!(state.self_ty, reference(Region::Var(0), Mutability::Immutable, widget()));
    assert_eq!(state.origin, MethodOrigin::Static(item(GET)));
    assert_eq!(
        state.instantiated.method_sig,
        sig(vec![reference(Region::Var(1), Mutability::Immutable, widget())], i32_ty())
    );
    assert_eq!(state.instantiated.method_predicates, List::Nil);
    assert_eq!(state.instantiated.all_substs, empty_substs());
    assert_eq!(infcx.next_region_var, 2);
    assert_eq!(infcx.next_ty_var, 0);

    // the adjustment {autoderefs: 0, autoref: &immutable}
    assert_eq!(
        fcx.inh.adjustments.get(&10),
        Some(&AutoAdjustment::DerefRef(AutoDerefRef {
            autoderefs: 0,
            autoref: Some(AutoRef::Ptr(Region::Var(0), Mutability::Immutable)),
            unsize: None,
        }))
    );

    let confirmed = finish_as_is(&cx, &mut fcx, &tcx, state).unwrap();
    // the callee type fn(&Widget) -> i32
    assert_eq!(
        confirmed.callee,
        MethodCallee {
            origin: MethodOrigin::Static(item(GET)),
            ty: Ty::BareFn(
                None,
                Box::new(fn_of(sig(
                    vec![reference(Region::Var(1), Mutability::Immutable, widget())],
                    i32_ty()
                )))
            ),
            substs: empty_substs(),
        }
    );
    assert_eq!(confirmed.self_ty, reference(Region::Var(0), Mutability::Immutable, widget()));
    // zero obligations
    assert_eq!(fcx.obligations.len(), 0);
    assert_eq!(confirmed.fixups, List::Nil);
    assert_eq!(fcx.diagnostics.len(), 0);
}

fn drawable_object() -> Ty {
    Ty::Trait(Box::new(TraitTy {
        principal: Binder(TraitRef { def_id: item(DRAWABLE), substs: empty_substs() }),
        bounds: ExistentialBounds {
            region_bound: Region::Static,
            builtin_bounds: BuiltinBounds { send: false, sized: false, copy: false, sync: false },
            projection_bounds: List::Nil,
            region_bound_will_change: false,
        },
    }))
}

fn drawable_with_self(self_ty: Ty) -> TraitRef {
    TraitRef {
        def_id: item(DRAWABLE),
        substs: Substs {
            types: PerSpace {
                types: List::Nil,
                selfs: List::from_vec(vec![self_ty]),
                fns: List::Nil,
            },
            regions: RegionSubsts::NonErased(PerSpace {
                types: List::Nil,
                selfs: List::Nil,
                fns: List::Nil,
            }),
        },
    }
}

/// `fn draw(&self)` of the trait `Drawable`.
fn draw_method() -> Method {
    Method {
        def_id: item(DRAW),
        container: Container::Trait(item(DRAWABLE)),
        type_params: 0,
        region_params: 0,
        predicates: List::Nil,
        fty: fn_of(sig(
            vec![reference(
                Region::LateBound(1, 0),
                Mutability::Immutable,
                Ty::Param(ParamTy { space: ParamSpace::SelfSpace, idx: 0 }),
            )],
            Ty::Tuple(List::Nil),
        )),
    }
}

fn object_pick() -> Pick {
    Pick {
        item: draw_method(),
        kind: PickKind::Object(item(DRAWABLE), 3, 5),
        autoderefs: 1,
        autoref: Some(Mutability::Immutable),
        unsize: None,
    }
}

fn confirm_object(fcx: &mut FnCtxt, infcx: &mut InferCtxt, tcx: &Ctxt, self_expr: &Expr, call_expr: &Expr) -> Confirming {
    confirm(
        fcx,
        infcx,
        tcx,
        span(),
        self_expr,
        call_expr,
        Ty::Uniq(Box::new(drawable_object())),
        object_pick(),
        List::Nil,
    )
    .unwrap()
}

#[test]
fn trait_object_method_on_box() {
    let tcx = widget_ctxt();
    let mut fcx = FnCtxt::new(1, 0);
    let mut infcx = InferCtxt::new();
    let self_expr = path(10);
    let call_expr = path(11);
    let cx = ConfirmContext::new(&tcx, span(), &self_expr, &call_expr);

    let state = match confirm_object(&mut fcx, &mut infcx, &tcx, &self_expr, &call_expr) {
        Confirming::Upcast(state) => state,
        other => panic!("no upcast asked for: {:?}", other),
    };
    // one auto-deref, then the reference
    assert_eq!(state.self_ty, reference(Region::Var(0), Mutability::Immutable, drawable_object()));
    assert_eq!(state.source, Binder(drawable_with_self(drawable_object())));
    assert_eq!(state.target, item(DRAWABLE));
    assert_eq!(
        fcx.inh.adjustments.get(&10),
        Some(&AutoAdjustment::DerefRef(AutoDerefRef {
            autoderefs: 1,
            autoref: Some(AutoRef::Ptr(Region::Var(0), Mutability::Immutable)),
            unsize: None,
        }))
    );

    let answer = List::from_vec(vec![Binder(drawable_with_self(drawable_object()))]);
    let state = cx.resume_with_upcast(&mut fcx, &mut infcx, state, answer).unwrap();
    assert_eq!(
        state.origin,
        MethodOrigin::TraitObject(MethodObject {
            trait_ref: drawable_with_self(drawable_object()),
            object_trait_id: item(DRAWABLE),
            method_num: 3,
            vtable_index: 5,
        })
    );
    assert_eq!(
        state.instantiated.method_sig,
        sig(
            vec![reference(Region::Var(1), Mutability::Immutable, drawable_object())],
            Ty::Tuple(List::Nil)
        )
    );
    let confirmed = finish_as_is(&cx, &mut fcx, &tcx, state).unwrap();
    assert_eq!(
        confirmed.callee.origin,
        MethodOrigin::TraitObject(MethodObject {
            trait_ref: drawable_with_self(drawable_object()),
            object_trait_id: item(DRAWABLE),
            method_num: 3,
            vtable_index: 5,
        })
    );
    // the object is the one type argument, so it is to outlive the call
    assert_eq!(
        fcx.obligations,
        vec![Obligation {
            cause: ObligationCause { span: call_expr.span, body_id: 1 },
            predicate: Predicate::TypeOutlives(drawable_object(), Region::Scope(11)),
        }]
    );
}

#[test]
fn upcast_must_give_exactly_one_trait() {
    let tcx = widget_ctxt();
    let self_expr = path(10);
    let call_expr = path(11);
    let cx = ConfirmContext::new(&tcx, span(), &self_expr, &call_expr);
    for n in [0usize, 2, 3] {
        let mut fcx = FnCtxt::new(1, 0);
        let mut infcx = InferCtxt::new();
        let state = match confirm_object(&mut fcx, &mut infcx, &tcx, &self_expr, &call_expr) {
            Confirming::Upcast(state) => state,
            other => panic!("no upcast asked for: {:?}", other),
        };
        let mut answer = Vec::new();
        for _ in 0..n {
            answer.push(Binder(drawable_with_self(drawable_object())));
        }
        assert_eq!(
            cx.resume_with_upcast(&mut fcx, &mut infcx, state, List::from_vec(answer)),
            Err(Fatal::Bug(span(), Bug::AmbiguousUpcast(n)))
        );
    }
    assert_eq!(
        cx.upcast(List::from_vec(vec![Binder(drawable_with_self(widget()))]), item(DRAWABLE)),
        Ok(Binder(drawable_with_self(widget())))
    );
}

#[test]
fn upcast_must_be_to_the_requested_trait() {
    let tcx = widget_ctxt();
    let mut fcx = FnCtxt::new(1, 0);
    let mut infcx = InferCtxt::new();
    let self_expr = path(10);
    let call_expr = path(11);
    let cx = ConfirmContext::new(&tcx, span(), &self_expr, &call_expr);
    let state = match confirm_object(&mut fcx, &mut infcx, &tcx, &self_expr, &call_expr) {
        Confirming::Upcast(state) => state,
        other => panic!("no upcast asked for: {:?}", other),
    };
    let mut other_trait = drawable_with_self(drawable_object());
    other_trait.def_id = item(777);
    let regions_before = infcx.next_region_var;
    let obligations_before = fcx.obligations.len();
    assert_eq!(
        cx.resume_with_upcast(&mut fcx, &mut infcx, state, List::from_vec(vec![Binder(other_trait)])),
        Err(Fatal::Bug(
            span(),
            Bug::UpcastToOtherTrait { asked: item(DRAWABLE), given: item(777) }
        ))
    );
    // a failed step mints nothing and reports nothing
    assert_eq!(infcx.next_region_var, regions_before);
    assert_eq!(fcx.obligations.len(), obligations_before);
    assert!(fcx.diagnostics.is_empty());
    assert_eq!(
        cx.upcast(List::from_vec(vec![Binder(drawable_with_self(widget()))]), item(777)),
        Err(Fatal::Bug(
            span(),
            Bug::UpcastToOtherTrait { asked: item(777), given: item(DRAWABLE) }
        ))
    );
}

#[test]
fn exhausted_counter_ends_confirmation() {
    let tcx = widget_ctxt();
    let self_expr = path(10);
    let call_expr = path(11);
    // the reference of the receiver takes the last region placeholder
    let mut fcx = FnCtxt::new(1, 0);
    let mut infcx = InferCtxt::new();
    infcx.next_region_var = u32::MAX - 1;
    assert_eq!(
        confirm(
            &mut fcx,
            &mut infcx,
            &tcx,
            span(),
            &self_expr,
            &call_expr,
            widget(),
            widget_pick(),
            List::Nil,
        ),
        Err(Fatal::Bug(span(), Bug::PlaceholdersExhausted))
    );
    assert_eq!(infcx.next_region_var, u32::MAX);
    // the adjustment had been recorded by then
    assert!(fcx.inh.adjustments.contains_key(&10));
}

#[test]
fn upcast_opens_the_binder() {
    let tcx = widget_ctxt();
    let mut fcx = FnCtxt::new(1, 0);
    let mut infcx = InferCtxt::new();
    let self_expr = path(10);
    let call_expr = path(11);
    let cx = ConfirmContext::new(&tcx, span(), &self_expr, &call_expr);
    let state = match confirm_object(&mut fcx, &mut infcx, &tcx, &self_expr, &call_expr) {
        Confirming::Upcast(state) => state,
        other => panic!("no upcast asked for: {:?}", other),
    };
    let bound = reference(Region::LateBound(1, 1), Mutability::Immutable, i32_ty());
    let answer = List::from_vec(vec![Binder(drawable_with_self(bound))]);
    let state = cx.resume_with_upcast(&mut fcx, &mut infcx, state, answer).unwrap();
    // region 0 was the autoref; the binder binds the indices 0 and 1
    let opened = reference(Region::Var(2), Mutability::Immutable, i32_ty());
    assert_eq!(state.instantiated.all_substs, drawable_with_self(opened).substs);
    // then the signature of the method binds one region
    assert_eq!(infcx.next_region_var, 4);
}

#[test]
fn object_pick_needs_an_object() {
    let tcx = widget_ctxt();
    let mut fcx = FnCtxt::new(1, 0);
    let mut infcx = InferCtxt::new();
    let self_expr = path(10);
    let call_expr = path(11);
    let r = confirm(
        &mut fcx,
        &mut infcx,
        &tcx,
        span(),
        &self_expr,
        &call_expr,
        Ty::Uniq(Box::new(widget())),
        object_pick(),
        List::Nil,
    );
    assert_eq!(r, Err(Fatal::Bug(span(), Bug::NotAnObject)));
    let cx = ConfirmContext::new(&tcx, span(), &self_expr, &call_expr);
    assert_eq!(
        cx.extract_trait_ref(&reference(Region::Static, Mutability::Mutable, Ty::Uniq(Box::new(drawable_object())))),
        Ok((drawable_object(), Binder(drawable_with_self(drawable_object()))))
    );
    assert_eq!(cx.extract_trait_ref(&i32_ty()), Err(Fatal::Bug(span(), Bug::NotAnObject)));
}

#[test]
fn destructor_may_not_be_called() {
    let tcx = widget_ctxt();
    let mut fcx = FnCtxt::new(1, 0);
    let mut infcx = InferCtxt::new();
    let self_expr = path(10);
    let call_expr = path(11);
    let mut pick = widget_pick();
    pick.item.container = Container::Trait(item(DROP));
    let r = confirm(
        &mut fcx, &mut infcx, &tcx, span(), &self_expr, &call_expr, widget(), pick, List::Nil,
    );
    assert_eq!(r, Err(Fatal::ExplicitDestructorCall(span())));

    let mut tcx = widget_ctxt();
    tcx.destructors = List::from_vec(vec![item(GET)]);
    let cx = ConfirmContext::new(&tcx, span(), &self_expr, &call_expr);
    assert_eq!(
        cx.enforce_illegal_method_limitations(&widget_pick()),
        Err(Fatal::Bug(span(), Bug::DestructorInImpl(item(GET))))
    );
    let tcx = widget_ctxt();
    let cx = ConfirmContext::new(&tcx, span(), &self_expr, &call_expr);
    assert_eq!(cx.enforce_illegal_method_limitations(&widget_pick()), Ok(()));
    assert_eq!(cx.enforce_illegal_method_limitations(&object_pick()), Ok(()));
}

#[test]
fn unsizing_needs_a_reference() {
    let tcx = widget_ctxt();
    let mut fcx = FnCtxt::new(1, 0);
    let mut infcx = InferCtxt::new();
    let self_expr = path(10);
    let call_expr = path(11);
    let cx = ConfirmContext::new(&tcx, span(), &self_expr, &call_expr);
    let mut pick = widget_pick();
    pick.autoref = None;
    pick.unsize = Some(Ty::Slice(Box::new(i32_ty())));
    assert_eq!(
        cx.adjust_self_ty(&mut fcx, &mut infcx, widget(), &pick),
        Err(Fatal::Bug(span(), Bug::UnsizeWithoutAutoref))
    );
    assert_eq!(infcx.next_region_var, 0);
    assert!(fcx.inh.adjustments.is_empty());

    // [i32; 3] -> &[i32]
    pick.autoref = Some(Mutability::Immutable);
    let array = Ty::Array(Box::new(i32_ty()), 3);
    let target = reference(Region::Var(0), Mutability::Immutable, Ty::Slice(Box::new(i32_ty())));
    assert_eq!(cx.adjust_self_ty(&mut fcx, &mut infcx, array, &pick), Ok(target.clone()));
    assert_eq!(
        fcx.inh.adjustments.get(&10),
        Some(&AutoAdjustment::DerefRef(AutoDerefRef {
            autoderefs: 0,
            autoref: Some(AutoRef::Ptr(Region::Var(0), Mutability::Immutable)),
            unsize: Some(target),
        }))
    );
}

#[test]
fn replay_must_reach_the_probed_count() {
    let tcx = widget_ctxt();
    let mut fcx = FnCtxt::new(1, 0);
    let mut infcx = InferCtxt::new();
    let self_expr = path(10);
    let call_expr = path(11);
    let cx = ConfirmContext::new(&tcx, span(), &self_expr, &call_expr);
    let mut pick = widget_pick();
    pick.autoderefs = 2;
    // &Widget can be dereferenced once only
    let r = cx.adjust_self_ty(
        &mut fcx,
        &mut infcx,
        reference(Region::Static, Mutability::Immutable, widget()),
        &pick,
    );
    assert_eq!(r, Err(Fatal::Bug(span(), Bug::AutoderefMismatch { expected: 2, found: 1 })));
}

#[test]
fn recorded_adjustment_replays_to_the_adjusted_type() {
    let tcx = widget_ctxt();
    let mut fcx = FnCtxt::new(1, 0);
    let mut infcx = InferCtxt::new();
    let self_expr = path(10);
    let call_expr = path(11);
    let cx = ConfirmContext::new(&tcx, span(), &self_expr, &call_expr);
    let mut pick = widget_pick();
    pick.autoderefs = 2;
    pick.autoref = Some(Mutability::Mutable);
    let unadjusted = Ty::Uniq(Box::new(reference(Region::Static, Mutability::Mutable, widget())));
    let adjusted = cx.adjust_self_ty(&mut fcx, &mut infcx, unadjusted.clone(), &pick).unwrap();
    assert_eq!(adjusted, reference(Region::Var(0), Mutability::Mutable, widget()));
    let recorded = match fcx.inh.adjustments.get(&10) {
        Some(AutoAdjustment::DerefRef(adj)) => AutoDerefRef {
            autoderefs: adj.autoderefs,
            autoref: adj.autoref,
            unsize: adj.unsize.clone(),
        },
        other => panic!("no adjustment recorded: {:?}", other),
    };
    assert_eq!(adjust_ty(&fcx, 10, unadjusted.clone(), &recorded), Some(adjusted.clone()));
    // and again
    assert_eq!(adjust_ty(&fcx, 10, unadjusted, &recorded), Some(adjusted));
}

#[test]
fn adjustment_that_does_nothing_is_recorded_too() {
    let tcx = widget_ctxt();
    let mut fcx = FnCtxt::new(1, 0);
    let mut infcx = InferCtxt::new();
    let self_expr = path(10);
    let call_expr = path(11);
    let cx = ConfirmContext::new(&tcx, span(), &self_expr, &call_expr);
    let mut pick = widget_pick();
    pick.autoref = None;
    assert_eq!(cx.adjust_self_ty(&mut fcx, &mut infcx, widget(), &pick), Ok(widget()));
    assert_eq!(fcx.inh.adjustments.len(), 1);
    assert_eq!(
        fcx.inh.adjustments.get(&10),
        Some(&AutoAdjustment::DerefRef(AutoDerefRef { autoderefs: 0, autoref: None, unsize: None }))
    );
    assert_eq!(infcx.next_region_var, 0);
}

fn deref_callee(target: Ty) -> MethodCallee {
    MethodCallee {
        origin: MethodOrigin::Static(item(900)),
        ty: Ty::BareFn(
            None,
            Box::new(fn_of(sig(
                vec![reference(Region::Static, Mutability::Immutable, widget())],
                reference(Region::Static, Mutability::Immutable, target),
            ))),
        ),
        substs: empty_substs(),
    }
}

#[test]
fn autoderef_follows_pointers_and_recorded_methods() {
    let mut fcx = FnCtxt::new(1, 0);
    let boxed = Ty::Uniq(Box::new(reference(Region::Static, Mutability::Immutable, i32_ty())));
    assert_eq!(autoderef(&fcx, None, boxed.clone(), 0, 0), (boxed.clone(), 0));
    assert_eq!(
        autoderef(&fcx, None, boxed.clone(), 0, 1),
        (reference(Region::Static, Mutability::Immutable, i32_ty()), 1)
    );
    assert_eq!(autoderef(&fcx, None, boxed.clone(), 0, 2), (i32_ty(), 2));
    assert_eq!(autoderef(&fcx, None, boxed.clone(), 0, 5), (i32_ty(), 2));
    // a raw pointer is not followed implicitly
    let raw = Ty::RawPtr(Mt { ty: Box::new(i32_ty()), mutbl: Mutability::Immutable });
    assert_eq!(autoderef(&fcx, None, raw.clone(), 0, 1), (raw.clone(), 0));
    assert_eq!(deref(&raw, false), None);
    assert_eq!(deref(&raw, true), Some(Mt { ty: Box::new(i32_ty()), mutbl: Mutability::Immutable }));
    assert_eq!(
        deref(&Ty::Uniq(Box::new(i32_ty())), false),
        Some(Mt { ty: Box::new(i32_ty()), mutbl: Mutability::Immutable })
    );

    // Widget dereferences to i32 through a method recorded for node 10
    fcx.write_method(MethodCall::autoderef(10, 0), deref_callee(i32_ty()));
    assert_eq!(autoderef(&fcx, Some(10), widget(), 0, 1), (i32_ty(), 1));
    assert_eq!(autoderef(&fcx, Some(11), widget(), 0, 1), (widget(), 0));
    assert_eq!(autoderef(&fcx, None, widget(), 0, 1), (widget(), 0));
}

fn trait_pick_ctxt() -> Ctxt {
    let mut tcx = widget_ctxt();
    tcx.traits = List::from_vec(vec![TraitDef {
        def_id: item(DRAWABLE),
        generics: Generics { types: 2, regions: 1 },
    }]);
    tcx.impls = List::from_vec(vec![
        ImplDef { def_id: item(WIDGET_IMPL), generics: Generics { types: 0, regions: 0 }, trait_ref: None },
        ImplDef {
            def_id: item(400),
            generics: Generics { types: 1, regions: 0 },
            // impl<T> Drawable for Box<T>
            trait_ref: Some(drawable_with_self(Ty::Uniq(Box::new(Ty::Param(ParamTy {
                space: ParamSpace::TypeSpace,
                idx: 0,
            }))))),
        },
    ]);
    tcx
}

#[test]
fn trait_pick_gets_fresh_arguments() {
    let tcx = trait_pick_ctxt();
    let mut infcx = InferCtxt::new();
    let self_expr = path(10);
    let call_expr = path(11);
    let cx = ConfirmContext::new(&tcx, span(), &self_expr, &call_expr);
    let mut pick = object_pick();
    pick.kind = PickKind::Trait(item(DRAWABLE), 4);
    let (substs, origin) = cx.fresh_receiver_substs(&mut infcx, &widget(), &pick, List::Nil).unwrap();
    let expected = Substs {
        types: PerSpace {
            types: List::from_vec(vec![Ty::Infer(1), Ty::Infer(2)]),
            selfs: List::from_vec(vec![Ty::Infer(0)]),
            fns: List::Nil,
        },
        regions: RegionSubsts::NonErased(PerSpace {
            types: List::from_vec(vec![Region::Var(0)]),
            selfs: List::Nil,
            fns: List::Nil,
        }),
    };
    assert_eq!(substs, expected);
    assert_eq!(
        origin,
        MethodOrigin::TypeParam(MethodParam {
            trait_ref: TraitRef { def_id: item(DRAWABLE), substs: expected },
            method_num: 4,
            impl_def_id: None,
        })
    );
    assert_eq!((infcx.next_ty_var, infcx.next_region_var), (3, 1));

    pick.kind = PickKind::Trait(item(999), 4);
    assert_eq!(
        cx.fresh_receiver_substs(&mut infcx, &widget(), &pick, List::Nil),
        Err(Fatal::Bug(span(), Bug::UnknownTrait(item(999))))
    );
}

#[test]
fn extension_impl_pick_speaks_in_terms_of_the_trait() {
    let tcx = trait_pick_ctxt();
    let mut infcx = InferCtxt::new();
    infcx.next_ty_var = 7;
    let self_expr = path(10);
    let call_expr = path(11);
    let cx = ConfirmContext::new(&tcx, span(), &self_expr, &call_expr);
    let mut pick = object_pick();
    pick.kind = PickKind::ExtensionImpl(item(400), 1);
    let (substs, origin) = cx.fresh_receiver_substs(&mut infcx, &widget(), &pick, List::Nil).unwrap();
    let trait_ref = drawable_with_self(Ty::Uniq(Box::new(Ty::Infer(7))));
    assert_eq!(substs, trait_ref.substs);
    assert_eq!(
        origin,
        MethodOrigin::TypeParam(MethodParam {
            trait_ref,
            method_num: 1,
            impl_def_id: Some(item(400)),
        })
    );
    assert_eq!(infcx.next_ty_var, 8);

    pick.kind = PickKind::ExtensionImpl(item(WIDGET_IMPL), 1);
    assert_eq!(
        cx.fresh_receiver_substs(&mut infcx, &widget(), &pick, List::Nil),
        Err(Fatal::Bug(span(), Bug::NoTraitForImpl(item(WIDGET_IMPL))))
    );
    pick.kind = PickKind::InherentImpl(item(400));
    assert_eq!(
        cx.fresh_receiver_substs(&mut infcx, &widget(), &pick, List::Nil),
        Err(Fatal::Bug(span(), Bug::NotAnInherentImpl(item(400))))
    );
    pick.kind = PickKind::InherentImpl(item(998));
    assert_eq!(
        cx.fresh_receiver_substs(&mut infcx, &widget(), &pick, List::Nil),
        Err(Fatal::Bug(span(), Bug::UnknownImpl(item(998))))
    );
}

#[test]
fn where_clause_pick_opens_its_binder() {
    let tcx = trait_pick_ctxt();
    let mut infcx = InferCtxt::new();
    infcx.next_region_var = 3;
    let self_expr = path(10);
    let call_expr = path(11);
    let cx = ConfirmContext::new(&tcx, span(), &self_expr, &call_expr);
    let mut pick = object_pick();
    let bound = reference(Region::LateBound(1, 0), Mutability::Immutable, widget());
    pick.kind = PickKind::WhereClause(Binder(drawable_with_self(bound)), 2);
    let (substs, origin) = cx.fresh_receiver_substs(&mut infcx, &widget(), &pick, List::Nil).unwrap();
    let trait_ref = drawable_with_self(reference(Region::Var(3), Mutability::Immutable, widget()));
    assert_eq!(substs, trait_ref.substs);
    assert_eq!(
        origin,
        MethodOrigin::TypeParam(MethodParam { trait_ref, method_num: 2, impl_def_id: None })
    );
    assert_eq!(infcx.next_region_var, 4);
}

fn generic_pick(type_params: u32, region_params: u32) -> Pick {
    let mut pick = widget_pick();
    pick.item.type_params = type_params;
    pick.item.region_params = region_params;
    pick
}

#[test]
fn method_type_arguments() {
    let tcx = widget_ctxt();
    let self_expr = path(10);
    let call_expr = path(11);
    let cx = ConfirmContext::new(&tcx, span(), &self_expr, &call_expr);

    // none supplied: placeholders
    let mut fcx = FnCtxt::new(1, 0);
    let mut infcx = InferCtxt::new();
    assert_eq!(
        cx.instantiate_method_substs(&mut fcx, &mut infcx, &generic_pick(2, 1), List::Nil),
        (List::from_vec(vec![Ty::Infer(0), Ty::Infer(1)]), List::from_vec(vec![Region::Var(0)]))
    );
    assert_eq!(fcx.diagnostics.len(), 0);
    assert_eq!((infcx.next_ty_var, infcx.next_region_var), (2, 1));

    // the right number supplied
    let supplied = || List::from_vec(vec![i32_ty(), Ty::Bool]);
    assert_eq!(
        cx.instantiate_method_substs(&mut fcx, &mut infcx, &generic_pick(2, 0), supplied()),
        (supplied(), List::Nil)
    );
    assert_eq!(fcx.diagnostics.len(), 0);
    assert_eq!(infcx.next_ty_var, 2);

    // the method takes none
    assert_eq!(
        cx.instantiate_method_substs(&mut fcx, &mut infcx, &generic_pick(0, 0), supplied()),
        (List::Nil, List::Nil)
    );
    assert_eq!(fcx.diagnostics, vec![Diagnostic::MethodTakesNoTypeParameters(span())]);
    assert_eq!(fcx.err_count, 1);

    // the wrong number supplied
    assert_eq!(
        cx.instantiate_method_substs(&mut fcx, &mut infcx, &generic_pick(3, 0), supplied()),
        (List::from_vec(vec![Ty::Error, Ty::Error, Ty::Error]), List::Nil)
    );
    assert_eq!(
        fcx.diagnostics,
        vec![
            Diagnostic::MethodTakesNoTypeParameters(span()),
            Diagnostic::WrongNumberOfTypeParameters(span())
        ]
    );
    assert_eq!(infcx.next_ty_var, 2);
}

#[test]
fn signature_and_bounds_are_instantiated() {
    let tcx = widget_ctxt();
    let mut infcx = InferCtxt::new();
    infcx.next_region_var = 10;
    let self_expr = path(10);
    let call_expr = path(11);
    let cx = ConfirmContext::new(&tcx, span(), &self_expr, &call_expr);
    let t0 = Ty::Param(ParamTy { space: ParamSpace::FnSpace, idx: 0 });
    let mut pick = generic_pick(1, 1);
    // fn pick<'e, T: 'e>(&self, x: &'e T) -> T
    pick.item.fty = fn_of(sig(
        vec![
            reference(Region::LateBound(1, 0), Mutability::Immutable, widget()),
            reference(Region::EarlyBound(ParamSpace::FnSpace, 0), Mutability::Immutable, t0.clone()),
        ],
        t0.clone(),
    ));
    pick.item.predicates = List::from_vec(vec![Predicate::TypeOutlives(
        t0.clone(),
        Region::EarlyBound(ParamSpace::FnSpace, 0),
    )]);
    let mut all_substs = empty_substs();
    all_substs.types.fns = List::from_vec(vec![Ty::Bool]);
    all_substs.regions = RegionSubsts::NonErased(PerSpace {
        types: List::Nil,
        selfs: List::Nil,
        fns: List::from_vec(vec![Region::Free(4)]),
    });
    let instantiated = cx.instantiate_method_sig(&mut infcx, &pick, all_substs);
    assert_eq!(
        instantiated.method_sig,
        sig(
            vec![
                reference(Region::Var(10), Mutability::Immutable, widget()),
                reference(Region::Free(4), Mutability::Immutable, Ty::Bool),
            ],
            Ty::Bool
        )
    );
    assert_eq!(
        instantiated.method_predicates,
        List::from_vec(vec![Predicate::TypeOutlives(Ty::Bool, Region::Free(4))])
    );
    assert_eq!(infcx.next_region_var, 11);
}

#[test]
fn bounds_become_obligations() {
    let tcx = widget_ctxt();
    let mut fcx = FnCtxt::new(42, 0);
    let self_expr = path(10);
    let call_expr = path(11);
    let cx = ConfirmContext::new(&tcx, span(), &self_expr, &call_expr);
    let mut all_substs = empty_substs();
    all_substs.types.types = List::from_vec(vec![i32_ty()]);
    all_substs.types.fns = List::from_vec(vec![Ty::Bool]);
    let predicates = List::from_vec(vec![
        Predicate::Trait(Binder(drawable_with_self(i32_ty()))),
        Predicate::RegionOutlives(Region::Static, Region::Free(1)),
    ]);
    cx.add_obligations(&mut fcx, &all_substs, &predicates);
    let here = ObligationCause { span: span(), body_id: 42 };
    let call = ObligationCause { span: call_expr.span, body_id: 42 };
    assert_eq!(
        fcx.obligations,
        vec![
            Obligation { cause: here, predicate: Predicate::Trait(Binder(drawable_with_self(i32_ty()))) },
            Obligation { cause: here, predicate: Predicate::RegionOutlives(Region::Static, Region::Free(1)) },
            Obligation { cause: call, predicate: Predicate::TypeOutlives(i32_ty(), Region::Scope(11)) },
            Obligation { cause: call, predicate: Predicate::TypeOutlives(Ty::Bool, Region::Scope(11)) },
        ]
    );
}

#[test]
fn receiver_must_unify() {
    let tcx = widget_ctxt();
    let mut fcx = FnCtxt::new(1, 0);
    let mut infcx = InferCtxt::new();
    let self_expr = path(10);
    let call_expr = path(11);
    let cx = ConfirmContext::new(&tcx, span(), &self_expr, &call_expr);
    let state = normalize(
        confirm(
            &mut fcx, &mut infcx, &tcx, span(), &self_expr, &call_expr, widget(), widget_pick(), List::Nil,
        )
        .unwrap(),
    );
    let facts: List<Outlives> = List::Nil;
    let sub = Combine::sub(&tcx, &facts);
    // normalization that breaks the receiver
    let broken = sig(vec![reference(Region::Var(1), Mutability::Mutable, widget())], i32_ty());
    assert_eq!(
        cx.finish(&mut fcx, &sub, state, broken, List::Nil),
        Err(Fatal::Bug(span(), Bug::ReceiverMismatch(TypeError::Mutability)))
    );
    // nothing is registered for a call whose receiver does not unify
    assert!(fcx.obligations.is_empty());
    assert_eq!(
        cx.unify_receivers(&sub, &i32_ty(), &Ty::Bool),
        Err(Fatal::Bug(
            span(),
            Bug::ReceiverMismatch(TypeError::Sorts(ExpectedFound { expected: i32_ty(), found: Ty::Bool }))
        ))
    );
    assert_eq!(cx.unify_receivers(&sub, &Ty::Infer(9), &Ty::Bool), Ok(()));
}

#[test]
fn method_needs_a_receiver() {
    let tcx = widget_ctxt();
    let mut fcx = FnCtxt::new(1, 0);
    let mut infcx = InferCtxt::new();
    let self_expr = path(10);
    let call_expr = path(11);
    let cx = ConfirmContext::new(&tcx, span(), &self_expr, &call_expr);
    let state = normalize(
        confirm(
            &mut fcx, &mut infcx, &tcx, span(), &self_expr, &call_expr, widget(), widget_pick(), List::Nil,
        )
        .unwrap(),
    );
    let facts: List<Outlives> = List::Nil;
    let sub = Combine::sub(&tcx, &facts);
    assert_eq!(
        cx.finish(&mut fcx, &sub, state, sig(vec![], i32_ty()), List::Nil),
        Err(Fatal::Bug(span(), Bug::MethodWithoutReceiver))
    );
}

fn mut_callee() -> MethodCallee {
    MethodCallee {
        origin: MethodOrigin::Static(item(GET)),
        ty: Ty::BareFn(
            None,
            Box::new(fn_of(sig(
                vec![reference(Region::Var(1), Mutability::Mutable, widget())],
                i32_ty(),
            ))),
        ),
        substs: empty_substs(),
    }
}

fn derefs(n: u32) -> AutoAdjustment {
    AutoAdjustment::DerefRef(AutoDerefRef { autoderefs: n, autoref: None, unsize: None })
}

/// `(*a)[i].b`: node 1 is `a`, node 2 is `*a`, node 3 is `i`, node 4 is
/// `(*a)[i]`, node 5 is the field access
fn chain() -> Expr {
    let a = path(1);
    let star = Expr { id: 2, span: Span { lo: 2, hi: 3 }, node: ExprKind::Unary(UnOp::Deref, Box::new(a)) };
    let index = Expr {
        id: 4,
        span: Span { lo: 4, hi: 5 },
        node: ExprKind::Index(Box::new(star), Box::new(path(3))),
    };
    Expr { id: 5, span: Span { lo: 5, hi: 6 }, node: ExprKind::Field(Box::new(index), 77) }
}

fn chain_fcx() -> FnCtxt {
    let mut fcx = FnCtxt::new(1, 0);
    let vec_ty = Ty::Struct(item(500), empty_substs());
    fcx.write_ty(1, Ty::Uniq(Box::new(vec_ty.clone())));
    fcx.write_ty(2, reference(Region::Static, Mutability::Immutable, vec_ty.clone()));
    fcx.write_ty(3, Ty::Uint(typeck::ty::UintTy::Usize));
    fcx.write_ty(4, Ty::Uniq(Box::new(widget())));
    fcx.write_ty(5, widget());
    fcx
}

#[test]
fn no_fixups_unless_the_method_takes_mut_self() {
    let tcx = widget_ctxt();
    let mut fcx = chain_fcx();
    fcx.write_adjustment(4, derefs(1));
    let self_expr = chain();
    let call_expr = path(11);
    let cx = ConfirmContext::new(&tcx, span(), &self_expr, &call_expr);
    let mut callee = mut_callee();
    callee.ty = Ty::BareFn(
        None,
        Box::new(fn_of(sig(vec![reference(Region::Var(1), Mutability::Immutable, widget())], i32_ty()))),
    );
    assert_eq!(cx.fixup_derefs_on_method_receiver_if_necessary(&fcx, &callee), Ok(List::Nil));
    callee.ty = i32_ty();
    assert_eq!(cx.fixup_derefs_on_method_receiver_if_necessary(&fcx, &callee), Ok(List::Nil));
    callee.ty = Ty::BareFn(None, Box::new(fn_of(sig(vec![], i32_ty()))));
    assert_eq!(cx.fixup_derefs_on_method_receiver_if_necessary(&fcx, &callee), Ok(List::Nil));
}

#[test]
fn fixups_go_from_the_innermost_place_outwards() {
    let tcx = widget_ctxt();
    let mut fcx = chain_fcx();
    let vec_ty = Ty::Struct(item(500), empty_substs());
    // `a` is dereferenced once implicitly; the innermost place is not resolved anew
    fcx.write_adjustment(1, derefs(1));
    // `*a` is an overloaded dereference
    fcx.write_method(MethodCall::expr(2), deref_callee(vec_ty.clone()));
    // the base of the index is dereferenced once and referenced for the call
    fcx.write_adjustment(
        2,
        AutoAdjustment::DerefRef(AutoDerefRef {
            autoderefs: 1,
            autoref: Some(AutoRef::Ptr(Region::Var(7), Mutability::Immutable)),
            unsize: None,
        }),
    );
    // the indexed value is dereferenced once
    fcx.write_adjustment(4, derefs(1));
    let self_expr = chain();
    let call_expr = path(11);
    let cx = ConfirmContext::new(&tcx, span(), &self_expr, &call_expr);
    let fixups = cx.fixup_derefs_on_method_receiver_if_necessary(&fcx, &mut_callee()).unwrap();
    assert_eq!(
        fixups,
        List::from_vec(vec![
            Fixup::Autoderef {
                expr: 1,
                span: Span { lo: 1, hi: 2 },
                ty: Ty::Uniq(Box::new(vec_ty.clone())),
                autoderefs: 1
            },
            Fixup::Autoderef {
                expr: 2,
                span: Span { lo: 2, hi: 3 },
                ty: reference(Region::Static, Mutability::Immutable, vec_ty.clone()),
                autoderefs: 1
            },
            Fixup::OverloadedDeref { expr: 2, base: 1, base_ty: Ty::Uniq(Box::new(vec_ty.clone())) },
            Fixup::Autoderef {
                expr: 4,
                span: Span { lo: 4, hi: 5 },
                ty: Ty::Uniq(Box::new(widget())),
                autoderefs: 1
            },
            Fixup::Index {
                expr: 4,
                base: 2,
                index: 3,
                adjusted_base_ty: vec_ty.clone(),
                autoderefs: 1,
                unsize: false,
                index_ty: Ty::Uint(typeck::ty::UintTy::Usize),
                expr_ty: Ty::Uniq(Box::new(widget())),
            },
        ])
    );
}

#[test]
fn index_fixup_takes_the_reference_off_an_unsized_base() {
    let tcx = widget_ctxt();
    let mut fcx = chain_fcx();
    let slice = Ty::Slice(Box::new(widget()));
    fcx.write_adjustment(
        2,
        AutoAdjustment::DerefRef(AutoDerefRef {
            autoderefs: 0,
            autoref: Some(AutoRef::Ptr(Region::Var(7), Mutability::Immutable)),
            unsize: Some(reference(Region::Var(7), Mutability::Immutable, slice.clone())),
        }),
    );
    let self_expr = chain();
    let call_expr = path(11);
    let cx = ConfirmContext::new(&tcx, span(), &self_expr, &call_expr);
    let fixups = cx.fixup_derefs_on_method_receiver_if_necessary(&fcx, &mut_callee()).unwrap();
    assert_eq!(
        fixups,
        List::from_vec(vec![Fixup::Index {
            expr: 4,
            base: 2,
            index: 3,
            adjusted_base_ty: slice,
            autoderefs: 0,
            unsize: true,
            index_ty: Ty::Uint(typeck::ty::UintTy::Usize),
            expr_ty: Ty::Uniq(Box::new(widget())),
        }])
    );
}

#[test]
fn broken_adjustments_of_an_index_base_are_fatal() {
    let tcx = widget_ctxt();
    let self_expr = chain();
    let call_expr = path(11);
    let cx = ConfirmContext::new(&tcx, span(), &self_expr, &call_expr);
    let base_span = Span { lo: 2, hi: 3 };
    let cases = vec![
        (AutoAdjustment::ReifyFnPointer, Bug::UnexpectedAdjustment),
        (
            AutoAdjustment::DerefRef(AutoDerefRef {
                autoderefs: 0,
                autoref: Some(AutoRef::Unsafe(Mutability::Immutable)),
                unsize: None,
            }),
            Bug::UnexpectedAutoref,
        ),
        (
            AutoAdjustment::DerefRef(AutoDerefRef {
                autoderefs: 0,
                autoref: None,
                unsize: Some(widget()),
            }),
            Bug::UnsizeWithoutAutoref,
        ),
        (
            AutoAdjustment::DerefRef(AutoDerefRef {
                autoderefs: 0,
                autoref: Some(AutoRef::Ptr(Region::Static, Mutability::Immutable)),
                unsize: Some(widget()),
            }),
            Bug::UnsizeTargetNotReference,
        ),
        (derefs(3), Bug::AutoderefMismatch { expected: 3, found: 1 }),
    ];
    for (adjustment, bug) in cases {
        let mut fcx = chain_fcx();
        fcx.write_adjustment(2, adjustment);
        let r = cx.fixup_derefs_on_method_receiver_if_necessary(&fcx, &mut_callee());
        // the implicit dereferences of the base itself come first
        assert_eq!(r, Err(Fatal::Bug(base_span, bug)));
    }
    let fcx = FnCtxt::new(1, 0);
    assert_eq!(
        cx.fixup_derefs_on_method_receiver_if_necessary(&fcx, &mut_callee()),
        Err(Fatal::Bug(base_span, Bug::NoTypeForNode(2)))
    );
}

#[test]
fn mutable_method_plans_fixups_through_finish() {
    let tcx = widget_ctxt();
    let mut fcx = chain_fcx();
    fcx.write_adjustment(4, derefs(1));
    let mut infcx = InferCtxt::new();
    let self_expr = chain();
    let call_expr = path(11);
    let cx = ConfirmContext::new(&tcx, span(), &self_expr, &call_expr);
    let mut pick = widget_pick();
    pick.item = widget_get(Mutability::Mutable);
    pick.autoref = Some(Mutability::Mutable);
    let state = normalize(
        confirm(&mut fcx, &mut infcx, &tcx, span(), &self_expr, &call_expr, widget(), pick, List::Nil)
            .unwrap(),
    );
    let confirmed = finish_as_is(&cx, &mut fcx, &tcx, state).unwrap();
    assert_eq!(
        confirmed.fixups,
        List::from_vec(vec![
            Fixup::Autoderef {
                expr: 4,
                span: Span { lo: 4, hi: 5 },
                ty: Ty::Uniq(Box::new(widget())),
                autoderefs: 1
            },
            Fixup::Index {
                expr: 4,
                base: 2,
                index: 3,
                adjusted_base_ty: reference(
                    Region::Static,
                    Mutability::Immutable,
                    Ty::Struct(item(500), empty_substs())
                ),
                autoderefs: 0,
                unsize: false,
                index_ty: Ty::Uint(typeck::ty::UintTy::Usize),
                expr_ty: Ty::Uniq(Box::new(widget())),
            },
        ])
    );
}

#[test]
fn fixups_can_be_asked_for_step_by_step() {
    let mut fcx = FnCtxt::new(1, 0);
    let base = path(2);
    let place = Expr {
        id: 3,
        span: Span { lo: 3, hi: 4 },
        node: ExprKind::Unary(UnOp::Deref, Box::new(path(2))),
    };
    fcx.write_ty(2, widget());
    fcx.write_ty(3, i32_ty());
    // nothing is recorded yet: no step
    assert_eq!(autoderef_fixup(&fcx, &base), Ok(None));
    assert_eq!(place_fixup(&fcx, &place), Ok(None));
    // an implicit dereference of the base, and the overloaded dereference
    fcx.write_adjustment(
        2,
        AutoAdjustment::DerefRef(AutoDerefRef { autoderefs: 2, autoref: None, unsize: None }),
    );
    fcx.write_method(MethodCall::expr(3), deref_callee(i32_ty()));
    assert_eq!(
        autoderef_fixup(&fcx, &base),
        Ok(Some(Fixup::Autoderef { expr: 2, span: base.span, ty: widget(), autoderefs: 2 }))
    );
    assert_eq!(
        place_fixup(&fcx, &place),
        Ok(Some(Fixup::OverloadedDeref { expr: 3, base: 2, base_ty: widget() }))
    );
    // a step reads the tables as they stand when it is asked for
    fcx.write_ty(2, Ty::Bool);
    assert_eq!(
        place_fixup(&fcx, &place),
        Ok(Some(Fixup::OverloadedDeref { expr: 3, base: 2, base_ty: Ty::Bool }))
    );
    assert!(!takes_mut_receiver(&deref_callee(i32_ty())));
}
