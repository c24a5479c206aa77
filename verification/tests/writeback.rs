use typeck::ast::{Arg, AstTy, BinOp, Block, Expr, ExprKind, FnDecl, Local, Pat, PatKind, Stmt, StmtKind};
use typeck::ctxt::{Ctxt, ExprSpan};
use typeck::fold::{fold_ty, Folder};
use typeck::infer::InferCtxt;
use typeck::list::List;
use typeck::resolve::{ResolveReason, Resolver};
use typeck::scan::{scan_fn_sig, scan_ty, FixupError, Summary};
use typeck::tables::{
    write_substs_to_tcx, write_ty_to_tcx, AutoAdjustment, AutoDerefRef, AutoRef, BorrowKind,
    ClosureKind, ClosureKindEntry, ClosureTy, ClosureTyEntry, Diagnostic, FnCtxt, MethodCall,
    MethodCallee, MethodOrigin, MethodParam, UpvarCapture, UpvarEntry, UpvarId,
};
use typeck::ty::{
    Abi, BareFnTy, Binder, DefId, FnOutput, FnSig, IntTy, Mt, Mutability, ParamSpace, ParamTy,
    PerSpace, Region, RegionSubsts, Span, Substs, TraitRef, Ty, UintTy, Unsafety,
};
use typeck::writeback::{
    resolve_type_vars_in_expr, resolve_type_vars_in_fn, type_is_scalar, WritebackCx,
};

fn sp(n: u32) -> Span {
    Span { lo: n, hi: n + 1 }
}

fn path(id: u32) -> Expr {
    Expr { id, span: sp(id), node: ExprKind::Path }
}

fn expr(id: u32, node: ExprKind) -> Expr {
    Expr { id, span: sp(id), node }
}

fn i32_ty() -> Ty {
    Ty::Int(IntTy::I32)
}

fn item(node: u32) -> DefId {
    DefId { krate: 0, node }
}

fn substs_of(types: Vec<Ty>, regions: Vec<Region>) -> Substs {
    Substs {
        types: PerSpace { types: List::from_vec(types), selfs: List::Nil, fns: List::Nil },
        regions: RegionSubsts::NonErased(PerSpace {
            types: List::from_vec(regions),
            selfs: List::Nil,
            fns: List::Nil,
        }),
    }
}

fn reference(region: Region, ty: Ty) -> Ty {
    Ty::Ref(region, Mt { ty: Box::new(ty), mutbl: Mutability::Immutable })
}

fn block(id: u32, stmts: Vec<Stmt>, tail: Option<Expr>) -> Block {
    Block { id, span: sp(id), stmts: List::from_vec(stmts), expr: tail.map(Box::new) }
}

fn no_args() -> FnDecl {
    FnDecl { inputs: List::Nil, output: None }
}

fn callee(ty: Ty, substs: Substs) -> MethodCallee {
    MethodCallee {
        origin: MethodOrigin::TypeParam(MethodParam {
            trait_ref: TraitRef { def_id: item(9), substs: substs_of(vec![Ty::Infer(1)], vec![]) },
            method_num: 0,
            impl_def_id: None,
        }),
        ty,
        substs,
    }
}

#[test]
fn types_of_nodes_become_permanent() {
    let mut fcx = FnCtxt::new(1, 0);
    let mut infcx = InferCtxt::new();
    infcx.solve_ty(1, i32_ty());
    infcx.solve_region(2, Region::Free(8));
    fcx.write_ty(10, Ty::Infer(1));
    fcx.write_ty(11, reference(Region::Var(2), Ty::Tuple(List::from_vec(vec![Ty::Infer(1), Ty::Bool]))));
    fcx.write_ty(12, Ty::Bool);
    // the body `{ e11; e12 }`: block 10, statement 20
    let body = block(
        10,
        vec![Stmt { id: 20, span: sp(20), node: StmtKind::Semi(Box::new(path(11))) }],
        Some(path(12)),
    );
    resolve_type_vars_in_fn(&mut fcx, &infcx, &no_args(), &body);
    assert!(!fcx.writeback_errors);
    assert_eq!(fcx.tcx.node_types.get(&10), Some(&i32_ty()));
    assert_eq!(
        fcx.tcx.node_types.get(&11),
        Some(&reference(Region::Free(8), Ty::Tuple(List::from_vec(vec![i32_ty(), Ty::Bool]))))
    );
    assert_eq!(fcx.tcx.node_types.get(&12), Some(&Ty::Bool));
    // nothing was recorded for the statement
    assert_eq!(fcx.tcx.node_types.get(&20), None);
    assert_eq!(fcx.tcx.node_types.len(), 3);
    assert_eq!(fcx.diagnostics.len(), 0);
    // the working table is read, not drained
    assert_eq!(fcx.inh.node_types.len(), 3);
}

#[test]
fn unresolved_placeholder_becomes_the_error_type() {
    let mut fcx = FnCtxt::new(1, 0);
    let infcx = InferCtxt::new();
    fcx.write_ty(10, Ty::Bool);
    fcx.write_ty(11, Ty::Uniq(Box::new(Ty::Infer(5))));
    fcx.write_ty(12, Ty::Infer(6));
    let body = block(
        10,
        vec![Stmt { id: 20, span: sp(20), node: StmtKind::Semi(Box::new(path(11))) }],
        Some(path(12)),
    );
    resolve_type_vars_in_fn(&mut fcx, &infcx, &no_args(), &body);
    assert!(fcx.writeback_errors);
    assert_eq!(fcx.tcx.node_types.get(&10), Some(&Ty::Bool));
    // no placeholder escapes
    assert_eq!(fcx.tcx.node_types.get(&11), Some(&Ty::Error));
    // the pass goes on through the rest of the function
    assert_eq!(fcx.tcx.node_types.get(&12), Some(&Ty::Error));
    assert_eq!(fcx.tcx.node_types.len(), 3);
    // but only the first failure is shown
    assert_eq!(
        fcx.diagnostics,
        vec![Diagnostic::CannotDetermineExprType(sp(11), FixupError::UnresolvedTy(5))]
    );
    assert_eq!(fcx.err_count, 1);
}

#[test]
fn first_failure_of_a_function_is_shown_after_other_errors_too() {
    let mut fcx = FnCtxt::new(1, 3);
    let infcx = InferCtxt::new();
    fcx.write_ty(10, Ty::Infer(0));
    resolve_type_vars_in_expr(&mut fcx, &infcx, &path(10));
    assert!(fcx.writeback_errors);
    assert_eq!(
        fcx.diagnostics,
        vec![Diagnostic::CannotDetermineExprType(sp(10), FixupError::UnresolvedTy(0))]
    );
    assert_eq!(fcx.err_count, 4);
    assert_eq!(fcx.tcx.node_types.get(&10), Some(&Ty::Error));
}

#[test]
fn adjustments_and_methods_are_moved_after_a_failure() {
    let mut fcx = FnCtxt::new(1, 0);
    let mut infcx = InferCtxt::new();
    infcx.solve_region(0, Region::Free(2));
    fcx.write_ty(10, Ty::Infer(7));
    fcx.write_ty(11, Ty::Bool);
    fcx.write_adjustment(
        11,
        AutoAdjustment::DerefRef(AutoDerefRef {
            autoderefs: 0,
            autoref: Some(AutoRef::Ptr(Region::Var(0), Mutability::Immutable)),
            unsize: None,
        }),
    );
    let callee = MethodCallee {
        origin: MethodOrigin::Static(item(5)),
        ty: Ty::Infer(8),
        substs: substs_of(vec![], vec![]),
    };
    fcx.write_method(MethodCall::expr(11), callee);
    let both = expr(10, ExprKind::Paren(Box::new(path(11))));
    resolve_type_vars_in_expr(&mut fcx, &infcx, &both);
    assert!(fcx.writeback_errors);
    assert_eq!(fcx.tcx.node_types.get(&10), Some(&Ty::Error));
    assert_eq!(fcx.tcx.node_types.get(&11), Some(&Ty::Bool));
    assert_eq!(
        fcx.tcx.adjustments.get(&11),
        Some(&AutoAdjustment::DerefRef(AutoDerefRef {
            autoderefs: 0,
            autoref: Some(AutoRef::Ptr(Region::Free(2), Mutability::Immutable)),
            unsize: None,
        }))
    );
    assert!(fcx.inh.adjustments.is_empty());
    assert!(fcx.inh.method_map.is_empty());
    assert_eq!(
        fcx.tcx.method_map.get(&MethodCall::expr(11).to_key()).map(|m| &m.ty),
        Some(&Ty::Error)
    );
    // the second failure is not shown
    assert_eq!(
        fcx.diagnostics,
        vec![Diagnostic::CannotDetermineExprType(sp(10), FixupError::UnresolvedTy(7))]
    );
}

#[test]
fn permanent_entry_takes_the_place_of_the_one_for_the_same_id() {
    let infcx = InferCtxt::new();
    let wbcx = WritebackCx::new(&infcx);
    let mut fcx = FnCtxt::new(1, 0);
    let upvar = |var_id: u32| UpvarId { var_id, closure_expr_id: 9 };
    fcx.tcx.upvar_capture_map = List::from_vec(vec![
        UpvarEntry { id: upvar(1), capture: UpvarCapture::ByValue },
        UpvarEntry { id: upvar(2), capture: UpvarCapture::ByValue },
    ]);
    fcx.inh.upvar_capture_map = List::from_vec(vec![
        UpvarEntry { id: upvar(1), capture: UpvarCapture::ByRef(BorrowKind::Mut, Region::Static) },
        UpvarEntry { id: upvar(3), capture: UpvarCapture::ByValue },
    ]);
    wbcx.visit_upvar_borrow_map(&mut fcx);
    assert_eq!(
        fcx.tcx.upvar_capture_map,
        List::from_vec(vec![
            UpvarEntry { id: upvar(2), capture: UpvarCapture::ByValue },
            UpvarEntry { id: upvar(1), capture: UpvarCapture::ByRef(BorrowKind::Mut, Region::Static) },
            UpvarEntry { id: upvar(3), capture: UpvarCapture::ByValue },
        ])
    );
    fcx.tcx.closure_kinds = List::from_vec(vec![
        ClosureKindEntry { def_id: item(9), kind: ClosureKind::Fn },
        ClosureKindEntry { def_id: item(8), kind: ClosureKind::Fn },
    ]);
    fcx.inh.closure_kinds =
        List::from_vec(vec![ClosureKindEntry { def_id: item(9), kind: ClosureKind::FnOnce }]);
    wbcx.visit_closures(&mut fcx);
    wbcx.visit_closures(&mut fcx);
    assert_eq!(
        fcx.tcx.closure_kinds,
        List::from_vec(vec![
            ClosureKindEntry { def_id: item(8), kind: ClosureKind::Fn },
            ClosureKindEntry { def_id: item(9), kind: ClosureKind::FnOnce },
        ])
    );
}

#[test]
fn only_the_first_failure_is_shown() {
    let mut fcx = FnCtxt::new(1, 0);
    let infcx = InferCtxt::new();
    let resolver = Resolver::new(&infcx, ResolveReason::ResolvingPattern(sp(4)));
    assert_eq!(resolver.fold_ty(&mut fcx, &Ty::Infer(3)), Ty::Error);
    assert_eq!(resolver.fold_region(&mut fcx, Region::Var(4)), Region::Static);
    assert_eq!(
        fcx.diagnostics,
        vec![Diagnostic::CannotDeterminePatternType(sp(4), FixupError::UnresolvedTy(3))]
    );
    assert!(fcx.writeback_errors);
    let mut tcx = Ctxt::new();
    assert_eq!(resolver.reason.span(&tcx), Some(sp(4)));
    // a closure and a capture are found through the expression of the closure
    assert_eq!(ResolveReason::ResolvingClosure(item(1)).span(&tcx), None);
    tcx.expr_spans = List::from_vec(vec![
        ExprSpan { id: 7, span: sp(70) },
        ExprSpan { id: 1, span: sp(10) },
    ]);
    assert_eq!(ResolveReason::ResolvingClosure(item(1)).span(&tcx), Some(sp(10)));
    let upvar = UpvarId { var_id: 1, closure_expr_id: 7 };
    assert_eq!(ResolveReason::ResolvingUpvar(upvar).span(&tcx), Some(sp(70)));
    assert_eq!(tcx.expr_span(7), Some(sp(70)));
    assert_eq!(tcx.expr_span(8), None);
    // a closure of another crate stands nowhere in this source
    let foreign = DefId { krate: 3, node: 1 };
    assert_eq!(ResolveReason::ResolvingClosure(foreign).span(&tcx), Some(Span::dummy()));
}

#[test]
fn resolver_reports_by_reason() {
    let infcx = InferCtxt::new();
    let upvar = UpvarId { var_id: 1, closure_expr_id: 2 };
    let cases = vec![
        (ResolveReason::ResolvingExpr(sp(1)), Diagnostic::CannotDetermineExprType(sp(1), FixupError::UnresolvedRegion(0))),
        (ResolveReason::ResolvingLocal(sp(1)), Diagnostic::CannotDetermineLocalType(sp(1), FixupError::UnresolvedRegion(0))),
        (ResolveReason::ResolvingPattern(sp(1)), Diagnostic::CannotDeterminePatternType(sp(1), FixupError::UnresolvedRegion(0))),
        (ResolveReason::ResolvingUpvar(upvar), Diagnostic::CannotResolveUpvarLifetime(upvar, FixupError::UnresolvedRegion(0))),
        (ResolveReason::ResolvingClosure(item(3)), Diagnostic::CannotDetermineClosureType(item(3))),
    ];
    for (reason, diagnostic) in cases {
        let mut fcx = FnCtxt::new(1, 0);
        Resolver::from_infcx(&infcx, reason).report_error(&mut fcx, FixupError::UnresolvedRegion(0));
        assert_eq!(fcx.diagnostics, vec![diagnostic]);
        assert_eq!(reason.diagnostic(FixupError::UnresolvedRegion(0)), diagnostic);
    }
}

#[test]
fn substitution_is_resolved_slot_by_slot() {
    let mut fcx = FnCtxt::new(1, 0);
    let mut infcx = InferCtxt::new();
    infcx.solve_ty(1, i32_ty());
    let resolver = Resolver::new(&infcx, ResolveReason::ResolvingExpr(sp(1)));
    let substs = substs_of(vec![Ty::Infer(1), Ty::Infer(2), Ty::Bool], vec![Region::Var(0), Region::Static]);
    assert_eq!(
        resolver.fold_substs(&mut fcx, &substs),
        substs_of(vec![i32_ty(), Ty::Error, Ty::Bool], vec![Region::Static, Region::Static])
    );
    // the regions come first
    assert_eq!(
        fcx.diagnostics,
        vec![Diagnostic::CannotDetermineExprType(sp(1), FixupError::UnresolvedRegion(0))]
    );
}

#[test]
fn adjustments_and_their_dereferences_are_moved() {
    let mut fcx = FnCtxt::new(1, 0);
    let mut infcx = InferCtxt::new();
    infcx.solve_ty(1, i32_ty());
    infcx.solve_region(0, Region::Free(3));
    fcx.write_ty(10, Ty::Bool);
    fcx.write_adjustment(
        10,
        AutoAdjustment::DerefRef(AutoDerefRef {
            autoderefs: 2,
            autoref: Some(AutoRef::Ptr(Region::Var(0), Mutability::Mutable)),
            unsize: Some(Ty::Slice(Box::new(Ty::Infer(1)))),
        }),
    );
    fcx.write_method(MethodCall::autoderef(10, 0), callee(Ty::Infer(1), substs_of(vec![], vec![])));
    fcx.write_method(MethodCall::autoderef(10, 1), callee(Ty::Bool, substs_of(vec![Ty::Infer(1)], vec![])));
    // not one of the two dereferences that the adjustment counts
    fcx.write_method(MethodCall::autoderef(10, 2), callee(Ty::Bool, substs_of(vec![], vec![])));
    fcx.write_adjustment(11, AutoAdjustment::ReifyFnPointer);

    let wbcx = WritebackCx::new(&infcx);
    wbcx.visit_node_id(&mut fcx, ResolveReason::ResolvingExpr(sp(10)), 10);
    wbcx.visit_adjustments(&mut fcx, ResolveReason::ResolvingExpr(sp(11)), 11);
    wbcx.visit_adjustments(&mut fcx, ResolveReason::ResolvingExpr(sp(12)), 12);

    assert_eq!(
        fcx.tcx.adjustments.get(&10),
        Some(&AutoAdjustment::DerefRef(AutoDerefRef {
            autoderefs: 2,
            autoref: Some(AutoRef::Ptr(Region::Free(3), Mutability::Mutable)),
            unsize: Some(Ty::Slice(Box::new(i32_ty()))),
        }))
    );
    assert_eq!(fcx.tcx.adjustments.get(&11), Some(&AutoAdjustment::ReifyFnPointer));
    assert_eq!(fcx.tcx.adjustments.len(), 2);
    assert!(fcx.inh.adjustments.is_empty());

    let resolved_origin = MethodOrigin::TypeParam(MethodParam {
        trait_ref: TraitRef { def_id: item(9), substs: substs_of(vec![i32_ty()], vec![]) },
        method_num: 0,
        impl_def_id: None,
    });
    assert_eq!(
        fcx.tcx.method_map.get(&MethodCall::autoderef(10, 0).to_key()),
        Some(&MethodCallee { origin: resolved_origin, ty: i32_ty(), substs: substs_of(vec![], vec![]) })
    );
    assert_eq!(
        fcx.tcx.method_map.get(&MethodCall::autoderef(10, 1).to_key()).map(|m| &m.substs),
        Some(&substs_of(vec![i32_ty()], vec![]))
    );
    assert_eq!(fcx.tcx.method_map.len(), 2);
    assert_eq!(fcx.inh.method_map.len(), 1);
    assert!(fcx.inh.method_map.contains_key(&MethodCall::autoderef(10, 2).to_key()));
    assert!(!fcx.writeback_errors);
}

#[test]
fn method_calls_are_moved() {
    let mut fcx = FnCtxt::new(1, 0);
    let mut infcx = InferCtxt::new();
    infcx.solve_ty(1, Ty::Char);
    fcx.write_ty(10, Ty::Bool);
    fcx.write_method(MethodCall::expr(10), callee(Ty::Infer(1), substs_of(vec![], vec![Region::Static])));
    resolve_type_vars_in_expr(&mut fcx, &infcx, &path(10));
    assert_eq!(
        fcx.tcx.method_map.get(&MethodCall::expr(10).to_key()).map(|m| &m.ty),
        Some(&Ty::Char)
    );
    assert!(fcx.inh.method_map.is_empty());
    assert_ne!(MethodCall::expr(10).to_key(), MethodCall::autoderef(10, 0).to_key());
    assert_eq!(MethodCall::expr(10), MethodCall { expr_id: 10, autoderef: 0 });
    assert_eq!(MethodCall::autoderef(10, 0), MethodCall { expr_id: 10, autoderef: 1 });
    assert_eq!(MethodCall { expr_id: 2, autoderef: 3 }.to_key(), 2 * 4294967296 + 3);
}

fn binary(op: BinOp) -> Expr {
    expr(30, ExprKind::Binary(op, Box::new(path(31)), Box::new(path(32))))
}

fn operator_fcx(lhs: Ty, rhs: Ty) -> FnCtxt {
    let mut fcx = FnCtxt::new(1, 0);
    fcx.write_ty(30, Ty::Bool);
    fcx.write_ty(31, lhs);
    fcx.write_ty(32, rhs);
    fcx.write_method(MethodCall::expr(30), callee(Ty::Bool, substs_of(vec![], vec![])));
    let by_ref = AutoAdjustment::DerefRef(AutoDerefRef {
        autoderefs: 0,
        autoref: Some(AutoRef::Ptr(Region::Static, Mutability::Immutable)),
        unsize: None,
    });
    fcx.write_adjustment(31, by_ref);
    fcx
}

#[test]
fn operator_on_scalars_loses_its_overload() {
    let mut infcx = InferCtxt::new();
    infcx.solve_ty(1, i32_ty());
    let wbcx = WritebackCx::new(&infcx);

    // `a + b` on integers: by value, so the adjustment stays
    let mut fcx = operator_fcx(i32_ty(), Ty::Infer(1));
    wbcx.fix_scalar_binary_expr(&mut fcx, &binary(BinOp::Add));
    assert!(fcx.inh.method_map.is_empty());
    assert!(fcx.inh.adjustments.contains_key(&31));

    // `a == b` on integers: by reference, so the adjustment of `a` goes too
    let mut fcx = operator_fcx(i32_ty(), i32_ty());
    wbcx.fix_scalar_binary_expr(&mut fcx, &binary(BinOp::Eq));
    assert!(fcx.inh.method_map.is_empty());
    assert!(fcx.inh.adjustments.is_empty());

    // an operand that is no scalar keeps the overload
    let mut fcx = operator_fcx(i32_ty(), Ty::Str);
    wbcx.fix_scalar_binary_expr(&mut fcx, &binary(BinOp::Eq));
    assert_eq!(fcx.inh.method_map.len(), 1);
    assert_eq!(fcx.inh.adjustments.len(), 1);

    // so does one that is not resolved
    let mut fcx = operator_fcx(i32_ty(), Ty::Infer(2));
    wbcx.fix_scalar_binary_expr(&mut fcx, &binary(BinOp::Add));
    assert_eq!(fcx.inh.method_map.len(), 1);

    // nothing permanent is written for the dropped overload
    let mut fcx = operator_fcx(i32_ty(), i32_ty());
    resolve_type_vars_in_expr(&mut fcx, &infcx, &binary(BinOp::Lt));
    assert!(fcx.tcx.method_map.is_empty());
    assert!(fcx.tcx.adjustments.is_empty());
    assert_eq!(fcx.tcx.node_types.len(), 3);

    let mut fcx = operator_fcx(i32_ty(), Ty::Str);
    resolve_type_vars_in_expr(&mut fcx, &infcx, &binary(BinOp::Lt));
    assert_eq!(fcx.tcx.method_map.len(), 1);
    assert_eq!(fcx.tcx.adjustments.len(), 1);
}

#[test]
fn scalars() {
    assert!(type_is_scalar(&Ty::Bool));
    assert!(type_is_scalar(&Ty::Char));
    assert!(type_is_scalar(&i32_ty()));
    assert!(type_is_scalar(&Ty::Uint(UintTy::U8)));
    assert!(type_is_scalar(&Ty::RawPtr(Mt { ty: Box::new(Ty::Str), mutbl: Mutability::Mutable })));
    assert!(!type_is_scalar(&Ty::Str));
    assert!(!type_is_scalar(&reference(Region::Static, i32_ty())));
    assert!(!type_is_scalar(&Ty::Infer(0)));
    assert!(BinOp::Shl.is_by_value());
    assert!(!BinOp::And.is_by_value());
    assert!(!BinOp::Ge.is_by_value());
}

#[test]
fn length_of_an_array_type_is_a_usize() {
    let mut fcx = FnCtxt::new(1, 0);
    let infcx = InferCtxt::new();
    // `x as [[T; n40]; n41]`
    let inner = AstTy::FixedLengthVec(Box::new(AstTy::Path), Box::new(path(40)));
    let outer = AstTy::FixedLengthVec(Box::new(AstTy::Other(List::from_vec(vec![inner]))), Box::new(path(41)));
    let cast = expr(50, ExprKind::Cast(Box::new(path(51)), Box::new(outer)));
    resolve_type_vars_in_expr(&mut fcx, &infcx, &cast);
    assert_eq!(fcx.tcx.node_types.get(&40), Some(&Ty::Uint(UintTy::Usize)));
    assert_eq!(fcx.tcx.node_types.get(&41), Some(&Ty::Uint(UintTy::Usize)));
    assert_eq!(fcx.tcx.node_types.len(), 2);
}

#[test]
fn locals_and_patterns() {
    let mut fcx = FnCtxt::new(1, 0);
    let mut infcx = InferCtxt::new();
    infcx.solve_ty(1, i32_ty());
    // `let (a, _) = e63;`
    let a = Pat { id: 61, span: sp(61), node: PatKind::Ident(None) };
    let wild = Pat { id: 62, span: sp(62), node: PatKind::Wild };
    let tuple = Pat { id: 60, span: sp(60), node: PatKind::Other(List::from_vec(vec![a, wild])) };
    let local = Local { id: 64, span: sp(64), pat: tuple, ty: None, init: Some(path(63)) };
    fcx.write_local_ty(64, Ty::Tuple(List::from_vec(vec![Ty::Infer(1), Ty::Bool])));
    fcx.write_ty(60, Ty::Tuple(List::from_vec(vec![Ty::Infer(1), Ty::Bool])));
    fcx.write_ty(61, Ty::Infer(1));
    fcx.write_ty(62, Ty::Bool);
    fcx.write_ty(63, Ty::Infer(9));
    let body = block(
        65,
        vec![Stmt { id: 66, span: sp(66), node: StmtKind::Local(Box::new(local)) }],
        None,
    );
    resolve_type_vars_in_fn(&mut fcx, &infcx, &no_args(), &body);
    let pair = Ty::Tuple(List::from_vec(vec![i32_ty(), Ty::Bool]));
    assert_eq!(fcx.tcx.node_types.get(&64), Some(&pair));
    assert_eq!(fcx.tcx.node_types.get(&60), Some(&pair));
    assert_eq!(fcx.tcx.node_types.get(&61), Some(&i32_ty()));
    assert_eq!(fcx.tcx.node_types.get(&62), Some(&Ty::Bool));
    assert_eq!(fcx.tcx.node_types.get(&63), Some(&Ty::Error));
    assert_eq!(
        fcx.diagnostics,
        vec![Diagnostic::CannotDetermineExprType(sp(63), FixupError::UnresolvedTy(9))]
    );
}

#[test]
fn unresolved_local_and_pattern_are_reported_as_such() {
    let infcx = InferCtxt::new();
    let wbcx = WritebackCx::new(&infcx);
    let mut fcx = FnCtxt::new(1, 0);
    fcx.write_local_ty(64, Ty::Infer(2));
    let local = Local {
        id: 64,
        span: sp(64),
        pat: Pat { id: 61, span: sp(61), node: PatKind::Wild },
        ty: None,
        init: None,
    };
    wbcx.visit_local(&mut fcx, &local);
    assert_eq!(
        fcx.diagnostics,
        vec![Diagnostic::CannotDetermineLocalType(sp(64), FixupError::UnresolvedTy(2))]
    );
    let mut fcx = FnCtxt::new(1, 0);
    fcx.write_ty(61, Ty::Infer(2));
    wbcx.visit_pat(&mut fcx, &Pat { id: 61, span: sp(61), node: PatKind::Wild });
    assert_eq!(
        fcx.diagnostics,
        vec![Diagnostic::CannotDeterminePatternType(sp(61), FixupError::UnresolvedTy(2))]
    );
}

#[test]
fn parameters_of_the_function() {
    let mut fcx = FnCtxt::new(1, 0);
    let infcx = InferCtxt::new();
    // fn f(a: T, (b, _): U)
    let a = Pat { id: 71, span: sp(71), node: PatKind::Ident(None) };
    let b = Pat { id: 74, span: sp(74), node: PatKind::Ident(None) };
    let wild = Pat { id: 75, span: sp(75), node: PatKind::Wild };
    let tuple = Pat { id: 73, span: sp(73), node: PatKind::Other(List::from_vec(vec![b, wild])) };
    for id in [70, 71, 72, 73, 74, 75] {
        fcx.write_ty(id, Ty::Bool);
    }
    // adjustments show which nodes are visited, and how often
    fcx.write_adjustment(71, AutoAdjustment::ReifyFnPointer);
    fcx.write_adjustment(73, AutoAdjustment::UnsafeFnPointer);
    let decl = FnDecl {
        inputs: List::from_vec(vec![
            Arg { id: 70, pat: a, ty: AstTy::Path },
            Arg { id: 72, pat: tuple, ty: AstTy::Path },
        ]),
        output: None,
    };
    assert!(decl.inputs.get(0).unwrap().pat.is_binding());
    assert!(!decl.inputs.get(1).unwrap().pat.is_binding());
    resolve_type_vars_in_fn(&mut fcx, &infcx, &decl, &block(76, vec![], None));
    assert_eq!(fcx.tcx.node_types.len(), 6);
    assert_eq!(fcx.tcx.adjustments.len(), 2);
    assert!(fcx.inh.adjustments.is_empty());
}

#[test]
fn closure_expression() {
    let mut fcx = FnCtxt::new(1, 0);
    let mut infcx = InferCtxt::new();
    infcx.solve_ty(1, i32_ty());
    // |x: [u8; e84]| { e86 }
    let x = Pat { id: 81, span: sp(81), node: PatKind::Ident(None) };
    let decl = FnDecl {
        inputs: List::from_vec(vec![Arg {
            id: 80,
            pat: x,
            ty: AstTy::FixedLengthVec(Box::new(AstTy::Path), Box::new(path(84))),
        }]),
        output: Some(AstTy::Path),
    };
    let closure = expr(
        87,
        ExprKind::Closure(Box::new(decl), Box::new(block(85, vec![], Some(path(86))))),
    );
    for id in [80, 81, 85, 86, 87] {
        fcx.write_ty(id, Ty::Infer(1));
    }
    resolve_type_vars_in_expr(&mut fcx, &infcx, &closure);
    for id in [80, 81, 85, 86, 87] {
        assert_eq!(fcx.tcx.node_types.get(&id), Some(&i32_ty()));
    }
    assert_eq!(fcx.tcx.node_types.get(&84), Some(&Ty::Uint(UintTy::Usize)));
}

#[test]
fn captures_and_closures_of_the_function() {
    let mut fcx = FnCtxt::new(1, 0);
    let mut infcx = InferCtxt::new();
    infcx.solve_region(0, Region::Free(2));
    infcx.solve_ty(1, i32_ty());
    let by_value = UpvarEntry { id: UpvarId { var_id: 1, closure_expr_id: 9 }, capture: UpvarCapture::ByValue };
    let by_ref = UpvarEntry {
        id: UpvarId { var_id: 2, closure_expr_id: 9 },
        capture: UpvarCapture::ByRef(BorrowKind::Mut, Region::Var(0)),
    };
    fcx.inh.upvar_capture_map = List::from_vec(vec![by_value, by_ref]);
    let sig = |t: Ty| ClosureTy {
        unsafety: Unsafety::Normal,
        abi: Abi::RustCall,
        sig: Binder(FnSig {
            inputs: List::from_vec(vec![t.clone()]),
            output: FnOutput::Converging(t),
            variadic: false,
        }),
    };
    fcx.inh.closure_tys = List::from_vec(vec![ClosureTyEntry { def_id: item(9), ty: sig(Ty::Infer(1)) }]);
    fcx.inh.closure_kinds = List::from_vec(vec![ClosureKindEntry { def_id: item(9), kind: ClosureKind::FnMut }]);
    fcx.tcx.closure_kinds = List::from_vec(vec![ClosureKindEntry { def_id: item(8), kind: ClosureKind::Fn }]);

    resolve_type_vars_in_expr(&mut fcx, &infcx, &path(10));
    assert_eq!(
        fcx.tcx.upvar_capture_map,
        List::from_vec(vec![
            by_value,
            UpvarEntry {
                id: UpvarId { var_id: 2, closure_expr_id: 9 },
                capture: UpvarCapture::ByRef(BorrowKind::Mut, Region::Free(2)),
            }
        ])
    );
    assert_eq!(
        fcx.tcx.closure_tys,
        List::from_vec(vec![ClosureTyEntry { def_id: item(9), ty: sig(i32_ty()) }])
    );
    assert_eq!(
        fcx.tcx.closure_kinds,
        List::from_vec(vec![
            ClosureKindEntry { def_id: item(8), kind: ClosureKind::Fn },
            ClosureKindEntry { def_id: item(9), kind: ClosureKind::FnMut }
        ])
    );
    assert!(!fcx.writeback_errors);
}

#[test]
fn unresolved_capture_and_closure() {
    let infcx = InferCtxt::new();
    let wbcx = WritebackCx::new(&infcx);
    let upvar = UpvarId { var_id: 2, closure_expr_id: 9 };
    let mut fcx = FnCtxt::new(1, 0);
    fcx.inh.upvar_capture_map = List::from_vec(vec![UpvarEntry {
        id: upvar,
        capture: UpvarCapture::ByRef(BorrowKind::Imm, Region::Var(5)),
    }]);
    wbcx.visit_upvar_borrow_map(&mut fcx);
    assert_eq!(
        fcx.tcx.upvar_capture_map,
        List::from_vec(vec![UpvarEntry {
            id: upvar,
            capture: UpvarCapture::ByRef(BorrowKind::Imm, Region::Static),
        }])
    );
    assert_eq!(
        fcx.diagnostics,
        vec![Diagnostic::CannotResolveUpvarLifetime(upvar, FixupError::UnresolvedRegion(5))]
    );
    // the closures are made permanent though the function has failed
    fcx.inh.closure_kinds = List::from_vec(vec![ClosureKindEntry { def_id: item(9), kind: ClosureKind::FnOnce }]);
    wbcx.visit_closures(&mut fcx);
    assert_eq!(
        fcx.tcx.closure_kinds,
        List::from_vec(vec![ClosureKindEntry { def_id: item(9), kind: ClosureKind::FnOnce }])
    );

    let mut fcx = FnCtxt::new(1, 0);
    fcx.inh.closure_tys = List::from_vec(vec![ClosureTyEntry {
        def_id: item(9),
        ty: ClosureTy {
            unsafety: Unsafety::Normal,
            abi: Abi::RustCall,
            sig: Binder(FnSig { inputs: List::Nil, output: FnOutput::Converging(Ty::Infer(3)), variadic: false }),
        },
    }]);
    wbcx.visit_closures(&mut fcx);
    assert_eq!(fcx.diagnostics, vec![Diagnostic::CannotDetermineClosureType(item(9))]);
    assert!(fcx.writeback_errors);
}

#[test]
fn arguments_of_items_become_permanent_unless_there_are_none() {
    let mut fcx = FnCtxt::new(1, 0);
    let mut infcx = InferCtxt::new();
    infcx.solve_ty(1, i32_ty());
    fcx.write_substs(10, substs_of(vec![Ty::Infer(1)], vec![]));
    fcx.write_substs(11, substs_of(vec![], vec![]));
    let both = expr(10, ExprKind::Paren(Box::new(path(11))));
    resolve_type_vars_in_expr(&mut fcx, &infcx, &both);
    assert_eq!(fcx.tcx.item_substs.get(&10), Some(&substs_of(vec![i32_ty()], vec![])));
    assert_eq!(fcx.tcx.item_substs.get(&11), None);
    write_substs_to_tcx(&mut fcx, 12, substs_of(vec![], vec![Region::Static]));
    assert_eq!(fcx.tcx.item_substs.len(), 2);
    write_ty_to_tcx(&mut fcx, 12, Ty::Str);
    assert_eq!(fcx.tcx.node_types.get(&12), Some(&Ty::Str));
}

#[test]
fn every_node_of_a_body_is_visited_in_order() {
    // the first unresolved node in the order of the pass is the one reported
    let infcx = InferCtxt::new();
    let body = || {
        expr(
            1,
            ExprKind::Other(List::from_vec(vec![
                expr(2, ExprKind::Index(Box::new(path(3)), Box::new(path(4)))),
                expr(5, ExprKind::Block(Box::new(block(6, vec![
                    Stmt { id: 7, span: sp(7), node: StmtKind::Expr(Box::new(path(8))) },
                    Stmt { id: 9, span: sp(9), node: StmtKind::Item },
                ], Some(expr(10, ExprKind::Field(Box::new(expr(11, ExprKind::TupField(Box::new(path(12)), 0))), 5))))))),
            ])),
        )
    };
    let order = [1u32, 2, 3, 4, 5, 6, 7, 8, 9, 10, 11, 12];
    for (k, bad) in order.iter().enumerate() {
        let mut fcx = FnCtxt::new(1, 0);
        // the bad node and all that are visited after it cannot be resolved
        for (i, id) in order.iter().enumerate() {
            fcx.write_ty(*id, if i >= k { Ty::Infer(0) } else { Ty::Bool });
        }
        resolve_type_vars_in_expr(&mut fcx, &infcx, &body());
        assert!(fcx.writeback_errors);
        // every node is written, the bad ones with the error type
        assert_eq!(fcx.tcx.node_types.len(), 12);
        for (i, id) in order.iter().enumerate() {
            let expected = if i >= k { Ty::Error } else { Ty::Bool };
            assert_eq!(fcx.tcx.node_types.get(id), Some(&expected));
        }
        assert_eq!(
            fcx.diagnostics,
            vec![Diagnostic::CannotDetermineExprType(sp(*bad), FixupError::UnresolvedTy(0))]
        );
    }
    let mut fcx = FnCtxt::new(1, 0);
    for id in order {
        fcx.write_ty(id, Ty::Bool);
    }
    resolve_type_vars_in_expr(&mut fcx, &infcx, &body());
    assert!(!fcx.writeback_errors);
    assert_eq!(fcx.tcx.node_types.len(), 12);
}

#[test]
fn folding() {
    let t0 = Ty::Param(ParamTy { space: ParamSpace::TypeSpace, idx: 0 });
    let t5 = Ty::Param(ParamTy { space: ParamSpace::TypeSpace, idx: 5 });
    let term = Ty::Tuple(List::from_vec(vec![
        t0.clone(),
        t5.clone(),
        reference(Region::EarlyBound(ParamSpace::TypeSpace, 0), Ty::Infer(3)),
        reference(Region::LateBound(1, 2), Ty::Bool),
    ]));
    let substs = substs_of(vec![i32_ty()], vec![Region::Free(1)]);
    assert_eq!(
        fold_ty(&Folder::Subst(&substs), 0, &term),
        Ty::Tuple(List::from_vec(vec![
            i32_ty(),
            t5.clone(),
            reference(Region::Free(1), Ty::Infer(3)),
            reference(Region::LateBound(1, 2), Ty::Bool),
        ]))
    );
    let erased = Substs {
        types: PerSpace { types: List::Nil, selfs: List::Nil, fns: List::Nil },
        regions: RegionSubsts::Erased,
    };
    assert_eq!(
        fold_ty(&Folder::Subst(&erased), 0, &reference(Region::EarlyBound(ParamSpace::FnSpace, 3), t0.clone())),
        reference(Region::Static, t0.clone())
    );
    assert_eq!(
        fold_ty(&Folder::Open(10), 1, &term),
        Ty::Tuple(List::from_vec(vec![
            t0.clone(),
            t5.clone(),
            reference(Region::EarlyBound(ParamSpace::TypeSpace, 0), Ty::Infer(3)),
            reference(Region::Var(12), Ty::Bool),
        ]))
    );
    // a region bound by an inner binder stays; one bound by the opened
    // binder is found at depth 2 inside a function type
    let inner = Ty::BareFn(
        None,
        Box::new(BareFnTy {
            unsafety: Unsafety::Normal,
            abi: Abi::Rust,
            sig: Binder(FnSig {
                inputs: List::from_vec(vec![
                    reference(Region::LateBound(1, 0), Ty::Bool),
                    reference(Region::LateBound(2, 0), Ty::Bool),
                ]),
                output: FnOutput::Diverging,
                variadic: false,
            }),
        }),
    );
    let opened = fold_ty(&Folder::Open(4), 1, &inner);
    match opened {
        Ty::BareFn(_, f) => assert_eq!(
            f.sig.0.inputs,
            List::from_vec(vec![
                reference(Region::LateBound(1, 0), Ty::Bool),
                reference(Region::Var(4), Ty::Bool),
            ])
        ),
        other => panic!("{:?}", other),
    }
    let mut infcx = InferCtxt::new();
    infcx.solve_ty(3, Ty::Char);
    assert_eq!(
        fold_ty(&Folder::Resolve(&infcx), 0, &Ty::Tuple(List::from_vec(vec![Ty::Infer(3), Ty::Infer(4)]))),
        Ty::Tuple(List::from_vec(vec![Ty::Char, Ty::Infer(4)]))
    );
}

#[test]
fn scanning() {
    let term = Ty::Tuple(List::from_vec(vec![
        reference(Region::LateBound(1, 2), Ty::Bool),
        reference(Region::Var(7), Ty::Infer(3)),
        Ty::Infer(4),
    ]));
    assert_eq!(
        scan_ty(1, &term),
        Summary { unresolved: Some(FixupError::UnresolvedRegion(7)), bound: 3 }
    );
    assert_eq!(scan_ty(0, &Ty::Bool), Summary { unresolved: None, bound: 0 });
    assert_eq!(
        scan_ty(0, &Ty::Uniq(Box::new(Ty::Infer(4)))),
        Summary { unresolved: Some(FixupError::UnresolvedTy(4)), bound: 0 }
    );
    let sig = FnSig {
        inputs: List::from_vec(vec![reference(Region::LateBound(1, 0), Ty::Bool)]),
        output: FnOutput::Converging(reference(Region::LateBound(1, 1), Ty::Bool)),
        variadic: false,
    };
    assert_eq!(scan_fn_sig(1, &sig).bound, 2);
    assert_eq!(scan_fn_sig(2, &sig).bound, 0);
}

#[test]
fn minting() {
    let mut infcx = InferCtxt::new();
    assert_eq!(infcx.next_ty_var(), Ty::Infer(0));
    assert_eq!(infcx.next_ty_vars(2), List::from_vec(vec![Ty::Infer(1), Ty::Infer(2)]));
    assert_eq!(infcx.next_region_var(), Region::Var(0));
    assert_eq!(infcx.next_region_vars(2), List::from_vec(vec![Region::Var(1), Region::Var(2)]));
    assert_eq!(infcx.next_ty_vars(0), List::Nil);
    assert_eq!((infcx.next_ty_var, infcx.next_region_var), (3, 3));
}
