//! Writeback: the last pass over a checked function. It goes through the
//! body once, resolves what checking recorded about each node against the
//! oracle's answers, and moves it from the working tables to the permanent
//! ones.
//!
//! Once a resolution has failed, the function is marked as failed, and later
//! phases do not run on it. The pass still goes through the whole body: a
//! node whose type cannot be resolved gets the error type, adjustments and
//! method entries are moved all the same, and only further failures are no
//! longer shown. What the pass does to the context is given by the `_spec`
//! functions of this module, node by node.

use crate::ast::{Arg, AstTy, Block, Expr, ExprKind, FnDecl, Local, Pat, PatKind, Stmt, StmtKind};
use crate::fold::{fold_ty, Folder};
use crate::infer::InferCtxt;
use crate::list::{copy_list, List};
use crate::permanent::{
    put_captures, put_kinds, put_signatures, with_captures, with_kinds, with_signatures,
};
use crate::resolve::{
    answered_ty, noted, noted_substs, noted_tys, region_fixup_error, resolved_region,
    resolved_substs, resolved_ty, resolved_tys, ty_fixup_error, ResolveReason, Resolver,
};
use crate::scan::{scan_substs_spec, FixupError};
use crate::tables::{
    adjustment_concrete, callee_concrete, is_noop, write_substs_to_tcx, write_ty_to_tcx,
    AutoAdjustment, AutoDerefRef, AutoRef, ClosureKindEntry, ClosureTy, ClosureTyEntry, FnCtxt,
    FnCtxtView, MethodCall, MethodCallee, MethodObject, MethodOrigin, MethodParam, TablesView,
    UpvarCapture, UpvarEntry,
};
use crate::ty::{Binder, FnOutput, FnSig, NodeId, Span, TraitRef, Ty, UintTy};
use vstd::prelude::*;

verus! {

// ---------------------------------------------------------------------------
// What resolution makes of the records
/// An implicit reference with its region resolved.
pub open spec fn resolved_autoref(infcx: InferCtxt, autoref: Option<AutoRef>) -> Option<AutoRef> {
    match autoref {
        Some(AutoRef::Ptr(r, m)) => Some(AutoRef::Ptr(resolved_region(infcx, r), m)),
        _ => autoref,
    }
}

/// The placeholder left in an implicit reference, if any.
pub open spec fn autoref_error(infcx: InferCtxt, autoref: Option<AutoRef>) -> Option<FixupError> {
    match autoref {
        Some(AutoRef::Ptr(r, _)) => region_fixup_error(infcx, r),
        _ => None,
    }
}

/// A type, if there is one, fully resolved.
pub open spec fn resolved_opt_ty(infcx: InferCtxt, t: Option<Ty>) -> Option<Ty> {
    match t {
        Some(t) => Some(resolved_ty(infcx, t)),
        None => None,
    }
}

/// The placeholder left in a type, if there is a type and a placeholder.
pub open spec fn opt_ty_error(infcx: InferCtxt, t: Option<Ty>) -> Option<FixupError> {
    match t {
        Some(t) => ty_fixup_error(infcx, t),
        None => None,
    }
}

/// A trait reference with its arguments resolved.
pub open spec fn resolved_trait_ref(infcx: InferCtxt, t: TraitRef) -> TraitRef {
    TraitRef { def_id: t.def_id, substs: resolved_substs(infcx, t.substs) }
}

/// The origin of a method with its trait reference resolved.
pub open spec fn resolved_origin(infcx: InferCtxt, origin: MethodOrigin) -> MethodOrigin {
    match origin {
        MethodOrigin::Static(id) => MethodOrigin::Static(id),
        MethodOrigin::TypeParam(p) => MethodOrigin::TypeParam(
            MethodParam {
                trait_ref: resolved_trait_ref(infcx, p.trait_ref),
                method_num: p.method_num,
                impl_def_id: p.impl_def_id,
            },
        ),
        MethodOrigin::TraitObject(o) => MethodOrigin::TraitObject(
            MethodObject {
                trait_ref: resolved_trait_ref(infcx, o.trait_ref),
                object_trait_id: o.object_trait_id,
                method_num: o.method_num,
                vtable_index: o.vtable_index,
            },
        ),
    }
}

/// The context after the origin of a method has been resolved.
pub open spec fn noted_origin(
    s: FnCtxtView,
    infcx: InferCtxt,
    reason: ResolveReason,
    origin: MethodOrigin,
) -> FnCtxtView {
    match origin {
        MethodOrigin::Static(_) => s,
        MethodOrigin::TypeParam(p) => noted_substs(s, infcx, reason, p.trait_ref.substs),
        MethodOrigin::TraitObject(o) => noted_substs(s, infcx, reason, o.trait_ref.substs),
    }
}

/// The record of a method call with its origin, its type and its arguments
/// resolved.
pub open spec fn resolved_callee(infcx: InferCtxt, m: MethodCallee) -> MethodCallee {
    MethodCallee {
        origin: resolved_origin(infcx, m.origin),
        ty: resolved_ty(infcx, m.ty),
        substs: resolved_substs(infcx, m.substs),
    }
}

/// The context after the record of a method call has been resolved: its
/// origin, its type, then its arguments.
#[verifier::opaque]
pub open spec fn noted_callee(
    s: FnCtxtView,
    infcx: InferCtxt,
    reason: ResolveReason,
    m: MethodCallee,
) -> FnCtxtView {
    noted_substs(
        noted(noted_origin(s, infcx, reason, m.origin), reason, ty_fixup_error(infcx, m.ty)),
        infcx,
        reason,
        m.substs,
    )
}

/// What a function returns, fully resolved.
pub open spec fn resolved_fn_output(infcx: InferCtxt, output: FnOutput) -> FnOutput {
    match output {
        FnOutput::Converging(t) => FnOutput::Converging(resolved_ty(infcx, t)),
        FnOutput::Diverging => FnOutput::Diverging,
    }
}

/// The placeholder left in what a function returns, if any.
pub open spec fn fn_output_error(infcx: InferCtxt, output: FnOutput) -> Option<FixupError> {
    match output {
        FnOutput::Converging(t) => ty_fixup_error(infcx, t),
        FnOutput::Diverging => None,
    }
}

/// The signature of a closure with each input and the output resolved.
pub open spec fn resolved_closure_ty(infcx: InferCtxt, c: ClosureTy) -> ClosureTy {
    ClosureTy {
        unsafety: c.unsafety,
        abi: c.abi,
        sig: Binder(
            FnSig {
                inputs: resolved_tys(infcx, c.sig.0.inputs),
                output: resolved_fn_output(infcx, c.sig.0.output),
                variadic: c.sig.0.variadic,
            },
        ),
    }
}

/// The context after the signature of a closure has been resolved.
#[verifier::opaque]
pub open spec fn noted_closure_ty(
    s: FnCtxtView,
    infcx: InferCtxt,
    reason: ResolveReason,
    c: ClosureTy,
) -> FnCtxtView {
    noted(
        noted_tys(s, infcx, reason, c.sig.0.inputs),
        reason,
        fn_output_error(infcx, c.sig.0.output),
    )
}

/// Whether values of the type are scalars: numbers, `bool`, `char`, raw
/// pointers and function pointers.
pub open spec fn spec_type_is_scalar(t: Ty) -> bool {
    t is Bool || t is Char || t is Int || t is Uint || t is Float || t is BareFn || t is RawPtr
}

// ---------------------------------------------------------------------------
// What the pass does to the context
impl FnCtxtView {
    /// The context with other working tables.
    pub open spec fn with_inh(self, inh: TablesView) -> FnCtxtView {
        FnCtxtView { inh, ..self }
    }

    /// The context with other permanent tables.
    pub open spec fn with_tcx(self, tcx: TablesView) -> FnCtxtView {
        FnCtxtView { tcx, ..self }
    }
}

/// Moves the record of a method call, if there is one, from the working
/// table to the permanent one, resolved.
#[verifier::opaque]
pub open spec fn visit_method_map_entry_spec(
    s: FnCtxtView,
    infcx: InferCtxt,
    reason: ResolveReason,
    call: MethodCall,
) -> FnCtxtView {
    if s.inh.method_map.contains_key(call.key()) {
        let m = s.inh.method_map[call.key()];
        let taken = s.with_inh(
            TablesView { method_map: s.inh.method_map.remove(call.key()), ..s.inh },
        );
        let told = noted_callee(taken, infcx, reason, m);
        told.with_tcx(
            TablesView {
                method_map: told.tcx.method_map.insert(call.key(), resolved_callee(infcx, m)),
                ..told.tcx
            },
        )
    } else {
        s
    }
}

/// Moves the records of the overloaded dereferences `from`, .., `to - 1` of
/// the node `id`.
pub open spec fn visit_autoderefs_spec(
    s: FnCtxtView,
    infcx: InferCtxt,
    reason: ResolveReason,
    id: NodeId,
    from: u32,
    to: u32,
) -> FnCtxtView
    decreases to - from,
{
    if from >= to {
        s
    } else {
        visit_autoderefs_spec(
            visit_method_map_entry_spec(s, infcx, reason, MethodCall::spec_autoderef(id, from)),
            infcx,
            reason,
            id,
            (from + 1) as u32,
            to,
        )
    }
}

/// An adjustment with its reference and its target type resolved.
pub open spec fn resolved_adjustment(infcx: InferCtxt, adj: AutoAdjustment) -> AutoAdjustment {
    match adj {
        AutoAdjustment::DerefRef(a) => AutoAdjustment::DerefRef(
            AutoDerefRef {
                autoderefs: a.autoderefs,
                autoref: resolved_autoref(infcx, a.autoref),
                unsize: resolved_opt_ty(infcx, a.unsize),
            },
        ),
        _ => adj,
    }
}

/// Moves the adjustment of a node, if there is one, to the permanent table,
/// resolved, and with it the records of its overloaded dereferences.
#[verifier::opaque]
pub open spec fn visit_adjustments_spec(
    s: FnCtxtView,
    infcx: InferCtxt,
    reason: ResolveReason,
    id: NodeId,
) -> FnCtxtView {
    if s.inh.adjustments.contains_key(id) {
        let adj = s.inh.adjustments[id];
        let taken = s.with_inh(TablesView { adjustments: s.inh.adjustments.remove(id), ..s.inh });
        let told = match adj {
            AutoAdjustment::DerefRef(a) => noted(
                noted(
                    visit_autoderefs_spec(taken, infcx, reason, id, 0, a.autoderefs),
                    reason,
                    autoref_error(infcx, a.autoref),
                ),
                reason,
                opt_ty_error(infcx, a.unsize),
            ),
            _ => taken,
        };
        told.with_tcx(
            TablesView {
                adjustments: told.tcx.adjustments.insert(id, resolved_adjustment(infcx, adj)),
                ..told.tcx
            },
        )
    } else {
        s
    }
}

/// What is done for every node: its adjustment, its type and the arguments
/// with which it names an item are resolved and made permanent.
#[verifier::opaque]
pub open spec fn visit_node_id_spec(
    s: FnCtxtView,
    infcx: InferCtxt,
    reason: ResolveReason,
    id: NodeId,
) -> FnCtxtView {
    let s1 = visit_adjustments_spec(s, infcx, reason, id);
    let s2 = if s1.inh.node_types.contains_key(id) {
        let t = s1.inh.node_types[id];
        let told = noted(s1, reason, ty_fixup_error(infcx, t));
        told.with_tcx(
            TablesView {
                node_types: told.tcx.node_types.insert(id, resolved_ty(infcx, t)),
                ..told.tcx
            },
        )
    } else {
        s1
    };
    if s2.inh.item_substs.contains_key(id) {
        let substs = s2.inh.item_substs[id];
        let told = noted_substs(s2, infcx, reason, substs);
        if is_noop(resolved_substs(infcx, substs)) {
            told
        } else {
            told.with_tcx(
                TablesView {
                    item_substs: told.tcx.item_substs.insert(id, resolved_substs(infcx, substs)),
                    ..told.tcx
                },
            )
        }
    } else {
        s2
    }
}

/// Whether the node `id` has a recorded type that is, as far as the oracle
/// has answered, a scalar.
pub open spec fn known_scalar(s: FnCtxtView, infcx: InferCtxt, id: NodeId) -> bool {
    s.inh.node_types.contains_key(id) && spec_type_is_scalar(
        answered_ty(infcx, s.inh.node_types[id]),
    )
}

/// Checking treats every operator as overloaded. For a binary operator on
/// two scalars the overload is dropped here: the record of the method call
/// goes, and, unless the operator takes its operands by value, the adjustment
/// of the left operand.
#[verifier::opaque]
pub open spec fn fix_scalar_binary_expr_spec(s: FnCtxtView, infcx: InferCtxt, e: Expr) -> FnCtxtView {
    match e.node {
        ExprKind::Binary(op, lhs, rhs) => if known_scalar(s, infcx, lhs.id) && known_scalar(
            s,
            infcx,
            rhs.id,
        ) {
            let pruned = s.with_inh(
                TablesView {
                    method_map: s.inh.method_map.remove(MethodCall::spec_expr(e.id).key()),
                    ..s.inh
                },
            );
            if op.spec_is_by_value() {
                pruned
            } else {
                pruned.with_inh(
                    TablesView {
                        adjustments: pruned.inh.adjustments.remove(lhs.id),
                        ..pruned.inh
                    },
                )
            }
        } else {
            s
        },
        _ => s,
    }
}

/// The pass over a written type: the length of an array type gets the
/// type of lengths.
pub open spec fn visit_ty_spec(s: FnCtxtView, t: AstTy) -> FnCtxtView
    decreases t,
{
    match t {
        AstTy::Path => s,
        AstTy::FixedLengthVec(elem, count) => {
            let s1 = visit_ty_spec(s, *elem);
            s1.with_tcx(
                TablesView {
                    node_types: s1.tcx.node_types.insert(count.id, Ty::Uint(UintTy::Usize)),
                    ..s1.tcx
                },
            )
        },
        AstTy::Other(parts) => visit_tys_spec(s, parts),
    }
}

/// The pass over each written type of a list.
pub open spec fn visit_tys_spec(s: FnCtxtView, l: List<AstTy>) -> FnCtxtView
    decreases l,
{
    match l {
        List::Nil => s,
        List::Cons(t, rest) => visit_tys_spec(visit_ty_spec(s, *t), *rest),
    }
}

/// The pass over a written type, if there is one.
pub open spec fn visit_opt_ty_spec(s: FnCtxtView, t: Option<AstTy>) -> FnCtxtView {
    match t {
        Some(t) => visit_ty_spec(s, t),
        None => s,
    }
}

/// The pass over a pattern: its node, then what is written in it.
pub open spec fn visit_pat_spec(s: FnCtxtView, infcx: InferCtxt, p: Pat) -> FnCtxtView
    decreases p,
{
    let s1 = visit_node_id_spec(s, infcx, ResolveReason::ResolvingPattern(p.span), p.id);
    match p.node {
        PatKind::Wild => s1,
        PatKind::Ident(None) => s1,
        PatKind::Ident(Some(sub)) => visit_pat_spec(s1, infcx, *sub),
        PatKind::Lit(exprs) => visit_exprs_spec(s1, infcx, exprs),
        PatKind::Other(pats) => visit_pats_spec(s1, infcx, pats),
    }
}

/// The pass over each pattern of a list.
pub open spec fn visit_pats_spec(s: FnCtxtView, infcx: InferCtxt, l: List<Pat>) -> FnCtxtView
    decreases l,
{
    match l {
        List::Nil => s,
        List::Cons(p, rest) => visit_pats_spec(visit_pat_spec(s, infcx, *p), infcx, *rest),
    }
}

/// The pass over a `let`: the type of the variable, the pattern, the
/// written type and the initializer.
pub open spec fn visit_local_spec(s: FnCtxtView, infcx: InferCtxt, l: Local) -> FnCtxtView
    decreases l,
{
    let s1 = if s.locals.contains_key(l.id) {
        let t = s.locals[l.id];
        let told = noted(s, ResolveReason::ResolvingLocal(l.span), ty_fixup_error(infcx, t));
        told.with_tcx(
            TablesView {
                node_types: told.tcx.node_types.insert(l.id, resolved_ty(infcx, t)),
                ..told.tcx
            },
        )
    } else {
        s
    };
    let s2 = visit_pat_spec(s1, infcx, l.pat);
    let s3 = visit_opt_ty_spec(s2, l.ty);
    match l.init {
        Some(e) => visit_expr_spec(s3, infcx, e),
        None => s3,
    }
}

/// The pass over a statement: its node, then what it holds.
pub open spec fn visit_stmt_spec(s: FnCtxtView, infcx: InferCtxt, stmt: Stmt) -> FnCtxtView
    decreases stmt,
{
    let s1 = visit_node_id_spec(s, infcx, ResolveReason::ResolvingExpr(stmt.span), stmt.id);
    match stmt.node {
        StmtKind::Local(l) => visit_local_spec(s1, infcx, *l),
        StmtKind::Item => s1,
        StmtKind::Expr(e) => visit_expr_spec(s1, infcx, *e),
        StmtKind::Semi(e) => visit_expr_spec(s1, infcx, *e),
    }
}

/// The pass over each statement of a list.
pub open spec fn visit_stmts_spec(s: FnCtxtView, infcx: InferCtxt, l: List<Stmt>) -> FnCtxtView
    decreases l,
{
    match l {
        List::Nil => s,
        List::Cons(stmt, rest) => visit_stmts_spec(visit_stmt_spec(s, infcx, *stmt), infcx, *rest),
    }
}

/// The pass over a block: its node, its statements, and the expression
/// that it ends with.
pub open spec fn visit_block_spec(s: FnCtxtView, infcx: InferCtxt, b: Block) -> FnCtxtView
    decreases b,
{
    let s1 = visit_node_id_spec(s, infcx, ResolveReason::ResolvingExpr(b.span), b.id);
    let s2 = visit_stmts_spec(s1, infcx, b.stmts);
    match b.expr {
        Some(e) => visit_expr_spec(s2, infcx, *e),
        None => s2,
    }
}

/// The nodes of the parameters of a closure, each resolved as part of the
/// closure expression.
pub open spec fn visit_closure_inputs_spec(
    s: FnCtxtView,
    infcx: InferCtxt,
    span: Span,
    inputs: List<Arg>,
) -> FnCtxtView
    decreases inputs,
{
    match inputs {
        List::Nil => s,
        List::Cons(arg, rest) => visit_closure_inputs_spec(
            visit_node_id_spec(s, infcx, ResolveReason::ResolvingExpr(span), arg.id),
            infcx,
            span,
            *rest,
        ),
    }
}

/// The patterns and the written types of the parameters.
pub open spec fn walk_args_spec(s: FnCtxtView, infcx: InferCtxt, inputs: List<Arg>) -> FnCtxtView
    decreases inputs,
{
    match inputs {
        List::Nil => s,
        List::Cons(arg, rest) => walk_args_spec(
            visit_ty_spec(visit_pat_spec(s, infcx, arg.pat), arg.ty),
            infcx,
            *rest,
        ),
    }
}

/// The pass over the parameters and the written return type of a closure.
pub open spec fn walk_fn_decl_spec(s: FnCtxtView, infcx: InferCtxt, decl: FnDecl) -> FnCtxtView
    decreases decl,
{
    visit_opt_ty_spec(walk_args_spec(s, infcx, decl.inputs), decl.output)
}

/// The pass over an expression: the overload of an operator on scalars is
/// dropped, the node and the method call of the expression are resolved, and
/// then what is written in the expression is visited, in the order in which
/// it is written.
pub open spec fn visit_expr_spec(s: FnCtxtView, infcx: InferCtxt, e: Expr) -> FnCtxtView
    decreases e,
{
    let reason = ResolveReason::ResolvingExpr(e.span);
    let s1 = fix_scalar_binary_expr_spec(s, infcx, e);
    let s2 = visit_node_id_spec(s1, infcx, reason, e.id);
    let s3 = visit_method_map_entry_spec(s2, infcx, reason, MethodCall::spec_expr(e.id));
    match e.node {
        ExprKind::Path => s3,
        ExprKind::Paren(sub) => visit_expr_spec(s3, infcx, *sub),
        ExprKind::Field(sub, _) => visit_expr_spec(s3, infcx, *sub),
        ExprKind::TupField(sub, _) => visit_expr_spec(s3, infcx, *sub),
        ExprKind::Index(base, index) => visit_expr_spec(
            visit_expr_spec(s3, infcx, *base),
            infcx,
            *index,
        ),
        ExprKind::Unary(_, sub) => visit_expr_spec(s3, infcx, *sub),
        ExprKind::Binary(_, lhs, rhs) => visit_expr_spec(
            visit_expr_spec(s3, infcx, *lhs),
            infcx,
            *rhs,
        ),
        ExprKind::Closure(decl, body) => visit_block_spec(
            walk_fn_decl_spec(
                visit_closure_inputs_spec(s3, infcx, e.span, decl.inputs),
                infcx,
                *decl,
            ),
            infcx,
            *body,
        ),
        ExprKind::Block(b) => visit_block_spec(s3, infcx, *b),
        ExprKind::Cast(sub, t) => visit_ty_spec(visit_expr_spec(s3, infcx, *sub), *t),
        ExprKind::Other(subs) => visit_exprs_spec(s3, infcx, subs),
    }
}

/// The pass over each expression of a list.
pub open spec fn visit_exprs_spec(s: FnCtxtView, infcx: InferCtxt, l: List<Expr>) -> FnCtxtView
    decreases l,
{
    match l {
        List::Nil => s,
        List::Cons(e, rest) => visit_exprs_spec(visit_expr_spec(s, infcx, *e), infcx, *rest),
    }
}

/// A capture with its region resolved.
pub open spec fn resolved_upvar(infcx: InferCtxt, entry: UpvarEntry) -> UpvarEntry {
    match entry.capture {
        UpvarCapture::ByValue => entry,
        UpvarCapture::ByRef(kind, r) => UpvarEntry {
            id: entry.id,
            capture: UpvarCapture::ByRef(kind, resolved_region(infcx, r)),
        },
    }
}

/// The region placeholder left in a capture, if any.
pub open spec fn upvar_error(infcx: InferCtxt, entry: UpvarEntry) -> Option<FixupError> {
    match entry.capture {
        UpvarCapture::ByValue => None,
        UpvarCapture::ByRef(_, r) => region_fixup_error(infcx, r),
    }
}

/// Each capture of a list, resolved.
pub open spec fn resolved_upvars(infcx: InferCtxt, l: List<UpvarEntry>) -> List<UpvarEntry>
    decreases l,
{
    match l {
        List::Nil => List::Nil,
        List::Cons(entry, rest) => List::Cons(
            Box::new(resolved_upvar(infcx, *entry)),
            Box::new(resolved_upvars(infcx, *rest)),
        ),
    }
}

/// The context after each capture of a list has been resolved.
pub open spec fn noted_upvars(s: FnCtxtView, infcx: InferCtxt, l: List<UpvarEntry>) -> FnCtxtView
    decreases l,
{
    match l {
        List::Nil => s,
        List::Cons(entry, rest) => noted_upvars(
            noted(s, ResolveReason::ResolvingUpvar(entry.id), upvar_error(infcx, *entry)),
            infcx,
            *rest,
        ),
    }
}

/// The capture modes of the function, resolved and put into the permanent
/// table, once per function. An entry takes the place of whatever the table
/// held for the same capture.
pub open spec fn visit_upvar_borrow_map_spec(s: FnCtxtView, infcx: InferCtxt) -> FnCtxtView {
    let told = noted_upvars(s, infcx, s.inh.upvar_capture_map);
    told.with_tcx(
        TablesView {
            upvar_capture_map: with_captures(
                told.tcx.upvar_capture_map,
                resolved_upvars(infcx, s.inh.upvar_capture_map),
            ),
            ..told.tcx
        },
    )
}

/// Each closure signature of a list, resolved.
pub open spec fn resolved_closure_tys(infcx: InferCtxt, l: List<ClosureTyEntry>) -> List<
    ClosureTyEntry,
>
    decreases l,
{
    match l {
        List::Nil => List::Nil,
        List::Cons(entry, rest) => List::Cons(
            Box::new(
                ClosureTyEntry { def_id: entry.def_id, ty: resolved_closure_ty(infcx, entry.ty) },
            ),
            Box::new(resolved_closure_tys(infcx, *rest)),
        ),
    }
}

/// The context after each closure signature of a list has been resolved.
pub open spec fn noted_closure_tys(s: FnCtxtView, infcx: InferCtxt, l: List<ClosureTyEntry>) -> FnCtxtView
    decreases l,
{
    match l {
        List::Nil => s,
        List::Cons(entry, rest) => noted_closure_tys(
            noted_closure_ty(s, infcx, ResolveReason::ResolvingClosure(entry.def_id), entry.ty),
            infcx,
            *rest,
        ),
    }
}

/// The signatures and the kinds of the closures of the function, put into
/// the permanent tables, once per function. An entry takes the place of
/// whatever the table held for the same closure.
pub open spec fn visit_closures_spec(s: FnCtxtView, infcx: InferCtxt) -> FnCtxtView {
    let told = noted_closure_tys(s, infcx, s.inh.closure_tys);
    told.with_tcx(
        TablesView {
            closure_tys: with_signatures(
                told.tcx.closure_tys,
                resolved_closure_tys(infcx, s.inh.closure_tys),
            ),
            closure_kinds: with_kinds(told.tcx.closure_kinds, s.inh.closure_kinds),
            ..told.tcx
        },
    )
}

/// What writeback of an expression that is checked on its own does to
/// the context.
pub open spec fn resolve_type_vars_in_expr_spec(s: FnCtxtView, infcx: InferCtxt, e: Expr) -> FnCtxtView {
    visit_closures_spec(
        visit_upvar_borrow_map_spec(visit_expr_spec(s, infcx, e), infcx),
        infcx,
    )
}

/// The parameters of the function: the node of each, its pattern, and
/// the node of the pattern as a whole where the pattern is not a binding.
pub open spec fn visit_fn_args_spec(s: FnCtxtView, infcx: InferCtxt, inputs: List<Arg>) -> FnCtxtView
    decreases inputs,
{
    match inputs {
        List::Nil => s,
        List::Cons(arg, rest) => {
            let reason = ResolveReason::ResolvingPattern(arg.pat.span);
            let s1 = visit_node_id_spec(s, infcx, reason, arg.id);
            let s2 = visit_pat_spec(s1, infcx, arg.pat);
            let s3 = if arg.pat.spec_is_binding() {
                s2
            } else {
                visit_node_id_spec(s2, infcx, reason, arg.pat.id)
            };
            visit_fn_args_spec(s3, infcx, *rest)
        },
    }
}

/// What writeback of a function does to the context: the body, the
/// parameters, the captures and the closures.
pub open spec fn resolve_type_vars_in_fn_spec(
    s: FnCtxtView,
    infcx: InferCtxt,
    decl: FnDecl,
    blk: Block,
) -> FnCtxtView {
    visit_closures_spec(
        visit_upvar_borrow_map_spec(
            visit_fn_args_spec(visit_block_spec(s, infcx, blk), infcx, decl.inputs),
            infcx,
        ),
        infcx,
    )
}

// ---------------------------------------------------------------------------
// The pass
/// Whether values of the type are scalars.
pub fn type_is_scalar(t: &Ty) -> (r: bool)
    ensures
        r == spec_type_is_scalar(*t),
{
    match t {
        Ty::Bool | Ty::Char | Ty::Int(_) | Ty::Uint(_) | Ty::Float(_) | Ty::BareFn(_, _) | Ty::RawPtr(
            _,
        ) => true,
        _ => false,
    }
}

fn clone_closure_tys(l: &List<ClosureTyEntry>) -> (r: List<ClosureTyEntry>)
    ensures
        r == *l,
    decreases l,
{
    match l {
        List::Nil => List::Nil,
        List::Cons(entry, rest) => List::Cons(
            Box::new(
                ClosureTyEntry {
                    def_id: entry.def_id,
                    ty: ClosureTy {
                        unsafety: entry.ty.unsafety,
                        abi: entry.ty.abi,
                        sig: Binder(entry.ty.sig.0.clone()),
                    },
                },
            ),
            Box::new(clone_closure_tys(rest)),
        ),
    }
}

/// Makes the adjustment of a node permanent. It holds no placeholder.
fn write_adjustment_to_tcx(fcx: &mut FnCtxt, id: NodeId, adj: AutoAdjustment)
    requires
        adjustment_concrete(adj),
    ensures
        final(fcx)@ == old(fcx)@.with_tcx(
            TablesView {
                adjustments: old(fcx)@.tcx.adjustments.insert(id, adj),
                ..old(fcx)@.tcx
            },
        ),
{
    fcx.tcx.adjustments.insert(id, adj);
}

/// Makes the record of a method call permanent. It holds no placeholder.
fn write_method_to_tcx(fcx: &mut FnCtxt, call: MethodCall, callee: MethodCallee)
    requires
        callee_concrete(callee),
    ensures
        final(fcx)@ == old(fcx)@.with_tcx(
            TablesView {
                method_map: old(fcx)@.tcx.method_map.insert(call.key(), callee),
                ..old(fcx)@.tcx
            },
        ),
{
    fcx.tcx.method_map.insert(call.to_key(), callee);
}

/// The pass over one function, against the oracle's answers.
pub struct WritebackCx<'a> {
    pub infcx: &'a InferCtxt,
}

impl<'a> WritebackCx<'a> {
    /// The pass against the given oracle.
    pub fn new(infcx: &'a InferCtxt) -> (r: Self)
        ensures
            r.infcx == infcx,
    {
        WritebackCx { infcx }
    }

    /// Drops the overload of a binary operator that operates on scalars.
    pub fn fix_scalar_binary_expr(&self, fcx: &mut FnCtxt, e: &Expr)
        ensures
            final(fcx)@ == fix_scalar_binary_expr_spec(old(fcx)@, *self.infcx, *e),
    {
        proof {
            reveal(fix_scalar_binary_expr_spec);
        }
        if let ExprKind::Binary(op, lhs, rhs) = &e.node {
            let lhs_scalar = match fcx.node_ty(lhs.id) {
                Some(t) => type_is_scalar(&fold_ty(&Folder::Resolve(self.infcx), 0, &t)),
                None => false,
            };
            let rhs_scalar = match fcx.node_ty(rhs.id) {
                Some(t) => type_is_scalar(&fold_ty(&Folder::Resolve(self.infcx), 0, &t)),
                None => false,
            };
            if lhs_scalar && rhs_scalar {
                fcx.inh.method_map.remove(&MethodCall::expr(e.id).to_key());
                // The operators that take their operands by reference put
                // an adjustment on the left operand only.
                if !op.is_by_value() {
                    fcx.inh.adjustments.remove(&lhs.id);
                }
            }
        }
    }

    /// Items in a body are not part of the function.
    pub fn visit_item(&self, fcx: &mut FnCtxt)
        ensures
            final(fcx)@ == old(fcx)@,
    {
    }

    fn resolve_trait_ref(&self, fcx: &mut FnCtxt, reason: ResolveReason, t: &TraitRef) -> (r:
        TraitRef)
        ensures
            r == resolved_trait_ref(*self.infcx, *t),
            scan_substs_spec(0, r.substs).unresolved is None,
            final(fcx)@ == noted_substs(old(fcx)@, *self.infcx, reason, t.substs),
    {
        let resolver = Resolver::new(self.infcx, reason);
        TraitRef { def_id: t.def_id, substs: resolver.fold_substs(fcx, &t.substs) }
    }

    fn resolve_callee(&self, fcx: &mut FnCtxt, reason: ResolveReason, m: &MethodCallee) -> (r:
        MethodCallee)
        ensures
            r == resolved_callee(*self.infcx, *m),
            callee_concrete(r),
            final(fcx)@ == noted_callee(old(fcx)@, *self.infcx, reason, *m),
    {
        proof {
            reveal(noted_callee);
        }
        let resolver = Resolver::new(self.infcx, reason);
        let origin = match &m.origin {
            MethodOrigin::Static(id) => MethodOrigin::Static(*id),
            MethodOrigin::TypeParam(p) => MethodOrigin::TypeParam(
                MethodParam {
                    trait_ref: self.resolve_trait_ref(fcx, reason, &p.trait_ref),
                    method_num: p.method_num,
                    impl_def_id: p.impl_def_id,
                },
            ),
            MethodOrigin::TraitObject(o) => MethodOrigin::TraitObject(
                MethodObject {
                    trait_ref: self.resolve_trait_ref(fcx, reason, &o.trait_ref),
                    object_trait_id: o.object_trait_id,
                    method_num: o.method_num,
                    vtable_index: o.vtable_index,
                },
            ),
        };
        let ty = resolver.fold_ty(fcx, &m.ty);
        let substs = resolver.fold_substs(fcx, &m.substs);
        MethodCallee { origin, ty, substs }
    }

    /// Moves the record of a method call, if there is one, to the permanent
    /// table, resolved.
    pub fn visit_method_map_entry(
        &self,
        fcx: &mut FnCtxt,
        reason: ResolveReason,
        method_call: MethodCall,
    )
        ensures
            final(fcx)@ == visit_method_map_entry_spec(
                old(fcx)@,
                *self.infcx,
                reason,
                method_call,
            ),
    {
        proof {
            reveal(visit_method_map_entry_spec);
        }
        match fcx.inh.method_map.remove(&method_call.to_key()) {
            Some(method) => {
                let new_method = self.resolve_callee(fcx, reason, &method);
                write_method_to_tcx(fcx, method_call, new_method);
            },
            None => {
                assert(fcx.inh.method_map@ =~= old(fcx).inh.method_map@);
            },
        }
    }

    fn visit_autoderefs(
        &self,
        fcx: &mut FnCtxt,
        reason: ResolveReason,
        id: NodeId,
        from: u32,
        to: u32,
    )
        ensures
            final(fcx)@ == visit_autoderefs_spec(old(fcx)@, *self.infcx, reason, id, from, to),
        decreases to - from,
    {
        if from < to {
            self.visit_method_map_entry(fcx, reason, MethodCall::autoderef(id, from));
            self.visit_autoderefs(fcx, reason, id, from + 1, to);
        }
    }

    /// Moves the adjustment of a node, if there is one, to the permanent
    /// table, resolved, and with it the records of the overloaded
    /// dereferences that it counts.
    pub fn visit_adjustments(&self, fcx: &mut FnCtxt, reason: ResolveReason, id: NodeId)
        ensures
            final(fcx)@ == visit_adjustments_spec(old(fcx)@, *self.infcx, reason, id),
    {
        proof {
            reveal(visit_adjustments_spec);
        }
        match fcx.inh.adjustments.remove(&id) {
            None => {
                assert(fcx.inh.adjustments@ =~= old(fcx).inh.adjustments@);
            },
            Some(adjustment) => {
                let resolved_adjustment = match adjustment {
                    AutoAdjustment::ReifyFnPointer => AutoAdjustment::ReifyFnPointer,
                    AutoAdjustment::UnsafeFnPointer => AutoAdjustment::UnsafeFnPointer,
                    AutoAdjustment::DerefRef(adj) => {
                        self.visit_autoderefs(fcx, reason, id, 0, adj.autoderefs);
                        let resolver = Resolver::new(self.infcx, reason);
                        let autoref = match adj.autoref {
                            Some(AutoRef::Ptr(r, m)) => Some(
                                AutoRef::Ptr(resolver.fold_region(fcx, r), m),
                            ),
                            other => other,
                        };
                        let unsize = match &adj.unsize {
                            Some(t) => Some(resolver.fold_ty(fcx, t)),
                            None => None,
                        };
                        AutoAdjustment::DerefRef(
                            AutoDerefRef { autoderefs: adj.autoderefs, autoref, unsize },
                        )
                    },
                };
                write_adjustment_to_tcx(fcx, id, resolved_adjustment);
            },
        }
    }

    /// Resolves what is recorded for a node and makes it permanent: its
    /// adjustment, its type, and the arguments with which it names an item.
    pub fn visit_node_id(&self, fcx: &mut FnCtxt, reason: ResolveReason, id: NodeId)
        ensures
            final(fcx)@ == visit_node_id_spec(old(fcx)@, *self.infcx, reason, id),
    {
        proof {
            reveal(visit_node_id_spec);
        }
        self.visit_adjustments(fcx, reason, id);
        let resolver = Resolver::new(self.infcx, reason);
        match fcx.node_ty(id) {
            Some(n_ty) => {
                let n_ty = resolver.fold_ty(fcx, &n_ty);
                write_ty_to_tcx(fcx, id, n_ty);
            },
            None => {},
        }
        let item_substs = match fcx.inh.item_substs.get(&id) {
            Some(substs) => Some(substs.clone()),
            None => None,
        };
        match item_substs {
            Some(substs) => {
                let substs = resolver.fold_substs(fcx, &substs);
                write_substs_to_tcx(fcx, id, substs);
            },
            None => {},
        }
    }

    /// Gives the length of every array type in a written type its type.
    pub fn visit_ty(&self, fcx: &mut FnCtxt, t: &AstTy)
        ensures
            final(fcx)@ == visit_ty_spec(old(fcx)@, *t),
        decreases t,
    {
        match t {
            AstTy::Path => {},
            AstTy::FixedLengthVec(ty, count_expr) => {
                self.visit_ty(fcx, ty);
                write_ty_to_tcx(fcx, count_expr.id, Ty::Uint(UintTy::Usize));
            },
            AstTy::Other(parts) => self.visit_tys(fcx, parts),
        }
    }

    fn visit_tys(&self, fcx: &mut FnCtxt, l: &List<AstTy>)
        ensures
            final(fcx)@ == visit_tys_spec(old(fcx)@, *l),
        decreases l,
    {
        match l {
            List::Nil => {},
            List::Cons(t, rest) => {
                self.visit_ty(fcx, t);
                self.visit_tys(fcx, rest);
            },
        }
    }

    fn visit_opt_ty(&self, fcx: &mut FnCtxt, t: &Option<AstTy>)
        ensures
            final(fcx)@ == visit_opt_ty_spec(old(fcx)@, *t),
    {
        match t {
            Some(t) => self.visit_ty(fcx, t),
            None => {},
        }
    }

    /// Writes back a pattern and what is written in it.
    pub fn visit_pat(&self, fcx: &mut FnCtxt, p: &Pat)
        ensures
            final(fcx)@ == visit_pat_spec(old(fcx)@, *self.infcx, *p),
        decreases p,
    {
        self.visit_node_id(fcx, ResolveReason::ResolvingPattern(p.span), p.id);
        match &p.node {
            PatKind::Wild => {},
            PatKind::Ident(None) => {},
            PatKind::Ident(Some(sub)) => self.visit_pat(fcx, sub),
            PatKind::Lit(exprs) => self.visit_exprs(fcx, exprs),
            PatKind::Other(pats) => self.visit_pats(fcx, pats),
        }
    }

    fn visit_pats(&self, fcx: &mut FnCtxt, l: &List<Pat>)
        ensures
            final(fcx)@ == visit_pats_spec(old(fcx)@, *self.infcx, *l),
        decreases l,
    {
        match l {
            List::Nil => {},
            List::Cons(p, rest) => {
                self.visit_pat(fcx, p);
                self.visit_pats(fcx, rest);
            },
        }
    }

    /// Writes back a `let`.
    pub fn visit_local(&self, fcx: &mut FnCtxt, l: &Local)
        ensures
            final(fcx)@ == visit_local_spec(old(fcx)@, *self.infcx, *l),
        decreases l,
    {
        match fcx.local_ty(l.id) {
            Some(var_ty) => {
                let resolver = Resolver::new(self.infcx, ResolveReason::ResolvingLocal(l.span));
                let var_ty = resolver.fold_ty(fcx, &var_ty);
                write_ty_to_tcx(fcx, l.id, var_ty);
            },
            None => {},
        }
        self.visit_pat(fcx, &l.pat);
        self.visit_opt_ty(fcx, &l.ty);
        match &l.init {
            Some(e) => self.visit_expr(fcx, e),
            None => {},
        }
    }

    /// Writes back a statement.
    pub fn visit_stmt(&self, fcx: &mut FnCtxt, s: &Stmt)
        ensures
            final(fcx)@ == visit_stmt_spec(old(fcx)@, *self.infcx, *s),
        decreases s,
    {
        self.visit_node_id(fcx, ResolveReason::ResolvingExpr(s.span), s.id);
        match &s.node {
            StmtKind::Local(l) => self.visit_local(fcx, l),
            StmtKind::Item => self.visit_item(fcx),
            StmtKind::Expr(e) => self.visit_expr(fcx, e),
            StmtKind::Semi(e) => self.visit_expr(fcx, e),
        }
    }

    fn visit_stmts(&self, fcx: &mut FnCtxt, l: &List<Stmt>)
        ensures
            final(fcx)@ == visit_stmts_spec(old(fcx)@, *self.infcx, *l),
        decreases l,
    {
        match l {
            List::Nil => {},
            List::Cons(s, rest) => {
                self.visit_stmt(fcx, s);
                self.visit_stmts(fcx, rest);
            },
        }
    }

    /// Writes back a block.
    pub fn visit_block(&self, fcx: &mut FnCtxt, b: &Block)
        ensures
            final(fcx)@ == visit_block_spec(old(fcx)@, *self.infcx, *b),
        decreases b,
    {
        self.visit_node_id(fcx, ResolveReason::ResolvingExpr(b.span), b.id);
        self.visit_stmts(fcx, &b.stmts);
        match &b.expr {
            Some(e) => self.visit_expr(fcx, e),
            None => {},
        }
    }

    fn visit_closure_inputs(&self, fcx: &mut FnCtxt, span: Span, inputs: &List<Arg>)
        ensures
            final(fcx)@ == visit_closure_inputs_spec(old(fcx)@, *self.infcx, span, *inputs),
        decreases inputs,
    {
        match inputs {
            List::Nil => {},
            List::Cons(arg, rest) => {
                self.visit_node_id(fcx, ResolveReason::ResolvingExpr(span), arg.id);
                self.visit_closure_inputs(fcx, span, rest);
            },
        }
    }

    fn walk_args(&self, fcx: &mut FnCtxt, inputs: &List<Arg>)
        ensures
            final(fcx)@ == walk_args_spec(old(fcx)@, *self.infcx, *inputs),
        decreases inputs,
    {
        match inputs {
            List::Nil => {},
            List::Cons(arg, rest) => {
                self.visit_pat(fcx, &arg.pat);
                self.visit_ty(fcx, &arg.ty);
                self.walk_args(fcx, rest);
            },
        }
    }

    fn walk_fn_decl(&self, fcx: &mut FnCtxt, decl: &FnDecl)
        ensures
            final(fcx)@ == walk_fn_decl_spec(old(fcx)@, *self.infcx, *decl),
        decreases decl,
    {
        self.walk_args(fcx, &decl.inputs);
        self.visit_opt_ty(fcx, &decl.output);
    }

    /// Writes back an expression and what is written in it.
    pub fn visit_expr(&self, fcx: &mut FnCtxt, e: &Expr)
        ensures
            final(fcx)@ == visit_expr_spec(old(fcx)@, *self.infcx, *e),
        decreases e,
    {
        self.fix_scalar_binary_expr(fcx, e);
        self.visit_node_id(fcx, ResolveReason::ResolvingExpr(e.span), e.id);
        self.visit_method_map_entry(
            fcx,
            ResolveReason::ResolvingExpr(e.span),
            MethodCall::expr(e.id),
        );
        match &e.node {
            ExprKind::Path => {},
            ExprKind::Paren(sub) => self.visit_expr(fcx, sub),
            ExprKind::Field(sub, _) => self.visit_expr(fcx, sub),
            ExprKind::TupField(sub, _) => self.visit_expr(fcx, sub),
            ExprKind::Index(base, index) => {
                self.visit_expr(fcx, base);
                self.visit_expr(fcx, index);
            },
            ExprKind::Unary(_, sub) => self.visit_expr(fcx, sub),
            ExprKind::Binary(_, lhs, rhs) => {
                self.visit_expr(fcx, lhs);
                self.visit_expr(fcx, rhs);
            },
            ExprKind::Closure(decl, body) => {
                self.visit_closure_inputs(fcx, e.span, &decl.inputs);
                self.walk_fn_decl(fcx, decl);
                self.visit_block(fcx, body);
            },
            ExprKind::Block(b) => self.visit_block(fcx, b),
            ExprKind::Cast(sub, t) => {
                self.visit_expr(fcx, sub);
                self.visit_ty(fcx, t);
            },
            ExprKind::Other(subs) => self.visit_exprs(fcx, subs),
        }
    }

    fn visit_exprs(&self, fcx: &mut FnCtxt, l: &List<Expr>)
        ensures
            final(fcx)@ == visit_exprs_spec(old(fcx)@, *self.infcx, *l),
        decreases l,
    {
        match l {
            List::Nil => {},
            List::Cons(e, rest) => {
                self.visit_expr(fcx, e);
                self.visit_exprs(fcx, rest);
            },
        }
    }

    fn resolve_upvars(&self, fcx: &mut FnCtxt, l: &List<UpvarEntry>) -> (r: List<UpvarEntry>)
        ensures
            r == resolved_upvars(*self.infcx, *l),
            final(fcx)@ == noted_upvars(old(fcx)@, *self.infcx, *l),
        decreases l,
    {
        match l {
            List::Nil => List::Nil,
            List::Cons(entry, rest) => {
                let new_capture = match entry.capture {
                    UpvarCapture::ByValue => UpvarCapture::ByValue,
                    UpvarCapture::ByRef(kind, r) => {
                        let resolver = Resolver::new(
                            self.infcx,
                            ResolveReason::ResolvingUpvar(entry.id),
                        );
                        UpvarCapture::ByRef(kind, resolver.fold_region(fcx, r))
                    },
                };
                let tail = self.resolve_upvars(fcx, rest);
                List::Cons(Box::new(UpvarEntry { id: entry.id, capture: new_capture }), Box::new(tail))
            },
        }
    }

    /// Resolves the capture modes of the function and puts them into the
    /// permanent table.
    pub fn visit_upvar_borrow_map(&self, fcx: &mut FnCtxt)
        ensures
            final(fcx)@ == visit_upvar_borrow_map_spec(old(fcx)@, *self.infcx),
    {
        let captures = copy_list(&fcx.inh.upvar_capture_map);
        let resolved = self.resolve_upvars(fcx, &captures);
        let mut permanent: List<UpvarEntry> = List::Nil;
        std::mem::swap(&mut permanent, &mut fcx.tcx.upvar_capture_map);
        fcx.tcx.upvar_capture_map = put_captures(permanent, resolved);
    }

    fn resolve_closure_ty(&self, fcx: &mut FnCtxt, reason: ResolveReason, c: &ClosureTy) -> (r:
        ClosureTy)
        ensures
            r == resolved_closure_ty(*self.infcx, *c),
            final(fcx)@ == noted_closure_ty(old(fcx)@, *self.infcx, reason, *c),
    {
        proof {
            reveal(noted_closure_ty);
        }
        let resolver = Resolver::new(self.infcx, reason);
        let inputs = resolver.fold_tys(fcx, &c.sig.0.inputs);
        let output = match &c.sig.0.output {
            FnOutput::Converging(t) => FnOutput::Converging(resolver.fold_ty(fcx, t)),
            FnOutput::Diverging => FnOutput::Diverging,
        };
        ClosureTy {
            unsafety: c.unsafety,
            abi: c.abi,
            sig: Binder(FnSig { inputs, output, variadic: c.sig.0.variadic }),
        }
    }

    fn resolve_closure_tys(&self, fcx: &mut FnCtxt, l: &List<ClosureTyEntry>) -> (r: List<
        ClosureTyEntry,
    >)
        ensures
            r == resolved_closure_tys(*self.infcx, *l),
            final(fcx)@ == noted_closure_tys(old(fcx)@, *self.infcx, *l),
        decreases l,
    {
        match l {
            List::Nil => List::Nil,
            List::Cons(entry, rest) => {
                let ty = self.resolve_closure_ty(
                    fcx,
                    ResolveReason::ResolvingClosure(entry.def_id),
                    &entry.ty,
                );
                let tail = self.resolve_closure_tys(fcx, rest);
                List::Cons(Box::new(ClosureTyEntry { def_id: entry.def_id, ty }), Box::new(tail))
            },
        }
    }

    /// Resolves the signatures of the closures of the function and puts
    /// them, and the kinds of the closures, into the permanent tables.
    pub fn visit_closures(&self, fcx: &mut FnCtxt)
        ensures
            final(fcx)@ == visit_closures_spec(old(fcx)@, *self.infcx),
    {
        let closure_tys = clone_closure_tys(&fcx.inh.closure_tys);
        let kinds = copy_list(&fcx.inh.closure_kinds);
        let resolved = self.resolve_closure_tys(fcx, &closure_tys);
        let mut permanent: List<ClosureTyEntry> = List::Nil;
        std::mem::swap(&mut permanent, &mut fcx.tcx.closure_tys);
        fcx.tcx.closure_tys = put_signatures(permanent, resolved);
        let mut permanent_kinds: List<ClosureKindEntry> = List::Nil;
        std::mem::swap(&mut permanent_kinds, &mut fcx.tcx.closure_kinds);
        fcx.tcx.closure_kinds = put_kinds(permanent_kinds, kinds);
    }

    fn visit_fn_args(&self, fcx: &mut FnCtxt, inputs: &List<Arg>)
        ensures
            final(fcx)@ == visit_fn_args_spec(old(fcx)@, *self.infcx, *inputs),
        decreases inputs,
    {
        match inputs {
            List::Nil => {},
            List::Cons(arg, rest) => {
                let reason = ResolveReason::ResolvingPattern(arg.pat.span);
                self.visit_node_id(fcx, reason, arg.id);
                self.visit_pat(fcx, &arg.pat);
                // A later phase reads the type of the whole pattern, not
                // only of each binding.
                if !arg.pat.is_binding() {
                    self.visit_node_id(fcx, reason, arg.pat.id);
                }
                self.visit_fn_args(fcx, rest);
            },
        }
    }
}

/// Writes back what checking recorded for an expression that is checked on
/// its own, a constant for one. No resolution has failed in its context yet.
pub fn resolve_type_vars_in_expr(fcx: &mut FnCtxt, infcx: &InferCtxt, e: &Expr)
    requires
        !old(fcx)@.writeback_errors,
    ensures
        final(fcx)@ == resolve_type_vars_in_expr_spec(old(fcx)@, *infcx, *e),
{
    let wbcx = WritebackCx::new(infcx);
    wbcx.visit_expr(fcx, e);
    wbcx.visit_upvar_borrow_map(fcx);
    wbcx.visit_closures(fcx);
}

/// Writes back what checking recorded for a function: its body, then its
/// parameters, then its captured variables and closures. No resolution
/// has failed in its context yet.
pub fn resolve_type_vars_in_fn(fcx: &mut FnCtxt, infcx: &InferCtxt, decl: &FnDecl, blk: &Block)
    requires
        !old(fcx)@.writeback_errors,
    ensures
        final(fcx)@ == resolve_type_vars_in_fn_spec(old(fcx)@, *infcx, *decl, *blk),
{
    let wbcx = WritebackCx::new(infcx);
    wbcx.visit_block(fcx, blk);
    wbcx.visit_fn_args(fcx, &decl.inputs);
    wbcx.visit_upvar_borrow_map(fcx);
    wbcx.visit_closures(fcx);
}

} // verus!
