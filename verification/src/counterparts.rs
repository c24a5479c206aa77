//! Where the records of checking end up.
//!
//! A pass of writeback takes an adjustment or the record of a method call
//! out of the working tables for one of two reasons only: to make it
//! permanent, or because it is the overload of an operator on scalars. So
//! whatever checking recorded is, after the pass, still in the working
//! tables, or in the permanent ones, or it has been dropped with such an
//! operator.

use crate::ast::{Arg, Block, Expr, ExprKind, FnDecl, Local, Pat, PatKind, Stmt, StmtKind};
use crate::infer::InferCtxt;
use crate::list::List;
use crate::resolve::{answered_ty, noted, only_reports, ty_fixup_error, ResolveReason};
use crate::tables::{AutoAdjustment, FnCtxtView, MethodCall, TablesView};
use crate::totality::{
    block_done, expr_done, expr_head_spec, fn_args_done, lemma_expr_head,
    lemma_noted_callee_reports, lemma_noted_closure_tys_reports, lemma_noted_passed,
    lemma_noted_upvars_reports, lemma_only_reports_passed, lemma_passed_refl, lemma_passed_trans,
    lemma_visit_autoderefs, lemma_visit_block, lemma_visit_closure_inputs, lemma_visit_closures,
    lemma_visit_expr, lemma_visit_exprs, lemma_visit_fn_args, lemma_visit_local,
    lemma_visit_method_map_entry, lemma_visit_node_id, lemma_visit_opt_ty, lemma_visit_pat,
    lemma_visit_pats, lemma_visit_stmt, lemma_visit_stmts, lemma_visit_ty, lemma_visit_tys,
    lemma_visit_upvar_borrow_map, lemma_walk_args, lemma_walk_fn_decl,
    lemma_writeback_of_expr_is_total, lemma_writeback_of_fn_is_total, passed,
};
use crate::ty::{NodeId, Span, Ty};
use crate::writeback::{
    fix_scalar_binary_expr_spec, resolve_type_vars_in_expr_spec, resolve_type_vars_in_fn_spec,
    spec_type_is_scalar, visit_adjustments_spec, visit_autoderefs_spec, visit_block_spec,
    visit_closure_inputs_spec, visit_closures_spec, visit_expr_spec, visit_exprs_spec,
    visit_fn_args_spec, visit_local_spec, visit_method_map_entry_spec, visit_node_id_spec,
    visit_opt_ty_spec, visit_pat_spec, visit_pats_spec, visit_stmt_spec, visit_stmts_spec,
    visit_ty_spec, visit_tys_spec, visit_upvar_borrow_map_spec, walk_args_spec, walk_fn_decl_spec,
};
use vstd::prelude::*;

verus! {

/// The records that are dropped as overloads of operators on scalars: the
/// nodes whose adjustment is dropped, and the method calls, by their keys.
pub struct Pruned {
    pub adjustments: Set<NodeId>,
    pub methods: Set<u64>,
}

/// Nothing is dropped.
pub open spec fn none() -> Pruned {
    Pruned { adjustments: Set::empty(), methods: Set::empty() }
}

/// What is dropped by either.
pub open spec fn join(p: Pruned, q: Pruned) -> Pruned {
    Pruned {
        adjustments: p.adjustments.union(q.adjustments),
        methods: p.methods.union(q.methods),
    }
}

/// Whether all that `p` drops, `r` drops too.
pub open spec fn within(p: Pruned, r: Pruned) -> bool {
    p.adjustments.subset_of(r.adjustments) && p.methods.subset_of(r.methods)
}

/// Whether the type recorded for the node `id` is, as far as the oracle
/// has answered, a scalar.
pub open spec fn scalar_in(types: Map<NodeId, Ty>, infcx: InferCtxt, id: NodeId) -> bool {
    types.contains_key(id) && spec_type_is_scalar(answered_ty(infcx, types[id]))
}

/// What is dropped for the expression `e` itself: if it is a binary
/// operator on two scalars, the record of its method call, and, unless the
/// operator takes its operands by value, the adjustment of its left operand.
pub open spec fn pruned_with(types: Map<NodeId, Ty>, infcx: InferCtxt, e: Expr) -> Pruned {
    match e.node {
        ExprKind::Binary(op, lhs, rhs) => if scalar_in(types, infcx, lhs.id) && scalar_in(
            types,
            infcx,
            rhs.id,
        ) {
            Pruned {
                adjustments: if op.spec_is_by_value() {
                    Set::empty()
                } else {
                    set![lhs.id]
                },
                methods: set![MethodCall::spec_expr(e.id).key()],
            }
        } else {
            none()
        },
        _ => none(),
    }
}

/// What is dropped for an expression and the expressions written in it.
pub open spec fn pruned_in_expr(types: Map<NodeId, Ty>, infcx: InferCtxt, e: Expr) -> Pruned
    decreases e,
{
    join(
        pruned_with(types, infcx, e),
        match e.node {
            ExprKind::Path => none(),
            ExprKind::Paren(sub) => pruned_in_expr(types, infcx, *sub),
            ExprKind::Field(sub, _) => pruned_in_expr(types, infcx, *sub),
            ExprKind::TupField(sub, _) => pruned_in_expr(types, infcx, *sub),
            ExprKind::Index(a, b) => join(
                pruned_in_expr(types, infcx, *a),
                pruned_in_expr(types, infcx, *b),
            ),
            ExprKind::Unary(_, sub) => pruned_in_expr(types, infcx, *sub),
            ExprKind::Binary(_, a, b) => join(
                pruned_in_expr(types, infcx, *a),
                pruned_in_expr(types, infcx, *b),
            ),
            ExprKind::Closure(decl, body) => join(
                pruned_in_args(types, infcx, decl.inputs),
                pruned_in_block(types, infcx, *body),
            ),
            ExprKind::Block(b) => pruned_in_block(types, infcx, *b),
            ExprKind::Cast(sub, _) => pruned_in_expr(types, infcx, *sub),
            ExprKind::Other(subs) => pruned_in_exprs(types, infcx, subs),
        },
    )
}

/// What is dropped for the expressions of a list.
pub open spec fn pruned_in_exprs(types: Map<NodeId, Ty>, infcx: InferCtxt, l: List<Expr>) -> Pruned
    decreases l,
{
    match l {
        List::Nil => none(),
        List::Cons(e, rest) => join(
            pruned_in_expr(types, infcx, *e),
            pruned_in_exprs(types, infcx, *rest),
        ),
    }
}

/// What is dropped for the expressions in a pattern.
pub open spec fn pruned_in_pat(types: Map<NodeId, Ty>, infcx: InferCtxt, p: Pat) -> Pruned
    decreases p,
{
    match p.node {
        PatKind::Wild => none(),
        PatKind::Ident(None) => none(),
        PatKind::Ident(Some(sub)) => pruned_in_pat(types, infcx, *sub),
        PatKind::Lit(exprs) => pruned_in_exprs(types, infcx, exprs),
        PatKind::Other(pats) => pruned_in_pats(types, infcx, pats),
    }
}

/// What is dropped for the expressions in the patterns of a list.
pub open spec fn pruned_in_pats(types: Map<NodeId, Ty>, infcx: InferCtxt, l: List<Pat>) -> Pruned
    decreases l,
{
    match l {
        List::Nil => none(),
        List::Cons(p, rest) => join(
            pruned_in_pat(types, infcx, *p),
            pruned_in_pats(types, infcx, *rest),
        ),
    }
}

/// What is dropped for the expressions of a `let`.
pub open spec fn pruned_in_local(types: Map<NodeId, Ty>, infcx: InferCtxt, l: Local) -> Pruned
    decreases l,
{
    join(
        pruned_in_pat(types, infcx, l.pat),
        match l.init {
            Some(e) => pruned_in_expr(types, infcx, e),
            None => none(),
        },
    )
}

/// What is dropped for the expressions of a statement.
pub open spec fn pruned_in_stmt(types: Map<NodeId, Ty>, infcx: InferCtxt, stmt: Stmt) -> Pruned
    decreases stmt,
{
    match stmt.node {
        StmtKind::Local(l) => pruned_in_local(types, infcx, *l),
        StmtKind::Item => none(),
        StmtKind::Expr(e) => pruned_in_expr(types, infcx, *e),
        StmtKind::Semi(e) => pruned_in_expr(types, infcx, *e),
    }
}

/// What is dropped for the expressions of the statements of a list.
pub open spec fn pruned_in_stmts(types: Map<NodeId, Ty>, infcx: InferCtxt, l: List<Stmt>) -> Pruned
    decreases l,
{
    match l {
        List::Nil => none(),
        List::Cons(stmt, rest) => join(
            pruned_in_stmt(types, infcx, *stmt),
            pruned_in_stmts(types, infcx, *rest),
        ),
    }
}

/// What is dropped for the expressions of a block.
pub open spec fn pruned_in_block(types: Map<NodeId, Ty>, infcx: InferCtxt, b: Block) -> Pruned
    decreases b,
{
    join(
        pruned_in_stmts(types, infcx, b.stmts),
        match b.expr {
            Some(e) => pruned_in_expr(types, infcx, *e),
            None => none(),
        },
    )
}

/// What is dropped for the expressions in the patterns of parameters.
pub open spec fn pruned_in_args(types: Map<NodeId, Ty>, infcx: InferCtxt, l: List<Arg>) -> Pruned
    decreases l,
{
    match l {
        List::Nil => none(),
        List::Cons(arg, rest) => join(
            pruned_in_pat(types, infcx, arg.pat),
            pruned_in_args(types, infcx, *rest),
        ),
    }
}

/// How the context `t` stands to the context `s` from which steps of the
/// pass have led to it: an adjustment or a method call that `s` holds in its
/// working tables is in the working tables of `t`, or in its permanent
/// tables, or among what `p` drops.
#[verifier::opaque]
pub open spec fn kept(s: FnCtxtView, t: FnCtxtView, p: Pruned) -> bool {
    &&& forall|id: NodeId| #[trigger]
        s.inh.adjustments.contains_key(id) ==> t.inh.adjustments.contains_key(id)
            || t.tcx.adjustments.contains_key(id) || p.adjustments.contains(id)
    &&& forall|k: u64| #[trigger]
        s.inh.method_map.contains_key(k) ==> t.inh.method_map.contains_key(k)
            || t.tcx.method_map.contains_key(k) || p.methods.contains(k)
}

proof fn lemma_kept_refl(s: FnCtxtView, p: Pruned)
    ensures
        kept(s, s, p),
{
    reveal(kept);
}

proof fn lemma_kept_trans(
    a: FnCtxtView,
    b: FnCtxtView,
    c: FnCtxtView,
    p: Pruned,
    q: Pruned,
    r: Pruned,
)
    requires
        kept(a, b, p),
        kept(b, c, q),
        passed(b, c),
        within(p, r),
        within(q, r),
    ensures
        kept(a, c, r),
{
    reveal(kept);
    reveal(passed);
}

proof fn lemma_kept_weaken(s: FnCtxtView, t: FnCtxtView, p: Pruned, r: Pruned)
    requires
        kept(s, t, p),
        within(p, r),
    ensures
        kept(s, t, r),
{
    reveal(kept);
}

proof fn lemma_reports_kept(s: FnCtxtView, t: FnCtxtView)
    requires
        only_reports(s, t),
    ensures
        kept(s, t, none()),
        passed(s, t),
{
    reveal(kept);
    lemma_only_reports_passed(s, t);
}

proof fn lemma_kept_method_map_entry(
    s: FnCtxtView,
    infcx: InferCtxt,
    reason: ResolveReason,
    call: MethodCall,
)
    ensures
        kept(s, visit_method_map_entry_spec(s, infcx, reason, call), none()),
{
    reveal(visit_method_map_entry_spec);
    reveal(kept);
    if s.inh.method_map.contains_key(call.key()) {
        let m = s.inh.method_map[call.key()];
        let taken = s.with_inh(
            TablesView { method_map: s.inh.method_map.remove(call.key()), ..s.inh },
        );
        lemma_noted_callee_reports(taken, infcx, reason, m);
    }
}

proof fn lemma_kept_autoderefs(
    s: FnCtxtView,
    infcx: InferCtxt,
    reason: ResolveReason,
    id: NodeId,
    from: u32,
    to: u32,
)
    ensures
        kept(s, visit_autoderefs_spec(s, infcx, reason, id, from, to), none()),
    decreases to - from,
{
    if from >= to {
        lemma_kept_refl(s, none());
    } else {
        let call = MethodCall::spec_autoderef(id, from);
        let next = visit_method_map_entry_spec(s, infcx, reason, call);
        let t = visit_autoderefs_spec(s, infcx, reason, id, from, to);
        lemma_kept_method_map_entry(s, infcx, reason, call);
        lemma_kept_autoderefs(next, infcx, reason, id, (from + 1) as u32, to);
        lemma_visit_autoderefs(next, infcx, reason, id, (from + 1) as u32, to);
        lemma_kept_trans(s, next, t, none(), none(), none());
    }
}

proof fn lemma_kept_adjustments(s: FnCtxtView, infcx: InferCtxt, reason: ResolveReason, id: NodeId)
    ensures
        kept(s, visit_adjustments_spec(s, infcx, reason, id), none()),
{
    reveal(visit_adjustments_spec);
    let t = visit_adjustments_spec(s, infcx, reason, id);
    if s.inh.adjustments.contains_key(id) {
        let adj = s.inh.adjustments[id];
        let taken = s.with_inh(TablesView { adjustments: s.inh.adjustments.remove(id), ..s.inh });
        let told = match adj {
            AutoAdjustment::DerefRef(a) => noted(
                noted(
                    visit_autoderefs_spec(taken, infcx, reason, id, 0, a.autoderefs),
                    reason,
                    crate::writeback::autoref_error(infcx, a.autoref),
                ),
                reason,
                crate::writeback::opt_ty_error(infcx, a.unsize),
            ),
            _ => taken,
        };
        assert(kept(taken, told, none())) by {
            match adj {
                AutoAdjustment::DerefRef(a) => {
                    let s1 = visit_autoderefs_spec(taken, infcx, reason, id, 0, a.autoderefs);
                    let s2 = noted(s1, reason, crate::writeback::autoref_error(infcx, a.autoref));
                    lemma_kept_autoderefs(taken, infcx, reason, id, 0, a.autoderefs);
                    lemma_noted_passed(
                        s1,
                        reason,
                        crate::writeback::autoref_error(infcx, a.autoref),
                    );
                    lemma_noted_passed(s2, reason, crate::writeback::opt_ty_error(infcx, a.unsize));
                    lemma_reports_kept(s1, s2);
                    lemma_reports_kept(s2, told);
                    lemma_kept_trans(taken, s1, s2, none(), none(), none());
                    lemma_kept_trans(taken, s2, told, none(), none(), none());
                },
                _ => lemma_kept_refl(taken, none()),
            }
        }
        assert(t.inh == told.inh);
        assert(t.tcx.adjustments == told.tcx.adjustments.insert(
            id,
            crate::writeback::resolved_adjustment(infcx, adj),
        ));
        assert(t.tcx.method_map == told.tcx.method_map);
        reveal(kept);
        assert forall|other: NodeId| #[trigger]
            s.inh.adjustments.contains_key(other) implies t.inh.adjustments.contains_key(other)
            || t.tcx.adjustments.contains_key(other) by {
            if other != id {
                assert(taken.inh.adjustments.contains_key(other));
            }
        }
        assert forall|k: u64| #[trigger]
            s.inh.method_map.contains_key(k) implies t.inh.method_map.contains_key(k)
            || t.tcx.method_map.contains_key(k) by {
            assert(taken.inh.method_map.contains_key(k));
        }
    } else {
        lemma_kept_refl(s, none());
    }
}

proof fn lemma_kept_node_id(s: FnCtxtView, infcx: InferCtxt, reason: ResolveReason, id: NodeId)
    ensures
        kept(s, visit_node_id_spec(s, infcx, reason, id), none()),
{
    reveal(visit_node_id_spec);
    let s1 = visit_adjustments_spec(s, infcx, reason, id);
    lemma_kept_adjustments(s, infcx, reason, id);
    if s1.inh.node_types.contains_key(id) {
        lemma_noted_passed(s1, reason, ty_fixup_error(infcx, s1.inh.node_types[id]));
    }
    let s2 = if s1.inh.node_types.contains_key(id) {
        let t = s1.inh.node_types[id];
        let told = noted(s1, reason, ty_fixup_error(infcx, t));
        told.with_tcx(
            TablesView {
                node_types: told.tcx.node_types.insert(id, crate::resolve::resolved_ty(infcx, t)),
                ..told.tcx
            },
        )
    } else {
        s1
    };
    if s2.inh.item_substs.contains_key(id) {
        crate::resolve::lemma_noted_substs_only_reports(
            s2,
            infcx,
            reason,
            s2.inh.item_substs[id],
        );
    }
    reveal(kept);
}

proof fn lemma_kept_fix_scalar(s: FnCtxtView, infcx: InferCtxt, e: Expr)
    ensures
        kept(
            s,
            fix_scalar_binary_expr_spec(s, infcx, e),
            pruned_with(s.inh.node_types, infcx, e),
        ),
{
    reveal(fix_scalar_binary_expr_spec);
    reveal(kept);
}

proof fn lemma_kept_expr_head(s: FnCtxtView, infcx: InferCtxt, e: Expr)
    ensures
        kept(s, expr_head_spec(s, infcx, e), pruned_with(s.inh.node_types, infcx, e)),
        passed(s, expr_head_spec(s, infcx, e)),
        expr_head_spec(s, infcx, e).inh.node_types == s.inh.node_types,
{
    let reason = ResolveReason::ResolvingExpr(e.span);
    let own = pruned_with(s.inh.node_types, infcx, e);
    let s1 = fix_scalar_binary_expr_spec(s, infcx, e);
    let s2 = visit_node_id_spec(s1, infcx, reason, e.id);
    let s3 = expr_head_spec(s, infcx, e);
    lemma_kept_fix_scalar(s, infcx, e);
    lemma_kept_node_id(s1, infcx, reason, e.id);
    lemma_kept_method_map_entry(s2, infcx, reason, MethodCall::spec_expr(e.id));
    lemma_visit_node_id(s1, infcx, reason, e.id);
    lemma_visit_method_map_entry(s2, infcx, reason, MethodCall::spec_expr(e.id));
    lemma_kept_trans(s, s1, s2, own, none(), own);
    lemma_kept_trans(s, s2, s3, own, none(), own);
    lemma_expr_head(s, infcx, e);
    reveal(passed);
}

proof fn lemma_kept_ty(s: FnCtxtView, a: crate::ast::AstTy)
    ensures
        kept(s, visit_ty_spec(s, a), none()),
    decreases a,
{
    match a {
        crate::ast::AstTy::Path => lemma_kept_refl(s, none()),
        crate::ast::AstTy::FixedLengthVec(elem, _) => {
            let s1 = visit_ty_spec(s, *elem);
            let t = visit_ty_spec(s, a);
            lemma_kept_ty(s, *elem);
            assert(kept(s1, t, none()) && passed(s1, t)) by {
                reveal(kept);
                reveal(passed);
            }
            lemma_kept_trans(s, s1, t, none(), none(), none());
        },
        crate::ast::AstTy::Other(parts) => lemma_kept_tys(s, parts),
    }
}

proof fn lemma_kept_tys(s: FnCtxtView, l: List<crate::ast::AstTy>)
    ensures
        kept(s, visit_tys_spec(s, l), none()),
    decreases l,
{
    match l {
        List::Nil => lemma_kept_refl(s, none()),
        List::Cons(a, rest) => {
            let s1 = visit_ty_spec(s, *a);
            lemma_kept_ty(s, *a);
            lemma_kept_tys(s1, *rest);
            lemma_visit_tys(s1, *rest);
            lemma_kept_trans(s, s1, visit_tys_spec(s1, *rest), none(), none(), none());
        },
    }
}

proof fn lemma_kept_opt_ty(s: FnCtxtView, a: Option<crate::ast::AstTy>)
    ensures
        kept(s, visit_opt_ty_spec(s, a), none()),
{
    match a {
        Some(a) => lemma_kept_ty(s, a),
        None => lemma_kept_refl(s, none()),
    }
}

proof fn lemma_same_types(s: FnCtxtView, t: FnCtxtView)
    requires
        passed(s, t),
    ensures
        t.inh.node_types == s.inh.node_types,
{
    reveal(passed);
}

proof fn lemma_kept_pat(s: FnCtxtView, infcx: InferCtxt, p: Pat)
    ensures
        kept(s, visit_pat_spec(s, infcx, p), pruned_in_pat(s.inh.node_types, infcx, p)),
    decreases p,
{
    let t = visit_pat_spec(s, infcx, p);
    let all = pruned_in_pat(s.inh.node_types, infcx, p);
    let reason = ResolveReason::ResolvingPattern(p.span);
    let s1 = visit_node_id_spec(s, infcx, reason, p.id);
    lemma_kept_node_id(s, infcx, reason, p.id);
    lemma_visit_node_id(s, infcx, reason, p.id);
    lemma_same_types(s, s1);
    match p.node {
        PatKind::Wild => lemma_kept_weaken(s, s1, none(), all),
        PatKind::Ident(None) => lemma_kept_weaken(s, s1, none(), all),
        PatKind::Ident(Some(sub)) => {
            lemma_kept_pat(s1, infcx, *sub);
            lemma_visit_pat(s1, infcx, *sub);
            lemma_kept_trans(s, s1, t, none(), all, all);
        },
        PatKind::Lit(exprs) => {
            lemma_kept_exprs(s1, infcx, exprs);
            lemma_visit_exprs(s1, infcx, exprs);
            lemma_kept_trans(s, s1, t, none(), all, all);
        },
        PatKind::Other(pats) => {
            lemma_kept_pats(s1, infcx, pats);
            lemma_visit_pats(s1, infcx, pats);
            lemma_kept_trans(s, s1, t, none(), all, all);
        },
    }
}

proof fn lemma_kept_pats(s: FnCtxtView, infcx: InferCtxt, l: List<Pat>)
    ensures
        kept(s, visit_pats_spec(s, infcx, l), pruned_in_pats(s.inh.node_types, infcx, l)),
    decreases l,
{
    let all = pruned_in_pats(s.inh.node_types, infcx, l);
    match l {
        List::Nil => lemma_kept_refl(s, all),
        List::Cons(p, rest) => {
            let s1 = visit_pat_spec(s, infcx, *p);
            let t = visit_pats_spec(s1, infcx, *rest);
            lemma_kept_pat(s, infcx, *p);
            lemma_visit_pat(s, infcx, *p);
            lemma_same_types(s, s1);
            lemma_kept_pats(s1, infcx, *rest);
            lemma_visit_pats(s1, infcx, *rest);
            lemma_kept_trans(
                s,
                s1,
                t,
                pruned_in_pat(s.inh.node_types, infcx, *p),
                pruned_in_pats(s.inh.node_types, infcx, *rest),
                all,
            );
        },
    }
}

proof fn lemma_kept_local(s: FnCtxtView, infcx: InferCtxt, l: Local)
    ensures
        kept(s, visit_local_spec(s, infcx, l), pruned_in_local(s.inh.node_types, infcx, l)),
    decreases l,
{
    let t = visit_local_spec(s, infcx, l);
    let types = s.inh.node_types;
    let all = pruned_in_local(types, infcx, l);
    let s1 = if s.locals.contains_key(l.id) {
        let ty = s.locals[l.id];
        let told = noted(s, ResolveReason::ResolvingLocal(l.span), ty_fixup_error(infcx, ty));
        told.with_tcx(
            TablesView {
                node_types: told.tcx.node_types.insert(
                    l.id,
                    crate::resolve::resolved_ty(infcx, ty),
                ),
                ..told.tcx
            },
        )
    } else {
        s
    };
    assert(kept(s, s1, none()) && passed(s, s1)) by {
        if s.locals.contains_key(l.id) {
            lemma_noted_passed(
                s,
                ResolveReason::ResolvingLocal(l.span),
                ty_fixup_error(infcx, s.locals[l.id]),
            );
        }
        reveal(kept);
        reveal(passed);
    }
    lemma_same_types(s, s1);
    let s2 = visit_pat_spec(s1, infcx, l.pat);
    lemma_kept_pat(s1, infcx, l.pat);
    lemma_visit_pat(s1, infcx, l.pat);
    lemma_same_types(s1, s2);
    let s3 = visit_opt_ty_spec(s2, l.ty);
    lemma_kept_opt_ty(s2, l.ty);
    lemma_visit_opt_ty(s2, l.ty);
    lemma_same_types(s2, s3);
    let in_pat = pruned_in_pat(types, infcx, l.pat);
    lemma_kept_trans(s, s1, s2, none(), in_pat, in_pat);
    lemma_kept_trans(s, s2, s3, in_pat, none(), in_pat);
    match l.init {
        Some(e) => {
            lemma_kept_expr(s3, infcx, e);
            lemma_visit_expr(s3, infcx, e);
            lemma_kept_trans(s, s3, t, in_pat, pruned_in_expr(types, infcx, e), all);
        },
        None => {
            lemma_passed_refl(s3);
            lemma_kept_refl(s3, none());
            lemma_kept_trans(s, s3, t, in_pat, none(), all);
        },
    }
}

proof fn lemma_kept_stmt(s: FnCtxtView, infcx: InferCtxt, stmt: Stmt)
    ensures
        kept(s, visit_stmt_spec(s, infcx, stmt), pruned_in_stmt(s.inh.node_types, infcx, stmt)),
    decreases stmt,
{
    let t = visit_stmt_spec(s, infcx, stmt);
    let all = pruned_in_stmt(s.inh.node_types, infcx, stmt);
    let reason = ResolveReason::ResolvingExpr(stmt.span);
    let s1 = visit_node_id_spec(s, infcx, reason, stmt.id);
    lemma_kept_node_id(s, infcx, reason, stmt.id);
    lemma_visit_node_id(s, infcx, reason, stmt.id);
    lemma_same_types(s, s1);
    match stmt.node {
        StmtKind::Local(l) => {
            lemma_kept_local(s1, infcx, *l);
            lemma_visit_local(s1, infcx, *l);
        },
        StmtKind::Item => {
            lemma_kept_refl(s1, all);
            lemma_passed_refl(s1);
        },
        StmtKind::Expr(e) => {
            lemma_kept_expr(s1, infcx, *e);
            lemma_visit_expr(s1, infcx, *e);
        },
        StmtKind::Semi(e) => {
            lemma_kept_expr(s1, infcx, *e);
            lemma_visit_expr(s1, infcx, *e);
        },
    }
    lemma_kept_trans(s, s1, t, none(), all, all);
}

proof fn lemma_kept_stmts(s: FnCtxtView, infcx: InferCtxt, l: List<Stmt>)
    ensures
        kept(s, visit_stmts_spec(s, infcx, l), pruned_in_stmts(s.inh.node_types, infcx, l)),
    decreases l,
{
    let all = pruned_in_stmts(s.inh.node_types, infcx, l);
    match l {
        List::Nil => lemma_kept_refl(s, all),
        List::Cons(stmt, rest) => {
            let s1 = visit_stmt_spec(s, infcx, *stmt);
            let t = visit_stmts_spec(s1, infcx, *rest);
            lemma_kept_stmt(s, infcx, *stmt);
            lemma_visit_stmt(s, infcx, *stmt);
            lemma_same_types(s, s1);
            lemma_kept_stmts(s1, infcx, *rest);
            lemma_visit_stmts(s1, infcx, *rest);
            lemma_kept_trans(
                s,
                s1,
                t,
                pruned_in_stmt(s.inh.node_types, infcx, *stmt),
                pruned_in_stmts(s.inh.node_types, infcx, *rest),
                all,
            );
        },
    }
}

proof fn lemma_kept_block(s: FnCtxtView, infcx: InferCtxt, b: Block)
    ensures
        kept(s, visit_block_spec(s, infcx, b), pruned_in_block(s.inh.node_types, infcx, b)),
    decreases b,
{
    let t = visit_block_spec(s, infcx, b);
    let types = s.inh.node_types;
    let all = pruned_in_block(types, infcx, b);
    let reason = ResolveReason::ResolvingExpr(b.span);
    let s1 = visit_node_id_spec(s, infcx, reason, b.id);
    lemma_kept_node_id(s, infcx, reason, b.id);
    lemma_visit_node_id(s, infcx, reason, b.id);
    lemma_same_types(s, s1);
    let s2 = visit_stmts_spec(s1, infcx, b.stmts);
    lemma_kept_stmts(s1, infcx, b.stmts);
    lemma_visit_stmts(s1, infcx, b.stmts);
    lemma_same_types(s1, s2);
    let in_stmts = pruned_in_stmts(types, infcx, b.stmts);
    lemma_kept_trans(s, s1, s2, none(), in_stmts, in_stmts);
    match b.expr {
        Some(e) => {
            lemma_kept_expr(s2, infcx, *e);
            lemma_visit_expr(s2, infcx, *e);
            lemma_kept_trans(s, s2, t, in_stmts, pruned_in_expr(types, infcx, *e), all);
        },
        None => {
            lemma_passed_refl(s2);
            lemma_kept_refl(s2, none());
            lemma_kept_trans(s, s2, t, in_stmts, none(), all);
        },
    }
}

proof fn lemma_kept_closure_inputs(s: FnCtxtView, infcx: InferCtxt, span: Span, l: List<Arg>)
    ensures
        kept(s, visit_closure_inputs_spec(s, infcx, span, l), none()),
    decreases l,
{
    match l {
        List::Nil => lemma_kept_refl(s, none()),
        List::Cons(arg, rest) => {
            let reason = ResolveReason::ResolvingExpr(span);
            let s1 = visit_node_id_spec(s, infcx, reason, arg.id);
            let t = visit_closure_inputs_spec(s1, infcx, span, *rest);
            lemma_kept_node_id(s, infcx, reason, arg.id);
            lemma_kept_closure_inputs(s1, infcx, span, *rest);
            lemma_visit_closure_inputs(s1, infcx, span, *rest);
            lemma_kept_trans(s, s1, t, none(), none(), none());
        },
    }
}

proof fn lemma_kept_walk_args(s: FnCtxtView, infcx: InferCtxt, l: List<Arg>)
    ensures
        kept(s, walk_args_spec(s, infcx, l), pruned_in_args(s.inh.node_types, infcx, l)),
    decreases l,
{
    let types = s.inh.node_types;
    let all = pruned_in_args(types, infcx, l);
    match l {
        List::Nil => lemma_kept_refl(s, all),
        List::Cons(arg, rest) => {
            let s1 = visit_pat_spec(s, infcx, arg.pat);
            let s2 = visit_ty_spec(s1, arg.ty);
            let t = walk_args_spec(s2, infcx, *rest);
            let in_pat = pruned_in_pat(types, infcx, arg.pat);
            lemma_kept_pat(s, infcx, arg.pat);
            lemma_visit_pat(s, infcx, arg.pat);
            lemma_same_types(s, s1);
            lemma_kept_ty(s1, arg.ty);
            lemma_visit_ty(s1, arg.ty);
            lemma_same_types(s1, s2);
            lemma_kept_walk_args(s2, infcx, *rest);
            lemma_walk_args(s2, infcx, *rest);
            lemma_kept_trans(s, s1, s2, in_pat, none(), in_pat);
            lemma_kept_trans(s, s2, t, in_pat, pruned_in_args(types, infcx, *rest), all);
        },
    }
}

proof fn lemma_kept_walk_fn_decl(s: FnCtxtView, infcx: InferCtxt, decl: FnDecl)
    ensures
        kept(
            s,
            walk_fn_decl_spec(s, infcx, decl),
            pruned_in_args(s.inh.node_types, infcx, decl.inputs),
        ),
    decreases decl,
{
    let all = pruned_in_args(s.inh.node_types, infcx, decl.inputs);
    let s1 = walk_args_spec(s, infcx, decl.inputs);
    let t = walk_fn_decl_spec(s, infcx, decl);
    lemma_kept_walk_args(s, infcx, decl.inputs);
    lemma_kept_opt_ty(s1, decl.output);
    lemma_visit_opt_ty(s1, decl.output);
    lemma_kept_trans(s, s1, t, all, none(), all);
}

proof fn lemma_kept_expr(s: FnCtxtView, infcx: InferCtxt, e: Expr)
    ensures
        kept(s, visit_expr_spec(s, infcx, e), pruned_in_expr(s.inh.node_types, infcx, e)),
    decreases e,
{
    let t = visit_expr_spec(s, infcx, e);
    let types = s.inh.node_types;
    let all = pruned_in_expr(types, infcx, e);
    let own = pruned_with(types, infcx, e);
    let s3 = expr_head_spec(s, infcx, e);
    lemma_kept_expr_head(s, infcx, e);
    match e.node {
        ExprKind::Path => {
            lemma_kept_refl(s3, none());
            lemma_passed_refl(s3);
            lemma_kept_trans(s, s3, t, own, none(), all);
        },
        ExprKind::Paren(sub) => {
            lemma_kept_expr(s3, infcx, *sub);
            lemma_visit_expr(s3, infcx, *sub);
            lemma_kept_trans(s, s3, t, own, pruned_in_expr(types, infcx, *sub), all);
        },
        ExprKind::Field(sub, _) => {
            lemma_kept_expr(s3, infcx, *sub);
            lemma_visit_expr(s3, infcx, *sub);
            lemma_kept_trans(s, s3, t, own, pruned_in_expr(types, infcx, *sub), all);
        },
        ExprKind::TupField(sub, _) => {
            lemma_kept_expr(s3, infcx, *sub);
            lemma_visit_expr(s3, infcx, *sub);
            lemma_kept_trans(s, s3, t, own, pruned_in_expr(types, infcx, *sub), all);
        },
        ExprKind::Unary(_, sub) => {
            lemma_kept_expr(s3, infcx, *sub);
            lemma_visit_expr(s3, infcx, *sub);
            lemma_kept_trans(s, s3, t, own, pruned_in_expr(types, infcx, *sub), all);
        },
        ExprKind::Index(a, b) => {
            let s4 = visit_expr_spec(s3, infcx, *a);
            let first = pruned_in_expr(types, infcx, *a);
            let second = pruned_in_expr(types, infcx, *b);
            lemma_kept_expr(s3, infcx, *a);
            lemma_visit_expr(s3, infcx, *a);
            lemma_same_types(s3, s4);
            lemma_kept_expr(s4, infcx, *b);
            lemma_visit_expr(s4, infcx, *b);
            lemma_passed_trans(s3, s4, t);
            lemma_kept_trans(s3, s4, t, first, second, join(first, second));
            lemma_kept_trans(s, s3, t, own, join(first, second), all);
        },
        ExprKind::Binary(_, a, b) => {
            let s4 = visit_expr_spec(s3, infcx, *a);
            let first = pruned_in_expr(types, infcx, *a);
            let second = pruned_in_expr(types, infcx, *b);
            lemma_kept_expr(s3, infcx, *a);
            lemma_visit_expr(s3, infcx, *a);
            lemma_same_types(s3, s4);
            lemma_kept_expr(s4, infcx, *b);
            lemma_visit_expr(s4, infcx, *b);
            lemma_passed_trans(s3, s4, t);
            lemma_kept_trans(s3, s4, t, first, second, join(first, second));
            lemma_kept_trans(s, s3, t, own, join(first, second), all);
        },
        ExprKind::Closure(decl, body) => {
            let s4 = visit_closure_inputs_spec(s3, infcx, e.span, decl.inputs);
            let s5 = walk_fn_decl_spec(s4, infcx, *decl);
            let in_args = pruned_in_args(types, infcx, decl.inputs);
            let in_body = pruned_in_block(types, infcx, *body);
            lemma_kept_closure_inputs(s3, infcx, e.span, decl.inputs);
            lemma_visit_closure_inputs(s3, infcx, e.span, decl.inputs);
            lemma_same_types(s3, s4);
            lemma_kept_walk_fn_decl(s4, infcx, *decl);
            lemma_walk_fn_decl(s4, infcx, *decl);
            lemma_same_types(s4, s5);
            lemma_kept_block(s5, infcx, *body);
            lemma_visit_block(s5, infcx, *body);
            lemma_passed_trans(s4, s5, t);
            lemma_passed_trans(s3, s4, t);
            lemma_kept_trans(s4, s5, t, in_args, in_body, join(in_args, in_body));
            lemma_kept_trans(s3, s4, t, none(), join(in_args, in_body), join(in_args, in_body));
            lemma_kept_trans(s, s3, t, own, join(in_args, in_body), all);
        },
        ExprKind::Block(b) => {
            lemma_kept_block(s3, infcx, *b);
            lemma_visit_block(s3, infcx, *b);
            lemma_kept_trans(s, s3, t, own, pruned_in_block(types, infcx, *b), all);
        },
        ExprKind::Cast(sub, a) => {
            let s4 = visit_expr_spec(s3, infcx, *sub);
            let inner = pruned_in_expr(types, infcx, *sub);
            lemma_kept_expr(s3, infcx, *sub);
            lemma_visit_expr(s3, infcx, *sub);
            lemma_kept_ty(s4, *a);
            lemma_visit_ty(s4, *a);
            lemma_passed_trans(s3, s4, t);
            lemma_kept_trans(s3, s4, t, inner, none(), inner);
            lemma_kept_trans(s, s3, t, own, inner, all);
        },
        ExprKind::Other(subs) => {
            lemma_kept_exprs(s3, infcx, subs);
            lemma_visit_exprs(s3, infcx, subs);
            lemma_kept_trans(s, s3, t, own, pruned_in_exprs(types, infcx, subs), all);
        },
    }
}

proof fn lemma_kept_exprs(s: FnCtxtView, infcx: InferCtxt, l: List<Expr>)
    ensures
        kept(s, visit_exprs_spec(s, infcx, l), pruned_in_exprs(s.inh.node_types, infcx, l)),
    decreases l,
{
    let all = pruned_in_exprs(s.inh.node_types, infcx, l);
    match l {
        List::Nil => lemma_kept_refl(s, all),
        List::Cons(e, rest) => {
            let s1 = visit_expr_spec(s, infcx, *e);
            let t = visit_exprs_spec(s1, infcx, *rest);
            lemma_kept_expr(s, infcx, *e);
            lemma_visit_expr(s, infcx, *e);
            lemma_same_types(s, s1);
            lemma_kept_exprs(s1, infcx, *rest);
            lemma_visit_exprs(s1, infcx, *rest);
            lemma_kept_trans(
                s,
                s1,
                t,
                pruned_in_expr(s.inh.node_types, infcx, *e),
                pruned_in_exprs(s.inh.node_types, infcx, *rest),
                all,
            );
        },
    }
}

proof fn lemma_kept_fn_args(s: FnCtxtView, infcx: InferCtxt, l: List<Arg>)
    ensures
        kept(s, visit_fn_args_spec(s, infcx, l), pruned_in_args(s.inh.node_types, infcx, l)),
    decreases l,
{
    let types = s.inh.node_types;
    let all = pruned_in_args(types, infcx, l);
    match l {
        List::Nil => lemma_kept_refl(s, all),
        List::Cons(arg, rest) => {
            let reason = ResolveReason::ResolvingPattern(arg.pat.span);
            let in_pat = pruned_in_pat(types, infcx, arg.pat);
            let s1 = visit_node_id_spec(s, infcx, reason, arg.id);
            let s2 = visit_pat_spec(s1, infcx, arg.pat);
            let s3 = if arg.pat.spec_is_binding() {
                s2
            } else {
                visit_node_id_spec(s2, infcx, reason, arg.pat.id)
            };
            let t = visit_fn_args_spec(s3, infcx, *rest);
            lemma_kept_node_id(s, infcx, reason, arg.id);
            lemma_visit_node_id(s, infcx, reason, arg.id);
            lemma_same_types(s, s1);
            lemma_kept_pat(s1, infcx, arg.pat);
            lemma_visit_pat(s1, infcx, arg.pat);
            lemma_same_types(s1, s2);
            if arg.pat.spec_is_binding() {
                lemma_kept_refl(s2, none());
                lemma_passed_refl(s2);
            } else {
                lemma_kept_node_id(s2, infcx, reason, arg.pat.id);
                lemma_visit_node_id(s2, infcx, reason, arg.pat.id);
            }
            lemma_same_types(s2, s3);
            lemma_kept_fn_args(s3, infcx, *rest);
            lemma_visit_fn_args(s3, infcx, *rest);
            lemma_kept_trans(s, s1, s2, none(), in_pat, in_pat);
            lemma_kept_trans(s, s2, s3, in_pat, none(), in_pat);
            lemma_kept_trans(s, s3, t, in_pat, pruned_in_args(types, infcx, *rest), all);
        },
    }
}

proof fn lemma_kept_tail(s: FnCtxtView, infcx: InferCtxt)
    ensures
        kept(s, visit_closures_spec(visit_upvar_borrow_map_spec(s, infcx), infcx), none()),
        passed(s, visit_closures_spec(visit_upvar_borrow_map_spec(s, infcx), infcx)),
{
    let s1 = visit_upvar_borrow_map_spec(s, infcx);
    let t = visit_closures_spec(s1, infcx);
    lemma_visit_upvar_borrow_map(s, infcx);
    lemma_visit_closures(s1, infcx);
    lemma_passed_trans(s, s1, t);
    lemma_noted_upvars_reports(s, infcx, s.inh.upvar_capture_map);
    lemma_noted_closure_tys_reports(s1, infcx, s1.inh.closure_tys);
    reveal(kept);
}

/// What writeback of a function drops as overloads of operators on
/// scalars.
pub open spec fn pruned_in_fn(s: FnCtxtView, infcx: InferCtxt, decl: FnDecl, blk: Block) -> Pruned {
    join(
        pruned_in_block(s.inh.node_types, infcx, blk),
        pruned_in_args(s.inh.node_types, infcx, decl.inputs),
    )
}

/// After a pass of writeback over a function, whether it has failed or
/// not, the adjustment that checking recorded for a node of the function is in the
/// permanent table, unless it was dropped as the overload of an operator on
/// scalars; and so is the record of the method call of an expression.
///
/// More exactly: whatever the working tables held before the pass is in the
/// working tables after it, or in the permanent tables, or dropped; and of
/// the nodes of the function, the working tables hold nothing after it.
pub proof fn lemma_records_have_counterparts(
    s: FnCtxtView,
    infcx: InferCtxt,
    decl: FnDecl,
    blk: Block,
)
    ensures
        kept(
            s,
            resolve_type_vars_in_fn_spec(s, infcx, decl, blk),
            pruned_in_fn(s, infcx, decl, blk),
        ),
        block_done(
            resolve_type_vars_in_fn_spec(s, infcx, decl, blk),
            blk,
        ) && fn_args_done(resolve_type_vars_in_fn_spec(s, infcx, decl, blk), decl.inputs),
{
    let types = s.inh.node_types;
    let in_body = pruned_in_block(types, infcx, blk);
    let in_args = pruned_in_args(types, infcx, decl.inputs);
    let all = pruned_in_fn(s, infcx, decl, blk);
    let s1 = visit_block_spec(s, infcx, blk);
    let s2 = visit_fn_args_spec(s1, infcx, decl.inputs);
    let t = resolve_type_vars_in_fn_spec(s, infcx, decl, blk);
    lemma_kept_block(s, infcx, blk);
    lemma_visit_block(s, infcx, blk);
    lemma_same_types(s, s1);
    lemma_kept_fn_args(s1, infcx, decl.inputs);
    lemma_visit_fn_args(s1, infcx, decl.inputs);
    lemma_kept_tail(s2, infcx);
    lemma_kept_trans(s, s1, s2, in_body, in_args, all);
    lemma_kept_trans(s, s2, t, all, none(), all);
    lemma_writeback_of_fn_is_total(s, infcx, decl, blk);
}

/// The same for an expression that is checked on its own.
pub proof fn lemma_records_of_expr_have_counterparts(s: FnCtxtView, infcx: InferCtxt, e: Expr)
    ensures
        kept(
            s,
            resolve_type_vars_in_expr_spec(s, infcx, e),
            pruned_in_expr(s.inh.node_types, infcx, e),
        ),
        expr_done(
            resolve_type_vars_in_expr_spec(s, infcx, e),
            e,
        ),
{
    let all = pruned_in_expr(s.inh.node_types, infcx, e);
    let s1 = visit_expr_spec(s, infcx, e);
    let t = resolve_type_vars_in_expr_spec(s, infcx, e);
    lemma_kept_expr(s, infcx, e);
    lemma_kept_tail(s1, infcx);
    lemma_kept_trans(s, s1, t, all, none(), all);
    lemma_writeback_of_expr_is_total(s, infcx, e);
}

/// What `kept` says of one adjustment and of one method call.
pub proof fn lemma_kept_means(s: FnCtxtView, t: FnCtxtView, p: Pruned, id: NodeId, k: u64)
    requires
        kept(s, t, p),
    ensures
        s.inh.adjustments.contains_key(id) && !t.inh.adjustments.contains_key(id)
            && !p.adjustments.contains(id) ==> t.tcx.adjustments.contains_key(id),
        s.inh.method_map.contains_key(k) && !t.inh.method_map.contains_key(k)
            && !p.methods.contains(k) ==> t.tcx.method_map.contains_key(k),
{
    reveal(kept);
}

} // verus!
