//! A pass of writeback for which the oracle has every answer does not
//! fail.
//!
//! If the oracle has an answer for every placeholder in what checking
//! recorded for the function, the pass marks no failure and shows no error:
//! it leaves the mark, the errors and their number as they were. And
//! whatever the oracle has answered, the permanent types that the pass
//! writes are what full resolution makes of the recorded ones.

use crate::ast::{Arg, AstTy, Block, Expr, ExprKind, FnDecl, Local, Pat, PatKind, Stmt, StmtKind};
use crate::infer::InferCtxt;
use crate::list::List;
use crate::resolve::{
    lemma_noted_substs_only_reports, noted, noted_regions, noted_substs, noted_tys,
    region_fixup_error, resolved_ty, ty_fixup_error, ResolveReason,
};
use crate::tables::{
    AutoAdjustment, ClosureTyEntry, FnCtxtView, MethodCall, MethodCallee, MethodOrigin,
    TablesView, UpvarEntry,
};
use crate::totality::{
    expr_head_spec, lemma_fix_scalar, lemma_noted_callee_reports,
    lemma_noted_closure_tys_reports, lemma_noted_passed, lemma_noted_upvars_reports,
    lemma_visit_adjustments, lemma_visit_method_map_entry, lemma_visit_node_id, passed,
};
use crate::ty::{NodeId, Region, RegionSubsts, Span, Substs, Ty, UintTy};
use crate::writeback::{
    autoref_error, fix_scalar_binary_expr_spec, fn_output_error, noted_callee, noted_closure_ty,
    noted_closure_tys, noted_origin, noted_upvars, opt_ty_error, resolve_type_vars_in_expr_spec,
    resolve_type_vars_in_fn_spec, upvar_error, visit_adjustments_spec, visit_autoderefs_spec,
    visit_block_spec, visit_closure_inputs_spec, visit_closures_spec, visit_expr_spec,
    visit_exprs_spec, visit_fn_args_spec, visit_local_spec, visit_method_map_entry_spec,
    visit_node_id_spec, visit_opt_ty_spec, visit_pat_spec, visit_pats_spec, visit_stmt_spec,
    visit_stmts_spec, visit_ty_spec, visit_tys_spec, visit_upvar_borrow_map_spec,
    walk_args_spec, walk_fn_decl_spec,
};
use vstd::prelude::*;

verus! {

// ---------------------------------------------------------------------------
// What the oracle has answers for
/// Whether the oracle has an answer for every placeholder of each type of
/// the list.
pub open spec fn tys_answered(infcx: InferCtxt, l: List<Ty>) -> bool
    decreases l,
{
    match l {
        List::Nil => true,
        List::Cons(t, rest) => ty_fixup_error(infcx, *t) is None && tys_answered(infcx, *rest),
    }
}

/// Whether the oracle has an answer for each region of the list that is a
/// placeholder.
pub open spec fn regions_answered(infcx: InferCtxt, l: List<Region>) -> bool
    decreases l,
{
    match l {
        List::Nil => true,
        List::Cons(r, rest) => region_fixup_error(infcx, *r) is None && regions_answered(
            infcx,
            *rest,
        ),
    }
}

/// Whether the oracle has an answer for every placeholder of the
/// substitution.
pub open spec fn substs_answered(infcx: InferCtxt, substs: Substs) -> bool {
    &&& tys_answered(infcx, substs.types.types)
    &&& tys_answered(infcx, substs.types.selfs)
    &&& tys_answered(infcx, substs.types.fns)
    &&& match substs.regions {
        RegionSubsts::Erased => true,
        RegionSubsts::NonErased(r) => regions_answered(infcx, r.types) && regions_answered(
            infcx,
            r.selfs,
        ) && regions_answered(infcx, r.fns),
    }
}

/// Whether the oracle has an answer for every placeholder of the record
/// of a method call.
pub open spec fn callee_answered(infcx: InferCtxt, m: MethodCallee) -> bool {
    &&& match m.origin {
        MethodOrigin::Static(_) => true,
        MethodOrigin::TypeParam(p) => substs_answered(infcx, p.trait_ref.substs),
        MethodOrigin::TraitObject(o) => substs_answered(infcx, o.trait_ref.substs),
    }
    &&& ty_fixup_error(infcx, m.ty) is None
    &&& substs_answered(infcx, m.substs)
}

/// Whether the oracle has an answer for every placeholder of the
/// adjustment.
pub open spec fn adjustment_answered(infcx: InferCtxt, adj: AutoAdjustment) -> bool {
    match adj {
        AutoAdjustment::DerefRef(a) => autoref_error(infcx, a.autoref) is None && opt_ty_error(
            infcx,
            a.unsize,
        ) is None,
        _ => true,
    }
}

/// Whether the oracle has an answer for the region of each capture of the
/// list.
pub open spec fn captures_answered(infcx: InferCtxt, l: List<UpvarEntry>) -> bool
    decreases l,
{
    match l {
        List::Nil => true,
        List::Cons(entry, rest) => upvar_error(infcx, *entry) is None && captures_answered(
            infcx,
            *rest,
        ),
    }
}

/// Whether the oracle has an answer for every placeholder of each
/// signature of the list.
pub open spec fn signatures_answered(infcx: InferCtxt, l: List<ClosureTyEntry>) -> bool
    decreases l,
{
    match l {
        List::Nil => true,
        List::Cons(entry, rest) => tys_answered(infcx, entry.ty.sig.0.inputs) && fn_output_error(
            infcx,
            entry.ty.sig.0.output,
        ) is None && signatures_answered(infcx, *rest),
    }
}

/// Whether the oracle has an answer for every placeholder in what checking
/// recorded: in the types of the nodes and of the local variables, in the
/// arguments of items, in the adjustments, in the records of method calls,
/// in the captures and in the signatures of closures.
pub open spec fn answers_all(s: FnCtxtView, infcx: InferCtxt) -> bool {
    &&& forall|id: NodeId| #[trigger]
        s.inh.node_types.contains_key(id) ==> ty_fixup_error(infcx, s.inh.node_types[id])
            is None
    &&& forall|id: NodeId| #[trigger]
        s.locals.contains_key(id) ==> ty_fixup_error(infcx, s.locals[id]) is None
    &&& forall|id: NodeId| #[trigger]
        s.inh.item_substs.contains_key(id) ==> substs_answered(infcx, s.inh.item_substs[id])
    &&& forall|id: NodeId| #[trigger]
        s.inh.adjustments.contains_key(id) ==> adjustment_answered(infcx, s.inh.adjustments[id])
    &&& forall|k: u64| #[trigger]
        s.inh.method_map.contains_key(k) ==> callee_answered(infcx, s.inh.method_map[k])
    &&& captures_answered(infcx, s.inh.upvar_capture_map)
    &&& signatures_answered(infcx, s.inh.closure_tys)
}

/// Whether nothing has been reported between `s` and `t`: the mark of
/// failure, the errors shown and their number are the same.
pub open spec fn quiet(s: FnCtxtView, t: FnCtxtView) -> bool {
    &&& t.writeback_errors == s.writeback_errors
    &&& t.diagnostics == s.diagnostics
    &&& t.err_count == s.err_count
}

/// How the context `t` stands to the context `s` from which steps of the
/// pass have led to it: if the oracle has every answer for `s`, nothing has
/// been reported on the way, and the oracle has every answer for `t`; and
/// whatever the oracle has answered, each permanent type of `t` comes from
/// what `s` holds.
#[verifier::opaque]
pub open spec fn calm(s: FnCtxtView, t: FnCtxtView, infcx: InferCtxt) -> bool {
    &&& answers_all(s, infcx) ==> quiet(s, t) && answers_all(t, infcx)
    &&& t.inh.node_types == s.inh.node_types
    &&& t.locals == s.locals
    &&& forall|id: NodeId| #[trigger]
        t.tcx.node_types.contains_key(id) ==> sourced(s, infcx, id, t.tcx.node_types[id])
}

/// Whether `ty` is a permanent type for the node `id` that a pass from `s`
/// on can leave: the one that `s` has, or what full resolution makes of the
/// type that checking recorded for the node or for the local variable, or
/// the type of lengths.
pub open spec fn sourced(s: FnCtxtView, infcx: InferCtxt, id: NodeId, ty: Ty) -> bool {
    ||| s.tcx.node_types.contains_key(id) && ty == s.tcx.node_types[id]
    ||| s.inh.node_types.contains_key(id) && ty == resolved_ty(infcx, s.inh.node_types[id])
    ||| s.locals.contains_key(id) && ty == resolved_ty(infcx, s.locals[id])
    ||| ty == Ty::Uint(UintTy::Usize)
}

proof fn lemma_calm_refl(s: FnCtxtView, infcx: InferCtxt)
    ensures
        calm(s, s, infcx),
{
    reveal(calm);
}

proof fn lemma_calm_trans(a: FnCtxtView, b: FnCtxtView, c: FnCtxtView, infcx: InferCtxt)
    requires
        calm(a, b, infcx),
        calm(b, c, infcx),
    ensures
        calm(a, c, infcx),
{
    reveal(calm);
}

/// The working tables only shrink in a pass, so the oracle keeps having
/// every answer.
proof fn lemma_answers_stay(s: FnCtxtView, t: FnCtxtView, infcx: InferCtxt)
    requires
        passed(s, t),
        answers_all(s, infcx),
    ensures
        answers_all(t, infcx),
{
    reveal(passed);
}

// ---------------------------------------------------------------------------
// Resolving what the oracle has answers for reports nothing
proof fn lemma_tys_unreported(s: FnCtxtView, infcx: InferCtxt, reason: ResolveReason, l: List<Ty>)
    requires
        tys_answered(infcx, l),
    ensures
        noted_tys(s, infcx, reason, l) == s,
    decreases l,
{
    match l {
        List::Nil => {},
        List::Cons(_, rest) => lemma_tys_unreported(s, infcx, reason, *rest),
    }
}

proof fn lemma_regions_unreported(
    s: FnCtxtView,
    infcx: InferCtxt,
    reason: ResolveReason,
    l: List<Region>,
)
    requires
        regions_answered(infcx, l),
    ensures
        noted_regions(s, infcx, reason, l) == s,
    decreases l,
{
    match l {
        List::Nil => {},
        List::Cons(_, rest) => lemma_regions_unreported(s, infcx, reason, *rest),
    }
}

proof fn lemma_substs_unreported(
    s: FnCtxtView,
    infcx: InferCtxt,
    reason: ResolveReason,
    substs: Substs,
)
    requires
        substs_answered(infcx, substs),
    ensures
        noted_substs(s, infcx, reason, substs) == s,
{
    reveal(noted_substs);
    match substs.regions {
        RegionSubsts::Erased => {},
        RegionSubsts::NonErased(r) => {
            lemma_regions_unreported(s, infcx, reason, r.types);
            lemma_regions_unreported(s, infcx, reason, r.selfs);
            lemma_regions_unreported(s, infcx, reason, r.fns);
        },
    }
    lemma_tys_unreported(s, infcx, reason, substs.types.types);
    lemma_tys_unreported(s, infcx, reason, substs.types.selfs);
    lemma_tys_unreported(s, infcx, reason, substs.types.fns);
}

proof fn lemma_callee_unreported(
    s: FnCtxtView,
    infcx: InferCtxt,
    reason: ResolveReason,
    m: MethodCallee,
)
    requires
        callee_answered(infcx, m),
    ensures
        noted_callee(s, infcx, reason, m) == s,
{
    reveal(noted_callee);
    match m.origin {
        MethodOrigin::Static(_) => {},
        MethodOrigin::TypeParam(p) => lemma_substs_unreported(
            s,
            infcx,
            reason,
            p.trait_ref.substs,
        ),
        MethodOrigin::TraitObject(o) => lemma_substs_unreported(
            s,
            infcx,
            reason,
            o.trait_ref.substs,
        ),
    }
    assert(noted_origin(s, infcx, reason, m.origin) == s);
    lemma_substs_unreported(s, infcx, reason, m.substs);
}

proof fn lemma_captures_unreported(s: FnCtxtView, infcx: InferCtxt, l: List<UpvarEntry>)
    requires
        captures_answered(infcx, l),
    ensures
        noted_upvars(s, infcx, l) == s,
    decreases l,
{
    match l {
        List::Nil => {},
        List::Cons(_, rest) => lemma_captures_unreported(s, infcx, *rest),
    }
}

proof fn lemma_signatures_unreported(s: FnCtxtView, infcx: InferCtxt, l: List<ClosureTyEntry>)
    requires
        signatures_answered(infcx, l),
    ensures
        noted_closure_tys(s, infcx, l) == s,
    decreases l,
{
    match l {
        List::Nil => {},
        List::Cons(entry, rest) => {
            reveal(noted_closure_ty);
            lemma_tys_unreported(
                s,
                infcx,
                ResolveReason::ResolvingClosure(entry.def_id),
                entry.ty.sig.0.inputs,
            );
            lemma_signatures_unreported(s, infcx, *rest);
        },
    }
}

// ---------------------------------------------------------------------------
// The steps of the pass
proof fn lemma_calm_method_map_entry(
    s: FnCtxtView,
    infcx: InferCtxt,
    reason: ResolveReason,
    call: MethodCall,
)
    ensures
        calm(s, visit_method_map_entry_spec(s, infcx, reason, call), infcx),
{
    reveal(visit_method_map_entry_spec);
    let t = visit_method_map_entry_spec(s, infcx, reason, call);
    lemma_visit_method_map_entry(s, infcx, reason, call);
    lemma_types_stay(s, t);
    if s.inh.method_map.contains_key(call.key()) {
        let taken = s.with_inh(
            TablesView { method_map: s.inh.method_map.remove(call.key()), ..s.inh },
        );
        lemma_noted_callee_reports(taken, infcx, reason, s.inh.method_map[call.key()]);
        if answers_all(s, infcx) {
            lemma_callee_unreported(taken, infcx, reason, s.inh.method_map[call.key()]);
        }
    }
    if answers_all(s, infcx) {
        lemma_answers_stay(s, t, infcx);
    }
    assert(t.tcx.node_types == s.tcx.node_types);
    reveal(calm);
}

/// The types that checking recorded are not touched by a pass.
proof fn lemma_types_stay(s: FnCtxtView, t: FnCtxtView)
    requires
        passed(s, t),
    ensures
        t.inh.node_types == s.inh.node_types,
        t.locals == s.locals,
{
    reveal(passed);
}

proof fn lemma_calm_autoderefs(
    s: FnCtxtView,
    infcx: InferCtxt,
    reason: ResolveReason,
    id: NodeId,
    from: u32,
    to: u32,
)
    ensures
        calm(s, visit_autoderefs_spec(s, infcx, reason, id, from, to), infcx),
    decreases to - from,
{
    if from >= to {
        lemma_calm_refl(s, infcx);
    } else {
        let call = MethodCall::spec_autoderef(id, from);
        let next = visit_method_map_entry_spec(s, infcx, reason, call);
        let t = visit_autoderefs_spec(s, infcx, reason, id, from, to);
        lemma_calm_method_map_entry(s, infcx, reason, call);
        lemma_calm_autoderefs(next, infcx, reason, id, (from + 1) as u32, to);
        lemma_calm_trans(s, next, t, infcx);
    }
}

proof fn lemma_calm_adjustments(s: FnCtxtView, infcx: InferCtxt, reason: ResolveReason, id: NodeId)
    ensures
        calm(s, visit_adjustments_spec(s, infcx, reason, id), infcx),
{
    reveal(visit_adjustments_spec);
    let t = visit_adjustments_spec(s, infcx, reason, id);
    lemma_visit_adjustments(s, infcx, reason, id);
    lemma_types_stay(s, t);
    if answers_all(s, infcx) {
        lemma_answers_stay(s, t, infcx);
    }
    if s.inh.adjustments.contains_key(id) {
        let taken = s.with_inh(TablesView { adjustments: s.inh.adjustments.remove(id), ..s.inh });
        assert(answers_all(s, infcx) ==> answers_all(taken, infcx));
        match s.inh.adjustments[id] {
            AutoAdjustment::DerefRef(a) => {
                let s1 = visit_autoderefs_spec(taken, infcx, reason, id, 0, a.autoderefs);
                let s2 = noted(s1, reason, autoref_error(infcx, a.autoref));
                lemma_calm_autoderefs(taken, infcx, reason, id, 0, a.autoderefs);
                lemma_noted_passed(s1, reason, autoref_error(infcx, a.autoref));
                lemma_noted_passed(s2, reason, opt_ty_error(infcx, a.unsize));
                reveal(calm);
                assert(t.tcx.node_types == s1.tcx.node_types);
            },
            _ => {
                assert(t.tcx.node_types == s.tcx.node_types);
            },
        }
    }
    reveal(calm);
}

proof fn lemma_calm_node_id(s: FnCtxtView, infcx: InferCtxt, reason: ResolveReason, id: NodeId)
    ensures
        calm(s, visit_node_id_spec(s, infcx, reason, id), infcx),
{
    reveal(visit_node_id_spec);
    let t = visit_node_id_spec(s, infcx, reason, id);
    let s1 = visit_adjustments_spec(s, infcx, reason, id);
    lemma_visit_node_id(s, infcx, reason, id);
    lemma_types_stay(s, t);
    lemma_visit_adjustments(s, infcx, reason, id);
    lemma_types_stay(s, s1);
    lemma_calm_adjustments(s, infcx, reason, id);
    reveal(calm);
    if answers_all(s, infcx) {
        lemma_answers_stay(s, t, infcx);
    }
    if s1.inh.node_types.contains_key(id) {
        lemma_noted_passed(s1, reason, ty_fixup_error(infcx, s1.inh.node_types[id]));
    }
    let s2 = if s1.inh.node_types.contains_key(id) {
        let ty = s1.inh.node_types[id];
        let told = noted(s1, reason, ty_fixup_error(infcx, ty));
        told.with_tcx(
            TablesView {
                node_types: told.tcx.node_types.insert(id, resolved_ty(infcx, ty)),
                ..told.tcx
            },
        )
    } else {
        s1
    };
    assert(s2.inh == s1.inh);
    assert(answers_all(s, infcx) ==> quiet(s, s2));
    if s2.inh.item_substs.contains_key(id) {
        lemma_noted_substs_only_reports(s2, infcx, reason, s2.inh.item_substs[id]);
        if answers_all(s, infcx) {
            lemma_substs_unreported(s2, infcx, reason, s2.inh.item_substs[id]);
        }
    }
    assert(t.tcx.node_types == s2.tcx.node_types);
    assert forall|other: NodeId| #[trigger] t.tcx.node_types.contains_key(other) implies sourced(
        s,
        infcx,
        other,
        t.tcx.node_types[other],
    ) by {
        if other != id || !s1.inh.node_types.contains_key(id) {
            assert(s1.tcx.node_types.contains_key(other));
        }
    }
}

proof fn lemma_calm_fix_scalar(s: FnCtxtView, infcx: InferCtxt, e: Expr)
    ensures
        calm(s, fix_scalar_binary_expr_spec(s, infcx, e), infcx),
{
    reveal(fix_scalar_binary_expr_spec);
    reveal(calm);
    lemma_fix_scalar(s, infcx, e);
    if answers_all(s, infcx) {
        lemma_answers_stay(s, fix_scalar_binary_expr_spec(s, infcx, e), infcx);
    }
}

proof fn lemma_calm_expr_head(s: FnCtxtView, infcx: InferCtxt, e: Expr)
    ensures
        calm(s, expr_head_spec(s, infcx, e), infcx),
{
    let reason = ResolveReason::ResolvingExpr(e.span);
    let s1 = fix_scalar_binary_expr_spec(s, infcx, e);
    let s2 = visit_node_id_spec(s1, infcx, reason, e.id);
    let s3 = expr_head_spec(s, infcx, e);
    lemma_calm_fix_scalar(s, infcx, e);
    lemma_calm_node_id(s1, infcx, reason, e.id);
    lemma_calm_method_map_entry(s2, infcx, reason, MethodCall::spec_expr(e.id));
    lemma_calm_trans(s, s1, s2, infcx);
    lemma_calm_trans(s, s2, s3, infcx);
}

proof fn lemma_calm_ty(s: FnCtxtView, infcx: InferCtxt, a: AstTy)
    ensures
        calm(s, visit_ty_spec(s, a), infcx),
    decreases a,
{
    match a {
        AstTy::Path => lemma_calm_refl(s, infcx),
        AstTy::FixedLengthVec(elem, _) => {
            let s1 = visit_ty_spec(s, *elem);
            let t = visit_ty_spec(s, a);
            lemma_calm_ty(s, infcx, *elem);
            assert(calm(s1, t, infcx) && passed(s1, t)) by {
                reveal(calm);
                reveal(passed);
            }
            lemma_calm_trans(s, s1, t, infcx);
        },
        AstTy::Other(parts) => lemma_calm_tys(s, infcx, parts),
    }
}

proof fn lemma_calm_tys(s: FnCtxtView, infcx: InferCtxt, l: List<AstTy>)
    ensures
        calm(s, visit_tys_spec(s, l), infcx),
    decreases l,
{
    match l {
        List::Nil => lemma_calm_refl(s, infcx),
        List::Cons(a, rest) => {
            let s1 = visit_ty_spec(s, *a);
            lemma_calm_ty(s, infcx, *a);
            lemma_calm_tys(s1, infcx, *rest);
            lemma_calm_trans(s, s1, visit_tys_spec(s1, *rest), infcx);
        },
    }
}

proof fn lemma_calm_opt_ty(s: FnCtxtView, infcx: InferCtxt, a: Option<AstTy>)
    ensures
        calm(s, visit_opt_ty_spec(s, a), infcx),
{
    match a {
        Some(a) => lemma_calm_ty(s, infcx, a),
        None => lemma_calm_refl(s, infcx),
    }
}

proof fn lemma_calm_pat(s: FnCtxtView, infcx: InferCtxt, p: Pat)
    ensures
        calm(s, visit_pat_spec(s, infcx, p), infcx),
    decreases p,
{
    let t = visit_pat_spec(s, infcx, p);
    let reason = ResolveReason::ResolvingPattern(p.span);
    let s1 = visit_node_id_spec(s, infcx, reason, p.id);
    lemma_calm_node_id(s, infcx, reason, p.id);
    match p.node {
        PatKind::Wild => {},
        PatKind::Ident(None) => {},
        PatKind::Ident(Some(sub)) => {
            lemma_calm_pat(s1, infcx, *sub);
            lemma_calm_trans(s, s1, t, infcx);
        },
        PatKind::Lit(exprs) => {
            lemma_calm_exprs(s1, infcx, exprs);
            lemma_calm_trans(s, s1, t, infcx);
        },
        PatKind::Other(pats) => {
            lemma_calm_pats(s1, infcx, pats);
            lemma_calm_trans(s, s1, t, infcx);
        },
    }
}

proof fn lemma_calm_pats(s: FnCtxtView, infcx: InferCtxt, l: List<Pat>)
    ensures
        calm(s, visit_pats_spec(s, infcx, l), infcx),
    decreases l,
{
    match l {
        List::Nil => lemma_calm_refl(s, infcx),
        List::Cons(p, rest) => {
            let s1 = visit_pat_spec(s, infcx, *p);
            let t = visit_pats_spec(s1, infcx, *rest);
            lemma_calm_pat(s, infcx, *p);
            lemma_calm_pats(s1, infcx, *rest);
            lemma_calm_trans(s, s1, t, infcx);
        },
    }
}

proof fn lemma_calm_local(s: FnCtxtView, infcx: InferCtxt, l: Local)
    ensures
        calm(s, visit_local_spec(s, infcx, l), infcx),
    decreases l,
{
    let t = visit_local_spec(s, infcx, l);
    let s1 = if s.locals.contains_key(l.id) {
        let ty = s.locals[l.id];
        let told = noted(s, ResolveReason::ResolvingLocal(l.span), ty_fixup_error(infcx, ty));
        told.with_tcx(
            TablesView {
                node_types: told.tcx.node_types.insert(
                    l.id,
                    resolved_ty(infcx, ty),
                ),
                ..told.tcx
            },
        )
    } else {
        s
    };
    assert(calm(s, s1, infcx) && passed(s, s1)) by {
        if s.locals.contains_key(l.id) {
            lemma_noted_passed(
                s,
                ResolveReason::ResolvingLocal(l.span),
                ty_fixup_error(infcx, s.locals[l.id]),
            );
        }
        reveal(calm);
        reveal(passed);
    }
    let s2 = visit_pat_spec(s1, infcx, l.pat);
    lemma_calm_pat(s1, infcx, l.pat);
    let s3 = visit_opt_ty_spec(s2, l.ty);
    lemma_calm_opt_ty(s2, infcx, l.ty);
    lemma_calm_trans(s, s1, s2, infcx);
    lemma_calm_trans(s, s2, s3, infcx);
    match l.init {
        Some(e) => {
            lemma_calm_expr(s3, infcx, e);
            lemma_calm_trans(s, s3, t, infcx);
        },
        None => {
            lemma_calm_refl(s3, infcx);
            lemma_calm_trans(s, s3, t, infcx);
        },
    }
}

proof fn lemma_calm_stmt(s: FnCtxtView, infcx: InferCtxt, stmt: Stmt)
    ensures
        calm(s, visit_stmt_spec(s, infcx, stmt), infcx),
    decreases stmt,
{
    let t = visit_stmt_spec(s, infcx, stmt);
    let reason = ResolveReason::ResolvingExpr(stmt.span);
    let s1 = visit_node_id_spec(s, infcx, reason, stmt.id);
    lemma_calm_node_id(s, infcx, reason, stmt.id);
    match stmt.node {
        StmtKind::Local(l) => {
            lemma_calm_local(s1, infcx, *l);
        },
        StmtKind::Item => {
            lemma_calm_refl(s1, infcx);
        },
        StmtKind::Expr(e) => {
            lemma_calm_expr(s1, infcx, *e);
        },
        StmtKind::Semi(e) => {
            lemma_calm_expr(s1, infcx, *e);
        },
    }
    lemma_calm_trans(s, s1, t, infcx);
}

proof fn lemma_calm_stmts(s: FnCtxtView, infcx: InferCtxt, l: List<Stmt>)
    ensures
        calm(s, visit_stmts_spec(s, infcx, l), infcx),
    decreases l,
{
    match l {
        List::Nil => lemma_calm_refl(s, infcx),
        List::Cons(stmt, rest) => {
            let s1 = visit_stmt_spec(s, infcx, *stmt);
            let t = visit_stmts_spec(s1, infcx, *rest);
            lemma_calm_stmt(s, infcx, *stmt);
            lemma_calm_stmts(s1, infcx, *rest);
            lemma_calm_trans(s, s1, t, infcx);
        },
    }
}

proof fn lemma_calm_block(s: FnCtxtView, infcx: InferCtxt, b: Block)
    ensures
        calm(s, visit_block_spec(s, infcx, b), infcx),
    decreases b,
{
    let t = visit_block_spec(s, infcx, b);
    let reason = ResolveReason::ResolvingExpr(b.span);
    let s1 = visit_node_id_spec(s, infcx, reason, b.id);
    lemma_calm_node_id(s, infcx, reason, b.id);
    let s2 = visit_stmts_spec(s1, infcx, b.stmts);
    lemma_calm_stmts(s1, infcx, b.stmts);
    lemma_calm_trans(s, s1, s2, infcx);
    match b.expr {
        Some(e) => {
            lemma_calm_expr(s2, infcx, *e);
            lemma_calm_trans(s, s2, t, infcx);
        },
        None => {
            lemma_calm_refl(s2, infcx);
            lemma_calm_trans(s, s2, t, infcx);
        },
    }
}

proof fn lemma_calm_closure_inputs(s: FnCtxtView, infcx: InferCtxt, span: Span, l: List<Arg>)
    ensures
        calm(s, visit_closure_inputs_spec(s, infcx, span, l), infcx),
    decreases l,
{
    match l {
        List::Nil => lemma_calm_refl(s, infcx),
        List::Cons(arg, rest) => {
            let reason = ResolveReason::ResolvingExpr(span);
            let s1 = visit_node_id_spec(s, infcx, reason, arg.id);
            let t = visit_closure_inputs_spec(s1, infcx, span, *rest);
            lemma_calm_node_id(s, infcx, reason, arg.id);
            lemma_calm_closure_inputs(s1, infcx, span, *rest);
            lemma_calm_trans(s, s1, t, infcx);
        },
    }
}

proof fn lemma_calm_walk_args(s: FnCtxtView, infcx: InferCtxt, l: List<Arg>)
    ensures
        calm(s, walk_args_spec(s, infcx, l), infcx),
    decreases l,
{
    match l {
        List::Nil => lemma_calm_refl(s, infcx),
        List::Cons(arg, rest) => {
            let s1 = visit_pat_spec(s, infcx, arg.pat);
            let s2 = visit_ty_spec(s1, arg.ty);
            let t = walk_args_spec(s2, infcx, *rest);
            lemma_calm_pat(s, infcx, arg.pat);
            lemma_calm_ty(s1, infcx, arg.ty);
            lemma_calm_walk_args(s2, infcx, *rest);
            lemma_calm_trans(s, s1, s2, infcx);
            lemma_calm_trans(s, s2, t, infcx);
        },
    }
}

proof fn lemma_calm_walk_fn_decl(s: FnCtxtView, infcx: InferCtxt, decl: FnDecl)
    ensures
        calm(s, walk_fn_decl_spec(s, infcx, decl), infcx),
    decreases decl,
{
    let s1 = walk_args_spec(s, infcx, decl.inputs);
    let t = walk_fn_decl_spec(s, infcx, decl);
    lemma_calm_walk_args(s, infcx, decl.inputs);
    lemma_calm_opt_ty(s1, infcx, decl.output);
    lemma_calm_trans(s, s1, t, infcx);
}

proof fn lemma_calm_expr(s: FnCtxtView, infcx: InferCtxt, e: Expr)
    ensures
        calm(s, visit_expr_spec(s, infcx, e), infcx),
    decreases e,
{
    let t = visit_expr_spec(s, infcx, e);
    let s3 = expr_head_spec(s, infcx, e);
    lemma_calm_expr_head(s, infcx, e);
    match e.node {
        ExprKind::Path => {
            lemma_calm_refl(s3, infcx);
            lemma_calm_trans(s, s3, t, infcx);
        },
        ExprKind::Paren(sub) => {
            lemma_calm_expr(s3, infcx, *sub);
            lemma_calm_trans(s, s3, t, infcx);
        },
        ExprKind::Field(sub, _) => {
            lemma_calm_expr(s3, infcx, *sub);
            lemma_calm_trans(s, s3, t, infcx);
        },
        ExprKind::TupField(sub, _) => {
            lemma_calm_expr(s3, infcx, *sub);
            lemma_calm_trans(s, s3, t, infcx);
        },
        ExprKind::Unary(_, sub) => {
            lemma_calm_expr(s3, infcx, *sub);
            lemma_calm_trans(s, s3, t, infcx);
        },
        ExprKind::Index(a, b) => {
            let s4 = visit_expr_spec(s3, infcx, *a);
            lemma_calm_expr(s3, infcx, *a);
            lemma_calm_expr(s4, infcx, *b);
            lemma_calm_trans(s3, s4, t, infcx);
            lemma_calm_trans(s, s3, t, infcx);
        },
        ExprKind::Binary(_, a, b) => {
            let s4 = visit_expr_spec(s3, infcx, *a);
            lemma_calm_expr(s3, infcx, *a);
            lemma_calm_expr(s4, infcx, *b);
            lemma_calm_trans(s3, s4, t, infcx);
            lemma_calm_trans(s, s3, t, infcx);
        },
        ExprKind::Closure(decl, body) => {
            let s4 = visit_closure_inputs_spec(s3, infcx, e.span, decl.inputs);
            let s5 = walk_fn_decl_spec(s4, infcx, *decl);
            lemma_calm_closure_inputs(s3, infcx, e.span, decl.inputs);
            lemma_calm_walk_fn_decl(s4, infcx, *decl);
            lemma_calm_block(s5, infcx, *body);
            lemma_calm_trans(s4, s5, t, infcx);
            lemma_calm_trans(s3, s4, t, infcx);
            lemma_calm_trans(s, s3, t, infcx);
        },
        ExprKind::Block(b) => {
            lemma_calm_block(s3, infcx, *b);
            lemma_calm_trans(s, s3, t, infcx);
        },
        ExprKind::Cast(sub, a) => {
            let s4 = visit_expr_spec(s3, infcx, *sub);
            lemma_calm_expr(s3, infcx, *sub);
            lemma_calm_ty(s4, infcx, *a);
            lemma_calm_trans(s3, s4, t, infcx);
            lemma_calm_trans(s, s3, t, infcx);
        },
        ExprKind::Other(subs) => {
            lemma_calm_exprs(s3, infcx, subs);
            lemma_calm_trans(s, s3, t, infcx);
        },
    }
}

proof fn lemma_calm_exprs(s: FnCtxtView, infcx: InferCtxt, l: List<Expr>)
    ensures
        calm(s, visit_exprs_spec(s, infcx, l), infcx),
    decreases l,
{
    match l {
        List::Nil => lemma_calm_refl(s, infcx),
        List::Cons(e, rest) => {
            let s1 = visit_expr_spec(s, infcx, *e);
            let t = visit_exprs_spec(s1, infcx, *rest);
            lemma_calm_expr(s, infcx, *e);
            lemma_calm_exprs(s1, infcx, *rest);
            lemma_calm_trans(s, s1, t, infcx);
        },
    }
}

proof fn lemma_calm_fn_args(s: FnCtxtView, infcx: InferCtxt, l: List<Arg>)
    ensures
        calm(s, visit_fn_args_spec(s, infcx, l), infcx),
    decreases l,
{
    match l {
        List::Nil => lemma_calm_refl(s, infcx),
        List::Cons(arg, rest) => {
            let reason = ResolveReason::ResolvingPattern(arg.pat.span);
            let s1 = visit_node_id_spec(s, infcx, reason, arg.id);
            let s2 = visit_pat_spec(s1, infcx, arg.pat);
            let s3 = if arg.pat.spec_is_binding() {
                s2
            } else {
                visit_node_id_spec(s2, infcx, reason, arg.pat.id)
            };
            let t = visit_fn_args_spec(s3, infcx, *rest);
            lemma_calm_node_id(s, infcx, reason, arg.id);
            lemma_calm_pat(s1, infcx, arg.pat);
            if arg.pat.spec_is_binding() {
                lemma_calm_refl(s2, infcx);
            } else {
                lemma_calm_node_id(s2, infcx, reason, arg.pat.id);
            }
            lemma_calm_fn_args(s3, infcx, *rest);
            lemma_calm_trans(s, s1, s2, infcx);
            lemma_calm_trans(s, s2, s3, infcx);
            lemma_calm_trans(s, s3, t, infcx);
        },
    }
}


proof fn lemma_calm_tail(s: FnCtxtView, infcx: InferCtxt)
    ensures
        calm(s, visit_closures_spec(visit_upvar_borrow_map_spec(s, infcx), infcx), infcx),
{
    reveal(calm);
    let s1 = visit_upvar_borrow_map_spec(s, infcx);
    lemma_noted_upvars_reports(s, infcx, s.inh.upvar_capture_map);
    lemma_noted_closure_tys_reports(s1, infcx, s1.inh.closure_tys);
    if answers_all(s, infcx) {
        lemma_captures_unreported(s, infcx, s.inh.upvar_capture_map);
        assert(s1.inh == s.inh && s1.locals == s.locals && quiet(s, s1));
        lemma_signatures_unreported(s1, infcx, s1.inh.closure_tys);
    }
}

/// If the oracle has an answer for every placeholder in what checking
/// recorded for a function, writeback of the function reports nothing: the
/// function is marked as failed after it only if it was before, and no error
/// is shown.
pub proof fn lemma_answered_fn_does_not_fail(
    s: FnCtxtView,
    infcx: InferCtxt,
    decl: FnDecl,
    blk: Block,
)
    requires
        answers_all(s, infcx),
    ensures
        quiet(s, resolve_type_vars_in_fn_spec(s, infcx, decl, blk)),
        !s.writeback_errors ==> !resolve_type_vars_in_fn_spec(s, infcx, decl, blk).writeback_errors,
{
    let s1 = visit_block_spec(s, infcx, blk);
    let s2 = visit_fn_args_spec(s1, infcx, decl.inputs);
    let t = resolve_type_vars_in_fn_spec(s, infcx, decl, blk);
    lemma_calm_block(s, infcx, blk);
    lemma_calm_fn_args(s1, infcx, decl.inputs);
    lemma_calm_tail(s2, infcx);
    lemma_calm_trans(s, s1, s2, infcx);
    lemma_calm_trans(s, s2, t, infcx);
    reveal(calm);
}

/// Whatever the oracle has answered, each type that the permanent table
/// holds after writeback of a function was there before, or it is what full
/// resolution makes of the type that checking recorded for the node or for
/// the local variable, or it is the type of the length of an array type.
pub proof fn lemma_permanent_types_of_fn_are_resolved(
    s: FnCtxtView,
    infcx: InferCtxt,
    decl: FnDecl,
    blk: Block,
    id: NodeId,
)
    requires
        resolve_type_vars_in_fn_spec(s, infcx, decl, blk).tcx.node_types.contains_key(id),
    ensures
        sourced(s, infcx, id, resolve_type_vars_in_fn_spec(s, infcx, decl, blk).tcx.node_types[id]),
{
    let s1 = visit_block_spec(s, infcx, blk);
    let s2 = visit_fn_args_spec(s1, infcx, decl.inputs);
    let t = resolve_type_vars_in_fn_spec(s, infcx, decl, blk);
    lemma_calm_block(s, infcx, blk);
    lemma_calm_fn_args(s1, infcx, decl.inputs);
    lemma_calm_tail(s2, infcx);
    lemma_calm_trans(s, s1, s2, infcx);
    lemma_calm_trans(s, s2, t, infcx);
    reveal(calm);
}

/// The same for an expression that is checked on its own.
pub proof fn lemma_permanent_types_of_expr_are_resolved(
    s: FnCtxtView,
    infcx: InferCtxt,
    e: Expr,
    id: NodeId,
)
    requires
        resolve_type_vars_in_expr_spec(s, infcx, e).tcx.node_types.contains_key(id),
    ensures
        sourced(s, infcx, id, resolve_type_vars_in_expr_spec(s, infcx, e).tcx.node_types[id]),
{
    let s1 = visit_expr_spec(s, infcx, e);
    let t = resolve_type_vars_in_expr_spec(s, infcx, e);
    lemma_calm_expr(s, infcx, e);
    lemma_calm_tail(s1, infcx);
    lemma_calm_trans(s, s1, t, infcx);
    reveal(calm);
}

/// If the oracle has an answer for every placeholder in what checking
/// recorded, writeback of an expression that is checked on its own reports
/// nothing.
pub proof fn lemma_answered_expr_does_not_fail(s: FnCtxtView, infcx: InferCtxt, e: Expr)
    requires
        answers_all(s, infcx),
    ensures
        quiet(s, resolve_type_vars_in_expr_spec(s, infcx, e)),
        !s.writeback_errors ==> !resolve_type_vars_in_expr_spec(s, infcx, e).writeback_errors,
{
    let s1 = visit_expr_spec(s, infcx, e);
    let t = resolve_type_vars_in_expr_spec(s, infcx, e);
    lemma_calm_expr(s, infcx, e);
    lemma_calm_tail(s1, infcx);
    lemma_calm_trans(s, s1, t, infcx);
    reveal(calm);
}

} // verus!
