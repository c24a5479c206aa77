//! What a pass of writeback leaves behind.
//!
//! Whatever the oracle has answered, nothing in the permanent tables holds a
//! placeholder. And whether or not the pass has marked the function as
//! failed, it has visited every node of the body: the type recorded for a
//! node is permanent, and no adjustment and no method call of a node is left
//! in the working tables, each having been made permanent when the node was
//! visited or dropped as the overload of an operator on scalars. Where the
//! oracle has an answer for every placeholder, the function is not marked
//! as failed.

use crate::ast::{Arg, AstTy, Block, Expr, ExprKind, FnDecl, Local, Pat, PatKind, Stmt, StmtKind};
use crate::infer::InferCtxt;
use crate::list::List;
use crate::resolve::{
    lemma_noted_substs_only_reports, lemma_noted_tys_only_reports, noted, noted_tys, only_reports,
    report_error_spec, resolved_regions, resolved_substs, resolved_ty, resolved_tys,
    ty_fixup_error, ResolveReason,
};
use crate::scan::{scan_regions_spec, scan_substs_spec, scan_ty_spec, scan_tys_spec, FixupError};
use crate::tables::{
    adjustment_concrete, callee_concrete, AutoAdjustment, ClosureTyEntry, FnCtxtView,
    MethodCall, MethodCallee, MethodOrigin, TablesView, UpvarCapture, UpvarEntry, UpvarId,
};
use crate::ty::{DefId, FnOutput, NodeId, Region, RegionSubsts, Span, Substs, Ty};
use crate::writeback::{
    fix_scalar_binary_expr_spec, known_scalar, noted_callee, noted_closure_ty,
    noted_closure_tys, noted_origin, noted_upvars, resolve_type_vars_in_expr_spec,
    resolve_type_vars_in_fn_spec, resolved_adjustment, resolved_callee, resolved_closure_tys,
    resolved_upvars, visit_adjustments_spec, visit_autoderefs_spec, visit_block_spec,
    visit_closure_inputs_spec, visit_closures_spec, visit_expr_spec, visit_exprs_spec,
    visit_fn_args_spec, visit_local_spec, visit_method_map_entry_spec, visit_node_id_spec,
    visit_opt_ty_spec, visit_pat_spec, visit_pats_spec, visit_stmt_spec, visit_stmts_spec,
    visit_ty_spec, visit_tys_spec, visit_upvar_borrow_map_spec, walk_args_spec,
    walk_fn_decl_spec,
};
use crate::permanent::{
    captures_without, distinct_captures, distinct_kinds, distinct_signatures,
    lemma_captures_stay_distinct, lemma_kinds_stay_distinct, lemma_signatures_stay_distinct,
    signatures_without, with_capture, with_captures, with_signature, with_signatures,
};
use vstd::prelude::*;

verus! {

// ---------------------------------------------------------------------------
// Tables without placeholders
/// No capture of the list holds a region placeholder.
pub open spec fn upvars_concrete(l: List<UpvarEntry>) -> bool
    decreases l,
{
    match l {
        List::Nil => true,
        List::Cons(entry, rest) => (entry.capture matches UpvarCapture::ByRef(_, r) ==> !(r is Var))
            && upvars_concrete(*rest),
    }
}

/// No signature of the list holds a placeholder.
pub open spec fn closure_tys_concrete(l: List<ClosureTyEntry>) -> bool
    decreases l,
{
    match l {
        List::Nil => true,
        List::Cons(entry, rest) => scan_tys_spec(0, entry.ty.sig.0.inputs).unresolved is None && (
        entry.ty.sig.0.output matches FnOutput::Converging(t) ==> scan_ty_spec(0, t).unresolved
            is None) && closure_tys_concrete(*rest),
    }
}

/// No entry of the tables holds a placeholder.
pub open spec fn concrete_tables(t: TablesView) -> bool {
    &&& forall|id: NodeId| #[trigger]
        t.node_types.contains_key(id) ==> scan_ty_spec(0, t.node_types[id]).unresolved is None
    &&& forall|id: NodeId| #[trigger]
        t.item_substs.contains_key(id) ==> scan_substs_spec(0, t.item_substs[id]).unresolved
            is None
    &&& forall|id: NodeId| #[trigger]
        t.adjustments.contains_key(id) ==> adjustment_concrete(t.adjustments[id])
    &&& forall|k: u64| #[trigger]
        t.method_map.contains_key(k) ==> callee_concrete(t.method_map[k])
    &&& upvars_concrete(t.upvar_capture_map)
    &&& closure_tys_concrete(t.closure_tys)
}

/// Whether the tables of captures and closures hold at most one entry for
/// each id.
pub open spec fn one_entry_per_id(t: TablesView) -> bool {
    &&& distinct_captures(t.upvar_capture_map)
    &&& distinct_signatures(t.closure_tys)
    &&& distinct_kinds(t.closure_kinds)
}

/// How the context `t` stands to the context `s` from which some steps of
/// the pass have led to it: the types that checking recorded are as they
/// were; the permanent tables have grown and hold no placeholder if they held
/// none; the working adjustments and method calls have shrunk, and those
/// that are left are as they were; the permanent tables of captures and
/// closures hold one entry for each id if they did; and a failure stays
/// marked.
#[verifier::opaque]
pub open spec fn passed(s: FnCtxtView, t: FnCtxtView) -> bool {
    &&& t.inh.node_types == s.inh.node_types
    &&& t.inh.item_substs == s.inh.item_substs
    &&& t.locals == s.locals
    &&& forall|id: NodeId| #[trigger]
        s.tcx.node_types.contains_key(id) ==> t.tcx.node_types.contains_key(id)
    &&& forall|id: NodeId| #[trigger]
        s.tcx.adjustments.contains_key(id) ==> t.tcx.adjustments.contains_key(id)
    &&& forall|k: u64| #[trigger]
        s.tcx.method_map.contains_key(k) ==> t.tcx.method_map.contains_key(k)
    &&& forall|id: NodeId| #[trigger]
        t.inh.adjustments.contains_key(id) ==> s.inh.adjustments.contains_key(id)
    &&& forall|k: u64| #[trigger]
        t.inh.method_map.contains_key(k) ==> s.inh.method_map.contains_key(k)
    &&& forall|id: NodeId| #[trigger]
        t.inh.adjustments.contains_key(id) ==> t.inh.adjustments[id] == s.inh.adjustments[id]
    &&& forall|k: u64| #[trigger]
        t.inh.method_map.contains_key(k) ==> t.inh.method_map[k] == s.inh.method_map[k]
    &&& t.inh.upvar_capture_map == s.inh.upvar_capture_map
    &&& t.inh.closure_tys == s.inh.closure_tys
    &&& s.writeback_errors ==> t.writeback_errors
    &&& concrete_tables(s.tcx) ==> concrete_tables(t.tcx)
    &&& one_entry_per_id(s.tcx) ==> one_entry_per_id(t.tcx)
}

/// The pass without a step leaves the context as it is.
pub proof fn lemma_passed_refl(s: FnCtxtView)
    ensures
        passed(s, s),
{
    reveal(passed);
}

/// Steps of the pass, one after the other, are steps of the pass.
pub proof fn lemma_passed_trans(a: FnCtxtView, b: FnCtxtView, c: FnCtxtView)
    requires
        passed(a, b),
        passed(b, c),
    ensures
        passed(a, c),
{
    reveal(passed);
}

/// A failure, once marked, stays marked; and the permanent tables stay
/// free of placeholders.
pub proof fn lemma_passed_keeps(s: FnCtxtView, t: FnCtxtView)
    requires
        passed(s, t),
    ensures
        s.writeback_errors ==> t.writeback_errors,
        concrete_tables(s.tcx) ==> concrete_tables(t.tcx),
{
    reveal(passed);
}

/// A step that only reports is a step of the pass.
pub proof fn lemma_only_reports_passed(s: FnCtxtView, t: FnCtxtView)
    requires
        only_reports(s, t),
    ensures
        passed(s, t),
{
    reveal(passed);
}

/// To note how a resolution ended is a step of the pass that only reports.
pub proof fn lemma_noted_passed(s: FnCtxtView, reason: ResolveReason, err: Option<FixupError>)
    ensures
        passed(s, noted(s, reason, err)),
        only_reports(s, noted(s, reason, err)),
{
    reveal(report_error_spec);
    lemma_only_reports_passed(s, noted(s, reason, err));
}

// ---------------------------------------------------------------------------
// What resolution returns holds no placeholder
proof fn lemma_resolved_tys_concrete(infcx: InferCtxt, l: List<Ty>)
    ensures
        scan_tys_spec(0, resolved_tys(infcx, l)).unresolved is None,
    decreases l,
{
    match l {
        List::Nil => {
            assert(resolved_tys(infcx, l) == List::<Ty>::Nil);
        },
        List::Cons(t, rest) => {
            lemma_resolved_tys_concrete(infcx, *rest);
            assert(scan_ty_spec(0, resolved_ty(infcx, *t)).unresolved is None);
        },
    }
}

proof fn lemma_resolved_regions_concrete(infcx: InferCtxt, l: List<Region>)
    ensures
        scan_regions_spec(0, resolved_regions(infcx, l)).unresolved is None,
    decreases l,
{
    match l {
        List::Nil => {},
        List::Cons(_, rest) => lemma_resolved_regions_concrete(infcx, *rest),
    }
}

/// A resolved substitution holds no placeholder.
pub proof fn lemma_resolved_substs_concrete(infcx: InferCtxt, substs: Substs)
    ensures
        scan_substs_spec(0, resolved_substs(infcx, substs)).unresolved is None,
{
    lemma_resolved_tys_concrete(infcx, substs.types.types);
    lemma_resolved_tys_concrete(infcx, substs.types.selfs);
    lemma_resolved_tys_concrete(infcx, substs.types.fns);
    match substs.regions {
        RegionSubsts::Erased => {},
        RegionSubsts::NonErased(r) => {
            lemma_resolved_regions_concrete(infcx, r.types);
            lemma_resolved_regions_concrete(infcx, r.selfs);
            lemma_resolved_regions_concrete(infcx, r.fns);
        },
    }
}

/// The resolved record of a method call holds no placeholder.
pub proof fn lemma_resolved_callee_concrete(infcx: InferCtxt, m: MethodCallee)
    ensures
        callee_concrete(resolved_callee(infcx, m)),
{
    lemma_resolved_substs_concrete(infcx, m.substs);
    match m.origin {
        MethodOrigin::Static(_) => {},
        MethodOrigin::TypeParam(p) => lemma_resolved_substs_concrete(infcx, p.trait_ref.substs),
        MethodOrigin::TraitObject(o) => lemma_resolved_substs_concrete(infcx, o.trait_ref.substs),
    }
}

/// A resolved adjustment holds no placeholder.
pub proof fn lemma_resolved_adjustment_concrete(infcx: InferCtxt, adj: AutoAdjustment)
    ensures
        adjustment_concrete(resolved_adjustment(infcx, adj)),
{
}

proof fn lemma_resolved_upvars_concrete(infcx: InferCtxt, l: List<UpvarEntry>)
    ensures
        upvars_concrete(resolved_upvars(infcx, l)),
    decreases l,
{
    match l {
        List::Nil => {},
        List::Cons(_, rest) => lemma_resolved_upvars_concrete(infcx, *rest),
    }
}

proof fn lemma_resolved_closure_tys_concrete(infcx: InferCtxt, l: List<ClosureTyEntry>)
    ensures
        closure_tys_concrete(resolved_closure_tys(infcx, l)),
    decreases l,
{
    match l {
        List::Nil => {},
        List::Cons(entry, rest) => {
            lemma_resolved_tys_concrete(infcx, entry.ty.sig.0.inputs);
            lemma_resolved_closure_tys_concrete(infcx, *rest);
        },
    }
}

proof fn lemma_upvars_concat(a: List<UpvarEntry>, b: List<UpvarEntry>)
    requires
        upvars_concrete(a),
        upvars_concrete(b),
    ensures
        upvars_concrete(a.concat(b)),
    decreases a,
{
    match a {
        List::Nil => {},
        List::Cons(_, rest) => lemma_upvars_concat(*rest, b),
    }
}

proof fn lemma_captures_without_concrete(l: List<UpvarEntry>, id: UpvarId)
    requires
        upvars_concrete(l),
    ensures
        upvars_concrete(captures_without(l, id)),
    decreases l,
{
    match l {
        List::Nil => {},
        List::Cons(_, rest) => lemma_captures_without_concrete(*rest, id),
    }
}

proof fn lemma_with_captures_concrete(l: List<UpvarEntry>, entries: List<UpvarEntry>)
    requires
        upvars_concrete(l),
        upvars_concrete(entries),
    ensures
        upvars_concrete(with_captures(l, entries)),
    decreases entries,
{
    match entries {
        List::Nil => {},
        List::Cons(e, rest) => {
            lemma_captures_without_concrete(l, e.id);
            assert(upvars_concrete(List::Cons(Box::new(*e), Box::new(List::Nil)))) by {
                reveal_with_fuel(upvars_concrete, 2);
            }
            lemma_upvars_concat(
                captures_without(l, e.id),
                List::Cons(Box::new(*e), Box::new(List::Nil)),
            );
            lemma_with_captures_concrete(with_capture(l, *e), *rest);
        },
    }
}

proof fn lemma_closure_tys_concat(a: List<ClosureTyEntry>, b: List<ClosureTyEntry>)
    requires
        closure_tys_concrete(a),
        closure_tys_concrete(b),
    ensures
        closure_tys_concrete(a.concat(b)),
    decreases a,
{
    match a {
        List::Nil => {},
        List::Cons(_, rest) => lemma_closure_tys_concat(*rest, b),
    }
}

proof fn lemma_signatures_without_concrete(l: List<ClosureTyEntry>, id: DefId)
    requires
        closure_tys_concrete(l),
    ensures
        closure_tys_concrete(signatures_without(l, id)),
    decreases l,
{
    match l {
        List::Nil => {},
        List::Cons(_, rest) => lemma_signatures_without_concrete(*rest, id),
    }
}

proof fn lemma_with_signatures_concrete(l: List<ClosureTyEntry>, entries: List<ClosureTyEntry>)
    requires
        closure_tys_concrete(l),
        closure_tys_concrete(entries),
    ensures
        closure_tys_concrete(with_signatures(l, entries)),
    decreases entries,
{
    match entries {
        List::Nil => {},
        List::Cons(e, rest) => {
            lemma_signatures_without_concrete(l, e.def_id);
            assert(closure_tys_concrete(List::Cons(Box::new(*e), Box::new(List::Nil)))) by {
                reveal_with_fuel(closure_tys_concrete, 2);
            }
            lemma_closure_tys_concat(
                signatures_without(l, e.def_id),
                List::Cons(Box::new(*e), Box::new(List::Nil)),
            );
            lemma_with_signatures_concrete(with_signature(l, *e), *rest);
        },
    }
}

// ---------------------------------------------------------------------------
// The steps of the pass
proof fn lemma_noted_origin_reports(
    s: FnCtxtView,
    infcx: InferCtxt,
    reason: ResolveReason,
    origin: MethodOrigin,
)
    ensures
        only_reports(s, noted_origin(s, infcx, reason, origin)),
{
    match origin {
        MethodOrigin::Static(_) => {},
        MethodOrigin::TypeParam(p) => lemma_noted_substs_only_reports(
            s,
            infcx,
            reason,
            p.trait_ref.substs,
        ),
        MethodOrigin::TraitObject(o) => lemma_noted_substs_only_reports(
            s,
            infcx,
            reason,
            o.trait_ref.substs,
        ),
    }
}

/// Resolving the record of a method call only reports.
pub proof fn lemma_noted_callee_reports(
    s: FnCtxtView,
    infcx: InferCtxt,
    reason: ResolveReason,
    m: MethodCallee,
)
    ensures
        only_reports(s, noted_callee(s, infcx, reason, m)),
{
    reveal(noted_callee);
    let a = noted_origin(s, infcx, reason, m.origin);
    let b = noted(a, reason, ty_fixup_error(infcx, m.ty));
    lemma_noted_origin_reports(s, infcx, reason, m.origin);
    lemma_noted_passed(a, reason, ty_fixup_error(infcx, m.ty));
    lemma_noted_substs_only_reports(b, infcx, reason, m.substs);
}

/// A visit of a method call leaves no record of it in the working table.
pub proof fn lemma_visit_method_map_entry(
    s: FnCtxtView,
    infcx: InferCtxt,
    reason: ResolveReason,
    call: MethodCall,
)
    ensures
        passed(s, visit_method_map_entry_spec(s, infcx, reason, call)),
        !visit_method_map_entry_spec(s, infcx, reason, call).inh.method_map.contains_key(
            call.key(),
        ),
{
    reveal(visit_method_map_entry_spec);
    reveal(passed);
    if s.inh.method_map.contains_key(call.key()) {
        let m = s.inh.method_map[call.key()];
        let taken = s.with_inh(
            TablesView { method_map: s.inh.method_map.remove(call.key()), ..s.inh },
        );
        lemma_noted_callee_reports(taken, infcx, reason, m);
        lemma_resolved_callee_concrete(infcx, m);
    }
}

/// The visit of the overloaded dereferences of a node is a step of the
/// pass.
pub proof fn lemma_visit_autoderefs(
    s: FnCtxtView,
    infcx: InferCtxt,
    reason: ResolveReason,
    id: NodeId,
    from: u32,
    to: u32,
)
    ensures
        passed(s, visit_autoderefs_spec(s, infcx, reason, id, from, to)),
    decreases to - from,
{
    if from >= to {
        lemma_passed_refl(s);
    } else {
        let next = visit_method_map_entry_spec(
            s,
            infcx,
            reason,
            MethodCall::spec_autoderef(id, from),
        );
        lemma_visit_method_map_entry(s, infcx, reason, MethodCall::spec_autoderef(id, from));
        lemma_visit_autoderefs(next, infcx, reason, id, (from + 1) as u32, to);
        lemma_passed_trans(s, next, visit_autoderefs_spec(s, infcx, reason, id, from, to));
    }
}

/// A visit of the adjustment of a node leaves none in the working table.
pub proof fn lemma_visit_adjustments(
    s: FnCtxtView,
    infcx: InferCtxt,
    reason: ResolveReason,
    id: NodeId,
)
    ensures
        passed(s, visit_adjustments_spec(s, infcx, reason, id)),
        !visit_adjustments_spec(s, infcx, reason, id).inh.adjustments.contains_key(id),
{
    reveal(visit_adjustments_spec);
    if s.inh.adjustments.contains_key(id) {
        let adj = s.inh.adjustments[id];
        let taken = s.with_inh(TablesView { adjustments: s.inh.adjustments.remove(id), ..s.inh });
        lemma_resolved_adjustment_concrete(infcx, adj);
        match adj {
            AutoAdjustment::DerefRef(a) => {
                let s1 = visit_autoderefs_spec(taken, infcx, reason, id, 0, a.autoderefs);
                lemma_visit_autoderefs(taken, infcx, reason, id, 0, a.autoderefs);
                let s2 = noted(s1, reason, crate::writeback::autoref_error(infcx, a.autoref));
                lemma_noted_passed(s1, reason, crate::writeback::autoref_error(infcx, a.autoref));
                let s3 = noted(s2, reason, crate::writeback::opt_ty_error(infcx, a.unsize));
                lemma_noted_passed(s2, reason, crate::writeback::opt_ty_error(infcx, a.unsize));
                reveal(passed);
            },
            _ => {
                reveal(passed);
            },
        }
    } else {
        lemma_passed_refl(s);
    }
}

/// Whether the pass is through with a node: the type recorded for it, if
/// one is, is permanent, and no adjustment of it is left to be moved.
pub open spec fn node_done(t: FnCtxtView, id: NodeId) -> bool {
    &&& t.inh.node_types.contains_key(id) ==> t.tcx.node_types.contains_key(id)
    &&& !t.inh.adjustments.contains_key(id)
}

/// The pass stays through with a node.
pub proof fn lemma_node_done_stays(s: FnCtxtView, t: FnCtxtView, id: NodeId)
    requires
        passed(s, t),
        node_done(s, id),
    ensures
        node_done(t, id),
{
    reveal(passed);
}

/// A visit of a node is through with it, whether or not it fails.
pub proof fn lemma_visit_node_id(
    s: FnCtxtView,
    infcx: InferCtxt,
    reason: ResolveReason,
    id: NodeId,
)
    ensures
        passed(s, visit_node_id_spec(s, infcx, reason, id)),
        node_done(visit_node_id_spec(s, infcx, reason, id), id),
{
    reveal(visit_node_id_spec);
    let s1 = visit_adjustments_spec(s, infcx, reason, id);
    lemma_visit_adjustments(s, infcx, reason, id);
    if s1.inh.node_types.contains_key(id) {
        lemma_noted_passed(s1, reason, ty_fixup_error(infcx, s1.inh.node_types[id]));
    }
    let s2 = if s1.inh.node_types.contains_key(id) {
        let t = s1.inh.node_types[id];
        let told = noted(s1, reason, ty_fixup_error(infcx, t));
        told.with_tcx(
            TablesView {
                node_types: told.tcx.node_types.insert(id, resolved_ty(infcx, t)),
                ..told.tcx
            },
        )
    } else {
        s1
    };
    if s2.inh.item_substs.contains_key(id) {
        lemma_noted_substs_only_reports(s2, infcx, reason, s2.inh.item_substs[id]);
        lemma_resolved_substs_concrete(infcx, s2.inh.item_substs[id]);
    }
    reveal(passed);
}

/// To drop the overload of an operator is a step of the pass.
pub proof fn lemma_fix_scalar(s: FnCtxtView, infcx: InferCtxt, e: Expr)
    ensures
        passed(s, fix_scalar_binary_expr_spec(s, infcx, e)),
{
    reveal(fix_scalar_binary_expr_spec);
    reveal(passed);
}

// ---------------------------------------------------------------------------
// The nodes of a body
/// Whether the pass is through with a written type: the length of every
/// array type in it has its type.
pub open spec fn ty_done(t: FnCtxtView, a: AstTy) -> bool
    decreases a,
{
    match a {
        AstTy::Path => true,
        AstTy::FixedLengthVec(elem, count) => ty_done(t, *elem) && t.tcx.node_types.contains_key(
            count.id,
        ),
        AstTy::Other(parts) => tys_done(t, parts),
    }
}

/// Whether the pass is through with each written type of a list.
pub open spec fn tys_done(t: FnCtxtView, l: List<AstTy>) -> bool
    decreases l,
{
    match l {
        List::Nil => true,
        List::Cons(a, rest) => ty_done(t, *a) && tys_done(t, *rest),
    }
}

/// Whether the pass is through with a written type, if there is one.
pub open spec fn opt_ty_done(t: FnCtxtView, a: Option<AstTy>) -> bool {
    match a {
        Some(a) => ty_done(t, a),
        None => true,
    }
}

/// Whether the pass is through with a pattern and all that is written in
/// it.
pub open spec fn pat_done(t: FnCtxtView, p: Pat) -> bool
    decreases p,
{
    node_done(t, p.id) && match p.node {
        PatKind::Wild => true,
        PatKind::Ident(None) => true,
        PatKind::Ident(Some(sub)) => pat_done(t, *sub),
        PatKind::Lit(exprs) => exprs_done(t, exprs),
        PatKind::Other(pats) => pats_done(t, pats),
    }
}

/// Whether the pass is through with each pattern of a list.
pub open spec fn pats_done(t: FnCtxtView, l: List<Pat>) -> bool
    decreases l,
{
    match l {
        List::Nil => true,
        List::Cons(p, rest) => pat_done(t, *p) && pats_done(t, *rest),
    }
}

/// Whether the pass is through with a `let`: the type of the variable, the
/// pattern, the written type and the initializer.
pub open spec fn local_done(t: FnCtxtView, l: Local) -> bool
    decreases l,
{
    &&& t.locals.contains_key(l.id) ==> t.tcx.node_types.contains_key(l.id)
    &&& pat_done(t, l.pat)
    &&& opt_ty_done(t, l.ty)
    &&& match l.init {
        Some(e) => expr_done(t, e),
        None => true,
    }
}

/// Whether the pass is through with a statement.
pub open spec fn stmt_done(t: FnCtxtView, stmt: Stmt) -> bool
    decreases stmt,
{
    node_done(t, stmt.id) && match stmt.node {
        StmtKind::Local(l) => local_done(t, *l),
        StmtKind::Item => true,
        StmtKind::Expr(e) => expr_done(t, *e),
        StmtKind::Semi(e) => expr_done(t, *e),
    }
}

/// Whether the pass is through with each statement of a list.
pub open spec fn stmts_done(t: FnCtxtView, l: List<Stmt>) -> bool
    decreases l,
{
    match l {
        List::Nil => true,
        List::Cons(stmt, rest) => stmt_done(t, *stmt) && stmts_done(t, *rest),
    }
}

/// Whether the pass is through with a block and all that is written in it.
pub open spec fn block_done(t: FnCtxtView, b: Block) -> bool
    decreases b,
{
    &&& node_done(t, b.id)
    &&& stmts_done(t, b.stmts)
    &&& match b.expr {
        Some(e) => expr_done(t, *e),
        None => true,
    }
}

/// The parameters of a closure: the node of each, its pattern and its
/// written type.
pub open spec fn args_done(t: FnCtxtView, l: List<Arg>) -> bool
    decreases l,
{
    match l {
        List::Nil => true,
        List::Cons(arg, rest) => node_done(t, arg.id) && pat_done(t, arg.pat) && ty_done(
            t,
            arg.ty,
        ) && args_done(t, *rest),
    }
}

/// Whether the pass is through with an expression and all that is written
/// in it: with each node of it, and with the method call that each
/// expression makes.
pub open spec fn expr_done(t: FnCtxtView, e: Expr) -> bool
    decreases e,
{
    &&& node_done(t, e.id)
    &&& !t.inh.method_map.contains_key(MethodCall::spec_expr(e.id).key())
    &&& match e.node {
        ExprKind::Path => true,
        ExprKind::Paren(sub) => expr_done(t, *sub),
        ExprKind::Field(sub, _) => expr_done(t, *sub),
        ExprKind::TupField(sub, _) => expr_done(t, *sub),
        ExprKind::Index(base, index) => expr_done(t, *base) && expr_done(t, *index),
        ExprKind::Unary(_, sub) => expr_done(t, *sub),
        ExprKind::Binary(_, lhs, rhs) => expr_done(t, *lhs) && expr_done(t, *rhs),
        ExprKind::Closure(decl, body) => args_done(t, decl.inputs) && opt_ty_done(t, decl.output)
            && block_done(t, *body),
        ExprKind::Block(b) => block_done(t, *b),
        ExprKind::Cast(sub, a) => expr_done(t, *sub) && ty_done(t, *a),
        ExprKind::Other(subs) => exprs_done(t, subs),
    }
}

/// Whether the pass is through with each expression of a list.
pub open spec fn exprs_done(t: FnCtxtView, l: List<Expr>) -> bool
    decreases l,
{
    match l {
        List::Nil => true,
        List::Cons(e, rest) => expr_done(t, *e) && exprs_done(t, *rest),
    }
}

/// The parameters of the function: the node of each and its pattern.
pub open spec fn fn_args_done(t: FnCtxtView, l: List<Arg>) -> bool
    decreases l,
{
    match l {
        List::Nil => true,
        List::Cons(arg, rest) => node_done(t, arg.id) && pat_done(t, arg.pat) && fn_args_done(
            t,
            *rest,
        ),
    }
}

// ---------------------------------------------------------------------------
// What the pass is through with, it stays through with
proof fn lemma_permanent_type_stays(s: FnCtxtView, t: FnCtxtView, id: NodeId)
    requires
        passed(s, t),
        s.tcx.node_types.contains_key(id),
    ensures
        t.tcx.node_types.contains_key(id),
{
    reveal(passed);
}

proof fn lemma_method_stays(s: FnCtxtView, t: FnCtxtView, k: u64)
    requires
        passed(s, t),
        !s.inh.method_map.contains_key(k),
    ensures
        !t.inh.method_map.contains_key(k),
{
    reveal(passed);
}

proof fn lemma_local_type_stays(s: FnCtxtView, t: FnCtxtView, id: NodeId)
    requires
        passed(s, t),
        s.locals.contains_key(id) ==> s.tcx.node_types.contains_key(id),
    ensures
        t.locals.contains_key(id) ==> t.tcx.node_types.contains_key(id),
{
    reveal(passed);
}

proof fn lemma_ty_stays(s: FnCtxtView, t: FnCtxtView, a: AstTy)
    requires
        passed(s, t),
        ty_done(s, a),
    ensures
        ty_done(t, a),
    decreases a,
{
    match a {
        AstTy::Path => {},
        AstTy::FixedLengthVec(elem, count) => {
            lemma_ty_stays(s, t, *elem);
            lemma_permanent_type_stays(s, t, count.id);
        },
        AstTy::Other(parts) => lemma_tys_stay(s, t, parts),
    }
}

proof fn lemma_tys_stay(s: FnCtxtView, t: FnCtxtView, l: List<AstTy>)
    requires
        passed(s, t),
        tys_done(s, l),
    ensures
        tys_done(t, l),
    decreases l,
{
    match l {
        List::Nil => {},
        List::Cons(a, rest) => {
            lemma_ty_stays(s, t, *a);
            lemma_tys_stay(s, t, *rest);
        },
    }
}

proof fn lemma_opt_ty_stays(s: FnCtxtView, t: FnCtxtView, a: Option<AstTy>)
    requires
        passed(s, t),
        opt_ty_done(s, a),
    ensures
        opt_ty_done(t, a),
{
    match a {
        Some(a) => lemma_ty_stays(s, t, a),
        None => {},
    }
}

proof fn lemma_pat_stays(s: FnCtxtView, t: FnCtxtView, p: Pat)
    requires
        passed(s, t),
        pat_done(s, p),
    ensures
        pat_done(t, p),
    decreases p,
{
    lemma_node_done_stays(s, t, p.id);
    match p.node {
        PatKind::Wild => {},
        PatKind::Ident(None) => {},
        PatKind::Ident(Some(sub)) => lemma_pat_stays(s, t, *sub),
        PatKind::Lit(exprs) => lemma_exprs_stay(s, t, exprs),
        PatKind::Other(pats) => lemma_pats_stay(s, t, pats),
    }
}

proof fn lemma_pats_stay(s: FnCtxtView, t: FnCtxtView, l: List<Pat>)
    requires
        passed(s, t),
        pats_done(s, l),
    ensures
        pats_done(t, l),
    decreases l,
{
    match l {
        List::Nil => {},
        List::Cons(p, rest) => {
            lemma_pat_stays(s, t, *p);
            lemma_pats_stay(s, t, *rest);
        },
    }
}

proof fn lemma_local_stays(s: FnCtxtView, t: FnCtxtView, l: Local)
    requires
        passed(s, t),
        local_done(s, l),
    ensures
        local_done(t, l),
    decreases l,
{
    lemma_local_type_stays(s, t, l.id);
    lemma_pat_stays(s, t, l.pat);
    lemma_opt_ty_stays(s, t, l.ty);
    match l.init {
        Some(e) => lemma_expr_stays(s, t, e),
        None => {},
    }
}

proof fn lemma_stmt_stays(s: FnCtxtView, t: FnCtxtView, stmt: Stmt)
    requires
        passed(s, t),
        stmt_done(s, stmt),
    ensures
        stmt_done(t, stmt),
    decreases stmt,
{
    lemma_node_done_stays(s, t, stmt.id);
    match stmt.node {
        StmtKind::Local(l) => lemma_local_stays(s, t, *l),
        StmtKind::Item => {},
        StmtKind::Expr(e) => lemma_expr_stays(s, t, *e),
        StmtKind::Semi(e) => lemma_expr_stays(s, t, *e),
    }
}

proof fn lemma_stmts_stay(s: FnCtxtView, t: FnCtxtView, l: List<Stmt>)
    requires
        passed(s, t),
        stmts_done(s, l),
    ensures
        stmts_done(t, l),
    decreases l,
{
    match l {
        List::Nil => {},
        List::Cons(stmt, rest) => {
            lemma_stmt_stays(s, t, *stmt);
            lemma_stmts_stay(s, t, *rest);
        },
    }
}

proof fn lemma_block_stays(s: FnCtxtView, t: FnCtxtView, b: Block)
    requires
        passed(s, t),
        block_done(s, b),
    ensures
        block_done(t, b),
    decreases b,
{
    lemma_node_done_stays(s, t, b.id);
    lemma_stmts_stay(s, t, b.stmts);
    match b.expr {
        Some(e) => lemma_expr_stays(s, t, *e),
        None => {},
    }
}

proof fn lemma_args_stay(s: FnCtxtView, t: FnCtxtView, l: List<Arg>)
    requires
        passed(s, t),
        args_done(s, l),
    ensures
        args_done(t, l),
    decreases l,
{
    match l {
        List::Nil => {},
        List::Cons(arg, rest) => {
            lemma_node_done_stays(s, t, arg.id);
            lemma_pat_stays(s, t, arg.pat);
            lemma_ty_stays(s, t, arg.ty);
            lemma_args_stay(s, t, *rest);
        },
    }
}

proof fn lemma_expr_stays(s: FnCtxtView, t: FnCtxtView, e: Expr)
    requires
        passed(s, t),
        expr_done(s, e),
    ensures
        expr_done(t, e),
    decreases e,
{
    lemma_node_done_stays(s, t, e.id);
    lemma_method_stays(s, t, MethodCall::spec_expr(e.id).key());
    match e.node {
        ExprKind::Path => {},
        ExprKind::Paren(sub) => lemma_expr_stays(s, t, *sub),
        ExprKind::Field(sub, _) => lemma_expr_stays(s, t, *sub),
        ExprKind::TupField(sub, _) => lemma_expr_stays(s, t, *sub),
        ExprKind::Index(base, index) => {
            lemma_expr_stays(s, t, *base);
            lemma_expr_stays(s, t, *index);
        },
        ExprKind::Unary(_, sub) => lemma_expr_stays(s, t, *sub),
        ExprKind::Binary(_, lhs, rhs) => {
            lemma_expr_stays(s, t, *lhs);
            lemma_expr_stays(s, t, *rhs);
        },
        ExprKind::Closure(decl, body) => {
            lemma_args_stay(s, t, decl.inputs);
            lemma_opt_ty_stays(s, t, decl.output);
            lemma_block_stays(s, t, *body);
        },
        ExprKind::Block(b) => lemma_block_stays(s, t, *b),
        ExprKind::Cast(sub, a) => {
            lemma_expr_stays(s, t, *sub);
            lemma_ty_stays(s, t, *a);
        },
        ExprKind::Other(subs) => lemma_exprs_stay(s, t, subs),
    }
}

proof fn lemma_exprs_stay(s: FnCtxtView, t: FnCtxtView, l: List<Expr>)
    requires
        passed(s, t),
        exprs_done(s, l),
    ensures
        exprs_done(t, l),
    decreases l,
{
    match l {
        List::Nil => {},
        List::Cons(e, rest) => {
            lemma_expr_stays(s, t, *e);
            lemma_exprs_stay(s, t, *rest);
        },
    }
}

proof fn lemma_fn_args_stay(s: FnCtxtView, t: FnCtxtView, l: List<Arg>)
    requires
        passed(s, t),
        fn_args_done(s, l),
    ensures
        fn_args_done(t, l),
    decreases l,
{
    match l {
        List::Nil => {},
        List::Cons(arg, rest) => {
            lemma_node_done_stays(s, t, arg.id);
            lemma_pat_stays(s, t, arg.pat);
            lemma_fn_args_stay(s, t, *rest);
        },
    }
}

// ---------------------------------------------------------------------------
// A visit is through with what it visits
/// The visit of a written type is through with it.
pub proof fn lemma_visit_ty(s: FnCtxtView, a: AstTy)
    ensures
        passed(s, visit_ty_spec(s, a)),
        ty_done(visit_ty_spec(s, a), a),
    decreases a,
{
    match a {
        AstTy::Path => lemma_passed_refl(s),
        AstTy::FixedLengthVec(elem, count) => {
            let s1 = visit_ty_spec(s, *elem);
            let t = visit_ty_spec(s, a);
            lemma_visit_ty(s, *elem);
            assert(passed(s1, t)) by {
                reveal(passed);
            }
            lemma_passed_trans(s, s1, t);
            lemma_ty_stays(s1, t, *elem);
        },
        AstTy::Other(parts) => lemma_visit_tys(s, parts),
    }
}

/// The visit of a list of written types is through with them.
pub proof fn lemma_visit_tys(s: FnCtxtView, l: List<AstTy>)
    ensures
        passed(s, visit_tys_spec(s, l)),
        tys_done(visit_tys_spec(s, l), l),
    decreases l,
{
    match l {
        List::Nil => lemma_passed_refl(s),
        List::Cons(a, rest) => {
            let s1 = visit_ty_spec(s, *a);
            let t = visit_tys_spec(s1, *rest);
            lemma_visit_ty(s, *a);
            lemma_visit_tys(s1, *rest);
            lemma_passed_trans(s, s1, t);
            lemma_ty_stays(s1, t, *a);
        },
    }
}

/// The visit of a written type, if there is one, is through with it.
pub proof fn lemma_visit_opt_ty(s: FnCtxtView, a: Option<AstTy>)
    ensures
        passed(s, visit_opt_ty_spec(s, a)),
        opt_ty_done(visit_opt_ty_spec(s, a), a),
{
    match a {
        Some(a) => lemma_visit_ty(s, a),
        None => lemma_passed_refl(s),
    }
}

/// A visit of a pattern is through with it.
pub proof fn lemma_visit_pat(s: FnCtxtView, infcx: InferCtxt, p: Pat)
    ensures
        passed(s, visit_pat_spec(s, infcx, p)),
        pat_done(
            visit_pat_spec(s, infcx, p),
            p,
        ),
    decreases p,
{
    let t = visit_pat_spec(s, infcx, p);
    let reason = ResolveReason::ResolvingPattern(p.span);
    let s1 = visit_node_id_spec(s, infcx, reason, p.id);
    lemma_visit_node_id(s, infcx, reason, p.id);
    match p.node {
        PatKind::Wild => {},
        PatKind::Ident(None) => {},
        PatKind::Ident(Some(sub)) => {
            lemma_visit_pat(s1, infcx, *sub);
            lemma_passed_trans(s, s1, t);
            lemma_node_done_stays(s1, t, p.id);
        },
        PatKind::Lit(exprs) => {
            lemma_visit_exprs(s1, infcx, exprs);
            lemma_passed_trans(s, s1, t);
            lemma_node_done_stays(s1, t, p.id);
        },
        PatKind::Other(pats) => {
            lemma_visit_pats(s1, infcx, pats);
            lemma_passed_trans(s, s1, t);
            lemma_node_done_stays(s1, t, p.id);
        },
    }
}

/// A visit of a list of patterns is through with them.
pub proof fn lemma_visit_pats(s: FnCtxtView, infcx: InferCtxt, l: List<Pat>)
    ensures
        passed(s, visit_pats_spec(s, infcx, l)),
        pats_done(
            visit_pats_spec(s, infcx, l),
            l,
        ),
    decreases l,
{
    match l {
        List::Nil => lemma_passed_refl(s),
        List::Cons(p, rest) => {
            let s1 = visit_pat_spec(s, infcx, *p);
            let t = visit_pats_spec(s1, infcx, *rest);
            lemma_visit_pat(s, infcx, *p);
            lemma_visit_pats(s1, infcx, *rest);
            lemma_passed_trans(s, s1, t);
            lemma_passed_keeps(s1, t);
            lemma_pat_stays(s1, t, *p);
        },
    }
}

/// A visit of a `let` is through with it.
pub proof fn lemma_visit_local(s: FnCtxtView, infcx: InferCtxt, l: Local)
    ensures
        passed(s, visit_local_spec(s, infcx, l)),
        local_done(
            visit_local_spec(s, infcx, l),
            l,
        ),
    decreases l,
{
    let t = visit_local_spec(s, infcx, l);
    let s1 = if s.locals.contains_key(l.id) {
        let ty = s.locals[l.id];
        let told = noted(s, ResolveReason::ResolvingLocal(l.span), ty_fixup_error(infcx, ty));
        told.with_tcx(
            TablesView {
                node_types: told.tcx.node_types.insert(l.id, resolved_ty(infcx, ty)),
                ..told.tcx
            },
        )
    } else {
        s
    };
    assert(passed(s, s1) && (s1.locals.contains_key(l.id) ==> s1.tcx.node_types.contains_key(
        l.id,
    ))) by {
        if s.locals.contains_key(l.id) {
            lemma_noted_passed(
                s,
                ResolveReason::ResolvingLocal(l.span),
                ty_fixup_error(infcx, s.locals[l.id]),
            );
        }
        reveal(passed);
    }
    let s2 = visit_pat_spec(s1, infcx, l.pat);
    lemma_visit_pat(s1, infcx, l.pat);
    let s3 = visit_opt_ty_spec(s2, l.ty);
    lemma_visit_opt_ty(s2, l.ty);
    match l.init {
        Some(e) => lemma_visit_expr(s3, infcx, e),
        None => lemma_passed_refl(s3),
    }
    lemma_passed_trans(s, s1, s2);
    lemma_passed_trans(s, s2, s3);
    lemma_passed_trans(s, s3, t);
    lemma_passed_trans(s1, s2, s3);
    lemma_passed_trans(s1, s3, t);
    lemma_passed_trans(s2, s3, t);
    lemma_passed_keeps(s2, t);
    lemma_local_type_stays(s1, t, l.id);
    lemma_pat_stays(s2, t, l.pat);
    lemma_opt_ty_stays(s3, t, l.ty);
}

/// A visit of a statement is through with it.
pub proof fn lemma_visit_stmt(s: FnCtxtView, infcx: InferCtxt, stmt: Stmt)
    ensures
        passed(s, visit_stmt_spec(s, infcx, stmt)),
        stmt_done(
            visit_stmt_spec(s, infcx, stmt),
            stmt,
        ),
    decreases stmt,
{
    let t = visit_stmt_spec(s, infcx, stmt);
    let reason = ResolveReason::ResolvingExpr(stmt.span);
    let s1 = visit_node_id_spec(s, infcx, reason, stmt.id);
    lemma_visit_node_id(s, infcx, reason, stmt.id);
    match stmt.node {
        StmtKind::Local(l) => lemma_visit_local(s1, infcx, *l),
        StmtKind::Item => lemma_passed_refl(s1),
        StmtKind::Expr(e) => lemma_visit_expr(s1, infcx, *e),
        StmtKind::Semi(e) => lemma_visit_expr(s1, infcx, *e),
    }
    lemma_passed_trans(s, s1, t);
    lemma_node_done_stays(s1, t, stmt.id);
}

/// A visit of a list of statements is through with
/// them.
pub proof fn lemma_visit_stmts(s: FnCtxtView, infcx: InferCtxt, l: List<Stmt>)
    ensures
        passed(s, visit_stmts_spec(s, infcx, l)),
        stmts_done(
            visit_stmts_spec(s, infcx, l),
            l,
        ),
    decreases l,
{
    match l {
        List::Nil => lemma_passed_refl(s),
        List::Cons(stmt, rest) => {
            let s1 = visit_stmt_spec(s, infcx, *stmt);
            let t = visit_stmts_spec(s1, infcx, *rest);
            lemma_visit_stmt(s, infcx, *stmt);
            lemma_visit_stmts(s1, infcx, *rest);
            lemma_passed_trans(s, s1, t);
            lemma_passed_keeps(s1, t);
            lemma_stmt_stays(s1, t, *stmt);
        },
    }
}

/// A visit of a block is through with it.
pub proof fn lemma_visit_block(s: FnCtxtView, infcx: InferCtxt, b: Block)
    ensures
        passed(s, visit_block_spec(s, infcx, b)),
        block_done(
            visit_block_spec(s, infcx, b),
            b,
        ),
    decreases b,
{
    let t = visit_block_spec(s, infcx, b);
    let reason = ResolveReason::ResolvingExpr(b.span);
    let s1 = visit_node_id_spec(s, infcx, reason, b.id);
    lemma_visit_node_id(s, infcx, reason, b.id);
    let s2 = visit_stmts_spec(s1, infcx, b.stmts);
    lemma_visit_stmts(s1, infcx, b.stmts);
    match b.expr {
        Some(e) => lemma_visit_expr(s2, infcx, *e),
        None => lemma_passed_refl(s2),
    }
    lemma_passed_trans(s, s1, s2);
    lemma_passed_trans(s, s2, t);
    lemma_passed_trans(s1, s2, t);
    lemma_passed_keeps(s2, t);
    lemma_node_done_stays(s1, t, b.id);
    lemma_stmts_stay(s2, t, b.stmts);
}

/// The nodes of the parameters of a closure are done with, in whatever
/// state the pass is.
pub open spec fn arg_nodes_done(t: FnCtxtView, l: List<Arg>) -> bool
    decreases l,
{
    match l {
        List::Nil => true,
        List::Cons(arg, rest) => node_done(t, arg.id) && arg_nodes_done(t, *rest),
    }
}

proof fn lemma_arg_nodes_stay(s: FnCtxtView, t: FnCtxtView, l: List<Arg>)
    requires
        passed(s, t),
        arg_nodes_done(s, l),
    ensures
        arg_nodes_done(t, l),
    decreases l,
{
    match l {
        List::Nil => {},
        List::Cons(arg, rest) => {
            lemma_node_done_stays(s, t, arg.id);
            lemma_arg_nodes_stay(s, t, *rest);
        },
    }
}

/// The visit of the nodes of the parameters of a closure is through with
/// them.
pub proof fn lemma_visit_closure_inputs(s: FnCtxtView, infcx: InferCtxt, span: Span, l: List<Arg>)
    ensures
        passed(s, visit_closure_inputs_spec(s, infcx, span, l)),
        arg_nodes_done(visit_closure_inputs_spec(s, infcx, span, l), l),
    decreases l,
{
    match l {
        List::Nil => lemma_passed_refl(s),
        List::Cons(arg, rest) => {
            let reason = ResolveReason::ResolvingExpr(span);
            let s1 = visit_node_id_spec(s, infcx, reason, arg.id);
            let t = visit_closure_inputs_spec(s1, infcx, span, *rest);
            lemma_visit_node_id(s, infcx, reason, arg.id);
            lemma_visit_closure_inputs(s1, infcx, span, *rest);
            lemma_passed_trans(s, s1, t);
            lemma_node_done_stays(s1, t, arg.id);
        },
    }
}

/// The patterns and the written types of the parameters of a closure.
pub open spec fn arg_parts_done(t: FnCtxtView, l: List<Arg>) -> bool
    decreases l,
{
    match l {
        List::Nil => true,
        List::Cons(arg, rest) => pat_done(t, arg.pat) && ty_done(t, arg.ty) && arg_parts_done(
            t,
            *rest,
        ),
    }
}

proof fn lemma_arg_parts_stay(s: FnCtxtView, t: FnCtxtView, l: List<Arg>)
    requires
        passed(s, t),
        arg_parts_done(s, l),
    ensures
        arg_parts_done(t, l),
    decreases l,
{
    match l {
        List::Nil => {},
        List::Cons(arg, rest) => {
            lemma_pat_stays(s, t, arg.pat);
            lemma_ty_stays(s, t, arg.ty);
            lemma_arg_parts_stay(s, t, *rest);
        },
    }
}

proof fn lemma_args_from_parts(t: FnCtxtView, l: List<Arg>)
    requires
        arg_nodes_done(t, l),
        arg_parts_done(t, l),
    ensures
        args_done(t, l),
    decreases l,
{
    match l {
        List::Nil => {},
        List::Cons(_, rest) => lemma_args_from_parts(t, *rest),
    }
}

/// A visit of the patterns and written types of parameters is through
/// with them.
pub proof fn lemma_walk_args(s: FnCtxtView, infcx: InferCtxt, l: List<Arg>)
    ensures
        passed(s, walk_args_spec(s, infcx, l)),
        arg_parts_done(
            walk_args_spec(s, infcx, l),
            l,
        ),
    decreases l,
{
    match l {
        List::Nil => lemma_passed_refl(s),
        List::Cons(arg, rest) => {
            let s1 = visit_pat_spec(s, infcx, arg.pat);
            let s2 = visit_ty_spec(s1, arg.ty);
            let t = walk_args_spec(s2, infcx, *rest);
            lemma_visit_pat(s, infcx, arg.pat);
            lemma_visit_ty(s1, arg.ty);
            lemma_walk_args(s2, infcx, *rest);
            lemma_passed_trans(s, s1, s2);
            lemma_passed_trans(s, s2, t);
            lemma_passed_trans(s1, s2, t);
            lemma_passed_keeps(s1, t);
            lemma_pat_stays(s1, t, arg.pat);
            lemma_ty_stays(s2, t, arg.ty);
        },
    }
}

/// A visit of the parameters and the return type of a closure is through
/// with them.
pub proof fn lemma_walk_fn_decl(s: FnCtxtView, infcx: InferCtxt, decl: FnDecl)
    ensures
        passed(s, walk_fn_decl_spec(s, infcx, decl)),
        arg_parts_done(
            walk_fn_decl_spec(s, infcx, decl),
            decl.inputs,
        ) && opt_ty_done(walk_fn_decl_spec(s, infcx, decl), decl.output),
    decreases decl,
{
    let s1 = walk_args_spec(s, infcx, decl.inputs);
    let t = walk_fn_decl_spec(s, infcx, decl);
    lemma_walk_args(s, infcx, decl.inputs);
    lemma_visit_opt_ty(s1, decl.output);
    lemma_passed_trans(s, s1, t);
    lemma_passed_keeps(s1, t);
    lemma_arg_parts_stay(s1, t, decl.inputs);
}

/// What is done for an expression itself, before what is written in it is
/// visited.
pub open spec fn expr_head_spec(s: FnCtxtView, infcx: InferCtxt, e: Expr) -> FnCtxtView {
    visit_method_map_entry_spec(
        visit_node_id_spec(
            fix_scalar_binary_expr_spec(s, infcx, e),
            infcx,
            ResolveReason::ResolvingExpr(e.span),
            e.id,
        ),
        infcx,
        ResolveReason::ResolvingExpr(e.span),
        MethodCall::spec_expr(e.id),
    )
}

/// What is done for an expression itself is through with its node and its
/// method call.
pub proof fn lemma_expr_head(s: FnCtxtView, infcx: InferCtxt, e: Expr)
    ensures
        passed(s, expr_head_spec(s, infcx, e)),
        node_done(expr_head_spec(s, infcx, e), e.id),
        !expr_head_spec(s, infcx, e).inh.method_map.contains_key(
            MethodCall::spec_expr(e.id).key(),
        ),
{
    let reason = ResolveReason::ResolvingExpr(e.span);
    let s1 = fix_scalar_binary_expr_spec(s, infcx, e);
    let s2 = visit_node_id_spec(s1, infcx, reason, e.id);
    let s3 = expr_head_spec(s, infcx, e);
    lemma_fix_scalar(s, infcx, e);
    lemma_visit_node_id(s1, infcx, reason, e.id);
    lemma_visit_method_map_entry(s2, infcx, reason, MethodCall::spec_expr(e.id));
    lemma_passed_trans(s, s1, s2);
    lemma_passed_trans(s, s2, s3);
    lemma_node_done_stays(s2, s3, e.id);
}

/// A visit of an expression is through with it and
/// with all that is written in it.
pub proof fn lemma_visit_expr(s: FnCtxtView, infcx: InferCtxt, e: Expr)
    ensures
        passed(s, visit_expr_spec(s, infcx, e)),
        expr_done(
            visit_expr_spec(s, infcx, e),
            e,
        ),
    decreases e,
{
    let t = visit_expr_spec(s, infcx, e);
    let s3 = expr_head_spec(s, infcx, e);
    lemma_expr_head(s, infcx, e);
    match e.node {
        ExprKind::Path => lemma_passed_refl(s3),
        ExprKind::Paren(sub) => lemma_visit_expr(s3, infcx, *sub),
        ExprKind::Field(sub, _) => lemma_visit_expr(s3, infcx, *sub),
        ExprKind::TupField(sub, _) => lemma_visit_expr(s3, infcx, *sub),
        ExprKind::Unary(_, sub) => lemma_visit_expr(s3, infcx, *sub),
        ExprKind::Index(a, b) => {
            let s4 = visit_expr_spec(s3, infcx, *a);
            lemma_visit_expr(s3, infcx, *a);
            lemma_visit_expr(s4, infcx, *b);
            lemma_passed_trans(s3, s4, t);
            lemma_passed_keeps(s4, t);
            lemma_expr_stays(s4, t, *a);
        },
        ExprKind::Binary(_, a, b) => {
            let s4 = visit_expr_spec(s3, infcx, *a);
            lemma_visit_expr(s3, infcx, *a);
            lemma_visit_expr(s4, infcx, *b);
            lemma_passed_trans(s3, s4, t);
            lemma_passed_keeps(s4, t);
            lemma_expr_stays(s4, t, *a);
        },
        ExprKind::Closure(decl, body) => {
            let s4 = visit_closure_inputs_spec(s3, infcx, e.span, decl.inputs);
            let s5 = walk_fn_decl_spec(s4, infcx, *decl);
            lemma_visit_closure_inputs(s3, infcx, e.span, decl.inputs);
            lemma_walk_fn_decl(s4, infcx, *decl);
            lemma_visit_block(s5, infcx, *body);
            lemma_passed_trans(s3, s4, s5);
            lemma_passed_trans(s3, s5, t);
            lemma_passed_trans(s4, s5, t);
            lemma_passed_keeps(s5, t);
            lemma_arg_nodes_stay(s4, t, decl.inputs);
            lemma_arg_parts_stay(s5, t, decl.inputs);
            lemma_opt_ty_stays(s5, t, decl.output);
            lemma_args_from_parts(t, decl.inputs);
        },
        ExprKind::Block(b) => lemma_visit_block(s3, infcx, *b),
        ExprKind::Cast(sub, a) => {
            let s4 = visit_expr_spec(s3, infcx, *sub);
            lemma_visit_expr(s3, infcx, *sub);
            lemma_visit_ty(s4, *a);
            lemma_passed_trans(s3, s4, t);
            lemma_passed_keeps(s4, t);
            lemma_expr_stays(s4, t, *sub);
        },
        ExprKind::Other(subs) => lemma_visit_exprs(s3, infcx, subs),
    }
    lemma_passed_trans(s, s3, t);
    lemma_node_done_stays(s3, t, e.id);
    lemma_method_stays(s3, t, MethodCall::spec_expr(e.id).key());
}

/// A visit of a list of expressions is through with
/// them.
pub proof fn lemma_visit_exprs(s: FnCtxtView, infcx: InferCtxt, l: List<Expr>)
    ensures
        passed(s, visit_exprs_spec(s, infcx, l)),
        exprs_done(
            visit_exprs_spec(s, infcx, l),
            l,
        ),
    decreases l,
{
    match l {
        List::Nil => lemma_passed_refl(s),
        List::Cons(e, rest) => {
            let s1 = visit_expr_spec(s, infcx, *e);
            let t = visit_exprs_spec(s1, infcx, *rest);
            lemma_visit_expr(s, infcx, *e);
            lemma_visit_exprs(s1, infcx, *rest);
            lemma_passed_trans(s, s1, t);
            lemma_passed_keeps(s1, t);
            lemma_expr_stays(s1, t, *e);
        },
    }
}

/// A visit of the parameters of a function is through
/// with them.
pub proof fn lemma_visit_fn_args(s: FnCtxtView, infcx: InferCtxt, l: List<Arg>)
    ensures
        passed(s, visit_fn_args_spec(s, infcx, l)),
        fn_args_done(
            visit_fn_args_spec(s, infcx, l),
            l,
        ),
    decreases l,
{
    match l {
        List::Nil => lemma_passed_refl(s),
        List::Cons(arg, rest) => {
            let reason = ResolveReason::ResolvingPattern(arg.pat.span);
            let s1 = visit_node_id_spec(s, infcx, reason, arg.id);
            let s2 = visit_pat_spec(s1, infcx, arg.pat);
            let s3 = if arg.pat.spec_is_binding() {
                s2
            } else {
                visit_node_id_spec(s2, infcx, reason, arg.pat.id)
            };
            let t = visit_fn_args_spec(s3, infcx, *rest);
            lemma_visit_node_id(s, infcx, reason, arg.id);
            lemma_visit_pat(s1, infcx, arg.pat);
            if arg.pat.spec_is_binding() {
                lemma_passed_refl(s2);
            } else {
                lemma_visit_node_id(s2, infcx, reason, arg.pat.id);
            }
            lemma_visit_fn_args(s3, infcx, *rest);
            lemma_passed_trans(s, s1, s2);
            lemma_passed_trans(s, s2, s3);
            lemma_passed_trans(s, s3, t);
            lemma_passed_trans(s1, s2, s3);
            lemma_passed_trans(s1, s3, t);
            lemma_passed_trans(s2, s3, t);
            lemma_passed_keeps(s2, t);
            lemma_node_done_stays(s1, t, arg.id);
            lemma_pat_stays(s2, t, arg.pat);
        },
    }
}

/// Resolving captures only reports.
pub proof fn lemma_noted_upvars_reports(s: FnCtxtView, infcx: InferCtxt, l: List<UpvarEntry>)
    ensures
        only_reports(s, noted_upvars(s, infcx, l)),
    decreases l,
{
    match l {
        List::Nil => {},
        List::Cons(entry, rest) => {
            let reason = ResolveReason::ResolvingUpvar(entry.id);
            let err = crate::writeback::upvar_error(infcx, *entry);
            lemma_noted_passed(s, reason, err);
            lemma_noted_upvars_reports(noted(s, reason, err), infcx, *rest);
        },
    }
}

/// Resolving the signatures of closures only reports.
pub proof fn lemma_noted_closure_tys_reports(s: FnCtxtView, infcx: InferCtxt, l: List<ClosureTyEntry>)
    ensures
        only_reports(s, noted_closure_tys(s, infcx, l)),
    decreases l,
{
    match l {
        List::Nil => {},
        List::Cons(entry, rest) => {
            reveal(noted_closure_ty);
            let reason = ResolveReason::ResolvingClosure(entry.def_id);
            let s1 = noted_tys(s, infcx, reason, entry.ty.sig.0.inputs);
            lemma_noted_tys_only_reports(s, infcx, reason, entry.ty.sig.0.inputs);
            lemma_noted_passed(
                s1,
                reason,
                crate::writeback::fn_output_error(infcx, entry.ty.sig.0.output),
            );
            lemma_noted_closure_tys_reports(
                noted_closure_ty(s, infcx, reason, entry.ty),
                infcx,
                *rest,
            );
        },
    }
}

/// To make the captures permanent is a step of the pass.
pub proof fn lemma_visit_upvar_borrow_map(s: FnCtxtView, infcx: InferCtxt)
    ensures
        passed(s, visit_upvar_borrow_map_spec(s, infcx)),
{
    lemma_noted_upvars_reports(s, infcx, s.inh.upvar_capture_map);
    lemma_resolved_upvars_concrete(infcx, s.inh.upvar_capture_map);
    if one_entry_per_id(s.tcx) {
        lemma_captures_stay_distinct(
            s.tcx.upvar_capture_map,
            resolved_upvars(infcx, s.inh.upvar_capture_map),
        );
    }
    if concrete_tables(s.tcx) {
        lemma_with_captures_concrete(
            s.tcx.upvar_capture_map,
            resolved_upvars(infcx, s.inh.upvar_capture_map),
        );
    }
    reveal(passed);
}

/// To make the closures permanent is a step of the pass.
pub proof fn lemma_visit_closures(s: FnCtxtView, infcx: InferCtxt)
    ensures
        passed(s, visit_closures_spec(s, infcx)),
{
    lemma_noted_closure_tys_reports(s, infcx, s.inh.closure_tys);
    lemma_resolved_closure_tys_concrete(infcx, s.inh.closure_tys);
    if one_entry_per_id(s.tcx) {
        lemma_signatures_stay_distinct(
            s.tcx.closure_tys,
            resolved_closure_tys(infcx, s.inh.closure_tys),
        );
        lemma_kinds_stay_distinct(s.tcx.closure_kinds, s.inh.closure_kinds);
    }
    if concrete_tables(s.tcx) {
        lemma_with_signatures_concrete(
            s.tcx.closure_tys,
            resolved_closure_tys(infcx, s.inh.closure_tys),
        );
    }
    reveal(passed);
}

/// Writeback of a function leaves no placeholder in the permanent tables
/// and at most one entry for each capture and each closure if they held no
/// more, and it is through with every node of the body and of the parameters,
/// whether it fails or not: the type that checking recorded for a node is in
/// the permanent table, and the working tables hold no adjustment of a node
/// and no method call of an expression any more.
pub proof fn lemma_writeback_of_fn_is_total(
    s: FnCtxtView,
    infcx: InferCtxt,
    decl: FnDecl,
    blk: Block,
)
    ensures
        concrete_tables(s.tcx) ==> concrete_tables(
            resolve_type_vars_in_fn_spec(s, infcx, decl, blk).tcx,
        ),
        one_entry_per_id(s.tcx) ==> one_entry_per_id(
            resolve_type_vars_in_fn_spec(s, infcx, decl, blk).tcx,
        ),
        block_done(
            resolve_type_vars_in_fn_spec(s, infcx, decl, blk),
            blk,
        ) && fn_args_done(resolve_type_vars_in_fn_spec(s, infcx, decl, blk), decl.inputs),
        resolve_type_vars_in_fn_spec(s, infcx, decl, blk).inh.node_types == s.inh.node_types,
{
    let s1 = visit_block_spec(s, infcx, blk);
    let s2 = visit_fn_args_spec(s1, infcx, decl.inputs);
    let s3 = visit_upvar_borrow_map_spec(s2, infcx);
    let t = visit_closures_spec(s3, infcx);
    lemma_visit_block(s, infcx, blk);
    lemma_visit_fn_args(s1, infcx, decl.inputs);
    lemma_visit_upvar_borrow_map(s2, infcx);
    lemma_visit_closures(s3, infcx);
    lemma_passed_trans(s2, s3, t);
    lemma_passed_trans(s1, s2, t);
    lemma_passed_trans(s, s1, t);
    lemma_passed_keeps(s, t);
    lemma_passed_keeps(s1, t);
    lemma_passed_keeps(s2, t);
    lemma_block_stays(s1, t, blk);
    lemma_fn_args_stay(s2, t, decl.inputs);
    reveal(passed);
}

/// Writeback of an expression that is checked on its own leaves no
/// placeholder in the permanent tables, and it is through with every node of
/// the expression, whether it fails or not.
pub proof fn lemma_writeback_of_expr_is_total(s: FnCtxtView, infcx: InferCtxt, e: Expr)
    ensures
        concrete_tables(s.tcx) ==> concrete_tables(
            resolve_type_vars_in_expr_spec(s, infcx, e).tcx,
        ),
        one_entry_per_id(s.tcx) ==> one_entry_per_id(
            resolve_type_vars_in_expr_spec(s, infcx, e).tcx,
        ),
        expr_done(
            resolve_type_vars_in_expr_spec(s, infcx, e),
            e,
        ),
        resolve_type_vars_in_expr_spec(s, infcx, e).inh.node_types == s.inh.node_types,
{
    let s1 = visit_expr_spec(s, infcx, e);
    let s2 = visit_upvar_borrow_map_spec(s1, infcx);
    let t = visit_closures_spec(s2, infcx);
    lemma_visit_expr(s, infcx, e);
    lemma_visit_upvar_borrow_map(s1, infcx);
    lemma_visit_closures(s2, infcx);
    lemma_passed_trans(s1, s2, t);
    lemma_passed_trans(s, s1, t);
    lemma_passed_keeps(s, t);
    lemma_passed_keeps(s1, t);
    lemma_expr_stays(s1, t, e);
    reveal(passed);
}

/// The type that checking recorded for a node is permanent after the
/// visit of the node: it is what full resolution makes of the recorded type,
/// the error type if a placeholder is left, and it holds no placeholder.
pub proof fn lemma_type_is_moved(s: FnCtxtView, infcx: InferCtxt, reason: ResolveReason, id: NodeId)
    requires
        s.inh.node_types.contains_key(id),
    ensures
        visit_node_id_spec(s, infcx, reason, id).tcx.node_types.contains_key(id),
        visit_node_id_spec(s, infcx, reason, id).tcx.node_types[id] == resolved_ty(
            infcx,
            s.inh.node_types[id],
        ),
        scan_ty_spec(0, visit_node_id_spec(s, infcx, reason, id).tcx.node_types[id]).unresolved
            is None,
{
    reveal(visit_node_id_spec);
    let s1 = visit_adjustments_spec(s, infcx, reason, id);
    lemma_visit_adjustments(s, infcx, reason, id);
    reveal(passed);
    if s1.inh.node_types.contains_key(id) {
        lemma_noted_passed(s1, reason, ty_fixup_error(infcx, s1.inh.node_types[id]));
    }
    let s2 = if s1.inh.node_types.contains_key(id) {
        let t = s1.inh.node_types[id];
        let told = noted(s1, reason, ty_fixup_error(infcx, t));
        told.with_tcx(
            TablesView {
                node_types: told.tcx.node_types.insert(id, resolved_ty(infcx, t)),
                ..told.tcx
            },
        )
    } else {
        s1
    };
    if s2.inh.item_substs.contains_key(id) {
        lemma_noted_substs_only_reports(s2, infcx, reason, s2.inh.item_substs[id]);
    }
}

/// The adjustment that a node has when it is visited is permanent after
/// the visit, resolved.
pub proof fn lemma_adjustment_is_moved(
    s: FnCtxtView,
    infcx: InferCtxt,
    reason: ResolveReason,
    id: NodeId,
)
    requires
        s.inh.adjustments.contains_key(id),
    ensures
        visit_adjustments_spec(s, infcx, reason, id).tcx.adjustments.contains_key(id),
        visit_adjustments_spec(s, infcx, reason, id).tcx.adjustments[id] == resolved_adjustment(
            infcx,
            s.inh.adjustments[id],
        ),
        adjustment_concrete(visit_adjustments_spec(s, infcx, reason, id).tcx.adjustments[id]),
{
    reveal(visit_adjustments_spec);
    lemma_resolved_adjustment_concrete(infcx, s.inh.adjustments[id]);
}

/// The visit of a method call leaves the records of every other call as
/// they are, in the working table and in the permanent one.
pub proof fn lemma_other_method_stays(
    s: FnCtxtView,
    infcx: InferCtxt,
    reason: ResolveReason,
    call: MethodCall,
    k: u64,
)
    requires
        k != call.key(),
    ensures
        visit_method_map_entry_spec(s, infcx, reason, call).inh.method_map.contains_key(k)
            == s.inh.method_map.contains_key(k),
        visit_method_map_entry_spec(s, infcx, reason, call).inh.method_map[k]
            == s.inh.method_map[k],
        visit_method_map_entry_spec(s, infcx, reason, call).tcx.method_map.contains_key(k)
            == s.tcx.method_map.contains_key(k),
        visit_method_map_entry_spec(s, infcx, reason, call).tcx.method_map[k]
            == s.tcx.method_map[k],
{
    reveal(visit_method_map_entry_spec);
    if s.inh.method_map.contains_key(call.key()) {
        let taken = s.with_inh(
            TablesView { method_map: s.inh.method_map.remove(call.key()), ..s.inh },
        );
        lemma_noted_callee_reports(taken, infcx, reason, s.inh.method_map[call.key()]);
    }
}

/// The visit of the overloaded dereferences `from`, .., `to - 1` of a node
/// moves the record of each that has one: after it the record is in the
/// permanent table, resolved, and no longer in the working table.
pub proof fn lemma_dereference_is_moved(
    s: FnCtxtView,
    infcx: InferCtxt,
    reason: ResolveReason,
    id: NodeId,
    from: u32,
    to: u32,
    i: u32,
)
    requires
        from <= i < to,
        s.inh.method_map.contains_key(MethodCall::spec_autoderef(id, i).key()),
    ensures
        !visit_autoderefs_spec(s, infcx, reason, id, from, to).inh.method_map.contains_key(
            MethodCall::spec_autoderef(id, i).key(),
        ),
        visit_autoderefs_spec(s, infcx, reason, id, from, to).tcx.method_map.contains_key(
            MethodCall::spec_autoderef(id, i).key(),
        ),
        visit_autoderefs_spec(s, infcx, reason, id, from, to).tcx.method_map[MethodCall::spec_autoderef(
            id,
            i,
        ).key()] == resolved_callee(
            infcx,
            s.inh.method_map[MethodCall::spec_autoderef(id, i).key()],
        ),
    decreases to - from,
{
    let k = MethodCall::spec_autoderef(id, i).key();
    let first = MethodCall::spec_autoderef(id, from);
    let next = visit_method_map_entry_spec(s, infcx, reason, first);
    if i == from {
        lemma_method_is_moved(s, infcx, reason, first);
        lemma_visit_method_map_entry(s, infcx, reason, first);
        lemma_later_dereferences_leave(next, infcx, reason, id, (from + 1) as u32, to, i);
    } else {
        MethodCall::lemma_key_injective(first, MethodCall::spec_autoderef(id, i));
        lemma_other_method_stays(s, infcx, reason, first, k);
        lemma_dereference_is_moved(next, infcx, reason, id, (from + 1) as u32, to, i);
    }
}

proof fn lemma_later_dereferences_leave(
    s: FnCtxtView,
    infcx: InferCtxt,
    reason: ResolveReason,
    id: NodeId,
    from: u32,
    to: u32,
    i: u32,
)
    requires
        i < from,
    ensures
        visit_autoderefs_spec(s, infcx, reason, id, from, to).inh.method_map.contains_key(
            MethodCall::spec_autoderef(id, i).key(),
        ) == s.inh.method_map.contains_key(MethodCall::spec_autoderef(id, i).key()),
        visit_autoderefs_spec(s, infcx, reason, id, from, to).tcx.method_map.contains_key(
            MethodCall::spec_autoderef(id, i).key(),
        ) == s.tcx.method_map.contains_key(MethodCall::spec_autoderef(id, i).key()),
        visit_autoderefs_spec(s, infcx, reason, id, from, to).tcx.method_map[MethodCall::spec_autoderef(
            id,
            i,
        ).key()] == s.tcx.method_map[MethodCall::spec_autoderef(id, i).key()],
    decreases to - from,
{
    if from < to {
        let first = MethodCall::spec_autoderef(id, from);
        let next = visit_method_map_entry_spec(s, infcx, reason, first);
        MethodCall::lemma_key_injective(first, MethodCall::spec_autoderef(id, i));
        lemma_other_method_stays(
            s,
            infcx,
            reason,
            first,
            MethodCall::spec_autoderef(id, i).key(),
        );
        lemma_later_dereferences_leave(next, infcx, reason, id, (from + 1) as u32, to, i);
    }
}

/// With the adjustment of a node, the record of each overloaded
/// dereference that the adjustment counts is moved: after the visit the
/// record is in the permanent table, resolved, and no longer in the working
/// table.
pub proof fn lemma_dereferences_are_moved(
    s: FnCtxtView,
    infcx: InferCtxt,
    reason: ResolveReason,
    id: NodeId,
    i: u32,
)
    requires
        s.inh.adjustments.contains_key(id),
        s.inh.adjustments[id] matches AutoAdjustment::DerefRef(a) && i < a.autoderefs,
        s.inh.method_map.contains_key(MethodCall::spec_autoderef(id, i).key()),
    ensures
        !visit_adjustments_spec(s, infcx, reason, id).inh.method_map.contains_key(
            MethodCall::spec_autoderef(id, i).key(),
        ),
        visit_adjustments_spec(s, infcx, reason, id).tcx.method_map.contains_key(
            MethodCall::spec_autoderef(id, i).key(),
        ),
        visit_adjustments_spec(s, infcx, reason, id).tcx.method_map[MethodCall::spec_autoderef(
            id,
            i,
        ).key()] == resolved_callee(
            infcx,
            s.inh.method_map[MethodCall::spec_autoderef(id, i).key()],
        ),
{
    reveal(visit_adjustments_spec);
    let taken = s.with_inh(TablesView { adjustments: s.inh.adjustments.remove(id), ..s.inh });
    match s.inh.adjustments[id] {
        AutoAdjustment::DerefRef(a) => {
            let s1 = visit_autoderefs_spec(taken, infcx, reason, id, 0, a.autoderefs);
            lemma_dereference_is_moved(taken, infcx, reason, id, 0, a.autoderefs, i);
            let s2 = noted(s1, reason, crate::writeback::autoref_error(infcx, a.autoref));
            lemma_noted_passed(s1, reason, crate::writeback::autoref_error(infcx, a.autoref));
            lemma_noted_passed(s2, reason, crate::writeback::opt_ty_error(infcx, a.unsize));
        },
        _ => {},
    }
}

/// The record of a method call that is there when the call is visited is
/// permanent after the visit, resolved.
pub proof fn lemma_method_is_moved(
    s: FnCtxtView,
    infcx: InferCtxt,
    reason: ResolveReason,
    call: MethodCall,
)
    requires
        s.inh.method_map.contains_key(call.key()),
    ensures
        visit_method_map_entry_spec(s, infcx, reason, call).tcx.method_map.contains_key(
            call.key(),
        ),
        visit_method_map_entry_spec(s, infcx, reason, call).tcx.method_map[call.key()]
            == resolved_callee(infcx, s.inh.method_map[call.key()]),
        callee_concrete(
            visit_method_map_entry_spec(s, infcx, reason, call).tcx.method_map[call.key()],
        ),
{
    reveal(visit_method_map_entry_spec);
    lemma_resolved_callee_concrete(infcx, s.inh.method_map[call.key()]);
}

/// A binary operator whose operands are known to be scalars loses the
/// record of its overloaded method, and, unless it takes its operands by
/// value, the adjustment of its left operand. Nothing else changes.
pub proof fn lemma_scalar_operator_is_pruned(s: FnCtxtView, infcx: InferCtxt, e: Expr)
    requires
        e.node matches ExprKind::Binary(_, lhs, rhs) && known_scalar(s, infcx, lhs.id)
            && known_scalar(s, infcx, rhs.id),
    ensures
        !fix_scalar_binary_expr_spec(s, infcx, e).inh.method_map.contains_key(
            MethodCall::spec_expr(e.id).key(),
        ),
        fix_scalar_binary_expr_spec(s, infcx, e).inh.method_map == s.inh.method_map.remove(
            MethodCall::spec_expr(e.id).key(),
        ),
        e.node matches ExprKind::Binary(op, lhs, _) && fix_scalar_binary_expr_spec(
            s,
            infcx,
            e,
        ).inh.adjustments == (if op.spec_is_by_value() {
            s.inh.adjustments
        } else {
            s.inh.adjustments.remove(lhs.id)
        }),
        fix_scalar_binary_expr_spec(s, infcx, e).tcx == s.tcx,
        fix_scalar_binary_expr_spec(s, infcx, e).inh.node_types == s.inh.node_types,
        fix_scalar_binary_expr_spec(s, infcx, e).writeback_errors == s.writeback_errors,
        fix_scalar_binary_expr_spec(s, infcx, e).diagnostics == s.diagnostics,
{
    reveal(fix_scalar_binary_expr_spec);
}

} // verus!
