//! Full resolution: putting the oracle's answers in place of every
//! placeholder of a term, and reporting the placeholders that it left
//! without an answer.
//!
//! A type that still holds a placeholder after the answers are in place is
//! reported and becomes the error type; such a region becomes the static
//! region. So nothing that a [`Resolver`] returns holds a placeholder.

use crate::ctxt::{find_span, Ctxt};
use crate::fold::{fold_region, fold_region_spec, fold_ty, fold_ty_spec, Folder};
use crate::infer::InferCtxt;
use crate::list::List;
use crate::scan::{
    scan_region_spec, scan_regions_spec, scan_substs_spec,
    scan_ty, scan_ty_spec, scan_tys_spec, FixupError,
};
use crate::tables::{Diagnostic, FnCtxt, FnCtxtView, UpvarId};
use crate::ty::{
    dummy_span, DefId, PerSpace, Region, RegionSubsts, Span, Substs, Ty, LOCAL_CRATE,
};
use vstd::prelude::*;

verus! {

/// For what a term is being resolved: it decides how a failure is reported.
#[derive(Clone, Copy, Debug, PartialEq, Eq, Structural)]
pub enum ResolveReason {
    ResolvingExpr(Span),
    ResolvingLocal(Span),
    ResolvingPattern(Span),
    ResolvingUpvar(UpvarId),
    ResolvingClosure(DefId),
}

impl ResolveReason {
    /// The error to report when resolving for this reason fails with `e`.
    pub open spec fn spec_diagnostic(self, e: FixupError) -> Diagnostic {
        match self {
            ResolveReason::ResolvingExpr(span) => Diagnostic::CannotDetermineExprType(span, e),
            ResolveReason::ResolvingLocal(span) => Diagnostic::CannotDetermineLocalType(span, e),
            ResolveReason::ResolvingPattern(span) => Diagnostic::CannotDeterminePatternType(
                span,
                e,
            ),
            ResolveReason::ResolvingUpvar(upvar) => Diagnostic::CannotResolveUpvarLifetime(
                upvar,
                e,
            ),
            ResolveReason::ResolvingClosure(closure) => Diagnostic::CannotDetermineClosureType(
                closure,
            ),
        }
    }

    /// The error to report when resolving for this reason fails with `e`.
    pub fn diagnostic(self, e: FixupError) -> (r: Diagnostic)
        ensures
            r == self.spec_diagnostic(e),
    {
        match self {
            ResolveReason::ResolvingExpr(span) => Diagnostic::CannotDetermineExprType(span, e),
            ResolveReason::ResolvingLocal(span) => Diagnostic::CannotDetermineLocalType(span, e),
            ResolveReason::ResolvingPattern(span) => Diagnostic::CannotDeterminePatternType(
                span,
                e,
            ),
            ResolveReason::ResolvingUpvar(upvar) => Diagnostic::CannotResolveUpvarLifetime(
                upvar,
                e,
            ),
            ResolveReason::ResolvingClosure(closure) => Diagnostic::CannotDetermineClosureType(
                closure,
            ),
        }
    }

    /// The place in the source that the reason names: for a captured
    /// variable the closure that captures it, for a closure of this crate the
    /// closure expression, and for a closure of another crate no place in
    /// the source. `None` if the context does not know the expression.
    pub open spec fn spec_span(self, tcx: Ctxt) -> Option<Span> {
        match self {
            ResolveReason::ResolvingExpr(s) => Some(s),
            ResolveReason::ResolvingLocal(s) => Some(s),
            ResolveReason::ResolvingPattern(s) => Some(s),
            ResolveReason::ResolvingUpvar(upvar) => find_span(
                tcx.expr_spans,
                upvar.closure_expr_id,
            ),
            ResolveReason::ResolvingClosure(closure) => if closure.krate == LOCAL_CRATE {
                find_span(tcx.expr_spans, closure.node)
            } else {
                Some(dummy_span())
            },
        }
    }

    /// The place in the source that the reason names.
    pub fn span(&self, tcx: &Ctxt) -> (r: Option<Span>)
        ensures
            r == self.spec_span(*tcx),
    {
        match *self {
            ResolveReason::ResolvingExpr(s) => Some(s),
            ResolveReason::ResolvingLocal(s) => Some(s),
            ResolveReason::ResolvingPattern(s) => Some(s),
            ResolveReason::ResolvingUpvar(upvar) => tcx.expr_span(upvar.closure_expr_id),
            ResolveReason::ResolvingClosure(closure) => if closure.krate == LOCAL_CRATE {
                tcx.expr_span(closure.node)
            } else {
                Some(Span::dummy())
            },
        }
    }
}

/// The context after a failure to resolve: the function is marked as
/// failed, and the failure is shown to the user if it is the first of the
/// function.
#[verifier::opaque]
pub open spec fn report_error_spec(s: FnCtxtView, reason: ResolveReason, e: FixupError) -> FnCtxtView {
    if s.writeback_errors {
        s
    } else {
        FnCtxtView {
            writeback_errors: true,
            diagnostics: s.diagnostics.push(reason.spec_diagnostic(e)),
            err_count: if s.err_count < usize::MAX {
                (s.err_count + 1) as usize
            } else {
                usize::MAX
            },
            ..s
        }
    }
}

/// The context after a resolution that ended with `err`.
pub open spec fn noted(s: FnCtxtView, reason: ResolveReason, err: Option<FixupError>) -> FnCtxtView {
    match err {
        Some(e) => report_error_spec(s, reason, e),
        None => s,
    }
}

/// The type with the oracle's answers in place.
pub open spec fn answered_ty(infcx: InferCtxt, t: Ty) -> Ty {
    fold_ty_spec(Folder::Resolve(&infcx), 0, t)
}

/// The first placeholder of `t` that the oracle has not answered, if any.
pub open spec fn ty_fixup_error(infcx: InferCtxt, t: Ty) -> Option<FixupError> {
    scan_ty_spec(0, answered_ty(infcx, t)).unresolved
}

/// What full resolution makes of a type: the type with the answers in
/// place, or the error type if a placeholder is left.
pub open spec fn resolved_ty(infcx: InferCtxt, t: Ty) -> Ty {
    if ty_fixup_error(infcx, t) is None {
        answered_ty(infcx, t)
    } else {
        Ty::Error
    }
}

/// The region as a placeholder that the oracle has not answered, if it
/// is one.
pub open spec fn region_fixup_error(infcx: InferCtxt, r: Region) -> Option<FixupError> {
    scan_region_spec(0, fold_region_spec(Folder::Resolve(&infcx), 0, r)).unresolved
}

/// What full resolution makes of a region: the oracle's answer, or the
/// static region if there is none.
pub open spec fn resolved_region(infcx: InferCtxt, r: Region) -> Region {
    if region_fixup_error(infcx, r) is None {
        fold_region_spec(Folder::Resolve(&infcx), 0, r)
    } else {
        Region::Static
    }
}

/// Each type of a list, fully resolved.
pub open spec fn resolved_tys(infcx: InferCtxt, l: List<Ty>) -> List<Ty>
    decreases l,
{
    match l {
        List::Nil => List::Nil,
        List::Cons(t, rest) => List::Cons(
            Box::new(resolved_ty(infcx, *t)),
            Box::new(resolved_tys(infcx, *rest)),
        ),
    }
}

/// The context after each type of `l` has been resolved, first to last.
pub open spec fn noted_tys(s: FnCtxtView, infcx: InferCtxt, reason: ResolveReason, l: List<Ty>) -> FnCtxtView
    decreases l,
{
    match l {
        List::Nil => s,
        List::Cons(t, rest) => noted_tys(
            noted(s, reason, ty_fixup_error(infcx, *t)),
            infcx,
            reason,
            *rest,
        ),
    }
}

/// Each region of a list, fully resolved.
pub open spec fn resolved_regions(infcx: InferCtxt, l: List<Region>) -> List<Region>
    decreases l,
{
    match l {
        List::Nil => List::Nil,
        List::Cons(r, rest) => List::Cons(
            Box::new(resolved_region(infcx, *r)),
            Box::new(resolved_regions(infcx, *rest)),
        ),
    }
}

/// The context after each region of `l` has been resolved, first to last.
pub open spec fn noted_regions(
    s: FnCtxtView,
    infcx: InferCtxt,
    reason: ResolveReason,
    l: List<Region>,
) -> FnCtxtView
    decreases l,
{
    match l {
        List::Nil => s,
        List::Cons(r, rest) => noted_regions(
            noted(s, reason, region_fixup_error(infcx, *r)),
            infcx,
            reason,
            *rest,
        ),
    }
}

/// The regions of a substitution, fully resolved.
pub open spec fn resolved_region_substs(infcx: InferCtxt, regions: RegionSubsts) -> RegionSubsts {
    match regions {
        RegionSubsts::Erased => RegionSubsts::Erased,
        RegionSubsts::NonErased(r) => RegionSubsts::NonErased(
            PerSpace {
                types: resolved_regions(infcx, r.types),
                selfs: resolved_regions(infcx, r.selfs),
                fns: resolved_regions(infcx, r.fns),
            },
        ),
    }
}

/// The context after the regions of a substitution have been resolved.
pub open spec fn noted_region_substs(
    s: FnCtxtView,
    infcx: InferCtxt,
    reason: ResolveReason,
    regions: RegionSubsts,
) -> FnCtxtView {
    match regions {
        RegionSubsts::Erased => s,
        RegionSubsts::NonErased(r) => noted_regions(
            noted_regions(noted_regions(s, infcx, reason, r.types), infcx, reason, r.selfs),
            infcx,
            reason,
            r.fns,
        ),
    }
}

/// What full resolution makes of a substitution: each of its regions and
/// each of its types resolved on its own.
pub open spec fn resolved_substs(infcx: InferCtxt, substs: Substs) -> Substs {
    Substs {
        types: PerSpace {
            types: resolved_tys(infcx, substs.types.types),
            selfs: resolved_tys(infcx, substs.types.selfs),
            fns: resolved_tys(infcx, substs.types.fns),
        },
        regions: resolved_region_substs(infcx, substs.regions),
    }
}

/// The context after a substitution has been resolved: first its regions,
/// then its types, each space in turn.
#[verifier::opaque]
pub open spec fn noted_substs(
    s: FnCtxtView,
    infcx: InferCtxt,
    reason: ResolveReason,
    substs: Substs,
) -> FnCtxtView {
    noted_tys(
        noted_tys(
            noted_tys(
                noted_region_substs(s, infcx, reason, substs.regions),
                infcx,
                reason,
                substs.types.types,
            ),
            infcx,
            reason,
            substs.types.selfs,
        ),
        infcx,
        reason,
        substs.types.fns,
    )
}

/// Resolving changes nothing of the context but the mark of failure and the
/// errors of the session.
pub open spec fn only_reports(before: FnCtxtView, after: FnCtxtView) -> bool {
    &&& after == (FnCtxtView {
        writeback_errors: after.writeback_errors,
        err_count: after.err_count,
        diagnostics: after.diagnostics,
        ..before
    })
    &&& before.writeback_errors ==> after.writeback_errors
}

/// Resolving a list of types changes only what is reported.
pub proof fn lemma_noted_tys_only_reports(
    s: FnCtxtView,
    infcx: InferCtxt,
    reason: ResolveReason,
    l: List<Ty>,
)
    ensures
        only_reports(s, noted_tys(s, infcx, reason, l)),
    decreases l,
{
    reveal(report_error_spec);
    match l {
        List::Nil => {},
        List::Cons(t, rest) => {
            lemma_noted_tys_only_reports(
                noted(s, reason, ty_fixup_error(infcx, *t)),
                infcx,
                reason,
                *rest,
            );
        },
    }
}

/// Resolving a list of regions changes only what is reported.
pub proof fn lemma_noted_regions_only_reports(
    s: FnCtxtView,
    infcx: InferCtxt,
    reason: ResolveReason,
    l: List<Region>,
)
    ensures
        only_reports(s, noted_regions(s, infcx, reason, l)),
    decreases l,
{
    reveal(report_error_spec);
    match l {
        List::Nil => {},
        List::Cons(r, rest) => {
            lemma_noted_regions_only_reports(
                noted(s, reason, region_fixup_error(infcx, *r)),
                infcx,
                reason,
                *rest,
            );
        },
    }
}

/// Resolving a substitution changes only what is reported.
pub proof fn lemma_noted_substs_only_reports(
    s: FnCtxtView,
    infcx: InferCtxt,
    reason: ResolveReason,
    substs: Substs,
)
    ensures
        only_reports(s, noted_substs(s, infcx, reason, substs)),
{
    reveal(noted_substs);
    let s1 = noted_region_substs(s, infcx, reason, substs.regions);
    match substs.regions {
        RegionSubsts::Erased => {},
        RegionSubsts::NonErased(r) => {
            let a = noted_regions(s, infcx, reason, r.types);
            let b = noted_regions(a, infcx, reason, r.selfs);
            lemma_noted_regions_only_reports(s, infcx, reason, r.types);
            lemma_noted_regions_only_reports(a, infcx, reason, r.selfs);
            lemma_noted_regions_only_reports(b, infcx, reason, r.fns);
        },
    }
    let s2 = noted_tys(s1, infcx, reason, substs.types.types);
    let s3 = noted_tys(s2, infcx, reason, substs.types.selfs);
    lemma_noted_tys_only_reports(s1, infcx, reason, substs.types.types);
    lemma_noted_tys_only_reports(s2, infcx, reason, substs.types.selfs);
    lemma_noted_tys_only_reports(s3, infcx, reason, substs.types.fns);
}

/// Resolves terms for one reason against the oracle's answers.
pub struct Resolver<'a> {
    pub infcx: &'a InferCtxt,
    pub reason: ResolveReason,
}

impl<'a> Resolver<'a> {
    /// A resolver for the given reason.
    pub fn new(infcx: &'a InferCtxt, reason: ResolveReason) -> (r: Self)
        ensures
            r.infcx == infcx,
            r.reason == reason,
    {
        Resolver::from_infcx(infcx, reason)
    }

    /// A resolver for the given reason, against the given oracle.
    pub fn from_infcx(infcx: &'a InferCtxt, reason: ResolveReason) -> (r: Self)
        ensures
            r.infcx == infcx,
            r.reason == reason,
    {
        Resolver { infcx, reason }
    }

    /// Marks the function as failed, and shows the failure to the user if
    /// it is the first of the function.
    pub fn report_error(&self, fcx: &mut FnCtxt, e: FixupError)
        ensures
            final(fcx)@ == report_error_spec(old(fcx)@, self.reason, e),
    {
        proof {
            reveal(report_error_spec);
        }
        if !fcx.writeback_errors {
            fcx.writeback_errors = true;
            fcx.span_err(self.reason.diagnostic(e));
        }
    }

    /// Resolves a type fully. If a placeholder is left, the first one is
    /// reported and the error type is returned.
    pub fn fold_ty(&self, fcx: &mut FnCtxt, t: &Ty) -> (r: Ty)
        ensures
            r == resolved_ty(*self.infcx, *t),
            scan_ty_spec(0, r).unresolved is None,
            final(fcx)@ == noted(old(fcx)@, self.reason, ty_fixup_error(*self.infcx, *t)),
    {
        let answered = fold_ty(&Folder::Resolve(self.infcx), 0, t);
        match scan_ty(0, &answered).unresolved {
            None => answered,
            Some(e) => {
                self.report_error(fcx, e);
                Ty::Error
            },
        }
    }

    /// Resolves a region fully. If it is a placeholder without an answer, it
    /// is reported and the static region is returned.
    pub fn fold_region(&self, fcx: &mut FnCtxt, r: Region) -> (out: Region)
        ensures
            out == resolved_region(*self.infcx, r),
            !(out is Var),
            final(fcx)@ == noted(old(fcx)@, self.reason, region_fixup_error(*self.infcx, r)),
    {
        let answered = fold_region(&Folder::Resolve(self.infcx), 0, r);
        match answered {
            Region::Var(v) => {
                self.report_error(fcx, FixupError::UnresolvedRegion(v));
                Region::Static
            },
            _ => answered,
        }
    }

    /// Resolves each type of a list.
    pub fn fold_tys(&self, fcx: &mut FnCtxt, l: &List<Ty>) -> (r: List<Ty>)
        ensures
            r == resolved_tys(*self.infcx, *l),
            scan_tys_spec(0, r).unresolved is None,
            final(fcx)@ == noted_tys(old(fcx)@, *self.infcx, self.reason, *l),
        decreases l,
    {
        match l {
            List::Nil => List::Nil,
            List::Cons(t, rest) => {
                let head = self.fold_ty(fcx, t);
                let tail = self.fold_tys(fcx, rest);
                List::Cons(Box::new(head), Box::new(tail))
            },
        }
    }

    /// Resolves each region of a list.
    pub fn fold_regions(&self, fcx: &mut FnCtxt, l: &List<Region>) -> (r: List<Region>)
        ensures
            r == resolved_regions(*self.infcx, *l),
            scan_regions_spec(0, r).unresolved is None,
            final(fcx)@ == noted_regions(old(fcx)@, *self.infcx, self.reason, *l),
        decreases l,
    {
        match l {
            List::Nil => List::Nil,
            List::Cons(x, rest) => {
                let head = self.fold_region(fcx, **x);
                let tail = self.fold_regions(fcx, rest);
                List::Cons(Box::new(head), Box::new(tail))
            },
        }
    }

    /// Resolves a substitution: its regions, then its types.
    pub fn fold_substs(&self, fcx: &mut FnCtxt, substs: &Substs) -> (r: Substs)
        ensures
            r == resolved_substs(*self.infcx, *substs),
            scan_substs_spec(0, r).unresolved is None,
            final(fcx)@ == noted_substs(old(fcx)@, *self.infcx, self.reason, *substs),
    {
        proof {
            reveal(noted_substs);
        }
        let regions = match &substs.regions {
            RegionSubsts::Erased => RegionSubsts::Erased,
            RegionSubsts::NonErased(r) => {
                let types = self.fold_regions(fcx, &r.types);
                let selfs = self.fold_regions(fcx, &r.selfs);
                let fns = self.fold_regions(fcx, &r.fns);
                RegionSubsts::NonErased(PerSpace { types, selfs, fns })
            },
        };
        let types = self.fold_tys(fcx, &substs.types.types);
        let selfs = self.fold_tys(fcx, &substs.types.selfs);
        let fns = self.fold_tys(fcx, &substs.types.fns);
        Substs { types: PerSpace { types, selfs, fns }, regions }
    }
}

} // verus!
