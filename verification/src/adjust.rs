//! Implicit dereferences and references: what type an expression has after
//! the adjustment that checking recorded for it.
//!
//! A pointer that the language knows is followed directly. A dereference
//! that a user-defined method provides is followed through the record of
//! that method in the working method map, where checking filed it for the
//! expression and the step.

use crate::tables::{AutoDerefRef, AutoRef, FnCtxt, MethodCall, MethodCallee};
use crate::ty::{FnOutput, Mt, Mutability, NodeId, Ty};
use vstd::prelude::*;

verus! {

/// What a pointer points to. A raw pointer is followed only where the
/// dereference is written out (`explicit`).
pub open spec fn deref_spec(t: Ty, explicit: bool) -> Option<Mt> {
    match t {
        Ty::Uniq(inner) => Some(Mt { ty: inner, mutbl: Mutability::Immutable }),
        Ty::Ref(_, mt) => Some(mt),
        Ty::RawPtr(mt) => if explicit {
            Some(mt)
        } else {
            None
        },
        _ => None,
    }
}

/// The type with the reference `autoref` taken of it.
pub open spec fn adjust_ty_for_autoref_spec(t: Ty, autoref: Option<AutoRef>) -> Ty {
    match autoref {
        None => t,
        Some(AutoRef::Ptr(r, m)) => Ty::Ref(r, Mt { ty: Box::new(t), mutbl: m }),
        Some(AutoRef::Unsafe(m)) => Ty::RawPtr(Mt { ty: Box::new(t), mutbl: m }),
    }
}

/// The type that an overloaded dereference yields: what the pointer that
/// the method returns points to.
pub open spec fn overloaded_target_spec(callee: MethodCallee) -> Option<Ty> {
    match callee.ty {
        Ty::BareFn(_, fty) => match fty.sig.0.output {
            FnOutput::Converging(ret) => match deref_spec(ret, true) {
                Some(mt) => Some(*mt.ty),
                None => None,
            },
            FnOutput::Diverging => None,
        },
        _ => None,
    }
}

/// One implicit dereference of a value of type `t`: through the method
/// recorded for the expression `expr` as its dereference number `level`, if
/// one is, and through the pointer itself otherwise.
pub open spec fn autoderef_step_spec(
    method_map: Map<u64, MethodCallee>,
    expr: Option<NodeId>,
    level: u32,
    t: Ty,
) -> Option<Ty> {
    if expr is Some && method_map.contains_key(
        MethodCall::spec_autoderef(expr->0, level).key(),
    ) {
        overloaded_target_spec(method_map[MethodCall::spec_autoderef(expr->0, level).key()])
    } else {
        match deref_spec(t, false) {
            Some(mt) => Some(*mt.ty),
            None => None,
        }
    }
}

/// The dereferences number `level`, .., `limit - 1` of a value that has the
/// type `t` before them: the type reached, and the number of the first
/// dereference that could not be done, or `limit`.
pub open spec fn autoderef_spec(
    method_map: Map<u64, MethodCallee>,
    expr: Option<NodeId>,
    t: Ty,
    level: u32,
    limit: u32,
) -> (Ty, u32)
    decreases limit - level,
{
    if level >= limit {
        (t, level)
    } else {
        match autoderef_step_spec(method_map, expr, level, t) {
            Some(next) => autoderef_spec(method_map, expr, next, (level + 1) as u32, limit),
            None => (t, level),
        }
    }
}

/// The type of the expression `expr`, which has the type `unadjusted`
/// without adjustment, after the adjustment `adj`; `None` if a dereference
/// that `adj` counts cannot be done.
pub open spec fn adjust_ty_spec(
    method_map: Map<u64, MethodCallee>,
    expr: NodeId,
    unadjusted: Ty,
    adj: AutoDerefRef,
) -> Option<Ty> {
    let (derefd, done) = autoderef_spec(method_map, Some(expr), unadjusted, 0, adj.autoderefs);
    if done != adj.autoderefs {
        None
    } else {
        Some(
            match adj.unsize {
                Some(target) => target,
                None => adjust_ty_for_autoref_spec(derefd, adj.autoref),
            },
        )
    }
}

/// What the pointer `t` points to, if it is a pointer that may be followed.
pub fn deref(t: &Ty, explicit: bool) -> (r: Option<Mt>)
    ensures
        r == deref_spec(*t, explicit),
{
    match t {
        Ty::Uniq(inner) => Some(
            Mt { ty: Box::new((**inner).clone()), mutbl: Mutability::Immutable },
        ),
        Ty::Ref(_, mt) => Some(mt.clone()),
        Ty::RawPtr(mt) => if explicit {
            Some(mt.clone())
        } else {
            None
        },
        _ => None,
    }
}

/// The type `t` with the reference `autoref` taken of it.
pub fn adjust_ty_for_autoref(t: Ty, autoref: Option<AutoRef>) -> (r: Ty)
    ensures
        r == adjust_ty_for_autoref_spec(t, autoref),
{
    match autoref {
        None => t,
        Some(AutoRef::Ptr(r, m)) => Ty::Ref(r, Mt { ty: Box::new(t), mutbl: m }),
        Some(AutoRef::Unsafe(m)) => Ty::RawPtr(Mt { ty: Box::new(t), mutbl: m }),
    }
}

fn overloaded_target(callee: &MethodCallee) -> (r: Option<Ty>)
    ensures
        r == overloaded_target_spec(*callee),
{
    match &callee.ty {
        Ty::BareFn(_, fty) => match &fty.sig.0.output {
            FnOutput::Converging(ret) => match deref(ret, true) {
                Some(mt) => Some(*mt.ty),
                None => None,
            },
            FnOutput::Diverging => None,
        },
        _ => None,
    }
}

fn autoderef_step(fcx: &FnCtxt, expr: Option<NodeId>, level: u32, t: &Ty) -> (r: Option<Ty>)
    ensures
        r == autoderef_step_spec(fcx@.inh.method_map, expr, level, *t),
{
    let overloaded = match expr {
        Some(id) => fcx.inh.method_map.get(&MethodCall::autoderef(id, level).to_key()),
        None => None,
    };
    match overloaded {
        Some(callee) => overloaded_target(callee),
        None => match deref(t, false) {
            Some(mt) => Some(*mt.ty),
            None => None,
        },
    }
}

/// Dereferences a value of type `t` implicitly, from the dereference number
/// `level` up to, and without, the number `limit`, as far as it can be done.
pub fn autoderef(fcx: &FnCtxt, expr: Option<NodeId>, t: Ty, level: u32, limit: u32) -> (r: (
    Ty,
    u32,
))
    ensures
        r == autoderef_spec(fcx@.inh.method_map, expr, t, level, limit),
    decreases limit - level,
{
    if level >= limit {
        (t, level)
    } else {
        match autoderef_step(fcx, expr, level, &t) {
            Some(next) => autoderef(fcx, expr, next, level + 1, limit),
            None => (t, level),
        }
    }
}

/// The type of the expression `expr` after the adjustment `adj`.
pub fn adjust_ty(fcx: &FnCtxt, expr: NodeId, unadjusted: Ty, adj: &AutoDerefRef) -> (r: Option<Ty>)
    ensures
        r == adjust_ty_spec(fcx@.inh.method_map, expr, unadjusted, *adj),
{
    let (derefd, done) = autoderef(fcx, Some(expr), unadjusted, 0, adj.autoderefs);
    if done != adj.autoderefs {
        None
    } else {
        Some(
            match &adj.unsize {
                Some(target) => target.clone(),
                None => adjust_ty_for_autoref(derefd, adj.autoref),
            },
        )
    }
}

} // verus!
