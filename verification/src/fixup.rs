//! Turning a receiver towards mutability.
//!
//! When a method that takes `&mut self` has been selected, the places on the
//! way to the receiver must be mutable too: an overloaded dereference must
//! be the mutable one, and so must an overloaded index. Checking resolved
//! them before it knew. So they are resolved anew, with a preference for the
//! mutable variant, from the innermost place outwards. This module says
//! which resolutions those are; running them is the caller's part.
//!
//! A resolution that is run again may change what the tables hold for the
//! places further out. So the caller asks step by step, with
//! [`autoderef_fixup`] and [`place_fixup`], each of which reads the tables as
//! they stand when it is asked. [`plan_fixups`] gives all steps at once, as
//! the tables have them before any is run.

use crate::adjust::{adjust_ty_spec, autoderef, autoderef_spec, deref, deref_spec};
use crate::ast::{Expr, ExprKind, UnOp};
use crate::confirm::{Bug, Fatal};
use crate::list::List;
use crate::tables::{
    AutoAdjustment, AutoDerefRef, AutoRef, FnCtxt, FnCtxtView, MethodCall, MethodCallee,
};
use crate::ty::{Mutability, NodeId, Span, Ty};
use vstd::prelude::*;

verus! {

/// One resolution to run again with a preference for mutable places,
/// because a method that takes `&mut self` has been selected.
#[derive(Debug, PartialEq, Eq)]
pub enum Fixup {
    /// The `autoderefs` implicit dereferences of the expression, which has
    /// the type `ty`.
    Autoderef { expr: NodeId, span: Span, ty: Ty, autoderefs: u32 },
    /// The index step of `expr`, which indexes `base`, of the type
    /// `adjusted_base_ty` after its `autoderefs` dereferences (`unsize` says
    /// whether it has been converted to an unsized type), with `index`. If the
    /// step is resolved anew, the type of the index must be a supertype of
    /// the input that it takes, and `expr_ty` of what it returns.
    Index {
        expr: NodeId,
        base: NodeId,
        index: NodeId,
        adjusted_base_ty: Ty,
        autoderefs: u32,
        unsize: bool,
        index_ty: Ty,
        expr_ty: Ty,
    },
    /// The overloaded dereference that `expr` makes of `base`, which has the
    /// type `base_ty`.
    OverloadedDeref { expr: NodeId, base: NodeId, base_ty: Ty },
}

/// The number of implicit dereferences recorded for a node.
pub open spec fn autoderef_count(s: FnCtxtView, id: NodeId) -> u32 {
    if s.inh.adjustments.contains_key(id) {
        match s.inh.adjustments[id] {
            AutoAdjustment::DerefRef(adj) => adj.autoderefs,
            _ => 0,
        }
    } else {
        0
    }
}

/// The recorded type of a node, which must be there.
pub open spec fn expr_ty_spec(s: FnCtxtView, id: NodeId, span: Span) -> Result<Ty, Fatal> {
    if s.inh.node_types.contains_key(id) {
        Ok(s.inh.node_types[id])
    } else {
        Err(Fatal::Bug(span, Bug::NoTypeForNode(id)))
    }
}

/// The adjustment of the base of an index without the reference that the
/// overloaded index puts on top of it: the number of dereferences, and the
/// unsized type that the base is converted to, if it is.
pub open spec fn index_base_adjustment(s: FnCtxtView, base: NodeId) -> Result<(u32, Option<Ty>), Bug> {
    if !s.inh.adjustments.contains_key(base) {
        Ok((0, None))
    } else {
        match s.inh.adjustments[base] {
            AutoAdjustment::DerefRef(adr) => match adr.autoref {
                None => if adr.unsize is Some {
                    Err(Bug::UnsizeWithoutAutoref)
                } else {
                    Ok((adr.autoderefs, None))
                },
                Some(AutoRef::Ptr(_, _)) => match adr.unsize {
                    None => Ok((adr.autoderefs, None)),
                    Some(target) => match deref_spec(target, false) {
                        Some(mt) => Ok((adr.autoderefs, Some(*mt.ty))),
                        None => Err(Bug::UnsizeTargetNotReference),
                    },
                },
                Some(AutoRef::Unsafe(_)) => Err(Bug::UnexpectedAutoref),
            },
            _ => Err(Bug::UnexpectedAdjustment),
        }
    }
}

/// The fixup of an index expression.
pub open spec fn index_fixup_spec(s: FnCtxtView, e: Expr, base: Expr, index: Expr) -> Result<
    Fixup,
    Fatal,
> {
    match index_base_adjustment(s, base.id) {
        Err(bug) => Err(Fatal::Bug(base.span, bug)),
        Ok((autoderefs, unsize)) => match expr_ty_spec(s, base.id, base.span) {
            Err(f) => Err(f),
            Ok(base_ty) => {
                let adjusted = match unsize {
                    Some(target) => Some(target),
                    None => adjust_ty_spec(
                        s.inh.method_map,
                        base.id,
                        base_ty,
                        AutoDerefRef { autoderefs, autoref: None, unsize: None },
                    ),
                };
                match adjusted {
                    None => Err(
                        Fatal::Bug(
                            base.span,
                            Bug::AutoderefMismatch {
                                expected: autoderefs,
                                found: autoderef_spec(
                                    s.inh.method_map,
                                    Some(base.id),
                                    base_ty,
                                    0,
                                    autoderefs,
                                ).1,
                            },
                        ),
                    ),
                    Some(adjusted_base_ty) => match expr_ty_spec(s, index.id, index.span) {
                        Err(f) => Err(f),
                        Ok(index_ty) => match expr_ty_spec(s, e.id, e.span) {
                            Err(f) => Err(f),
                            Ok(expr_ty) => Ok(
                                Fixup::Index {
                                    expr: e.id,
                                    base: base.id,
                                    index: index.id,
                                    adjusted_base_ty,
                                    autoderefs,
                                    unsize: unsize is Some,
                                    index_ty,
                                    expr_ty,
                                },
                            ),
                        },
                    },
                }
            },
        },
    }
}

/// The list of the fixup, if there is one.
pub open spec fn fixup_list(fixup: Option<Fixup>) -> List<Fixup> {
    match fixup {
        Some(f) => List::Cons(Box::new(f), Box::new(List::Nil)),
        None => List::Nil,
    }
}

/// The fixup for the implicit dereferences of an expression, if it has
/// any.
pub open spec fn autoderef_fixup_spec(s: FnCtxtView, e: Expr) -> Result<Option<Fixup>, Fatal> {
    let count = autoderef_count(s, e.id);
    if count > 0 {
        match expr_ty_spec(s, e.id, e.span) {
            Ok(ty) => Ok(Some(Fixup::Autoderef { expr: e.id, span: e.span, ty, autoderefs: count })),
            Err(f) => Err(f),
        }
    } else {
        Ok(None)
    }
}

/// The fixup for the step that an expression itself makes, if it is an
/// index or an overloaded dereference.
pub open spec fn place_fixup_spec(s: FnCtxtView, e: Expr) -> Result<Option<Fixup>, Fatal> {
    match e.node {
        ExprKind::Index(base, index) => match index_fixup_spec(s, e, *base, *index) {
            Ok(fixup) => Ok(Some(fixup)),
            Err(f) => Err(f),
        },
        ExprKind::Unary(UnOp::Deref, base) => if s.inh.method_map.contains_key(
            MethodCall::spec_expr(e.id).key(),
        ) {
            match expr_ty_spec(s, base.id, base.span) {
                Ok(base_ty) => Ok(
                    Some(Fixup::OverloadedDeref { expr: e.id, base: base.id, base_ty }),
                ),
                Err(f) => Err(f),
            }
        } else {
            Ok(None)
        },
        _ => Ok(None),
    }
}

/// The fixups of one expression of the chain: its implicit dereferences, if
/// it has any, and, unless it is the innermost expression, its index or
/// overloaded dereference.
pub open spec fn expr_fixups_spec(s: FnCtxtView, e: Expr, innermost: bool) -> Result<
    List<Fixup>,
    Fatal,
> {
    match autoderef_fixup_spec(s, e) {
        Err(f) => Err(f),
        Ok(first) => if innermost {
            Ok(fixup_list(first))
        } else {
            match place_fixup_spec(s, e) {
                Err(f) => Err(f),
                Ok(second) => Ok(fixup_list(first).concat(fixup_list(second))),
            }
        },
    }
}

/// The fixups of the chain of places that ends in `e`, innermost place
/// first.
pub open spec fn chain_fixups_spec(s: FnCtxtView, e: Expr) -> Result<List<Fixup>, Fatal>
    decreases e,
{
    match e.spec_base() {
        None => expr_fixups_spec(s, e, true),
        Some(base) => match chain_fixups_spec(s, base) {
            Err(f) => Err(f),
            Ok(inner) => match expr_fixups_spec(s, e, false) {
                Err(f) => Err(f),
                Ok(own) => Ok(inner.concat(own)),
            },
        },
    }
}

/// Whether the method takes its receiver by mutable reference.
pub open spec fn takes_mut_self(callee: MethodCallee) -> bool {
    match callee.ty {
        Ty::BareFn(_, fty) => fty.sig.0.inputs.len() > 0 && fty.sig.0.inputs.at(0).is_mut_ref(),
        _ => false,
    }
}

/// The fixups for a confirmed call: none unless the method takes
/// `&mut self`.
pub open spec fn fixups_spec(s: FnCtxtView, callee: MethodCallee, self_expr: Expr) -> Result<
    List<Fixup>,
    Fatal,
> {
    if takes_mut_self(callee) {
        chain_fixups_spec(s, self_expr)
    } else {
        Ok(List::Nil)
    }
}

fn expr_ty(fcx: &FnCtxt, id: NodeId, span: Span) -> (r: Result<Ty, Fatal>)
    ensures
        r == expr_ty_spec(fcx@, id, span),
{
    match fcx.node_ty(id) {
        Some(t) => Ok(t),
        None => Err(Fatal::Bug(span, Bug::NoTypeForNode(id))),
    }
}

fn autoderef_count_of(fcx: &FnCtxt, id: NodeId) -> (r: u32)
    ensures
        r == autoderef_count(fcx@, id),
{
    match fcx.inh.adjustments.get(&id) {
        Some(AutoAdjustment::DerefRef(adj)) => adj.autoderefs,
        _ => 0,
    }
}

fn index_base_adjustment_of(fcx: &FnCtxt, base: NodeId) -> (r: Result<(u32, Option<Ty>), Bug>)
    ensures
        r == index_base_adjustment(fcx@, base),
{
    // An overloaded index takes `&self` or `&mut self`, so the adjustment
    // of its base has one more reference than the index step is resolved
    // with. It is taken off here.
    match fcx.inh.adjustments.get(&base) {
        None => Ok((0, None)),
        Some(AutoAdjustment::DerefRef(adr)) => match adr.autoref {
            None => if adr.unsize.is_some() {
                Err(Bug::UnsizeWithoutAutoref)
            } else {
                Ok((adr.autoderefs, None))
            },
            Some(AutoRef::Ptr(_, _)) => match &adr.unsize {
                None => Ok((adr.autoderefs, None)),
                Some(target) => match deref(target, false) {
                    Some(mt) => Ok((adr.autoderefs, Some(*mt.ty))),
                    None => Err(Bug::UnsizeTargetNotReference),
                },
            },
            Some(AutoRef::Unsafe(_)) => Err(Bug::UnexpectedAutoref),
        },
        Some(_) => Err(Bug::UnexpectedAdjustment),
    }
}

fn index_fixup(fcx: &FnCtxt, e: &Expr, base: &Expr, index: &Expr) -> (r: Result<Fixup, Fatal>)
    ensures
        r == index_fixup_spec(fcx@, *e, *base, *index),
{
    let (autoderefs, unsize) = match index_base_adjustment_of(fcx, base.id) {
        Ok(found) => found,
        Err(bug) => {
            return Err(Fatal::Bug(base.span, bug));
        },
    };
    let base_ty = expr_ty(fcx, base.id, base.span)?;
    let (adjusted_base_ty, unsized_base) = match unsize {
        Some(target) => (target, true),
        None => {
            let (derefd, done) = autoderef(fcx, Some(base.id), base_ty, 0, autoderefs);
            if done != autoderefs {
                return Err(
                    Fatal::Bug(
                        base.span,
                        Bug::AutoderefMismatch { expected: autoderefs, found: done },
                    ),
                );
            }
            (derefd, false)
        },
    };
    let index_ty = expr_ty(fcx, index.id, index.span)?;
    let expr_ty = expr_ty(fcx, e.id, e.span)?;
    Ok(
        Fixup::Index {
            expr: e.id,
            base: base.id,
            index: index.id,
            adjusted_base_ty,
            autoderefs,
            unsize: unsized_base,
            index_ty,
            expr_ty,
        },
    )
}

fn list_of(fixup: Option<Fixup>) -> (r: List<Fixup>)
    ensures
        r == fixup_list(fixup),
{
    match fixup {
        Some(f) => List::Cons(Box::new(f), Box::new(List::Nil)),
        None => List::Nil,
    }
}

/// The fixup for the implicit dereferences of an expression, from the
/// tables as they stand.
pub fn autoderef_fixup(fcx: &FnCtxt, e: &Expr) -> (r: Result<Option<Fixup>, Fatal>)
    ensures
        r == autoderef_fixup_spec(fcx@, *e),
{
    let count = autoderef_count_of(fcx, e.id);
    if count > 0 {
        let ty = expr_ty(fcx, e.id, e.span)?;
        Ok(Some(Fixup::Autoderef { expr: e.id, span: e.span, ty, autoderefs: count }))
    } else {
        Ok(None)
    }
}

/// The fixup for the index or the overloaded dereference that an
/// expression makes, from the tables as they stand. It is not asked for the
/// innermost expression of a chain: that would not end.
pub fn place_fixup(fcx: &FnCtxt, e: &Expr) -> (r: Result<Option<Fixup>, Fatal>)
    ensures
        r == place_fixup_spec(fcx@, *e),
{
    match &e.node {
        ExprKind::Index(base, index) => {
            let fixup = index_fixup(fcx, e, base, index)?;
            Ok(Some(fixup))
        },
        ExprKind::Unary(UnOp::Deref, base) => {
            // An overloaded dereference is resolved anew with a preference
            // for the mutable one.
            if fcx.inh.method_map.contains_key(&MethodCall::expr(e.id).to_key()) {
                let base_ty = expr_ty(fcx, base.id, base.span)?;
                Ok(Some(Fixup::OverloadedDeref { expr: e.id, base: base.id, base_ty }))
            } else {
                Ok(None)
            }
        },
        _ => Ok(None),
    }
}

fn expr_fixups(fcx: &FnCtxt, e: &Expr, innermost: bool) -> (r: Result<List<Fixup>, Fatal>)
    ensures
        r == expr_fixups_spec(fcx@, *e, innermost),
{
    let first = autoderef_fixup(fcx, e)?;
    if innermost {
        return Ok(list_of(first));
    }
    let second = place_fixup(fcx, e)?;
    Ok(list_of(first).append(list_of(second)))
}

fn chain_fixups(fcx: &FnCtxt, e: &Expr) -> (r: Result<List<Fixup>, Fatal>)
    ensures
        r == chain_fixups_spec(fcx@, *e),
    decreases e,
{
    match e.base() {
        None => expr_fixups(fcx, e, true),
        Some(base) => {
            let inner = chain_fixups(fcx, base)?;
            let own = expr_fixups(fcx, e, false)?;
            Ok(inner.append(own))
        },
    }
}

fn is_mut_ref(t: &Ty) -> (r: bool)
    ensures
        r == t.is_mut_ref(),
{
    match t {
        Ty::Ref(_, mt) => mt.mutbl == Mutability::Mutable,
        _ => false,
    }
}

/// Whether the method takes its receiver by mutable reference, so that the
/// places on the way to the receiver are to be resolved anew.
pub fn takes_mut_receiver(method_callee: &MethodCallee) -> (r: bool)
    ensures
        r == takes_mut_self(*method_callee),
{
    match &method_callee.ty {
        Ty::BareFn(_, f) => match f.sig.0.inputs.get(0) {
            Some(first) => is_mut_ref(first),
            None => false,
        },
        _ => false,
    }
}

/// The resolutions to run again for a confirmed call, innermost place
/// first, as the tables have them now: none unless the method takes
/// `&mut self`.
pub fn plan_fixups(fcx: &FnCtxt, method_callee: &MethodCallee, self_expr: &Expr) -> (r: Result<
    List<Fixup>,
    Fatal,
>)
    ensures
        r == fixups_spec(fcx@, *method_callee, *self_expr),
{
    if !takes_mut_receiver(method_callee) {
        return Ok(List::Nil);
    }
    chain_fixups(fcx, self_expr)
}

} // verus!
