//! The tables of one checked function: what checking recorded about each
//! node (the working tables), what writeback has made permanent, the
//! worklist of pending obligations, and the errors reported so far.
//!
//! One context owns them all and is passed by exclusive reference through
//! confirmation and writeback.

use crate::list::List;
use crate::scan::{scan_substs_spec, scan_ty_spec, FixupError};
use crate::ty::{
    Abi, Binder, DefId, Mutability, NodeId, PolyFnSig, PolyProjectionPredicate, PolyTraitRef, Region,
    Span, Substs, TraitRef, Ty, Unsafety,
};
use std::collections::HashMap;
use vstd::prelude::*;

verus! {

/// A reference taken implicitly.
#[derive(Clone, Copy, Debug, PartialEq, Eq, Structural)]
pub enum AutoRef {
    /// `&x` or `&mut x`, valid for the region.
    Ptr(Region, Mutability),
    /// A raw pointer.
    Unsafe(Mutability),
}

/// The implicit dereferences and reference of one expression: first
/// `autoderefs` dereferences, then either the reference `autoref` or, where
/// `unsize` is set, the conversion to that type.
#[derive(Debug, PartialEq, Eq)]
pub struct AutoDerefRef {
    pub autoderefs: u32,
    pub autoref: Option<AutoRef>,
    pub unsize: Option<Ty>,
}

/// What is done implicitly to the value of an expression.
#[derive(Debug, PartialEq, Eq)]
pub enum AutoAdjustment {
    ReifyFnPointer,
    UnsafeFnPointer,
    DerefRef(AutoDerefRef),
}

/// A method call that checking resolved: the call that the expression
/// itself makes, or one of the overloaded dereferences applied to it.
#[derive(Clone, Copy, Debug, PartialEq, Eq, Structural)]
pub struct MethodCall {
    pub expr_id: NodeId,
    /// 0 for the expression itself; `1 + n` for its `n`-th dereference.
    pub autoderef: u32,
}

/// A method of a trait, reached through a bound or an impl.
#[derive(Debug, PartialEq, Eq)]
pub struct MethodParam {
    pub trait_ref: TraitRef,
    pub method_num: usize,
    /// The impl that provides the method, where it is known.
    pub impl_def_id: Option<DefId>,
}

/// A method of a trait object.
#[derive(Debug, PartialEq, Eq)]
pub struct MethodObject {
    pub trait_ref: TraitRef,
    pub object_trait_id: DefId,
    pub method_num: usize,
    pub vtable_index: usize,
}

/// Where a method comes from.
#[derive(Debug, PartialEq, Eq)]
pub enum MethodOrigin {
    /// A known function, called directly.
    Static(DefId),
    TypeParam(MethodParam),
    TraitObject(MethodObject),
}

/// The record of a resolved method call.
#[derive(Debug, PartialEq, Eq)]
pub struct MethodCallee {
    pub origin: MethodOrigin,
    /// The type of the method as a function.
    pub ty: Ty,
    pub substs: Substs,
}

/// A captured variable: which variable, in which closure.
#[derive(Clone, Copy, Debug, PartialEq, Eq, Structural)]
pub struct UpvarId {
    pub var_id: NodeId,
    pub closure_expr_id: NodeId,
}

/// How a captured variable is borrowed.
#[derive(Clone, Copy, Debug, PartialEq, Eq, Structural)]
pub enum BorrowKind {
    Imm,
    UniqueImm,
    Mut,
}

/// How a closure captures a variable.
#[derive(Clone, Copy, Debug, PartialEq, Eq, Structural)]
pub enum UpvarCapture {
    ByValue,
    ByRef(BorrowKind, Region),
}

/// How one variable is captured.
#[derive(Clone, Copy, Debug, PartialEq, Eq, Structural)]
pub struct UpvarEntry {
    pub id: UpvarId,
    pub capture: UpvarCapture,
}

/// The signature of a closure.
#[derive(Debug, PartialEq, Eq)]
pub struct ClosureTy {
    pub unsafety: Unsafety,
    pub abi: Abi,
    pub sig: PolyFnSig,
}

/// The signature of one closure.
#[derive(Debug, PartialEq, Eq)]
pub struct ClosureTyEntry {
    pub def_id: DefId,
    pub ty: ClosureTy,
}

/// Which of the closure traits a closure implements.
#[derive(Clone, Copy, Debug, PartialEq, Eq, Structural)]
pub enum ClosureKind {
    Fn,
    FnMut,
    FnOnce,
}

/// The kind of one closure.
#[derive(Clone, Copy, Debug, PartialEq, Eq, Structural)]
pub struct ClosureKindEntry {
    pub def_id: DefId,
    pub kind: ClosureKind,
}

/// A requirement on types or regions.
#[derive(Debug, PartialEq, Eq)]
pub enum Predicate {
    Trait(PolyTraitRef),
    RegionOutlives(Region, Region),
    TypeOutlives(Ty, Region),
    Projection(PolyProjectionPredicate),
}

/// Where an obligation arose.
#[derive(Clone, Copy, Debug, PartialEq, Eq, Structural)]
pub struct ObligationCause {
    pub span: Span,
    /// The function in whose body it arose.
    pub body_id: NodeId,
}

/// A requirement whose proof is put off: it waits on the worklist for the
/// trait collaborator.
#[derive(Debug, PartialEq, Eq)]
pub struct Obligation {
    pub cause: ObligationCause,
    pub predicate: Predicate,
}

/// An error to show to the user, as data.
#[derive(Clone, Copy, Debug, PartialEq, Eq, Structural)]
pub enum Diagnostic {
    /// A method that takes no type parameters was given some.
    MethodTakesNoTypeParameters(Span),
    /// A method was given another number of type parameters than it takes.
    WrongNumberOfTypeParameters(Span),
    CannotDetermineExprType(Span, FixupError),
    CannotDetermineLocalType(Span, FixupError),
    CannotDeterminePatternType(Span, FixupError),
    CannotResolveUpvarLifetime(UpvarId, FixupError),
    CannotDetermineClosureType(DefId),
}

/// What is recorded per node, per closure and per captured variable.
pub struct Tables {
    pub node_types: HashMap<NodeId, Ty>,
    /// The arguments with which a node names a generic item.
    pub item_substs: HashMap<NodeId, Substs>,
    pub adjustments: HashMap<NodeId, AutoAdjustment>,
    /// The resolved method calls, by [`MethodCall::key`].
    pub method_map: HashMap<u64, MethodCallee>,
    pub upvar_capture_map: List<UpvarEntry>,
    pub closure_tys: List<ClosureTyEntry>,
    pub closure_kinds: List<ClosureKindEntry>,
}

/// The content of [`Tables`].
pub struct TablesView {
    pub node_types: Map<NodeId, Ty>,
    pub item_substs: Map<NodeId, Substs>,
    pub adjustments: Map<NodeId, AutoAdjustment>,
    pub method_map: Map<u64, MethodCallee>,
    pub upvar_capture_map: List<UpvarEntry>,
    pub closure_tys: List<ClosureTyEntry>,
    pub closure_kinds: List<ClosureKindEntry>,
}

impl View for Tables {
    type V = TablesView;

    open spec fn view(&self) -> TablesView {
        TablesView {
            node_types: self.node_types@,
            item_substs: self.item_substs@,
            adjustments: self.adjustments@,
            method_map: self.method_map@,
            upvar_capture_map: self.upvar_capture_map,
            closure_tys: self.closure_tys,
            closure_kinds: self.closure_kinds,
        }
    }
}

/// The context of the function being checked.
pub struct FnCtxt {
    /// The working tables, filled by checking and drained by writeback.
    pub inh: Tables,
    /// The permanent tables. Only writeback writes them.
    pub tcx: Tables,
    /// The types of the local variables.
    pub locals: HashMap<NodeId, Ty>,
    /// The worklist of pending obligations, oldest first.
    pub obligations: Vec<Obligation>,
    /// Whether writeback has failed to resolve something in this function.
    pub writeback_errors: bool,
    /// The number of errors reported in the session, as far as a `usize`
    /// holds it.
    pub err_count: usize,
    /// The errors that this function's checking reported, oldest first.
    pub diagnostics: Vec<Diagnostic>,
    /// The node of the function.
    pub body_id: NodeId,
}

/// The content of [`FnCtxt`].
pub struct FnCtxtView {
    pub inh: TablesView,
    pub tcx: TablesView,
    pub locals: Map<NodeId, Ty>,
    pub obligations: Seq<Obligation>,
    pub writeback_errors: bool,
    pub err_count: usize,
    pub diagnostics: Seq<Diagnostic>,
    pub body_id: NodeId,
}

impl View for FnCtxt {
    type V = FnCtxtView;

    open spec fn view(&self) -> FnCtxtView {
        FnCtxtView {
            inh: self.inh@,
            tcx: self.tcx@,
            locals: self.locals@,
            obligations: self.obligations@,
            writeback_errors: self.writeback_errors,
            err_count: self.err_count,
            diagnostics: self.diagnostics@,
            body_id: self.body_id,
        }
    }
}

impl MethodCall {
    /// The number under which the call is filed in a method map.
    pub open spec fn key(self) -> u64 {
        (self.expr_id * 0x1_0000_0000 + self.autoderef) as u64
    }

    /// The call that the expression `id` itself makes.
    pub open spec fn spec_expr(id: NodeId) -> MethodCall {
        MethodCall { expr_id: id, autoderef: 0 }
    }

    /// The overloaded dereference number `n` (from 0) of the expression `id`.
    pub open spec fn spec_autoderef(id: NodeId, n: u32) -> MethodCall {
        MethodCall {
            expr_id: id,
            autoderef: if n < u32::MAX {
                (n + 1) as u32
            } else {
                u32::MAX
            },
        }
    }

    /// The call that the expression `id` itself makes.
    pub fn expr(id: NodeId) -> (r: MethodCall)
        ensures
            r == Self::spec_expr(id),
    {
        MethodCall { expr_id: id, autoderef: 0 }
    }

    /// The overloaded dereference number `n` (from 0) of the expression
    /// `id`.
    pub fn autoderef(id: NodeId, n: u32) -> (r: MethodCall)
        ensures
            r == Self::spec_autoderef(id, n),
    {
        MethodCall {
            expr_id: id,
            autoderef: if n < u32::MAX {
                n + 1
            } else {
                u32::MAX
            },
        }
    }

    /// The number under which the call is filed in a method map.
    pub fn to_key(&self) -> (k: u64)
        ensures
            k == self.key(),
    {
        let id: u64 = self.expr_id as u64;
        let level: u64 = self.autoderef as u64;
        id * 0x1_0000_0000 + level
    }

    /// Different calls are filed under different numbers.
    pub proof fn lemma_key_injective(a: MethodCall, b: MethodCall)
        ensures
            a.key() == b.key() <==> a == b,
    {
    }
}

/// Whether an adjustment holds no placeholder.
pub open spec fn adjustment_concrete(adj: AutoAdjustment) -> bool {
    match adj {
        AutoAdjustment::DerefRef(a) => {
            &&& a.autoref matches Some(AutoRef::Ptr(r, _)) ==> !(r is Var)
            &&& a.unsize matches Some(t) ==> scan_ty_spec(0, t).unresolved is None
        },
        _ => true,
    }
}

/// Whether the record of a method call holds no placeholder.
pub open spec fn callee_concrete(callee: MethodCallee) -> bool {
    &&& scan_ty_spec(0, callee.ty).unresolved is None
    &&& scan_substs_spec(0, callee.substs).unresolved is None
    &&& match callee.origin {
        MethodOrigin::Static(_) => true,
        MethodOrigin::TypeParam(p) => scan_substs_spec(0, p.trait_ref.substs).unresolved is None,
        MethodOrigin::TraitObject(o) => scan_substs_spec(0, o.trait_ref.substs).unresolved
            is None,
    }
}

impl Clone for Predicate {
    fn clone(&self) -> (r: Self)
        ensures
            r == *self,
    {
        match self {
            Predicate::Trait(t) => Predicate::Trait(Binder(t.0.clone())),
            Predicate::RegionOutlives(a, b) => Predicate::RegionOutlives(*a, *b),
            Predicate::TypeOutlives(t, r) => Predicate::TypeOutlives(t.clone(), *r),
            Predicate::Projection(p) => Predicate::Projection(Binder(p.0.clone())),
        }
    }
}

/// A copy of a list of predicates.
pub fn clone_predicates(l: &List<Predicate>) -> (r: List<Predicate>)
    ensures
        r == *l,
    decreases l,
{
    match l {
        List::Nil => List::Nil,
        List::Cons(p, rest) => List::Cons(
            Box::new((**p).clone()),
            Box::new(clone_predicates(rest)),
        ),
    }
}

impl TablesView {
    /// Tables without entries.
    pub open spec fn empty() -> TablesView {
        TablesView {
            node_types: Map::empty(),
            item_substs: Map::empty(),
            adjustments: Map::empty(),
            method_map: Map::empty(),
            upvar_capture_map: List::Nil,
            closure_tys: List::Nil,
            closure_kinds: List::Nil,
        }
    }
}

impl Tables {
    /// Tables without entries.
    pub fn new() -> (r: Self)
        ensures
            r@ == TablesView::empty(),
    {
        Tables {
            node_types: HashMap::new(),
            item_substs: HashMap::new(),
            adjustments: HashMap::new(),
            method_map: HashMap::new(),
            upvar_capture_map: List::Nil,
            closure_tys: List::Nil,
            closure_kinds: List::Nil,
        }
    }
}

impl FnCtxt {
    /// The context of the function `body_id`, with nothing recorded, in a
    /// session that has reported `err_count` errors.
    pub fn new(body_id: NodeId, err_count: usize) -> (r: Self)
        ensures
            r@ == (FnCtxtView {
                inh: TablesView::empty(),
                tcx: TablesView::empty(),
                locals: Map::empty(),
                obligations: Seq::empty(),
                writeback_errors: false,
                err_count,
                diagnostics: Seq::empty(),
                body_id,
            }),
    {
        FnCtxt {
            inh: Tables::new(),
            tcx: Tables::new(),
            locals: HashMap::new(),
            obligations: Vec::new(),
            writeback_errors: false,
            err_count,
            diagnostics: Vec::new(),
            body_id,
        }
    }

    /// Records the type of a node in the working tables.
    pub fn write_ty(&mut self, id: NodeId, ty: Ty)
        ensures
            final(self)@ == (FnCtxtView {
                inh: TablesView {
                    node_types: old(self)@.inh.node_types.insert(id, ty),
                    ..old(self)@.inh
                },
                ..old(self)@
            }),
    {
        self.inh.node_types.insert(id, ty);
    }

    /// Records the type of a local variable.
    pub fn write_local_ty(&mut self, id: NodeId, ty: Ty)
        ensures
            final(self)@ == (FnCtxtView { locals: old(self)@.locals.insert(id, ty), ..old(self)@ }),
    {
        self.locals.insert(id, ty);
    }

    /// Records the arguments with which a node names a generic item.
    pub fn write_substs(&mut self, id: NodeId, substs: Substs)
        ensures
            final(self)@ == (FnCtxtView {
                inh: TablesView {
                    item_substs: old(self)@.inh.item_substs.insert(id, substs),
                    ..old(self)@.inh
                },
                ..old(self)@
            }),
    {
        self.inh.item_substs.insert(id, substs);
    }

    /// Records the adjustment of a node in the working tables.
    pub fn write_adjustment(&mut self, id: NodeId, adj: AutoAdjustment)
        ensures
            final(self)@ == (FnCtxtView {
                inh: TablesView {
                    adjustments: old(self)@.inh.adjustments.insert(id, adj),
                    ..old(self)@.inh
                },
                ..old(self)@
            }),
    {
        self.inh.adjustments.insert(id, adj);
    }

    /// Records a resolved method call in the working tables.
    pub fn write_method(&mut self, call: MethodCall, callee: MethodCallee)
        ensures
            final(self)@ == (FnCtxtView {
                inh: TablesView {
                    method_map: old(self)@.inh.method_map.insert(call.key(), callee),
                    ..old(self)@.inh
                },
                ..old(self)@
            }),
    {
        self.inh.method_map.insert(call.to_key(), callee);
    }

    /// The type that checking recorded for a node.
    pub fn node_ty(&self, id: NodeId) -> (r: Option<Ty>)
        ensures
            r == (if self@.inh.node_types.contains_key(id) {
                Some(self@.inh.node_types[id])
            } else {
                None
            }),
    {
        match self.inh.node_types.get(&id) {
            Some(t) => Some(t.clone()),
            None => None,
        }
    }

    /// The type of a local variable.
    pub fn local_ty(&self, id: NodeId) -> (r: Option<Ty>)
        ensures
            r == (if self@.locals.contains_key(id) {
                Some(self@.locals[id])
            } else {
                None
            }),
    {
        match self.locals.get(&id) {
            Some(t) => Some(t.clone()),
            None => None,
        }
    }

    /// Puts an obligation at the end of the worklist.
    pub fn register_obligation(&mut self, obligation: Obligation)
        ensures
            final(self)@ == (FnCtxtView {
                obligations: old(self)@.obligations.push(obligation),
                ..old(self)@
            }),
    {
        self.obligations.push(obligation);
    }

    /// Reports an error to the session.
    pub fn span_err(&mut self, diagnostic: Diagnostic)
        ensures
            final(self)@ == (FnCtxtView {
                diagnostics: old(self)@.diagnostics.push(diagnostic),
                err_count: if old(self)@.err_count < usize::MAX {
                    (old(self)@.err_count + 1) as usize
                } else {
                    usize::MAX
                },
                ..old(self)@
            }),
    {
        self.diagnostics.push(diagnostic);
        if self.err_count < usize::MAX {
            self.err_count = self.err_count + 1;
        }
    }
}

/// Makes the type of a node permanent. The type holds no placeholder.
pub fn write_ty_to_tcx(fcx: &mut FnCtxt, node_id: NodeId, ty: Ty)
    requires
        scan_ty_spec(0, ty).unresolved is None,
    ensures
        final(fcx)@ == (FnCtxtView {
            tcx: TablesView {
                node_types: old(fcx)@.tcx.node_types.insert(node_id, ty),
                ..old(fcx)@.tcx
            },
            ..old(fcx)@
        }),
{
    fcx.tcx.node_types.insert(node_id, ty);
}

/// A substitution without arguments.
pub open spec fn is_noop(substs: Substs) -> bool {
    substs.types.types is Nil && substs.types.selfs is Nil && substs.types.fns is Nil && match substs.regions {
        crate::ty::RegionSubsts::Erased => true,
        crate::ty::RegionSubsts::NonErased(r) => r.types is Nil && r.selfs is Nil && r.fns is Nil,
    }
}

/// Makes the arguments with which a node names an item permanent, unless
/// there are none. The arguments hold no placeholder.
pub fn write_substs_to_tcx(fcx: &mut FnCtxt, node_id: NodeId, item_substs: Substs)
    requires
        scan_substs_spec(0, item_substs).unresolved is None,
    ensures
        is_noop(item_substs) ==> final(fcx)@ == old(fcx)@,
        !is_noop(item_substs) ==> final(fcx)@ == (FnCtxtView {
            tcx: TablesView {
                item_substs: old(fcx)@.tcx.item_substs.insert(node_id, item_substs),
                ..old(fcx)@.tcx
            },
            ..old(fcx)@
        }),
{
    let no_regions = match &item_substs.regions {
        crate::ty::RegionSubsts::Erased => true,
        crate::ty::RegionSubsts::NonErased(r) => r.types.is_empty() && r.selfs.is_empty()
            && r.fns.is_empty(),
    };
    let noop = item_substs.types.types.is_empty() && item_substs.types.selfs.is_empty()
        && item_substs.types.fns.is_empty() && no_regions;
    if !noop {
        fcx.tcx.item_substs.insert(node_id, item_substs);
    }
}

} // verus!
