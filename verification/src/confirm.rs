//! Method confirmation: making a fully typed call of the candidate that
//! probing picked.
//!
//! The steps, none of which can be left out: adjust the receiver as the
//! pick says and record the adjustment; reject a direct call of a
//! destructor; build the substitution of the receiver and the origin of the
//! method from the kind of the pick; give the method's own parameters their
//! arguments; merge the two substitutions; instantiate the signature and the
//! bounds of the method; unify the adjusted receiver with the first
//! parameter; register the bounds as obligations; and plan how the receiver
//! is made mutable where the method takes `&mut self`.
//!
//! The trait collaborator is asked on the way, and confirmation stops where
//! it needs an answer: for the upcast of the trait of an object
//! ([`Confirming::Upcast`]), and for the instantiated signature and bounds
//! with their projections normalized ([`Confirming::Normalize`]). The caller
//! asks, and resumes with the answer. The receiver is unified under the
//! relation that the caller hands in. A broken guarantee of an earlier phase
//! ends confirmation with a [`Fatal`] error.

use crate::adjust::{
    adjust_ty_for_autoref, adjust_ty_for_autoref_spec, adjust_ty_spec, autoderef, autoderef_spec,
};
use crate::ast::Expr;
use crate::fixup::{fixups_spec, plan_fixups, Fixup};
use crate::ctxt::{find_impl, find_trait, has_def_id, Ctxt, Generics};
use crate::fold::{
    deeper, fold_fn_sig, fold_fn_sig_spec, fold_projection_predicate,
    fold_projection_predicate_spec, fold_region, fold_region_spec, fold_trait_ref,
    fold_trait_ref_spec, fold_ty, fold_ty_spec, Folder,
};
use crate::infer::{
    advanced, lemma_all_minted_before_exhaustion, region_vars_from, ty_vars_from, InferCtxt,
};
use crate::list::List;
use crate::probe::{Container, Method, Pick, PickKind};
use crate::relate::{relate_tys, relate_tys_spec, TypeRelation};
use crate::scan::{scan_fn_sig, scan_fn_sig_spec, scan_trait_ref, scan_trait_ref_spec};
use crate::tables::{
    AutoAdjustment, AutoDerefRef, AutoRef, Diagnostic, FnCtxt, FnCtxtView, MethodCallee,
    MethodObject, MethodOrigin, MethodParam, Obligation, ObligationCause, Predicate, TablesView,
};
use crate::ty::{
    Abi, BareFnTy, Binder, DefId, FnSig, NodeId, PerSpace, PolyTraitRef, Region, RegionSubsts,
    Span, Substs, TraitRef, TraitTy, Ty, TypeError, Unsafety,
};
use vstd::prelude::*;

verus! {

/// A guarantee of an earlier phase that does not hold.
#[derive(Debug, PartialEq, Eq)]
pub enum Bug {
    /// The pick converts the receiver to an unsized type without taking a
    /// reference of it.
    UnsizeWithoutAutoref,
    /// The pick counts `expected` implicit dereferences, and only `found`
    /// can be done.
    AutoderefMismatch { expected: u32, found: u32 },
    /// The context does not know the impl.
    UnknownImpl(DefId),
    /// The context does not know the trait.
    UnknownTrait(DefId),
    /// The impl of an inherent pick implements a trait.
    NotAnInherentImpl(DefId),
    /// The impl of an extension pick implements no trait.
    NoTraitForImpl(DefId),
    /// The method of an impl is a destructor.
    DestructorInImpl(DefId),
    /// The receiver of an object pick never dereferences to an object.
    NotAnObject,
    /// The collaborator gave that many upcasts where exactly one is due.
    AmbiguousUpcast(usize),
    /// The collaborator gave an upcast to the trait `given` where one to
    /// the trait `asked` was asked for.
    UpcastToOtherTrait { asked: DefId, given: DefId },
    /// A counter of the oracle has reached its last number, so not every
    /// placeholder that was asked for may have been minted.
    PlaceholdersExhausted,
    /// The method has no receiver.
    MethodWithoutReceiver,
    /// The receiver does not unify with the first parameter of the method.
    ReceiverMismatch(TypeError),
    /// No type is recorded for a node whose type is read.
    NoTypeForNode(NodeId),
    /// The adjustment of the base of an index takes a raw reference.
    UnexpectedAutoref,
    /// The adjustment of the base of an index is no dereference.
    UnexpectedAdjustment,
    /// The base of an index is converted to a type that is no reference.
    UnsizeTargetNotReference,
}

/// An error that ends the compilation.
#[derive(Debug, PartialEq, Eq)]
pub enum Fatal {
    /// The compiler itself is broken.
    Bug(Span, Bug),
    /// The program calls a destructor by name.
    ExplicitDestructorCall(Span),
}

/// The signature of a method with every parameter instantiated.
#[derive(Debug, PartialEq, Eq)]
pub struct InstantiatedMethodSig {
    /// The signature. Its first input is the receiver.
    pub method_sig: FnSig,
    /// The arguments for all parameters, of the receiver and of the method.
    pub all_substs: Substs,
    /// The bounds of the method, to be registered as obligations.
    pub method_predicates: List<Predicate>,
}

/// Confirmation of an object pick, waiting for the upcast of `source` to
/// the trait `target`.
#[derive(Debug, PartialEq, Eq)]
pub struct AwaitingUpcast {
    pub self_ty: Ty,
    pub source: PolyTraitRef,
    pub target: DefId,
    pub pick: Pick,
    pub supplied_method_types: List<Ty>,
}

/// Confirmation waiting for `instantiated.method_sig` and
/// `instantiated.method_predicates` to be normalized.
#[derive(Debug, PartialEq, Eq)]
pub struct AwaitingNormalization {
    pub self_ty: Ty,
    pub origin: MethodOrigin,
    pub instantiated: InstantiatedMethodSig,
    pub unsafety: Unsafety,
    pub abi: Abi,
}

/// Where confirmation stands when it needs an answer.
#[derive(Debug, PartialEq, Eq)]
pub enum Confirming {
    Upcast(AwaitingUpcast),
    Normalize(AwaitingNormalization),
}

/// A confirmed call.
#[derive(Debug, PartialEq, Eq)]
pub struct Confirmed {
    pub callee: MethodCallee,
    /// The type of the adjusted receiver. It has been unified with the
    /// first parameter of the method under the relation of the caller; the
    /// oracle is to note that it is a subtype of that parameter.
    pub self_ty: Ty,
    /// The resolutions to run again, in this order, innermost expression
    /// first.
    pub fixups: List<Fixup>,
}

/// What confirmation has minted: the counters of `after` are those of
/// `before` advanced by `tys` and `regions`, and the answers are untouched.
pub open spec fn minted(before: InferCtxt, after: InferCtxt, tys: nat, regions: nat) -> bool {
    &&& after.next_ty_var == advanced(before.next_ty_var, tys)
    &&& after.next_region_var == advanced(before.next_region_var, regions)
    &&& after.type_solutions == before.type_solutions
    &&& after.region_solutions == before.region_solutions
}

// ---------------------------------------------------------------------------
// Predicates
/// A predicate rewritten from its leaves.
pub open spec fn fold_predicate_spec(f: Folder, depth: u32, p: Predicate) -> Predicate {
    match p {
        Predicate::Trait(t) => Predicate::Trait(
            Binder(fold_trait_ref_spec(f, deeper(depth), t.0)),
        ),
        Predicate::RegionOutlives(a, b) => Predicate::RegionOutlives(
            fold_region_spec(f, depth, a),
            fold_region_spec(f, depth, b),
        ),
        Predicate::TypeOutlives(t, r) => Predicate::TypeOutlives(
            fold_ty_spec(f, depth, t),
            fold_region_spec(f, depth, r),
        ),
        Predicate::Projection(p) => Predicate::Projection(
            Binder(fold_projection_predicate_spec(f, deeper(depth), p.0)),
        ),
    }
}

/// Each predicate of a list rewritten.
pub open spec fn fold_predicates_spec(f: Folder, depth: u32, l: List<Predicate>) -> List<Predicate>
    decreases l,
{
    match l {
        List::Nil => List::Nil,
        List::Cons(p, rest) => List::Cons(
            Box::new(fold_predicate_spec(f, depth, *p)),
            Box::new(fold_predicates_spec(f, depth, *rest)),
        ),
    }
}

fn fold_predicate(f: &Folder, depth: u32, p: &Predicate) -> (r: Predicate)
    ensures
        r == fold_predicate_spec(*f, depth, *p),
{
    let inner = if depth < u32::MAX {
        depth + 1
    } else {
        depth
    };
    match p {
        Predicate::Trait(t) => Predicate::Trait(Binder(fold_trait_ref(f, inner, &t.0))),
        Predicate::RegionOutlives(a, b) => Predicate::RegionOutlives(
            fold_region(f, depth, *a),
            fold_region(f, depth, *b),
        ),
        Predicate::TypeOutlives(t, r) => Predicate::TypeOutlives(
            fold_ty(f, depth, t),
            fold_region(f, depth, *r),
        ),
        Predicate::Projection(p) => Predicate::Projection(
            Binder(fold_projection_predicate(f, inner, &p.0)),
        ),
    }
}

/// Rewrites each of a list of predicates.
pub fn fold_predicates(f: &Folder, depth: u32, l: &List<Predicate>) -> (r: List<Predicate>)
    ensures
        r == fold_predicates_spec(*f, depth, *l),
    decreases l,
{
    match l {
        List::Nil => List::Nil,
        List::Cons(p, rest) => List::Cons(
            Box::new(fold_predicate(f, depth, p)),
            Box::new(fold_predicates(f, depth, rest)),
        ),
    }
}

// ---------------------------------------------------------------------------
// What the steps compute
/// `n` error types.
pub open spec fn error_types(n: nat) -> List<Ty>
    decreases n,
{
    if n == 0 {
        List::Nil
    } else {
        List::Cons(Box::new(Ty::Error), Box::new(error_types((n - 1) as nat)))
    }
}

/// The reference that the pick takes of the receiver, valid for the region
/// placeholder `region_var`.
pub open spec fn self_autoref(pick: Pick, region_var: u32) -> Option<AutoRef> {
    match pick.autoref {
        Some(mutbl) => Some(AutoRef::Ptr(Region::Var(region_var), mutbl)),
        None => None,
    }
}

/// The adjustment that the pick makes of the receiver.
pub open spec fn self_adjustment(pick: Pick, region_var: u32) -> AutoDerefRef {
    AutoDerefRef {
        autoderefs: pick.autoderefs,
        autoref: self_autoref(pick, region_var),
        unsize: match pick.unsize {
            Some(target) => Some(
                adjust_ty_for_autoref_spec(target, self_autoref(pick, region_var)),
            ),
            None => None,
        },
    }
}

/// The arguments for the parameters of an impl: fresh placeholders.
pub open spec fn impl_substs(generics: Generics, ty_base: u32, region_base: u32) -> Substs {
    Substs {
        types: PerSpace {
            types: ty_vars_from(ty_base, generics.types as nat),
            selfs: List::Nil,
            fns: List::Nil,
        },
        regions: RegionSubsts::NonErased(
            PerSpace {
                types: region_vars_from(region_base, generics.regions as nat),
                selfs: List::Nil,
                fns: List::Nil,
            },
        ),
    }
}

/// The arguments for the parameters of a trait: a fresh placeholder for
/// the implementing type, then one for each parameter.
pub open spec fn trait_substs(generics: Generics, ty_base: u32, region_base: u32) -> Substs {
    Substs {
        types: PerSpace {
            types: ty_vars_from(advanced(ty_base, 1), generics.types as nat),
            selfs: List::Cons(Box::new(Ty::Infer(ty_base)), Box::new(List::Nil)),
            fns: List::Nil,
        },
        regions: RegionSubsts::NonErased(
            PerSpace {
                types: region_vars_from(region_base, generics.regions as nat),
                selfs: List::Nil,
                fns: List::Nil,
            },
        ),
    }
}

/// The trait reference under the binder, with the regions that the binder
/// binds replaced by the placeholders from `region_base` on.
pub open spec fn opened_trait_ref(b: PolyTraitRef, region_base: u32) -> TraitRef {
    fold_trait_ref_spec(Folder::Open(region_base), 1, b.0)
}

/// The substitution of the receiver and the origin of the method, with
/// the numbers of type and region placeholders minted for them.
pub struct Receiver {
    pub substs: Substs,
    pub origin: MethodOrigin,
    pub tys: nat,
    pub regions: nat,
}

/// The type of an object through which a method is called: the first
/// trait object that the receiver dereferences to.
pub open spec fn object_of(t: Ty) -> Option<Ty>
    decreases t,
{
    if t is Trait {
        Some(t)
    } else {
        match t {
            Ty::Uniq(inner) => object_of(*inner),
            Ty::Ref(_, mt) => object_of(*mt.ty),
            _ => None,
        }
    }
}

/// The principal trait of an object, with the type of the object itself as
/// the implementing type.
pub open spec fn principal_trait_ref_with_self_ty(data: TraitTy, self_ty: Ty) -> PolyTraitRef {
    Binder(
        TraitRef {
            def_id: data.principal.0.def_id,
            substs: Substs {
                types: PerSpace {
                    types: data.principal.0.substs.types.types,
                    selfs: List::Cons(Box::new(self_ty), Box::new(List::Nil)),
                    fns: data.principal.0.substs.types.fns,
                },
                regions: data.principal.0.substs.regions,
            },
        },
    )
}

/// The arguments of the method's own type parameters: placeholders if none
/// are supplied, the supplied ones if their number is right, and otherwise
/// as many as the method takes, placeholders if it takes none and error
/// types if it takes some.
pub open spec fn method_types_spec(pick: Pick, supplied: List<Ty>, ty_base: u32) -> List<Ty> {
    if supplied.len() == 0 || pick.item.type_params == 0 {
        ty_vars_from(ty_base, pick.item.type_params as nat)
    } else if supplied.len() != pick.item.type_params {
        error_types(pick.item.type_params as nat)
    } else {
        supplied
    }
}

/// The number of type placeholders minted for the method's own parameters.
pub open spec fn method_ty_vars(pick: Pick, supplied: List<Ty>) -> nat {
    if supplied.len() == 0 || pick.item.type_params == 0 {
        pick.item.type_params as nat
    } else {
        0
    }
}

/// The error in the type arguments that the call supplies, if there is one.
pub open spec fn method_types_error(pick: Pick, supplied: List<Ty>, span: Span) -> Option<
    Diagnostic,
> {
    if supplied.len() == 0 {
        None
    } else if pick.item.type_params == 0 {
        Some(Diagnostic::MethodTakesNoTypeParameters(span))
    } else if supplied.len() != pick.item.type_params {
        Some(Diagnostic::WrongNumberOfTypeParameters(span))
    } else {
        None
    }
}

/// The substitution of the receiver with the arguments of the method's own
/// parameters in the space of the method.
pub open spec fn with_method_spec(rcvr: Substs, types: List<Ty>, regions: List<Region>) -> Substs {
    Substs {
        types: PerSpace { types: rcvr.types.types, selfs: rcvr.types.selfs, fns: types },
        regions: match rcvr.regions {
            RegionSubsts::Erased => RegionSubsts::Erased,
            RegionSubsts::NonErased(r) => RegionSubsts::NonErased(
                PerSpace { types: r.types, selfs: r.selfs, fns: regions },
            ),
        },
    }
}

/// The signature and the bounds of the picked method under `all_substs`,
/// the regions that the signature binds replaced by the placeholders from
/// `region_base` on.
pub open spec fn instantiate_method_sig_spec(
    pick: Pick,
    all_substs: Substs,
    region_base: u32,
) -> InstantiatedMethodSig {
    InstantiatedMethodSig {
        method_sig: fold_fn_sig_spec(
            Folder::Subst(&all_substs),
            0,
            fold_fn_sig_spec(Folder::Open(region_base), 1, pick.item.fty.sig.0),
        ),
        all_substs,
        method_predicates: fold_predicates_spec(
            Folder::Subst(&all_substs),
            0,
            pick.item.predicates,
        ),
    }
}

/// The number of regions that the signature of the picked method binds.
pub open spec fn late_bound_regions(pick: Pick) -> nat {
    scan_fn_sig_spec(1, pick.item.fty.sig.0).bound as nat
}

/// What confirmation asks to be normalized, once the receiver has its
/// substitution: the placeholders for the method's own parameters are
/// minted from `ty_base` and `region_base` on.
pub open spec fn normalization_request(
    self_ty: Ty,
    rcvr: Substs,
    origin: MethodOrigin,
    pick: Pick,
    supplied: List<Ty>,
    ty_base: u32,
    region_base: u32,
) -> AwaitingNormalization {
    let all_substs = with_method_spec(
        rcvr,
        method_types_spec(pick, supplied, ty_base),
        region_vars_from(region_base, pick.item.region_params as nat),
    );
    AwaitingNormalization {
        self_ty,
        origin,
        instantiated: instantiate_method_sig_spec(
            pick,
            all_substs,
            advanced(region_base, pick.item.region_params as nat),
        ),
        unsafety: pick.item.fty.unsafety,
        abi: pick.item.fty.abi,
    }
}

/// The obligations for the bounds of a method, in the order of the bounds.
pub open spec fn predicate_obligations(cause: ObligationCause, l: List<Predicate>) -> Seq<Obligation>
    decreases l,
{
    match l {
        List::Nil => Seq::empty(),
        List::Cons(p, rest) => seq![Obligation { cause, predicate: *p }] + predicate_obligations(
            cause,
            *rest,
        ),
    }
}

/// The obligations that each of the types outlives the region.
pub open spec fn outlives_obligations(cause: ObligationCause, l: List<Ty>, r: Region) -> Seq<
    Obligation,
>
    decreases l,
{
    match l {
        List::Nil => Seq::empty(),
        List::Cons(t, rest) => seq![
            Obligation { cause, predicate: Predicate::TypeOutlives(*t, r) },
        ] + outlives_obligations(cause, *rest, r),
    }
}

/// The default bounds of a call: each type argument outlives the call.
pub open spec fn default_region_bounds(cause: ObligationCause, substs: Substs, call: NodeId) -> Seq<
    Obligation,
> {
    outlives_obligations(cause, substs.types.types, Region::Scope(call)) + outlives_obligations(
        cause,
        substs.types.selfs,
        Region::Scope(call),
    ) + outlives_obligations(cause, substs.types.fns, Region::Scope(call))
}

/// The context with an adjustment recorded for a node.
pub open spec fn recorded(s: FnCtxtView, id: NodeId, adj: AutoAdjustment) -> FnCtxtView {
    FnCtxtView { inh: TablesView { adjustments: s.inh.adjustments.insert(id, adj), ..s.inh }, ..s }
}

/// The context with an error reported, if there is one.
pub open spec fn reported(s: FnCtxtView, d: Option<Diagnostic>) -> FnCtxtView {
    match d {
        None => s,
        Some(d) => FnCtxtView {
            diagnostics: s.diagnostics.push(d),
            err_count: if s.err_count < usize::MAX {
                (s.err_count + 1) as usize
            } else {
                usize::MAX
            },
            ..s
        },
    }
}

/// The context with obligations added at the end of the worklist.
pub open spec fn obliged(s: FnCtxtView, more: Seq<Obligation>) -> FnCtxtView {
    FnCtxtView { obligations: s.obligations + more, ..s }
}

// ---------------------------------------------------------------------------
// The steps
fn len_is<T>(l: &List<T>, n: u32) -> (r: bool)
    ensures
        r == (l.len() == n),
    decreases l,
{
    match l {
        List::Nil => n == 0,
        List::Cons(_, rest) => n > 0 && len_is(rest, n - 1),
    }
}

fn errors(n: u32) -> (r: List<Ty>)
    ensures
        r == error_types(n as nat),
    decreases n,
{
    if n == 0 {
        List::Nil
    } else {
        List::Cons(Box::new(Ty::Error), Box::new(errors(n - 1)))
    }
}

fn reserve_region_vars(infcx: &mut InferCtxt, n: u32) -> (base: u32)
    ensures
        base == old(infcx).next_region_var,
        minted(*old(infcx), *final(infcx), 0, n as nat),
{
    let base = infcx.next_region_var;
    infcx.next_region_var = if n <= u32::MAX - base {
        base + n
    } else {
        u32::MAX
    };
    base
}

fn find_object(t: &Ty) -> (r: Option<&Ty>)
    ensures
        r == match object_of(*t) {
            Some(obj) => Some(&obj),
            None => None,
        },
    decreases t,
{
    match t {
        Ty::Trait(_) => Some(t),
        Ty::Uniq(inner) => find_object(inner),
        Ty::Ref(_, mt) => find_object(&mt.ty),
        _ => None,
    }
}

fn register_predicates(fcx: &mut FnCtxt, cause: ObligationCause, l: &List<Predicate>)
    ensures
        final(fcx)@ == obliged(old(fcx)@, predicate_obligations(cause, *l)),
    decreases l,
{
    match l {
        List::Nil => {
            assert(fcx@.obligations + Seq::<Obligation>::empty() =~= fcx@.obligations);
        },
        List::Cons(p, rest) => {
            let predicate = (**p).clone();
            fcx.register_obligation(Obligation { cause, predicate });
            register_predicates(fcx, cause, rest);
            assert(old(fcx)@.obligations.push(Obligation { cause, predicate: **p })
                + predicate_obligations(cause, **rest) =~= old(fcx)@.obligations
                + predicate_obligations(cause, *l));
        },
    }
}

fn register_outlives(fcx: &mut FnCtxt, cause: ObligationCause, l: &List<Ty>, r: Region)
    ensures
        final(fcx)@ == obliged(old(fcx)@, outlives_obligations(cause, *l, r)),
    decreases l,
{
    match l {
        List::Nil => {
            assert(fcx@.obligations + Seq::<Obligation>::empty() =~= fcx@.obligations);
        },
        List::Cons(t, rest) => {
            fcx.register_obligation(
                Obligation { cause, predicate: Predicate::TypeOutlives((**t).clone(), r) },
            );
            register_outlives(fcx, cause, rest, r);
            assert(old(fcx)@.obligations.push(
                Obligation { cause, predicate: Predicate::TypeOutlives(**t, r) },
            ) + outlives_obligations(cause, **rest, r) =~= old(fcx)@.obligations
                + outlives_obligations(cause, *l, r));
        },
    }
}

/// What one confirmation works on: the call and its receiver.
pub struct ConfirmContext<'a> {
    pub tcx: &'a Ctxt,
    pub span: Span,
    pub self_expr: &'a Expr,
    pub call_expr: &'a Expr,
}

impl<'a> ConfirmContext<'a> {
    /// Why the receiver cannot be adjusted as the pick says, if it cannot.
    pub open spec fn adjust_self_ty_error(self, s: FnCtxtView, unadjusted: Ty, pick: Pick) -> Option<
        Fatal,
    > {
        let done = autoderef_spec(
            s.inh.method_map,
            Some(self.self_expr.id),
            unadjusted,
            0,
            pick.autoderefs,
        ).1;
        if pick.autoref is None && pick.unsize is Some {
            Some(Fatal::Bug(self.span, Bug::UnsizeWithoutAutoref))
        } else if done != pick.autoderefs {
            Some(
                Fatal::Bug(
                    self.span,
                    Bug::AutoderefMismatch { expected: pick.autoderefs, found: done },
                ),
            )
        } else {
            None
        }
    }

    /// Why the picked method may not be called, if it may not.
    pub open spec fn illegal_method_error(self, pick: Pick) -> Option<Fatal> {
        match pick.item.container {
            Container::Trait(trait_def_id) => if self.tcx.drop_trait == Some(trait_def_id) {
                Some(Fatal::ExplicitDestructorCall(self.span))
            } else {
                None
            },
            Container::Impl(_) => if has_def_id(self.tcx.destructors, pick.item.def_id) {
                Some(Fatal::Bug(self.span, Bug::DestructorInImpl(pick.item.def_id)))
            } else {
                None
            },
        }
    }

    /// The substitution of the receiver and the origin of the method, by the
    /// kind of the pick. `candidates` is the answer of the trait collaborator
    /// to the upcast that an object pick asks for.
    pub open spec fn receiver_spec(
        self,
        pick: Pick,
        self_ty: Ty,
        candidates: List<PolyTraitRef>,
        ty_base: u32,
        region_base: u32,
    ) -> Result<Receiver, Bug> {
        match pick.kind {
            PickKind::InherentImpl(impl_def_id) => match find_impl(self.tcx.impls, impl_def_id) {
                None => Err(Bug::UnknownImpl(impl_def_id)),
                Some(imp) => if imp.trait_ref is Some {
                    Err(Bug::NotAnInherentImpl(impl_def_id))
                } else {
                    Ok(
                        Receiver {
                            substs: impl_substs(imp.generics, ty_base, region_base),
                            origin: MethodOrigin::Static(pick.item.def_id),
                            tys: imp.generics.types as nat,
                            regions: imp.generics.regions as nat,
                        },
                    )
                },
            },
            PickKind::Object(trait_def_id, method_num, vtable_index) => if object_of(self_ty)
                is None {
                Err(Bug::NotAnObject)
            } else if candidates.len() != 1 {
                Err(Bug::AmbiguousUpcast(candidates.count()))
            } else if candidates.at(0).0.def_id != trait_def_id {
                Err(
                    Bug::UpcastToOtherTrait {
                        asked: trait_def_id,
                        given: candidates.at(0).0.def_id,
                    },
                )
            } else {
                let trait_ref = opened_trait_ref(candidates.at(0), region_base);
                Ok(
                    Receiver {
                        substs: trait_ref.substs,
                        origin: MethodOrigin::TraitObject(
                            MethodObject {
                                trait_ref,
                                object_trait_id: trait_def_id,
                                method_num,
                                vtable_index,
                            },
                        ),
                        tys: 0,
                        regions: scan_trait_ref_spec(1, candidates.at(0).0).bound as nat,
                    },
                )
            },
            PickKind::ExtensionImpl(impl_def_id, method_num) => match find_impl(
                self.tcx.impls,
                impl_def_id,
            ) {
                None => Err(Bug::UnknownImpl(impl_def_id)),
                Some(imp) => match imp.trait_ref {
                    None => Err(Bug::NoTraitForImpl(impl_def_id)),
                    Some(template) => {
                        let substs = impl_substs(imp.generics, ty_base, region_base);
                        let trait_ref = fold_trait_ref_spec(Folder::Subst(&substs), 0, template);
                        Ok(
                            Receiver {
                                substs: trait_ref.substs,
                                origin: MethodOrigin::TypeParam(
                                    MethodParam {
                                        trait_ref,
                                        method_num,
                                        impl_def_id: Some(impl_def_id),
                                    },
                                ),
                                tys: imp.generics.types as nat,
                                regions: imp.generics.regions as nat,
                            },
                        )
                    },
                },
            },
            PickKind::Trait(trait_def_id, method_num) => match find_trait(
                self.tcx.traits,
                trait_def_id,
            ) {
                None => Err(Bug::UnknownTrait(trait_def_id)),
                Some(def) => {
                    let substs = trait_substs(def.generics, ty_base, region_base);
                    Ok(
                        Receiver {
                            substs,
                            origin: MethodOrigin::TypeParam(
                                MethodParam {
                                    trait_ref: TraitRef { def_id: trait_def_id, substs },
                                    method_num,
                                    impl_def_id: None,
                                },
                            ),
                            tys: (def.generics.types + 1) as nat,
                            regions: def.generics.regions as nat,
                        },
                    )
                },
            },
            PickKind::WhereClause(poly_trait_ref, method_num) => {
                let trait_ref = opened_trait_ref(poly_trait_ref, region_base);
                Ok(
                    Receiver {
                        substs: trait_ref.substs,
                        origin: MethodOrigin::TypeParam(
                            MethodParam { trait_ref, method_num, impl_def_id: None },
                        ),
                        tys: 0,
                        regions: scan_trait_ref_spec(1, poly_trait_ref.0).bound as nat,
                    },
                )
            },
        }
    }

    /// The context of the confirmation of one call.
    pub fn new(tcx: &'a Ctxt, span: Span, self_expr: &'a Expr, call_expr: &'a Expr) -> (r: Self)
        ensures
            r == (ConfirmContext { tcx, span, self_expr, call_expr }),
    {
        ConfirmContext { tcx, span, self_expr, call_expr }
    }

    /// The type context.
    pub fn tcx(&self) -> (r: &'a Ctxt)
        ensures
            r == self.tcx,
    {
        self.tcx
    }

    /// Adjusts the receiver as the pick says: replays the implicit
    /// dereferences that it counts, takes the reference or makes the
    /// conversion that it names, and records the adjustment for the receiver
    /// expression. The result is the type of the adjusted receiver, which is
    /// the type that the recorded adjustment gives when it is replayed.
    pub fn adjust_self_ty(
        &self,
        fcx: &mut FnCtxt,
        infcx: &mut InferCtxt,
        unadjusted_self_ty: Ty,
        pick: &Pick,
    ) -> (r: Result<Ty, Fatal>)
        ensures
            match r {
                Err(fatal) => Some(fatal) == self.adjust_self_ty_error(
                    old(fcx)@,
                    unadjusted_self_ty,
                    *pick,
                ) && final(fcx)@ == old(fcx)@ && minted(*old(infcx), *final(infcx), 0, 0),
                Ok(self_ty) => {
                    &&& self.adjust_self_ty_error(old(fcx)@, unadjusted_self_ty, *pick) is None
                    &&& Some(self_ty) == adjust_ty_spec(
                        final(fcx)@.inh.method_map,
                        self.self_expr.id,
                        unadjusted_self_ty,
                        self_adjustment(*pick, old(infcx).next_region_var),
                    )
                    &&& final(fcx)@ == recorded(
                        old(fcx)@,
                        self.self_expr.id,
                        AutoAdjustment::DerefRef(
                            self_adjustment(*pick, old(infcx).next_region_var),
                        ),
                    )
                    &&& minted(
                        *old(infcx),
                        *final(infcx),
                        0,
                        if pick.autoref is Some {
                            1
                        } else {
                            0
                        },
                    )
                },
            },
    {
        if pick.autoref.is_none() && pick.unsize.is_some() {
            // Only a reference is converted to an unsized type.
            return Err(Fatal::Bug(self.span, Bug::UnsizeWithoutAutoref));
        }
        let (autoderefd_ty, n) = autoderef(
            fcx,
            Some(self.self_expr.id),
            unadjusted_self_ty,
            0,
            pick.autoderefs,
        );
        if n != pick.autoderefs {
            return Err(
                Fatal::Bug(
                    self.span,
                    Bug::AutoderefMismatch { expected: pick.autoderefs, found: n },
                ),
            );
        }
        let (autoref, unsize) = match pick.autoref {
            Some(mutbl) => {
                let region = infcx.next_region_var();
                let autoref = AutoRef::Ptr(region, mutbl);
                (
                    Some(autoref),
                    match &pick.unsize {
                        Some(target) => Some(adjust_ty_for_autoref(target.clone(), Some(autoref))),
                        None => None,
                    },
                )
            },
            None => (None, None),
        };
        let self_ty = match &unsize {
            Some(target) => target.clone(),
            None => adjust_ty_for_autoref(autoderefd_ty, autoref),
        };
        fcx.write_adjustment(
            self.self_expr.id,
            AutoAdjustment::DerefRef(AutoDerefRef { autoderefs: pick.autoderefs, autoref, unsize }),
        );
        Ok(self_ty)
    }

    /// Rejects a call of a destructor: by name through the trait of
    /// destructors, or, which no earlier phase lets through, through an impl.
    pub fn enforce_illegal_method_limitations(&self, pick: &Pick) -> (r: Result<(), Fatal>)
        ensures
            r == match self.illegal_method_error(*pick) {
                Some(fatal) => Err(fatal),
                None => Ok(()),
            },
    {
        match pick.item.container {
            Container::Trait(trait_def_id) => {
                let is_drop = match self.tcx.drop_trait {
                    Some(d) => d == trait_def_id,
                    None => false,
                };
                if is_drop {
                    Err(Fatal::ExplicitDestructorCall(self.span))
                } else {
                    Ok(())
                }
            },
            Container::Impl(_) => {
                if self.tcx.is_destructor(pick.item.def_id) {
                    Err(Fatal::Bug(self.span, Bug::DestructorInImpl(pick.item.def_id)))
                } else {
                    Ok(())
                }
            },
        }
    }

    /// The object through which an object pick calls, and the principal
    /// trait of the object with the object as the implementing type: what
    /// the trait collaborator is asked to upcast.
    pub fn extract_trait_ref(&self, self_ty: &Ty) -> (r: Result<(Ty, PolyTraitRef), Fatal>)
        ensures
            r == match object_of(*self_ty) {
                Some(Ty::Trait(data)) => Ok(
                    (Ty::Trait(data), principal_trait_ref_with_self_ty(*data, Ty::Trait(data))),
                ),
                _ => Err(Fatal::Bug(self.span, Bug::NotAnObject)),
            },
    {
        match find_object(self_ty) {
            Some(Ty::Trait(data)) => {
                let object_ty = Ty::Trait(Box::new((**data).clone()));
                let principal = &data.principal.0;
                let source = Binder(
                    TraitRef {
                        def_id: principal.def_id,
                        substs: Substs {
                            types: PerSpace {
                                types: crate::ty::clone_tys(&principal.substs.types.types),
                                selfs: List::Cons(
                                    Box::new(Ty::Trait(Box::new((**data).clone()))),
                                    Box::new(List::Nil),
                                ),
                                fns: crate::ty::clone_tys(&principal.substs.types.fns),
                            },
                            regions: principal.substs.regions.clone(),
                        },
                    },
                );
                Ok((object_ty, source))
            },
            _ => Err(Fatal::Bug(self.span, Bug::NotAnObject)),
        }
    }

    /// Takes the one upcast out of the collaborator's answer. Any other
    /// number of upcasts is fatal, and so is an upcast to another trait than
    /// `target`, the one that was asked for.
    pub fn upcast(&self, candidates: List<PolyTraitRef>, target: DefId) -> (r: Result<
        PolyTraitRef,
        Fatal,
    >)
        ensures
            r == (if candidates.len() != 1 {
                Err::<PolyTraitRef, Fatal>(
                    Fatal::Bug(self.span, Bug::AmbiguousUpcast(candidates.count())),
                )
            } else if candidates.at(0).0.def_id != target {
                Err(
                    Fatal::Bug(
                        self.span,
                        Bug::UpcastToOtherTrait {
                            asked: target,
                            given: candidates.at(0).0.def_id,
                        },
                    ),
                )
            } else {
                Ok(candidates.at(0))
            }),
    {
        let n = candidates.length();
        match candidates {
            List::Cons(first, rest) => {
                if !rest.is_empty() {
                    Err(Fatal::Bug(self.span, Bug::AmbiguousUpcast(n)))
                } else if first.0.def_id != target {
                    Err(
                        Fatal::Bug(
                            self.span,
                            Bug::UpcastToOtherTrait { asked: target, given: first.0.def_id },
                        ),
                    )
                } else {
                    Ok(*first)
                }
            },
            List::Nil => Err(Fatal::Bug(self.span, Bug::AmbiguousUpcast(n))),
        }
    }

    /// Opens the binder of a signature: the regions that it binds become
    /// fresh placeholders.
    pub fn replace_late_bound_regions_with_fresh_var(
        &self,
        infcx: &mut InferCtxt,
        value: &Binder<FnSig>,
    ) -> (r: FnSig)
        ensures
            r == fold_fn_sig_spec(Folder::Open(old(infcx).next_region_var), 1, value.0),
            minted(*old(infcx), *final(infcx), 0, scan_fn_sig_spec(1, value.0).bound as nat),
    {
        let bound = scan_fn_sig(1, &value.0).bound;
        let base = reserve_region_vars(infcx, bound);
        fold_fn_sig(&Folder::Open(base), 1, &value.0)
    }

    /// Opens the binder of a trait reference: the regions that it binds
    /// become fresh placeholders.
    pub fn replace_late_bound_regions_in_trait_ref(
        &self,
        infcx: &mut InferCtxt,
        value: &PolyTraitRef,
    ) -> (r: TraitRef)
        ensures
            r == opened_trait_ref(*value, old(infcx).next_region_var),
            minted(*old(infcx), *final(infcx), 0, scan_trait_ref_spec(1, value.0).bound as nat),
    {
        let bound = scan_trait_ref(1, &value.0).bound;
        let base = reserve_region_vars(infcx, bound);
        fold_trait_ref(&Folder::Open(base), 1, &value.0)
    }

    fn fresh_impl_substs(&self, infcx: &mut InferCtxt, generics: Generics) -> (r: Substs)
        ensures
            r == impl_substs(generics, old(infcx).next_ty_var, old(infcx).next_region_var),
            minted(*old(infcx), *final(infcx), generics.types as nat, generics.regions as nat),
    {
        let regions = infcx.next_region_vars(generics.regions as usize);
        let types = infcx.next_ty_vars(generics.types as usize);
        Substs {
            types: PerSpace { types, selfs: List::Nil, fns: List::Nil },
            regions: RegionSubsts::NonErased(
                PerSpace { types: regions, selfs: List::Nil, fns: List::Nil },
            ),
        }
    }

    /// The substitution of the receiver, with fresh placeholders for
    /// whatever the kind of the pick leaves open, and the origin of the
    /// method. The parameters of the method itself are not part of it.
    pub fn fresh_receiver_substs(
        &self,
        infcx: &mut InferCtxt,
        self_ty: &Ty,
        pick: &Pick,
        candidates: List<PolyTraitRef>,
    ) -> (r: Result<(Substs, MethodOrigin), Fatal>)
        ensures
            match r {
                Err(fatal) => self.receiver_spec(
                    *pick,
                    *self_ty,
                    candidates,
                    old(infcx).next_ty_var,
                    old(infcx).next_region_var,
                ) matches Err(bug) && fatal == Fatal::Bug(self.span, bug) && minted(
                    *old(infcx),
                    *final(infcx),
                    0,
                    0,
                ),
                Ok((substs, origin)) => self.receiver_spec(
                    *pick,
                    *self_ty,
                    candidates,
                    old(infcx).next_ty_var,
                    old(infcx).next_region_var,
                ) matches Ok(rcv) && substs == rcv.substs && origin == rcv.origin && minted(
                    *old(infcx),
                    *final(infcx),
                    rcv.tys,
                    rcv.regions,
                ),
            },
    {
        match &pick.kind {
            PickKind::InherentImpl(impl_def_id) => {
                match self.tcx.lookup_impl(*impl_def_id) {
                    None => Err(Fatal::Bug(self.span, Bug::UnknownImpl(*impl_def_id))),
                    Some(imp) => {
                        if imp.trait_ref.is_some() {
                            Err(Fatal::Bug(self.span, Bug::NotAnInherentImpl(*impl_def_id)))
                        } else {
                            let substs = self.fresh_impl_substs(infcx, imp.generics);
                            Ok((substs, MethodOrigin::Static(pick.item.def_id)))
                        }
                    },
                }
            },
            PickKind::Object(trait_def_id, method_num, vtable_index) => {
                if find_object(self_ty).is_none() {
                    return Err(Fatal::Bug(self.span, Bug::NotAnObject));
                }
                // The object has no entry for the implementing type. For
                // the call the object itself takes its place, which is sound
                // for the methods that an object lets one call.
                let upcast_poly_trait_ref = self.upcast(candidates, *trait_def_id)?;
                let upcast_trait_ref = self.replace_late_bound_regions_in_trait_ref(
                    infcx,
                    &upcast_poly_trait_ref,
                );
                let substs = upcast_trait_ref.substs.clone();
                let origin = MethodOrigin::TraitObject(
                    MethodObject {
                        trait_ref: upcast_trait_ref,
                        object_trait_id: *trait_def_id,
                        method_num: *method_num,
                        vtable_index: *vtable_index,
                    },
                );
                Ok((substs, origin))
            },
            PickKind::ExtensionImpl(impl_def_id, method_num) => {
                // The method is the method of the trait, so the arguments
                // are those of the trait, not those of the impl nor of the
                // receiver.
                match self.tcx.lookup_impl(*impl_def_id) {
                    None => Err(Fatal::Bug(self.span, Bug::UnknownImpl(*impl_def_id))),
                    Some(imp) => match &imp.trait_ref {
                        None => Err(Fatal::Bug(self.span, Bug::NoTraitForImpl(*impl_def_id))),
                        Some(template) => {
                            let impl_substs = self.fresh_impl_substs(infcx, imp.generics);
                            let impl_trait_ref = fold_trait_ref(
                                &Folder::Subst(&impl_substs),
                                0,
                                template,
                            );
                            let substs = impl_trait_ref.substs.clone();
                            let origin = MethodOrigin::TypeParam(
                                MethodParam {
                                    trait_ref: impl_trait_ref,
                                    method_num: *method_num,
                                    impl_def_id: Some(*impl_def_id),
                                },
                            );
                            Ok((substs, origin))
                        },
                    },
                }
            },
            PickKind::Trait(trait_def_id, method_num) => {
                match self.tcx.lookup_trait_def(*trait_def_id) {
                    None => Err(Fatal::Bug(self.span, Bug::UnknownTrait(*trait_def_id))),
                    Some(trait_def) => {
                        // A trait reference that consists of placeholders
                        // only. Unifying the receiver with the first
                        // parameter of the method settles some of them.
                        let self_var = infcx.next_ty_var();
                        let types = infcx.next_ty_vars(trait_def.generics.types as usize);
                        let regions = infcx.next_region_vars(trait_def.generics.regions as usize);
                        let substs = Substs {
                            types: PerSpace {
                                types,
                                selfs: List::Cons(Box::new(self_var), Box::new(List::Nil)),
                                fns: List::Nil,
                            },
                            regions: RegionSubsts::NonErased(
                                PerSpace { types: regions, selfs: List::Nil, fns: List::Nil },
                            ),
                        };
                        let origin = MethodOrigin::TypeParam(
                            MethodParam {
                                trait_ref: TraitRef {
                                    def_id: *trait_def_id,
                                    substs: substs.clone(),
                                },
                                method_num: *method_num,
                                impl_def_id: None,
                            },
                        );
                        Ok((substs, origin))
                    },
                }
            },
            PickKind::WhereClause(poly_trait_ref, method_num) => {
                // A where clause may bind regions.
                let trait_ref = self.replace_late_bound_regions_in_trait_ref(infcx, poly_trait_ref);
                let substs = trait_ref.substs.clone();
                let origin = MethodOrigin::TypeParam(
                    MethodParam { trait_ref, method_num: *method_num, impl_def_id: None },
                );
                Ok((substs, origin))
            },
        }
    }

    /// The arguments of the method's own parameters. A wrong number of
    /// supplied types is reported, and checking goes on with placeholders or
    /// error types in their place. The regions are always placeholders.
    pub fn instantiate_method_substs(
        &self,
        fcx: &mut FnCtxt,
        infcx: &mut InferCtxt,
        pick: &Pick,
        supplied_method_types: List<Ty>,
    ) -> (r: (List<Ty>, List<Region>))
        ensures
            r.0 == method_types_spec(*pick, supplied_method_types, old(infcx).next_ty_var),
            r.1 == region_vars_from(old(infcx).next_region_var, pick.item.region_params as nat),
            final(fcx)@ == reported(
                old(fcx)@,
                method_types_error(*pick, supplied_method_types, self.span),
            ),
            minted(
                *old(infcx),
                *final(infcx),
                method_ty_vars(*pick, supplied_method_types),
                pick.item.region_params as nat,
            ),
    {
        let num_method_types = pick.item.type_params;
        let method_types = if supplied_method_types.is_empty() {
            infcx.next_ty_vars(num_method_types as usize)
        } else if num_method_types == 0 {
            fcx.span_err(Diagnostic::MethodTakesNoTypeParameters(self.span));
            infcx.next_ty_vars(num_method_types as usize)
        } else if !len_is(&supplied_method_types, num_method_types) {
            fcx.span_err(Diagnostic::WrongNumberOfTypeParameters(self.span));
            errors(num_method_types)
        } else {
            supplied_method_types
        };
        let method_regions = infcx.next_region_vars(pick.item.region_params as usize);
        (method_types, method_regions)
    }

    /// The receiver does unify with the first parameter of the method:
    /// probing has seen to it. If it does not, that is fatal.
    pub fn unify_receivers<R: TypeRelation>(
        &self,
        relation: &R,
        self_ty: &Ty,
        method_self_ty: &Ty,
    ) -> (r: Result<(), Fatal>)
        ensures
            r == match relate_tys_spec(*relation, *self_ty, *method_self_ty) {
                Ok(_) => Ok(()),
                Err(e) => Err(Fatal::Bug(self.span, Bug::ReceiverMismatch(e))),
            },
    {
        match relate_tys(relation, self_ty, method_self_ty) {
            Ok(_) => Ok(()),
            Err(e) => Err(Fatal::Bug(self.span, Bug::ReceiverMismatch(e))),
        }
    }

    /// The signature and the bounds of the method under the substitution.
    /// The regions that the signature binds are opened first, so that the
    /// substitution cannot capture them.
    pub fn instantiate_method_sig(&self, infcx: &mut InferCtxt, pick: &Pick, all_substs: Substs) -> (r:
        InstantiatedMethodSig)
        ensures
            r == instantiate_method_sig_spec(*pick, all_substs, old(infcx).next_region_var),
            minted(*old(infcx), *final(infcx), 0, late_bound_regions(*pick)),
    {
        let method_predicates = fold_predicates(
            &Folder::Subst(&all_substs),
            0,
            &pick.item.predicates,
        );
        let opened = self.replace_late_bound_regions_with_fresh_var(infcx, &pick.item.fty.sig);
        let method_sig = fold_fn_sig(&Folder::Subst(&all_substs), 0, &opened);
        InstantiatedMethodSig { method_sig, all_substs, method_predicates }
    }

    /// Registers the bounds of the method as obligations of the call, and
    /// the default bounds of the call: each type argument outlives it.
    pub fn add_obligations(
        &self,
        fcx: &mut FnCtxt,
        all_substs: &Substs,
        method_predicates: &List<Predicate>,
    )
        ensures
            final(fcx)@ == obliged(
                old(fcx)@,
                predicate_obligations(
                    ObligationCause { span: self.span, body_id: old(fcx)@.body_id },
                    *method_predicates,
                ) + default_region_bounds(
                    ObligationCause { span: self.call_expr.span, body_id: old(fcx)@.body_id },
                    *all_substs,
                    self.call_expr.id,
                ),
            ),
    {
        let cause = ObligationCause { span: self.span, body_id: fcx.body_id };
        register_predicates(fcx, cause, method_predicates);
        let call = ObligationCause { span: self.call_expr.span, body_id: fcx.body_id };
        let scope = Region::Scope(self.call_expr.id);
        register_outlives(fcx, call, &all_substs.types.types, scope);
        register_outlives(fcx, call, &all_substs.types.selfs, scope);
        register_outlives(fcx, call, &all_substs.types.fns, scope);
        assert(final(fcx)@.obligations =~= old(fcx)@.obligations + (predicate_obligations(
            cause,
            *method_predicates,
        ) + default_region_bounds(call, *all_substs, self.call_expr.id)));
    }
}

/// What one step of confirmation leaves behind: its result, the context,
/// and the counters of the oracle.
pub struct Step<T> {
    pub value: T,
    pub fcx: FnCtxtView,
    pub next_ty_var: u32,
    pub next_region_var: u32,
}

/// Whether the context and the oracle are as the step left them.
pub open spec fn left<T>(step: Step<T>, fcx: FnCtxtView, before: InferCtxt, after: InferCtxt) -> bool {
    &&& fcx == step.fcx
    &&& after.next_ty_var == step.next_ty_var
    &&& after.next_region_var == step.next_region_var
    &&& after.type_solutions == before.type_solutions
    &&& after.region_solutions == before.region_solutions
}

/// Whether a counter of the oracle has reached its last number. From then
/// on fewer placeholders may be minted than are asked for.
pub open spec fn exhausted(next_ty_var: u32, next_region_var: u32) -> bool {
    next_ty_var == u32::MAX || next_region_var == u32::MAX
}

/// The step as it is, unless it went well and left a counter of the oracle
/// exhausted: then it ends with a fatal error.
pub open spec fn checked<T>(span: Span, step: Step<Result<T, Fatal>>) -> Step<Result<T, Fatal>> {
    if step.value is Ok && exhausted(step.next_ty_var, step.next_region_var) {
        Step { value: Err(Fatal::Bug(span, Bug::PlaceholdersExhausted)), ..step }
    } else {
        step
    }
}

impl<'a> ConfirmContext<'a> {
    /// From the substitution of the receiver to the request for
    /// normalization: the method's own parameters get their arguments, the
    /// two substitutions are merged, and the signature and the bounds are
    /// instantiated.
    pub open spec fn to_normalization(
        self,
        s: FnCtxtView,
        ty_base: u32,
        region_base: u32,
        self_ty: Ty,
        rcv: Receiver,
        pick: Pick,
        supplied: List<Ty>,
    ) -> Step<AwaitingNormalization> {
        let tys = advanced(ty_base, rcv.tys);
        let regions = advanced(region_base, rcv.regions);
        Step {
            value: normalization_request(
                self_ty,
                rcv.substs,
                rcv.origin,
                pick,
                supplied,
                tys,
                regions,
            ),
            fcx: reported(s, method_types_error(pick, supplied, self.span)),
            next_ty_var: advanced(tys, method_ty_vars(pick, supplied)),
            next_region_var: advanced(
                advanced(regions, pick.item.region_params as nat),
                late_bound_regions(pick),
            ),
        }
    }

    /// What the first part of confirmation comes to, before the counters of
    /// the oracle are looked at: how it ends, and the context and the
    /// counters that it leaves, whether it ends well or not.
    pub open spec fn confirm_steps_spec(
        self,
        s: FnCtxtView,
        infcx: InferCtxt,
        unadjusted: Ty,
        pick: Pick,
        supplied: List<Ty>,
    ) -> Step<Result<Confirming, Fatal>> {
        let adj = self_adjustment(pick, infcx.next_region_var);
        let self_ty = adjust_ty_spec(s.inh.method_map, self.self_expr.id, unadjusted, adj)->0;
        let s1 = recorded(s, self.self_expr.id, AutoAdjustment::DerefRef(adj));
        let regions = advanced(
            infcx.next_region_var,
            if pick.autoref is Some {
                1
            } else {
                0
            },
        );
        if self.adjust_self_ty_error(s, unadjusted, pick) is Some {
            Step {
                value: Err(self.adjust_self_ty_error(s, unadjusted, pick)->0),
                fcx: s,
                next_ty_var: infcx.next_ty_var,
                next_region_var: infcx.next_region_var,
            }
        } else if self.illegal_method_error(pick) is Some {
            Step {
                value: Err(self.illegal_method_error(pick)->0),
                fcx: s1,
                next_ty_var: infcx.next_ty_var,
                next_region_var: regions,
            }
        } else {
            match pick.kind {
                PickKind::Object(trait_def_id, _, _) => match object_of(self_ty) {
                    Some(Ty::Trait(data)) => Step {
                        value: Ok(
                            Confirming::Upcast(
                                AwaitingUpcast {
                                    self_ty,
                                    source: principal_trait_ref_with_self_ty(
                                        *data,
                                        Ty::Trait(data),
                                    ),
                                    target: trait_def_id,
                                    pick,
                                    supplied_method_types: supplied,
                                },
                            ),
                        ),
                        fcx: s1,
                        next_ty_var: infcx.next_ty_var,
                        next_region_var: regions,
                    },
                    _ => Step {
                        value: Err(Fatal::Bug(self.span, Bug::NotAnObject)),
                        fcx: s1,
                        next_ty_var: infcx.next_ty_var,
                        next_region_var: regions,
                    },
                },
                _ => match self.receiver_spec(
                    pick,
                    self_ty,
                    List::Nil,
                    infcx.next_ty_var,
                    regions,
                ) {
                    Err(bug) => Step {
                        value: Err(Fatal::Bug(self.span, bug)),
                        fcx: s1,
                        next_ty_var: infcx.next_ty_var,
                        next_region_var: regions,
                    },
                    Ok(rcv) => {
                        let step = self.to_normalization(
                            s1,
                            infcx.next_ty_var,
                            regions,
                            self_ty,
                            rcv,
                            pick,
                            supplied,
                        );
                        Step {
                            value: Ok(Confirming::Normalize(step.value)),
                            fcx: step.fcx,
                            next_ty_var: step.next_ty_var,
                            next_region_var: step.next_region_var,
                        }
                    },
                },
            }
        }
    }

    /// What the first part of confirmation comes to: how it ends, and the
    /// context and the counters of the oracle that it leaves, whether it ends
    /// well or not. It does not end well with a counter exhausted.
    pub open spec fn confirm_spec(
        self,
        s: FnCtxtView,
        infcx: InferCtxt,
        unadjusted: Ty,
        pick: Pick,
        supplied: List<Ty>,
    ) -> Step<Result<Confirming, Fatal>> {
        checked(self.span, self.confirm_steps_spec(s, infcx, unadjusted, pick, supplied))
    }

    /// What confirmation of an object pick comes to once the upcast is
    /// answered, before the counters of the oracle are looked at.
    pub open spec fn resume_steps_spec(
        self,
        s: FnCtxtView,
        infcx: InferCtxt,
        state: AwaitingUpcast,
        candidates: List<PolyTraitRef>,
    ) -> Step<Result<AwaitingNormalization, Fatal>> {
        match self.receiver_spec(
            state.pick,
            state.self_ty,
            candidates,
            infcx.next_ty_var,
            infcx.next_region_var,
        ) {
            Err(bug) => Step {
                value: Err(Fatal::Bug(self.span, bug)),
                fcx: s,
                next_ty_var: infcx.next_ty_var,
                next_region_var: infcx.next_region_var,
            },
            Ok(rcv) => {
                let step = self.to_normalization(
                    s,
                    infcx.next_ty_var,
                    infcx.next_region_var,
                    state.self_ty,
                    rcv,
                    state.pick,
                    state.supplied_method_types,
                );
                Step {
                    value: Ok(step.value),
                    fcx: step.fcx,
                    next_ty_var: step.next_ty_var,
                    next_region_var: step.next_region_var,
                }
            },
        }
    }

    /// What confirmation of an object pick comes to once the upcast is
    /// answered: how it ends, and the context and the counters of the oracle
    /// that it leaves, whether it ends well or not. It does not end well
    /// with a counter exhausted.
    pub open spec fn resume_with_upcast_spec(
        self,
        s: FnCtxtView,
        infcx: InferCtxt,
        state: AwaitingUpcast,
        candidates: List<PolyTraitRef>,
    ) -> Step<Result<AwaitingNormalization, Fatal>> {
        checked(self.span, self.resume_steps_spec(s, infcx, state, candidates))
    }

    /// The record of the call, from what normalization gave.
    pub open spec fn callee_spec(state: AwaitingNormalization, method_sig: FnSig) -> MethodCallee {
        MethodCallee {
            origin: state.origin,
            ty: Ty::BareFn(
                None,
                Box::new(
                    BareFnTy { unsafety: state.unsafety, abi: state.abi, sig: Binder(method_sig) },
                ),
            ),
            substs: state.instantiated.all_substs,
        }
    }

    /// The context after the obligations of the call are registered.
    pub open spec fn with_obligations(
        self,
        s: FnCtxtView,
        state: AwaitingNormalization,
        method_predicates: List<Predicate>,
    ) -> FnCtxtView {
        obliged(
            s,
            predicate_obligations(
                ObligationCause { span: self.span, body_id: s.body_id },
                method_predicates,
            ) + default_region_bounds(
                ObligationCause { span: self.call_expr.span, body_id: s.body_id },
                state.instantiated.all_substs,
                self.call_expr.id,
            ),
        )
    }

    /// What the last part of confirmation comes to, given the normalized
    /// signature and bounds.
    pub open spec fn finish_spec<R: TypeRelation>(
        self,
        s: FnCtxtView,
        relation: R,
        state: AwaitingNormalization,
        method_sig: FnSig,
        method_predicates: List<Predicate>,
    ) -> Result<Confirmed, Fatal> {
        if method_sig.inputs.len() == 0 {
            Err(Fatal::Bug(self.span, Bug::MethodWithoutReceiver))
        } else {
            match relate_tys_spec(relation, state.self_ty, method_sig.inputs.at(0)) {
                Err(e) => Err(Fatal::Bug(self.span, Bug::ReceiverMismatch(e))),
                Ok(_) => match fixups_spec(
                    self.with_obligations(s, state, method_predicates),
                    Self::callee_spec(state, method_sig),
                    *self.self_expr,
                ) {
                    Err(fatal) => Err(fatal),
                    Ok(fixups) => Ok(
                        Confirmed {
                            callee: Self::callee_spec(state, method_sig),
                            self_ty: state.self_ty,
                            fixups,
                        },
                    ),
                },
            }
        }
    }

    /// The context that the last part of confirmation leaves: the
    /// obligations of the call are registered once the receiver is unified,
    /// whether or not the plan for the receiver can then be made.
    pub open spec fn finish_context_spec<R: TypeRelation>(
        self,
        s: FnCtxtView,
        relation: R,
        state: AwaitingNormalization,
        method_sig: FnSig,
        method_predicates: List<Predicate>,
    ) -> FnCtxtView {
        if method_sig.inputs.len() != 0 && relate_tys_spec(
            relation,
            state.self_ty,
            method_sig.inputs.at(0),
        ) is Ok {
            self.with_obligations(s, state, method_predicates)
        } else {
            s
        }
    }

    /// Plans how the receiver is made mutable. If the method takes
    /// `&mut self`, the dereferences and indices on the way to the receiver
    /// are to be resolved anew with a preference for the mutable variant,
    /// from the innermost place outwards.
    ///
    /// The plan is made from the tables as they stand when the method has
    /// been selected; the caller runs it. A caller whose resolutions change
    /// what the tables hold for the places further out asks for the steps
    /// one at a time instead: see [`crate::fixup`].
    pub fn fixup_derefs_on_method_receiver_if_necessary(
        &self,
        fcx: &FnCtxt,
        method_callee: &MethodCallee,
    ) -> (r: Result<List<Fixup>, Fatal>)
        ensures
            r == fixups_spec(fcx@, *method_callee, *self.self_expr),
    {
        plan_fixups(fcx, method_callee, self.self_expr)
    }

    fn request_normalization(
        &self,
        fcx: &mut FnCtxt,
        infcx: &mut InferCtxt,
        self_ty: Ty,
        rcvr_substs: Substs,
        method_origin: MethodOrigin,
        pick: Pick,
        supplied_method_types: List<Ty>,
    ) -> (r: AwaitingNormalization)
        ensures
            r == normalization_request(
                self_ty,
                rcvr_substs,
                method_origin,
                pick,
                supplied_method_types,
                old(infcx).next_ty_var,
                old(infcx).next_region_var,
            ),
            final(fcx)@ == reported(
                old(fcx)@,
                method_types_error(pick, supplied_method_types, self.span),
            ),
            final(infcx).next_ty_var == advanced(
                old(infcx).next_ty_var,
                method_ty_vars(pick, supplied_method_types),
            ),
            final(infcx).next_region_var == advanced(
                advanced(old(infcx).next_region_var, pick.item.region_params as nat),
                late_bound_regions(pick),
            ),
            final(infcx).type_solutions == old(infcx).type_solutions,
            final(infcx).region_solutions == old(infcx).region_solutions,
    {
        let (method_types, method_regions) = self.instantiate_method_substs(
            fcx,
            infcx,
            &pick,
            supplied_method_types,
        );
        let all_substs = Substs {
            types: PerSpace {
                types: rcvr_substs.types.types,
                selfs: rcvr_substs.types.selfs,
                fns: method_types,
            },
            regions: match rcvr_substs.regions {
                RegionSubsts::Erased => RegionSubsts::Erased,
                RegionSubsts::NonErased(r) => RegionSubsts::NonErased(
                    PerSpace { types: r.types, selfs: r.selfs, fns: method_regions },
                ),
            },
        };
        let instantiated = self.instantiate_method_sig(infcx, &pick, all_substs);
        AwaitingNormalization {
            self_ty,
            origin: method_origin,
            instantiated,
            unsafety: pick.item.fty.unsafety,
            abi: pick.item.fty.abi,
        }
    }

    /// Confirms the pick up to the first question to a collaborator.
    ///
    /// The receiver is adjusted and the adjustment recorded; a call of a
    /// destructor is rejected. For an object pick, confirmation then waits
    /// for the upcast of the object's trait. For every other pick the
    /// receiver gets its substitution, the method's own parameters get their
    /// arguments, and the instantiated signature and bounds wait to be
    /// normalized.
    pub fn confirm(
        &self,
        fcx: &mut FnCtxt,
        infcx: &mut InferCtxt,
        unadjusted_self_ty: Ty,
        pick: Pick,
        supplied_method_types: List<Ty>,
    ) -> (r: Result<Confirming, Fatal>)
        ensures
            r == self.confirm_spec(
                old(fcx)@,
                *old(infcx),
                unadjusted_self_ty,
                pick,
                supplied_method_types,
            ).value,
            left(
                self.confirm_spec(
                    old(fcx)@,
                    *old(infcx),
                    unadjusted_self_ty,
                    pick,
                    supplied_method_types,
                ),
                final(fcx)@,
                *old(infcx),
                *final(infcx),
            ),
    {
        let confirming = self.confirm_steps(
            fcx,
            infcx,
            unadjusted_self_ty,
            pick,
            supplied_method_types,
        )?;
        if infcx.is_exhausted() {
            return Err(Fatal::Bug(self.span, Bug::PlaceholdersExhausted));
        }
        Ok(confirming)
    }

    fn confirm_steps(
        &self,
        fcx: &mut FnCtxt,
        infcx: &mut InferCtxt,
        unadjusted_self_ty: Ty,
        pick: Pick,
        supplied_method_types: List<Ty>,
    ) -> (r: Result<Confirming, Fatal>)
        ensures
            r == self.confirm_steps_spec(
                old(fcx)@,
                *old(infcx),
                unadjusted_self_ty,
                pick,
                supplied_method_types,
            ).value,
            left(
                self.confirm_steps_spec(
                    old(fcx)@,
                    *old(infcx),
                    unadjusted_self_ty,
                    pick,
                    supplied_method_types,
                ),
                final(fcx)@,
                *old(infcx),
                *final(infcx),
            ),
    {
        // Adjust the receiver expression and obtain the adjusted type.
        let self_ty = self.adjust_self_ty(fcx, infcx, unadjusted_self_ty, &pick)?;
        // Nobody calls a destructor by name.
        self.enforce_illegal_method_limitations(&pick)?;
        match &pick.kind {
            PickKind::Object(trait_def_id, _, _) => {
                let target = *trait_def_id;
                let (_, source) = self.extract_trait_ref(&self_ty)?;
                Ok(
                    Confirming::Upcast(
                        AwaitingUpcast { self_ty, source, target, pick, supplied_method_types },
                    ),
                )
            },
            _ => {
                let (rcvr_substs, method_origin) = self.fresh_receiver_substs(
                    infcx,
                    &self_ty,
                    &pick,
                    List::Nil,
                )?;
                Ok(
                    Confirming::Normalize(
                        self.request_normalization(
                            fcx,
                            infcx,
                            self_ty,
                            rcvr_substs,
                            method_origin,
                            pick,
                            supplied_method_types,
                        ),
                    ),
                )
            },
        }
    }

    /// Goes on with an object pick once the trait collaborator has
    /// answered: exactly one upcast is due, and it is to the trait that was
    /// asked for. The regions that it binds are opened, the origin records
    /// the trait of the object with the number of the method and its slot,
    /// and the instantiated signature and bounds wait to be normalized.
    pub fn resume_with_upcast(
        &self,
        fcx: &mut FnCtxt,
        infcx: &mut InferCtxt,
        state: AwaitingUpcast,
        candidates: List<PolyTraitRef>,
    ) -> (r: Result<AwaitingNormalization, Fatal>)
        ensures
            r == self.resume_with_upcast_spec(old(fcx)@, *old(infcx), state, candidates).value,
            left(
                self.resume_with_upcast_spec(old(fcx)@, *old(infcx), state, candidates),
                final(fcx)@,
                *old(infcx),
                *final(infcx),
            ),
    {
        let waiting = self.resume_steps(fcx, infcx, state, candidates)?;
        if infcx.is_exhausted() {
            return Err(Fatal::Bug(self.span, Bug::PlaceholdersExhausted));
        }
        Ok(waiting)
    }

    fn resume_steps(
        &self,
        fcx: &mut FnCtxt,
        infcx: &mut InferCtxt,
        state: AwaitingUpcast,
        candidates: List<PolyTraitRef>,
    ) -> (r: Result<AwaitingNormalization, Fatal>)
        ensures
            r == self.resume_steps_spec(old(fcx)@, *old(infcx), state, candidates).value,
            left(
                self.resume_steps_spec(old(fcx)@, *old(infcx), state, candidates),
                final(fcx)@,
                *old(infcx),
                *final(infcx),
            ),
    {
        let (rcvr_substs, method_origin) = self.fresh_receiver_substs(
            infcx,
            &state.self_ty,
            &state.pick,
            candidates,
        )?;
        Ok(
            self.request_normalization(
                fcx,
                infcx,
                state.self_ty,
                rcvr_substs,
                method_origin,
                state.pick,
                state.supplied_method_types,
            ),
        )
    }

    /// Ends confirmation with the normalized signature and bounds: the
    /// adjusted receiver is unified with the first parameter of the method
    /// under `relation`, the bounds are registered as obligations, the
    /// record of the call is made, and the receiver's way to mutability is
    /// planned.
    pub fn finish<R: TypeRelation>(
        &self,
        fcx: &mut FnCtxt,
        relation: &R,
        state: AwaitingNormalization,
        method_sig: FnSig,
        method_predicates: List<Predicate>,
    ) -> (r: Result<Confirmed, Fatal>)
        ensures
            r == self.finish_spec(old(fcx)@, *relation, state, method_sig, method_predicates),
            final(fcx)@ == self.finish_context_spec(
                old(fcx)@,
                *relation,
                state,
                method_sig,
                method_predicates,
            ),
    {
        let unified = match method_sig.inputs.get(0) {
            Some(method_self_ty) => self.unify_receivers(relation, &state.self_ty, method_self_ty),
            None => Err(Fatal::Bug(self.span, Bug::MethodWithoutReceiver)),
        };
        unified?;
        // The bounds on the parameters of the method become obligations.
        self.add_obligations(fcx, &state.instantiated.all_substs, &method_predicates);
        let fty = Ty::BareFn(
            None,
            Box::new(
                BareFnTy { unsafety: state.unsafety, abi: state.abi, sig: Binder(method_sig) },
            ),
        );
        let callee = MethodCallee {
            origin: state.origin,
            ty: fty,
            substs: state.instantiated.all_substs,
        };
        // A method that takes `&mut self` turns the receiver expression
        // towards mutability.
        let fixups = self.fixup_derefs_on_method_receiver_if_necessary(fcx, &callee)?;
        Ok(Confirmed { callee, self_ty: state.self_ty, fixups })
    }
}

/// Confirms the method call `call_expr` on the receiver `self_expr`, of the
/// type `unadjusted_self_ty`, with the candidate that probing picked, up to
/// the first question to a collaborator. See [`ConfirmContext::confirm`].
pub fn confirm(
    fcx: &mut FnCtxt,
    infcx: &mut InferCtxt,
    tcx: &Ctxt,
    span: Span,
    self_expr: &Expr,
    call_expr: &Expr,
    unadjusted_self_ty: Ty,
    pick: Pick,
    supplied_method_types: List<Ty>,
) -> (r: Result<Confirming, Fatal>)
    ensures
        r == (ConfirmContext { tcx, span, self_expr, call_expr }).confirm_spec(
            old(fcx)@,
            *old(infcx),
            unadjusted_self_ty,
            pick,
            supplied_method_types,
        ).value,
        left(
            (ConfirmContext { tcx, span, self_expr, call_expr }).confirm_spec(
                old(fcx)@,
                *old(infcx),
                unadjusted_self_ty,
                pick,
                supplied_method_types,
            ),
            final(fcx)@,
            *old(infcx),
            *final(infcx),
        ),
{
    let confirm_cx = ConfirmContext::new(tcx, span, self_expr, call_expr);
    confirm_cx.confirm(fcx, infcx, unadjusted_self_ty, pick, supplied_method_types)
}

/// Confirmation of an object pick stops for the upcast to the trait of the
/// pick, with the adjustment of the pick recorded for the receiver: as many
/// dereferences as probing counted.
pub proof fn lemma_object_pick_awaits_upcast(
    cx: ConfirmContext,
    s: FnCtxtView,
    infcx: InferCtxt,
    unadjusted: Ty,
    pick: Pick,
    supplied: List<Ty>,
)
    requires
        pick.kind is Object,
        cx.confirm_spec(s, infcx, unadjusted, pick, supplied).value is Ok,
    ensures
        cx.confirm_spec(s, infcx, unadjusted, pick, supplied).value->Ok_0 is Upcast,
        cx.confirm_spec(s, infcx, unadjusted, pick, supplied).value->Ok_0->Upcast_0.target
            == pick.kind->Object_0,
        cx.confirm_spec(s, infcx, unadjusted, pick, supplied).value->Ok_0->Upcast_0.pick == pick,
        object_of(
            cx.confirm_spec(s, infcx, unadjusted, pick, supplied).value->Ok_0->Upcast_0.self_ty,
        ) is Some,
        cx.confirm_spec(s, infcx, unadjusted, pick, supplied).fcx.inh.adjustments.contains_key(
            cx.self_expr.id,
        ),
        cx.confirm_spec(s, infcx, unadjusted, pick, supplied).fcx.inh.adjustments[cx.self_expr.id]
            matches AutoAdjustment::DerefRef(adj) && adj.autoderefs == pick.autoderefs,
{
}

/// Confirmation of an object pick goes on exactly if the collaborator
/// answers with one upcast, to the trait that was asked for, and no counter
/// of the oracle is exhausted. The origin of the method is then the object,
/// with that upcast, its bound regions opened, and with the number of the
/// method and its slot as the pick has them.
pub proof fn lemma_object_pick_resumes(
    cx: ConfirmContext,
    s: FnCtxtView,
    infcx: InferCtxt,
    state: AwaitingUpcast,
    candidates: List<PolyTraitRef>,
)
    requires
        state.pick.kind is Object,
        object_of(state.self_ty) is Some,
    ensures
        candidates.len() != 1 ==> cx.resume_with_upcast_spec(s, infcx, state, candidates).value
            == Err::<AwaitingNormalization, Fatal>(
            Fatal::Bug(cx.span, Bug::AmbiguousUpcast(candidates.count())),
        ),
        cx.resume_with_upcast_spec(s, infcx, state, candidates).value is Ok ==> candidates.len()
            == 1 && candidates.at(0).0.def_id == state.pick.kind->Object_0,
        cx.resume_with_upcast_spec(s, infcx, state, candidates).value matches Ok(waiting)
            ==> waiting.origin == MethodOrigin::TraitObject(
            MethodObject {
                trait_ref: opened_trait_ref(candidates.at(0), infcx.next_region_var),
                object_trait_id: state.pick.kind->Object_0,
                method_num: state.pick.kind->Object_1,
                vtable_index: state.pick.kind->Object_2,
            },
        ),
{
}

/// Where the request for normalization is made without a fatal error, the
/// method has an argument for each type parameter and each region parameter
/// of its own: if the call supplies as many types as the method takes they
/// are those, and else they are placeholders or error types.
pub proof fn lemma_method_arguments_complete(
    cx: ConfirmContext,
    s: FnCtxtView,
    ty_base: u32,
    region_base: u32,
    self_ty: Ty,
    rcv: Receiver,
    pick: Pick,
    supplied: List<Ty>,
)
    requires
        !exhausted(
            cx.to_normalization(s, ty_base, region_base, self_ty, rcv, pick, supplied).next_ty_var,
            cx.to_normalization(
                s,
                ty_base,
                region_base,
                self_ty,
                rcv,
                pick,
                supplied,
            ).next_region_var,
        ),
    ensures
        method_types_spec(pick, supplied, advanced(ty_base, rcv.tys)).len()
            == pick.item.type_params,
        region_vars_from(advanced(region_base, rcv.regions), pick.item.region_params as nat).len()
            == pick.item.region_params,
{
    let tys = advanced(ty_base, rcv.tys);
    let regions = advanced(region_base, rcv.regions);
    lemma_all_minted_before_exhaustion(tys, method_ty_vars(pick, supplied));
    lemma_all_minted_before_exhaustion(regions, pick.item.region_params as nat);
    lemma_all_minted_before_exhaustion(
        advanced(regions, pick.item.region_params as nat),
        late_bound_regions(pick),
    );
    lemma_error_types_len(pick.item.type_params as nat);
}

proof fn lemma_error_types_len(n: nat)
    ensures
        error_types(n).len() == n,
    decreases n,
{
    if n > 0 {
        lemma_error_types_len((n - 1) as nat);
    }
}

/// The type of the adjusted receiver with which confirmation goes on.
pub open spec fn receiver_ty(confirming: Confirming) -> Ty {
    match confirming {
        Confirming::Upcast(state) => state.self_ty,
        Confirming::Normalize(state) => state.self_ty,
    }
}

/// Replaying the adjustment that confirmation records for the receiver
/// reproduces the type of the adjusted receiver.
///
/// Where confirmation does not end with a fatal error, the adjustment that
/// it records counts exactly the dereferences that probing counted, all of
/// them can be done again on the unadjusted type of the receiver, and the
/// type that the recorded adjustment then gives is the type with which
/// confirmation goes on.
pub proof fn lemma_adjustment_replay(
    cx: ConfirmContext,
    s: FnCtxtView,
    infcx: InferCtxt,
    unadjusted: Ty,
    pick: Pick,
    supplied: List<Ty>,
)
    requires
        cx.confirm_spec(s, infcx, unadjusted, pick, supplied).value is Ok,
    ensures
        self_adjustment(pick, infcx.next_region_var).autoderefs == pick.autoderefs,
        autoderef_spec(
            cx.confirm_spec(s, infcx, unadjusted, pick, supplied).fcx.inh.method_map,
            Some(cx.self_expr.id),
            unadjusted,
            0,
            pick.autoderefs,
        ).1 == pick.autoderefs,
        adjust_ty_spec(
            cx.confirm_spec(s, infcx, unadjusted, pick, supplied).fcx.inh.method_map,
            cx.self_expr.id,
            unadjusted,
            self_adjustment(pick, infcx.next_region_var),
        ) == Some(receiver_ty(cx.confirm_spec(s, infcx, unadjusted, pick, supplied).value->Ok_0)),
        cx.confirm_spec(s, infcx, unadjusted, pick, supplied).fcx.inh.adjustments.contains_key(
            cx.self_expr.id,
        ),
        cx.confirm_spec(s, infcx, unadjusted, pick, supplied).fcx.inh.adjustments[cx.self_expr.id]
            == AutoAdjustment::DerefRef(self_adjustment(pick, infcx.next_region_var)),
{
}

} // verus!
