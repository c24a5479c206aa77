//! Rewriting a term from its leaves: substituting arguments for parameters,
//! opening a binder, and putting the oracle's answers in place of
//! placeholders.
//!
//! A [`Folder`] says what becomes of a generic parameter, a region and a
//! placeholder. The fold goes through the term once and rebuilds it around
//! what the folder gave. `depth` counts the binders entered on the way: a
//! region `LateBound(d, _)` met at depth `depth` is bound by the binder at
//! which the fold started if and only if `d == depth`.

use crate::infer::InferCtxt;
use crate::list::List;
use crate::ty::{
    BareFnTy, Binder, ExistentialBounds, FnOutput, FnSig, Mt, ParamTy, PerSpace,
    PolyProjectionPredicate, ProjectionPredicate, ProjectionTy, Region, RegionSubsts, Substs,
    TraitRef, TraitTy, Ty,
};
use vstd::prelude::*;

verus! {

/// What to rewrite.
pub enum Folder<'a> {
    /// Put the arguments of a substitution in place of the generic
    /// parameters, of types and of regions. A parameter for which the
    /// substitution has no slot stays. Where the regions of the substitution
    /// are erased, region parameters become the static region.
    Subst(&'a Substs),
    /// Open the binder at which the fold starts: put the region placeholder
    /// `base + i` in place of the region with index `i` that it binds.
    Open(u32),
    /// Put the oracle's answers in place of the placeholders that it has
    /// solved. The others stay.
    Resolve(&'a InferCtxt),
}

/// What the folder puts in place of a region met at `depth`.
pub open spec fn fold_region_spec(f: Folder, depth: u32, r: Region) -> Region {
    match f {
        Folder::Subst(substs) => match r {
            Region::EarlyBound(space, idx) => match substs.regions {
                RegionSubsts::Erased => Region::Static,
                RegionSubsts::NonErased(regions) => if idx < regions.of(space).len() {
                    regions.of(space).at(idx as int)
                } else {
                    r
                },
            },
            _ => r,
        },
        Folder::Open(base) => match r {
            Region::LateBound(d, idx) => if d == depth && base + idx <= u32::MAX {
                Region::Var((base + idx) as u32)
            } else {
                r
            },
            _ => r,
        },
        Folder::Resolve(infcx) => match r {
            Region::Var(v) => if infcx.region_solutions@.contains_key(v) {
                infcx.region_solutions@[v]
            } else {
                r
            },
            _ => r,
        },
    }
}

/// What the folder puts in place of a generic parameter.
pub open spec fn fold_param_spec(f: Folder, p: ParamTy) -> Ty {
    match f {
        Folder::Subst(substs) => if p.idx < substs.types.of(p.space).len() {
            substs.types.of(p.space).at(p.idx as int)
        } else {
            Ty::Param(p)
        },
        _ => Ty::Param(p),
    }
}

/// What the folder puts in place of a placeholder.
pub open spec fn fold_infer_spec(f: Folder, v: u32) -> Ty {
    match f {
        Folder::Resolve(infcx) => if infcx.type_solutions@.contains_key(v) {
            infcx.type_solutions@[v]
        } else {
            Ty::Infer(v)
        },
        _ => Ty::Infer(v),
    }
}

/// The depth inside a binder met at `depth`.
pub open spec fn deeper(depth: u32) -> u32 {
    if depth < u32::MAX {
        (depth + 1) as u32
    } else {
        depth
    }
}

/// Each region of a list rewritten.
pub open spec fn fold_regions_spec(f: Folder, depth: u32, l: List<Region>) -> List<Region>
    decreases l,
{
    match l {
        List::Nil => List::Nil,
        List::Cons(r, rest) => List::Cons(
            Box::new(fold_region_spec(f, depth, *r)),
            Box::new(fold_regions_spec(f, depth, *rest)),
        ),
    }
}

/// The regions of a substitution rewritten.
pub open spec fn fold_region_substs_spec(f: Folder, depth: u32, regions: RegionSubsts) -> RegionSubsts {
    match regions {
        RegionSubsts::Erased => RegionSubsts::Erased,
        RegionSubsts::NonErased(r) => RegionSubsts::NonErased(
            PerSpace {
                types: fold_regions_spec(f, depth, r.types),
                selfs: fold_regions_spec(f, depth, r.selfs),
                fns: fold_regions_spec(f, depth, r.fns),
            },
        ),
    }
}

/// The type rewritten from its leaves.
pub open spec fn fold_ty_spec(f: Folder, depth: u32, t: Ty) -> Ty
    decreases t,
{
    match t {
        Ty::Param(p) => fold_param_spec(f, p),
        Ty::Infer(v) => fold_infer_spec(f, v),
        Ty::Enum(id, substs) => Ty::Enum(id, fold_substs_spec(f, depth, substs)),
        Ty::Struct(id, substs) => Ty::Struct(id, fold_substs_spec(f, depth, substs)),
        Ty::Closure(id, substs) => Ty::Closure(id, fold_substs_spec(f, depth, substs)),
        Ty::Uniq(inner) => Ty::Uniq(Box::new(fold_ty_spec(f, depth, *inner))),
        Ty::RawPtr(mt) => Ty::RawPtr(fold_mt_spec(f, depth, mt)),
        Ty::Ref(r, mt) => Ty::Ref(fold_region_spec(f, depth, r), fold_mt_spec(f, depth, mt)),
        Ty::Array(inner, n) => Ty::Array(Box::new(fold_ty_spec(f, depth, *inner)), n),
        Ty::Slice(inner) => Ty::Slice(Box::new(fold_ty_spec(f, depth, *inner))),
        Ty::Tuple(parts) => Ty::Tuple(fold_tys_spec(f, depth, parts)),
        Ty::BareFn(id, fty) => Ty::BareFn(id, Box::new(fold_bare_fn_spec(f, depth, *fty))),
        Ty::Trait(data) => Ty::Trait(Box::new(fold_trait_ty_spec(f, depth, *data))),
        Ty::Projection(data) => Ty::Projection(fold_projection_ty_spec(f, depth, data)),
        _ => t,
    }
}

/// Each type of a list rewritten.
pub open spec fn fold_tys_spec(f: Folder, depth: u32, l: List<Ty>) -> List<Ty>
    decreases l,
{
    match l {
        List::Nil => List::Nil,
        List::Cons(t, rest) => List::Cons(
            Box::new(fold_ty_spec(f, depth, *t)),
            Box::new(fold_tys_spec(f, depth, *rest)),
        ),
    }
}

/// The pointee rewritten.
pub open spec fn fold_mt_spec(f: Folder, depth: u32, mt: Mt) -> Mt
    decreases mt,
{
    Mt { ty: Box::new(fold_ty_spec(f, depth, *mt.ty)), mutbl: mt.mutbl }
}

/// Each argument of a substitution rewritten.
pub open spec fn fold_substs_spec(f: Folder, depth: u32, substs: Substs) -> Substs
    decreases substs,
{
    Substs {
        types: PerSpace {
            types: fold_tys_spec(f, depth, substs.types.types),
            selfs: fold_tys_spec(f, depth, substs.types.selfs),
            fns: fold_tys_spec(f, depth, substs.types.fns),
        },
        regions: fold_region_substs_spec(f, depth, substs.regions),
    }
}

/// The arguments of a trait reference rewritten.
pub open spec fn fold_trait_ref_spec(f: Folder, depth: u32, t: TraitRef) -> TraitRef
    decreases t,
{
    TraitRef { def_id: t.def_id, substs: fold_substs_spec(f, depth, t.substs) }
}

/// What a function returns, rewritten.
pub open spec fn fold_fn_output_spec(f: Folder, depth: u32, output: FnOutput) -> FnOutput
    decreases output,
{
    match output {
        FnOutput::Converging(t) => FnOutput::Converging(fold_ty_spec(f, depth, t)),
        FnOutput::Diverging => FnOutput::Diverging,
    }
}

/// The inputs and the output of a signature rewritten.
pub open spec fn fold_fn_sig_spec(f: Folder, depth: u32, sig: FnSig) -> FnSig
    decreases sig,
{
    FnSig {
        inputs: fold_tys_spec(f, depth, sig.inputs),
        output: fold_fn_output_spec(f, depth, sig.output),
        variadic: sig.variadic,
    }
}

/// A function type rewritten; its signature lies under a binder.
pub open spec fn fold_bare_fn_spec(f: Folder, depth: u32, fty: BareFnTy) -> BareFnTy
    decreases fty,
{
    BareFnTy {
        unsafety: fty.unsafety,
        abi: fty.abi,
        sig: Binder(fold_fn_sig_spec(f, deeper(depth), fty.sig.0)),
    }
}

/// A projection rewritten.
pub open spec fn fold_projection_ty_spec(f: Folder, depth: u32, p: ProjectionTy) -> ProjectionTy
    decreases p,
{
    ProjectionTy { trait_ref: fold_trait_ref_spec(f, depth, p.trait_ref), item_name: p.item_name }
}

/// Both sides of a projection predicate rewritten.
pub open spec fn fold_projection_predicate_spec(
    f: Folder,
    depth: u32,
    p: ProjectionPredicate,
) -> ProjectionPredicate
    decreases p,
{
    ProjectionPredicate {
        projection_ty: fold_projection_ty_spec(f, depth, p.projection_ty),
        ty: fold_ty_spec(f, depth, p.ty),
    }
}

/// Each of a list of projection bounds rewritten, under its binder.
pub open spec fn fold_projection_bounds_spec(
    f: Folder,
    depth: u32,
    l: List<PolyProjectionPredicate>,
) -> List<PolyProjectionPredicate>
    decreases l,
{
    match l {
        List::Nil => List::Nil,
        List::Cons(p, rest) => List::Cons(
            Box::new(Binder(fold_projection_predicate_spec(f, deeper(depth), p.0))),
            Box::new(fold_projection_bounds_spec(f, depth, *rest)),
        ),
    }
}

/// The bounds of a trait object rewritten.
pub open spec fn fold_existential_bounds_spec(
    f: Folder,
    depth: u32,
    bounds: ExistentialBounds,
) -> ExistentialBounds
    decreases bounds,
{
    ExistentialBounds {
        region_bound: fold_region_spec(f, depth, bounds.region_bound),
        builtin_bounds: bounds.builtin_bounds,
        projection_bounds: fold_projection_bounds_spec(f, depth, bounds.projection_bounds),
        region_bound_will_change: bounds.region_bound_will_change,
    }
}

/// A trait object rewritten; its principal lies under a binder.
pub open spec fn fold_trait_ty_spec(f: Folder, depth: u32, data: TraitTy) -> TraitTy
    decreases data,
{
    TraitTy {
        principal: Binder(fold_trait_ref_spec(f, deeper(depth), data.principal.0)),
        bounds: fold_existential_bounds_spec(f, depth, data.bounds),
    }
}

fn deeper_of(depth: u32) -> (r: u32)
    ensures
        r == deeper(depth),
{
    if depth < u32::MAX {
        depth + 1
    } else {
        depth
    }
}

fn region_at(l: &List<Region>, idx: u32) -> (r: Option<Region>)
    ensures
        r == (if idx < l.len() {
            Some(l.at(idx as int))
        } else {
            None
        }),
    decreases l,
{
    match l {
        List::Nil => None,
        List::Cons(head, tail) => if idx == 0 {
            Some(**head)
        } else {
            region_at(tail, idx - 1)
        },
    }
}

fn ty_at(l: &List<Ty>, idx: u32) -> (r: Option<&Ty>)
    ensures
        r == (if idx < l.len() {
            Some(&l.at(idx as int))
        } else {
            None
        }),
    decreases l,
{
    match l {
        List::Nil => None,
        List::Cons(head, tail) => if idx == 0 {
            Some(&**head)
        } else {
            ty_at(tail, idx - 1)
        },
    }
}

/// Rewrites a region.
pub fn fold_region(f: &Folder, depth: u32, r: Region) -> (out: Region)
    ensures
        out == fold_region_spec(*f, depth, r),
{
    match f {
        Folder::Subst(substs) => match r {
            Region::EarlyBound(space, idx) => match &substs.regions {
                RegionSubsts::Erased => Region::Static,
                RegionSubsts::NonErased(regions) => match region_at(regions.get_slice(space), idx) {
                    Some(found) => found,
                    None => r,
                },
            },
            _ => r,
        },
        Folder::Open(base) => match r {
            Region::LateBound(d, idx) => if d == depth && idx <= u32::MAX - *base {
                Region::Var(*base + idx)
            } else {
                r
            },
            _ => r,
        },
        Folder::Resolve(infcx) => match r {
            Region::Var(v) => match infcx.region_solutions.get(&v) {
                Some(found) => *found,
                None => r,
            },
            _ => r,
        },
    }
}

fn fold_param(f: &Folder, p: ParamTy) -> (out: Ty)
    ensures
        out == fold_param_spec(*f, p),
{
    match f {
        Folder::Subst(substs) => match ty_at(substs.types.get_slice(p.space), p.idx) {
            Some(found) => found.clone(),
            None => Ty::Param(p),
        },
        _ => Ty::Param(p),
    }
}

fn fold_infer(f: &Folder, v: u32) -> (out: Ty)
    ensures
        out == fold_infer_spec(*f, v),
{
    match f {
        Folder::Resolve(infcx) => match infcx.type_solutions.get(&v) {
            Some(found) => found.clone(),
            None => Ty::Infer(v),
        },
        _ => Ty::Infer(v),
    }
}

/// Rewrites each region of a list.
pub fn fold_regions(f: &Folder, depth: u32, l: &List<Region>) -> (out: List<Region>)
    ensures
        out == fold_regions_spec(*f, depth, *l),
    decreases l,
{
    match l {
        List::Nil => List::Nil,
        List::Cons(r, rest) => List::Cons(
            Box::new(fold_region(f, depth, **r)),
            Box::new(fold_regions(f, depth, rest)),
        ),
    }
}

fn fold_region_substs(f: &Folder, depth: u32, regions: &RegionSubsts) -> (out: RegionSubsts)
    ensures
        out == fold_region_substs_spec(*f, depth, *regions),
{
    match regions {
        RegionSubsts::Erased => RegionSubsts::Erased,
        RegionSubsts::NonErased(r) => RegionSubsts::NonErased(
            PerSpace {
                types: fold_regions(f, depth, &r.types),
                selfs: fold_regions(f, depth, &r.selfs),
                fns: fold_regions(f, depth, &r.fns),
            },
        ),
    }
}

/// Rewrites a type.
pub fn fold_ty(f: &Folder, depth: u32, t: &Ty) -> (out: Ty)
    ensures
        out == fold_ty_spec(*f, depth, *t),
    decreases t,
{
    match t {
        Ty::Param(p) => fold_param(f, *p),
        Ty::Infer(v) => fold_infer(f, *v),
        Ty::Enum(id, substs) => Ty::Enum(*id, fold_substs(f, depth, substs)),
        Ty::Struct(id, substs) => Ty::Struct(*id, fold_substs(f, depth, substs)),
        Ty::Closure(id, substs) => Ty::Closure(*id, fold_substs(f, depth, substs)),
        Ty::Uniq(inner) => Ty::Uniq(Box::new(fold_ty(f, depth, inner))),
        Ty::RawPtr(mt) => Ty::RawPtr(fold_mt(f, depth, mt)),
        Ty::Ref(r, mt) => Ty::Ref(fold_region(f, depth, *r), fold_mt(f, depth, mt)),
        Ty::Array(inner, n) => Ty::Array(Box::new(fold_ty(f, depth, inner)), *n),
        Ty::Slice(inner) => Ty::Slice(Box::new(fold_ty(f, depth, inner))),
        Ty::Tuple(parts) => Ty::Tuple(fold_tys(f, depth, parts)),
        Ty::BareFn(id, fty) => Ty::BareFn(*id, Box::new(fold_bare_fn(f, depth, fty))),
        Ty::Trait(data) => Ty::Trait(Box::new(fold_trait_ty(f, depth, data))),
        Ty::Projection(data) => Ty::Projection(fold_projection_ty(f, depth, data)),
        Ty::Bool => Ty::Bool,
        Ty::Char => Ty::Char,
        Ty::Int(i) => Ty::Int(*i),
        Ty::Uint(u) => Ty::Uint(*u),
        Ty::Float(x) => Ty::Float(*x),
        Ty::Str => Ty::Str,
        Ty::Error => Ty::Error,
    }
}

/// Rewrites each type of a list.
pub fn fold_tys(f: &Folder, depth: u32, l: &List<Ty>) -> (out: List<Ty>)
    ensures
        out == fold_tys_spec(*f, depth, *l),
    decreases l,
{
    match l {
        List::Nil => List::Nil,
        List::Cons(t, rest) => List::Cons(
            Box::new(fold_ty(f, depth, t)),
            Box::new(fold_tys(f, depth, rest)),
        ),
    }
}

/// Rewrites a pointee.
pub fn fold_mt(f: &Folder, depth: u32, mt: &Mt) -> (out: Mt)
    ensures
        out == fold_mt_spec(*f, depth, *mt),
    decreases mt,
{
    Mt { ty: Box::new(fold_ty(f, depth, &mt.ty)), mutbl: mt.mutbl }
}

/// Rewrites each argument of a substitution.
pub fn fold_substs(f: &Folder, depth: u32, substs: &Substs) -> (out: Substs)
    ensures
        out == fold_substs_spec(*f, depth, *substs),
    decreases substs,
{
    Substs {
        types: PerSpace {
            types: fold_tys(f, depth, &substs.types.types),
            selfs: fold_tys(f, depth, &substs.types.selfs),
            fns: fold_tys(f, depth, &substs.types.fns),
        },
        regions: fold_region_substs(f, depth, &substs.regions),
    }
}

/// Rewrites the arguments of a trait reference.
pub fn fold_trait_ref(f: &Folder, depth: u32, t: &TraitRef) -> (out: TraitRef)
    ensures
        out == fold_trait_ref_spec(*f, depth, *t),
    decreases t,
{
    TraitRef { def_id: t.def_id, substs: fold_substs(f, depth, &t.substs) }
}

fn fold_fn_output(f: &Folder, depth: u32, output: &FnOutput) -> (out: FnOutput)
    ensures
        out == fold_fn_output_spec(*f, depth, *output),
    decreases output,
{
    match output {
        FnOutput::Converging(t) => FnOutput::Converging(fold_ty(f, depth, t)),
        FnOutput::Diverging => FnOutput::Diverging,
    }
}

/// Rewrites the inputs and the output of a signature.
pub fn fold_fn_sig(f: &Folder, depth: u32, sig: &FnSig) -> (out: FnSig)
    ensures
        out == fold_fn_sig_spec(*f, depth, *sig),
    decreases sig,
{
    FnSig {
        inputs: fold_tys(f, depth, &sig.inputs),
        output: fold_fn_output(f, depth, &sig.output),
        variadic: sig.variadic,
    }
}

/// Rewrites a function type.
pub fn fold_bare_fn(f: &Folder, depth: u32, fty: &BareFnTy) -> (out: BareFnTy)
    ensures
        out == fold_bare_fn_spec(*f, depth, *fty),
    decreases fty,
{
    BareFnTy {
        unsafety: fty.unsafety,
        abi: fty.abi,
        sig: Binder(fold_fn_sig(f, deeper_of(depth), &fty.sig.0)),
    }
}

/// Rewrites a projection.
pub fn fold_projection_ty(f: &Folder, depth: u32, p: &ProjectionTy) -> (out: ProjectionTy)
    ensures
        out == fold_projection_ty_spec(*f, depth, *p),
    decreases p,
{
    ProjectionTy { trait_ref: fold_trait_ref(f, depth, &p.trait_ref), item_name: p.item_name }
}

/// Rewrites both sides of a projection predicate.
pub fn fold_projection_predicate(f: &Folder, depth: u32, p: &ProjectionPredicate) -> (out:
    ProjectionPredicate)
    ensures
        out == fold_projection_predicate_spec(*f, depth, *p),
    decreases p,
{
    ProjectionPredicate {
        projection_ty: fold_projection_ty(f, depth, &p.projection_ty),
        ty: fold_ty(f, depth, &p.ty),
    }
}

fn fold_projection_bounds(f: &Folder, depth: u32, l: &List<PolyProjectionPredicate>) -> (out: List<
    PolyProjectionPredicate,
>)
    ensures
        out == fold_projection_bounds_spec(*f, depth, *l),
    decreases l,
{
    match l {
        List::Nil => List::Nil,
        List::Cons(p, rest) => List::Cons(
            Box::new(Binder(fold_projection_predicate(f, deeper_of(depth), &p.0))),
            Box::new(fold_projection_bounds(f, depth, rest)),
        ),
    }
}

fn fold_existential_bounds(f: &Folder, depth: u32, bounds: &ExistentialBounds) -> (out:
    ExistentialBounds)
    ensures
        out == fold_existential_bounds_spec(*f, depth, *bounds),
    decreases bounds,
{
    ExistentialBounds {
        region_bound: fold_region(f, depth, bounds.region_bound),
        builtin_bounds: bounds.builtin_bounds,
        projection_bounds: fold_projection_bounds(f, depth, &bounds.projection_bounds),
        region_bound_will_change: bounds.region_bound_will_change,
    }
}

fn fold_trait_ty(f: &Folder, depth: u32, data: &TraitTy) -> (out: TraitTy)
    ensures
        out == fold_trait_ty_spec(*f, depth, *data),
    decreases data,
{
    TraitTy {
        principal: Binder(fold_trait_ref(f, deeper_of(depth), &data.principal.0)),
        bounds: fold_existential_bounds(f, depth, &data.bounds),
    }
}

} // verus!
