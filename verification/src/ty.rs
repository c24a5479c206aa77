//! Type-level terms: types, regions, substitutions, trait references and
//! function signatures, and the errors that relating two of them can give.
//!
//! Terms are immutable trees. Substituting into a term or relating two terms
//! yields a new term. Equality of terms is structural.

use crate::list::{copy_list, List};
use vstd::prelude::*;

verus! {

/// An interned identifier (a field, an associated item).
pub type Name = u32;

/// The stable id of a syntax node.
pub type NodeId = u32;

/// Where in the source something stands.
#[derive(Debug, PartialEq, Eq, Clone, Copy, Structural)]
pub struct Span {
    pub lo: u32,
    pub hi: u32,
}

/// The span of what stands nowhere in the source of this crate.
pub open spec fn dummy_span() -> Span {
    Span { lo: 0, hi: 0 }
}

impl Span {
    /// The span of what stands nowhere in the source of this crate.
    pub fn dummy() -> (r: Span)
        ensures
            r == dummy_span(),
    {
        Span { lo: 0, hi: 0 }
    }
}

/// The number of the crate that is being compiled.
pub const LOCAL_CRATE: u32 = 0;

/// The id of an item: its crate and its node in that crate.
#[derive(Debug, PartialEq, Eq, Clone, Copy, Structural)]
pub struct DefId {
    pub krate: u32,
    pub node: u32,
}

/// Whether what a pointer points to may be changed through it.
#[derive(Debug, PartialEq, Eq, Clone, Copy, Structural)]
pub enum Mutability {
    Mutable,
    Immutable,
}

/// Whether a function is unsafe to call.
#[derive(Debug, PartialEq, Eq, Clone, Copy, Structural)]
pub enum Unsafety {
    Unsafe,
    Normal,
}

/// A calling convention.
#[derive(Debug, PartialEq, Eq, Clone, Copy, Structural)]
pub enum Abi {
    Rust,
    C,
    System,
    RustIntrinsic,
    RustCall,
}

/// How a generic parameter of an item may vary when the item's type does.
#[derive(Debug, PartialEq, Eq, Clone, Copy, Structural)]
pub enum Variance {
    Covariant,
    Invariant,
    Contravariant,
    Bivariant,
}

/// The three groups into which the generic parameters of an item fall.
#[derive(Debug, PartialEq, Eq, Clone, Copy, Structural)]
pub enum ParamSpace {
    /// Parameters of the type, trait or impl.
    TypeSpace,
    /// The `Self` parameter of a trait.
    SelfSpace,
    /// Parameters of the method or function itself.
    FnSpace,
}

/// A signed integer type.
#[derive(Debug, PartialEq, Eq, Clone, Copy, Structural)]
pub enum IntTy {
    Isize,
    I8,
    I16,
    I32,
    I64,
}

/// An unsigned integer type.
#[derive(Debug, PartialEq, Eq, Clone, Copy, Structural)]
pub enum UintTy {
    Usize,
    U8,
    U16,
    U32,
    U64,
}

/// A floating-point type.
#[derive(Debug, PartialEq, Eq, Clone, Copy, Structural)]
pub enum FloatTy {
    Single,
    Double,
}

/// The built-in traits that a trait object may be bounded by.
#[derive(Debug, PartialEq, Eq, Clone, Copy, Structural)]
pub struct BuiltinBounds {
    pub send: bool,
    pub sized: bool,
    pub copy: bool,
    pub sync: bool,
}

/// The name of a span of validity.
#[derive(Debug, PartialEq, Eq, Clone, Copy, Structural)]
pub enum Region {
    /// Valid for the whole program.
    Static,
    /// A named region of the enclosing function.
    Free(u32),
    /// The extent of the syntax node with this id.
    Scope(NodeId),
    /// A region parameter of an item, by space and index, to be substituted.
    EarlyBound(ParamSpace, u32),
    /// A region bound by the binder that many levels out (1 is the innermost),
    /// and its index in that binder.
    LateBound(u32, u32),
    /// A placeholder that the inference oracle resolves.
    Var(u32),
}

/// A generic type parameter, by space and index.
#[derive(Debug, PartialEq, Eq, Clone, Copy, Structural)]
pub struct ParamTy {
    pub space: ParamSpace,
    pub idx: u32,
}

/// One list per parameter space.
#[derive(Debug, PartialEq, Eq)]
pub struct PerSpace<T> {
    pub types: List<T>,
    pub selfs: List<T>,
    pub fns: List<T>,
}

impl<T> PerSpace<T> {
    /// The list of the given space.
    pub open spec fn of(self, space: ParamSpace) -> List<T> {
        match space {
            ParamSpace::TypeSpace => self.types,
            ParamSpace::SelfSpace => self.selfs,
            ParamSpace::FnSpace => self.fns,
        }
    }

    /// No arguments in any space.
    pub fn empty() -> (r: Self)
        ensures
            r == (PerSpace::<T> { types: List::Nil, selfs: List::Nil, fns: List::Nil }),
    {
        PerSpace { types: List::Nil, selfs: List::Nil, fns: List::Nil }
    }

    /// The list of the given space.
    pub fn get_slice(&self, space: ParamSpace) -> (r: &List<T>)
        ensures
            *r == self.of(space),
    {
        match space {
            ParamSpace::TypeSpace => &self.types,
            ParamSpace::SelfSpace => &self.selfs,
            ParamSpace::FnSpace => &self.fns,
        }
    }
}

/// The region arguments of a substitution.
#[derive(Debug, PartialEq, Eq)]
pub enum RegionSubsts {
    /// Regions have been erased.
    Erased,
    NonErased(PerSpace<Region>),
}

/// A substitution: the arguments for the generic parameters of an item,
/// slot by slot.
#[derive(Debug, PartialEq, Eq)]
pub struct Substs {
    pub types: PerSpace<Ty>,
    pub regions: RegionSubsts,
}

/// The declared variance of each generic parameter of an item.
#[derive(Debug, PartialEq, Eq)]
pub struct ItemVariances {
    pub types: PerSpace<Variance>,
    pub regions: PerSpace<Variance>,
}

/// A value under a binder: regions `LateBound(1, _)` in it are bound here.
#[derive(Debug, PartialEq, Eq)]
pub struct Binder<T>(pub T);

/// A type together with the mutability of the pointer to it.
#[derive(Debug, PartialEq, Eq)]
pub struct Mt {
    pub ty: Box<Ty>,
    pub mutbl: Mutability,
}

/// A trait with its arguments. The implementing type is the one slot of
/// the `Self` space.
#[derive(Debug, PartialEq, Eq)]
pub struct TraitRef {
    pub def_id: DefId,
    pub substs: Substs,
}

/// A trait reference under a binder.
pub type PolyTraitRef = Binder<TraitRef>;

/// What a function returns: a value, or never.
#[derive(Debug, PartialEq, Eq)]
pub enum FnOutput {
    Converging(Ty),
    Diverging,
}

/// The signature of a function.
#[derive(Debug, PartialEq, Eq)]
pub struct FnSig {
    pub inputs: List<Ty>,
    pub output: FnOutput,
    pub variadic: bool,
}

/// A signature under a binder.
pub type PolyFnSig = Binder<FnSig>;

/// A function type.
#[derive(Debug, PartialEq, Eq)]
pub struct BareFnTy {
    pub unsafety: Unsafety,
    pub abi: Abi,
    pub sig: PolyFnSig,
}

/// An associated type of a trait reference: `<T as Trait<..>>::Name`.
#[derive(Debug, PartialEq, Eq)]
pub struct ProjectionTy {
    pub trait_ref: TraitRef,
    pub item_name: Name,
}

/// The requirement that a projection equals a type.
#[derive(Debug, PartialEq, Eq)]
pub struct ProjectionPredicate {
    pub projection_ty: ProjectionTy,
    pub ty: Ty,
}

/// A projection predicate under a binder.
pub type PolyProjectionPredicate = Binder<ProjectionPredicate>;

/// The bounds of a trait object beside its principal trait.
#[derive(Debug, PartialEq, Eq)]
pub struct ExistentialBounds {
    pub region_bound: Region,
    pub builtin_bounds: BuiltinBounds,
    /// Sorted by the producer by trait and item name.
    pub projection_bounds: List<PolyProjectionPredicate>,
    pub region_bound_will_change: bool,
}

/// A trait-object type.
#[derive(Debug, PartialEq, Eq)]
pub struct TraitTy {
    pub principal: PolyTraitRef,
    pub bounds: ExistentialBounds,
}

/// A type.
#[derive(Debug, PartialEq, Eq)]
pub enum Ty {
    Bool,
    Char,
    Int(IntTy),
    Uint(UintTy),
    Float(FloatTy),
    Str,
    Enum(DefId, Substs),
    Struct(DefId, Substs),
    /// The type of the closure expression with this id.
    Closure(DefId, Substs),
    /// An owning pointer.
    Uniq(Box<Ty>),
    RawPtr(Mt),
    Ref(Region, Mt),
    Array(Box<Ty>, usize),
    Slice(Box<Ty>),
    Tuple(List<Ty>),
    /// A function type; with the id of the item if it names one.
    BareFn(Option<DefId>, Box<BareFnTy>),
    Trait(Box<TraitTy>),
    Projection(ProjectionTy),
    Param(ParamTy),
    /// A placeholder that the inference oracle resolves.
    Infer(u32),
    /// Stands for a type that could not be determined; relates to anything.
    Error,
}

/// The two sides of a mismatch, ordered by which side was expected.
#[derive(Debug, PartialEq, Eq)]
pub struct ExpectedFound<T> {
    pub expected: T,
    pub found: T,
}

/// Why two terms do not relate.
#[derive(Debug, PartialEq, Eq)]
pub enum TypeError {
    Mutability,
    TupleSize(ExpectedFound<usize>),
    FixedArraySize(ExpectedFound<usize>),
    /// Two substitutions for one item differ in the number of slots of a space.
    ParamCount(ExpectedFound<usize>),
    /// Two function signatures differ in the number of inputs.
    ArgCount,
    UnsafetyMismatch(ExpectedFound<Unsafety>),
    AbiMismatch(ExpectedFound<Abi>),
    VariadicMismatch(ExpectedFound<bool>),
    /// One function returns and the other does not; `true` stands for returning.
    ConvergenceMismatch(ExpectedFound<bool>),
    BuiltinBounds(ExpectedFound<BuiltinBounds>),
    Traits(ExpectedFound<DefId>),
    ProjectionNameMismatched(ExpectedFound<Name>),
    ProjectionBoundsLength(ExpectedFound<usize>),
    /// The terms differ in shape.
    Sorts(ExpectedFound<Ty>),
    RegionsDoNotOutlive(ExpectedFound<Region>),
    RegionsNotSame(ExpectedFound<Region>),
}

/// What relating two terms gives: the related term, or why they do not relate.
pub type RelateResult<T> = Result<T, TypeError>;

impl Ty {
    /// `Bool`, `Char`, a number type or `Str`: a type without parts.
    pub open spec fn is_leaf(self) -> bool {
        self is Bool || self is Char || self is Int || self is Uint || self is Float || self is Str
    }

    /// A mutable reference.
    pub open spec fn is_mut_ref(self) -> bool {
        self matches Ty::Ref(_, mt) && mt.mutbl == Mutability::Mutable
    }
}

impl Clone for Ty {
    fn clone(&self) -> (r: Self)
        ensures
            r == *self,
        decreases self,
    {
        match self {
            Ty::Bool => Ty::Bool,
            Ty::Char => Ty::Char,
            Ty::Int(t) => Ty::Int(*t),
            Ty::Uint(t) => Ty::Uint(*t),
            Ty::Float(t) => Ty::Float(*t),
            Ty::Str => Ty::Str,
            Ty::Enum(id, substs) => Ty::Enum(*id, substs.clone()),
            Ty::Struct(id, substs) => Ty::Struct(*id, substs.clone()),
            Ty::Closure(id, substs) => Ty::Closure(*id, substs.clone()),
            Ty::Uniq(inner) => Ty::Uniq(Box::new((**inner).clone())),
            Ty::RawPtr(mt) => Ty::RawPtr(mt.clone()),
            Ty::Ref(r, mt) => Ty::Ref(*r, mt.clone()),
            Ty::Array(inner, n) => Ty::Array(Box::new((**inner).clone()), *n),
            Ty::Slice(inner) => Ty::Slice(Box::new((**inner).clone())),
            Ty::Tuple(parts) => Ty::Tuple(clone_tys(parts)),
            Ty::BareFn(id, fty) => Ty::BareFn(*id, Box::new((**fty).clone())),
            Ty::Trait(data) => Ty::Trait(Box::new((**data).clone())),
            Ty::Projection(data) => Ty::Projection(data.clone()),
            Ty::Param(p) => Ty::Param(*p),
            Ty::Infer(v) => Ty::Infer(*v),
            Ty::Error => Ty::Error,
        }
    }
}

/// A copy of a list of types.
pub fn clone_tys(l: &List<Ty>) -> (r: List<Ty>)
    ensures
        r == *l,
    decreases l,
{
    match l {
        List::Nil => List::Nil,
        List::Cons(head, tail) => List::Cons(Box::new((**head).clone()), Box::new(clone_tys(tail))),
    }
}

impl Clone for Mt {
    fn clone(&self) -> (r: Self)
        ensures
            r == *self,
        decreases self,
    {
        Mt { ty: Box::new((*self.ty).clone()), mutbl: self.mutbl }
    }
}

impl Clone for Substs {
    fn clone(&self) -> (r: Self)
        ensures
            r == *self,
        decreases self,
    {
        Substs {
            types: PerSpace {
                types: clone_tys(&self.types.types),
                selfs: clone_tys(&self.types.selfs),
                fns: clone_tys(&self.types.fns),
            },
            regions: self.regions.clone(),
        }
    }
}

impl Clone for RegionSubsts {
    fn clone(&self) -> (r: Self)
        ensures
            r == *self,
    {
        match self {
            RegionSubsts::Erased => RegionSubsts::Erased,
            RegionSubsts::NonErased(regions) => RegionSubsts::NonErased(
                PerSpace {
                    types: copy_list(&regions.types),
                    selfs: copy_list(&regions.selfs),
                    fns: copy_list(&regions.fns),
                },
            ),
        }
    }
}

impl Clone for ItemVariances {
    fn clone(&self) -> (r: Self)
        ensures
            r == *self,
    {
        ItemVariances {
            types: PerSpace {
                types: copy_list(&self.types.types),
                selfs: copy_list(&self.types.selfs),
                fns: copy_list(&self.types.fns),
            },
            regions: PerSpace {
                types: copy_list(&self.regions.types),
                selfs: copy_list(&self.regions.selfs),
                fns: copy_list(&self.regions.fns),
            },
        }
    }
}

impl Clone for TraitRef {
    fn clone(&self) -> (r: Self)
        ensures
            r == *self,
        decreases self,
    {
        TraitRef { def_id: self.def_id, substs: self.substs.clone() }
    }
}

impl Clone for FnOutput {
    fn clone(&self) -> (r: Self)
        ensures
            r == *self,
        decreases self,
    {
        match self {
            FnOutput::Converging(t) => FnOutput::Converging(t.clone()),
            FnOutput::Diverging => FnOutput::Diverging,
        }
    }
}

impl Clone for FnSig {
    fn clone(&self) -> (r: Self)
        ensures
            r == *self,
        decreases self,
    {
        FnSig {
            inputs: clone_tys(&self.inputs),
            output: self.output.clone(),
            variadic: self.variadic,
        }
    }
}

impl Clone for BareFnTy {
    fn clone(&self) -> (r: Self)
        ensures
            r == *self,
        decreases self,
    {
        BareFnTy { unsafety: self.unsafety, abi: self.abi, sig: Binder(self.sig.0.clone()) }
    }
}

impl Clone for ProjectionTy {
    fn clone(&self) -> (r: Self)
        ensures
            r == *self,
        decreases self,
    {
        ProjectionTy { trait_ref: self.trait_ref.clone(), item_name: self.item_name }
    }
}

impl Clone for ProjectionPredicate {
    fn clone(&self) -> (r: Self)
        ensures
            r == *self,
        decreases self,
    {
        ProjectionPredicate { projection_ty: self.projection_ty.clone(), ty: self.ty.clone() }
    }
}

/// A copy of a list of projection bounds.
pub fn clone_projection_bounds(l: &List<PolyProjectionPredicate>) -> (r: List<
    PolyProjectionPredicate,
>)
    ensures
        r == *l,
    decreases l,
{
    match l {
        List::Nil => List::Nil,
        List::Cons(head, tail) => List::Cons(
            Box::new(Binder(head.0.clone())),
            Box::new(clone_projection_bounds(tail)),
        ),
    }
}

impl Clone for ExistentialBounds {
    fn clone(&self) -> (r: Self)
        ensures
            r == *self,
        decreases self,
    {
        ExistentialBounds {
            region_bound: self.region_bound,
            builtin_bounds: self.builtin_bounds,
            projection_bounds: clone_projection_bounds(&self.projection_bounds),
            region_bound_will_change: self.region_bound_will_change,
        }
    }
}

impl Clone for TraitTy {
    fn clone(&self) -> (r: Self)
        ensures
            r == *self,
        decreases self,
    {
        TraitTy { principal: Binder(self.principal.0.clone()), bounds: self.bounds.clone() }
    }
}

} // verus!
