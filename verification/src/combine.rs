//! The relations that the library itself provides: equality, subtyping in
//! both directions, and the relation that relates everything of one shape.
//!
//! They differ in the direction in which two regions must outlive one
//! another, so one strategy, [`Combine`], holds them all: its direction is a
//! variance. Covariant is subtyping (`a` is a subtype of `b`), contravariant
//! is subtyping the other way round, invariant is equality, and bivariant
//! asks nothing of regions.
//!
//! Regions are compared against the outlives facts that the caller states. A
//! placeholder, of a type or of a region, is let through against anything:
//! what it stands for is for the inference oracle to settle.

use crate::ctxt::Ctxt;
use crate::list::List;
use crate::relate::{expected_found_bool_spec, Cause, TypeRelation};
use crate::ty::{
    ExpectedFound, PolyFnSig, PolyProjectionPredicate, PolyTraitRef, Region, RelateResult, Ty,
    TypeError, Variance,
};
use vstd::prelude::*;

verus! {

/// The fact that the region `longer` outlives the region `shorter`.
#[derive(Clone, Copy, Debug, PartialEq, Eq, Structural)]
pub struct Outlives {
    pub longer: Region,
    pub shorter: Region,
}

/// Whether `facts` lists that `longer` outlives `shorter`.
pub open spec fn listed(facts: List<Outlives>, longer: Region, shorter: Region) -> bool
    decreases facts,
{
    match facts {
        List::Nil => false,
        List::Cons(fact, rest) => (fact.longer == longer && fact.shorter == shorter) || listed(
            *rest,
            longer,
            shorter,
        ),
    }
}

/// Whether `longer` outlives `shorter`: a region outlives itself, the static
/// region outlives every region, a placeholder is let through, and the rest
/// is what `facts` lists.
pub open spec fn outlives(facts: List<Outlives>, longer: Region, shorter: Region) -> bool {
    longer == shorter || longer is Static || longer is Var || shorter is Var || listed(
        facts,
        longer,
        shorter,
    )
}

/// What a direction becomes inside a slot of the given variance.
///
/// Equality stays equality. In an invariant slot every direction becomes
/// equality. Otherwise a bivariant direction or slot asks nothing, and a
/// contravariant slot turns the direction round.
pub open spec fn xform(ambient: Variance, variance: Variance) -> Variance {
    if ambient is Invariant || variance is Invariant {
        Variance::Invariant
    } else if ambient is Bivariant || variance is Bivariant {
        Variance::Bivariant
    } else if ambient == variance {
        Variance::Covariant
    } else {
        Variance::Contravariant
    }
}

/// The direction turned round.
pub open spec fn turned(ambient: Variance) -> Variance {
    match ambient {
        Variance::Covariant => Variance::Contravariant,
        Variance::Contravariant => Variance::Covariant,
        Variance::Invariant => Variance::Invariant,
        Variance::Bivariant => Variance::Bivariant,
    }
}

/// What a direction becomes inside a slot of the given variance.
pub fn direction_in(ambient: Variance, variance: Variance) -> (r: Variance)
    ensures
        r == xform(ambient, variance),
{
    if ambient == Variance::Invariant || variance == Variance::Invariant {
        Variance::Invariant
    } else if ambient == Variance::Bivariant || variance == Variance::Bivariant {
        Variance::Bivariant
    } else if ambient == variance {
        Variance::Covariant
    } else {
        Variance::Contravariant
    }
}

fn is_listed(facts: &List<Outlives>, longer: Region, shorter: Region) -> (r: bool)
    ensures
        r == listed(*facts, longer, shorter),
    decreases facts,
{
    match facts {
        List::Nil => false,
        List::Cons(fact, rest) => (fact.longer == longer && fact.shorter == shorter) || is_listed(
            rest,
            longer,
            shorter,
        ),
    }
}

fn is_var(r: Region) -> (b: bool)
    ensures
        b == (r is Var),
{
    match r {
        Region::Var(_) => true,
        _ => false,
    }
}

/// Equality, subtyping, or the relation that asks nothing of regions.
#[derive(Clone, Copy, Debug)]
pub struct Combine<'a> {
    pub tcx: &'a Ctxt,
    /// The outlives facts that hold between regions.
    pub facts: &'a List<Outlives>,
    /// The direction: covariant for "`a` is a subtype of `b`".
    pub ambient: Variance,
    pub a_is_expected: bool,
}

impl<'a> Combine<'a> {
    /// The same relation in another direction.
    pub open spec fn directed(self, ambient: Variance) -> Self {
        Combine { tcx: self.tcx, facts: self.facts, ambient, a_is_expected: self.a_is_expected }
    }

    /// Whether the regions `a` and `b` relate in the direction of `self`.
    pub open spec fn regions_relate(self, a: Region, b: Region) -> bool {
        match self.ambient {
            Variance::Covariant => outlives(*self.facts, b, a),
            Variance::Contravariant => outlives(*self.facts, a, b),
            Variance::Invariant => a == b || a is Var || b is Var,
            Variance::Bivariant => true,
        }
    }

    /// Subtyping: the first term is to be a subtype of the second, and is the
    /// expected one.
    pub fn sub(tcx: &'a Ctxt, facts: &'a List<Outlives>) -> (r: Self)
        ensures
            r == (Combine { tcx, facts, ambient: Variance::Covariant, a_is_expected: true }),
    {
        Combine { tcx, facts, ambient: Variance::Covariant, a_is_expected: true }
    }

    /// Equality; the first term is the expected one.
    pub fn equate(tcx: &'a Ctxt, facts: &'a List<Outlives>) -> (r: Self)
        ensures
            r == (Combine { tcx, facts, ambient: Variance::Invariant, a_is_expected: true }),
    {
        Combine { tcx, facts, ambient: Variance::Invariant, a_is_expected: true }
    }

    /// Whether `longer` outlives `shorter` by the facts of this relation.
    pub fn outlives(&self, longer: Region, shorter: Region) -> (r: bool)
        ensures
            r == outlives(*self.facts, longer, shorter),
    {
        longer == shorter || longer == Region::Static || is_var(longer) || is_var(shorter)
            || is_listed(self.facts, longer, shorter)
    }
}

impl<'a> TypeRelation for Combine<'a> {
    open spec fn spec_tcx(&self) -> Ctxt {
        *self.tcx
    }

    open spec fn spec_tag(&self) -> Seq<char> {
        match self.ambient {
            Variance::Covariant => "Sub"@,
            Variance::Contravariant => "Sup"@,
            Variance::Invariant => "Equate"@,
            Variance::Bivariant => "Bivariate"@,
        }
    }

    open spec fn spec_a_is_expected(&self) -> bool {
        self.a_is_expected
    }

    open spec fn spec_with_cause(&self, cause: Cause) -> Self {
        *self
    }

    /// A default on the side that must outlive the other can only help; one
    /// on the other side may break the relation. For equality either may.
    open spec fn spec_will_change(&self, a: bool, b: bool) -> bool {
        match self.ambient {
            Variance::Covariant => !a && b,
            Variance::Contravariant => !b && a,
            Variance::Invariant => a || b,
            Variance::Bivariant => false,
        }
    }

    open spec fn spec_relate_with_variance(&self, variance: Variance) -> Self {
        self.directed(xform(self.ambient, variance))
    }

    /// A placeholder relates to anything and gives way to the other side.
    open spec fn spec_tys(&self, a: Ty, b: Ty) -> Option<RelateResult<Ty>> {
        if b is Infer {
            Some(Ok(a))
        } else if a is Infer {
            Some(Ok(b))
        } else {
            None
        }
    }

    /// The region of the side that is to be the subtype, if the regions
    /// relate in the direction of `self`.
    open spec fn spec_regions(&self, a: Region, b: Region) -> RelateResult<Region> {
        if self.regions_relate(a, b) {
            Ok(
                if self.ambient is Contravariant {
                    b
                } else {
                    a
                },
            )
        } else if self.ambient is Invariant {
            Err(TypeError::RegionsNotSame(expected_found_bool_spec(self.a_is_expected, a, b)))
        } else {
            Err(TypeError::RegionsDoNotOutlive(expected_found_bool_spec(self.a_is_expected, a, b)))
        }
    }

    open spec fn spec_binders(&self) -> Self {
        *self
    }

    open spec fn spec_fn_sig_binders(&self, a: PolyFnSig, b: PolyFnSig) -> Option<
        RelateResult<PolyFnSig>,
    > {
        None
    }

    open spec fn spec_trait_ref_binders(&self, a: PolyTraitRef, b: PolyTraitRef) -> Option<
        RelateResult<PolyTraitRef>,
    > {
        None
    }

    open spec fn spec_projection_binders(
        &self,
        a: PolyProjectionPredicate,
        b: PolyProjectionPredicate,
    ) -> Option<RelateResult<PolyProjectionPredicate>> {
        None
    }

    fn tcx(&self) -> (r: &Ctxt) {
        self.tcx
    }

    fn tag(&self) -> (r: &'static str) {
        match self.ambient {
            Variance::Covariant => "Sub",
            Variance::Contravariant => "Sup",
            Variance::Invariant => "Equate",
            Variance::Bivariant => "Bivariate",
        }
    }

    fn a_is_expected(&self) -> (r: bool) {
        self.a_is_expected
    }

    fn with_cause(&self, cause: Cause) -> (r: Self) {
        *self
    }

    fn will_change(&self, a: bool, b: bool) -> (r: bool) {
        match self.ambient {
            Variance::Covariant => !a && b,
            Variance::Contravariant => !b && a,
            Variance::Invariant => a || b,
            Variance::Bivariant => false,
        }
    }

    fn relate_with_variance(&self, variance: Variance) -> (r: Self) {
        Combine {
            tcx: self.tcx,
            facts: self.facts,
            ambient: direction_in(self.ambient, variance),
            a_is_expected: self.a_is_expected,
        }
    }

    fn tys(&self, a: &Ty, b: &Ty) -> (r: Option<RelateResult<Ty>>) {
        if matches!(b, Ty::Infer(_)) {
            Some(Ok(a.clone()))
        } else if matches!(a, Ty::Infer(_)) {
            Some(Ok(b.clone()))
        } else {
            None
        }
    }

    fn regions(&self, a: Region, b: Region) -> (r: RelateResult<Region>) {
        let sides = if self.a_is_expected {
            ExpectedFound { expected: a, found: b }
        } else {
            ExpectedFound { expected: b, found: a }
        };
        match self.ambient {
            Variance::Covariant => if self.outlives(b, a) {
                Ok(a)
            } else {
                Err(TypeError::RegionsDoNotOutlive(sides))
            },
            Variance::Contravariant => if self.outlives(a, b) {
                Ok(b)
            } else {
                Err(TypeError::RegionsDoNotOutlive(sides))
            },
            Variance::Invariant => if a == b || is_var(a) || is_var(b) {
                Ok(a)
            } else {
                Err(TypeError::RegionsNotSame(sides))
            },
            Variance::Bivariant => Ok(a),
        }
    }

    fn binders(&self) -> (r: Self) {
        *self
    }

    fn fn_sig_binders(&self, a: &PolyFnSig, b: &PolyFnSig) -> (r: Option<RelateResult<PolyFnSig>>) {
        None
    }

    fn trait_ref_binders(&self, a: &PolyTraitRef, b: &PolyTraitRef) -> (r: Option<
        RelateResult<PolyTraitRef>,
    >) {
        None
    }

    fn projection_binders(
        &self,
        a: &PolyProjectionPredicate,
        b: &PolyProjectionPredicate,
    ) -> (r: Option<RelateResult<PolyProjectionPredicate>>) {
        None
    }
}

} // verus!
