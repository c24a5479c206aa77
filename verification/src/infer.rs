//! What the library holds of the inference oracle: the counters from which
//! placeholders are minted, and the oracle's final answers.

use crate::list::List;
use crate::ty::{Region, Ty};
use std::collections::HashMap;
use vstd::prelude::*;

verus! {

/// The state of inference for one function.
///
/// Placeholders are numbered. The library mints them, so that a confirmed
/// call can name placeholders that no earlier term holds; the oracle solves
/// them and leaves its final answers here for writeback.
pub struct InferCtxt {
    /// The number of the next type placeholder.
    pub next_ty_var: u32,
    /// The number of the next region placeholder.
    pub next_region_var: u32,
    /// What each solved type placeholder stands for, fully resolved.
    pub type_solutions: HashMap<u32, Ty>,
    /// What each solved region placeholder stands for.
    pub region_solutions: HashMap<u32, Region>,
}

/// `n` type placeholders numbered from `base`, as far as numbers go.
pub open spec fn ty_vars_from(base: u32, n: nat) -> List<Ty>
    decreases n,
{
    if n == 0 || base == u32::MAX {
        List::Nil
    } else {
        List::Cons(Box::new(Ty::Infer(base)), Box::new(ty_vars_from((base + 1) as u32, (n - 1) as nat)))
    }
}

/// `n` region placeholders numbered from `base`, as far as numbers go.
pub open spec fn region_vars_from(base: u32, n: nat) -> List<Region>
    decreases n,
{
    if n == 0 || base == u32::MAX {
        List::Nil
    } else {
        List::Cons(
            Box::new(Region::Var(base)),
            Box::new(region_vars_from((base + 1) as u32, (n - 1) as nat)),
        )
    }
}

/// The counter `base` after `n` placeholders have been minted.
pub open spec fn advanced(base: u32, n: nat) -> u32 {
    if base + n <= u32::MAX {
        (base + n) as u32
    } else {
        u32::MAX
    }
}

/// How many placeholders can be minted from `base` on when `n` are asked
/// for.
pub open spec fn mintable(base: u32, n: nat) -> nat {
    if base + n <= u32::MAX {
        n
    } else {
        (u32::MAX - base) as nat
    }
}

/// Minted type placeholders are numbered one after the other from the
/// counter on: each is another, and none has a number below the counter.
pub proof fn lemma_ty_vars_are_fresh(base: u32, n: nat, i: int)
    requires
        0 <= i < mintable(base, n),
    ensures
        ty_vars_from(base, n).len() == mintable(base, n),
        ty_vars_from(base, n).at(i) == Ty::Infer((base + i) as u32),
    decreases n,
{
    lemma_ty_vars_len(base, n);
    if i > 0 {
        lemma_ty_vars_are_fresh((base + 1) as u32, (n - 1) as nat, i - 1);
    }
}

proof fn lemma_ty_vars_len(base: u32, n: nat)
    ensures
        ty_vars_from(base, n).len() == mintable(base, n),
    decreases n,
{
    if n != 0 && base != u32::MAX {
        lemma_ty_vars_len((base + 1) as u32, (n - 1) as nat);
    }
}

/// Minted region placeholders are numbered one after the other from the
/// counter on: each is another, and none has a number below the counter.
pub proof fn lemma_region_vars_are_fresh(base: u32, n: nat, i: int)
    requires
        0 <= i < mintable(base, n),
    ensures
        region_vars_from(base, n).len() == mintable(base, n),
        region_vars_from(base, n).at(i) == Region::Var((base + i) as u32),
    decreases n,
{
    lemma_region_vars_len(base, n);
    if i > 0 {
        lemma_region_vars_are_fresh((base + 1) as u32, (n - 1) as nat, i - 1);
    }
}

proof fn lemma_region_vars_len(base: u32, n: nat)
    ensures
        region_vars_from(base, n).len() == mintable(base, n),
    decreases n,
{
    if n != 0 && base != u32::MAX {
        lemma_region_vars_len((base + 1) as u32, (n - 1) as nat);
    }
}

/// While a counter has not reached its last number, every placeholder
/// that was asked for has been minted; and a counter never goes back, so
/// one that has not reached its last number at the end never had.
pub proof fn lemma_all_minted_before_exhaustion(base: u32, n: nat)
    ensures
        advanced(base, n) >= base,
        advanced(base, n) < u32::MAX ==> mintable(base, n) == n && ty_vars_from(base, n).len()
            == n && region_vars_from(base, n).len() == n,
{
    lemma_ty_vars_len(base, n);
    lemma_region_vars_len(base, n);
}

impl InferCtxt {
    /// Whether a counter has reached its last number.
    pub fn is_exhausted(&self) -> (r: bool)
        ensures
            r == (self.next_ty_var == u32::MAX || self.next_region_var == u32::MAX),
    {
        self.next_ty_var == u32::MAX || self.next_region_var == u32::MAX
    }

    /// An oracle that has minted nothing and solved nothing.
    pub fn new() -> (r: Self)
        ensures
            r.next_ty_var == 0,
            r.next_region_var == 0,
            r.type_solutions@ == Map::<u32, Ty>::empty(),
            r.region_solutions@ == Map::<u32, Region>::empty(),
    {
        InferCtxt {
            next_ty_var: 0,
            next_region_var: 0,
            type_solutions: HashMap::new(),
            region_solutions: HashMap::new(),
        }
    }

    /// Mints a type placeholder.
    pub fn next_ty_var(&mut self) -> (r: Ty)
        ensures
            r == Ty::Infer(old(self).next_ty_var),
            final(self).next_ty_var == advanced(old(self).next_ty_var, 1),
            final(self).next_region_var == old(self).next_region_var,
            final(self).type_solutions == old(self).type_solutions,
            final(self).region_solutions == old(self).region_solutions,
    {
        let v = self.next_ty_var;
        if v < u32::MAX {
            self.next_ty_var = v + 1;
        }
        Ty::Infer(v)
    }

    /// Mints `n` type placeholders.
    pub fn next_ty_vars(&mut self, n: usize) -> (r: List<Ty>)
        ensures
            r == ty_vars_from(old(self).next_ty_var, n as nat),
            final(self).next_ty_var == advanced(old(self).next_ty_var, n as nat),
            final(self).next_region_var == old(self).next_region_var,
            final(self).type_solutions == old(self).type_solutions,
            final(self).region_solutions == old(self).region_solutions,
        decreases n,
    {
        if n == 0 || self.next_ty_var == u32::MAX {
            List::Nil
        } else {
            let head = self.next_ty_var();
            let tail = self.next_ty_vars(n - 1);
            List::Cons(Box::new(head), Box::new(tail))
        }
    }

    /// Mints a region placeholder.
    pub fn next_region_var(&mut self) -> (r: Region)
        ensures
            r == Region::Var(old(self).next_region_var),
            final(self).next_region_var == advanced(old(self).next_region_var, 1),
            final(self).next_ty_var == old(self).next_ty_var,
            final(self).type_solutions == old(self).type_solutions,
            final(self).region_solutions == old(self).region_solutions,
    {
        let v = self.next_region_var;
        if v < u32::MAX {
            self.next_region_var = v + 1;
        }
        Region::Var(v)
    }

    /// Mints `n` region placeholders.
    pub fn next_region_vars(&mut self, n: usize) -> (r: List<Region>)
        ensures
            r == region_vars_from(old(self).next_region_var, n as nat),
            final(self).next_region_var == advanced(old(self).next_region_var, n as nat),
            final(self).next_ty_var == old(self).next_ty_var,
            final(self).type_solutions == old(self).type_solutions,
            final(self).region_solutions == old(self).region_solutions,
        decreases n,
    {
        if n == 0 || self.next_region_var == u32::MAX {
            List::Nil
        } else {
            let head = self.next_region_var();
            let tail = self.next_region_vars(n - 1);
            List::Cons(Box::new(head), Box::new(tail))
        }
    }

    /// Records the oracle's answer for a type placeholder.
    pub fn solve_ty(&mut self, var: u32, ty: Ty)
        ensures
            final(self).type_solutions@ == old(self).type_solutions@.insert(var, ty),
            final(self).region_solutions == old(self).region_solutions,
            final(self).next_ty_var == old(self).next_ty_var,
            final(self).next_region_var == old(self).next_region_var,
    {
        self.type_solutions.insert(var, ty);
    }

    /// Records the oracle's answer for a region placeholder.
    pub fn solve_region(&mut self, var: u32, region: Region)
        ensures
            final(self).region_solutions@ == old(self).region_solutions@.insert(var, region),
            final(self).type_solutions == old(self).type_solutions,
            final(self).next_ty_var == old(self).next_ty_var,
            final(self).next_region_var == old(self).next_region_var,
    {
        self.region_solutions.insert(var, region);
    }
}

} // verus!
