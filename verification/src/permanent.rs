//! The permanent tables of captures and closures hold one entry for each
//! id: an entry that is put into such a table takes the place of the entry
//! that the table held for the same id.

use crate::list::List;
use crate::tables::{ClosureKindEntry, ClosureTyEntry, UpvarEntry, UpvarId};
use crate::ty::DefId;
use vstd::prelude::*;

verus! {

// ---------------------------------------------------------------------------
// Captures
/// The captures of `l` that are not for `id`, in their order.
pub open spec fn captures_without(l: List<UpvarEntry>, id: UpvarId) -> List<UpvarEntry>
    decreases l,
{
    match l {
        List::Nil => List::Nil,
        List::Cons(e, rest) => if e.id == id {
            captures_without(*rest, id)
        } else {
            List::Cons(e, Box::new(captures_without(*rest, id)))
        },
    }
}

/// The table with `entry` as its last entry, in place of whatever it held
/// for the same id.
pub open spec fn with_capture(l: List<UpvarEntry>, entry: UpvarEntry) -> List<UpvarEntry> {
    captures_without(l, entry.id).concat(List::Cons(Box::new(entry), Box::new(List::Nil)))
}

/// The table with each entry of `entries` put into it, first to last.
pub open spec fn with_captures(l: List<UpvarEntry>, entries: List<UpvarEntry>) -> List<UpvarEntry>
    decreases entries,
{
    match entries {
        List::Nil => l,
        List::Cons(e, rest) => with_captures(with_capture(l, *e), *rest),
    }
}

/// Whether the table has an entry for `id`.
pub open spec fn has_capture(l: List<UpvarEntry>, id: UpvarId) -> bool
    decreases l,
{
    match l {
        List::Nil => false,
        List::Cons(e, rest) => e.id == id || has_capture(*rest, id),
    }
}

/// Whether the table has at most one entry for each id.
pub open spec fn distinct_captures(l: List<UpvarEntry>) -> bool
    decreases l,
{
    match l {
        List::Nil => true,
        List::Cons(e, rest) => !has_capture(*rest, e.id) && distinct_captures(*rest),
    }
}

/// Puts `entry` into the table, in place of whatever it held for the same
/// id.
pub fn put_capture(l: List<UpvarEntry>, entry: UpvarEntry) -> (r: List<UpvarEntry>)
    ensures
        r == with_capture(l, entry),
    decreases l,
{
    match l {
        List::Nil => List::Cons(Box::new(entry), Box::new(List::Nil)),
        List::Cons(e, rest) => if e.id == entry.id {
            put_capture(*rest, entry)
        } else {
            List::Cons(e, Box::new(put_capture(*rest, entry)))
        },
    }
}

/// Puts each entry of `entries` into the table, first to last.
pub fn put_captures(l: List<UpvarEntry>, entries: List<UpvarEntry>) -> (r: List<UpvarEntry>)
    ensures
        r == with_captures(l, entries),
    decreases entries,
{
    match entries {
        List::Nil => l,
        List::Cons(e, rest) => put_captures(put_capture(l, *e), *rest),
    }
}

proof fn lemma_captures_without(l: List<UpvarEntry>, id: UpvarId, other: UpvarId)
    ensures
        !has_capture(captures_without(l, id), id),
        has_capture(captures_without(l, id), other) ==> has_capture(l, other),
        distinct_captures(l) ==> distinct_captures(captures_without(l, id)),
    decreases l,
{
    match l {
        List::Nil => {},
        List::Cons(e, rest) => {
            lemma_captures_without(*rest, id, other);
            lemma_captures_without(*rest, id, e.id);
        },
    }
}

proof fn lemma_captures_with_last(l: List<UpvarEntry>, entry: UpvarEntry, other: UpvarId)
    requires
        distinct_captures(l),
        !has_capture(l, entry.id),
    ensures
        distinct_captures(l.concat(List::Cons(Box::new(entry), Box::new(List::Nil)))),
        has_capture(l.concat(List::Cons(Box::new(entry), Box::new(List::Nil))), other) <==> (other
            == entry.id || has_capture(l, other)),
    decreases l,
{
    match l {
        List::Nil => {},
        List::Cons(e, rest) => {
            lemma_captures_with_last(*rest, entry, other);
            lemma_captures_with_last(*rest, entry, e.id);
        },
    }
}

/// A table with at most one entry for each id still has at most one for
/// each after entries are put into it, whatever they are.
pub proof fn lemma_captures_stay_distinct(l: List<UpvarEntry>, entries: List<UpvarEntry>)
    requires
        distinct_captures(l),
    ensures
        distinct_captures(with_captures(l, entries)),
    decreases entries,
{
    match entries {
        List::Nil => {},
        List::Cons(e, rest) => {
            lemma_captures_without(l, e.id, e.id);
            lemma_captures_with_last(captures_without(l, e.id), *e, e.id);
            lemma_captures_stay_distinct(with_capture(l, *e), *rest);
        },
    }
}

// ---------------------------------------------------------------------------
// Signatures of closures
/// The signatures of `l` that are not for `id`, in their order.
pub open spec fn signatures_without(l: List<ClosureTyEntry>, id: DefId) -> List<ClosureTyEntry>
    decreases l,
{
    match l {
        List::Nil => List::Nil,
        List::Cons(e, rest) => if e.def_id == id {
            signatures_without(*rest, id)
        } else {
            List::Cons(e, Box::new(signatures_without(*rest, id)))
        },
    }
}

/// The table with `entry` as its last entry, in place of whatever it held
/// for the same id.
pub open spec fn with_signature(
    l: List<ClosureTyEntry>,
    entry: ClosureTyEntry,
) -> List<ClosureTyEntry> {
    signatures_without(l, entry.def_id).concat(List::Cons(Box::new(entry), Box::new(List::Nil)))
}

/// The table with each entry of `entries` put into it, first to last.
pub open spec fn with_signatures(
    l: List<ClosureTyEntry>,
    entries: List<ClosureTyEntry>,
) -> List<ClosureTyEntry>
    decreases entries,
{
    match entries {
        List::Nil => l,
        List::Cons(e, rest) => with_signatures(with_signature(l, *e), *rest),
    }
}

/// Whether the table has an entry for `id`.
pub open spec fn has_signature(l: List<ClosureTyEntry>, id: DefId) -> bool
    decreases l,
{
    match l {
        List::Nil => false,
        List::Cons(e, rest) => e.def_id == id || has_signature(*rest, id),
    }
}

/// Whether the table has at most one entry for each id.
pub open spec fn distinct_signatures(l: List<ClosureTyEntry>) -> bool
    decreases l,
{
    match l {
        List::Nil => true,
        List::Cons(e, rest) => !has_signature(*rest, e.def_id) && distinct_signatures(*rest),
    }
}

/// Puts `entry` into the table, in place of whatever it held for the same
/// id.
pub fn put_signature(l: List<ClosureTyEntry>, entry: ClosureTyEntry) -> (r: List<ClosureTyEntry>)
    ensures
        r == with_signature(l, entry),
    decreases l,
{
    match l {
        List::Nil => List::Cons(Box::new(entry), Box::new(List::Nil)),
        List::Cons(e, rest) => if e.def_id == entry.def_id {
            put_signature(*rest, entry)
        } else {
            List::Cons(e, Box::new(put_signature(*rest, entry)))
        },
    }
}

/// Puts each entry of `entries` into the table, first to last.
pub fn put_signatures(
    l: List<ClosureTyEntry>,
    entries: List<ClosureTyEntry>,
) -> (r: List<ClosureTyEntry>)
    ensures
        r == with_signatures(l, entries),
    decreases entries,
{
    match entries {
        List::Nil => l,
        List::Cons(e, rest) => put_signatures(put_signature(l, *e), *rest),
    }
}

proof fn lemma_signatures_without(l: List<ClosureTyEntry>, id: DefId, other: DefId)
    ensures
        !has_signature(signatures_without(l, id), id),
        has_signature(signatures_without(l, id), other) ==> has_signature(l, other),
        distinct_signatures(l) ==> distinct_signatures(signatures_without(l, id)),
    decreases l,
{
    match l {
        List::Nil => {},
        List::Cons(e, rest) => {
            lemma_signatures_without(*rest, id, other);
            lemma_signatures_without(*rest, id, e.def_id);
        },
    }
}

proof fn lemma_signatures_with_last(l: List<ClosureTyEntry>, entry: ClosureTyEntry, other: DefId)
    requires
        distinct_signatures(l),
        !has_signature(l, entry.def_id),
    ensures
        distinct_signatures(l.concat(List::Cons(Box::new(entry), Box::new(List::Nil)))),
        has_signature(l.concat(List::Cons(Box::new(entry), Box::new(List::Nil))), other) <==> (other
            == entry.def_id || has_signature(l, other)),
    decreases l,
{
    match l {
        List::Nil => {},
        List::Cons(e, rest) => {
            lemma_signatures_with_last(*rest, entry, other);
            lemma_signatures_with_last(*rest, entry, e.def_id);
        },
    }
}

/// A table with at most one entry for each id still has at most one for
/// each after entries are put into it, whatever they are.
pub proof fn lemma_signatures_stay_distinct(l: List<ClosureTyEntry>, entries: List<ClosureTyEntry>)
    requires
        distinct_signatures(l),
    ensures
        distinct_signatures(with_signatures(l, entries)),
    decreases entries,
{
    match entries {
        List::Nil => {},
        List::Cons(e, rest) => {
            lemma_signatures_without(l, e.def_id, e.def_id);
            lemma_signatures_with_last(signatures_without(l, e.def_id), *e, e.def_id);
            lemma_signatures_stay_distinct(with_signature(l, *e), *rest);
        },
    }
}

// ---------------------------------------------------------------------------
// Kinds of closures
/// The kinds of `l` that are not for `id`, in their order.
pub open spec fn kinds_without(l: List<ClosureKindEntry>, id: DefId) -> List<ClosureKindEntry>
    decreases l,
{
    match l {
        List::Nil => List::Nil,
        List::Cons(e, rest) => if e.def_id == id {
            kinds_without(*rest, id)
        } else {
            List::Cons(e, Box::new(kinds_without(*rest, id)))
        },
    }
}

/// The table with `entry` as its last entry, in place of whatever it held
/// for the same id.
pub open spec fn with_kind(
    l: List<ClosureKindEntry>,
    entry: ClosureKindEntry,
) -> List<ClosureKindEntry> {
    kinds_without(l, entry.def_id).concat(List::Cons(Box::new(entry), Box::new(List::Nil)))
}

/// The table with each entry of `entries` put into it, first to last.
pub open spec fn with_kinds(
    l: List<ClosureKindEntry>,
    entries: List<ClosureKindEntry>,
) -> List<ClosureKindEntry>
    decreases entries,
{
    match entries {
        List::Nil => l,
        List::Cons(e, rest) => with_kinds(with_kind(l, *e), *rest),
    }
}

/// Whether the table has an entry for `id`.
pub open spec fn has_kind(l: List<ClosureKindEntry>, id: DefId) -> bool
    decreases l,
{
    match l {
        List::Nil => false,
        List::Cons(e, rest) => e.def_id == id || has_kind(*rest, id),
    }
}

/// Whether the table has at most one entry for each id.
pub open spec fn distinct_kinds(l: List<ClosureKindEntry>) -> bool
    decreases l,
{
    match l {
        List::Nil => true,
        List::Cons(e, rest) => !has_kind(*rest, e.def_id) && distinct_kinds(*rest),
    }
}

/// Puts `entry` into the table, in place of whatever it held for the same
/// id.
pub fn put_kind(l: List<ClosureKindEntry>, entry: ClosureKindEntry) -> (r: List<ClosureKindEntry>)
    ensures
        r == with_kind(l, entry),
    decreases l,
{
    match l {
        List::Nil => List::Cons(Box::new(entry), Box::new(List::Nil)),
        List::Cons(e, rest) => if e.def_id == entry.def_id {
            put_kind(*rest, entry)
        } else {
            List::Cons(e, Box::new(put_kind(*rest, entry)))
        },
    }
}

/// Puts each entry of `entries` into the table, first to last.
pub fn put_kinds(
    l: List<ClosureKindEntry>,
    entries: List<ClosureKindEntry>,
) -> (r: List<ClosureKindEntry>)
    ensures
        r == with_kinds(l, entries),
    decreases entries,
{
    match entries {
        List::Nil => l,
        List::Cons(e, rest) => put_kinds(put_kind(l, *e), *rest),
    }
}

proof fn lemma_kinds_without(l: List<ClosureKindEntry>, id: DefId, other: DefId)
    ensures
        !has_kind(kinds_without(l, id), id),
        has_kind(kinds_without(l, id), other) ==> has_kind(l, other),
        distinct_kinds(l) ==> distinct_kinds(kinds_without(l, id)),
    decreases l,
{
    match l {
        List::Nil => {},
        List::Cons(e, rest) => {
            lemma_kinds_without(*rest, id, other);
            lemma_kinds_without(*rest, id, e.def_id);
        },
    }
}

proof fn lemma_kinds_with_last(l: List<ClosureKindEntry>, entry: ClosureKindEntry, other: DefId)
    requires
        distinct_kinds(l),
        !has_kind(l, entry.def_id),
    ensures
        distinct_kinds(l.concat(List::Cons(Box::new(entry), Box::new(List::Nil)))),
        has_kind(l.concat(List::Cons(Box::new(entry), Box::new(List::Nil))), other) <==> (other
            == entry.def_id || has_kind(l, other)),
    decreases l,
{
    match l {
        List::Nil => {},
        List::Cons(e, rest) => {
            lemma_kinds_with_last(*rest, entry, other);
            lemma_kinds_with_last(*rest, entry, e.def_id);
        },
    }
}

/// A table with at most one entry for each id still has at most one for
/// each after entries are put into it, whatever they are.
pub proof fn lemma_kinds_stay_distinct(l: List<ClosureKindEntry>, entries: List<ClosureKindEntry>)
    requires
        distinct_kinds(l),
    ensures
        distinct_kinds(with_kinds(l, entries)),
    decreases entries,
{
    match entries {
        List::Nil => {},
        List::Cons(e, rest) => {
            lemma_kinds_without(l, e.def_id, e.def_id);
            lemma_kinds_with_last(kinds_without(l, e.def_id), *e, e.def_id);
            lemma_kinds_stay_distinct(with_kind(l, *e), *rest);
        },
    }
}

} // verus!
