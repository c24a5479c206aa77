//! A singly linked list whose equality is structural.
//!
//! Type terms are trees, and their contracts speak of whole terms being equal.
//! A linked list makes the children of a term part of the term itself, so that
//! two terms with equal children are equal in specifications.

use vstd::prelude::*;

verus! {

/// A finite sequence of `T`, first element first.
#[derive(Debug, PartialEq, Eq)]
pub enum List<T> {
    Nil,
    Cons(Box<T>, Box<List<T>>),
}

impl<T> View for List<T> {
    type V = Seq<T>;

    /// The elements, in order.
    open spec fn view(&self) -> Seq<T> {
        self.to_seq()
    }
}

impl<T> List<T> {
    /// The elements, in order.
    pub open spec fn to_seq(self) -> Seq<T>
        decreases self,
    {
        match self {
            List::Nil => Seq::empty(),
            List::Cons(head, tail) => seq![*head] + tail.to_seq(),
        }
    }

    /// The number of elements.
    pub open spec fn len(self) -> nat
        decreases self,
    {
        match self {
            List::Nil => 0,
            List::Cons(_, tail) => 1 + tail.len(),
        }
    }

    /// The number of elements as far as a `usize` can hold it.
    pub open spec fn count(self) -> usize {
        if self.len() <= usize::MAX {
            self.len() as usize
        } else {
            usize::MAX
        }
    }

    /// The element at position `i`; arbitrary when `i` is out of range.
    pub open spec fn at(self, i: int) -> T
        decreases self,
    {
        match self {
            List::Nil => arbitrary(),
            List::Cons(head, tail) => if i == 0 {
                *head
            } else {
                tail.at(i - 1)
            },
        }
    }

    /// `self` followed by `other`.
    pub open spec fn concat(self, other: List<T>) -> List<T>
        decreases self,
    {
        match self {
            List::Nil => other,
            List::Cons(head, tail) => List::Cons(head, Box::new(tail.concat(other))),
        }
    }

    /// The list that holds the elements of `s`, in order.
    pub open spec fn of_seq(s: Seq<T>) -> List<T>
        decreases s.len(),
    {
        if s.len() == 0 {
            List::Nil
        } else {
            List::Cons(Box::new(s[0]), Box::new(Self::of_seq(s.subrange(1, s.len() as int))))
        }
    }

    /// The list of the elements of a sequence holds those elements.
    pub proof fn lemma_of_seq_view(s: Seq<T>)
        ensures
            Self::of_seq(s)@ == s,
        decreases s.len(),
    {
        if s.len() > 0 {
            let rest = s.subrange(1, s.len() as int);
            Self::lemma_of_seq_view(rest);
            assert(seq![s[0]] + rest =~= s);
        }
    }

    /// The list of a sequence with one element more in front is the list of
    /// the sequence with that element in front.
    pub proof fn lemma_of_seq_push_front(x: T, s: Seq<T>)
        ensures
            Self::of_seq(seq![x] + s) == List::Cons(Box::new(x), Box::new(Self::of_seq(s))),
    {
        let whole = seq![x] + s;
        assert(whole.subrange(1, whole.len() as int) =~= s);
    }

    /// The empty list.
    pub fn new() -> (r: Self)
        ensures
            r == List::<T>::Nil,
    {
        List::Nil
    }

    /// `x` in front of `tail`.
    pub fn cons(x: T, tail: Self) -> (r: Self)
        ensures
            r == List::Cons(Box::new(x), Box::new(tail)),
    {
        List::Cons(Box::new(x), Box::new(tail))
    }

    /// Whether the list has no elements.
    pub fn is_empty(&self) -> (r: bool)
        ensures
            r == (self.len() == 0),
    {
        match self {
            List::Nil => true,
            List::Cons(_, _) => false,
        }
    }

    /// Counts the elements; stops counting at `usize::MAX`.
    pub fn length(&self) -> (n: usize)
        ensures
            n == self.count(),
        decreases self,
    {
        match self {
            List::Nil => 0,
            List::Cons(_, tail) => {
                let rest = tail.length();
                if rest == usize::MAX {
                    usize::MAX
                } else {
                    rest + 1
                }
            },
        }
    }

    /// Whether both lists have the same number of elements.
    pub fn same_length<U>(&self, other: &List<U>) -> (r: bool)
        ensures
            r == (self.len() == other.len()),
        decreases self,
    {
        match (self, other) {
            (List::Nil, List::Nil) => true,
            (List::Cons(_, t), List::Cons(_, u)) => t.same_length(u),
            _ => false,
        }
    }

    /// The element at position `i`, if there is one.
    pub fn get(&self, i: usize) -> (r: Option<&T>)
        ensures
            r == (if i < self.len() {
                Some(&self.at(i as int))
            } else {
                None
            }),
        decreases self,
    {
        match self {
            List::Nil => None,
            List::Cons(head, tail) => if i == 0 {
                Some(&**head)
            } else {
                tail.get(i - 1)
            },
        }
    }

    /// `self` followed by `other`.
    pub fn append(self, other: List<T>) -> (r: List<T>)
        ensures
            r == self.concat(other),
        decreases self,
    {
        match self {
            List::Nil => other,
            List::Cons(head, tail) => List::Cons(head, Box::new((*tail).append(other))),
        }
    }

    /// Moves the elements of `v` into a list, keeping their order.
    pub fn from_vec(v: Vec<T>) -> (r: Self)
        ensures
            r == Self::of_seq(v@),
            r@ == v@,
    {
        let mut v = v;
        let ghost all = v@;
        let mut out: List<T> = List::Nil;
        while v.len() > 0
            invariant
                v@.len() <= all.len(),
                v@ == all.subrange(0, v@.len() as int),
                out == Self::of_seq(all.subrange(v@.len() as int, all.len() as int)),
            decreases v.len(),
        {
            let ghost before = v@;
            let ghost done = all.subrange(before.len() as int, all.len() as int);
            let x = v.pop().unwrap();
            proof {
                Self::lemma_of_seq_push_front(x, done);
                assert(seq![x] + done =~= all.subrange(before.len() - 1, all.len() as int));
                assert(v@ =~= all.subrange(0, v@.len() as int));
            }
            out = List::Cons(Box::new(x), Box::new(out));
        }
        proof {
            assert(all.subrange(0, all.len() as int) =~= all);
            Self::lemma_of_seq_view(all);
        }
        out
    }
}

/// A copy of a list of plain values.
pub fn copy_list<T: Copy>(l: &List<T>) -> (r: List<T>)
    ensures
        r == *l,
    decreases l,
{
    match l {
        List::Nil => List::Nil,
        List::Cons(head, tail) => List::Cons(Box::new(**head), Box::new(copy_list(tail))),
    }
}

} // verus!
