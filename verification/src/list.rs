//! A singly linked list.
//!
//! Every ordered collection that sits inside a tree of the typed form uses
//! this list: two lists are equal exactly when their elements are, so rules
//! over whole trees can be stated as plain functions.

use vstd::prelude::*;

verus! {

/// A finite sequence, either empty or a head followed by a tail.
#[derive(Debug, PartialEq, Eq)]
pub enum List<T> {
    /// The empty list.
    Nil,
    /// A head element and the rest.
    Cons(Box<T>, Box<List<T>>),
}

impl<T> List<T> {
    /// The elements in order.
    pub open spec fn seq(self) -> Seq<T>
        decreases self,
    {
        match self {
            List::Nil => Seq::empty(),
            List::Cons(head, tail) => seq![*head] + tail.seq(),
        }
    }

    /// Number of elements, saturating at `usize::MAX`.
    pub open spec fn length(self) -> usize
        decreases self,
    {
        match self {
            List::Nil => 0,
            List::Cons(_, tail) => {
                let n = tail.length();
                if n == usize::MAX {
                    n
                } else {
                    (n + 1) as usize
                }
            },
        }
    }

    /// Number of elements.
    pub open spec fn count(self) -> nat
        decreases self,
    {
        match self {
            List::Nil => 0,
            List::Cons(_, tail) => 1 + tail.count(),
        }
    }

    /// The element at position `index`, if there is one.
    pub open spec fn nth(self, index: nat) -> Option<T>
        decreases self,
    {
        match self {
            List::Nil => None,
            List::Cons(head, tail) => if index == 0 {
                Some(*head)
            } else {
                tail.nth((index - 1) as nat)
            },
        }
    }

    /// The last element, if there is one.
    pub open spec fn last_of(self) -> Option<T>
        decreases self,
    {
        match self {
            List::Nil => None,
            List::Cons(head, tail) => match *tail {
                List::Nil => Some(*head),
                _ => tail.last_of(),
            },
        }
    }

    /// The empty list.
    pub fn new() -> (r: List<T>)
        ensures
            r == List::<T>::Nil,
    {
        List::Nil
    }

    /// `head` in front of `tail`.
    pub fn cons(head: T, tail: List<T>) -> (r: List<T>)
        ensures
            r == List::Cons(Box::new(head), Box::new(tail)),
    {
        List::Cons(Box::new(head), Box::new(tail))
    }

    /// The list with the elements of `items`, in order.
    pub fn from_vec(items: Vec<T>) -> (r: List<T>)
        ensures
            r.seq() == items@,
    {
        let mut items = items;
        let ghost all = items@;
        let mut out: List<T> = List::Nil;
        while items.len() > 0
            invariant
                items@ + out.seq() == all,
            decreases items.len(),
        {
            let ghost before = items@;
            let ghost rest = out.seq();
            if let Some(item) = items.pop() {
                proof {
                    assert(before == items@.push(item));
                    assert(items@ + (seq![item] + rest) == before + rest);
                }
                out = List::Cons(Box::new(item), Box::new(out));
            }
        }
        assert(items@ + out.seq() == out.seq());
        out
    }

    /// Number of elements, saturating at `usize::MAX`.
    pub fn len(&self) -> (r: usize)
        ensures
            r == self.length(),
        decreases self,
    {
        match self {
            List::Nil => 0,
            List::Cons(_, tail) => {
                let n: usize = tail.len();
                if n == usize::MAX {
                    n
                } else {
                    n + 1
                }
            },
        }
    }

    /// The element at position `index`, if there is one.
    pub fn get_ref(&self, index: usize) -> (r: Option<&T>)
        ensures
            match r {
                Some(item) => self.nth(index as nat) == Some(*item),
                None => self.nth(index as nat) is None,
            },
        decreases self,
    {
        match self {
            List::Nil => None,
            List::Cons(head, tail) => if index == 0 {
                Some(&**head)
            } else {
                tail.get_ref(index - 1)
            },
        }
    }

    /// Whether the list has no element.
    pub fn is_empty(&self) -> (r: bool)
        ensures
            r == (*self == List::<T>::Nil),
    {
        match self {
            List::Nil => true,
            List::Cons(_, _) => false,
        }
    }
}

impl<T: Copy> List<T> {
    /// A copy of the list.
    pub fn dup(&self) -> (r: List<T>)
        ensures
            r == *self,
        decreases self,
    {
        match self {
            List::Nil => List::Nil,
            List::Cons(head, tail) => List::Cons(Box::new(**head), Box::new(tail.dup())),
        }
    }

    /// The element at position `index`, if there is one.
    pub fn get(&self, index: usize) -> (r: Option<T>)
        ensures
            r == self.nth(index as nat),
        decreases self,
    {
        match self {
            List::Nil => None,
            List::Cons(head, tail) => if index == 0 {
                Some(**head)
            } else {
                tail.get(index - 1)
            },
        }
    }

    /// The last element, if there is one.
    pub fn last(&self) -> (r: Option<T>)
        ensures
            r == self.last_of(),
        decreases self,
    {
        match self {
            List::Nil => None,
            List::Cons(head, tail) => match &**tail {
                List::Nil => Some(**head),
                List::Cons(_, _) => tail.last(),
            },
        }
    }

    /// The elements as a vector, in order.
    pub fn to_vec(&self) -> (r: Vec<T>)
        ensures
            r@ == self.seq(),
    {
        let mut out: Vec<T> = Vec::new();
        self.append_to(&mut out);
        assert(out@ == self.seq());
        out
    }

    fn append_to(&self, out: &mut Vec<T>)
        ensures
            final(out)@ == old(out)@ + self.seq(),
        decreases self,
    {
        match self {
            List::Nil => {
                assert(old(out)@ + self.seq() == old(out)@);
            },
            List::Cons(head, tail) => {
                out.push(**head);
                tail.append_to(out);
                assert(old(out)@ + self.seq() == old(out)@.push(**head) + tail.seq());
            },
        }
    }
}

} // verus!
