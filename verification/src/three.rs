//! An ordered, append-only container holding between zero and three
//! elements: the already-frozen left siblings of an insertion path.

use vstd::prelude::*;

verus! {

/// An ordered container of at most three elements, tagged by how many it
/// holds, so that code folding the children of a node can match
/// exhaustively and never index out of bounds.
#[derive(Clone, Debug, PartialEq, Eq)]
pub enum Three<T> {
    /// No elements.
    _0,
    /// One element.
    _1(T),
    /// Two elements, in order.
    _2(T, T),
    /// Three elements, in order.
    _3(T, T, T),
}

/// A borrowed view of a [`Three`]'s contents, tagged by count.
pub enum Elems<'a, T> {
    /// No elements.
    _0,
    /// One element.
    _1(&'a T),
    /// Two elements, in order.
    _2(&'a T, &'a T),
    /// Three elements, in order.
    _3(&'a T, &'a T, &'a T),
}

impl<T> View for Three<T> {
    type V = Seq<T>;

    open spec fn view(&self) -> Seq<T> {
        match self {
            Three::_0 => Seq::empty(),
            Three::_1(a) => seq![*a],
            Three::_2(a, b) => seq![*a, *b],
            Three::_3(a, b, c) => seq![*a, *b, *c],
        }
    }
}

impl<T> Three<T> {
    /// The container grown by one element at the right end; a full
    /// container is unchanged.
    pub open spec fn spec_push(self, t: T) -> Three<T> {
        match self {
            Three::_0 => Three::_1(t),
            Three::_1(a) => Three::_2(a, t),
            Three::_2(a, b) => Three::_3(a, b, t),
            Three::_3(a, b, c) => Three::_3(a, b, c),
        }
    }

    /// Builds the empty container.
    pub fn new() -> (r: Three<T>)
        ensures
            r == Three::<T>::_0,
            r@ == Seq::<T>::empty(),
    {
        Three::_0
    }

    /// How many elements the container holds.
    pub fn len(&self) -> (n: usize)
        ensures
            n == self@.len(),
    {
        match self {
            Three::_0 => 0,
            Three::_1(_) => 1,
            Three::_2(_, _) => 2,
            Three::_3(_, _, _) => 3,
        }
    }

    /// Appends one element.  With room left the grown container comes back;
    /// a container already holding three elements comes back untouched,
    /// together with the rejected element, so the caller can treat the pair
    /// as the four children of a now-saturated parent.
    pub fn push(self, t: T) -> (r: Result<Three<T>, (Three<T>, T)>)
        ensures
            match r {
                Ok(grown) => self@.len() < 3 && grown == self.spec_push(t) && grown@ == self@.push(
                t),
                Err((orig, rejected)) => self@.len() == 3 && orig == self && rejected == t,
            },
    {
        match self {
            Three::_0 => {
                let r = Three::_1(t);
                proof {
                    assert(r@ =~= self@.push(t));
                }
                Ok(r)
            },
            Three::_1(a) => {
                let r = Three::_2(a, t);
                proof {
                    assert(r@ =~= self@.push(t));
                }
                Ok(r)
            },
            Three::_2(a, b) => {
                let r = Three::_3(a, b, t);
                proof {
                    assert(r@ =~= self@.push(t));
                }
                Ok(r)
            },
            Three::_3(a, b, c) => Err((Three::_3(a, b, c), t)),
        }
    }

    /// The contents, tagged by count.
    pub fn elems<'a>(&'a self) -> (e: Elems<'a, T>)
        ensures
            match e {
                Elems::_0 => self@.len() == 0,
                Elems::_1(a) => self@.len() == 1 && *a == self@[0],
                Elems::_2(a, b) => self@.len() == 2 && *a == self@[0] && *b == self@[1],
                Elems::_3(a, b, c) => self@.len() == 3 && *a == self@[0] && *b == self@[1] && *c
                    == self@[2],
            },
    {
        match self {
            Three::_0 => Elems::_0,
            Three::_1(a) => Elems::_1(a),
            Three::_2(a, b) => Elems::_2(a, b),
            Three::_3(a, b, c) => Elems::_3(a, b, c),
        }
    }
}

} // verus!
