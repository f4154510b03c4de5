//! The shared display list: an ordered log of rendered primitives, appended
//! to by move and fill handlers, read wholesale by the export handler, and
//! replaced wholesale by clears.

use vstd::prelude::*;
use crate::types::{Prim, TurtleId};

verus! {

/// The ordered log of drawn primitives.  Its model is the sequence of
/// primitives in draw order.
#[derive(Clone, Debug)]
pub struct DisplayList {
    pub prims: Vec<Prim>,
}

impl View for DisplayList {
    type V = Seq<Prim>;

    open spec fn view(&self) -> Seq<Prim> {
        self.prims@
    }
}

/// The turtle a primitive belongs to.
pub open spec fn prim_turtle(p: Prim) -> TurtleId {
    match p {
        Prim::Line { turtle, .. } => turtle,
        Prim::Fill { turtle, .. } => turtle,
    }
}

impl DisplayList {
    /// An empty display list.
    pub fn new() -> (d: DisplayList)
        ensures
            d@ == Seq::<Prim>::empty(),
    {
        DisplayList { prims: Vec::new() }
    }

    /// How many primitives have been drawn.
    pub fn len(&self) -> (n: usize)
        ensures
            n == self@.len(),
    {
        self.prims.len()
    }

    /// Appends one primitive to the end of the log.
    pub fn push(&mut self, p: Prim)
        ensures
            final(self)@ == old(self)@.push(p),
    {
        self.prims.push(p);
    }

    /// A snapshot of the whole log, for export; the log itself is unchanged.
    pub fn snapshot(&self) -> (s: Vec<Prim>)
        ensures
            s@ == self@,
    {
        let mut out: Vec<Prim> = Vec::new();
        let mut i: usize = 0;
        while i < self.prims.len()
            invariant
                i <= self.prims.len(),
                out@ == self.prims@.subrange(0, i as int),
            decreases self.prims.len() - i,
        {
            out.push(self.prims[i]);
            i = i + 1;
        }
        proof {
            assert(self.prims@.subrange(0, self.prims@.len() as int) == self.prims@);
        }
        out
    }

    /// Replaces the log with nothing: a full clear.
    pub fn clear(&mut self)
        ensures
            final(self)@ == Seq::<Prim>::empty(),
    {
        self.prims = Vec::new();
    }

    /// Removes every primitive drawn by `id`, keeping the rest in order.
    pub fn clear_turtle(&mut self, id: TurtleId)
        ensures
            final(self)@ == old(self)@.filter(|p: Prim| prim_turtle(p) != id),
    {
        let mut out: Vec<Prim> = Vec::new();
        let mut i: usize = 0;
        while i < self.prims.len()
            invariant
                i <= self.prims.len(),
                out@ == self.prims@.subrange(0, i as int).filter(|p: Prim| prim_turtle(p) != id),
            decreases self.prims.len() - i,
        {
            proof {
                let pred = |p: Prim| prim_turtle(p) != id;
                let prefix = self.prims@.subrange(0, i as int);
                let prefix1 = self.prims@.subrange(0, i as int + 1);
                reveal_with_fuel(Seq::filter, 2);
                assert(prefix1.drop_last() =~= prefix);
                assert(prefix1.last() == self.prims@[i as int]);
                assert(prefix1.filter(pred) == if pred(prefix1.last()) {
                    prefix.filter(pred).push(prefix1.last())
                } else {
                    prefix.filter(pred)
                });
            }
            let p = self.prims[i];
            let keep = match p {
                Prim::Line { turtle, .. } => turtle.0 != id.0,
                Prim::Fill { turtle, .. } => turtle.0 != id.0,
            };
            if keep {
                out.push(p);
            }
            i = i + 1;
        }
        proof {
            assert(self.prims@.subrange(0, self.prims@.len() as int) == self.prims@);
        }
        self.prims = out;
    }
}

} // verus!
