//! The trail of a bird: a ring buffer of its most recent positions.
use vstd::prelude::*;

verus! {

/// The number of positions a bird's trail remembers.
pub const TRAIL_LEN: usize = 64;

/// The slot that holds the `k`-th oldest entry of a ring of `len` slots
/// whose oldest entry sits in slot `pos`.
pub open spec fn slot(pos: int, k: int, len: int) -> int {
    if pos + k < len {
        pos + k
    } else {
        pos + k - len
    }
}

/// A fixed-size ring of the latest `capacity` points, the oldest overwritten
/// first.
pub struct Trail<T> {
    points: Vec<T>,
    pos: usize,
}

impl<T: Copy> Trail<T> {
    pub closed spec fn wf(&self) -> bool {
        0 < self.points@.len() && self.pos < self.points@.len()
    }

    /// The remembered points, oldest first.
    pub closed spec fn view(&self) -> Seq<T> {
        Seq::new(
            self.points@.len(),
            |k: int| self.points@[slot(self.pos as int, k, self.points@.len() as int)],
        )
    }

    /// A trail of `len` copies of a starting point.
    pub fn new(start: T, len: usize) -> (r: Self)
        requires
            len > 0,
        ensures
            r.wf(),
            r.view() == Seq::new(len as nat, |k: int| start),
    {
        let mut points: Vec<T> = Vec::new();
        let mut i: usize = 0;
        while i < len
            invariant
                i <= len,
                points@ == Seq::new(i as nat, |k: int| start),
            decreases len - i,
        {
            points.push(start);
            i = i + 1;
        }
        let r = Trail { points, pos: 0 };
        assert(r.view() =~= Seq::new(len as nat, |k: int| start));
        r
    }

    /// The number of points remembered.
    pub fn capacity(&self) -> (r: usize)
        requires
            self.wf(),
        ensures
            r == self.view().len(),
            r > 0,
    {
        self.points.len()
    }

    /// Records a point: the oldest is dropped and `p` becomes the newest.
    pub fn push(&mut self, p: T)
        requires
            old(self).wf(),
        ensures
            final(self).wf(),
            final(self).view() == old(self).view().skip(1).push(p),
    {
        let ghost before = self.view();
        let len = self.points.len();
        let pos = self.pos;
        self.points.set(pos, p);
        self.pos = if pos + 1 < len {
            pos + 1
        } else {
            0
        };
        proof {
            let after = self.view();
            assert forall|k: int| 0 <= k < len - 1 implies after[k] == before[k + 1] by {
                assert(slot(self.pos as int, k, len as int) == slot(pos as int, k + 1, len as int));
            }
            assert(after[len - 1] == p);
            assert(after =~= before.skip(1).push(p));
        }
    }

    /// All but the oldest point, oldest first: the polyline a bird's trail is
    /// drawn with.
    pub fn recent(&self) -> (r: Vec<T>)
        requires
            self.wf(),
        ensures
            r@ == self.view().skip(1),
    {
        let len = self.points.len();
        let mut out: Vec<T> = Vec::new();
        let mut k: usize = 1;
        while k < len
            invariant
                self.wf(),
                len == self.points@.len(),
                1 <= k <= len,
                out@ == self.view().subrange(1, k as int),
            decreases len - k,
        {
            let idx = if k < len - self.pos {
                self.pos + k
            } else {
                k - (len - self.pos)
            };
            out.push(self.points[idx]);
            k = k + 1;
            assert(out@ =~= self.view().subrange(1, k as int));
        }
        assert(self.view().skip(1) =~= self.view().subrange(1, len as int));
        out
    }
}

} // verus!
