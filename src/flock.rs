//! The per-tick orchestration of the flock: which birds count as a bird's
//! neighbours, and which of its steering inputs get written.
//!
//! Whether one bird lies within a radius of another is measured by the
//! caller; here `within[j]` says so of bird `j`.
use vstd::prelude::*;

verus! {

/// The indices `j < n`, other than `i`, with `within[j]`, in increasing order.
pub open spec fn neighbours_upto(i: int, within: Seq<bool>, n: int) -> Seq<usize>
    decreases n,
{
    if n <= 0 {
        Seq::empty()
    } else {
        let earlier = neighbours_upto(i, within, n - 1);
        if n - 1 != i && within[n - 1] {
            earlier.push((n - 1) as usize)
        } else {
            earlier
        }
    }
}

/// The neighbours of bird `i`: every other bird marked in `within`, in
/// increasing order of index.
pub open spec fn neighbours(i: int, within: Seq<bool>) -> Seq<usize> {
    neighbours_upto(i, within, within.len() as int)
}

/// Collects the neighbours of bird `i`.
pub fn neighbours_within(i: usize, within: &Vec<bool>) -> (r: Vec<usize>)
    ensures
        r@ == neighbours(i as int, within@),
{
    let mut out: Vec<usize> = Vec::new();
    let mut j: usize = 0;
    while j < within.len()
        invariant
            j <= within@.len(),
            out@ == neighbours_upto(i as int, within@, j as int),
        decreases within@.len() - j,
    {
        if j != i && within[j] {
            out.push(j);
        }
        j = j + 1;
    }
    out
}

/// What the orchestrator does for one bird in one tick.
pub struct AgentPlan {
    /// The birds within the separation radius. When there are any, their
    /// separation direction and mean heading are written to the bird.
    pub separation: Vec<usize>,
    /// The birds within the flock radius. When there are any, the bird's
    /// alignment target is their wrapped mean-heading deviation and their
    /// cohesion direction and mean heading are written; when there are none,
    /// the alignment target is zero and cohesion is left alone.
    pub flock: Vec<usize>,
    /// Whether the bird then takes its step (the simulation is not paused).
    pub advance: bool,
}

impl AgentPlan {
    /// Whether a separation reading is written.
    pub fn sets_separation(&self) -> (r: bool)
        ensures
            r == (self.separation@.len() > 0),
    {
        self.separation.len() > 0
    }

    /// Whether alignment and cohesion readings are taken from neighbours;
    /// when not, the alignment target is zero.
    pub fn sets_flocking(&self) -> (r: bool)
        ensures
            r == (self.flock@.len() > 0),
    {
        self.flock.len() > 0
    }
}

/// Plans bird `i`'s tick: `near_separation` and `near_flock` mark the birds
/// within the separation and the flock radius.
pub fn plan_agent(i: usize, near_separation: &Vec<bool>, near_flock: &Vec<bool>, paused: bool) -> (r:
    AgentPlan)
    ensures
        r.separation@ == neighbours(i as int, near_separation@),
        r.flock@ == neighbours(i as int, near_flock@),
        r.advance == !paused,
{
    AgentPlan {
        separation: neighbours_within(i, near_separation),
        flock: neighbours_within(i, near_flock),
        advance: !paused,
    }
}

proof fn lemma_neighbours_upto_none(i: int, within: Seq<bool>, n: int)
    requires
        n <= within.len(),
        forall|j: int| 0 <= j < within.len() && j != i ==> !within[j],
    ensures
        neighbours_upto(i, within, n).len() == 0,
    decreases n,
{
    if n > 0 {
        lemma_neighbours_upto_none(i, within, n - 1);
    }
}

proof fn lemma_neighbours_upto_valid(i: int, within: Seq<bool>, n: int)
    requires
        n <= within.len() <= usize::MAX,
    ensures
        forall|k: int|
            0 <= k < neighbours_upto(i, within, n).len() ==> {
                let j = #[trigger] neighbours_upto(i, within, n)[k] as int;
                0 <= j < n && j != i && within[j]
            },
    decreases n,
{
    if n > 0 {
        lemma_neighbours_upto_valid(i, within, n - 1);
        let earlier = neighbours_upto(i, within, n - 1);
        let now = neighbours_upto(i, within, n);
        assert forall|k: int| 0 <= k < now.len() implies {
            let j = #[trigger] now[k] as int;
            0 <= j < n && j != i && within[j]
        } by {
            if k < earlier.len() {
                assert(now[k] == earlier[k]);
            }
        }
    }
}

proof fn lemma_neighbours_upto_complete(i: int, within: Seq<bool>, n: int, j: int)
    requires
        n <= within.len() <= usize::MAX,
        0 <= j < n,
        j != i,
        within[j],
    ensures
        neighbours_upto(i, within, n).contains(j as usize),
    decreases n,
{
    if j < n - 1 {
        lemma_neighbours_upto_complete(i, within, n - 1, j);
        let earlier = neighbours_upto(i, within, n - 1);
        let k = choose|k: int| 0 <= k < earlier.len() && earlier[k] == j as usize;
        if n - 1 != i && within[n - 1] {
            assert(earlier.push((n - 1) as usize)[k] == j as usize);
        }
    } else {
        let earlier = neighbours_upto(i, within, n - 1);
        assert(earlier.push(j as usize)[earlier.len() as int] == j as usize);
    }
}

/// A bird's neighbours are exactly the other birds marked within the radius.
pub proof fn lemma_neighbours_exact(i: int, within: Seq<bool>, j: int)
    requires
        0 <= j < within.len() <= usize::MAX,
    ensures
        neighbours(i, within).contains(j as usize) <==> (j != i && within[j]),
{
    lemma_neighbours_upto_valid(i, within, within.len() as int);
    if j != i && within[j] {
        lemma_neighbours_upto_complete(i, within, within.len() as int, j);
    }
    if neighbours(i, within).contains(j as usize) {
        let k = choose|k: int|
            0 <= k < neighbours(i, within).len() && neighbours(i, within)[k] == j as usize;
        assert(neighbours(i, within)[k] as int == j);
    }
}

/// A bird with no other bird within either radius gets no flocking input:
/// no separation or cohesion reading is written, so its trackers stay as
/// they were, and its alignment target is zero. Only boundary avoidance then
/// changes its heading.
pub proof fn lemma_lone_bird_unsteered(
    i: int,
    near_separation: Seq<bool>,
    near_flock: Seq<bool>,
)
    requires
        forall|j: int| 0 <= j < near_separation.len() && j != i ==> !near_separation[j],
        forall|j: int| 0 <= j < near_flock.len() && j != i ==> !near_flock[j],
    ensures
        neighbours(i, near_separation).len() == 0,
        neighbours(i, near_flock).len() == 0,
{
    lemma_neighbours_upto_none(i, near_separation, near_separation.len() as int);
    lemma_neighbours_upto_none(i, near_flock, near_flock.len() as int);
}

} // verus!
