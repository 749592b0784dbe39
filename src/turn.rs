//! The edge-avoidance state machine.
//!
//! A bird cruises (`Idle`) until it strays past the soft boundary, then turns
//! gently; if it reaches the hard boundary while turning, it turns harder, and
//! it returns to cruising once it is back inside the boundary that put it in
//! its current state. The geometry is reduced to [`Placement`]s: which sides of
//! a boundary rectangle the bird lies beyond.
use vstd::prelude::*;

verus! {

/// Which sides of an axis-aligned rectangle a point lies strictly beyond.
#[derive(Copy, Clone, Debug, PartialEq, Eq, Structural)]
pub struct Placement {
    /// The point is right of the right edge.
    pub right: bool,
    /// The point is left of the left edge.
    pub left: bool,
    /// The point is above the top edge.
    pub top: bool,
    /// The point is below the bottom edge.
    pub bottom: bool,
}

impl Placement {
    pub open spec fn is_horizontal(self) -> bool {
        self.right || self.left
    }

    pub open spec fn is_vertical(self) -> bool {
        self.top || self.bottom
    }

    /// Inside the rectangle on both axes.
    pub fn inside() -> (r: Placement)
        ensures
            !r.is_horizontal(),
            !r.is_vertical(),
    {
        Placement { right: false, left: false, top: false, bottom: false }
    }

    /// Beyond the left or the right edge.
    pub fn horizontal(&self) -> (r: bool)
        ensures
            r == self.is_horizontal(),
    {
        self.right || self.left
    }

    /// Beyond the top or the bottom edge.
    pub fn vertical(&self) -> (r: bool)
        ensures
            r == self.is_vertical(),
    {
        self.top || self.bottom
    }

    /// Beyond any edge.
    pub fn outside(&self) -> (r: bool)
        ensures
            r == (self.is_horizontal() || self.is_vertical()),
    {
        self.horizontal() || self.vertical()
    }
}

/// An edge of the arena that a bird turns away from.
#[derive(Copy, Clone, Debug, PartialEq, Eq, Structural)]
pub enum Edge {
    Right,
    Left,
    Top,
    Bottom,
}

impl Edge {
    /// The heading that points straight out through this edge, in quarter
    /// turns counter-clockwise from the positive x axis.
    pub open spec fn outward_spec(self) -> nat {
        match self {
            Edge::Right => 0,
            Edge::Top => 1,
            Edge::Left => 2,
            Edge::Bottom => 3,
        }
    }

    /// The outward heading of this edge, in quarter turns. The turn away
    /// from the edge is measured from the bird's heading minus this angle.
    pub fn outward_quarter_turns(&self) -> (r: u8)
        ensures
            r as nat == self.outward_spec(),
            r < 4,
    {
        match self {
            Edge::Right => 0,
            Edge::Top => 1,
            Edge::Left => 2,
            Edge::Bottom => 3,
        }
    }
}

/// What a bird does in its current state before the state is re-evaluated.
#[derive(Copy, Clone, Debug, PartialEq, Eq, Structural)]
pub enum Manoeuvre {
    /// No boundary turn.
    Cruise,
    /// Add the pending turn to the heading, then move at half the speed range.
    Turn,
    /// Add the saturated, amplified pending turn to the heading, then move at
    /// the full speed range.
    TurnHard,
}

/// The state of a bird's boundary avoidance.
#[derive(Copy, Clone, Debug, PartialEq, Eq, Structural)]
pub enum TurnState {
    Idle,
    TurningH,
    TurningV,
    TurningHarderH,
    TurningHarderV,
}

/// The edge that a cruising bird at `soft` turns away from, if any:
/// horizontal edges take precedence, and the right edge over the left,
/// the top over the bottom.
pub open spec fn entry_edge(soft: Placement) -> Option<Edge> {
    if soft.right {
        Some(Edge::Right)
    } else if soft.left {
        Some(Edge::Left)
    } else if soft.top {
        Some(Edge::Top)
    } else if soft.bottom {
        Some(Edge::Bottom)
    } else {
        None
    }
}

impl TurnState {
    pub open spec fn manoeuvre_spec(self) -> Manoeuvre {
        match self {
            TurnState::Idle => Manoeuvre::Cruise,
            TurnState::TurningH | TurnState::TurningV => Manoeuvre::Turn,
            TurnState::TurningHarderH | TurnState::TurningHarderV => Manoeuvre::TurnHard,
        }
    }

    /// The state after one evaluation, given where the bird is relative to
    /// the soft and the hard boundary.
    pub open spec fn next_spec(self, soft: Placement, hard: Placement) -> TurnState {
        match self {
            TurnState::Idle => {
                if soft.is_horizontal() {
                    TurnState::TurningH
                } else if soft.is_vertical() {
                    TurnState::TurningV
                } else {
                    TurnState::Idle
                }
            },
            TurnState::TurningH | TurnState::TurningV => {
                let still_out = if self == TurnState::TurningH {
                    soft.is_horizontal()
                } else {
                    soft.is_vertical()
                };
                if !still_out {
                    TurnState::Idle
                } else if hard.is_horizontal() {
                    TurnState::TurningHarderH
                } else if hard.is_vertical() {
                    TurnState::TurningHarderV
                } else {
                    self
                }
            },
            TurnState::TurningHarderH => {
                if hard.is_horizontal() {
                    self
                } else {
                    TurnState::Idle
                }
            },
            TurnState::TurningHarderV => {
                if hard.is_vertical() {
                    self
                } else {
                    TurnState::Idle
                }
            },
        }
    }

    /// Whether the state turns the bird.
    pub open spec fn is_turning(self) -> bool {
        self != TurnState::Idle
    }

    /// What the bird does in this state before the state is re-evaluated.
    pub fn manoeuvre(&self) -> (r: Manoeuvre)
        ensures
            r == self.manoeuvre_spec(),
    {
        match self {
            TurnState::Idle => Manoeuvre::Cruise,
            TurnState::TurningH | TurnState::TurningV => Manoeuvre::Turn,
            TurnState::TurningHarderH | TurnState::TurningHarderV => Manoeuvre::TurnHard,
        }
    }

    /// Re-evaluates the state. `soft` and `hard` say where the bird is,
    /// after this state's manoeuvre, relative to the soft and the hard
    /// boundary. When a cruising bird starts a turn, the edge it turns away
    /// from comes back with the new state: the pending turn is computed from
    /// it once, on entry.
    pub fn next(&self, soft: Placement, hard: Placement) -> (r: (TurnState, Option<Edge>))
        ensures
            r.0 == self.next_spec(soft, hard),
            r.1 == (if *self == TurnState::Idle { entry_edge(soft) } else { None }),
            // a turn is entered exactly when an edge is reported
            r.1.is_some() <==> (!self.is_turning() && r.0.is_turning()),
            // a cruising bird never escalates straight to a hard turn
            *self == TurnState::Idle ==> r.0.manoeuvre_spec() != Manoeuvre::TurnHard,
            // a hard turn only ever ends in cruising
            self.manoeuvre_spec() == Manoeuvre::TurnHard ==> (r.0 == *self || r.0 == TurnState::Idle),
    {
        match self {
            TurnState::Idle => {
                if soft.horizontal() {
                    let edge = if soft.right {
                        Edge::Right
                    } else {
                        Edge::Left
                    };
                    (TurnState::TurningH, Some(edge))
                } else if soft.vertical() {
                    let edge = if soft.top {
                        Edge::Top
                    } else {
                        Edge::Bottom
                    };
                    (TurnState::TurningV, Some(edge))
                } else {
                    (TurnState::Idle, None)
                }
            },
            TurnState::TurningH | TurnState::TurningV => {
                let still_out = match self {
                    TurnState::TurningH => soft.horizontal(),
                    _ => soft.vertical(),
                };
                let next = if !still_out {
                    TurnState::Idle
                } else if hard.horizontal() {
                    TurnState::TurningHarderH
                } else if hard.vertical() {
                    TurnState::TurningHarderV
                } else {
                    *self
                };
                (next, None)
            },
            TurnState::TurningHarderH => {
                let next = if hard.horizontal() {
                    TurnState::TurningHarderH
                } else {
                    TurnState::Idle
                };
                (next, None)
            },
            TurnState::TurningHarderV => {
                let next = if hard.vertical() {
                    TurnState::TurningHarderV
                } else {
                    TurnState::Idle
                };
                (next, None)
            },
        }
    }
}

/// A bird back inside both boundaries returns to cruising from any state in
/// one evaluation: no state of the machine is terminal.
pub proof fn lemma_inside_returns_to_idle(s: TurnState, soft: Placement, hard: Placement)
    requires
        !soft.is_horizontal(),
        !soft.is_vertical(),
        !hard.is_horizontal(),
        !hard.is_vertical(),
    ensures
        s.next_spec(soft, hard) == TurnState::Idle,
{
}

} // verus!
