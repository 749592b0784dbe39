use birds::turn::{Edge, Manoeuvre, Placement, TurnState};

fn at(right: bool, left: bool, top: bool, bottom: bool) -> Placement {
    Placement { right, left, top, bottom }
}

#[test]
fn idle_inside_stays_idle() {
    let inside = Placement::inside();
    assert_eq!(TurnState::Idle.next(inside, inside), (TurnState::Idle, None));
    assert_eq!(TurnState::Idle.manoeuvre(), Manoeuvre::Cruise);
}

#[test]
fn idle_enters_horizontal_turn_with_edge() {
    let inside = Placement::inside();
    assert_eq!(
        TurnState::Idle.next(at(true, false, false, false), inside),
        (TurnState::TurningH, Some(Edge::Right))
    );
    assert_eq!(
        TurnState::Idle.next(at(false, true, false, false), inside),
        (TurnState::TurningH, Some(Edge::Left))
    );
    // horizontal takes precedence over vertical
    assert_eq!(
        TurnState::Idle.next(at(false, true, true, false), at(true, true, true, true)),
        (TurnState::TurningH, Some(Edge::Left))
    );
}

#[test]
fn idle_enters_vertical_turn_with_edge() {
    let inside = Placement::inside();
    assert_eq!(
        TurnState::Idle.next(at(false, false, true, false), inside),
        (TurnState::TurningV, Some(Edge::Top))
    );
    assert_eq!(
        TurnState::Idle.next(at(false, false, false, true), inside),
        (TurnState::TurningV, Some(Edge::Bottom))
    );
}

#[test]
fn turning_returns_to_idle_once_back_inside_soft() {
    let inside = Placement::inside();
    assert_eq!(TurnState::TurningH.next(inside, inside), (TurnState::Idle, None));
    // a vertical excursion does not keep a horizontal turn going
    assert_eq!(TurnState::TurningH.next(at(false, false, true, false), inside), (TurnState::Idle, None));
    assert_eq!(TurnState::TurningV.next(at(true, false, false, false), inside), (TurnState::Idle, None));
    assert_eq!(TurnState::TurningH.manoeuvre(), Manoeuvre::Turn);
    assert_eq!(TurnState::TurningV.manoeuvre(), Manoeuvre::Turn);
}

#[test]
fn turning_escalates_at_hard_edge() {
    let soft = at(true, false, true, false);
    assert_eq!(
        TurnState::TurningH.next(soft, at(true, false, false, false)),
        (TurnState::TurningHarderH, None)
    );
    assert_eq!(
        TurnState::TurningH.next(soft, at(false, false, true, false)),
        (TurnState::TurningHarderV, None)
    );
    assert_eq!(
        TurnState::TurningV.next(soft, at(false, true, false, false)),
        (TurnState::TurningHarderH, None)
    );
    assert_eq!(TurnState::TurningV.next(soft, Placement::inside()), (TurnState::TurningV, None));
}

#[test]
fn hard_turn_ends_inside_hard_edge() {
    let out = at(true, true, true, true);
    let inside = Placement::inside();
    assert_eq!(TurnState::TurningHarderH.next(out, at(false, true, false, false)), (TurnState::TurningHarderH, None));
    assert_eq!(TurnState::TurningHarderH.next(out, at(false, false, true, false)), (TurnState::Idle, None));
    assert_eq!(TurnState::TurningHarderV.next(out, at(false, false, false, true)), (TurnState::TurningHarderV, None));
    assert_eq!(TurnState::TurningHarderV.next(out, inside), (TurnState::Idle, None));
    assert_eq!(TurnState::TurningHarderH.manoeuvre(), Manoeuvre::TurnHard);
    assert_eq!(TurnState::TurningHarderV.manoeuvre(), Manoeuvre::TurnHard);
}

#[test]
fn edge_outward_headings() {
    assert_eq!(Edge::Right.outward_quarter_turns(), 0);
    assert_eq!(Edge::Top.outward_quarter_turns(), 1);
    assert_eq!(Edge::Left.outward_quarter_turns(), 2);
    assert_eq!(Edge::Bottom.outward_quarter_turns(), 3);
}

#[test]
fn placement_axes() {
    let p = at(false, true, false, false);
    assert!(p.horizontal());
    assert!(!p.vertical());
    assert!(p.outside());
    let q = at(false, false, false, true);
    assert!(!q.horizontal());
    assert!(q.vertical());
    assert!(q.outside());
    assert!(!Placement::inside().outside());
}
