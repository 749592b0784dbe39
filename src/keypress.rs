//! Live tuning from the keyboard: a latch of the last key event, a cycle
//! through the tunable settings, and the display toggles.
//!
//! Adjusting a tunable value is left to the owner of the configuration:
//! [`KeyPress::update_settings`] says which value to step and which way.
use vstd::prelude::*;

verus! {

/// The keys the simulation responds to; every other key is `Other`.
#[derive(Copy, Clone, Debug, PartialEq, Eq, Structural)]
pub enum Key {
    D,
    T,
    R,
    B,
    P,
    Tab,
    Up,
    Down,
    Other,
}

/// The last key event, as the simulation reads it.
#[derive(Copy, Clone, Debug, PartialEq, Eq, Structural)]
pub enum BirdInput {
    Nowt,
    DebugPress,
    DebugRelease,
    TrailPress,
    TrailRelease,
    RadiiPress,
    RadiiRelease,
    TurnboxPress,
    TurnboxRelease,
    PausePress,
    PauseRelease,
    CyclePress,
    CycleRelease,
    IncrementPress,
    IncrementRelease,
    DecrementPress,
    DecrementRelease,
}

/// The tunable setting that the up and down keys act on.
#[derive(Copy, Clone, Debug, PartialEq, Eq, Structural)]
pub enum SettingSelection {
    Nowt,
    Separation,
    Cohesion,
    Alignment,
    SpeedMin,
    SpeedMax,
}

/// A value of the flock configuration that can be stepped.
#[derive(Copy, Clone, Debug, PartialEq, Eq, Structural)]
pub enum Tunable {
    /// The separation turn gain.
    SeparationDelta,
    /// The cohesion turn gain.
    CohesionDelta,
    /// The alignment gain.
    AlignmentGain,
    /// The lower bound of the speed range.
    SpeedMin,
    /// The upper bound of the speed range.
    SpeedMax,
}

/// One step of a tunable value.
#[derive(Copy, Clone, Debug, PartialEq, Eq, Structural)]
pub enum Adjustment {
    Increment(Tunable),
    Decrement(Tunable),
}

/// The display and run toggles.
#[derive(Copy, Clone, Debug, PartialEq, Eq, Structural)]
pub struct Settings {
    pub show_radii: bool,
    pub show_turnbox: bool,
    pub show_trails: bool,
    pub show_debug: bool,
    pub pause: bool,
}

pub open spec fn press_input(key: Key) -> BirdInput {
    match key {
        Key::D => BirdInput::DebugPress,
        Key::T => BirdInput::TrailPress,
        Key::R => BirdInput::RadiiPress,
        Key::B => BirdInput::TurnboxPress,
        Key::P => BirdInput::PausePress,
        Key::Tab => BirdInput::CyclePress,
        Key::Up => BirdInput::IncrementPress,
        Key::Down => BirdInput::DecrementPress,
        Key::Other => BirdInput::Nowt,
    }
}

pub open spec fn release_input(key: Key) -> BirdInput {
    match key {
        Key::D => BirdInput::DebugRelease,
        Key::T => BirdInput::TrailRelease,
        Key::R => BirdInput::RadiiRelease,
        Key::B => BirdInput::TurnboxRelease,
        Key::P => BirdInput::PauseRelease,
        Key::Tab => BirdInput::CycleRelease,
        Key::Up => BirdInput::IncrementRelease,
        Key::Down => BirdInput::DecrementRelease,
        Key::Other => BirdInput::Nowt,
    }
}

/// The selection after one press of the cycle key, wrapping round to none.
pub open spec fn next_selection(s: SettingSelection) -> SettingSelection {
    match s {
        SettingSelection::Nowt => SettingSelection::Separation,
        SettingSelection::Separation => SettingSelection::Cohesion,
        SettingSelection::Cohesion => SettingSelection::Alignment,
        SettingSelection::Alignment => SettingSelection::SpeedMin,
        SettingSelection::SpeedMin => SettingSelection::SpeedMax,
        SettingSelection::SpeedMax => SettingSelection::Nowt,
    }
}

/// The value a selection stands for; none for `Nowt`.
pub open spec fn tunable_of(s: SettingSelection) -> Option<Tunable> {
    match s {
        SettingSelection::Nowt => None,
        SettingSelection::Separation => Some(Tunable::SeparationDelta),
        SettingSelection::Cohesion => Some(Tunable::CohesionDelta),
        SettingSelection::Alignment => Some(Tunable::AlignmentGain),
        SettingSelection::SpeedMin => Some(Tunable::SpeedMin),
        SettingSelection::SpeedMax => Some(Tunable::SpeedMax),
    }
}

/// The value that the up or down key steps: the selected one, and only
/// while the debug overlay is shown.
pub open spec fn stepped(settings: Settings, s: SettingSelection) -> Option<Tunable> {
    if settings.show_debug {
        tunable_of(s)
    } else {
        None
    }
}

fn tunable(s: SettingSelection) -> (r: Option<Tunable>)
    ensures
        r == tunable_of(s),
{
    match s {
        SettingSelection::Nowt => None,
        SettingSelection::Separation => Some(Tunable::SeparationDelta),
        SettingSelection::Cohesion => Some(Tunable::CohesionDelta),
        SettingSelection::Alignment => Some(Tunable::AlignmentGain),
        SettingSelection::SpeedMin => Some(Tunable::SpeedMin),
        SettingSelection::SpeedMax => Some(Tunable::SpeedMax),
    }
}

/// The keyboard state: the last event, whether it differs from the one
/// before (the latch), and the selected tunable.
#[derive(Copy, Clone, Debug)]
pub struct KeyPress {
    input: BirdInput,
    changed: bool,
    selection: SettingSelection,
}

impl KeyPress {
    pub closed spec fn input_spec(&self) -> BirdInput {
        self.input
    }

    pub closed spec fn is_changed(&self) -> bool {
        self.changed
    }

    pub closed spec fn selection_spec(&self) -> SettingSelection {
        self.selection
    }

    /// No event seen, latch clear, nothing selected.
    pub fn new() -> (r: KeyPress)
        ensures
            r.input_spec() == BirdInput::Nowt,
            !r.is_changed(),
            r.selection_spec() == SettingSelection::Nowt,
    {
        KeyPress { input: BirdInput::Nowt, changed: false, selection: SettingSelection::Nowt }
    }

    fn increment_selection(&mut self, settings: &Settings)
        ensures
            final(self).input_spec() == old(self).input_spec(),
            final(self).is_changed() == old(self).is_changed(),
            final(self).selection_spec() == (if settings.show_debug {
                next_selection(old(self).selection_spec())
            } else {
                old(self).selection_spec()
            }),
    {
        if settings.show_debug {
            self.selection = match self.selection {
                SettingSelection::Nowt => SettingSelection::Separation,
                SettingSelection::Separation => SettingSelection::Cohesion,
                SettingSelection::Cohesion => SettingSelection::Alignment,
                SettingSelection::Alignment => SettingSelection::SpeedMin,
                SettingSelection::SpeedMin => SettingSelection::SpeedMax,
                SettingSelection::SpeedMax => SettingSelection::Nowt,
            };
        }
    }

    /// Whether the last event differs from the one before it.
    pub fn changed(&self) -> (r: bool)
        ensures
            r == self.is_changed(),
    {
        self.changed
    }

    pub fn separation_selected(&self) -> (r: bool)
        ensures
            r == (self.selection_spec() == SettingSelection::Separation),
    {
        self.selection == SettingSelection::Separation
    }

    pub fn cohesion_selected(&self) -> (r: bool)
        ensures
            r == (self.selection_spec() == SettingSelection::Cohesion),
    {
        self.selection == SettingSelection::Cohesion
    }

    pub fn alignment_selected(&self) -> (r: bool)
        ensures
            r == (self.selection_spec() == SettingSelection::Alignment),
    {
        self.selection == SettingSelection::Alignment
    }

    pub fn speedmin_selected(&self) -> (r: bool)
        ensures
            r == (self.selection_spec() == SettingSelection::SpeedMin),
    {
        self.selection == SettingSelection::SpeedMin
    }

    pub fn speedmax_selected(&self) -> (r: bool)
        ensures
            r == (self.selection_spec() == SettingSelection::SpeedMax),
    {
        self.selection == SettingSelection::SpeedMax
    }

    /// The value the up key steps up, if any.
    pub fn handle_increment(&self, settings: &Settings) -> (r: Option<Adjustment>)
        ensures
            r == (match stepped(*settings, self.selection_spec()) {
                Some(t) => Some(Adjustment::Increment(t)),
                None => None,
            }),
    {
        if settings.show_debug {
            match tunable(self.selection) {
                Some(t) => Some(Adjustment::Increment(t)),
                None => None,
            }
        } else {
            None
        }
    }

    /// The value the down key steps down, if any.
    pub fn handle_decrement(&self, settings: &Settings) -> (r: Option<Adjustment>)
        ensures
            r == (match stepped(*settings, self.selection_spec()) {
                Some(t) => Some(Adjustment::Decrement(t)),
                None => None,
            }),
    {
        if settings.show_debug {
            match tunable(self.selection) {
                Some(t) => Some(Adjustment::Decrement(t)),
                None => None,
            }
        } else {
            None
        }
    }

    /// Acts on the last event: a press of a toggle key flips its setting,
    /// the cycle key moves the selection (while the debug overlay is shown),
    /// and the up and down keys return the step to apply to the
    /// configuration. Releases and other keys do nothing.
    pub fn update_settings(&mut self, settings: &mut Settings) -> (r: Option<Adjustment>)
        ensures
            final(self).input_spec() == old(self).input_spec(),
            final(self).is_changed() == old(self).is_changed(),
            final(self).selection_spec() == (if old(self).input_spec() == BirdInput::CyclePress
                && old(settings).show_debug {
                next_selection(old(self).selection_spec())
            } else {
                old(self).selection_spec()
            }),
            *final(settings) == (match old(self).input_spec() {
                BirdInput::DebugPress => Settings { show_debug: !old(settings).show_debug, ..*old(settings) },
                BirdInput::TrailPress => Settings { show_trails: !old(settings).show_trails, ..*old(settings) },
                BirdInput::TurnboxPress => Settings { show_turnbox: !old(settings).show_turnbox, ..*old(settings) },
                BirdInput::RadiiPress => Settings { show_radii: !old(settings).show_radii, ..*old(settings) },
                BirdInput::PausePress => Settings { pause: !old(settings).pause, ..*old(settings) },
                _ => *old(settings),
            }),
            r == (match (old(self).input_spec(), stepped(*old(settings), old(self).selection_spec())) {
                (BirdInput::IncrementPress, Some(t)) => Some(Adjustment::Increment(t)),
                (BirdInput::DecrementPress, Some(t)) => Some(Adjustment::Decrement(t)),
                _ => None,
            }),
    {
        match self.input {
            BirdInput::DebugPress => {
                settings.show_debug = !settings.show_debug;
                None
            },
            BirdInput::TrailPress => {
                settings.show_trails = !settings.show_trails;
                None
            },
            BirdInput::TurnboxPress => {
                settings.show_turnbox = !settings.show_turnbox;
                None
            },
            BirdInput::RadiiPress => {
                settings.show_radii = !settings.show_radii;
                None
            },
            BirdInput::PausePress => {
                settings.pause = !settings.pause;
                None
            },
            BirdInput::CyclePress => {
                self.increment_selection(settings);
                None
            },
            BirdInput::IncrementPress => self.handle_increment(settings),
            BirdInput::DecrementPress => self.handle_decrement(settings),
            _ => None,
        }
    }

    /// Clears the latch once the event has been acted on.
    pub fn reset_latch(&mut self)
        ensures
            final(self).input_spec() == old(self).input_spec(),
            !final(self).is_changed(),
            final(self).selection_spec() == old(self).selection_spec(),
    {
        self.changed = false;
    }

    /// Records a key press; the latch is set exactly when the event differs
    /// from the previous one.
    pub fn handle_press(&mut self, key: Key)
        ensures
            final(self).input_spec() == press_input(key),
            final(self).is_changed() == (old(self).input_spec() != press_input(key)),
            final(self).selection_spec() == old(self).selection_spec(),
    {
        let previous = self.input;
        self.input = match key {
            Key::D => BirdInput::DebugPress,
            Key::T => BirdInput::TrailPress,
            Key::R => BirdInput::RadiiPress,
            Key::B => BirdInput::TurnboxPress,
            Key::P => BirdInput::PausePress,
            Key::Tab => BirdInput::CyclePress,
            Key::Up => BirdInput::IncrementPress,
            Key::Down => BirdInput::DecrementPress,
            Key::Other => BirdInput::Nowt,
        };
        self.changed = previous != self.input;
    }

    /// Records a key release; the latch is set exactly when the event
    /// differs from the previous one.
    pub fn handle_release(&mut self, key: Key)
        ensures
            final(self).input_spec() == release_input(key),
            final(self).is_changed() == (old(self).input_spec() != release_input(key)),
            final(self).selection_spec() == old(self).selection_spec(),
    {
        let previous = self.input;
        self.input = match key {
            Key::D => BirdInput::DebugRelease,
            Key::T => BirdInput::TrailRelease,
            Key::R => BirdInput::RadiiRelease,
            Key::B => BirdInput::TurnboxRelease,
            Key::P => BirdInput::PauseRelease,
            Key::Tab => BirdInput::CycleRelease,
            Key::Up => BirdInput::IncrementRelease,
            Key::Down => BirdInput::DecrementRelease,
            Key::Other => BirdInput::Nowt,
        };
        self.changed = previous != self.input;
    }
}

} // verus!
