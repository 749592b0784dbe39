//! A proximity tracker: the latest separation or cohesion reading of one
//! bird, with the flag that says whether it still has to be applied.
//!
//! The tracker is generic over its settings `S` and its angle type `A`: it
//! only stores and hands them back, and owns the rule that a reading is
//! applied once. Each `update` marks it changed, and the one `reset` that
//! follows clears the mark; a `reset` without a change is not allowed.
use vstd::prelude::*;

verus! {

#[derive(Copy, Clone)]
pub struct Proximity<S, A> {
    settings: S,
    angle: A,
    alignment: A,
    changed: bool,
}

impl<S: Copy, A: Copy> Proximity<S, A> {
    /// The settings the tracker applies its readings with.
    pub closed spec fn settings_spec(&self) -> S {
        self.settings
    }

    /// The direction measured from the neighbours.
    pub closed spec fn angle_spec(&self) -> A {
        self.angle
    }

    /// The mean heading of the neighbours.
    pub closed spec fn alignment_spec(&self) -> A {
        self.alignment
    }

    /// Whether a reading is waiting to be applied.
    pub closed spec fn is_changed(&self) -> bool {
        self.changed
    }

    /// A tracker holding an initial reading, with nothing waiting.
    pub fn new(settings: S, angle: A, alignment: A) -> (r: Self)
        ensures
            r.settings_spec() == settings,
            r.angle_spec() == angle,
            r.alignment_spec() == alignment,
            !r.is_changed(),
    {
        Proximity { settings, angle, alignment, changed: false }
    }

    /// Takes the latest settings; the reading and its flag are kept.
    pub fn refresh_settings(&mut self, settings: &S)
        ensures
            final(self).settings_spec() == *settings,
            final(self).angle_spec() == old(self).angle_spec(),
            final(self).alignment_spec() == old(self).alignment_spec(),
            final(self).is_changed() == old(self).is_changed(),
    {
        self.settings = *settings;
    }

    pub fn settings(&self) -> (r: S)
        ensures
            r == self.settings_spec(),
    {
        self.settings
    }

    /// Records a new reading and marks it to be applied.
    pub fn update(&mut self, angle: A, alignment: A)
        ensures
            final(self).settings_spec() == old(self).settings_spec(),
            final(self).angle_spec() == angle,
            final(self).alignment_spec() == alignment,
            final(self).is_changed(),
    {
        self.angle = angle;
        self.alignment = alignment;
        self.changed = true;
    }

    pub fn angle(&self) -> (r: A)
        ensures
            r == self.angle_spec(),
    {
        self.angle
    }

    /// Replaces the measured direction (to attenuate it, say) without
    /// touching the flag or the mean heading.
    pub fn set_angle(&mut self, angle: A)
        ensures
            final(self).settings_spec() == old(self).settings_spec(),
            final(self).angle_spec() == angle,
            final(self).alignment_spec() == old(self).alignment_spec(),
            final(self).is_changed() == old(self).is_changed(),
    {
        self.angle = angle;
    }

    pub fn alignment(&self) -> (r: A)
        ensures
            r == self.alignment_spec(),
    {
        self.alignment
    }

    pub fn changed(&self) -> (r: bool)
        ensures
            r == self.is_changed(),
    {
        self.changed
    }

    /// Clears the mark of a reading that has been applied.
    pub fn reset(&mut self)
        requires
            old(self).is_changed(),
        ensures
            final(self).settings_spec() == old(self).settings_spec(),
            final(self).angle_spec() == old(self).angle_spec(),
            final(self).alignment_spec() == old(self).alignment_spec(),
            !final(self).is_changed(),
    {
        self.changed = false;
    }

    /// Hands out the waiting reading, if there is one, and clears its mark:
    /// `Some` with the tracker as it stood exactly when a reading was
    /// waiting. Whatever it returns, nothing is waiting afterwards.
    pub fn take(&mut self) -> (r: Option<Self>)
        ensures
            r == (if old(self).is_changed() { Some(*old(self)) } else { None }),
            final(self).settings_spec() == old(self).settings_spec(),
            final(self).angle_spec() == old(self).angle_spec(),
            final(self).alignment_spec() == old(self).alignment_spec(),
            !final(self).is_changed(),
    {
        if self.changed {
            let taken = *self;
            self.reset();
            Some(taken)
        } else {
            None
        }
    }
}

} // verus!
