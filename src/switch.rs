use vstd::prelude::*;

use crate::color::Color;

verus! {

/// A two-state toggle. The caller keeps the state between frames.
#[derive(Clone, Copy, Debug, PartialEq, Eq, Structural)]
pub struct Switch {
    pub on: bool,
}

/// The state after one frame: a click flips it, no click keeps it.
pub open spec fn toggled(on: bool, clicked: bool) -> bool {
    on != clicked
}

/// The state after a run of frames, each with or without a click.
pub open spec fn switch_after(on: bool, clicks: Seq<bool>) -> bool
    decreases clicks.len(),
{
    if clicks.len() == 0 {
        on
    } else {
        toggled(switch_after(on, clicks.drop_last()), clicks.last())
    }
}

/// How many frames of the run had a click.
pub open spec fn click_count(clicks: Seq<bool>) -> nat
    decreases clicks.len(),
{
    if clicks.len() == 0 {
        0
    } else {
        click_count(clicks.drop_last()) + if clicks.last() {
            1nat
        } else {
            0nat
        }
    }
}

/// Over any run of frames the switch flips once per click: it ends flipped exactly when the
/// number of clicks is odd, so frames without a click leave it as it was.
pub proof fn lemma_switch_flips_once_per_click(on: bool, clicks: Seq<bool>)
    ensures
        switch_after(on, clicks) == (on != (click_count(clicks) % 2 == 1)),
    decreases clicks.len(),
{
    if clicks.len() > 0 {
        lemma_switch_flips_once_per_click(on, clicks.drop_last());
    }
}

impl Switch {
    pub fn new(on: bool) -> (s: Switch)
        ensures
            s.on == on,
    {
        Switch { on }
    }

    pub fn is_on(&self) -> (on: bool)
        ensures
            on == self.on,
    {
        self.on
    }

    /// Handles one frame: a click flips the state and reports a change.
    pub fn interact(&mut self, clicked: bool) -> (changed: bool)
        ensures
            final(self).on == toggled(old(self).on, clicked),
            changed == clicked,
    {
        if clicked {
            self.on = !self.on;
        }
        clicked
    }

    /// The color of the track: green when on, light grey when off.
    pub fn track_color(&self) -> (c: Color)
        ensures
            c == (if self.on {
                Color { r: 91, g: 194, b: 54, a: 255 }
            } else {
                Color { r: 229, g: 229, b: 229, a: 255 }
            }),
    {
        if self.on {
            Color::from_rgb(91, 194, 54)
        } else {
            Color::from_rgb(229, 229, 229)
        }
    }
}

} // verus!
