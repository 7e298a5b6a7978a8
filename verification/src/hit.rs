//! Hover and press tracking for clickable regions.
use crate::action::UiAction;
use vstd::prelude::*;

verus! {

/// How a clickable surface is shaded.
#[derive(Debug, Clone, Copy, PartialEq, Eq, Structural)]
pub enum ButtonState {
    Idle,
    Hover,
    Pressed,
}

/// The action under the cursor, and the region the button went down on
/// (its index among this frame's hit regions) with its action, if any.
#[derive(Debug, Clone, Copy)]
pub struct Interaction {
    pub hover: Option<UiAction>,
    pub pressed: Option<UiAction>,
    pub pressed_region: Option<usize>,
}

/// A hit on a clickable region: the region's index among the frame's hit
/// regions and its action.
#[derive(Debug, Clone, Copy, PartialEq, Eq, Structural)]
pub struct RegionHit {
    pub region: usize,
    pub action: UiAction,
}

/// The action of a hit, if any.
pub open spec fn action_of(hit: Option<RegionHit>) -> Option<UiAction> {
    match hit {
        Some(h) => Some(h.action),
        None => None,
    }
}

/// The region of a hit, if any.
pub open spec fn region_of(hit: Option<RegionHit>) -> Option<usize> {
    match hit {
        Some(h) => Some(h.region),
        None => None,
    }
}

/// The state a surface for `action` is drawn in: pressed wins over hover.
pub open spec fn button_state(i: Interaction, action: UiAction) -> ButtonState {
    if i.pressed == Some(action) {
        ButtonState::Pressed
    } else if i.hover == Some(action) {
        ButtonState::Hover
    } else {
        ButtonState::Idle
    }
}

impl Default for Interaction {
    /// Nothing hovered, nothing pressed.
    fn default() -> (r: Self)
        ensures
            r.hover is None,
            r.pressed is None,
            r.pressed_region is None,
    {
        Interaction { hover: None, pressed: None, pressed_region: None }
    }
}

impl Interaction {
    /// The state a surface for `action` is drawn in.
    pub fn state_for(&self, action: UiAction) -> (r: ButtonState)
        ensures
            r == button_state(*self, action),
    {
        if self.pressed == Some(action) {
            ButtonState::Pressed
        } else if self.hover == Some(action) {
            ButtonState::Hover
        } else {
            ButtonState::Idle
        }
    }

    /// Records what is under the cursor; returns whether it changed.
    pub fn set_hover(&mut self, hover: Option<UiAction>) -> (changed: bool)
        ensures
            changed == (old(self).hover != hover),
            final(self).hover == hover,
            final(self).pressed == old(self).pressed,
            final(self).pressed_region == old(self).pressed_region,
    {
        if self.hover != hover {
            self.hover = hover;
            true
        } else {
            false
        }
    }
}

} // verus!
