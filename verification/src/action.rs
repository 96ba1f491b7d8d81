//! Action selection: which pointer action one firing performs.
//!
//! The engine only decides the action; the collaborator that owns the
//! pointer-injection capability carries it out. If injection fails there,
//! the session is aborted — the engine never asks for a retry.

use vstd::prelude::*;

use crate::config::ClickMode;
use crate::config::MouseButton;

verus! {

/// One pointer action, ready to hand to the injection capability.
#[derive(Clone, Copy, Debug, PartialEq, Eq, Structural)]
pub enum ClickAction {
    /// Press and release once.
    Click(MouseButton),
    /// Two consecutive single clicks.
    DoubleClick(MouseButton),
    /// Press and hold.
    Press(MouseButton),
    /// Release a held button.
    Release(MouseButton),
}

/// The action a firing performs: single and double clicks are themselves,
/// toggle mode presses when the firing leaves the button held and
/// releases when it leaves it free.
pub open spec fn action_for(mode: ClickMode, button: MouseButton, pressed_after: bool) -> ClickAction {
    match mode {
        ClickMode::Single => ClickAction::Click(button),
        ClickMode::Double => ClickAction::DoubleClick(button),
        ClickMode::Toggle => if pressed_after {
            ClickAction::Press(button)
        } else {
            ClickAction::Release(button)
        },
    }
}

/// Select the pointer action for one firing. `pressed_after` is the
/// press-parity the firing establishes: in toggle mode, `true` means this
/// firing presses and holds, `false` means it releases.
pub fn select_action(mode: &ClickMode, button: MouseButton, pressed_after: bool) -> (a: ClickAction)
    ensures
        a == action_for(*mode, button, pressed_after),
{
    match mode {
        ClickMode::Single => ClickAction::Click(button),
        ClickMode::Double => ClickAction::DoubleClick(button),
        ClickMode::Toggle => if pressed_after {
            ClickAction::Press(button)
        } else {
            ClickAction::Release(button)
        },
    }
}

} // verus!
