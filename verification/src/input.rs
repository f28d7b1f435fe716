//! Decisions the 3D viewport takes on mouse and keyboard input, in the
//! Blender convention: a middle-button drag orbits, with Shift it pans and
//! with Ctrl it zooms; a left-button drag orbits; Numpad 1, 3, 7 and 5 select
//! the front, right and top views and reset the view.
//!
//! The caller keeps the cursor position at which a drag last moved; whenever
//! a transition reports that the drag (re)started, that position is
//! forgotten and the next cursor move only records where the cursor is.
use vstd::prelude::*;

verus! {

/// What a mouse drag does to the camera.
#[derive(Clone, Copy, Debug, PartialEq, Eq, Structural)]
pub enum DragMode {
    /// No drag is under way.
    Idle,
    Orbit,
    Pan,
    Zoom,
}

/// The mouse buttons the viewport tells apart.
#[derive(Clone, Copy, Debug, PartialEq, Eq, Structural)]
pub enum PointerButton {
    Left,
    Middle,
    Other,
}

/// The keys the viewport tells apart.
#[derive(Clone, Copy, Debug, PartialEq, Eq, Structural)]
pub enum ViewKey {
    Numpad1,
    Numpad3,
    Numpad5,
    Numpad7,
    Other,
}

/// A preset camera view.
#[derive(Clone, Copy, Debug, PartialEq, Eq, Structural)]
pub enum ViewPreset {
    /// Numpad 1: looking along the front axis.
    Front,
    /// Numpad 3: looking from the right side.
    Right,
    /// Numpad 7: looking straight down.
    Top,
    /// Numpad 5: the initial view.
    Reset,
}

/// The drag state of the viewport and the modifier keys held.
#[derive(Clone, Copy, Debug, PartialEq, Eq, Structural)]
pub struct DragControl {
    pub mode: DragMode,
    pub shift_held: bool,
    pub ctrl_held: bool,
}

/// The mode a middle-button drag starts in: Shift pans, otherwise Ctrl
/// zooms, otherwise it orbits.
pub open spec fn mode_for(shift: bool, ctrl: bool) -> DragMode {
    if shift {
        DragMode::Pan
    } else if ctrl {
        DragMode::Zoom
    } else {
        DragMode::Orbit
    }
}

impl DragControl {
    /// The state after the modifier keys change to `shift` and `ctrl`, and
    /// whether a drag restarted: a drag under way switches to the mode the
    /// new modifiers select.
    pub open spec fn after_modifiers(self, shift: bool, ctrl: bool) -> (DragControl, bool) {
        if self.mode == DragMode::Idle {
            (DragControl { shift_held: shift, ctrl_held: ctrl, ..self }, false)
        } else {
            (DragControl { mode: mode_for(shift, ctrl), shift_held: shift, ctrl_held: ctrl }, true)
        }
    }

    /// The state after `button` is pressed or released, and whether a drag
    /// started. Releasing the middle button ends any drag, releasing the left
    /// one ends an orbit; a press while the interface holds the pointer does
    /// nothing.
    pub open spec fn after_button(
        self,
        button: PointerButton,
        pressed: bool,
        ui_has_pointer: bool,
    ) -> (DragControl, bool) {
        if !pressed {
            match button {
                PointerButton::Middle => (DragControl { mode: DragMode::Idle, ..self }, false),
                PointerButton::Left => if self.mode == DragMode::Orbit {
                    (DragControl { mode: DragMode::Idle, ..self }, false)
                } else {
                    (self, false)
                },
                PointerButton::Other => (self, false),
            }
        } else if ui_has_pointer {
            (self, false)
        } else {
            match button {
                PointerButton::Middle => (
                    DragControl { mode: mode_for(self.shift_held, self.ctrl_held), ..self },
                    true,
                ),
                PointerButton::Left => (DragControl { mode: DragMode::Orbit, ..self }, true),
                PointerButton::Other => (self, false),
            }
        }
    }

    /// The state after the cursor moves: the interface taking the pointer
    /// cancels the drag.
    pub open spec fn after_move(self, ui_has_pointer: bool) -> DragControl {
        if ui_has_pointer {
            DragControl { mode: DragMode::Idle, ..self }
        } else {
            self
        }
    }

    /// No drag, no modifier held.
    pub fn new() -> (r: Self)
        ensures
            r == (DragControl { mode: DragMode::Idle, shift_held: false, ctrl_held: false }),
    {
        DragControl { mode: DragMode::Idle, shift_held: false, ctrl_held: false }
    }

    /// The mode a middle-button drag starts in with the modifiers held now.
    pub fn drag_mode(&self) -> (r: DragMode)
        ensures
            r == mode_for(self.shift_held, self.ctrl_held),
            self.shift_held ==> r == DragMode::Pan,
            !self.shift_held && self.ctrl_held ==> r == DragMode::Zoom,
            !self.shift_held && !self.ctrl_held ==> r == DragMode::Orbit,
    {
        if self.shift_held {
            DragMode::Pan
        } else if self.ctrl_held {
            DragMode::Zoom
        } else {
            DragMode::Orbit
        }
    }

    /// Records the modifier keys; a drag under way restarts in the mode they
    /// select. Returns whether it restarted.
    pub fn modifiers_changed(&mut self, shift: bool, ctrl: bool) -> (restarted: bool)
        ensures
            (*final(self), restarted) == old(self).after_modifiers(shift, ctrl),
            final(self).shift_held == shift && final(self).ctrl_held == ctrl,
            restarted <==> old(self).mode != DragMode::Idle,
            old(self).mode == DragMode::Idle ==> final(self).mode == DragMode::Idle,
            old(self).mode != DragMode::Idle ==> final(self).mode == (if shift {
                DragMode::Pan
            } else if ctrl {
                DragMode::Zoom
            } else {
                DragMode::Orbit
            }),
    {
        self.shift_held = shift;
        self.ctrl_held = ctrl;
        if self.mode != DragMode::Idle {
            self.mode = self.drag_mode();
            true
        } else {
            false
        }
    }

    /// Handles a press or release of `button`. Returns whether a drag started.
    pub fn button(&mut self, button: PointerButton, pressed: bool, ui_has_pointer: bool) -> (started: bool)
        ensures
            (*final(self), started) == old(self).after_button(button, pressed, ui_has_pointer),
            final(self).shift_held == old(self).shift_held,
            final(self).ctrl_held == old(self).ctrl_held,
            pressed && !ui_has_pointer && button == PointerButton::Middle ==> started && final(
                self).mode == (if old(self).shift_held {
                DragMode::Pan
            } else if old(self).ctrl_held {
                DragMode::Zoom
            } else {
                DragMode::Orbit
            }),
            pressed && !ui_has_pointer && button == PointerButton::Left ==> started && final(
                self).mode == DragMode::Orbit,
            pressed && ui_has_pointer ==> !started && *final(self) == *old(self),
            !pressed ==> !started,
            !pressed && button == PointerButton::Middle ==> final(self).mode == DragMode::Idle,
    {
        if !pressed {
            match button {
                PointerButton::Middle => {
                    self.mode = DragMode::Idle;
                },
                PointerButton::Left => {
                    if self.mode == DragMode::Orbit {
                        self.mode = DragMode::Idle;
                    }
                },
                PointerButton::Other => {},
            }
            return false;
        }
        if ui_has_pointer {
            return false;
        }
        match button {
            PointerButton::Middle => {
                self.mode = self.drag_mode();
                true
            },
            PointerButton::Left => {
                self.mode = DragMode::Orbit;
                true
            },
            PointerButton::Other => false,
        }
    }

    /// Handles a cursor move and returns the drag it drives (`Idle` for none).
    pub fn cursor_moved(&mut self, ui_has_pointer: bool) -> (r: DragMode)
        ensures
            *final(self) == old(self).after_move(ui_has_pointer),
            r == final(self).mode,
            ui_has_pointer ==> r == DragMode::Idle,
            !ui_has_pointer ==> *final(self) == *old(self),
            final(self).shift_held == old(self).shift_held && final(self).ctrl_held == old(
                self).ctrl_held,
    {
        if ui_has_pointer {
            self.mode = DragMode::Idle;
        }
        self.mode
    }
}

/// The preset a key event selects.
pub open spec fn preset_for(key: ViewKey, pressed: bool, ui_consumed: bool) -> Option<ViewPreset> {
    if ui_consumed || !pressed {
        None
    } else {
        match key {
            ViewKey::Numpad1 => Some(ViewPreset::Front),
            ViewKey::Numpad3 => Some(ViewPreset::Right),
            ViewKey::Numpad7 => Some(ViewPreset::Top),
            ViewKey::Numpad5 => Some(ViewPreset::Reset),
            ViewKey::Other => None,
        }
    }
}

/// The preset view a key event selects: only presses the interface did not
/// consume count.
pub fn key_preset(key: ViewKey, pressed: bool, ui_consumed: bool) -> (r: Option<ViewPreset>)
    ensures
        r == preset_for(key, pressed, ui_consumed),
        ui_consumed || !pressed ==> r is None,
        !ui_consumed && pressed ==> (key == ViewKey::Numpad1 <==> r == Some(ViewPreset::Front)),
        !ui_consumed && pressed ==> (key == ViewKey::Numpad3 <==> r == Some(ViewPreset::Right)),
        !ui_consumed && pressed ==> (key == ViewKey::Numpad7 <==> r == Some(ViewPreset::Top)),
        !ui_consumed && pressed ==> (key == ViewKey::Numpad5 <==> r == Some(ViewPreset::Reset)),
        key == ViewKey::Other ==> r is None,
{
    if ui_consumed || !pressed {
        return None;
    }
    match key {
        ViewKey::Numpad1 => Some(ViewPreset::Front),
        ViewKey::Numpad3 => Some(ViewPreset::Right),
        ViewKey::Numpad7 => Some(ViewPreset::Top),
        ViewKey::Numpad5 => Some(ViewPreset::Reset),
        ViewKey::Other => None,
    }
}

/// A middle-button press that the interface does not hold starts a drag in
/// the Blender convention: Shift pans, Ctrl (without Shift) zooms, no
/// modifier orbits; a left-button press always starts an orbit. The
/// modifiers held are left as they were.
pub proof fn lemma_press_starts_blender_drag(s: DragControl)
    ensures
        s.after_button(PointerButton::Middle, true, false).1,
        s.after_button(PointerButton::Middle, true, false).0.mode == mode_for(
            s.shift_held,
            s.ctrl_held,
        ),
        s.shift_held ==> s.after_button(PointerButton::Middle, true, false).0.mode
            == DragMode::Pan,
        !s.shift_held && s.ctrl_held ==> s.after_button(PointerButton::Middle, true, false).0.mode
            == DragMode::Zoom,
        !s.shift_held && !s.ctrl_held ==> s.after_button(PointerButton::Middle, true, false).0.mode
            == DragMode::Orbit,
        s.after_button(PointerButton::Left, true, false).1,
        s.after_button(PointerButton::Left, true, false).0.mode == DragMode::Orbit,
        s.after_button(PointerButton::Middle, true, false).0.shift_held == s.shift_held,
        s.after_button(PointerButton::Middle, true, false).0.ctrl_held == s.ctrl_held,
{
}

/// Releasing the middle button always ends the drag, whatever the interface
/// does; while the interface holds the pointer no press starts a drag and
/// every cursor move leaves the viewport without one.
pub proof fn lemma_pointer_ownership(s: DragControl, b: PointerButton, ui: bool)
    ensures
        s.after_button(PointerButton::Middle, false, ui).0.mode == DragMode::Idle,
        s.after_button(b, true, true) == (s, false),
        s.after_move(true).mode == DragMode::Idle,
{
}

/// Changing modifiers never starts a drag, and the drag under way always
/// follows the modifiers held, Shift winning over Ctrl.
pub proof fn lemma_modifiers_follow(s: DragControl, shift: bool, ctrl: bool)
    ensures
        s.mode == DragMode::Idle ==> s.after_modifiers(shift, ctrl).0.mode == DragMode::Idle,
        s.mode != DragMode::Idle ==> s.after_modifiers(shift, ctrl).0.mode == mode_for(
            shift,
            ctrl,
        ),
        shift ==> mode_for(shift, ctrl) == DragMode::Pan,
        s.after_modifiers(shift, ctrl).0.shift_held == shift,
        s.after_modifiers(shift, ctrl).0.ctrl_held == ctrl,
{
}

/// A drag that starts is never `Idle`, and one that does not start leaves
/// the drag mode as it was or ends it.
pub proof fn lemma_started_drag(s: DragControl, b: PointerButton, pressed: bool, ui: bool)
    ensures
        s.after_button(b, pressed, ui).1 ==> s.after_button(b, pressed, ui).0.mode
            != DragMode::Idle,
        !s.after_button(b, pressed, ui).1 ==> (s.after_button(b, pressed, ui).0.mode == s.mode
            || s.after_button(b, pressed, ui).0.mode == DragMode::Idle),
{
}

} // verus!
