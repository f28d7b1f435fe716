use slam_viz::input::key_preset;
use slam_viz::{DragControl, DragMode, PointerButton, ViewKey, ViewPreset};

#[test]
fn middle_drag_follows_modifiers() {
    let mut d = DragControl::new();
    assert!(d.button(PointerButton::Middle, true, false));
    assert_eq!(d.mode, DragMode::Orbit);
    assert!(d.modifiers_changed(true, false));
    assert_eq!(d.mode, DragMode::Pan);
    assert!(d.modifiers_changed(false, true));
    assert_eq!(d.mode, DragMode::Zoom);
    assert!(d.modifiers_changed(true, true));
    assert_eq!(d.mode, DragMode::Pan);
    assert!(!d.button(PointerButton::Middle, false, true));
    assert_eq!(d.mode, DragMode::Idle);
    assert!(!d.modifiers_changed(false, false));
    assert_eq!(d.mode, DragMode::Idle);
}

#[test]
fn left_drag_orbits_and_left_release_ends_only_orbit() {
    let mut d = DragControl::new();
    d.modifiers_changed(true, false);
    assert!(d.button(PointerButton::Left, true, false));
    assert_eq!(d.mode, DragMode::Orbit);
    d.button(PointerButton::Left, false, false);
    assert_eq!(d.mode, DragMode::Idle);
    d.button(PointerButton::Middle, true, false);
    assert_eq!(d.mode, DragMode::Pan);
    d.button(PointerButton::Left, false, false);
    assert_eq!(d.mode, DragMode::Pan);
}

#[test]
fn interface_holding_pointer_blocks_and_cancels_drags() {
    let mut d = DragControl::new();
    assert!(!d.button(PointerButton::Middle, true, true));
    assert_eq!(d.mode, DragMode::Idle);
    d.button(PointerButton::Middle, true, false);
    assert_eq!(d.cursor_moved(false), DragMode::Orbit);
    assert_eq!(d.cursor_moved(true), DragMode::Idle);
    assert!(!d.button(PointerButton::Other, true, false));
}

#[test]
fn numpad_presets() {
    assert_eq!(key_preset(ViewKey::Numpad1, true, false), Some(ViewPreset::Front));
    assert_eq!(key_preset(ViewKey::Numpad3, true, false), Some(ViewPreset::Right));
    assert_eq!(key_preset(ViewKey::Numpad7, true, false), Some(ViewPreset::Top));
    assert_eq!(key_preset(ViewKey::Numpad5, true, false), Some(ViewPreset::Reset));
    assert_eq!(key_preset(ViewKey::Other, true, false), None);
    assert_eq!(key_preset(ViewKey::Numpad1, false, false), None);
    assert_eq!(key_preset(ViewKey::Numpad1, true, true), None);
}

