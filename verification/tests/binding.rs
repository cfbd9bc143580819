use voicetabs::hotkey::{Binding, BindingKind};

#[test]
fn label_renders_known_keys() {
    assert_eq!(Binding::key("ControlRight").label(), "Right Ctrl");
    assert_eq!(Binding::key("Space").label(), "Space");
    // Unknown keys pass through.
    assert_eq!(Binding::key("F13").label(), "F13");
}

#[test]
fn label_renders_mouse_buttons() {
    assert_eq!(Binding::mouse("MouseButton4").label(), "Mouse Button 4");
    assert_eq!(Binding::mouse("MouseButton5").label(), "Mouse Button 5");
}

#[test]
fn label_renders_modifier_keys() {
    assert_eq!(Binding::key("ControlLeft").label(), "Left Ctrl");
    assert_eq!(Binding::key("ShiftLeft").label(), "Left Shift");
    assert_eq!(Binding::key("ShiftRight").label(), "Right Shift");
    assert_eq!(Binding::key("AltLeft").label(), "Left Alt");
    assert_eq!(Binding::key("AltRight").label(), "Right Alt");
}

#[test]
fn unknown_mouse_button_label_passes_through() {
    assert_eq!(Binding::mouse("MouseButton9").label(), "MouseButton9");
    // A key code that names a mouse button is still a key.
    assert_eq!(Binding::key("MouseButton4").label(), "MouseButton4");
}

#[test]
fn constructors_set_kind_and_code() {
    let k = Binding::key("Space");
    assert_eq!(k.kind, BindingKind::Key);
    assert_eq!(k.code, "Space");
    let m = Binding::mouse("MouseButton5");
    assert_eq!(m.kind, BindingKind::Mouse);
    assert_eq!(m.code, "MouseButton5");
}

use voicetabs::hotkey::{capture_outcome, BindingError};

#[test]
fn escape_cancels_capture() {
    assert_eq!(capture_outcome("Escape"), Err(BindingError::Cancelled));
    assert_eq!(capture_outcome("F13"), Ok(Binding::key("F13")));
}

#[test]
fn binding_error_messages() {
    assert_eq!(BindingError::Cancelled.message(), "capture cancelled");
    assert_eq!(BindingError::Timeout.message(), "capture timed out");
    assert_eq!(
        BindingError::UnsupportedMouseButton("x".into()).message(),
        "unsupported mouse button: x"
    );
    assert_eq!(BindingError::InvalidKeyCode("Foo".into()).message(), "invalid key code: Foo");
}
