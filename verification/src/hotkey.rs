//! Push-to-talk bindings: which key or mouse button fires push-to-talk, its
//! human-readable label, and the mouse backend.
use vstd::prelude::*;
use crate::text::{concat_str, str_eq, str_to_string};

verus! {

#[verifier::external_type_specification]
#[verifier::external_body]
pub struct ExAnyhowError(anyhow::Error);

#[verifier::external_type_specification]
#[verifier::external_body]
#[verifier::reject_recursive_types(T)]
pub struct ExSender<T>(crossbeam_channel::Sender<T>);

#[derive(Debug, Clone, Copy, PartialEq, Eq, Structural)]
pub enum BindingKind {
    Key,
    Mouse,
}

/// A push-to-talk binding: a key code (`"ControlRight"`, `"Space"`,
/// `"F13"`) or a mouse button (`"MouseButton4"`, `"MouseButton5"`).
#[derive(Debug, Clone, PartialEq, Eq)]
pub struct Binding {
    pub kind: BindingKind,
    pub code: String,
}

#[derive(Debug, Clone, PartialEq, Eq)]
pub enum BindingError {
    Cancelled,
    Timeout,
    UnsupportedMouseButton(String),
    InvalidKeyCode(String),
}

#[derive(Debug, Clone, Copy, PartialEq, Eq, Structural)]
pub enum HotkeyEvent {
    Press,
    Release,
}

/// English label of a key code: the usual push-to-talk keys get a name,
/// any other code is shown as is.
pub open spec fn key_label(code: Seq<char>) -> Seq<char> {
    if code == "ControlLeft"@ {
        "Left Ctrl"@
    } else if code == "ControlRight"@ {
        "Right Ctrl"@
    } else if code == "ShiftLeft"@ {
        "Left Shift"@
    } else if code == "ShiftRight"@ {
        "Right Shift"@
    } else if code == "AltLeft"@ {
        "Left Alt"@
    } else if code == "AltRight"@ {
        "Right Alt"@
    } else if code == "Space"@ {
        "Space"@
    } else {
        code
    }
}

/// English label of a binding.
pub open spec fn binding_label(kind: BindingKind, code: Seq<char>) -> Seq<char> {
    match kind {
        BindingKind::Mouse => if code == "MouseButton4"@ {
            "Mouse Button 4"@
        } else if code == "MouseButton5"@ {
            "Mouse Button 5"@
        } else {
            code
        },
        BindingKind::Key => key_label(code),
    }
}

fn prettify_key(code: &str) -> (r: String)
    ensures
        r@ == key_label(code@),
{
    if str_eq(code, "ControlLeft") {
        str_to_string("Left Ctrl")
    } else if str_eq(code, "ControlRight") {
        str_to_string("Right Ctrl")
    } else if str_eq(code, "ShiftLeft") {
        str_to_string("Left Shift")
    } else if str_eq(code, "ShiftRight") {
        str_to_string("Right Shift")
    } else if str_eq(code, "AltLeft") {
        str_to_string("Left Alt")
    } else if str_eq(code, "AltRight") {
        str_to_string("Right Alt")
    } else if str_eq(code, "Space") {
        str_to_string("Space")
    } else {
        str_to_string(code)
    }
}

impl Binding {
    pub fn key(code: &str) -> (r: Self)
        ensures
            r.kind == BindingKind::Key,
            r.code@ == code@,
    {
        Binding { kind: BindingKind::Key, code: str_to_string(code) }
    }

    pub fn mouse(code: &str) -> (r: Self)
        ensures
            r.kind == BindingKind::Mouse,
            r.code@ == code@,
    {
        Binding { kind: BindingKind::Mouse, code: str_to_string(code) }
    }

    /// Human-readable English label (the frontend may localise it).
    pub fn label(&self) -> (r: String)
        ensures
            r@ == binding_label(self.kind, self.code@),
    {
        match self.kind {
            BindingKind::Mouse => {
                let code = self.code.as_str();
                if str_eq(code, "MouseButton4") {
                    str_to_string("Mouse Button 4")
                } else if str_eq(code, "MouseButton5") {
                    str_to_string("Mouse Button 5")
                } else {
                    str_to_string(code)
                }
            },
            BindingKind::Key => prettify_key(self.code.as_str()),
        }
    }
}

pub open spec fn binding_error_message(e: BindingError) -> Seq<char> {
    match e {
        BindingError::Cancelled => "capture cancelled"@,
        BindingError::Timeout => "capture timed out"@,
        BindingError::UnsupportedMouseButton(m) => "unsupported mouse button: "@ + m@,
        BindingError::InvalidKeyCode(m) => "invalid key code: "@ + m@,
    }
}

impl BindingError {
    /// The error's message.
    pub fn message(&self) -> (r: String)
        ensures
            r@ == binding_error_message(*self),
    {
        match self {
            BindingError::Cancelled => str_to_string("capture cancelled"),
            BindingError::Timeout => str_to_string("capture timed out"),
            BindingError::UnsupportedMouseButton(m) => concat_str(
                "unsupported mouse button: ",
                m.as_str(),
            ),
            BindingError::InvalidKeyCode(m) => concat_str("invalid key code: ", m.as_str()),
        }
    }
}

/// What a key press during binding capture yields: `Escape` cancels, any
/// other key becomes the new key binding.
pub fn capture_outcome(code: &str) -> (r: Result<Binding, BindingError>)
    ensures
        code@ == "Escape"@ ==> r == Err::<Binding, BindingError>(BindingError::Cancelled),
        code@ != "Escape"@ ==> (r matches Ok(b) && b.kind == BindingKind::Key && b.code@
            == code@),
{
    if str_eq(code, "Escape") {
        Err(BindingError::Cancelled)
    } else {
        Ok(Binding::key(code))
    }
}

/// Mouse push-to-talk backend. It accepts every request and arms nothing
/// yet: mouse buttons do not fire.
pub struct MouseBackend;

impl MouseBackend {
    pub fn new(_event_tx: crossbeam_channel::Sender<HotkeyEvent>) -> (r: Result<Self, anyhow::Error>)
        ensures
            r is Ok,
    {
        Ok(MouseBackend)
    }

    pub fn watch(&self, _code: &str) -> (r: Result<(), anyhow::Error>)
        ensures
            r is Ok,
    {
        Ok(())
    }

    pub fn unwatch(&self) {
    }

    pub fn start_capture(&self, _tx: crossbeam_channel::Sender<Result<Binding, BindingError>>) -> (r:
        Result<(), anyhow::Error>)
        ensures
            r is Ok,
    {
        Ok(())
    }

    pub fn stop_capture(&self) {
    }
}

/// Labels never lose information: a code that is not one of the named keys
/// (or, for the mouse, not one of the two named buttons) is its own label.
pub proof fn lemma_unknown_codes_pass_through(kind: BindingKind, code: Seq<char>)
    requires
        code != "ControlLeft"@,
        code != "ControlRight"@,
        code != "ShiftLeft"@,
        code != "ShiftRight"@,
        code != "AltLeft"@,
        code != "AltRight"@,
        code != "MouseButton4"@,
        code != "MouseButton5"@,
    ensures
        binding_label(kind, code) == code,
{
}

} // verus!
