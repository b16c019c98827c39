//! Routing of keyboard events between the application, the embedded browser
//! and the page's text input, and the process message that tells the browser
//! process whether the focused page element accepts text.
use vstd::prelude::*;

verus! {

/// Name of the process message that carries the page's text input state.
pub const TEXT_INPUT_STATE_MESSAGE_NAME: &'static str = "glass.text_input_state";

/// Text input state of the page shown in the browser.
#[derive(Clone, Copy, Debug, Default, PartialEq, Eq, Structural)]
pub struct BrowserTextInputState {
    pub editable: bool,
}

impl BrowserTextInputState {
    /// The page takes text when its focused element is editable or while an
    /// IME composition (marked text) is in progress.
    pub fn is_active(self, has_marked_text: bool) -> (r: bool)
        ensures
            r == (self.editable || has_marked_text),
    {
        self.editable || has_marked_text
    }
}

/// Where a key event goes.
#[derive(Clone, Copy, Debug, PartialEq, Eq, Structural)]
pub enum BrowserKeyDispatch {
    App,
    Browser,
    TextInput,
}

/// The modifier keys held during a keystroke.
#[derive(Clone, Copy, Debug, Default, PartialEq, Eq, Structural)]
pub struct Modifiers {
    pub control: bool,
    pub alt: bool,
    pub shift: bool,
    /// The command key on macOS, the Windows key elsewhere.
    pub platform: bool,
    pub function: bool,
}

impl Modifiers {
    /// No modifier held.
    pub fn none() -> (m: Modifiers)
        ensures
            m == (Modifiers { control: false, alt: false, shift: false, platform: false, function: false }),
    {
        Modifiers { control: false, alt: false, shift: false, platform: false, function: false }
    }

    /// Only the command key held.
    pub fn command() -> (m: Modifiers)
        ensures
            m == (Modifiers { control: false, alt: false, shift: false, platform: true, function: false }),
    {
        Modifiers { control: false, alt: false, shift: false, platform: true, function: false }
    }
}

/// A key press or release as the window reports it.
#[derive(Clone, Debug, PartialEq, Eq)]
pub struct Keystroke {
    /// The key's name, such as `e` or `left`.
    pub key: String,
    /// The text the key produces, if it produces any.
    pub key_char: Option<String>,
    pub modifiers: Modifiers,
    pub native_key_code: Option<u16>,
}

/// The route of a key press.
pub open spec fn key_down_route(modifiers: Modifiers, has_key_char: bool, text_input_active: bool) -> BrowserKeyDispatch {
    if modifiers.platform || modifiers.control {
        BrowserKeyDispatch::App
    } else if text_input_active && has_key_char {
        BrowserKeyDispatch::TextInput
    } else {
        BrowserKeyDispatch::Browser
    }
}

/// The route of a key release.
pub open spec fn key_up_route(modifiers: Modifiers, has_key_char: bool, text_input_active: bool) -> BrowserKeyDispatch {
    if modifiers.platform || modifiers.control {
        BrowserKeyDispatch::App
    } else if text_input_active && has_key_char {
        BrowserKeyDispatch::TextInput
    } else {
        BrowserKeyDispatch::Browser
    }
}

/// Routes a key press: shortcuts with command or control go to the
/// application, keys that produce text go to an active text input, and every
/// other key goes to the browser.
pub fn key_down_dispatch(keystroke: &Keystroke, text_input_active: bool) -> (r: BrowserKeyDispatch)
    ensures
        r == key_down_route(keystroke.modifiers, keystroke.key_char is Some, text_input_active),
{
    if keystroke.modifiers.platform || keystroke.modifiers.control {
        BrowserKeyDispatch::App
    } else if text_input_active && keystroke.key_char.is_some() {
        BrowserKeyDispatch::TextInput
    } else {
        BrowserKeyDispatch::Browser
    }
}

/// Routes a key release by the same rule as a key press.
pub fn key_up_dispatch(keystroke: &Keystroke, text_input_active: bool) -> (r: BrowserKeyDispatch)
    ensures
        r == key_up_route(keystroke.modifiers, keystroke.key_char is Some, text_input_active),
{
    if keystroke.modifiers.platform || keystroke.modifiers.control {
        BrowserKeyDispatch::App
    } else if text_input_active && keystroke.key_char.is_some() {
        BrowserKeyDispatch::TextInput
    } else {
        BrowserKeyDispatch::Browser
    }
}

/// The text input state carried by a process message with the given name
/// whose argument list, when it has one, holds `first_argument` at index 0.
pub open spec fn state_from_message(name: Seq<char>, first_argument: Option<i32>) -> Option<BrowserTextInputState> {
    if name == TEXT_INPUT_STATE_MESSAGE_NAME@ && first_argument is Some {
        Some(BrowserTextInputState { editable: first_argument->0 != 0 })
    } else {
        None
    }
}

/// The flag sent for the focused page element: 1 when there is one and it is
/// editable, 0 otherwise.
pub open spec fn editable_flag(focused_node_editable: Option<i32>) -> i32 {
    if focused_node_editable is Some && focused_node_editable->0 != 0 {
        1
    } else {
        0
    }
}

/// Reads the text input state out of a process message, given the message's
/// name and the boolean argument at index 0 of its argument list (`None` when
/// the message has no argument list). Messages of any other name carry no
/// state.
pub fn extract_text_input_state_from_message(message_name: &str, first_argument: Option<i32>) -> (r: Option<BrowserTextInputState>)
    ensures
        r == state_from_message(message_name@, first_argument),
{
    let name = message_name.to_owned();
    let expected = TEXT_INPUT_STATE_MESSAGE_NAME.to_owned();
    if name != expected {
        return None;
    }
    match first_argument {
        Some(flag) => Some(BrowserTextInputState { editable: flag != 0 }),
        None => None,
    }
}

/// The boolean argument of the text input state message, from whether there
/// is a focused page element and what its `is_editable` reports.
pub fn text_input_state_argument(focused_node_editable: Option<i32>) -> (r: i32)
    ensures
        r == editable_flag(focused_node_editable),
{
    match focused_node_editable {
        Some(editable) => if editable != 0 { 1 } else { 0 },
        None => 0,
    }
}

/// A key press and the matching key release always take the same route.
pub proof fn lemma_key_up_follows_key_down(modifiers: Modifiers, has_key_char: bool, text_input_active: bool)
    ensures
        key_up_route(modifiers, has_key_char, text_input_active) == key_down_route(modifiers, has_key_char, text_input_active),
{
}

/// A keystroke with command or control held goes to the application, whatever
/// the key and whatever the page's text input state.
pub proof fn lemma_shortcuts_stay_in_app(modifiers: Modifiers, has_key_char: bool, text_input_active: bool)
    requires
        modifiers.platform || modifiers.control,
    ensures
        key_down_route(modifiers, has_key_char, text_input_active) == BrowserKeyDispatch::App,
        key_up_route(modifiers, has_key_char, text_input_active) == BrowserKeyDispatch::App,
{
}

/// The text input receives a key only when it is active, the key produces
/// text and no shortcut modifier is held.
pub proof fn lemma_text_input_route(modifiers: Modifiers, has_key_char: bool, text_input_active: bool)
    ensures
        (key_down_route(modifiers, has_key_char, text_input_active) == BrowserKeyDispatch::TextInput)
            <==> (text_input_active && has_key_char && !modifiers.platform && !modifiers.control),
{
}

/// Every key that neither carries a shortcut modifier nor is typed into an
/// active text input goes to the browser, on press and on release; only
/// command or control sends a key to the application.
pub proof fn lemma_other_keys_reach_browser(modifiers: Modifiers, has_key_char: bool, text_input_active: bool)
    ensures
        !modifiers.platform && !modifiers.control && !(text_input_active && has_key_char) ==> {
            &&& key_down_route(modifiers, has_key_char, text_input_active) == BrowserKeyDispatch::Browser
            &&& key_up_route(modifiers, has_key_char, text_input_active) == BrowserKeyDispatch::Browser
        },
        (key_down_route(modifiers, has_key_char, text_input_active) == BrowserKeyDispatch::App)
            <==> (modifiers.platform || modifiers.control),
        (key_up_route(modifiers, has_key_char, text_input_active) == BrowserKeyDispatch::App)
            <==> (modifiers.platform || modifiers.control),
        (key_up_route(modifiers, has_key_char, text_input_active) == BrowserKeyDispatch::TextInput)
            <==> (text_input_active && has_key_char && !modifiers.platform && !modifiers.control),
{
}

/// The state read back from the message that reports a focused element is
/// exactly whether that element is editable.
pub proof fn lemma_text_input_state_round_trip(focused_node_editable: Option<i32>)
    ensures
        state_from_message(TEXT_INPUT_STATE_MESSAGE_NAME@, Some(editable_flag(focused_node_editable)))
            == Some(BrowserTextInputState {
                editable: focused_node_editable is Some && focused_node_editable->0 != 0,
            }),
{
}

} // verus!
