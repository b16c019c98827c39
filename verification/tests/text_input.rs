use glass_ui::text_input::{
    extract_text_input_state_from_message, key_down_dispatch, key_up_dispatch,
    text_input_state_argument, BrowserKeyDispatch, BrowserTextInputState, Keystroke, Modifiers,
    TEXT_INPUT_STATE_MESSAGE_NAME,
};

fn keystroke(key: &str, key_char: Option<&str>, modifiers: Modifiers) -> Keystroke {
    Keystroke {
        key: key.into(),
        key_char: key_char.map(str::to_string),
        modifiers,
        native_key_code: None,
    }
}

#[test]
fn printable_keys_use_browser_route_when_page_is_not_editable() {
    let keystroke = keystroke("e", Some("e"), Modifiers::default());

    assert_eq!(
        key_down_dispatch(&keystroke, false),
        BrowserKeyDispatch::Browser
    );
    assert_eq!(
        key_up_dispatch(&keystroke, false),
        BrowserKeyDispatch::Browser
    );
}

#[test]
fn printable_keys_use_text_input_when_page_is_editable() {
    let keystroke = keystroke("e", Some("e"), Modifiers::default());

    assert_eq!(
        key_down_dispatch(&keystroke, true),
        BrowserKeyDispatch::TextInput
    );
    assert_eq!(
        key_up_dispatch(&keystroke, true),
        BrowserKeyDispatch::TextInput
    );
}

#[test]
fn navigation_keys_still_reach_browser_when_page_is_editable() {
    let keystroke = keystroke("left", None, Modifiers::default());

    assert_eq!(
        key_down_dispatch(&keystroke, true),
        BrowserKeyDispatch::Browser
    );
    assert_eq!(
        key_up_dispatch(&keystroke, true),
        BrowserKeyDispatch::Browser
    );
}

#[test]
fn command_shortcuts_stay_in_app_dispatch() {
    let keystroke = keystroke("c", Some("c"), Modifiers::command());

    assert_eq!(key_down_dispatch(&keystroke, true), BrowserKeyDispatch::App);
    assert_eq!(key_up_dispatch(&keystroke, true), BrowserKeyDispatch::App);
}

#[test]
fn control_shortcuts_stay_in_app_dispatch() {
    let modifiers = Modifiers { control: true, ..Modifiers::default() };
    let keystroke = keystroke("a", Some("a"), modifiers);

    assert_eq!(key_down_dispatch(&keystroke, true), BrowserKeyDispatch::App);
    assert_eq!(key_up_dispatch(&keystroke, false), BrowserKeyDispatch::App);
}

#[test]
fn shift_and_alt_do_not_make_a_shortcut() {
    let modifiers = Modifiers { shift: true, alt: true, ..Modifiers::default() };
    let keystroke = keystroke("e", Some("É"), modifiers);

    assert_eq!(key_down_dispatch(&keystroke, true), BrowserKeyDispatch::TextInput);
    assert_eq!(key_down_dispatch(&keystroke, false), BrowserKeyDispatch::Browser);
}

#[test]
fn key_release_takes_the_route_of_the_key_press() {
    let all_modifiers = [
        Modifiers::none(),
        Modifiers::command(),
        Modifiers { control: true, ..Modifiers::none() },
        Modifiers { shift: true, ..Modifiers::none() },
        Modifiers { function: true, platform: true, ..Modifiers::none() },
    ];
    for modifiers in all_modifiers {
        for key_char in [None, Some("x")] {
            for active in [false, true] {
                let keystroke = keystroke("x", key_char, modifiers);
                assert_eq!(
                    key_up_dispatch(&keystroke, active),
                    key_down_dispatch(&keystroke, active)
                );
            }
        }
    }
}

#[test]
fn modifier_constructors() {
    let command = Modifiers::command();
    assert!(command.platform);
    assert!(!command.control && !command.alt && !command.shift && !command.function);
    assert_eq!(Modifiers::none(), Modifiers::default());
}

#[test]
fn text_input_is_active_when_editable_or_composing() {
    let editable = BrowserTextInputState { editable: true };
    let plain = BrowserTextInputState::default();

    assert!(editable.is_active(false));
    assert!(editable.is_active(true));
    assert!(plain.is_active(true));
    assert!(!plain.is_active(false));
}

#[test]
fn state_message_carries_editable_flag() {
    assert_eq!(
        extract_text_input_state_from_message(TEXT_INPUT_STATE_MESSAGE_NAME, Some(1)),
        Some(BrowserTextInputState { editable: true })
    );
    assert_eq!(
        extract_text_input_state_from_message("glass.text_input_state", Some(0)),
        Some(BrowserTextInputState { editable: false })
    );
    assert_eq!(
        extract_text_input_state_from_message("glass.text_input_state", Some(-3)),
        Some(BrowserTextInputState { editable: true })
    );
}

#[test]
fn other_messages_carry_no_state() {
    assert_eq!(extract_text_input_state_from_message("glass.other", Some(1)), None);
    assert_eq!(extract_text_input_state_from_message("", Some(1)), None);
    assert_eq!(extract_text_input_state_from_message("glass.text_input_stat", Some(1)), None);
}

#[test]
fn state_message_without_arguments_carries_no_state() {
    assert_eq!(extract_text_input_state_from_message(TEXT_INPUT_STATE_MESSAGE_NAME, None), None);
}

#[test]
fn state_argument_follows_focused_node() {
    assert_eq!(text_input_state_argument(None), 0);
    assert_eq!(text_input_state_argument(Some(0)), 0);
    assert_eq!(text_input_state_argument(Some(1)), 1);
    assert_eq!(text_input_state_argument(Some(42)), 1);
}

#[test]
fn sent_state_is_read_back() {
    for focused in [None, Some(0), Some(1), Some(9)] {
        let argument = text_input_state_argument(focused);
        let state = extract_text_input_state_from_message(TEXT_INPUT_STATE_MESSAGE_NAME, Some(argument));
        let editable = matches!(focused, Some(flag) if flag != 0);
        assert_eq!(state, Some(BrowserTextInputState { editable }));
    }
}

#[test]
fn message_name_is_stable() {
    assert_eq!(TEXT_INPUT_STATE_MESSAGE_NAME, "glass.text_input_state");
}
