//! The key bar of terminals.
use tcode_ui::terminal::key_bar::{
    scrolling_keys, should_show_terminal_key_bar, symbol_keys, BarAction, StickyModifiers,
    TermModifiers, TerminalKey, TerminalKeyEncoder,
};

/// The mapping of hardware keys, as far as these tests press them.
fn mapping(application_cursor: bool) -> impl Fn(String, TermModifiers) -> Option<Vec<u8>> {
    move |key, modifiers| match key.as_str() {
        "escape" => Some(vec![0x1b]),
        "up" if application_cursor => Some(b"\x1bOA".to_vec()),
        "up" => Some(b"\x1b[A".to_vec()),
        "enter" => Some(vec![b'\r']),
        "tab" => Some(vec![b'\t']),
        "c" if modifiers.control => Some(vec![0x03]),
        "d" if modifiers.control => Some(vec![0x04]),
        _ => None,
    }
}

#[test]
fn sticky_control_encodes_one_character_then_clears() {
    let mut state = TerminalKeyEncoder {
        modifiers: StickyModifiers { control: true, alt: false },
    };
    assert_eq!(state.encode_text("c", mapping(false)), vec![0x03]);
    assert_eq!(state.modifiers, StickyModifiers::default());
    assert_eq!(state.encode_text("c", mapping(false)), b"c");
}

#[test]
fn arrows_use_the_replicated_application_cursor_mode() {
    let mut state = TerminalKeyEncoder::new();
    assert_eq!(state.encode_key(TerminalKey::Up, mapping(false)), b"\x1b[A");
    assert_eq!(state.encode_key(TerminalKey::Up, mapping(true)), b"\x1bOA");
}

#[test]
fn control_combos_encode_once_and_clear_the_sticky_modifiers() {
    let mut state = TerminalKeyEncoder::new();
    for (key, byte) in [(TerminalKey::Control('c'), 0x03), (TerminalKey::Control('d'), 0x04)] {
        assert_eq!(state.encode_key(key, mapping(false)), vec![byte]);
    }
    state.modifiers = StickyModifiers { control: true, alt: false };
    assert_eq!(
        state.encode_key(TerminalKey::Control('c'), mapping(false)),
        vec![0x03],
        "a sticky Ctrl on top of the combo is still one Control-C"
    );
    assert_eq!(state.modifiers, StickyModifiers::default());
    assert_eq!(
        state.encode_text("c", mapping(false)),
        b"c",
        "the combo must not leave Ctrl armed for the next key"
    );
}

#[test]
fn the_symbol_tail_is_ordered_by_shell_frequency() {
    let symbols: Vec<char> = symbol_keys()
        .into_iter()
        .map(|key| match key.action {
            BarAction::Send(TerminalKey::Symbol(symbol)) => symbol,
            other => panic!("{other:?}"),
        })
        .collect();
    assert_eq!(symbols, ['-', '/', '|', '~', ':', '.', '_']);
}

#[test]
fn escape_is_the_terminal_escape_byte() {
    let mut state = TerminalKeyEncoder::new();
    assert_eq!(state.encode_key(TerminalKey::Escape, mapping(false)), vec![0x1b]);
}

#[test]
fn sticky_modifiers_reach_the_mapping_once() {
    let mut state = TerminalKeyEncoder::new();
    state.toggle_modifier(false);
    assert!(state.modifiers.alt);
    let record = std::cell::RefCell::new(Vec::new());
    let bytes = state.encode_text("aé\n", |key: String, modifiers: TermModifiers| {
        record.borrow_mut().push((key, modifiers.alt));
        None
    });
    assert_eq!(bytes, "aé\n".as_bytes());
    assert_eq!(
        record.into_inner(),
        vec![
            ("a".to_string(), true),
            ("é".to_string(), false),
            ("enter".to_string(), false)
        ]
    );
    state.toggle_modifier(true);
    state.toggle_modifier(true);
    assert_eq!(state.modifiers, StickyModifiers::default());
    // No text leaves the modifiers armed.
    state.toggle_modifier(true);
    assert!(state.encode_text("", mapping(false)).is_empty());
    assert!(state.modifiers.control);
}

#[test]
fn unmapped_keys_send_their_own_text() {
    let mut state = TerminalKeyEncoder::new();
    assert_eq!(state.encode_key(TerminalKey::Symbol('~'), mapping(false)), b"~");
    assert_eq!(TerminalKey::Right.mapping_name(), "right");
    assert_eq!(TerminalKey::Control('d').mapping_name(), "d");
}

#[test]
fn the_bar_has_its_keys_in_order() {
    let mut state = TerminalKeyEncoder::new();
    state.toggle_modifier(true);
    let pinned: Vec<&str> = state.pinned_keys().iter().map(|key| key.label).collect();
    assert_eq!(pinned, ["Esc", "Tab", "Ctrl", "Alt"]);
    assert_eq!(
        state.pinned_keys()[2].action,
        BarAction::Modifier { control: true, armed: true }
    );
    let scrolling: Vec<&str> = scrolling_keys().iter().map(|key| key.id).collect();
    assert_eq!(scrolling[0], "terminal-key-left");
    assert_eq!(scrolling[4], "terminal-key-ctrl-c");
    assert_eq!(scrolling[12], "terminal-key-underscore");
    assert_eq!(scrolling.len(), 13);
}

#[test]
fn the_bar_shows_only_for_a_focused_soft_keyboard_terminal() {
    assert!(should_show_terminal_key_bar(true, true));
    assert!(!should_show_terminal_key_bar(true, false));
    assert!(!should_show_terminal_key_bar(false, true));
}

#[test]
fn text_sent_in_parts_sends_the_same_bytes() {
    let armed = StickyModifiers { control: true, alt: false };
    for (text, more) in [("c", ""), ("c", "c\td"), ("cd", "\n"), ("x", "c")] {
        let mut at_once = TerminalKeyEncoder { modifiers: armed };
        let mut in_parts = TerminalKeyEncoder { modifiers: armed };
        let whole = at_once.encode_text(&format!("{text}{more}"), mapping(false));
        let mut parts = in_parts.encode_text(text, mapping(false));
        parts.extend(in_parts.encode_text(more, mapping(false)));
        assert_eq!(whole, parts);
        assert_eq!(at_once.modifiers, StickyModifiers::default());
        assert_eq!(in_parts.modifiers, StickyModifiers::default());
    }
    let mut empty = TerminalKeyEncoder { modifiers: armed };
    assert!(empty.encode_text("", mapping(false)).is_empty());
    assert_eq!(empty.modifiers, armed, "nothing was typed");
}
