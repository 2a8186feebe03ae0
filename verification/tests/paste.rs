use whispercrabs::paste::{
    contains_text, is_terminal_class, paste_keys, terminal_marker_list, PLAIN_PASTE_KEYS,
    TERMINAL_PASTE_KEYS,
};

#[test]
fn a_text_contains_another_letter_for_letter() {
    assert!(contains_text("gnome-terminal-server", "terminal"));
    assert!(contains_text("terminal", "terminal"));
    assert!(contains_text("xterminal", "terminal"));
    assert!(contains_text("abc", ""));
    assert!(contains_text("", ""));
    assert!(contains_text("aab", "ab"));
    assert!(contains_text("abab", "bab"));
    assert!(!contains_text("", "a"));
    assert!(!contains_text("termina", "terminal"));
    assert!(!contains_text("Terminal", "terminal"));
    assert!(!contains_text("ter minal", "terminal"));
    assert!(!contains_text("ab", "abc"));
    assert!(contains_text("größe-st-x", "st-"));
    assert!(contains_text("日本語", "本"));
}

#[test]
fn terminals_are_known_by_their_window_class() {
    for class in [
        "gnome-terminal-server",
        "xterm",
        "kitty",
        "alacritty",
        "org.kde.konsole",
        "tilix",
        "terminator",
        "org.wezfurlong.wezterm",
        "foot",
        "st-256color",
        "urxvt",
    ] {
        assert!(is_terminal_class(class), "{class}");
    }
    for class in ["firefox", "code", "", "st", "konsol", "Xterm", "nautilus"] {
        assert!(!is_terminal_class(class), "{class}");
    }
    assert_eq!(terminal_marker_list().len(), 11);
}

#[test]
fn terminals_paste_with_shift_and_the_rest_without() {
    assert_eq!(TERMINAL_PASTE_KEYS, "ctrl+shift+v");
    assert_eq!(PLAIN_PASTE_KEYS, "ctrl+v");
    assert_eq!(paste_keys("Gnome-terminal\n"), "ctrl+shift+v");
    assert_eq!(paste_keys("XTerm"), "ctrl+shift+v");
    assert_eq!(paste_keys("KITTY"), "ctrl+shift+v");
    assert_eq!(paste_keys("Alacritty\n"), "ctrl+shift+v");
    assert_eq!(paste_keys("firefox\n"), "ctrl+v");
    assert_eq!(paste_keys("Code"), "ctrl+v");
    assert_eq!(paste_keys(""), "ctrl+v");
    assert_eq!(paste_keys("football-manager"), "ctrl+shift+v");
}
