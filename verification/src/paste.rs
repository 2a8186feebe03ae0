//! Which key chord pastes into the focused window: terminals take another
//! one than everything else, and a terminal is known by its window class.

use vstd::prelude::*;
use crate::text::{chars_of, lowercase, lowercase_of};

verus! {

/// The chord that pastes into a terminal.
pub const TERMINAL_PASTE_KEYS: &'static str = "ctrl+shift+v";

/// The chord that pastes everywhere else.
pub const PLAIN_PASTE_KEYS: &'static str = "ctrl+v";

/// Whether `needle` stands somewhere in `hay`, letter for letter.
pub open spec fn occurs_in(needle: Seq<char>, hay: Seq<char>) -> bool {
    exists|i: int| occurs_at(needle, hay, i)
}

/// Whether `needle` stands in `hay` at place `i`.
pub open spec fn occurs_at(needle: Seq<char>, hay: Seq<char>, i: int) -> bool {
    0 <= i && i + needle.len() <= hay.len() && hay.subrange(i, i + needle.len()) == needle
}

/// The words by which a lower-cased window class gives a terminal away.
pub open spec fn terminal_markers() -> Seq<&'static str> {
    seq![
        "terminal",
        "xterm",
        "kitty",
        "alacritty",
        "konsole",
        "tilix",
        "terminator",
        "wezterm",
        "foot",
        "st-",
        "urxvt",
    ]
}

/// Whether a lower-cased window class is that of a terminal: one of the
/// markers stands in it.
pub open spec fn names_terminal(lowered: Seq<char>) -> bool {
    exists|k: int| 0 <= k < terminal_markers().len() && occurs_in(terminal_markers()[k]@, lowered)
}

/// The chord for a window class, by its lower-cased form.
pub open spec fn chord_for(lowered: Seq<char>) -> Seq<char> {
    if names_terminal(lowered) {
        TERMINAL_PASTE_KEYS@
    } else {
        PLAIN_PASTE_KEYS@
    }
}

/// Whether `needle` stands in `hay` at place `at`.
pub(crate) fn stands_at(needle: &Vec<char>, hay: &Vec<char>, at: usize) -> (found: bool)
    requires
        at + needle.len() <= hay.len(),
    ensures
        found == occurs_at(needle@, hay@, at as int),
{
    let mut j: usize = 0;
    while j < needle.len()
        invariant
            j <= needle.len(),
            at + needle.len() <= hay.len(),
            forall|k: int| 0 <= k < j ==> hay@[at + k] == needle@[k],
        decreases needle.len() - j,
    {
        if hay[at + j] != needle[j] {
            assert(hay@.subrange(at as int, at + needle.len())[j as int] != needle@[j as int]);
            return false;
        }
        j += 1;
    }
    assert(hay@.subrange(at as int, at + needle.len()) =~= needle@);
    true
}

/// Whether `needle` stands somewhere in `hay`, letter for letter. The empty
/// text stands in every text.
pub fn contains_text(hay: &str, needle: &str) -> (found: bool)
    ensures
        found == occurs_in(needle@, hay@),
{
    let hay_chars = chars_of(hay);
    let needle_chars = chars_of(needle);
    if needle_chars.len() > hay_chars.len() {
        return false;
    }
    let last = hay_chars.len() - needle_chars.len();
    let mut i: usize = 0;
    while i < last
        invariant
            i <= last,
            last == hay_chars.len() - needle_chars.len(),
            needle_chars.len() <= hay_chars.len(),
            hay_chars@ == hay@,
            needle_chars@ == needle@,
            forall|k: int| 0 <= k < i ==> !occurs_at(needle@, hay@, k),
        decreases last - i,
    {
        if stands_at(&needle_chars, &hay_chars, i) {
            return true;
        }
        i += 1;
    }
    stands_at(&needle_chars, &hay_chars, last)
}

/// The words by which a lower-cased window class gives a terminal away.
pub fn terminal_marker_list() -> (markers: Vec<&'static str>)
    ensures
        markers@ == terminal_markers(),
{
    let mut markers: Vec<&'static str> = Vec::new();
    markers.push("terminal");
    markers.push("xterm");
    markers.push("kitty");
    markers.push("alacritty");
    markers.push("konsole");
    markers.push("tilix");
    markers.push("terminator");
    markers.push("wezterm");
    markers.push("foot");
    markers.push("st-");
    markers.push("urxvt");
    assert(markers@ =~= terminal_markers());
    markers
}

/// Whether a lower-cased window class is that of a terminal.
pub fn is_terminal_class(lowered: &str) -> (terminal: bool)
    ensures
        terminal == names_terminal(lowered@),
{
    let markers = terminal_marker_list();
    let mut k: usize = 0;
    while k < markers.len()
        invariant
            k <= markers.len(),
            markers@ == terminal_markers(),
            forall|m: int| 0 <= m < k ==> !occurs_in(terminal_markers()[m]@, lowered@),
        decreases markers.len() - k,
    {
        if contains_text(lowered, markers[k]) {
            return true;
        }
        k += 1;
    }
    false
}

/// The chord that pastes into the window whose class is `window_class`,
/// whatever the case of its letters.
pub fn paste_keys(window_class: &str) -> (keys: &'static str)
    ensures
        keys@ == chord_for(lowercase_of(window_class@)),
{
    let lowered = lowercase(window_class);
    if is_terminal_class(lowered.as_str()) {
        TERMINAL_PASTE_KEYS
    } else {
        PLAIN_PASTE_KEYS
    }
}

} // verus!
