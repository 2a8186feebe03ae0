use whispercrabs::text::chars_of;
use whispercrabs::window::{
    is_space_char, parse_i32, parse_position_line, position_in_report, position_to_use,
    saved_position, Geometry, FALLBACK_POSITION, POSITION_PREFIX,
};

fn by_std(line: &str) -> Option<(String, String)> {
    let pos = line.strip_prefix("  Position: ")?;
    let (xs, ys) = pos.split_once(',')?;
    Some((
        xs.trim().to_string(),
        ys.split_whitespace().next().unwrap_or("0").to_string(),
    ))
}

fn pair(x: &str, y: &str) -> Option<(String, String)> {
    Some((x.to_string(), y.to_string()))
}

#[test]
fn white_space_is_what_unicode_calls_white_space() {
    let mut code: u32 = 0;
    while code <= 0x10ffff {
        if let Some(c) = char::from_u32(code) {
            assert_eq!(is_space_char(c), c.is_whitespace(), "U+{code:04X}");
        }
        code += 1;
    }
}

#[test]
fn the_position_is_read_out_of_its_line() {
    assert_eq!(parse_position_line("  Position: 1820,940 (screen: 0)"), pair("1820", "940"));
    assert_eq!(parse_position_line("  Position: 0,0"), pair("0", "0"));
    assert_eq!(parse_position_line("  Position:  12 , 34\t(screen: 1)"), pair("12", "34"));
    assert_eq!(parse_position_line("  Position: -5,-7 (screen: 0)"), pair("-5", "-7"));
    assert_eq!(parse_position_line("  Position: 7,"), pair("7", "0"));
    assert_eq!(parse_position_line("  Position: 7,   "), pair("7", "0"));
    assert_eq!(parse_position_line("  Position: ,9"), pair("", "9"));
    assert_eq!(parse_position_line("  Position:    ,9"), pair("", "9"));
    assert_eq!(parse_position_line("  Position: a b,c,d e"), pair("a b", "c,d"));
    assert_eq!(parse_position_line("  Position: 1,\u{a0}2\u{3000}3"), pair("1", "2"));
}

#[test]
fn a_line_without_prefix_or_comma_gives_no_position() {
    for line in [
        "",
        "Window 123",
        " Position: 1,2",
        "  Position:1,2",
        "  position: 1,2",
        "  Position: 12 34",
        "  Position: ",
        "  Position",
        "  Geometry: 88x100",
        "x  Position: 1,2",
    ] {
        assert_eq!(parse_position_line(line), None, "{line:?}");
    }
    assert_eq!(POSITION_PREFIX, "  Position: ");
}

#[test]
fn reading_a_line_agrees_with_the_standard_library() {
    let pieces = ["", " ", "  ", "1", "12", ",", "a", "\t", "\u{2003}", "-3", "(s)", "é"];
    for a in pieces {
        for b in pieces {
            for c in pieces {
                for d in pieces {
                    let tail = format!("{a}{b}{c}{d}");
                    for head in ["  Position: ", "  Position:", ""] {
                        let line = format!("{head}{tail}");
                        assert_eq!(parse_position_line(&line), by_std(&line), "{line:?}");
                    }
                }
            }
        }
    }
}

#[test]
fn the_last_line_with_a_position_counts() {
    let report: Vec<String> = [
        "Window 62914564",
        "  Position: 10,20 (screen: 0)",
        "  Geometry: 88x100",
        "Window 62914570",
        "  Position: 30,40 (screen: 0)",
        "  Geometry: 88x100",
    ]
    .iter()
    .map(|l| l.to_string())
    .collect();
    assert_eq!(position_in_report(&report), pair("30", "40"));
    assert_eq!(position_in_report(&report[..3].to_vec()), pair("10", "20"));
    assert_eq!(position_in_report(&report[2..4].to_vec()), None);
    assert_eq!(position_in_report(&Vec::new()), None);
}

#[test]
fn numbers_are_read_as_the_standard_library_reads_them() {
    for text in [
        "0", "7", "-7", "+7", "007", "-0", "+0", "2147483647", "-2147483648", "2147483648",
        "-2147483649", "99999999999999999999", "-99999999999999999999", "", "-", "+", "--1",
        "+-1", "1-", " 1", "1 ", "1.0", "1e3", "0x10", "١٢", "12a", "a12", "1_000", "４２",
        "000000000000000000000000000001", "-000000000000000000002147483648",
    ] {
        assert_eq!(parse_i32(text), text.parse::<i32>().ok(), "{text:?}");
    }
    assert_eq!(parse_i32("2147483647"), Some(i32::MAX));
    assert_eq!(parse_i32("-2147483648"), Some(i32::MIN));
    assert_eq!(parse_i32("2147483648"), None);
    let mut n: i64 = -70000;
    while n <= 70000 {
        assert_eq!(parse_i32(&n.to_string()), Some(n as i32));
        n += 7;
    }
}

#[test]
fn a_remembered_position_needs_both_places_as_numbers() {
    let s = |t: &str| Some(t.to_string());
    assert_eq!(saved_position(&s("10"), &s("-20")), Some((10, -20)));
    assert_eq!(saved_position(&s("10"), &None), None);
    assert_eq!(saved_position(&None, &s("20")), None);
    assert_eq!(saved_position(&None, &None), None);
    assert_eq!(saved_position(&s("ten"), &s("20")), None);
    assert_eq!(saved_position(&s("10"), &s("")), None);
    assert_eq!(saved_position(&s(""), &s("0")), None);
}

#[test]
fn the_window_goes_to_the_remembered_place_or_to_the_corner() {
    let monitor = Geometry { x: 0, y: 0, width: 1920, height: 1080 };
    assert!(monitor.has_corner());
    assert_eq!(position_to_use(Some((5, 6)), Some(monitor)), (5, 6));
    assert_eq!(position_to_use(Some((5, 6)), None), (5, 6));
    assert_eq!(position_to_use(None, Some(monitor)), (1820, 940));
    let second = Geometry { x: 1920, y: -200, width: 1280, height: 1024 };
    assert_eq!(position_to_use(None, Some(second)), (3100, 684));
    assert_eq!(position_to_use(None, None), (100, 100));
    assert_eq!(FALLBACK_POSITION, (100, 100));
}

#[test]
fn a_corner_beyond_thirty_two_bits_is_told_apart() {
    assert!(!Geometry { x: i32::MAX, y: 0, width: 101, height: 0 }.has_corner());
    assert!(Geometry { x: i32::MAX, y: 0, width: 100, height: 140 }.has_corner());
    assert!(!Geometry { x: 0, y: i32::MIN, width: 0, height: 139 }.has_corner());
    assert!(Geometry { x: 0, y: i32::MIN, width: 100, height: 140 }.has_corner());
    assert_eq!(
        position_to_use(None, Some(Geometry { x: i32::MAX, y: i32::MIN, width: 100, height: 140 })),
        (i32::MAX, i32::MIN)
    );
}

#[test]
fn the_characters_of_a_text_come_one_by_one() {
    assert_eq!(chars_of(""), Vec::<char>::new());
    assert_eq!(chars_of("aé日"), vec!['a', 'é', '日']);
}
