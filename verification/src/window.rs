//! Where the window stands on screen: reading the position out of the window
//! tool's report, reading a remembered position back, and choosing where to
//! put the window when nothing is remembered.

use vstd::prelude::*;
use crate::paste::{occurs_at, stands_at};
use crate::text::chars_of;

verus! {

/// What the line of a geometry report that gives the position starts with.
pub const POSITION_PREFIX: &'static str = "  Position: ";

/// Where the window goes when there is neither a remembered position nor a
/// monitor to measure.
pub const FALLBACK_POSITION: (i32, i32) = (100, 100);

/// How far the window's corner stays from the monitor's right edge.
pub const RIGHT_MARGIN: i32 = 100;

/// How far the window's corner stays from the monitor's lower edge.
pub const BOTTOM_MARGIN: i32 = 140;

/// Whether a character is white space: the characters that Unicode gives the
/// property `White_Space`.
pub open spec fn is_space(c: char) -> bool {
    let n = c as u32;
    ||| 0x09 <= n <= 0x0d
    ||| n == 0x20
    ||| n == 0x85
    ||| n == 0xa0
    ||| n == 0x1680
    ||| 0x2000 <= n <= 0x200a
    ||| n == 0x2028
    ||| n == 0x2029
    ||| n == 0x202f
    ||| n == 0x205f
    ||| n == 0x3000
}

/// How many characters of white space a text begins with.
pub open spec fn leading_spaces(s: Seq<char>) -> nat
    decreases s.len(),
{
    if s.len() == 0 || !is_space(s.first()) {
        0
    } else {
        1 + leading_spaces(s.drop_first())
    }
}

/// How many characters of white space a text ends with.
pub open spec fn trailing_spaces(s: Seq<char>) -> nat
    decreases s.len(),
{
    if s.len() == 0 || !is_space(s.last()) {
        0
    } else {
        1 + trailing_spaces(s.drop_last())
    }
}

/// How many characters that are no white space a text begins with.
pub open spec fn leading_word(s: Seq<char>) -> nat
    decreases s.len(),
{
    if s.len() == 0 || is_space(s.first()) {
        0
    } else {
        1 + leading_word(s.drop_first())
    }
}

/// How many characters stand before the first comma of a text; its length
/// if it has no comma.
pub open spec fn before_comma(s: Seq<char>) -> nat
    decreases s.len(),
{
    if s.len() == 0 || s.first() == ',' {
        0
    } else {
        1 + before_comma(s.drop_first())
    }
}

/// A text without the white space at its two ends.
pub open spec fn trimmed(s: Seq<char>) -> Seq<char> {
    if leading_spaces(s) + trailing_spaces(s) >= s.len() {
        Seq::<char>::empty()
    } else {
        s.subrange(leading_spaces(s) as int, s.len() - trailing_spaces(s))
    }
}

/// The first run of characters of a text that are no white space, if it has
/// one.
pub open spec fn first_word(s: Seq<char>) -> Option<Seq<char>> {
    let rest = s.skip(leading_spaces(s) as int);
    if rest.len() == 0 {
        None
    } else {
        Some(rest.take(leading_word(rest) as int))
    }
}

/// The position that a line of a geometry report gives: the line has to
/// begin with the prefix and to hold a comma after it. What stands before
/// the comma, trimmed, is the horizontal place; the first word after the
/// comma is the vertical place, and "0" stands for a missing one.
pub open spec fn position_in_line(line: Seq<char>) -> Option<(Seq<char>, Seq<char>)> {
    let prefix = POSITION_PREFIX@;
    if !occurs_at(prefix, line, 0) {
        None
    } else {
        let rest = line.skip(prefix.len() as int);
        let comma = before_comma(rest) as int;
        if comma == rest.len() {
            None
        } else {
            Some(
                (
                    trimmed(rest.take(comma)),
                    match first_word(rest.skip(comma + 1)) {
                        Some(word) => word,
                        None => "0"@,
                    },
                ),
            )
        }
    }
}

/// Whether a character is white space.
pub fn is_space_char(c: char) -> (space: bool)
    ensures
        space == is_space(c),
{
    let n: u32 = c as u32;
    (0x09 <= n && n <= 0x0d) || n == 0x20 || n == 0x85 || n == 0xa0 || n == 0x1680 || (0x2000 <= n
        && n <= 0x200a) || n == 0x2028 || n == 0x2029 || n == 0x202f || n == 0x205f || n == 0x3000
}

/// The place, from `lo` on and before `hi`, of the first character that is
/// no white space; `hi` if there is none.
fn skip_spaces(chars: &Vec<char>, lo: usize, hi: usize) -> (at: usize)
    requires
        lo <= hi <= chars.len(),
    ensures
        lo <= at <= hi,
        at - lo == leading_spaces(chars@.subrange(lo as int, hi as int)),
{
    let ghost seg = chars@.subrange(lo as int, hi as int);
    let mut i: usize = lo;
    assert(seg.skip(0) =~= seg);
    while i < hi && is_space_char(chars[i])
        invariant
            lo <= i <= hi <= chars.len(),
            seg == chars@.subrange(lo as int, hi as int),
            leading_spaces(seg) == (i - lo) + leading_spaces(seg.skip(i - lo)),
        decreases hi - i,
    {
        assert(seg.skip(i - lo).first() == chars@[i as int]);
        assert(seg.skip(i - lo).drop_first() =~= seg.skip(i - lo + 1));
        i += 1;
    }
    assert(i < hi ==> seg.skip(i - lo).first() == chars@[i as int]);
    proof {
        at_end_is_zero_spaces(seg.skip(i - lo));
    }
    i
}

proof fn at_end_is_zero_spaces(s: Seq<char>)
    ensures
        s.len() == 0 ==> leading_spaces(s) == 0 && leading_word(s) == 0 && before_comma(s) == 0
            && trailing_spaces(s) == 0,
{
}

/// The place, from `lo` on and before `hi`, of the first character that is
/// white space; `hi` if there is none.
fn skip_word(chars: &Vec<char>, lo: usize, hi: usize) -> (at: usize)
    requires
        lo <= hi <= chars.len(),
    ensures
        lo <= at <= hi,
        at - lo == leading_word(chars@.subrange(lo as int, hi as int)),
{
    let ghost seg = chars@.subrange(lo as int, hi as int);
    let mut i: usize = lo;
    assert(seg.skip(0) =~= seg);
    while i < hi && !is_space_char(chars[i])
        invariant
            lo <= i <= hi <= chars.len(),
            seg == chars@.subrange(lo as int, hi as int),
            leading_word(seg) == (i - lo) + leading_word(seg.skip(i - lo)),
        decreases hi - i,
    {
        assert(seg.skip(i - lo).first() == chars@[i as int]);
        assert(seg.skip(i - lo).drop_first() =~= seg.skip(i - lo + 1));
        i += 1;
    }
    assert(i < hi ==> seg.skip(i - lo).first() == chars@[i as int]);
    proof {
        at_end_is_zero_spaces(seg.skip(i - lo));
    }
    i
}

/// The place, from `lo` on and before `hi`, of the first comma; `hi` if
/// there is none.
fn skip_to_comma(chars: &Vec<char>, lo: usize, hi: usize) -> (at: usize)
    requires
        lo <= hi <= chars.len(),
    ensures
        lo <= at <= hi,
        at - lo == before_comma(chars@.subrange(lo as int, hi as int)),
{
    let ghost seg = chars@.subrange(lo as int, hi as int);
    let mut i: usize = lo;
    assert(seg.skip(0) =~= seg);
    while i < hi && chars[i] != ','
        invariant
            lo <= i <= hi <= chars.len(),
            seg == chars@.subrange(lo as int, hi as int),
            before_comma(seg) == (i - lo) + before_comma(seg.skip(i - lo)),
        decreases hi - i,
    {
        assert(seg.skip(i - lo).first() == chars@[i as int]);
        assert(seg.skip(i - lo).drop_first() =~= seg.skip(i - lo + 1));
        i += 1;
    }
    assert(i < hi ==> seg.skip(i - lo).first() == chars@[i as int]);
    proof {
        at_end_is_zero_spaces(seg.skip(i - lo));
    }
    i
}

/// The place, after `lo` and up to `hi`, behind the last character that is
/// no white space; `lo` if there is none.
fn skip_spaces_back(chars: &Vec<char>, lo: usize, hi: usize) -> (at: usize)
    requires
        lo <= hi <= chars.len(),
    ensures
        lo <= at <= hi,
        hi - at == trailing_spaces(chars@.subrange(lo as int, hi as int)),
{
    let ghost seg = chars@.subrange(lo as int, hi as int);
    let mut j: usize = hi;
    assert(seg.take(seg.len() as int) =~= seg);
    while j > lo && is_space_char(chars[j - 1])
        invariant
            lo <= j <= hi <= chars.len(),
            seg == chars@.subrange(lo as int, hi as int),
            trailing_spaces(seg) == (hi - j) + trailing_spaces(seg.take(j - lo)),
        decreases j - lo,
    {
        assert(seg.take(j - lo).last() == chars@[j - 1]);
        assert(seg.take(j - lo).drop_last() =~= seg.take(j - lo - 1));
        j -= 1;
    }
    assert(j > lo ==> seg.take(j - lo).last() == chars@[j - 1]);
    proof {
        at_end_is_zero_spaces(seg.take(j - lo));
    }
    j
}

/// Reads the position out of one line of a geometry report.
pub fn parse_position_line(line: &str) -> (position: Option<(String, String)>)
    ensures
        match position {
            Some((x, y)) => position_in_line(line@) == Some((x@, y@)),
            None => position_in_line(line@) is None,
        },
{
    let chars = chars_of(line);
    let prefix = chars_of(POSITION_PREFIX);
    let n = chars.len();
    if prefix.len() > n || !stands_at(&prefix, &chars, 0) {
        return None;
    }
    let start = prefix.len();
    let ghost rest = line@.skip(start as int);
    assert(rest =~= chars@.subrange(start as int, n as int));
    let comma = skip_to_comma(&chars, start, n);
    if comma == n {
        return None;
    }
    let ghost before = rest.take(comma - start);
    assert(before =~= chars@.subrange(start as int, comma as int));
    let x_from = skip_spaces(&chars, start, comma);
    let x_to = skip_spaces_back(&chars, start, comma);
    let x = if x_from >= x_to {
        String::new()
    } else {
        assert(line@.subrange(x_from as int, x_to as int) =~= before.subrange(
            x_from - start,
            x_to - start,
        ));
        line.substring_char(x_from, x_to).to_owned()
    };
    assert(x@ =~= trimmed(before));

    let ghost after = rest.skip(comma - start + 1);
    assert(after =~= chars@.subrange(comma + 1, n as int));
    let y_from = skip_spaces(&chars, comma + 1, n);
    let ghost tail = after.skip(y_from - comma - 1);
    assert(tail =~= chars@.subrange(y_from as int, n as int));
    let y = if y_from == n {
        "0".to_owned()
    } else {
        let y_to = skip_word(&chars, y_from, n);
        assert(line@.subrange(y_from as int, y_to as int) =~= tail.take(y_to - y_from));
        line.substring_char(y_from, y_to).to_owned()
    };
    Some((x, y))
}

/// Of the lines of a geometry report, the position that the last line with a
/// position gives.
pub fn position_in_report(lines: &Vec<String>) -> (position: Option<(String, String)>)
    ensures
        match position {
            Some((x, y)) => exists|i: int|
                0 <= i < lines@.len() && position_in_line(#[trigger] lines@[i]@) == Some(
                    (x@, y@),
                ) && forall|j: int|
                    i < j < lines@.len() ==> position_in_line(#[trigger] lines@[j]@) is None,
            None => forall|j: int|
                0 <= j < lines@.len() ==> position_in_line(#[trigger] lines@[j]@) is None,
        },
{
    let mut i: usize = lines.len();
    while i > 0
        invariant
            i <= lines.len(),
            forall|j: int| i <= j < lines@.len() ==> position_in_line(#[trigger] lines@[j]@) is None,
        decreases i,
    {
        i -= 1;
        match parse_position_line(lines[i].as_str()) {
            Some(found) => {
                return Some(found);
            },
            None => {},
        }
    }
    None
}

/// Whether a character is one of the ten digits.
pub open spec fn is_digit(c: char) -> bool {
    '0' <= c && c <= '9'
}

/// The number that a digit stands for.
pub open spec fn digit_of(c: char) -> int {
    (c as u32) - 48
}

/// Whether a text is made of digits alone.
pub open spec fn all_digits(s: Seq<char>) -> bool {
    forall|i: int| 0 <= i < s.len() ==> is_digit(#[trigger] s[i])
}

/// The number that a run of digits writes in base ten.
pub open spec fn digits_value(s: Seq<char>) -> int
    decreases s.len(),
{
    if s.len() == 0 {
        0
    } else {
        10 * digits_value(s.drop_last()) + digit_of(s.last())
    }
}

/// The 32-bit number that a text writes, if it writes one: an optional sign,
/// then at least one digit and nothing else, and a value in range.
pub open spec fn decimal_i32(s: Seq<char>) -> Option<i32> {
    let signed = s.len() > 0 && (s[0] == '-' || s[0] == '+');
    let negative = s.len() > 0 && s[0] == '-';
    let digits = if signed {
        s.drop_first()
    } else {
        s
    };
    let value = if negative {
        -digits_value(digits)
    } else {
        digits_value(digits)
    };
    if digits.len() > 0 && all_digits(digits) && i32::MIN <= value <= i32::MAX {
        Some(value as i32)
    } else {
        None
    }
}

/// A run of digits writes at least what any of its beginnings writes.
proof fn lemma_digits_grow(s: Seq<char>, k: int)
    requires
        all_digits(s),
        0 <= k <= s.len(),
    ensures
        0 <= digits_value(s.take(k)) <= digits_value(s),
    decreases s.len() - k,
{
    if k == s.len() {
        assert(s.take(k) =~= s);
        lemma_digits_nonnegative(s);
    } else {
        lemma_digits_grow(s, k + 1);
        assert(s.take(k + 1).drop_last() =~= s.take(k));
        assert(s.take(k + 1).last() == s[k]);
        assert(is_digit(s[k]));
        lemma_digits_nonnegative(s.take(k));
    }
}

proof fn lemma_digits_nonnegative(s: Seq<char>)
    requires
        all_digits(s),
    ensures
        digits_value(s) >= 0,
    decreases s.len(),
{
    if s.len() > 0 {
        assert(is_digit(s.last()));
        assert(all_digits(s.drop_last())) by {
            assert forall|i: int| 0 <= i < s.drop_last().len() implies is_digit(
                #[trigger] s.drop_last()[i],
            ) by {
                assert(s.drop_last()[i] == s[i]);
            }
        }
        lemma_digits_nonnegative(s.drop_last());
    }
}

/// Reads a 32-bit number in base ten.
pub fn parse_i32(text: &str) -> (number: Option<i32>)
    ensures
        number == decimal_i32(text@),
{
    let chars = chars_of(text);
    let n = chars.len();
    if n == 0 {
        return None;
    }
    let negative = chars[0] == '-';
    let start: usize = if chars[0] == '-' || chars[0] == '+' {
        1
    } else {
        0
    };
    let ghost digits = if start == 1 {
        text@.drop_first()
    } else {
        text@
    };
    assert(digits =~= chars@.subrange(start as int, n as int));
    if start == n {
        return None;
    }
    let mut value: i64 = 0;
    let mut i: usize = start;
    assert(digits.take(0) =~= Seq::<char>::empty());
    while i < n
        invariant
            start <= i <= n,
            start <= 1,
            n == chars.len(),
            chars@ == text@,
            start == 1 <==> (text@[0] == '-' || text@[0] == '+'),
            negative <==> text@[0] == '-',
            digits == (if start == 1 {
                text@.drop_first()
            } else {
                text@
            }),
            digits == chars@.subrange(start as int, n as int),
            forall|k: int| 0 <= k < i - start ==> is_digit(#[trigger] digits[k]),
            value == digits_value(digits.take(i - start)),
            0 <= value <= 0x8000_0000,
        decreases n - i,
    {
        let c = chars[i];
        if !('0' <= c && c <= '9') {
            assert(!is_digit(digits[i - start]));
            return None;
        }
        let d: i64 = (c as u32 - 48) as i64;
        assert(digits.take(i - start + 1).drop_last() =~= digits.take(i - start));
        assert(digits.take(i - start + 1).last() == c);
        value = value * 10 + d;
        i += 1;
        if value > 0x8000_0000 {
            proof {
                if all_digits(digits) {
                    lemma_digits_grow(digits, i - start);
                }
            }
            return None;
        }
    }
    assert(digits.take(n - start) =~= digits);
    if negative {
        Some((-value) as i32)
    } else if value <= 0x7fff_ffff {
        Some(value as i32)
    } else {
        None
    }
}

/// The remembered position, if both of its places were remembered and both
/// are numbers.
pub fn saved_position(x: &Option<String>, y: &Option<String>) -> (position: Option<(i32, i32)>)
    ensures
        position == (match (*x, *y) {
            (Some(xs), Some(ys)) => match (decimal_i32(xs@), decimal_i32(ys@)) {
                (Some(a), Some(b)) => Some((a, b)),
                _ => None,
            },
            _ => None,
        }),
{
    match (x, y) {
        (Some(xs), Some(ys)) => match (parse_i32(xs.as_str()), parse_i32(ys.as_str())) {
            (Some(a), Some(b)) => Some((a, b)),
            _ => None,
        },
        _ => None,
    }
}

/// The rectangle of a monitor.
#[derive(Clone, Copy, Debug, PartialEq, Eq, Structural)]
pub struct Geometry {
    pub x: i32,
    pub y: i32,
    pub width: i32,
    pub height: i32,
}

impl Geometry {
    /// The place near the monitor's lower right corner where the window goes.
    pub open spec fn corner(self) -> (int, int) {
        (self.x + self.width - RIGHT_MARGIN, self.y + self.height - BOTTOM_MARGIN)
    }

    /// Whether the corner place can be written in 32 bits.
    pub open spec fn corner_fits(self) -> bool {
        &&& i32::MIN <= self.corner().0 <= i32::MAX
        &&& i32::MIN <= self.corner().1 <= i32::MAX
    }

    /// Whether the corner place can be written in 32 bits.
    pub fn has_corner(&self) -> (fits: bool)
        ensures
            fits == self.corner_fits(),
    {
        let cx: i64 = self.x as i64 + self.width as i64 - RIGHT_MARGIN as i64;
        let cy: i64 = self.y as i64 + self.height as i64 - BOTTOM_MARGIN as i64;
        -0x8000_0000 <= cx && cx <= 0x7fff_ffff && -0x8000_0000 <= cy && cy <= 0x7fff_ffff
    }
}

/// Where to put the window: at the remembered position if there is one, else
/// near the lower right corner of the monitor if there is one, else at the
/// fallback position.
pub fn position_to_use(saved: Option<(i32, i32)>, monitor: Option<Geometry>) -> (position: (
    i32,
    i32,
))
    requires
        saved is None && monitor is Some ==> monitor->0.corner_fits(),
    ensures
        position == (match saved {
            Some(p) => p,
            None => match monitor {
                Some(g) => (g.corner().0 as i32, g.corner().1 as i32),
                None => FALLBACK_POSITION,
            },
        }),
{
    match saved {
        Some(p) => p,
        None => match monitor {
            Some(g) => {
                let cx: i64 = g.x as i64 + g.width as i64 - RIGHT_MARGIN as i64;
                let cy: i64 = g.y as i64 + g.height as i64 - BOTTOM_MARGIN as i64;
                (cx as i32, cy as i32)
            },
            None => FALLBACK_POSITION,
        },
    }
}

} // verus!
