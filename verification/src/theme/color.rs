//! Colours as themes write them.
use crate::text::{characters, hex_digit, hex_value, trim, trimmed};
use vstd::prelude::*;
use vstd::utf8::encode_utf8;

verus! {

/// The opacity of a colour that keeps all of its alpha: one, in parts of a hundred
/// million. A percentage of a percentage of a percentage of a percentage of it is
/// still a whole number of parts.
pub const OPAQUE: u32 = 100_000_000;

/// A colour: red, green, blue and alpha, a byte each from the highest down, and
/// how much of that alpha is kept, of [`OPAQUE`] parts.
#[derive(Debug, Clone, Copy, PartialEq, Eq, Structural)]
pub struct Color {
    pub rgba: u32,
    pub opacity: u32,
}

impl Color {
    pub open spec fn solid(rgba: nat) -> Color {
        Color { rgba: rgba as u32, opacity: OPAQUE }
    }

    /// The colour with `percent` of the opacity it has.
    pub open spec fn faded(self, percent: nat) -> Color {
        Color { opacity: (self.opacity as nat * percent / 100) as u32, ..self }
    }

    pub fn opacity(self, percent: u8) -> (color: Color)
        requires
            percent <= 100,
        ensures
            color == self.faded(percent as nat),
            percent == 100 ==> color == self,
    {
        let kept: u64 = self.opacity as u64;
        let share: u64 = percent as u64;
        proof {
            assert(kept * share <= kept * 100) by (nonlinear_arith)
                requires
                    share <= 100,
            ;
            assert(share == 100 ==> kept * share == 100 * kept) by (nonlinear_arith);
        }
        Color { rgba: self.rgba, opacity: (kept * share / 100) as u32 }
    }
}

/// Fading a colour that keeps all of its alpha multiplies percentages, up to four
/// of them, with nothing lost to rounding.
pub proof fn law_fades_multiply(rgba: nat, a: nat, b: nat, c: nat, d: nat)
    requires
        a <= 100,
        b <= 100,
        c <= 100,
        d <= 100,
    ensures
        Color::solid(rgba).faded(a).faded(b).faded(c).faded(d).opacity == a * b * c * d,
{
    let once = Color::solid(rgba).faded(a);
    assert(once.opacity == 1_000_000 * a);
    let twice = once.faded(b);
    assert(1_000_000 * a * b == 100 * (10_000 * (a * b)) && 0 <= a * b <= 10_000)
        by (nonlinear_arith)
        requires
            a <= 100,
            b <= 100,
    ;
    assert(twice.opacity == 10_000 * (a * b));
    let thrice = twice.faded(c);
    let ab = a * b;
    assert(10_000 * ab * c == 100 * (100 * (ab * c)) && 0 <= ab * c <= 1_000_000)
        by (nonlinear_arith)
        requires
            ab <= 10_000,
            c <= 100,
    ;
    assert(thrice.opacity == 100 * (ab * c));
    let abc = ab * c;
    assert(100 * abc * d == 100 * (abc * d) && 0 <= abc * d <= 100_000_000) by (nonlinear_arith)
        requires
            abc <= 1_000_000,
            d <= 100,
    ;
}

/// An opaque colour from its three channels, `0xRRGGBB`.
pub fn rgb(channels: u32) -> (color: Color)
    requires
        channels <= 0xff_ffff,
    ensures
        color == Color::solid((channels * 0x100 + 0xff) as nat),
{
    Color { rgba: channels * 0x100 + 0xff, opacity: OPAQUE }
}

/// The eight digits that a colour's three, four, six or eight digits stand for.
pub open spec fn full_digits(d: Seq<char>) -> Option<Seq<char>> {
    if d.len() == 3 {
        Some(seq![d[0], d[0], d[1], d[1], d[2], d[2], 'f', 'f'])
    } else if d.len() == 4 {
        Some(seq![d[0], d[0], d[1], d[1], d[2], d[2], d[3], d[3]])
    } else if d.len() == 6 {
        Some(d + seq!['f', 'f'])
    } else if d.len() == 8 {
        Some(d)
    } else {
        None
    }
}

pub open spec fn all_hex(d: Seq<char>) -> bool {
    forall|i: int| 0 <= i < d.len() ==> hex_value(#[trigger] d[i]) is Some
}

/// The number that hexadecimal digits write.
pub open spec fn hex_number(d: Seq<char>) -> nat
    decreases d.len(),
{
    if d.len() == 0 {
        0
    } else {
        hex_number(d.drop_last()) * 16 + (match hex_value(d.last()) {
            Some(v) => v,
            None => 0,
        })
    }
}

/// Each character of a text twice.
pub open spec fn doubled(text: Seq<char>) -> Seq<char>
    decreases text.len(),
{
    if text.len() == 0 {
        Seq::empty()
    } else {
        doubled(text.drop_last()).push(text.last()).push(text.last())
    }
}

/// The text that is read for a colour, and by which its refusal names it: what stands
/// in three or four bytes behind a `#` is taken for short digits, each written twice.
pub open spec fn named_color(text: Seq<char>) -> Seq<char> {
    let bytes = encode_utf8(text).len();
    if text.len() > 0 && text[0] == '#' && (bytes == 4 || bytes == 5) {
        seq!['#'] + doubled(text.drop_first())
    } else {
        text
    }
}

/// The colour in one of the notations `#rgb`, `#rgba`, `#rrggbb` and `#rrggbbaa`, white
/// space around it aside.
pub open spec fn hex_color(text: Seq<char>) -> Option<Color> {
    let t = trim(text);
    if t.len() == 0 || t[0] != '#' {
        None
    } else {
        match full_digits(t.subrange(1, t.len() as int)) {
            Some(d) => if all_hex(d) {
                Some(Color::solid(hex_number(d)))
            } else {
                None
            },
            None => None,
        }
    }
}

/// The colour that a text writes. Short digits are written out before white space is
/// left aside, so that `#12` and a space behind it is the `#1122` of four digits.
pub open spec fn written_color(text: Seq<char>) -> Option<Color> {
    hex_color(named_color(text))
}

/// The text that is read for a colour, and by which its refusal names it.
pub fn color_name(value: &str) -> (name: String)
    ensures
        name@ == named_color(value@),
{
    let chars = characters(value);
    let bytes: usize = value.as_bytes().len();
    if chars.len() == 0 || chars[0] != '#' || (bytes != 4 && bytes != 5) {
        return value.to_string();
    }
    let mut name = String::new();
    name.push('#');
    assert(name@ =~= seq!['#']);
    let ghost rest = value@.drop_first();
    let mut i: usize = 1;
    assert(rest.take(0) =~= Seq::<char>::empty());
    assert(name@ =~= seq!['#'] + doubled(rest.take(0)));
    while i < chars.len()
        invariant
            1 <= i <= chars@.len(),
            chars@ == value@,
            rest == value@.drop_first(),
            name@ == seq!['#'] + doubled(rest.take(i - 1)),
        decreases chars@.len() - i,
    {
        name.push(chars[i]);
        name.push(chars[i]);
        assert(rest.take(i as int).drop_last() =~= rest.take(i - 1));
        assert(rest.take(i as int).last() == chars@[i as int]);
        assert(name@ =~= seq!['#'] + doubled(rest.take(i as int)));
        i += 1;
    }
    assert(rest.take(chars@.len() - 1) =~= rest);
    name
}

spec fn power16(n: nat) -> nat
    decreases n,
{
    if n == 0 {
        1
    } else {
        16 * power16((n - 1) as nat)
    }
}

/// The eight digits, where there are three, four, six or eight.
fn spread(chars: &Vec<char>, start: usize, end: usize) -> (digits: Option<Vec<char>>)
    requires
        start <= end <= chars@.len(),
    ensures
        match (digits, full_digits(chars@.subrange(start as int, end as int))) {
            (Some(got), Some(want)) => got@ == want,
            (None, None) => true,
            _ => false,
        },
{
    let ghost d = chars@.subrange(start as int, end as int);
    let n: usize = end - start;
    let mut digits: Vec<char> = Vec::new();
    if n == 3 || n == 4 {
        digits.push(chars[start]);
        digits.push(chars[start]);
        digits.push(chars[start + 1]);
        digits.push(chars[start + 1]);
        digits.push(chars[start + 2]);
        digits.push(chars[start + 2]);
        if n == 4 {
            digits.push(chars[start + 3]);
            digits.push(chars[start + 3]);
        } else {
            digits.push('f');
            digits.push('f');
        }
        assert(digits@ =~= full_digits(d)->0);
        Some(digits)
    } else if n == 6 || n == 8 {
        let mut i: usize = 0;
        while i < n
            invariant
                i <= n,
                n == end - start,
                end <= chars@.len(),
                digits@ == chars@.subrange(start as int, start + i),
            decreases n - i,
        {
            digits.push(chars[start + i]);
            i += 1;
            assert(digits@ =~= chars@.subrange(start as int, start + i));
        }
        if n == 6 {
            digits.push('f');
            digits.push('f');
        }
        assert(digits@ =~= full_digits(d)->0);
        Some(digits)
    } else {
        None
    }
}

/// The number that eight hexadecimal digits write.
fn number(digits: &Vec<char>) -> (number: Option<u32>)
    requires
        digits@.len() == 8,
    ensures
        match number {
            Some(n) => all_hex(digits@) && n == hex_number(digits@),
            None => !all_hex(digits@),
        },
{
    let mut value: u64 = 0;
    let mut i: usize = 0;
    while i < 8
        invariant
            i <= 8,
            digits@.len() == 8,
            all_hex(digits@.take(i as int)),
            value == hex_number(digits@.take(i as int)),
            value < power16(i as nat),
            power16(i as nat) <= 0x1_0000_0000,
        decreases 8 - i,
    {
        proof {
            assert(digits@.take(i + 1).drop_last() =~= digits@.take(i as int));
            assert(digits@.take(i + 1).last() == digits@[i as int]);
            reveal_with_fuel(power16, 9);
        }
        match hex_digit(digits[i]) {
            Some(d) => {
                value = value * 16 + d as u64;
                i += 1;
                assert(all_hex(digits@.take(i as int))) by {
                    assert forall|j: int| 0 <= j < i implies hex_value(
                        #[trigger] digits@.take(i as int)[j],
                    ) is Some by {
                        if j < i - 1 {
                            assert(digits@.take(i - 1)[j] == digits@[j]);
                        }
                    }
                }
            },
            None => {
                assert(hex_value(digits@[i as int]) is None);
                return None;
            },
        }
    }
    proof {
        assert(digits@.take(8) =~= digits@);
        reveal_with_fuel(power16, 9);
    }
    Some(value as u32)
}

/// Read a colour.
pub fn parse_color(value: &str) -> (color: Option<Color>)
    ensures
        color == written_color(value@),
{
    let name = color_name(value);
    let chars = characters(name.as_str());
    let (start, end) = trimmed(&chars);
    let ghost t = chars@.subrange(start as int, end as int);
    if start == end || chars[start] != '#' {
        return None;
    }
    assert(t.subrange(1, t.len() as int) =~= chars@.subrange(start + 1, end as int));
    match spread(&chars, start + 1, end) {
        Some(digits) => match number(&digits) {
            Some(rgba) => Some(Color { rgba, opacity: OPAQUE }),
            None => None,
        },
        None => None,
    }
}

pub open spec fn max3(a: int, b: int, c: int) -> int {
    if a >= b && a >= c {
        a
    } else if b >= c {
        b
    } else {
        c
    }
}

pub open spec fn min3(a: int, b: int, c: int) -> int {
    if a <= b && a <= c {
        a
    } else if b <= c {
        b
    } else {
        c
    }
}

/// Whether a colour's lightness is over one half: the mean of its greatest and
/// its least channel.
pub open spec fn light(color: Color) -> bool {
    let r = color.rgba as int / 0x100_0000;
    let g = color.rgba as int / 0x1_0000 % 0x100;
    let b = color.rgba as int / 0x100 % 0x100;
    max3(r, g, b) + min3(r, g, b) > 255
}

pub fn is_light(color: Color) -> (answer: bool)
    ensures
        answer == light(color),
{
    let r: u32 = color.rgba / 0x100_0000;
    let g: u32 = color.rgba / 0x1_0000 % 0x100;
    let b: u32 = color.rgba / 0x100 % 0x100;
    let most: u32 = if r >= g && r >= b {
        r
    } else if g >= b {
        g
    } else {
        b
    };
    let least: u32 = if r <= g && r <= b {
        r
    } else if g <= b {
        g
    } else {
        b
    };
    most + least > 255
}

} // verus!
