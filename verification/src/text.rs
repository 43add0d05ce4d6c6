//! Building text, one character at a time.
use vstd::prelude::*;

verus! {

/// Pushing a character appends it.
///
/// Trusted: `String::push` appends the given character to the end.
pub assume_specification[ String::push ](buffer: &mut String, c: char)
    ensures
        final(buffer)@ == old(buffer)@.push(c),
;

/// The character of a decimal digit.
pub open spec fn digit_char(d: nat) -> char {
    (48 + d) as char
}

/// A number in decimal notation.
pub open spec fn decimal(n: nat) -> Seq<char>
    decreases n,
{
    if n < 10 {
        seq![digit_char(n)]
    } else {
        decimal(n / 10).push(digit_char(n % 10))
    }
}

fn digit(d: u8) -> (c: char)
    requires
        d < 10,
    ensures
        c == digit_char(d as nat),
{
    (48 + d) as char
}

/// Append a number in decimal notation.
pub fn push_decimal(text: &mut String, n: u64)
    ensures
        final(text)@ == old(text)@ + decimal(n as nat),
    decreases n,
{
    if n >= 10 {
        push_decimal(text, n / 10);
    }
    text.push(digit((n % 10) as u8));
    assert(text@ =~= old(text)@ + decimal(n as nat));
}

/// The characters that Unicode calls white space.
pub open spec fn white_space(c: char) -> bool {
    let n = c as u32;
    ||| 9 <= n <= 13
    ||| n == 0x20
    ||| n == 0x85
    ||| n == 0xa0
    ||| n == 0x1680
    ||| 0x2000 <= n <= 0x200a
    ||| n == 0x2028
    ||| n == 0x2029
    ||| n == 0x202f
    ||| n == 0x205f
    ||| n == 0x3000
}

pub fn is_white_space(c: char) -> (white: bool)
    ensures
        white == white_space(c),
{
    let n: u32 = c as u32;
    (9 <= n && n <= 13) || n == 0x20 || n == 0x85 || n == 0xa0 || n == 0x1680 || (0x2000 <= n && n
        <= 0x200a) || n == 0x2028 || n == 0x2029 || n == 0x202f || n == 0x205f || n == 0x3000
}

/// Nothing but white space, or nothing at all.
pub open spec fn blank(text: Seq<char>) -> bool {
    forall|i: int| 0 <= i < text.len() ==> white_space(#[trigger] text[i])
}

pub fn is_blank(text: &str) -> (answer: bool)
    ensures
        answer == blank(text@),
{
    let chars = characters(text);
    let mut i: usize = 0;
    while i < chars.len()
        invariant
            i <= chars@.len(),
            chars@ == text@,
            forall|j: int| 0 <= j < i ==> white_space(#[trigger] text@[j]),
        decreases chars@.len() - i,
    {
        if !is_white_space(chars[i]) {
            assert(!white_space(text@[i as int]));
            return false;
        }
        i += 1;
    }
    true
}

/// The characters of a text.
pub fn characters(text: &str) -> (chars: Vec<char>)
    ensures
        chars@ == text@,
{
    let mut chars: Vec<char> = Vec::new();
    for c in it: text.chars()
        invariant
            it.seq() == text@,
            chars@ == text@.take(it.index() as int),
    {
        chars.push(c);
        assert(chars@ =~= text@.take(it.index() + 1));
    }
    assert(text@.take(text@.len() as int) =~= text@);
    chars
}

/// The text from the first character that is not white space.
pub open spec fn trim_start(text: Seq<char>) -> Seq<char>
    decreases text.len(),
{
    if text.len() > 0 && white_space(text[0]) {
        trim_start(text.subrange(1, text.len() as int))
    } else {
        text
    }
}

/// The text up to the last character that is not white space.
pub open spec fn trim_end(text: Seq<char>) -> Seq<char>
    decreases text.len(),
{
    if text.len() > 0 && white_space(text.last()) {
        trim_end(text.drop_last())
    } else {
        text
    }
}

/// The text without white space around it.
pub open spec fn trim(text: Seq<char>) -> Seq<char> {
    trim_end(trim_start(text))
}

/// The text behind all its leading occurrences of a character.
pub open spec fn strip_leading(text: Seq<char>, c: char) -> Seq<char>
    decreases text.len(),
{
    if text.len() > 0 && text[0] == c {
        strip_leading(text.subrange(1, text.len() as int), c)
    } else {
        text
    }
}

/// Where a text starts and ends without the white space around it.
pub fn trimmed(chars: &Vec<char>) -> (bounds: (usize, usize))
    ensures
        bounds.0 <= bounds.1 <= chars@.len(),
        trim(chars@) == chars@.subrange(bounds.0 as int, bounds.1 as int),
{
    let ghost all = chars@;
    let len: usize = chars.len();
    let mut start: usize = 0;
    assert(all.subrange(0, len as int) =~= all);
    while start < len && is_white_space(chars[start])
        invariant
            start <= len,
            len == chars@.len(),
            all == chars@,
            trim_start(all) == trim_start(all.subrange(start as int, len as int)),
        decreases len - start,
    {
        let ghost rest = all.subrange(start as int, len as int);
        assert(rest.subrange(1, rest.len() as int) =~= all.subrange(start + 1, len as int));
        start += 1;
    }
    let mut end: usize = len;
    while end > start && is_white_space(chars[end - 1])
        invariant
            start <= end <= len,
            len == chars@.len(),
            all == chars@,
            trim_end(all.subrange(start as int, len as int)) == trim_end(
                all.subrange(start as int, end as int),
            ),
        decreases end,
    {
        let ghost rest = all.subrange(start as int, end as int);
        assert(rest.last() == all[end - 1]);
        assert(rest.drop_last() =~= all.subrange(start as int, end - 1));
        end -= 1;
    }
    proof {
        let rest = all.subrange(start as int, len as int);
        assert(rest.len() > 0 ==> rest[0] == all[start as int]);
        let kept = all.subrange(start as int, end as int);
        assert(kept.len() > 0 ==> kept.last() == all[end - 1]);
    }
    (start, end)
}

/// The value of a hexadecimal digit.
pub open spec fn hex_value(c: char) -> Option<nat> {
    if '0' <= c <= '9' {
        Some((c as nat - '0' as nat) as nat)
    } else if 'a' <= c <= 'f' {
        Some((c as nat - 'a' as nat + 10) as nat)
    } else if 'A' <= c <= 'F' {
        Some((c as nat - 'A' as nat + 10) as nat)
    } else {
        None
    }
}

pub fn hex_digit(c: char) -> (value: Option<u8>)
    ensures
        match hex_value(c) {
            Some(v) => value is Some && value->0 == v && v < 16,
            None => value is None,
        },
{
    let n: u32 = c as u32;
    if '0' <= c && c <= '9' {
        Some((n - 48) as u8)
    } else if 'a' <= c && c <= 'f' {
        Some((n - 97 + 10) as u8)
    } else if 'A' <= c && c <= 'F' {
        Some((n - 65 + 10) as u8)
    } else {
        None
    }
}

/// The value of a character as a decimal digit.
pub open spec fn digit_value(c: char) -> int {
    c as int - '0' as int
}

/// The number that decimal digits write.
pub open spec fn reads_as(text: Seq<char>) -> int
    decreases text.len(),
{
    if text.len() == 0 {
        0
    } else {
        reads_as(text.drop_last()) * 10 + digit_value(text.last())
    }
}

/// A number in decimal notation reads back as that number, is made of digits, and has
/// no zero in front but for zero itself.
pub proof fn law_decimals_read_back(n: nat)
    ensures
        reads_as(decimal(n)) == n,
        decimal(n).len() > 0,
        forall|i: int| 0 <= i < decimal(n).len() ==> '0' <= #[trigger] decimal(n)[i] <= '9',
        n > 0 ==> decimal(n)[0] != '0',
    decreases n,
{
    if n < 10 {
        let text = decimal(n);
        assert(text.drop_last() =~= Seq::<char>::empty());
        assert(text.last() == digit_char(n));
        assert(reads_as(text.drop_last()) == 0);
    } else {
        law_decimals_read_back(n / 10);
        let text = decimal(n);
        assert(text.drop_last() =~= decimal(n / 10));
        assert(text.last() == digit_char(n % 10));
        assert(text[0] == decimal(n / 10)[0]);
    }
}

/// Trimming leaves no white space around a text, and takes nothing else away: what was
/// in front and behind was white space.
pub proof fn law_trimming_takes_white_space_alone(text: Seq<char>)
    ensures
        trim(text).len() > 0 ==> !white_space(trim(text)[0]) && !white_space(trim(text).last()),
        exists|a: int, b: int|
            0 <= a <= b <= text.len() && trim(text) == #[trigger] text.subrange(a, b) && blank(
                text.subrange(0, a),
            ) && blank(text.subrange(b, text.len() as int)),
{
    lemma_trim_start(text);
    let rest = trim_start(text);
    lemma_trim_end(rest);
    let a = text.len() - rest.len();
    let b = a + trim_end(rest).len();
    assert(text.subrange(a, b) =~= trim_end(rest));
    assert(text.subrange(b, text.len() as int) =~= rest.subrange(
        trim_end(rest).len() as int,
        rest.len() as int,
    ));
    if trim(text).len() > 0 {
        assert(trim(text)[0] == rest[0]);
    }
}

proof fn lemma_trim_start(text: Seq<char>)
    ensures
        trim_start(text).len() <= text.len(),
        trim_start(text) == text.subrange(text.len() - trim_start(text).len(), text.len() as int),
        trim_start(text).len() > 0 ==> !white_space(trim_start(text)[0]),
        blank(text.subrange(0, text.len() - trim_start(text).len())),
    decreases text.len(),
{
    if text.len() > 0 && white_space(text[0]) {
        let rest = text.subrange(1, text.len() as int);
        lemma_trim_start(rest);
        let n = trim_start(text).len() as int;
        assert(text.subrange(text.len() - n, text.len() as int) =~= rest.subrange(
            rest.len() - n,
            rest.len() as int,
        ));
        assert forall|i: int| 0 <= i < text.len() - n implies white_space(
            #[trigger] text.subrange(0, text.len() - n)[i],
        ) by {
            if i > 0 {
                assert(rest.subrange(0, rest.len() - n)[i - 1] == text[i]);
            }
        }
    } else {
        assert(text.subrange(0, text.len() as int) =~= text);
    }
}

proof fn lemma_trim_end(text: Seq<char>)
    ensures
        trim_end(text).len() <= text.len(),
        trim_end(text) == text.subrange(0, trim_end(text).len() as int),
        trim_end(text).len() > 0 ==> !white_space(trim_end(text).last()),
        blank(text.subrange(trim_end(text).len() as int, text.len() as int)),
    decreases text.len(),
{
    if text.len() > 0 && white_space(text.last()) {
        let rest = text.drop_last();
        lemma_trim_end(rest);
        let n = trim_end(text).len() as int;
        assert(text.subrange(0, n) =~= rest.subrange(0, n));
        assert forall|i: int| 0 <= i < text.len() - n implies white_space(
            #[trigger] text.subrange(n, text.len() as int)[i],
        ) by {
            if i < rest.len() - n {
                assert(rest.subrange(n, rest.len() as int)[i] == text[n + i]);
            }
        }
    } else {
        assert(text.subrange(0, text.len() as int) =~= text);
    }
}

} // verus!
