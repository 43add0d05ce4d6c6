//! Selecting the word under a held finger.
use unicode_segmentation::UnicodeSegmentation;
use vstd::prelude::*;
use vstd::utf8::encode_utf8;

verus! {

/// How many bytes text takes.
pub open spec fn byte_len(text: Seq<char>) -> nat {
    encode_utf8(text).len()
}

/// Pieces of text one after the other.
pub open spec fn joined(pieces: Seq<Seq<char>>) -> Seq<char>
    decreases pieces.len(),
{
    if pieces.len() == 0 {
        Seq::empty()
    } else {
        joined(pieces.drop_last()) + pieces.last()
    }
}

/// A piece of text and the byte that it starts at.
#[derive(Debug)]
pub struct Piece {
    pub start: usize,
    pub text: String,
}

pub open spec fn piece_texts(pieces: Seq<Piece>) -> Seq<Seq<char>> {
    Seq::new(pieces.len(), |i: int| pieces[i].text@)
}

/// Whether pieces are a text cut up, each with its place.
pub open spec fn cuts(pieces: Seq<Piece>, text: Seq<char>) -> bool {
    &&& joined(piece_texts(pieces)) == text
    &&& forall|i: int|
        0 <= i < pieces.len() ==> (#[trigger] pieces[i]).start == byte_len(
            joined(piece_texts(pieces).take(i)),
        )
}

/// The pieces that Unicode's word boundaries cut a text into.
pub uninterp spec fn word_pieces(text: Seq<char>) -> Seq<Seq<char>>;

/// Cut a text at its word boundaries, which keep combining marks and emoji
/// sequences whole.
///
/// Trusted: `UnicodeSegmentation::split_word_bound_indices` gives the substrings
/// between the word boundaries of Unicode's text segmentation, each with its byte
/// offset. Claimed of it: which pieces come depends on the text alone, together
/// they are the text, and each offset is the length of what stands before. Where
/// the boundaries lie is not stated.
#[verifier::external_body]
fn split_words(value: &str) -> (pieces: Vec<Piece>)
    ensures
        piece_texts(pieces@) == word_pieces(value@),
        cuts(pieces@, value@),
{
    value.split_word_bound_indices().map(
        |(start, word)| Piece { start, text: word.to_string() },
    ).collect()
}

/// A range of bytes.
#[derive(Clone, Copy, Debug, PartialEq, Eq, Structural)]
pub struct ByteRange {
    pub start: usize,
    pub end: usize,
}

/// Whether a piece of text, starting at a byte, has the byte at an offset in it.
pub open spec fn covers(start: nat, piece: Seq<char>, offset: usize) -> bool {
    start <= offset < start + byte_len(piece)
}

/// The range of the first of the pieces that has an offset in it; where none has,
/// an empty range there.
pub open spec fn range_among(pieces: Seq<Seq<char>>, n: int, offset: usize) -> (int, int)
    decreases pieces.len() - n,
{
    if n < 0 || n >= pieces.len() {
        (offset as int, offset as int)
    } else if covers(byte_len(joined(pieces.take(n))), pieces[n], offset) {
        let start = byte_len(joined(pieces.take(n))) as int;
        (start, start + byte_len(pieces[n]))
    } else {
        range_among(pieces, n + 1, offset)
    }
}

/// What a hold at an offset selects: the word there, or everything where the text
/// is masked.
pub open spec fn hold_range(
    text: Seq<char>,
    pieces: Seq<Seq<char>>,
    offset: usize,
    masked: bool,
) -> (
    int,
    int,
) {
    if masked {
        (0, byte_len(text) as int)
    } else {
        range_among(pieces, 0, offset)
    }
}

proof fn lemma_bytes_join(a: Seq<char>, b: Seq<char>)
    ensures
        byte_len(a + b) == byte_len(a) + byte_len(b),
    decreases a.len(),
{
    if a.len() == 0 {
        assert(a + b =~= b);
    } else {
        lemma_bytes_join(a.drop_first(), b);
        assert((a + b).drop_first() =~= a.drop_first() + b);
        assert((a + b)[0] == a[0]);
    }
}

proof fn lemma_piece_end(pieces: Seq<Seq<char>>, n: int)
    requires
        0 <= n < pieces.len(),
    ensures
        byte_len(joined(pieces.take(n + 1))) == byte_len(joined(pieces.take(n))) + byte_len(
            pieces[n],
        ),
{
    assert(pieces.take(n + 1).drop_last() =~= pieces.take(n));
    assert(pieces.take(n + 1).last() == pieces[n]);
    lemma_bytes_join(joined(pieces.take(n)), pieces[n]);
}

proof fn lemma_piece_within(pieces: Seq<Seq<char>>, n: int)
    requires
        0 <= n <= pieces.len(),
    ensures
        byte_len(joined(pieces.take(n))) <= byte_len(joined(pieces)),
    decreases pieces.len() - n,
{
    if n == pieces.len() {
        assert(pieces.take(n) =~= pieces);
    } else {
        lemma_piece_end(pieces, n);
        lemma_piece_within(pieces, n + 1);
    }
}

/// The range that a hold at an offset selects, given the text's pieces.
pub fn range_at(
    content: &str,
    pieces: &Vec<Piece>,
    offset: usize,
    masked: bool,
) -> (range: ByteRange)
    requires
        cuts(pieces@, content@),
    ensures
        (range.start as int, range.end as int) == hold_range(
            content@,
            piece_texts(pieces@),
            offset,
            masked,
        ),
{
    let length: usize = content.as_bytes().len();
    if masked {
        return ByteRange { start: 0, end: length };
    }
    let ghost all = piece_texts(pieces@);
    let mut i: usize = 0;
    while i < pieces.len()
        invariant
            i <= pieces@.len(),
            all == piece_texts(pieces@),
            cuts(pieces@, content@),
            length == byte_len(content@),
            !masked,
            range_among(all, 0, offset) == range_among(all, i as int, offset),
        decreases pieces@.len() - i,
    {
        let start: usize = pieces[i].start;
        let size: usize = pieces[i].text.as_str().as_bytes().len();
        proof {
            assert(all[i as int] == pieces@[i as int].text@);
            lemma_piece_end(all, i as int);
            lemma_piece_within(all, i + 1);
        }
        if start <= offset && offset < start + size {
            return ByteRange { start, end: start + size };
        }
        i += 1;
    }
    ByteRange { start: offset, end: offset }
}

/// What a held finger does to a text field.
#[derive(Clone, Copy, Debug, PartialEq, Eq, Structural)]
pub enum HoldOutcome {
    /// Nothing: the field is disabled, and whatever is behind it may take the hold.
    Ignored,
    /// Click there once, since no character is under the finger.
    Click,
    /// Focus the field and select a range.
    Select(ByteRange),
}

/// Select the word at a byte offset, if the field has a character there.
pub fn select_word_at(
    content: &str,
    offset: Option<usize>,
    masked: bool,
    disabled: bool,
) -> (outcome:
    HoldOutcome)
    ensures
        match outcome {
            HoldOutcome::Ignored => disabled,
            HoldOutcome::Click => !disabled && offset is None,
            HoldOutcome::Select(range) => !disabled && offset is Some && (
                range.start as int,
                range.end as int,
            ) == hold_range(content@, word_pieces(content@), offset->0, masked),
        },
{
    if disabled {
        return HoldOutcome::Ignored;
    }
    match offset {
        Some(offset) => {
            let pieces = split_words(content);
            HoldOutcome::Select(range_at(content, &pieces, offset, masked))
        },
        None => HoldOutcome::Click,
    }
}

/// However a text is cut into pieces, an offset inside it selects a piece that it
/// lies in, and no more than the text.
pub proof fn law_a_hold_selects_around_the_offset(pieces: Seq<Seq<char>>, n: int, offset: usize)
    requires
        0 <= n <= pieces.len(),
        byte_len(joined(pieces.take(n))) <= offset < byte_len(joined(pieces)),
    ensures
        range_among(pieces, n, offset).0 <= offset < range_among(pieces, n, offset).1,
        0 <= range_among(pieces, n, offset).0,
        range_among(pieces, n, offset).1 <= byte_len(joined(pieces)),
    decreases pieces.len() - n,
{
    if n == pieces.len() {
        assert(pieces.take(n) =~= pieces);
    } else {
        lemma_piece_end(pieces, n);
        lemma_piece_within(pieces, n + 1);
        if !covers(byte_len(joined(pieces.take(n))), pieces[n], offset) {
            law_a_hold_selects_around_the_offset(pieces, n + 1, offset);
        }
    }
}

/// A hold in a masked text selects all of it, whatever its words are.
pub proof fn law_a_hold_selects_a_masked_text_whole(
    text: Seq<char>,
    pieces: Seq<Seq<char>>,
    offset: usize,
)
    ensures
        hold_range(text, pieces, offset, true) == (0int, byte_len(text) as int),
{
}

/// A hold selects one whole piece, the one that its offset lies in; behind the text it
/// selects nothing.
pub proof fn law_a_hold_selects_one_piece(pieces: Seq<Seq<char>>, n: int, offset: usize, at: int)
    requires
        0 <= n <= at < pieces.len(),
        byte_len(joined(pieces.take(at))) <= offset,
        offset < byte_len(joined(pieces.take(at))) + byte_len(pieces[at]),
        forall|j: int|
            n <= j < at ==> byte_len(#[trigger] joined(pieces.take(j))) + byte_len(pieces[j])
                <= offset,
    ensures
        range_among(pieces, n, offset) == (
            byte_len(joined(pieces.take(at))) as int,
            (byte_len(joined(pieces.take(at))) + byte_len(pieces[at])) as int,
        ),
        range_among(pieces, pieces.len() as int, offset) == (offset as int, offset as int),
    decreases at - n,
{
    if n < at {
        assert(byte_len(joined(pieces.take(n))) + byte_len(pieces[n]) <= offset);
        law_a_hold_selects_one_piece(pieces, n + 1, offset, at);
    }
}

} // verus!
