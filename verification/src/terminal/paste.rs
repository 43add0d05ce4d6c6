//! What is typed into a terminal for the user.
use vstd::prelude::*;

verus! {

/// The characters with each apostrophe written as `'\''`.
pub open spec fn escape_apostrophes(path: Seq<char>) -> Seq<char>
    decreases path.len(),
{
    if path.len() == 0 {
        Seq::empty()
    } else {
        let before = escape_apostrophes(path.drop_last());
        if path.last() == '\'' {
            before + seq!['\'', '\\', '\'', '\'']
        } else {
            before.push(path.last())
        }
    }
}

/// A path as one word of a POSIX shell.
pub fn shell_quote(path: &str) -> (word: String)
    ensures
        word@ == quoted(path@),
{
    let mut word = String::new();
    word.push('\'');
    assert(path@.take(0) =~= Seq::<char>::empty());
    assert(word@ =~= seq!['\''] + escape_apostrophes(path@.take(0)));
    for c in chars: path.chars()
        invariant
            chars.seq() == path@,
            word@ == seq!['\''] + escape_apostrophes(path@.take(chars.index() as int)),
    {
        let ghost i = chars.index() as int;
        proof {
            assert(path@.take(i + 1).drop_last() =~= path@.take(i));
            assert(path@.take(i + 1).last() == path@[i]);
        }
        if c == '\'' {
            word.push('\'');
            word.push('\\');
            word.push('\'');
            word.push('\'');
        } else {
            word.push(c);
        }
        assert(word@ =~= seq!['\''] + escape_apostrophes(path@.take(i + 1)));
    }
    assert(path@.take(path@.len() as int) =~= path@);
    word.push('\'');
    assert(word@ =~= seq!['\''] + escape_apostrophes(path@) + seq!['\'']);
    word
}

/// A path between apostrophes.
pub open spec fn quoted(path: Seq<char>) -> Seq<char> {
    seq!['\''] + escape_apostrophes(path) + seq!['\'']
}

/// Where a shell is in a word that it reads.
pub enum ShellPlace {
    Outside,
    /// Between apostrophes, where every character stands for itself.
    Quoted,
    /// Behind a backslash, which makes the next character stand for itself.
    Escaped,
    /// Past a character that is neither quoted nor escaped, which may end the word or
    /// stand for something else.
    Bare,
}

/// A word as far as a shell has read it.
pub struct ShellReading {
    pub place: ShellPlace,
    pub said: Seq<char>,
}

impl ShellReading {
    pub open spec fn next(self, c: char) -> ShellReading {
        match self.place {
            ShellPlace::Outside => if c == '\'' {
                ShellReading { place: ShellPlace::Quoted, ..self }
            } else if c == '\\' {
                ShellReading { place: ShellPlace::Escaped, ..self }
            } else {
                ShellReading { place: ShellPlace::Bare, ..self }
            },
            ShellPlace::Quoted => if c == '\'' {
                ShellReading { place: ShellPlace::Outside, ..self }
            } else {
                ShellReading { said: self.said.push(c), ..self }
            },
            // An escaped line feed joins two lines and says nothing.
            ShellPlace::Escaped => ShellReading {
                place: ShellPlace::Outside,
                said: if c == '\n' {
                    self.said
                } else {
                    self.said.push(c)
                },
            },
            ShellPlace::Bare => self,
        }
    }
}

pub open spec fn shell_reads(word: Seq<char>) -> ShellReading
    decreases word.len(),
{
    if word.len() == 0 {
        ShellReading { place: ShellPlace::Outside, said: Seq::empty() }
    } else {
        shell_reads(word.drop_last()).next(word.last())
    }
}

proof fn lemma_reads_more(word: Seq<char>, c: char)
    ensures
        shell_reads(word.push(c)) == shell_reads(word).next(c),
{
    assert(word.push(c).drop_last() =~= word);
}

proof fn lemma_reads_escaped(path: Seq<char>)
    ensures
        shell_reads(seq!['\''] + escape_apostrophes(path)) == (ShellReading {
            place: ShellPlace::Quoted,
            said: path,
        }),
    decreases path.len(),
{
    let open = seq!['\''];
    if path.len() == 0 {
        let nothing = Seq::<char>::empty();
        lemma_reads_more(nothing, '\'');
        assert(nothing.push('\'') =~= open + escape_apostrophes(path));
        assert(path =~= nothing);
    } else {
        let init = path.drop_last();
        let before = open + escape_apostrophes(init);
        lemma_reads_escaped(init);
        assert(init.push(path.last()) =~= path);
        if path.last() == '\'' {
            let one = before.push('\'');
            let two = one.push('\\');
            let three = two.push('\'');
            lemma_reads_more(before, '\'');
            lemma_reads_more(one, '\\');
            lemma_reads_more(two, '\'');
            lemma_reads_more(three, '\'');
            assert(three.push('\'') =~= open + escape_apostrophes(path));
        } else {
            lemma_reads_more(before, path.last());
            assert(before.push(path.last()) =~= open + escape_apostrophes(path));
        }
    }
}

/// A shell undoes the quoting: it reads a quoted path as one word, which says the path
/// and holds nothing that could stand for something else.
pub proof fn law_a_shell_undoes_the_quoting(path: Seq<char>)
    ensures
        shell_reads(quoted(path)) == (ShellReading { place: ShellPlace::Outside, said: path }),
{
    let open = seq!['\''] + escape_apostrophes(path);
    lemma_reads_escaped(path);
    lemma_reads_more(open, '\'');
    assert(open.push('\'') =~= quoted(path));
}

/// The characters but escape.
pub open spec fn without_escape(text: Seq<char>) -> Seq<char> {
    text.filter(|c: char| c != '\u{1b}')
}

/// Line ends as carriage returns: a line feed after a carriage return goes, any
/// other becomes one.
pub open spec fn carriage_returns(text: Seq<char>) -> Seq<char>
    decreases text.len(),
{
    if text.len() == 0 {
        Seq::empty()
    } else {
        let before = carriage_returns(text.drop_last());
        if text.last() != '\n' {
            before.push(text.last())
        } else if text.len() > 1 && text[text.len() - 2] == '\r' {
            before
        } else {
            before.push('\r')
        }
    }
}

/// What pasting `text` types into a terminal.
pub open spec fn pasted(text: Seq<char>, bracketed_paste: bool) -> Seq<char> {
    if bracketed_paste {
        "\x1b[200~"@ + without_escape(text) + "\x1b[201~"@
    } else {
        carriage_returns(text)
    }
}

/// What pasting `text` types: bracketed, with nothing in it that could end the
/// bracket, or with carriage returns for line ends.
pub fn prepare_terminal_paste(text: &str, bracketed_paste: bool) -> (typed: String)
    ensures
        typed@ == pasted(text@, bracketed_paste),
{
    let mut typed = String::new();
    if bracketed_paste {
        typed.append("\x1b[200~");
        let ghost opening = "\x1b[200~"@;
        let ghost kept = |c: char| c != '\u{1b}';
        assert(text@.take(0) =~= Seq::<char>::empty());
        assert(text@.take(0).filter(kept) =~= Seq::<char>::empty());
        assert(typed@ =~= opening + text@.take(0).filter(kept));
        for c in chars: text.chars()
            invariant
                chars.seq() == text@,
                kept == (|c: char| c != '\u{1b}'),
                typed@ == opening + text@.take(chars.index() as int).filter(kept),
        {
            let ghost i = chars.index() as int;
            proof {
                reveal(Seq::filter);
                assert(text@.take(i + 1).drop_last() =~= text@.take(i));
                assert(text@.take(i + 1).last() == text@[i]);
            }
            if c != '\u{1b}' {
                typed.push(c);
            }
            assert(typed@ =~= opening + text@.take(i + 1).filter(kept));
        }
        assert(text@.take(text@.len() as int) =~= text@);
        typed.append("\x1b[201~");
    } else {
        let mut after_return = false;
        assert(text@.take(0) =~= Seq::<char>::empty());
        for c in chars: text.chars()
            invariant
                chars.seq() == text@,
                typed@ == carriage_returns(text@.take(chars.index() as int)),
                after_return == (chars.index() > 0 && text@[chars.index() - 1] == '\r'),
        {
            let ghost i = chars.index() as int;
            proof {
                assert(text@.take(i + 1).drop_last() =~= text@.take(i));
                assert(text@.take(i + 1).last() == text@[i]);
                if i > 0 {
                    assert(text@.take(i + 1)[i - 1] == text@[i - 1]);
                }
            }
            if c != '\n' {
                typed.push(c);
            } else if !after_return {
                typed.push('\r');
            }
            after_return = c == '\r';
        }
        assert(text@.take(text@.len() as int) =~= text@);
    }
    typed
}

/// A bracketed paste holds one opening and one closing mark: nothing between
/// them is an escape.
pub proof fn law_bracketed_paste_has_no_inner_escape(text: Seq<char>)
    ensures
        forall|i: int|
            0 <= i < without_escape(text).len() ==> #[trigger] without_escape(text)[i] != '\u{1b}',
    decreases text.len(),
{
    reveal(Seq::filter);
    if text.len() > 0 {
        law_bracketed_paste_has_no_inner_escape(text.drop_last());
    }
}

/// A plain paste holds no line feed.
pub proof fn law_plain_paste_has_no_line_feed(text: Seq<char>)
    ensures
        forall|i: int|
            0 <= i < carriage_returns(text).len() ==> #[trigger] carriage_returns(text)[i] != '\n',
    decreases text.len(),
{
    if text.len() > 0 {
        law_plain_paste_has_no_line_feed(text.drop_last());
        let before = carriage_returns(text.drop_last());
        let after = carriage_returns(text);
        assert forall|i: int| 0 <= i < after.len() implies #[trigger] after[i] != '\n' by {
            if i < before.len() {
                assert(after[i] == before[i]);
            }
        }
    }
}

/// How many line breaks a text has: a carriage return, a line feed, or both in this
/// order make one.
pub open spec fn line_breaks(text: Seq<char>) -> nat
    decreases text.len(),
{
    if text.len() == 0 {
        0
    } else {
        line_breaks(text.drop_last()) + if text.last() == '\r' || (text.last() == '\n' && !(
        text.len() > 1 && text[text.len() - 2] == '\r')) {
            1nat
        } else {
            0
        }
    }
}

/// The characters but those that break lines.
pub open spec fn between_breaks(text: Seq<char>) -> Seq<char>
    decreases text.len(),
{
    if text.len() == 0 {
        Seq::empty()
    } else if text.last() == '\r' || text.last() == '\n' {
        between_breaks(text.drop_last())
    } else {
        between_breaks(text.drop_last()).push(text.last())
    }
}

/// A plain paste has as many line breaks as the text, and the same characters besides.
pub proof fn law_a_plain_paste_keeps_its_lines(text: Seq<char>)
    ensures
        line_breaks(carriage_returns(text)) == line_breaks(text),
        between_breaks(carriage_returns(text)) == between_breaks(text),
    decreases text.len(),
{
    if text.len() > 0 {
        law_a_plain_paste_keeps_its_lines(text.drop_last());
        let before = carriage_returns(text.drop_last());
        assert(before.push(text.last()).drop_last() =~= before);
        assert(before.push('\r').drop_last() =~= before);
    }
}

} // verus!
