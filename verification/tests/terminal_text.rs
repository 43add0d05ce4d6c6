use tcode_ui::terminal::paste::{prepare_terminal_paste, shell_quote};

#[test]
fn shell_quotes_paths() {
    assert_eq!(shell_quote("/tmp/a"), "'/tmp/a'");
    assert_eq!(shell_quote("/tmp/a b"), "'/tmp/a b'");
    assert_eq!(shell_quote("a'b"), "'a'\\''b'");
}

#[test]
fn terminal_paste_preparation_is_shared_by_clipboard_paths() {
    assert_eq!(prepare_terminal_paste("a\r\nb\nc", false), "a\rb\rc");
    assert_eq!(
        prepare_terminal_paste("a\x1bb", true),
        "\x1b[200~ab\x1b[201~"
    );
}

/// The word that a POSIX shell reads, where nothing in it stands for something else.
fn shell_reads(word: &str) -> Option<String> {
    let mut said = String::new();
    let mut characters = word.chars();
    while let Some(character) = characters.next() {
        match character {
            '\'' => loop {
                match characters.next()? {
                    '\'' => break,
                    quoted => said.push(quoted),
                }
            },
            '\\' => said.push(characters.next()?),
            _ => return None,
        }
    }
    Some(said)
}

#[test]
fn shells_undo_the_quoting() {
    for path in ["", "'", "a b", "it's", "''$HOME`ls`", "back\\slash\n"] {
        assert_eq!(shell_reads(&shell_quote(path)).as_deref(), Some(path));
    }
}

#[test]
fn plain_pastes_keep_their_line_breaks() {
    for (text, breaks) in [("", 0), ("a\r\nb\nc\rd", 3), ("\n\n\r\n", 3), ("\r\r\n", 2)] {
        let typed = prepare_terminal_paste(text, false);
        assert_eq!(typed.matches('\r').count(), breaks);
        assert!(!typed.contains('\n'));
        let other = |c: &char| *c != '\r' && *c != '\n';
        assert!(typed.chars().filter(other).eq(text.chars().filter(other)));
    }
}
