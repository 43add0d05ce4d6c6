//! What importing a theme in its editor leads to.
use crate::protocol::ThemePreference;
use crate::text::characters;
use crate::theme::import::Imported;
use crate::theme::ThemeMode;
use vstd::prelude::*;

verus! {

/// What follows an import. The preferences are saved and the editor closes in any
/// case.
#[derive(Debug, Clone, Copy, PartialEq, Eq, Structural)]
pub struct Applied {
    /// The appearance that this client is set to, where it has to change for the
    /// imported theme to show.
    pub set_client_theme: Option<ThemePreference>,
    /// The appearance to apply.
    pub apply: ThemePreference,
    /// Whether the user is told that the theme was converted.
    pub converted: bool,
}

pub open spec fn preference_of(mode: ThemeMode) -> ThemePreference {
    if mode == ThemeMode::Dark {
        ThemePreference::Dark
    } else {
        ThemePreference::Light
    }
}

/// Bring an imported theme into view: where it is for the other appearance, the
/// client changes to that one.
pub fn apply(imported: Imported, current: ThemeMode, setting: ThemePreference) -> (applied: Applied)
    ensures
        applied == if imported.mode == current {
            Applied {
                set_client_theme: None,
                apply: setting,
                converted: imported.converted,
            }
        } else {
            Applied {
                set_client_theme: Some(preference_of(imported.mode)),
                apply: preference_of(imported.mode),
                converted: imported.converted,
            }
        },
{
    if imported.mode == current {
        return Applied {
            set_client_theme: None,
            apply: setting,
            converted: imported.converted,
        };
    }
    let mode = if imported.mode.is_dark() {
        ThemePreference::Dark
    } else {
        ThemePreference::Light
    };
    Applied { set_client_theme: Some(mode), apply: mode, converted: imported.converted }
}

/// How many characters a text's first line has, its line end aside.
pub open spec fn first_line_len(text: Seq<char>) -> nat
    decreases text.len(),
{
    if text.len() == 0 || text[0] == '\n' || (text.len() > 1 && text[0] == '\r' && text[1] == '\n') {
        0
    } else {
        1 + first_line_len(text.drop_first())
    }
}

proof fn lemma_first_line(text: Seq<char>, at: int)
    requires
        0 <= at <= text.len(),
        forall|j: int|
            0 <= j < at ==> text[j] != '\n' && !(j + 1 < text.len() && #[trigger] text[j] == '\r'
                && text[j + 1] == '\n'),
        at == text.len() || text[at] == '\n' || (at + 1 < text.len() && text[at] == '\r' && text[at
            + 1] == '\n'),
    ensures
        first_line_len(text) == at,
    decreases at,
{
    if at > 0 {
        let rest = text.drop_first();
        assert(text[0] != '\n');
        assert forall|j: int| 0 <= j < at - 1 implies rest[j] != '\n' && !(j + 1 < rest.len()
            && #[trigger] rest[j] == '\r' && rest[j + 1] == '\n') by {
            assert(rest[j] == text[j + 1]);
        }
        lemma_first_line(rest, at - 1);
    }
}

/// The first line of a message.
pub fn first_line(message: &str) -> (line: String)
    ensures
        line@ == message@.take(first_line_len(message@) as int),
{
    let chars = characters(message);
    let mut line = String::new();
    let mut i: usize = 0;
    assert(line@ =~= message@.take(0));
    while i < chars.len()
        invariant
            i <= chars@.len(),
            chars@ == message@,
            line@ == message@.take(i as int),
            forall|j: int|
                0 <= j < i ==> message@[j] != '\n' && !(j + 1 < message@.len()
                    && #[trigger] message@[j] == '\r' && message@[j + 1] == '\n'),
        decreases chars@.len() - i,
    {
        let line_feed = chars[i] == '\n';
        let return_and_feed = chars[i] == '\r' && i + 1 < chars.len() && chars[i + 1] == '\n';
        if line_feed || return_and_feed {
            proof {
                lemma_first_line(message@, i as int);
            }
            return line;
        }
        line.push(chars[i]);
        i += 1;
        assert(line@ =~= message@.take(i as int));
    }
    proof {
        lemma_first_line(message@, message@.len() as int);
    }
    line
}

} // verus!
