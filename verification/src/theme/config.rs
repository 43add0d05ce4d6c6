//! Theme files: families of themes, each a map from style keys to JSON values.
use std::rc::Rc;
use vstd::prelude::*;

use crate::theme::ThemeMode;

verus! {

/// A JSON value. Numbers keep the digits they were written with.
pub enum Json {
    Null,
    Bool(bool),
    Number(String),
    Text(String),
    Array(Vec<Json>),
    Object(Vec<(String, Json)>),
}

/// A style: its keys and their values.
pub type Style = Vec<(String, Json)>;

/// The value under a key, where there is one.
pub open spec fn styled(style: Seq<(String, Json)>, key: Seq<char>) -> Option<Json>
    decreases style.len(),
{
    if style.len() == 0 {
        None
    } else if style[0].0@ == key {
        Some(style[0].1)
    } else {
        styled(style.drop_first(), key)
    }
}

pub open spec fn json_text(value: Option<Json>) -> Option<Seq<char>> {
    match value {
        Some(Json::Text(text)) => Some(text@),
        _ => None,
    }
}

proof fn lemma_styled_skips(style: Seq<(String, Json)>, key: Seq<char>, at: int)
    requires
        0 <= at <= style.len(),
        forall|j: int| 0 <= j < at ==> (#[trigger] style[j]).0@ != key,
    ensures
        styled(style, key) == styled(style.skip(at), key),
    decreases at,
{
    if at == 0 {
        assert(style.skip(0) =~= style);
    } else {
        lemma_styled_skips(style, key, at - 1);
        assert(style.skip(at - 1).drop_first() =~= style.skip(at));
        assert(style.skip(at - 1)[0] == style[at - 1]);
    }
}

/// Look a key up.
pub fn lookup<'a>(style: &'a Style, key: &str) -> (value: Option<&'a Json>)
    ensures
        match (value, styled(style@, key@)) {
            (Some(got), Some(want)) => *got == want,
            (None, None) => true,
            _ => false,
        },
{
    let mut i: usize = 0;
    while i < style.len()
        invariant
            i <= style@.len(),
            forall|j: int| 0 <= j < i ==> (#[trigger] style@[j]).0@ != key@,
        decreases style@.len() - i,
    {
        if *style[i].0.as_str() == *key {
            proof {
                lemma_styled_skips(style@, key@, i as int);
                assert(style@.skip(i as int)[0] == style@[i as int]);
            }
            return Some(&style[i].1);
        }
        i += 1;
    }
    proof {
        lemma_styled_skips(style@, key@, style@.len() as int);
    }
    None
}

/// Store a value under a key, in place of what was there.
pub open spec fn put_style(
    style: Seq<(String, Json)>,
    key: Seq<char>,
    value: Json,
    k: Seq<char>,
) -> Option<
    Json,
> {
    if k == key {
        Some(value)
    } else {
        styled(style, k)
    }
}

proof fn lemma_replace(style: Seq<(String, Json)>, at: int, value: Json, k: Seq<char>)
    requires
        0 <= at < style.len(),
        forall|j: int| 0 <= j < at ==> (#[trigger] style[j]).0@ != style[at].0@,
    ensures
        styled(style.update(at, (style[at].0, value)), k) == put_style(style, style[at].0@, value, k),
    decreases at,
{
    let after = style.update(at, (style[at].0, value));
    if at == 0 {
        assert(after.drop_first() =~= style.drop_first());
    } else {
        let rest = style.drop_first();
        lemma_replace(rest, at - 1, value, k);
        assert(after.drop_first() =~= rest.update(at - 1, (rest[at - 1].0, value)));
        assert(style[0].0@ != style[at].0@);
    }
}

proof fn lemma_append(style: Seq<(String, Json)>, entry: (String, Json), k: Seq<char>)
    requires
        forall|j: int| 0 <= j < style.len() ==> (#[trigger] style[j]).0@ != entry.0@,
    ensures
        styled(style.push(entry), k) == put_style(style, entry.0@, entry.1, k),
    decreases style.len(),
{
    if style.len() == 0 {
        assert(style.push(entry)[0] == entry);
        assert(style.push(entry).drop_first() =~= Seq::<(String, Json)>::empty());
        assert(styled(Seq::<(String, Json)>::empty(), k) is None);
    } else {
        assert(style.push(entry)[0] == style[0]);
        lemma_append(style.drop_first(), entry, k);
        assert(style.push(entry).drop_first() =~= style.drop_first().push(entry));
        assert(style[0].0@ != entry.0@);
    }
}

pub fn put(style: &mut Style, key: String, value: Json)
    ensures
        forall|k: Seq<char>| #[trigger]
            styled(final(style)@, k) == put_style(old(style)@, key@, value, k),
{
    let ghost before = style@;
    let mut i: usize = 0;
    while i < style.len()
        invariant
            i <= style@.len(),
            style@ == before,
            before == old(style)@,
            forall|j: int| 0 <= j < i ==> (#[trigger] before[j]).0@ != key@,
        decreases style@.len() - i,
    {
        if style[i].0 == key {
            let same = style[i].0.clone();
            proof {
                assert forall|k: Seq<char>| #[trigger]
                    styled(before.update(i as int, (before[i as int].0, value)), k) == put_style(
                        before,
                        key@,
                        value,
                        k,
                    ) by {
                    lemma_replace(before, i as int, value, k);
                }
            }
            style.set(i, (same, value));
            assert(style@ =~= before.update(i as int, (before[i as int].0, value)));
            return;
        }
        i += 1;
    }
    proof {
        assert forall|k: Seq<char>| #[trigger] styled(before.push((key, value)), k) == put_style(
            before,
            key@,
            value,
            k,
        ) by {
            lemma_append(before, (key, value), k);
        }
    }
    style.push((key, value));
}

/// One theme of a family.
pub struct ThemeConfig {
    pub name: String,
    pub appearance: ThemeMode,
    pub style: Rc<Style>,
    /// Why the highlighter refuses the theme's syntax colours, if it does.
    pub syntax_error: Option<String>,
}

impl Clone for ThemeConfig {
    fn clone(&self) -> (copy: Self)
        ensures
            copy == *self,
    {
        ThemeConfig {
            name: self.name.clone(),
            appearance: self.appearance,
            style: self.style.clone(),
            syntax_error: crate::protocol::copy_text(&self.syntax_error),
        }
    }
}

/// A theme file. Style keys that nothing consumes are kept for export.
pub struct ThemeFamily {
    pub name: String,
    pub author: String,
    pub themes: Vec<ThemeConfig>,
}

/// Why a theme is refused, over texts of one type.
pub enum Refusal<T> {
    /// The key has a value that is no text, or none where one is needed.
    MustBeColor { key: T },
    InvalidColor { value: T },
    Syntax { message: T },
    EmptyFamily,
    EmptyName,
    Duplicate { name: T },
    /// A customised built-in theme needs a name of its own.
    BuiltIn { name: T },
    /// The file refers to another file.
    ExternalReference,
    UnsupportedType { appearance: T },
    /// Nothing says whether the theme is light or dark.
    UnknownAppearance,
    /// The file cannot be read, in the words of what reads it.
    Malformed { message: T },
    /// The file is JSON that is not shaped like a theme. Words for it are up to the
    /// application: see [`Refusal::worded`].
    Misshapen,
    ScopeMustBeString,
    ScopeMustBeStringOrArray,
}

pub type ThemeError = Refusal<String>;

pub type ThemeErrorModel = Refusal<Seq<char>>;

impl View for Refusal<String> {
    type V = Refusal<Seq<char>>;

    open spec fn view(&self) -> Refusal<Seq<char>> {
        match *self {
            Refusal::MustBeColor { key } => Refusal::MustBeColor { key: key@ },
            Refusal::InvalidColor { value } => Refusal::InvalidColor { value: value@ },
            Refusal::Syntax { message } => Refusal::Syntax { message: message@ },
            Refusal::EmptyFamily => Refusal::EmptyFamily,
            Refusal::EmptyName => Refusal::EmptyName,
            Refusal::Duplicate { name } => Refusal::Duplicate { name: name@ },
            Refusal::BuiltIn { name } => Refusal::BuiltIn { name: name@ },
            Refusal::ExternalReference => Refusal::ExternalReference,
            Refusal::UnsupportedType { appearance } => Refusal::UnsupportedType {
                appearance: appearance@,
            },
            Refusal::UnknownAppearance => Refusal::UnknownAppearance,
            Refusal::Malformed { message } => Refusal::Malformed { message: message@ },
            Refusal::Misshapen => Refusal::Misshapen,
            Refusal::ScopeMustBeString => Refusal::ScopeMustBeString,
            Refusal::ScopeMustBeStringOrArray => Refusal::ScopeMustBeStringOrArray,
        }
    }
}

impl<T> Refusal<T> {
    /// The refusal with words for what a file that is not shaped like a theme has
    /// wrong.
    pub fn worded(self, message: T) -> (refusal: Refusal<T>)
        ensures
            refusal == if self is Misshapen {
                Refusal::Malformed { message }
            } else {
                self
            },
    {
        match self {
            Refusal::Misshapen => Refusal::Malformed { message },
            refusal => refusal,
        }
    }
}

} // verus!
