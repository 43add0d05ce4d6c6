//! Terminal keys for touch, which a software keyboard cannot produce.
//!
//! The bar owns the sticky modifiers and the order of its keys. What bytes a key
//! sends is decided by the mapping that hardware keys go through, which callers
//! hand in.
use crate::text::characters;
use vstd::prelude::*;
use vstd::string::StrSliceExecFns;
use vstd::utf8::encode_utf8;

verus! {

/// The height of the bar, in the design's units.
pub const KEY_BAR_HEIGHT: u32 = 44;

#[derive(Clone, Copy, Debug, PartialEq, Eq, Structural)]
pub enum TerminalKey {
    Escape,
    Tab,
    Left,
    Up,
    Down,
    Right,
    Symbol(char),
    /// A one-tap Control combination: interrupt and end-of-file, the two the
    /// sticky Ctrl modifier is reached for most.
    Control(char),
}

impl TerminalKey {
    pub open spec fn spec_mapping_name(self) -> Seq<char> {
        match self {
            TerminalKey::Escape => "escape"@,
            TerminalKey::Tab => "tab"@,
            TerminalKey::Left => "left"@,
            TerminalKey::Up => "up"@,
            TerminalKey::Down => "down"@,
            TerminalKey::Right => "right"@,
            TerminalKey::Symbol(symbol) => seq![symbol],
            TerminalKey::Control(symbol) => seq![symbol],
        }
    }

    /// The name by which the key mapping knows the key.
    pub fn mapping_name(self) -> (name: String)
        ensures
            name@ == self.spec_mapping_name(),
    {
        match self {
            TerminalKey::Escape => "escape".to_string(),
            TerminalKey::Tab => "tab".to_string(),
            TerminalKey::Left => "left".to_string(),
            TerminalKey::Up => "up".to_string(),
            TerminalKey::Down => "down".to_string(),
            TerminalKey::Right => "right".to_string(),
            TerminalKey::Symbol(symbol) => one_character(symbol),
            TerminalKey::Control(symbol) => one_character(symbol),
        }
    }
}

fn one_character(c: char) -> (text: String)
    ensures
        text@ == seq![c],
{
    let mut text = String::new();
    text.push(c);
    assert(text@ =~= seq![c]);
    text
}

/// The modifiers of a key, as the key mapping takes them.
#[derive(Clone, Copy, Debug, PartialEq, Eq, Structural)]
pub struct TermModifiers {
    pub shift: bool,
    pub alt: bool,
    pub control: bool,
    pub platform: bool,
}

impl Default for TermModifiers {
    fn default() -> (modifiers: Self)
        ensures
            modifiers == TermModifiers::none(),
    {
        TermModifiers { shift: false, alt: false, control: false, platform: false }
    }
}

impl TermModifiers {
    pub open spec fn none() -> TermModifiers {
        TermModifiers { shift: false, alt: false, control: false, platform: false }
    }
}

/// Modifiers that hold until the next key.
#[derive(Clone, Copy, Debug, PartialEq, Eq, Structural)]
pub struct StickyModifiers {
    pub control: bool,
    pub alt: bool,
}

impl Default for StickyModifiers {
    fn default() -> (modifiers: Self)
        ensures
            modifiers == StickyModifiers::cleared(),
    {
        StickyModifiers { control: false, alt: false }
    }
}

impl StickyModifiers {
    pub open spec fn cleared() -> StickyModifiers {
        StickyModifiers { control: false, alt: false }
    }

    pub open spec fn taken(self) -> TermModifiers {
        TermModifiers { control: self.control, alt: self.alt, ..TermModifiers::none() }
    }

    /// Use the modifiers up.
    pub fn take(&mut self) -> (modifiers: TermModifiers)
        ensures
            modifiers == old(self).taken(),
            *final(self) == StickyModifiers::cleared(),
    {
        let modifiers = TermModifiers {
            shift: false,
            alt: self.alt,
            control: self.control,
            platform: false,
        };
        *self = StickyModifiers::default();
        modifiers
    }
}

/// Turns keys of the bar and committed text into what a terminal is sent.
#[derive(Debug)]
pub struct TerminalKeyEncoder {
    pub modifiers: StickyModifiers,
}

/// What is sent for a key: what the mapping says, else the text itself.
pub open spec fn sent(mapped: Option<Vec<u8>>, otherwise: Seq<char>) -> Seq<u8> {
    match mapped {
        Some(bytes) => bytes@,
        None => encode_utf8(otherwise),
    }
}

/// The modifiers under which a key of the bar is mapped.
pub open spec fn key_modifiers(sticky: StickyModifiers, key: TerminalKey) -> TermModifiers {
    TermModifiers { control: sticky.control || key is Control, ..sticky.taken() }
}

/// The name under which a committed character is mapped.
pub open spec fn character_name(c: char) -> Seq<char> {
    if c == '\n' || c == '\r' {
        "enter"@
    } else if c == '\t' {
        "tab"@
    } else {
        seq![c]
    }
}

/// The modifiers under which the character at `index` is mapped: the sticky ones
/// for the first, none for the others.
pub open spec fn character_modifiers(sticky: StickyModifiers, index: int) -> TermModifiers {
    if index == 0 {
        sticky.taken()
    } else {
        TermModifiers::none()
    }
}

/// Whether `mapped` is what the mapping says of a name.
pub open spec fn maps<F: Fn(String, TermModifiers) -> Option<Vec<u8>>>(
    mapping: F,
    name: Seq<char>,
    modifiers: TermModifiers,
    mapped: Option<Vec<u8>>,
) -> bool {
    exists|text: String| text@ == name && #[trigger] call_ensures(mapping, (text, modifiers), mapped)
}

/// Whether bytes are what the mapping says of a name or, where it knows none of it, the
/// name itself.
pub open spec fn answered<F: Fn(String, TermModifiers) -> Option<Vec<u8>>>(
    mapping: F,
    name: Seq<char>,
    modifiers: TermModifiers,
    bytes: Seq<u8>,
) -> bool {
    exists|mapped: Option<Vec<u8>>| #[trigger]
        maps(mapping, name, modifiers, mapped) && bytes == (match mapped {
            Some(answer) => answer@,
            None => encode_utf8(name),
        })
}

/// Whether `mapped` is what the mapping says of each character of a text.
pub open spec fn maps_text<F: Fn(String, TermModifiers) -> Option<Vec<u8>>>(
    mapping: F,
    text: Seq<char>,
    sticky: StickyModifiers,
    mapped: Seq<Option<Vec<u8>>>,
) -> bool {
    mapped.len() == text.len() && forall|i: int|
        0 <= i < text.len() ==> maps(
            mapping,
            character_name(text[i]),
            character_modifiers(sticky, i),
            #[trigger] mapped[i],
        )
}

/// What is sent for text whose characters map to `mapped`.
pub open spec fn sent_text(text: Seq<char>, mapped: Seq<Option<Vec<u8>>>) -> Seq<u8>
    decreases text.len(),
{
    if text.len() == 0 {
        Seq::empty()
    } else {
        sent_text(text.drop_last(), mapped.drop_last()) + sent(mapped.last(), seq![text.last()])
    }
}

/// Whether a text may be sent as `bytes`, under modifiers that hold until the next key.
pub open spec fn may_send<F: Fn(String, TermModifiers) -> Option<Vec<u8>>>(
    mapping: F,
    text: Seq<char>,
    sticky: StickyModifiers,
    bytes: Seq<u8>,
) -> bool {
    exists|mapped: Seq<Option<Vec<u8>>>| #[trigger]
        maps_text(mapping, text, sticky, mapped) && bytes == sent_text(text, mapped)
}

/// The modifiers that still hold once a text is sent.
pub open spec fn held_after(text: Seq<char>, sticky: StickyModifiers) -> StickyModifiers {
    if text.len() == 0 {
        sticky
    } else {
        StickyModifiers::cleared()
    }
}

/// Whether a mapping says the same each time that it is asked the same.
pub open spec fn is_function<F: Fn(String, TermModifiers) -> Option<Vec<u8>>>(mapping: F) -> bool {
    forall|name: Seq<char>, modifiers: TermModifiers, a: Option<Vec<u8>>, b: Option<Vec<u8>>|
        #[trigger] maps(mapping, name, modifiers, a) && #[trigger] maps(
            mapping,
            name,
            modifiers,
            b,
        ) ==> (match (a, b) {
            (Some(x), Some(y)) => x@ == y@,
            (None, None) => true,
            _ => false,
        })
}

proof fn lemma_sent_alike<F: Fn(String, TermModifiers) -> Option<Vec<u8>>>(
    mapping: F,
    text: Seq<char>,
    sticky: StickyModifiers,
    a: Seq<Option<Vec<u8>>>,
    b: Seq<Option<Vec<u8>>>,
)
    requires
        is_function(mapping),
        maps_text(mapping, text, sticky, a),
        maps_text(mapping, text, sticky, b),
    ensures
        sent_text(text, a) == sent_text(text, b),
    decreases text.len(),
{
    if text.len() > 0 {
        let last = text.len() - 1;
        let init = text.drop_last();
        assert(maps_text(mapping, init, sticky, a.drop_last())) by {
            assert forall|i: int| 0 <= i < init.len() implies maps(
                mapping,
                character_name(init[i]),
                character_modifiers(sticky, i),
                #[trigger] a.drop_last()[i],
            ) by {
                assert(a.drop_last()[i] == a[i]);
            }
        }
        assert(maps_text(mapping, init, sticky, b.drop_last())) by {
            assert forall|i: int| 0 <= i < init.len() implies maps(
                mapping,
                character_name(init[i]),
                character_modifiers(sticky, i),
                #[trigger] b.drop_last()[i],
            ) by {
                assert(b.drop_last()[i] == b[i]);
            }
        }
        lemma_sent_alike(mapping, init, sticky, a.drop_last(), b.drop_last());
        let name = character_name(text[last]);
        assert(maps(mapping, name, character_modifiers(sticky, last), a[last]));
        assert(maps(mapping, name, character_modifiers(sticky, last), b[last]));
    }
}

proof fn lemma_sent_joined(
    text: Seq<char>,
    more: Seq<char>,
    a: Seq<Option<Vec<u8>>>,
    b: Seq<Option<Vec<u8>>>,
)
    requires
        a.len() == text.len(),
        b.len() == more.len(),
    ensures
        sent_text(text + more, a + b) == sent_text(text, a) + sent_text(more, b),
    decreases more.len(),
{
    if more.len() == 0 {
        assert(text + more =~= text);
        assert(a + b =~= a);
        assert(sent_text(text, a) + sent_text(more, b) =~= sent_text(text, a));
    } else {
        lemma_sent_joined(text, more.drop_last(), a, b.drop_last());
        assert((text + more).drop_last() =~= text + more.drop_last());
        assert((a + b).drop_last() =~= a + b.drop_last());
        assert((text + more).last() == more.last());
        assert((a + b).last() == b.last());
        assert(sent_text(text + more, a + b) =~= sent_text(text, a) + sent_text(more, b));
    }
}

/// Sending a text at once or in two parts, the first of which is not empty, sends the
/// same bytes: sticky modifiers touch the first character only.
pub proof fn law_a_text_may_be_sent_in_parts<F: Fn(String, TermModifiers) -> Option<Vec<u8>>>(
    mapping: F,
    text: Seq<char>,
    more: Seq<char>,
    sticky: StickyModifiers,
    first: Seq<u8>,
    second: Seq<u8>,
    whole: Seq<u8>,
)
    requires
        is_function(mapping),
        text.len() > 0,
        may_send(mapping, text, sticky, first),
        may_send(mapping, more, held_after(text, sticky), second),
        may_send(mapping, text + more, sticky, whole),
    ensures
        whole == first + second,
        held_after(text + more, sticky) == StickyModifiers::cleared(),
        held_after(more, held_after(text, sticky)) == StickyModifiers::cleared(),
{
    let none = StickyModifiers::cleared();
    let a = choose|mapped: Seq<Option<Vec<u8>>>| #[trigger]
        maps_text(mapping, text, sticky, mapped) && first == sent_text(text, mapped);
    let b = choose|mapped: Seq<Option<Vec<u8>>>| #[trigger]
        maps_text(mapping, more, none, mapped) && second == sent_text(more, mapped);
    let all = choose|mapped: Seq<Option<Vec<u8>>>| #[trigger]
        maps_text(mapping, text + more, sticky, mapped) && whole == sent_text(text + more, mapped);
    assert(maps_text(mapping, text + more, sticky, a + b)) by {
        assert forall|i: int| 0 <= i < (text + more).len() implies maps(
            mapping,
            character_name((text + more)[i]),
            character_modifiers(sticky, i),
            #[trigger] (a + b)[i],
        ) by {
            if i < text.len() {
                assert((a + b)[i] == a[i]);
            } else {
                let j = i - text.len();
                assert((a + b)[i] == b[j]);
                assert((text + more)[i] == more[j]);
                assert(character_modifiers(none, j) == TermModifiers::none());
            }
        }
    }
    lemma_sent_alike(mapping, text + more, sticky, all, a + b);
    lemma_sent_joined(text, more, a, b);
}

/// An empty text sends nothing and leaves sticky modifiers armed.
pub proof fn law_an_empty_text_sends_nothing<F: Fn(String, TermModifiers) -> Option<Vec<u8>>>(
    mapping: F,
    sticky: StickyModifiers,
    bytes: Seq<u8>,
)
    requires
        may_send(mapping, Seq::empty(), sticky, bytes),
    ensures
        bytes.len() == 0,
        held_after(Seq::empty(), sticky) == sticky,
{
}

fn bytes_of(mapped: Option<Vec<u8>>, otherwise: &str) -> (bytes: Vec<u8>)
    ensures
        bytes@ == sent(mapped, otherwise@),
{
    match mapped {
        Some(bytes) => bytes,
        None => otherwise.as_bytes_vec(),
    }
}

fn push_bytes(into: &mut Vec<u8>, bytes: &Vec<u8>)
    ensures
        final(into)@ == old(into)@ + bytes@,
{
    let ghost before = into@;
    let mut i: usize = 0;
    while i < bytes.len()
        invariant
            i <= bytes@.len(),
            into@ == before + bytes@.take(i as int),
        decreases bytes@.len() - i,
    {
        into.push(bytes[i]);
        i += 1;
        assert(into@ =~= before + bytes@.take(i as int));
    }
    assert(bytes@.take(bytes@.len() as int) =~= bytes@);
}

impl TerminalKeyEncoder {
    pub fn new() -> (encoder: Self)
        ensures
            encoder.modifiers == StickyModifiers::cleared(),
    {
        TerminalKeyEncoder { modifiers: StickyModifiers::default() }
    }

    /// Encode a key of the bar. A combination carries its own Control. It still
    /// clears whatever was made sticky, so that Ctrl · Ctrl+C never encodes a
    /// double modifier and never leaves Ctrl armed for the next key.
    pub fn encode_key<F: Fn(String, TermModifiers) -> Option<Vec<u8>>>(
        &mut self,
        key: TerminalKey,
        mapping: F,
    ) -> (bytes: Vec<u8>)
        requires
            forall|name: String, modifiers: TermModifiers| #[trigger]
                call_requires(mapping, (name, modifiers)),
        ensures
            final(self).modifiers == StickyModifiers::cleared(),
            exists|mapped: Option<Vec<u8>>| #[trigger]
                maps(
                    mapping,
                    key.spec_mapping_name(),
                    key_modifiers(old(self).modifiers, key),
                    mapped,
                ) && bytes@ == sent(mapped, key.spec_mapping_name()),
            // Each key is asked for by its own name, with the modifiers that are held.
            ({
                let name = match key {
                    TerminalKey::Escape => "escape"@,
                    TerminalKey::Tab => "tab"@,
                    TerminalKey::Left => "left"@,
                    TerminalKey::Up => "up"@,
                    TerminalKey::Down => "down"@,
                    TerminalKey::Right => "right"@,
                    TerminalKey::Symbol(symbol) => seq![symbol],
                    TerminalKey::Control(symbol) => seq![symbol],
                };
                let modifiers = TermModifiers {
                    shift: false,
                    alt: old(self).modifiers.alt,
                    control: old(self).modifiers.control || key is Control,
                    platform: false,
                };
                answered(mapping, name, modifiers, bytes@)
            }),
    {
        let control = match key {
            TerminalKey::Control(_) => true,
            _ => false,
        };
        let name = key.mapping_name();
        let taken = self.modifiers.take();
        let modifiers = TermModifiers { control: taken.control || control, ..taken };
        let text = name.clone();
        let ghost asked = text;
        let mapped = mapping(text, modifiers);
        proof {
            assert(call_ensures(mapping, (asked, modifiers), mapped));
            assert(modifiers == key_modifiers(old(self).modifiers, key));
            assert(maps(mapping, key.spec_mapping_name(), modifiers, mapped));
        }
        let ghost answer = mapped;
        let bytes = bytes_of(mapped, name.as_str());
        assert(bytes@ == sent(answer, key.spec_mapping_name()));
        bytes
    }

    /// Encode committed software-keyboard text. Sticky modifiers apply to the
    /// first character only; every character still passes through the mapping.
    pub fn encode_text<F: Fn(String, TermModifiers) -> Option<Vec<u8>>>(
        &mut self,
        text: &str,
        mapping: F,
    ) -> (bytes: Vec<u8>)
        requires
            forall|name: String, modifiers: TermModifiers| #[trigger]
                call_requires(mapping, (name, modifiers)),
        ensures
            final(self).modifiers == held_after(text@, old(self).modifiers),
            may_send(mapping, text@, old(self).modifiers, bytes@),
    {
        let chars = characters(text);
        let mut bytes: Vec<u8> = Vec::new();
        let ghost mut mapped: Seq<Option<Vec<u8>>> = Seq::empty();
        let ghost sticky = self.modifiers;
        let mut i: usize = 0;
        proof {
            assert(chars@.take(0) =~= Seq::<char>::empty());
            assert(bytes@ =~= sent_text(chars@.take(0), mapped));
        }
        while i < chars.len()
            invariant
                i <= chars@.len(),
                chars@ == text@,
                sticky == old(self).modifiers,
                self.modifiers == if i == 0 {
                    sticky
                } else {
                    StickyModifiers::cleared()
                },
                forall|name: String, modifiers: TermModifiers| #[trigger]
                    call_requires(mapping, (name, modifiers)),
                mapped.len() == i,
                forall|j: int|
                    0 <= j < i ==> maps(
                        mapping,
                        character_name(chars@[j]),
                        character_modifiers(sticky, j),
                        #[trigger] mapped[j],
                    ),
                bytes@ == sent_text(chars@.take(i as int), mapped),
            decreases chars@.len() - i,
        {
            let character = chars[i];
            let name = if character == '\n' || character == '\r' {
                "enter".to_string()
            } else if character == '\t' {
                "tab".to_string()
            } else {
                one_character(character)
            };
            let modifiers = if i == 0 {
                self.modifiers.take()
            } else {
                TermModifiers::default()
            };
            let ghost asked = name;
            let answer = mapping(name, modifiers);
            let ghost before = mapped;
            proof {
                assert(call_ensures(mapping, (asked, modifiers), answer));
                assert(maps(mapping, character_name(character), modifiers, answer));
                mapped = mapped.push(answer);
                assert(mapped.drop_last() =~= before);
                assert(chars@.take(i + 1).drop_last() =~= chars@.take(i as int));
                assert(chars@.take(i + 1).last() == character);
                assert(mapped.last() == answer);
            }
            let literal = one_character(character);
            let encoded = bytes_of(answer, literal.as_str());
            push_bytes(&mut bytes, &encoded);
            i += 1;
            proof {
                assert forall|j: int| 0 <= j < i implies maps(
                    mapping,
                    character_name(chars@[j]),
                    character_modifiers(sticky, j),
                    #[trigger] mapped[j],
                ) by {
                    if j < i - 1 {
                        assert(mapped[j] == before[j]);
                    }
                }
            }
        }
        assert(chars@.take(chars@.len() as int) =~= chars@);
        assert(maps_text(mapping, text@, old(self).modifiers, mapped));
        bytes
    }

    /// Press the sticky Control or Alt key: it is armed, or no longer.
    pub fn toggle_modifier(&mut self, control: bool)
        ensures
            final(self).modifiers == if control {
                StickyModifiers { control: !old(self).modifiers.control, ..old(self).modifiers }
            } else {
                StickyModifiers { alt: !old(self).modifiers.alt, ..old(self).modifiers }
            },
    {
        if control {
            self.modifiers.control = !self.modifiers.control;
        } else {
            self.modifiers.alt = !self.modifiers.alt;
        }
    }
}

/// What pressing a key of the bar does.
#[derive(Clone, Copy, Debug, PartialEq, Eq, Structural)]
pub enum BarAction {
    Send(TerminalKey),
    /// Toggle the sticky Control, or Alt; `armed` says whether it is now.
    Modifier { control: bool, armed: bool },
}

/// One key of the bar: its element, what is written on it, and the key under
/// which its name is translated.
#[derive(Clone, Copy, Debug)]
pub struct BarKey {
    pub id: &'static str,
    pub label: &'static str,
    pub translation: &'static str,
    pub action: BarAction,
}

#[verifier::ext_equal]
pub struct BarKeyModel {
    pub id: Seq<char>,
    pub label: Seq<char>,
    pub translation: Seq<char>,
    pub action: BarAction,
}

impl View for BarKey {
    type V = BarKeyModel;

    open spec fn view(&self) -> BarKeyModel {
        BarKeyModel {
            id: self.id@,
            label: self.label@,
            translation: self.translation@,
            action: self.action,
        }
    }
}

pub open spec fn keys_model(keys: Seq<BarKey>) -> Seq<BarKeyModel> {
    Seq::new(keys.len(), |i: int| keys[i]@)
}

pub open spec fn bar_key(
    id: Seq<char>,
    label: Seq<char>,
    translation: Seq<char>,
    action: BarAction,
) -> BarKeyModel {
    BarKeyModel { id, label, translation, action }
}

pub open spec fn bar_symbol(id: Seq<char>, label: Seq<char>, symbol: char) -> BarKeyModel {
    bar_key(id, label, "terminal.key_symbol"@, BarAction::Send(TerminalKey::Symbol(symbol)))
}

fn send_key(
    id: &'static str,
    label: &'static str,
    translation: &'static str,
    key: TerminalKey,
) -> (entry:
    BarKey)
    ensures
        entry@ == bar_key(id@, label@, translation@, BarAction::Send(key)),
{
    BarKey { id, label, translation, action: BarAction::Send(key) }
}

fn symbol_key(id: &'static str, label: &'static str, symbol: char) -> (entry: BarKey)
    ensures
        entry@ == bar_symbol(id@, label@, symbol),
{
    send_key(id, label, "terminal.key_symbol", TerminalKey::Symbol(symbol))
}

/// The scrolling symbols, ordered by how often a shell line needs the character:
/// what falls past the scroll edge is what is reached for least.
pub open spec fn symbols_model() -> Seq<BarKeyModel> {
    seq![
        bar_symbol("terminal-key-dash"@, "-"@, '-'),
        bar_symbol("terminal-key-slash"@, "/"@, '/'),
        bar_symbol("terminal-key-pipe"@, "|"@, '|'),
        bar_symbol("terminal-key-tilde"@, "~"@, '~'),
        bar_symbol("terminal-key-colon"@, ":"@, ':'),
        bar_symbol("terminal-key-period"@, "."@, '.'),
        bar_symbol("terminal-key-underscore"@, "_"@, '_'),
    ]
}

/// The keys that stay in place while the others scroll.
pub open spec fn pinned_model(sticky: StickyModifiers) -> Seq<BarKeyModel> {
    seq![
        bar_key(
            "terminal-key-escape"@,
            "Esc"@,
            "terminal.key_escape"@,
            BarAction::Send(TerminalKey::Escape),
        ),
        bar_key(
            "terminal-key-tab"@,
            "Tab"@,
            "terminal.key_tab"@,
            BarAction::Send(TerminalKey::Tab),
        ),
        bar_key(
            "terminal-key-control"@,
            "Ctrl"@,
            "terminal.key_control"@,
            BarAction::Modifier { control: true, armed: sticky.control },
        ),
        bar_key(
            "terminal-key-alt"@,
            "Alt"@,
            "terminal.key_alt"@,
            BarAction::Modifier { control: false, armed: sticky.alt },
        ),
    ]
}

/// The arrows, then the two combinations next to them.
pub open spec fn arrows_model() -> Seq<BarKeyModel> {
    seq![
        bar_key(
            "terminal-key-left"@,
            "←"@,
            "terminal.key_left"@,
            BarAction::Send(TerminalKey::Left),
        ),
        bar_key("terminal-key-up"@, "↑"@, "terminal.key_up"@, BarAction::Send(TerminalKey::Up)),
        bar_key(
            "terminal-key-down"@,
            "↓"@,
            "terminal.key_down"@,
            BarAction::Send(TerminalKey::Down),
        ),
        bar_key(
            "terminal-key-right"@,
            "→"@,
            "terminal.key_right"@,
            BarAction::Send(TerminalKey::Right),
        ),
        bar_key(
            "terminal-key-ctrl-c"@,
            "^C"@,
            "terminal.key_ctrl_c"@,
            BarAction::Send(TerminalKey::Control('c')),
        ),
        bar_key(
            "terminal-key-ctrl-d"@,
            "^D"@,
            "terminal.key_ctrl_d"@,
            BarAction::Send(TerminalKey::Control('d')),
        ),
    ]
}

impl TerminalKeyEncoder {
    /// The pinned keys of the bar.
    pub fn pinned_keys(&self) -> (keys: Vec<BarKey>)
        ensures
            keys_model(keys@) == pinned_model(self.modifiers),
    {
        let keys = vec![
            send_key("terminal-key-escape", "Esc", "terminal.key_escape", TerminalKey::Escape),
            send_key("terminal-key-tab", "Tab", "terminal.key_tab", TerminalKey::Tab),
            BarKey {
                id: "terminal-key-control",
                label: "Ctrl",
                translation: "terminal.key_control",
                action: BarAction::Modifier { control: true, armed: self.modifiers.control },
            },
            BarKey {
                id: "terminal-key-alt",
                label: "Alt",
                translation: "terminal.key_alt",
                action: BarAction::Modifier { control: false, armed: self.modifiers.alt },
            },
        ];
        assert(keys_model(keys@) =~= pinned_model(self.modifiers));
        keys
    }
}

pub fn symbol_keys() -> (keys: Vec<BarKey>)
    ensures
        keys_model(keys@) == symbols_model(),
{
    let keys = vec![
        symbol_key("terminal-key-dash", "-", '-'),
        symbol_key("terminal-key-slash", "/", '/'),
        symbol_key("terminal-key-pipe", "|", '|'),
        symbol_key("terminal-key-tilde", "~", '~'),
        symbol_key("terminal-key-colon", ":", ':'),
        symbol_key("terminal-key-period", ".", '.'),
        symbol_key("terminal-key-underscore", "_", '_'),
    ];
    assert(keys_model(keys@) =~= symbols_model());
    keys
}

/// The keys that scroll: arrows, combinations, symbols.
pub fn scrolling_keys() -> (keys: Vec<BarKey>)
    ensures
        keys_model(keys@) == arrows_model() + symbols_model(),
{
    let mut keys = vec![
        send_key("terminal-key-left", "←", "terminal.key_left", TerminalKey::Left),
        send_key("terminal-key-up", "↑", "terminal.key_up", TerminalKey::Up),
        send_key("terminal-key-down", "↓", "terminal.key_down", TerminalKey::Down),
        send_key("terminal-key-right", "→", "terminal.key_right", TerminalKey::Right),
        send_key("terminal-key-ctrl-c", "^C", "terminal.key_ctrl_c", TerminalKey::Control('c')),
        send_key("terminal-key-ctrl-d", "^D", "terminal.key_ctrl_d", TerminalKey::Control('d')),
    ];
    assert(keys_model(keys@) =~= arrows_model());
    let mut symbols = symbol_keys();
    let ghost before = keys@;
    let ghost tail = symbols@;
    keys.append(&mut symbols);
    assert(keys_model(keys@) =~= keys_model(before) + keys_model(tail));
    keys
}

/// Whether the bar is shown: for a focused terminal that is typed into on glass.
pub fn should_show_terminal_key_bar(
    terminal_focused: bool,
    uses_soft_keyboard: bool,
) -> (shown: bool)
    ensures
        shown == (uses_soft_keyboard && terminal_focused),
{
    uses_soft_keyboard && terminal_focused
}

/// Sticky modifiers apply to one key and are then cleared: the key after it is
/// mapped with none of them.
pub proof fn law_sticky_modifiers_apply_once(
    sticky: StickyModifiers,
    key: TerminalKey,
    next: TerminalKey,
)
    ensures
        key_modifiers(sticky, key).alt == sticky.alt,
        key_modifiers(sticky, key).control == (sticky.control || key is Control),
        key_modifiers(StickyModifiers::cleared(), next) == (TermModifiers {
            control: next is Control,
            ..TermModifiers::none()
        }),
{
}

/// A sticky Control on top of a combination is still one Control.
pub proof fn law_a_combination_is_not_doubled(sticky: StickyModifiers, symbol: char)
    requires
        !sticky.alt,
    ensures
        key_modifiers(sticky, TerminalKey::Control(symbol)) == key_modifiers(
            StickyModifiers::cleared(),
            TerminalKey::Control(symbol),
        ),
{
}

/// The keys of the bar are known to the mapping by their own names, all different; a
/// symbol, and the symbol of a combination, by itself.
pub proof fn law_keys_are_known_by_their_own_names(symbol: char)
    ensures
        TerminalKey::Escape.spec_mapping_name() == "escape"@,
        TerminalKey::Tab.spec_mapping_name() == "tab"@,
        TerminalKey::Left.spec_mapping_name() == "left"@,
        TerminalKey::Up.spec_mapping_name() == "up"@,
        TerminalKey::Down.spec_mapping_name() == "down"@,
        TerminalKey::Right.spec_mapping_name() == "right"@,
        TerminalKey::Symbol(symbol).spec_mapping_name() == seq![symbol],
        TerminalKey::Control(symbol).spec_mapping_name() == seq![symbol],
        forall|a: TerminalKey, b: TerminalKey|
            !(a is Symbol || a is Control || b is Symbol || b is Control) && a != b ==> #[trigger]
            a.spec_mapping_name() != #[trigger] b.spec_mapping_name(),
{
    reveal_strlit("escape");
    reveal_strlit("tab");
    reveal_strlit("left");
    reveal_strlit("up");
    reveal_strlit("down");
    reveal_strlit("right");
    assert("escape"@.len() == 6 && "tab"@.len() == 3 && "left"@.len() == 4);
    assert("up"@.len() == 2 && "down"@.len() == 4 && "right"@.len() == 5);
    assert("left"@[0] == 'l' && "down"@[0] == 'd');
}

/// A character that is typed is asked of the mapping under its own name: the two that end
/// lines as Enter, the one that moves to the next stop as Tab, any other as itself. The
/// first takes the modifiers that are held, the others take none; what the mapping does not
/// know is sent as it is.
pub proof fn law_typed_characters_are_asked_by_name<F: Fn(String, TermModifiers) -> Option<Vec<u8>>>(
    mapping: F,
    text: Seq<char>,
    sticky: StickyModifiers,
    bytes: Seq<u8>,
    c: char,
    name: Seq<char>,
    modifiers: TermModifiers,
)
    requires
        may_send(mapping, text.push(c), sticky, bytes),
        name == if c == '\n' || c == '\r' {
            "enter"@
        } else if c == '\t' {
            "tab"@
        } else {
            seq![c]
        },
        modifiers == (TermModifiers {
            shift: false,
            alt: text.len() == 0 && sticky.alt,
            control: text.len() == 0 && sticky.control,
            platform: false,
        }),
    ensures
        exists|before: Seq<u8>, mapped: Option<Vec<u8>>|
            {
                &&& #[trigger] may_send(mapping, text, sticky, before)
                &&& #[trigger] maps(mapping, name, modifiers, mapped)
                &&& bytes == before + (match mapped {
                    Some(answer) => answer@,
                    None => encode_utf8(seq![c]),
                })
            },
{
    let all = text.push(c);
    let mapped = choose|mapped: Seq<Option<Vec<u8>>>| #[trigger]
        maps_text(mapping, all, sticky, mapped) && bytes == sent_text(all, mapped);
    assert(all.drop_last() =~= text);
    let init = mapped.drop_last();
    assert(maps_text(mapping, text, sticky, init)) by {
        assert forall|i: int| 0 <= i < text.len() implies maps(
            mapping,
            character_name(text[i]),
            character_modifiers(sticky, i),
            #[trigger] init[i],
        ) by {
            assert(init[i] == mapped[i]);
            assert(all[i] == text[i]);
        }
    }
    let before = sent_text(text, init);
    assert(may_send(mapping, text, sticky, before));
    let answer = mapped[text.len() as int];
    assert(maps(
        mapping,
        character_name(all[text.len() as int]),
        character_modifiers(sticky, text.len() as int),
        answer,
    ));
    assert(mapped.last() == answer);
}

/// Whether a key of the bar is there under an id, with a label, and sends what it says.
pub open spec fn on_bar(
    keys: Seq<BarKeyModel>,
    at: int,
    id: Seq<char>,
    label: Seq<char>,
    translation: Seq<char>,
    key: TerminalKey,
) -> bool {
    0 <= at < keys.len() && keys[at] == (BarKeyModel {
        id,
        label,
        translation,
        action: BarAction::Send(key),
    })
}

/// The bar has its keys in order, and each sends what is written on it.
pub proof fn law_the_bar_sends_what_its_keys_say(sticky: StickyModifiers)
    ensures
        ({
            let pinned = pinned_model(sticky);
            let arrows = arrows_model();
            let symbols = symbols_model();
            let symbol = "terminal.key_symbol"@;
            &&& pinned.len() == 4 && arrows.len() == 6 && symbols.len() == 7
            &&& on_bar(
                pinned,
                0,
                "terminal-key-escape"@,
                "Esc"@,
                "terminal.key_escape"@,
                TerminalKey::Escape,
            )
            &&& on_bar(
                pinned,
                1,
                "terminal-key-tab"@,
                "Tab"@,
                "terminal.key_tab"@,
                TerminalKey::Tab,
            )
            &&& pinned[2].label == "Ctrl"@ && pinned[2].action == (BarAction::Modifier {
                control: true,
                armed: sticky.control,
            })
            &&& pinned[3].label == "Alt"@ && pinned[3].action == (BarAction::Modifier {
                control: false,
                armed: sticky.alt,
            })
            &&& on_bar(
                arrows,
                0,
                "terminal-key-left"@,
                "←"@,
                "terminal.key_left"@,
                TerminalKey::Left,
            )
            &&& on_bar(arrows, 1, "terminal-key-up"@, "↑"@, "terminal.key_up"@, TerminalKey::Up)
            &&& on_bar(
                arrows,
                2,
                "terminal-key-down"@,
                "↓"@,
                "terminal.key_down"@,
                TerminalKey::Down,
            )
            &&& on_bar(
                arrows,
                3,
                "terminal-key-right"@,
                "→"@,
                "terminal.key_right"@,
                TerminalKey::Right,
            )
            &&& on_bar(
                arrows,
                4,
                "terminal-key-ctrl-c"@,
                "^C"@,
                "terminal.key_ctrl_c"@,
                TerminalKey::Control('c'),
            )
            &&& on_bar(
                arrows,
                5,
                "terminal-key-ctrl-d"@,
                "^D"@,
                "terminal.key_ctrl_d"@,
                TerminalKey::Control('d'),
            )
            &&& on_bar(symbols, 0, "terminal-key-dash"@, "-"@, symbol, TerminalKey::Symbol('-'))
            &&& on_bar(symbols, 1, "terminal-key-slash"@, "/"@, symbol, TerminalKey::Symbol('/'))
            &&& on_bar(symbols, 2, "terminal-key-pipe"@, "|"@, symbol, TerminalKey::Symbol('|'))
            &&& on_bar(symbols, 3, "terminal-key-tilde"@, "~"@, symbol, TerminalKey::Symbol('~'))
            &&& on_bar(symbols, 4, "terminal-key-colon"@, ":"@, symbol, TerminalKey::Symbol(':'))
            &&& on_bar(symbols, 5, "terminal-key-period"@, "."@, symbol, TerminalKey::Symbol('.'))
            &&& on_bar(
                symbols,
                6,
                "terminal-key-underscore"@,
                "_"@,
                symbol,
                TerminalKey::Symbol('_'),
            )
        }),
{
}

} // verus!
