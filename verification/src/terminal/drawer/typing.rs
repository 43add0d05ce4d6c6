//! Keys, composed text, pasted and dropped text, and what terminals announce.
use crate::terminal::drawer::{
    effects_model, emit, no_effects, shortcut, terminal_clipboard_shortcut, ClipboardShortcut,
    DrawerEffect, DrawerModel, Effect, EffectModel, MarkedText, Modifiers, TerminalDrawer,
};
use crate::terminal::key_bar::{
    key_modifiers, maps, maps_text, sent, sent_text, StickyModifiers,
    TermModifiers, TerminalKey,
};
use crate::terminal::paste::{pasted, prepare_terminal_paste, quoted, shell_quote};
use crate::utf16::{count_utf16, utf16_len};
use crate::window_seam::Platform;
use vstd::prelude::*;
use vstd::string::{StrSliceExecFns, StringExecFns};

verus! {

/// The terminal that keys go to.
pub struct ActivePane {
    pub terminal_id: u64,
    pub bracketed_paste: bool,
    pub selected_text: Option<String>,
}

pub open spec fn active_id(active: Option<&ActivePane>) -> Option<u64> {
    match active {
        Some(pane) => Some(pane.terminal_id),
        None => None,
    }
}

impl DrawerModel {
    /// The drawer after input to the active terminal: its cursor shows and its
    /// bell is answered.
    pub open spec fn noted(self, now: u64, active: Option<u64>) -> DrawerModel {
        DrawerModel {
            last_input: now,
            cursor_phase: true,
            bell_tabs: match active {
                Some(id) => self.bell_tabs.remove(id),
                None => self.bell_tabs,
            },
            ..self
        }
    }
}

/// What a key does once it is noted, `encoded` being what the key mapping says of
/// it for the active terminal.
pub open spec fn key_effects(
    found: Option<ClipboardShortcut>,
    active: Option<&ActivePane>,
    clipboard: Option<&str>,
    encoded: Option<Seq<u8>>,
) -> Seq<EffectModel> {
    match found {
        Some(ClipboardShortcut::Copy) => (match active {
            Some(pane) => match pane.selected_text {
                Some(text) => seq![EffectModel::CopyToClipboard { text: text@ }],
                None => Seq::empty(),
            },
            None => Seq::empty(),
        }).push(EffectModel::StopPropagation),
        Some(ClipboardShortcut::Paste) => (match (active, clipboard) {
            (Some(pane), Some(text)) => seq![
                EffectModel::Input {
                    terminal_id: pane.terminal_id,
                    text: pasted(text@, pane.bracketed_paste),
                },
            ],
            _ => Seq::empty(),
        }).push(EffectModel::StopPropagation),
        None => match (active, encoded) {
            (Some(pane), Some(bytes)) => seq![
                EffectModel::Bytes { terminal_id: pane.terminal_id, bytes },
                EffectModel::StopPropagation,
            ],
            _ => Seq::empty(),
        },
    }
}

pub open spec fn bytes_model(bytes: Option<Vec<u8>>) -> Option<Seq<u8>> {
    match bytes {
        Some(b) => Some(b@),
        None => None,
    }
}

/// What committing text that is sent as `bytes` does.
pub open spec fn commit_effects(terminal_id: u64, bytes: Seq<u8>) -> Seq<EffectModel> {
    (if bytes.len() > 0 {
        seq![EffectModel::Bytes { terminal_id, bytes }]
    } else {
        Seq::empty()
    }) + seq![EffectModel::Notify, EffectModel::InvalidateCoordinates]
}

impl TerminalDrawer {
    /// Note that the active terminal was typed into.
    pub fn note_input(&mut self, now: u64, active: Option<u64>)
        ensures
            final(self)@ == old(self)@.noted(now, active),
    {
        self.last_input = now;
        self.cursor_phase = true;
        if let Some(id) = active {
            self.bell_tabs.remove(&id);
        }
        assert(self@ =~= old(self)@.noted(now, active));
    }

    /// A key goes down. What is not a clipboard shortcut and has no encoding is
    /// left to whatever else takes keys, such as composition.
    pub fn on_key_down(
        &mut self,
        key: &str,
        modifiers: Modifiers,
        platform: Platform,
        now: u64,
        active: Option<&ActivePane>,
        clipboard: Option<&str>,
        encoded: Option<Vec<u8>>,
    ) -> (effects: Vec<DrawerEffect>)
        ensures
            final(self)@ == old(self)@.noted(now, active_id(active)),
            effects_model(effects@) == seq![EffectModel::Notify] + key_effects(
                shortcut(key@, modifiers, platform == Platform::MacOs),
                active,
                clipboard,
                bytes_model(encoded),
            ),
    {
        let id = match active {
            Some(pane) => Some(pane.terminal_id),
            None => None,
        };
        self.note_input(now, id);
        let mut effects = no_effects();
        emit(&mut effects, Effect::Notify);
        let ghost expected = seq![EffectModel::Notify] + key_effects(
            shortcut(key@, modifiers, platform == Platform::MacOs),
            active,
            clipboard,
            bytes_model(encoded),
        );
        match terminal_clipboard_shortcut(key, modifiers, platform == Platform::MacOs) {
            Some(ClipboardShortcut::Copy) => {
                if let Some(pane) = active {
                    if let Some(text) = &pane.selected_text {
                        emit(&mut effects, Effect::CopyToClipboard { text: text.clone() });
                    }
                }
                emit(&mut effects, Effect::StopPropagation);
            },
            Some(ClipboardShortcut::Paste) => {
                if let (Some(pane), Some(text)) = (active, clipboard) {
                    let typed = prepare_terminal_paste(text, pane.bracketed_paste);
                    emit(&mut effects, Effect::Input { terminal_id: pane.terminal_id, text: typed });
                }
                emit(&mut effects, Effect::StopPropagation);
            },
            None => {
                if let (Some(pane), Some(bytes)) = (active, encoded) {
                    emit(&mut effects, Effect::Bytes { terminal_id: pane.terminal_id, bytes });
                    emit(&mut effects, Effect::StopPropagation);
                }
            },
        }
        assert(effects_model(effects@) =~= expected);
        effects
    }

    /// Send a key of the key bar to the active terminal.
    pub fn send_key_bar_key<F: Fn(String, TermModifiers) -> Option<Vec<u8>>>(
        &mut self,
        key: TerminalKey,
        mapping: F,
        now: u64,
        active: Option<u64>,
    ) -> (effects: Vec<DrawerEffect>)
        requires
            forall|name: String, modifiers: TermModifiers| #[trigger]
                call_requires(mapping, (name, modifiers)),
        ensures
            match active {
                None => final(self)@ == old(self)@ && effects@.len() == 0,
                Some(terminal_id) => {
                    &&& final(self)@ == (DrawerModel {
                        sticky: StickyModifiers::cleared(),
                        ..old(self)@
                    }).noted(now, active)
                    &&& exists|mapped: Option<Vec<u8>>| #[trigger]
                        maps(
                            mapping,
                            key.spec_mapping_name(),
                            key_modifiers(old(self)@.sticky, key),
                            mapped,
                        ) && effects_model(effects@) == seq![
                            EffectModel::Bytes {
                                terminal_id,
                                bytes: sent(mapped, key.spec_mapping_name()),
                            },
                            EffectModel::Notify,
                        ]
                },
            },
    {
        let mut effects = no_effects();
        if let Some(terminal_id) = active {
            let bytes = self.key_encoder.encode_key(key, mapping);
            let ghost mapped = choose|mapped: Option<Vec<u8>>| #[trigger]
                maps(
                    mapping,
                    key.spec_mapping_name(),
                    key_modifiers(old(self)@.sticky, key),
                    mapped,
                ) && bytes@ == sent(mapped, key.spec_mapping_name());
            emit(&mut effects, Effect::Bytes { terminal_id, bytes });
            self.note_input(now, active);
            emit(&mut effects, Effect::Notify);
            assert(maps(
                mapping,
                key.spec_mapping_name(),
                key_modifiers(old(self)@.sticky, key),
                mapped,
            ));
            assert(effects_model(effects@) =~= seq![
                EffectModel::Bytes { terminal_id, bytes: sent(mapped, key.spec_mapping_name()) },
                EffectModel::Notify,
            ]);
        } else {
            assert(effects_model(effects@).len() == effects@.len());
        }
        effects
    }

    /// Commit text to a terminal, `present` saying whether it is still there: the
    /// composition ends, and the text goes through the key mapping.
    pub fn replace_text_in_range<F: Fn(String, TermModifiers) -> Option<Vec<u8>>>(
        &mut self,
        terminal_id: u64,
        text: &str,
        mapping: F,
        now: u64,
        present: bool,
    ) -> (effects: Vec<DrawerEffect>)
        requires
            forall|name: String, modifiers: TermModifiers| #[trigger]
                call_requires(mapping, (name, modifiers)),
        ensures
            final(self)@ == (DrawerModel {
                marked_text: None,
                sticky: if text@.len() > 0 && present {
                    StickyModifiers::cleared()
                } else {
                    old(self)@.sticky
                },
                ..old(self)@
            }).noted(now, Some(terminal_id)),
            if present {
                exists|mapped: Seq<Option<Vec<u8>>>| #[trigger]
                    maps_text(mapping, text@, old(self)@.sticky, mapped) && effects_model(effects@)
                        == commit_effects(terminal_id, sent_text(text@, mapped))
            } else {
                effects_model(effects@) == commit_effects(terminal_id, Seq::empty())
            },
    {
        self.marked_text = None;
        self.note_input(now, Some(terminal_id));
        let mut effects = no_effects();
        let ghost mut typed: Seq<u8> = Seq::empty();
        if text.unicode_len() > 0 && present {
            let bytes = self.key_encoder.encode_text(text, mapping);
            proof {
                typed = bytes@;
            }
            if bytes.len() > 0 {
                emit(&mut effects, Effect::Bytes { terminal_id, bytes });
            }
        } else if present {
            let ghost mapped: Seq<Option<Vec<u8>>> = Seq::empty();
            assert(maps_text(mapping, text@, old(self)@.sticky, mapped));
            assert(sent_text(text@, mapped) =~= typed);
        }
        emit(&mut effects, Effect::Notify);
        emit(&mut effects, Effect::InvalidateCoordinates);
        assert(effects_model(effects@) =~= commit_effects(terminal_id, typed));
        assert(self@ =~= (DrawerModel {
            marked_text: None,
            sticky: if text@.len() > 0 && present {
                StickyModifiers::cleared()
            } else {
                old(self)@.sticky
            },
            ..old(self)@
        }).noted(now, Some(terminal_id)));
        effects
    }

    /// Compose text over a terminal's cursor; empty text ends the composition.
    pub fn replace_and_mark_text_in_range(&mut self, terminal_id: u64, new_text: &str) -> (effects:
        Vec<DrawerEffect>)
        ensures
            final(self)@ == (DrawerModel {
                marked_text: if new_text@.len() == 0 {
                    None
                } else {
                    Some((terminal_id, new_text@))
                },
                ..old(self)@
            }),
            effects_model(effects@) == seq![EffectModel::Notify, EffectModel::InvalidateCoordinates],
    {
        self.marked_text = if new_text.unicode_len() == 0 {
            None
        } else {
            Some(MarkedText { terminal_id, text: new_text.to_string() })
        };
        let mut effects = no_effects();
        emit(&mut effects, Effect::Notify);
        emit(&mut effects, Effect::InvalidateCoordinates);
        assert(effects_model(effects@) =~= seq![EffectModel::Notify, EffectModel::InvalidateCoordinates]);
        effects
    }

    /// End the composition over a terminal.
    pub fn unmark_text(&mut self, terminal_id: u64) -> (effects: Vec<DrawerEffect>)
        ensures
            ({
                let here = old(self)@.composes(terminal_id);
                &&& final(self)@ == if here {
                    (DrawerModel { marked_text: None, ..old(self)@ })
                } else {
                    old(self)@
                }
                &&& effects_model(effects@) == if here {
                    seq![EffectModel::Notify, EffectModel::InvalidateCoordinates]
                } else {
                    seq![EffectModel::InvalidateCoordinates]
                }
            }),
    {
        let mut effects = no_effects();
        let here = match &self.marked_text {
            Some(marked) => marked.terminal_id == terminal_id,
            None => false,
        };
        if here {
            self.marked_text = None;
            emit(&mut effects, Effect::Notify);
        }
        emit(&mut effects, Effect::InvalidateCoordinates);
        assert(effects_model(effects@) =~= if here {
            seq![EffectModel::Notify, EffectModel::InvalidateCoordinates]
        } else {
            seq![EffectModel::InvalidateCoordinates]
        });
        effects
    }

    /// The length of the text composed over a terminal, in UTF-16 code units.
    pub fn marked_text_range(&self, terminal_id: u64) -> (end: Option<usize>)
        ensures
            match (end, self@.marked_text) {
                (Some(n), Some(marked)) => marked.0 == terminal_id && n == utf16_len(marked.1),
                (Some(_), None) => false,
                (None, _) => !self@.composes(terminal_id),
            },
    {
        match &self.marked_text {
            Some(marked) => if marked.terminal_id == terminal_id {
                Some(count_utf16(marked.text.as_str()))
            } else {
                None
            },
            None => None,
        }
    }
}

impl DrawerModel {
    /// Whether text is composed over a terminal's cursor.
    pub open spec fn composes(self, terminal_id: u64) -> bool {
        match self.marked_text {
            Some(marked) => marked.0 == terminal_id,
            None => false,
        }
    }
}

/// Text that a program asked to put on a clipboard.
pub struct ClipboardNotice {
    pub text: String,
    /// Whether it is for the primary selection.
    pub selection: bool,
}

/// What a terminal announced with its last changes.
pub struct TerminalNotice {
    pub terminal_id: u64,
    pub bell: bool,
    pub clipboard: Option<ClipboardNotice>,
}

/// What an announcement does. The primary selection is never put on the system
/// clipboard in its place.
pub open spec fn notice_effects(notice: TerminalNotice) -> Seq<EffectModel> {
    (if notice.bell {
        seq![EffectModel::PlayBell]
    } else {
        Seq::empty()
    }) + (match notice.clipboard {
        Some(clipboard) => if clipboard.selection {
            Seq::empty()
        } else {
            seq![EffectModel::CopyToClipboard { text: clipboard.text@ }]
        },
        None => Seq::empty(),
    })
}

pub open spec fn notices_effects(notices: Seq<TerminalNotice>) -> Seq<EffectModel>
    decreases notices.len(),
{
    if notices.len() == 0 {
        Seq::empty()
    } else {
        notices_effects(notices.drop_last()) + notice_effects(notices.last())
    }
}

pub open spec fn rung(bells: Set<u64>, notices: Seq<TerminalNotice>) -> Set<u64>
    decreases notices.len(),
{
    if notices.len() == 0 {
        bells
    } else if notices.last().bell {
        rung(bells, notices.drop_last()).insert(notices.last().terminal_id)
    } else {
        rung(bells, notices.drop_last())
    }
}

impl TerminalDrawer {
    /// Apply the bells and clipboard texts that came with the latest changes.
    pub fn drain_terminal_notices(&mut self, notices: &Vec<TerminalNotice>) -> (effects: Vec<
        DrawerEffect,
    >)
        ensures
            final(self)@ == (DrawerModel {
                bell_tabs: rung(old(self)@.bell_tabs, notices@),
                ..old(self)@
            }),
            effects_model(effects@) == notices_effects(notices@).push(
                EffectModel::InvalidateCoordinates,
            ),
    {
        let mut effects = no_effects();
        let mut i: usize = 0;
        assert(notices@.take(0) =~= Seq::<TerminalNotice>::empty());
        while i < notices.len()
            invariant
                i <= notices@.len(),
                self@ == (DrawerModel {
                    bell_tabs: rung(old(self)@.bell_tabs, notices@.take(i as int)),
                    ..old(self)@
                }),
                effects_model(effects@) == notices_effects(notices@.take(i as int)),
            decreases notices@.len() - i,
        {
            let notice = &notices[i];
            proof {
                assert(notices@.take(i + 1).drop_last() =~= notices@.take(i as int));
                assert(notices@.take(i + 1).last() == *notice);
            }
            let ghost before = effects_model(effects@);
            if notice.bell {
                self.bell_tabs.insert(notice.terminal_id);
                emit(&mut effects, Effect::PlayBell);
            }
            if let Some(clipboard) = &notice.clipboard {
                if !clipboard.selection {
                    emit(&mut effects, Effect::CopyToClipboard { text: clipboard.text.clone() });
                }
            }
            assert(effects_model(effects@) =~= before + notice_effects(*notice));
            i += 1;
        }
        assert(notices@.take(notices@.len() as int) =~= notices@);
        emit(&mut effects, Effect::InvalidateCoordinates);
        effects
    }
}

/// Paste into a terminal, where it is still there: `bracketed_paste` says whether
/// its program takes pastes in brackets.
pub fn paste_to_terminal(
    terminal_id: u64,
    content: &str,
    bracketed_paste: Option<bool>,
) -> (effects:
    Vec<DrawerEffect>)
    ensures
        effects_model(effects@) == (match bracketed_paste {
            Some(bracketed) => seq![
                EffectModel::Input { terminal_id, text: pasted(content@, bracketed) },
            ],
            None => Seq::empty(),
        }),
{
    let mut effects = no_effects();
    if let Some(bracketed) = bracketed_paste {
        let typed = prepare_terminal_paste(content, bracketed);
        emit(&mut effects, Effect::Input { terminal_id, text: typed });
        assert(effects_model(effects@) =~= seq![
            EffectModel::Input { terminal_id, text: pasted(content@, bracketed) },
        ]);
    }
    effects
}

/// Copy what is selected in a terminal.
pub fn on_terminal_copy(selected_text: Option<&String>) -> (effects: Vec<DrawerEffect>)
    ensures
        effects_model(effects@) == (match selected_text {
            Some(text) => seq![EffectModel::CopyToClipboard { text: text@ }],
            None => Seq::empty(),
        }),
{
    let mut effects = no_effects();
    if let Some(text) = selected_text {
        emit(&mut effects, Effect::CopyToClipboard { text: text.clone() });
        assert(effects_model(effects@) =~= seq![EffectModel::CopyToClipboard { text: text@ }]);
    }
    effects
}

/// Paths as words of a shell, a space between them.
pub open spec fn quoted_words(paths: Seq<String>) -> Seq<char>
    decreases paths.len(),
{
    if paths.len() == 0 {
        Seq::empty()
    } else {
        let word = quoted(paths.last()@);
        if paths.len() == 1 {
            word
        } else {
            quoted_words(paths.drop_last()) + seq![' '] + word
        }
    }
}

/// Drop files on a terminal: their quoted paths are pasted, a space on each side.
pub fn drop_paths(terminal_id: u64, paths: &Vec<String>, bracketed_paste: Option<bool>) -> (effects:
    Vec<DrawerEffect>)
    ensures
        effects_model(effects@) == if paths@.len() == 0 {
            Seq::empty()
        } else {
            seq![EffectModel::Focus] + (match bracketed_paste {
                Some(bracketed) => seq![
                    EffectModel::Input {
                        terminal_id,
                        text: pasted(seq![' '] + quoted_words(paths@) + seq![' '], bracketed),
                    },
                ],
                None => Seq::empty(),
            })
        },
{
    let mut effects = no_effects();
    if paths.len() == 0 {
        return effects;
    }
    emit(&mut effects, Effect::Focus);
    let mut words = String::new();
    words.push(' ');
    let mut i: usize = 0;
    assert(paths@.take(0) =~= Seq::<String>::empty());
    assert(words@ =~= seq![' '] + quoted_words(paths@.take(0)));
    while i < paths.len()
        invariant
            i <= paths@.len(),
            words@ == seq![' '] + quoted_words(paths@.take(i as int)),
        decreases paths@.len() - i,
    {
        proof {
            assert(paths@.take(i + 1).drop_last() =~= paths@.take(i as int));
            assert(paths@.take(i + 1).last() == paths@[i as int]);
        }
        if i > 0 {
            words.push(' ');
        }
        let word = shell_quote(paths[i].as_str());
        words.append(word.as_str());
        i += 1;
        assert(words@ =~= seq![' '] + quoted_words(paths@.take(i as int)));
    }
    assert(paths@.take(paths@.len() as int) =~= paths@);
    words.push(' ');
    if let Some(bracketed) = bracketed_paste {
        assert(words@ =~= seq![' '] + quoted_words(paths@) + seq![' ']);
        let typed = prepare_terminal_paste(words.as_str(), bracketed);
        emit(&mut effects, Effect::Input { terminal_id, text: typed });
    }
    assert(effects_model(effects@) =~= seq![EffectModel::Focus] + (match bracketed_paste {
        Some(bracketed) => seq![
            EffectModel::Input {
                terminal_id,
                text: pasted(seq![' '] + quoted_words(paths@) + seq![' '], bracketed),
            },
        ],
        None => Seq::empty(),
    }));
    effects
}

/// What a program that asked to hear of focus is sent when it changes.
pub fn focus_report(focus_in_out: bool, focused: bool) -> (bytes: Option<Vec<u8>>)
    ensures
        match bytes {
            Some(sequence) => focus_in_out && sequence@ == seq![
                0x1bu8,
                0x5bu8,
                if focused {
                    0x49u8
                } else {
                    0x4fu8
                },
            ],
            None => !focus_in_out,
        },
{
    if !focus_in_out {
        return None;
    }
    let last: u8 = if focused {
        0x49
    } else {
        0x4f
    };
    let mut bytes: Vec<u8> = Vec::new();
    bytes.push(0x1b);
    bytes.push(0x5b);
    bytes.push(last);
    assert(bytes@ =~= seq![0x1bu8, 0x5bu8, last]);
    Some(bytes)
}

/// Typing into a terminal answers its bell, and no other terminal's.
pub proof fn law_typing_answers_the_bell(
    drawer: DrawerModel,
    now: u64,
    terminal_id: u64,
    other: u64,
)
    ensures
        !drawer.noted(now, Some(terminal_id)).bell_tabs.contains(terminal_id),
        other != terminal_id ==> drawer.noted(now, Some(terminal_id)).bell_tabs.contains(other)
            == drawer.bell_tabs.contains(other),
{
}

/// A bell stays until its terminal is typed into, and each that rings is kept.
pub proof fn law_every_bell_is_kept(bells: Set<u64>, notices: Seq<TerminalNotice>, terminal_id: u64)
    ensures
        rung(bells, notices).contains(terminal_id) == (bells.contains(terminal_id) || exists|i: int|
            0 <= i < notices.len() && (#[trigger] notices[i]).bell && notices[i].terminal_id
                == terminal_id),
    decreases notices.len(),
{
    if notices.len() > 0 {
        let before = notices.drop_last();
        law_every_bell_is_kept(bells, before, terminal_id);
        if exists|i: int|
            0 <= i < notices.len() && (#[trigger] notices[i]).bell && notices[i].terminal_id
                == terminal_id {
            let i = choose|i: int|
                0 <= i < notices.len() && (#[trigger] notices[i]).bell && notices[i].terminal_id
                    == terminal_id;
            if i < before.len() {
                assert(before[i] == notices[i]);
            }
        }
        if exists|i: int|
            0 <= i < before.len() && (#[trigger] before[i]).bell && before[i].terminal_id
                == terminal_id {
            let i = choose|i: int|
                0 <= i < before.len() && (#[trigger] before[i]).bell && before[i].terminal_id
                    == terminal_id;
            assert(notices[i] == before[i]);
        }
        if notices.last().bell && notices.last().terminal_id == terminal_id {
            assert(notices[notices.len() - 1].bell);
        }
    }
}

} // verus!
