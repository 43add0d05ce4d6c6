//! Reading theme files.
//!
//! A file is JSON that may hold comments and trailing commas. One with a list of
//! themes is a family; any other is taken for a theme of VS Code.
use crate::theme::config::{
    json_text, lookup, styled, Json, Refusal, Style, ThemeConfig, ThemeError, ThemeFamily,
};
use crate::theme::registry::name_model;
use crate::theme::vscode::{TokenColors, TokenRule, TokenScope, VsCodeTheme};
use crate::theme::ThemeMode;
use std::rc::Rc;
use vstd::prelude::*;

verus! {

/// A JSON value as `serde_json` holds it.
#[verifier::external_type_specification]
#[verifier::external_body]
pub struct ExValue(serde_json::Value);

/// A `serde_json` value with its outermost layer taken off.
pub enum Opened {
    Null,
    Bool(bool),
    Number(String),
    Text(String),
    Array(Vec<serde_json::Value>),
    Object(Vec<(String, serde_json::Value)>),
}

/// The outermost layer of a value, its texts and lists as mathematical sequences.
pub enum OpenedModel {
    Null,
    Bool(bool),
    Number(Seq<char>),
    Text(Seq<char>),
    Array(Seq<serde_json::Value>),
    Object(Seq<(Seq<char>, serde_json::Value)>),
}

impl View for Opened {
    type V = OpenedModel;

    open spec fn view(&self) -> OpenedModel {
        match *self {
            Opened::Null => OpenedModel::Null,
            Opened::Bool(flag) => OpenedModel::Bool(flag),
            Opened::Number(digits) => OpenedModel::Number(digits@),
            Opened::Text(text) => OpenedModel::Text(text@),
            Opened::Array(items) => OpenedModel::Array(items@),
            Opened::Object(fields) => OpenedModel::Object(
                Seq::new(fields@.len(), |i: int| (fields@[i].0@, fields@[i].1)),
            ),
        }
    }
}

/// What a `serde_json` value holds.
pub uninterp spec fn opened_value(value: serde_json::Value) -> OpenedModel;

/// Take the outermost layer off a `serde_json` value.
///
/// Trusted: each variant of `serde_json::Value` becomes the one of [`Opened`] for
/// it with what it holds, an object by its entries in their order and a number by
/// what it prints as. Claimed of it: what comes out depends on the value alone.
#[verifier::external_body]
fn open(value: serde_json::Value) -> (opened: Opened)
    ensures
        opened@ == opened_value(value),
{
    match value {
        serde_json::Value::Null => Opened::Null,
        serde_json::Value::Bool(flag) => Opened::Bool(flag),
        serde_json::Value::Number(number) => Opened::Number(number.to_string()),
        serde_json::Value::String(text) => Opened::Text(text),
        serde_json::Value::Array(items) => Opened::Array(items),
        serde_json::Value::Object(fields) => Opened::Object(fields.into_iter().collect()),
    }
}

/// How many layers the parser reads: so many values inside one another, the innermost
/// of which holds none.
pub const MAX_LAYERS: usize = 128;

/// Whether a value has at most some number of layers.
pub open spec fn within_layers(value: serde_json::Value, layers: nat) -> bool
    decreases layers,
{
    layers > 0 && (match opened_value(value) {
        OpenedModel::Array(items) => forall|i: int|
            0 <= i < items.len() ==> within_layers(#[trigger] items[i], (layers - 1) as nat),
        OpenedModel::Object(fields) => forall|i: int|
            0 <= i < fields.len() ==> within_layers(
                (#[trigger] fields[i]).1,
                (layers - 1) as nat,
            ),
        _ => true,
    })
}

/// The value that lenient JSON writes, or what is wrong with it.
pub uninterp spec fn lenient_value(source: Seq<char>) -> Result<serde_json::Value, Seq<char>>;

/// Read lenient JSON.
///
/// Trusted: `serde_json_lenient::from_str` reads one JSON value from text in which
/// comments and trailing commas may stand, gives up on one that is nested deeper
/// than [`MAX_LAYERS`], and fails with an error that prints as a message. Claimed of
/// it: what it gives depends on the text alone, and is nested no deeper than that.
#[verifier::external_body]
fn parse_value(source: &str) -> (value: Result<serde_json::Value, String>)
    ensures
        match (value, lenient_value(source@)) {
            (Ok(got), Ok(want)) => got == want && within_layers(got, MAX_LAYERS as nat),
            (Err(got), Err(want)) => got@ == want,
            _ => false,
        },
{
    serde_json_lenient::from_str(source).map_err(|error| error.to_string())
}

/// Whether a value is what a `serde_json` value holds, layer by layer.
pub open spec fn is_plain(json: Json, value: serde_json::Value, layers: nat) -> bool
    decreases layers,
{
    layers > 0 && (match (opened_value(value), json) {
        (OpenedModel::Null, Json::Null) => true,
        (OpenedModel::Bool(a), Json::Bool(b)) => a == b,
        (OpenedModel::Number(a), Json::Number(b)) => a == b@,
        (OpenedModel::Text(a), Json::Text(b)) => a == b@,
        (OpenedModel::Array(values), Json::Array(items)) => values.len() == items@.len()
            && forall|i: int|
            0 <= i < values.len() ==> is_plain(
                #[trigger] items@[i],
                values[i],
                (layers - 1) as nat,
            ),
        (OpenedModel::Object(values), Json::Object(fields)) => values.len() == fields@.len()
            && forall|i: int|
            0 <= i < values.len() ==> (#[trigger] fields@[i]).0@ == values[i].0 && is_plain(
                fields@[i].1,
                values[i].1,
                (layers - 1) as nat,
            ),
        _ => false,
    })
}

/// Take a `serde_json` value apart.
fn plain(value: serde_json::Value, layers: usize) -> (json: Json)
    requires
        within_layers(value, layers as nat),
    ensures
        is_plain(json, value, layers as nat),
    decreases layers,
{
    let ghost held = opened_value(value);
    match open(value) {
        Opened::Null => Json::Null,
        Opened::Bool(flag) => Json::Bool(flag),
        Opened::Number(digits) => Json::Number(digits),
        Opened::Text(text) => Json::Text(text),
        Opened::Array(values) => {
            let ghost all = values@;
            let mut rest = values;
            let total: usize = rest.len();
            let mut items: Vec<Json> = Vec::new();
            assert(held == OpenedModel::Array(all));
            assert forall|i: int| 0 <= i < all.len() implies within_layers(
                #[trigger] all[i],
                (layers - 1) as nat,
            ) by {
                lemma_item_within(value, all, i, layers as nat);
            }
            assert(all.skip(0) =~= all);
            while items.len() < total
                invariant
                    layers > 0,
                    total == all.len(),
                    items@.len() <= total,
                    rest@ == all.skip(items@.len() as int),
                    forall|i: int|
                        0 <= i < all.len() ==> within_layers(#[trigger] all[i], (layers - 1) as nat),
                    forall|i: int|
                        0 <= i < items@.len() ==> is_plain(
                            #[trigger] items@[i],
                            all[i],
                            (layers - 1) as nat,
                        ),
                decreases total - items@.len(),
            {
                let ghost at = items@.len() as int;
                let item = rest.remove(0);
                assert(item == all[at]);
                assert(rest@ =~= all.skip(at + 1));
                items.push(plain(item, layers - 1));
            }
            Json::Array(items)
        },
        Opened::Object(values) => {
            let ghost all = values@;
            let ghost entries = Seq::new(all.len(), |i: int| (all[i].0@, all[i].1));
            assert(held == OpenedModel::Object(entries));
            assert forall|i: int| 0 <= i < entries.len() implies within_layers(
                (#[trigger] entries[i]).1,
                (layers - 1) as nat,
            ) by {
                lemma_field_within(value, entries, i, layers as nat);
            }
            let mut rest = values;
            let total: usize = rest.len();
            let mut fields: Style = Vec::new();
            assert(all.skip(0) =~= all);
            while fields.len() < total
                invariant
                    layers > 0,
                    total == all.len(),
                    fields@.len() <= total,
                    entries == Seq::new(all.len(), |i: int| (all[i].0@, all[i].1)),
                    rest@ == all.skip(fields@.len() as int),
                    forall|i: int|
                        0 <= i < entries.len() ==> within_layers(
                            (#[trigger] entries[i]).1,
                            (layers - 1) as nat,
                        ),
                    forall|i: int|
                        0 <= i < fields@.len() ==> (#[trigger] fields@[i]).0@ == entries[i].0
                            && is_plain(fields@[i].1, entries[i].1, (layers - 1) as nat),
                decreases total - fields@.len(),
            {
                let ghost at = fields@.len() as int;
                let (key, item) = rest.remove(0);
                assert((key, item) == all[at]);
                assert(entries[at] == (key@, item));
                assert(rest@ =~= all.skip(at + 1));
                fields.push((key, plain(item, layers - 1)));
            }
            Json::Object(fields)
        },
    }
}

proof fn lemma_item_within(
    value: serde_json::Value,
    items: Seq<serde_json::Value>,
    at: int,
    layers: nat,
)
    requires
        within_layers(value, layers),
        opened_value(value) == OpenedModel::Array(items),
        0 <= at < items.len(),
    ensures
        layers > 0,
        within_layers(items[at], (layers - 1) as nat),
{
    match opened_value(value) {
        OpenedModel::Array(held) => {
            assert(held[at] == items[at]);
        },
        _ => {},
    }
}

proof fn lemma_field_within(
    value: serde_json::Value,
    fields: Seq<(Seq<char>, serde_json::Value)>,
    at: int,
    layers: nat,
)
    requires
        within_layers(value, layers),
        opened_value(value) == OpenedModel::Object(fields),
        0 <= at < fields.len(),
    ensures
        layers > 0,
        within_layers(fields[at].1, (layers - 1) as nat),
{
    match opened_value(value) {
        OpenedModel::Object(held) => {
            assert(held[at] == fields[at]);
        },
        _ => {},
    }
}

/// What a theme file holds.
pub enum ThemeSource {
    Family(ThemeFamily),
    VsCode(VsCodeTheme),
}

pub open spec fn field(json: Json, key: Seq<char>) -> Option<Json> {
    match json {
        Json::Object(fields) => styled(fields@, key),
        _ => None,
    }
}

/// Whether a value is a structure of some number of members: an object, which has
/// them by their names, or an array of just so many, which has them in their order.
pub open spec fn is_structure(json: Json, count: nat) -> bool {
    match json {
        Json::Object(_) => true,
        Json::Array(items) => items@.len() == count,
        _ => false,
    }
}

/// A member of a structure.
pub open spec fn member(json: Json, key: Seq<char>, place: int, count: nat) -> Option<Json> {
    match json {
        Json::Object(fields) => styled(fields@, key),
        Json::Array(items) => if items@.len() == count {
            Some(items@[place])
        } else {
            None
        },
        _ => None,
    }
}

pub open spec fn is_object(value: Option<Json>) -> bool {
    match value {
        Some(Json::Object(_)) => true,
        _ => false,
    }
}

/// Whether a value is a text, or is not there.
pub open spec fn optional_text(value: Option<Json>) -> bool {
    match value {
        None | Some(Json::Null) | Some(Json::Text(_)) => true,
        _ => false,
    }
}

/// The mode of a name.
pub open spec fn mode_called(name: Seq<char>) -> Option<ThemeMode> {
    if name == "light"@ {
        Some(ThemeMode::Light)
    } else if name == "dark"@ {
        Some(ThemeMode::Dark)
    } else {
        None
    }
}

/// The mode that a value names: as a text, or as the only key of an object, with
/// nothing under it.
pub open spec fn mode_named(value: Option<Json>) -> Option<ThemeMode> {
    match value {
        Some(Json::Text(text)) => mode_called(text@),
        Some(Json::Object(fields)) => if fields@.len() == 1 && fields@[0].1 is Null {
            mode_called(fields@[0].0@)
        } else {
            None
        },
        _ => None,
    }
}

/// A mode's name reads back as that mode, and is that of the dark one exactly where
/// the mode is dark.
pub proof fn law_a_modes_name_reads_back(mode: ThemeMode, text: String)
    requires
        text@ == mode.spec_name(),
    ensures
        mode_named(Some(Json::Text(text))) == Some(mode),
        mode.spec_name() == "dark"@ <==> mode == ThemeMode::Dark,
{
    reveal_strlit("light");
    reveal_strlit("dark");
    assert("light"@.len() == 5 && "dark"@.len() == 4);
}

/// Whether a value is shaped like a theme of a family.
pub open spec fn is_config(json: Json) -> bool {
    &&& is_structure(json, 3)
    &&& json_text(member(json, "name"@, 0, 3)) is Some
    &&& mode_named(member(json, "appearance"@, 1, 3)) is Some
    &&& is_object(member(json, "style"@, 2, 3))
}

/// Whether a theme is what a file has of it.
pub open spec fn config_holds(config: ThemeConfig, json: Json) -> bool {
    &&& json_text(member(json, "name"@, 0, 3)) == Some(config.name@)
    &&& mode_named(member(json, "appearance"@, 1, 3)) == Some(config.appearance)
    &&& match member(json, "style"@, 2, 3) {
        Some(Json::Object(style)) => config.style@ == style@,
        _ => false,
    }
    &&& config.syntax_error is None
}

pub open spec fn are_configs(items: Seq<Json>) -> bool {
    forall|i: int| 0 <= i < items.len() ==> is_config(#[trigger] items[i])
}

/// Whether a value is shaped like a family.
pub open spec fn is_family(json: Json) -> bool {
    &&& is_structure(json, 3)
    &&& json_text(member(json, "name"@, 0, 3)) is Some
    &&& json_text(member(json, "author"@, 1, 3)) is Some
    &&& match member(json, "themes"@, 2, 3) {
        Some(Json::Array(items)) => are_configs(items@),
        _ => false,
    }
}

pub open spec fn family_holds(family: ThemeFamily, json: Json) -> bool {
    &&& json_text(member(json, "name"@, 0, 3)) == Some(family.name@)
    &&& json_text(member(json, "author"@, 1, 3)) == Some(family.author@)
    &&& match member(json, "themes"@, 2, 3) {
        Some(Json::Array(items)) => items@.len() == family.themes@.len() && forall|i: int|
            0 <= i < items@.len() ==> config_holds(#[trigger] family.themes@[i], items@[i]),
        _ => false,
    }
}

proof fn lemma_styled_at(style: Seq<(String, Json)>, key: Seq<char>, at: int)
    requires
        0 <= at < style.len(),
        style[at].0@ == key,
        forall|j: int| 0 <= j < at ==> (#[trigger] style[j]).0@ != key,
    ensures
        styled(style, key) == Some(style[at].1),
    decreases at,
{
    if at > 0 {
        let rest = style.drop_first();
        assert(style[0].0@ != key);
        assert forall|j: int| 0 <= j < at - 1 implies (#[trigger] rest[j]).0@ != key by {
            assert(rest[j] == style[j + 1]);
        }
        lemma_styled_at(rest, key, at - 1);
    }
}

proof fn lemma_unstyled(style: Seq<(String, Json)>, key: Seq<char>)
    requires
        forall|j: int| 0 <= j < style.len() ==> (#[trigger] style[j]).0@ != key,
    ensures
        styled(style, key) is None,
    decreases style.len(),
{
    if style.len() > 0 {
        let rest = style.drop_first();
        assert(style[0].0@ != key);
        assert forall|j: int| 0 <= j < rest.len() implies (#[trigger] rest[j]).0@ != key by {
            assert(rest[j] == style[j + 1]);
        }
        lemma_unstyled(rest, key);
    }
}

proof fn lemma_removed(style: Seq<(String, Json)>, at: int, other: Seq<char>)
    requires
        0 <= at < style.len(),
        style[at].0@ != other,
    ensures
        styled(style.remove(at), other) == styled(style, other),
    decreases at,
{
    if at == 0 {
        assert(style.remove(0) =~= style.drop_first());
    } else {
        lemma_removed(style.drop_first(), at - 1, other);
        assert(style.remove(at).drop_first() =~= style.drop_first().remove(at - 1));
        assert(style.remove(at)[0] == style[0]);
    }
}

/// Take a field out.
fn take(fields: &mut Style, key: &str) -> (value: Option<Json>)
    ensures
        value == styled(old(fields)@, key@),
        forall|other: Seq<char>|
            other != key@ ==> #[trigger] styled(final(fields)@, other) == styled(
                old(fields)@,
                other,
            ),
{
    let mut i: usize = 0;
    while i < fields.len()
        invariant
            i <= fields@.len(),
            fields@ == old(fields)@,
            forall|j: int| 0 <= j < i ==> (#[trigger] fields@[j]).0@ != key@,
        decreases fields@.len() - i,
    {
        if *fields[i].0.as_str() == *key {
            proof {
                lemma_styled_at(fields@, key@, i as int);
                assert forall|other: Seq<char>| other != key@ implies #[trigger] styled(
                    fields@.remove(i as int),
                    other,
                ) == styled(fields@, other) by {
                    lemma_removed(fields@, i as int, other);
                }
            }
            let (_, value) = fields.remove(i);
            return Some(value);
        }
        i += 1;
    }
    proof {
        lemma_unstyled(fields@, key@);
    }
    None
}

/// The members of a structure with these names.
fn members(json: Json, keys: &Vec<&'static str>) -> (members: Option<Vec<Option<Json>>>)
    requires
        forall|i: int, j: int| 0 <= i < j < keys@.len() ==> keys@[i]@ != keys@[j]@,
    ensures
        match members {
            Some(got) => is_structure(json, keys@.len()) && got@.len() == keys@.len() && forall|
                i: int,
            |
                0 <= i < got@.len() ==> #[trigger] got@[i] == member(
                    json,
                    keys@[i]@,
                    i,
                    keys@.len(),
                ),
            None => !is_structure(json, keys@.len()),
        },
{
    let mut found: Vec<Option<Json>> = Vec::new();
    match json {
        Json::Object(fields) => {
            let mut rest = fields;
            let mut i: usize = 0;
            while i < keys.len()
                invariant
                    i <= keys@.len(),
                    found@.len() == i,
                    json == Json::Object(fields),
                    forall|a: int, b: int|
                        0 <= a < b < keys@.len() ==> keys@[a]@ != keys@[b]@,
                    forall|j: int|
                        i <= j < keys@.len() ==> styled(rest@, #[trigger] keys@[j]@) == styled(
                            fields@,
                            keys@[j]@,
                        ),
                    forall|j: int|
                        0 <= j < i ==> #[trigger] found@[j] == member(
                            json,
                            keys@[j]@,
                            j,
                            keys@.len(),
                        ),
                decreases keys@.len() - i,
            {
                let key = keys[i];
                let value = take(&mut rest, key);
                assert(key@ == keys@[i as int]@);
                found.push(value);
                i += 1;
            }
            Some(found)
        },
        Json::Array(items) => {
            if items.len() != keys.len() {
                return None;
            }
            let ghost all = items@;
            let mut rest = items;
            assert(all.skip(0) =~= all);
            while found.len() < keys.len()
                invariant
                    found@.len() <= keys@.len(),
                    all.len() == keys@.len(),
                    all == items@,
                    json == Json::Array(items),
                    rest@ == all.skip(found@.len() as int),
                    forall|j: int|
                        0 <= j < found@.len() ==> #[trigger] found@[j] == member(
                            json,
                            keys@[j]@,
                            j,
                            keys@.len(),
                        ),
                decreases keys@.len() - found@.len(),
            {
                let ghost at = found@.len() as int;
                let item = rest.remove(0);
                assert(item == all[at]);
                assert(rest@ =~= all.skip(at + 1));
                found.push(Some(item));
            }
            Some(found)
        },
        _ => None,
    }
}

fn text_of(value: Option<Json>) -> (content: Option<String>)
    ensures
        name_model(content) == json_text(value),
{
    match value {
        Some(Json::Text(text)) => Some(text),
        _ => None,
    }
}

fn called(name: &str) -> (mode: Option<ThemeMode>)
    ensures
        mode == mode_called(name@),
{
    if *name == *"light" {
        Some(ThemeMode::Light)
    } else if *name == *"dark" {
        Some(ThemeMode::Dark)
    } else {
        None
    }
}

fn mode_of(value: Option<Json>) -> (mode: Option<ThemeMode>)
    ensures
        mode == mode_named(value),
{
    match value {
        Some(Json::Text(text)) => called(text.as_str()),
        Some(Json::Object(fields)) => if fields.len() == 1 {
            match &fields[0].1 {
                Json::Null => called(fields[0].0.as_str()),
                _ => None,
            }
        } else {
            None
        },
        _ => None,
    }
}

fn read_config(json: Json) -> (config: Option<ThemeConfig>)
    ensures
        match config {
            Some(got) => is_config(json) && config_holds(got, json),
            None => !is_config(json),
        },
{
    proof {
        reveal_strlit("name");
        reveal_strlit("appearance");
        reveal_strlit("style");
        assert("name"@.len() == 4 && "appearance"@.len() == 10 && "style"@.len() == 5);
    }
    let keys: Vec<&'static str> = vec!["name", "appearance", "style"];
    let mut found = match members(json, &keys) {
        Some(found) => found,
        None => {
            return None;
        },
    };
    assert(found@[0] == member(json, "name"@, 0, 3));
    assert(found@[1] == member(json, "appearance"@, 1, 3));
    assert(found@[2] == member(json, "style"@, 2, 3));
    let style = found.remove(2);
    let appearance = mode_of(found.remove(1));
    let name = text_of(found.remove(0));
    match (name, appearance, style) {
        (Some(name), Some(appearance), Some(Json::Object(style))) => Some(
            ThemeConfig { name, appearance, style: Rc::new(style), syntax_error: None },
        ),
        _ => None,
    }
}

fn read_configs(items: Vec<Json>) -> (configs: Option<Vec<ThemeConfig>>)
    ensures
        match configs {
            Some(got) => are_configs(items@) && got@.len() == items@.len() && forall|i: int|
                0 <= i < items@.len() ==> config_holds(#[trigger] got@[i], items@[i]),
            None => !are_configs(items@),
        },
{
    let ghost all = items@;
    let mut rest = items;
    let mut configs: Vec<ThemeConfig> = Vec::new();
    let total: usize = rest.len();
    assert(all.skip(0) =~= all);
    while configs.len() < total
        invariant
            configs@.len() <= total,
            total == all.len(),
            all == items@,
            rest@ == all.skip(configs@.len() as int),
            forall|j: int| 0 <= j < configs@.len() ==> is_config(#[trigger] all[j]),
            forall|j: int|
                0 <= j < configs@.len() ==> config_holds(#[trigger] configs@[j], all[j]),
        decreases total - configs@.len(),
    {
        let ghost at = configs@.len() as int;
        let item = rest.remove(0);
        assert(item == all[at]);
        assert(rest@ =~= all.skip(at + 1));
        match read_config(item) {
            Some(config) => {
                configs.push(config);
            },
            None => {
                return None;
            },
        }
    }
    Some(configs)
}

/// Read a family.
pub fn read_family(json: Json) -> (family: Result<ThemeFamily, ThemeError>)
    ensures
        match family {
            Ok(got) => is_family(json) && family_holds(got, json),
            Err(refusal) => !is_family(json) && refusal is Misshapen,
        },
{
    proof {
        reveal_strlit("name");
        reveal_strlit("author");
        reveal_strlit("themes");
        assert("name"@.len() == 4 && "author"@.len() == 6 && "themes"@.len() == 6);
        assert("author"@[0] == 'a' && "themes"@[0] == 't');
    }
    let keys: Vec<&'static str> = vec!["name", "author", "themes"];
    let mut found = match members(json, &keys) {
        Some(found) => found,
        None => {
            return Err(Refusal::Misshapen);
        },
    };
    assert(found@[0] == member(json, "name"@, 0, 3));
    assert(found@[1] == member(json, "author"@, 1, 3));
    assert(found@[2] == member(json, "themes"@, 2, 3));
    let themes = match found.remove(2) {
        Some(Json::Array(items)) => read_configs(items),
        _ => None,
    };
    let author = text_of(found.remove(1));
    let name = text_of(found.remove(0));
    match (name, author, themes) {
        (Some(name), Some(author), Some(themes)) => Ok(ThemeFamily { name, author, themes }),
        _ => Err(Refusal::Misshapen),
    }
}

/// Whether a value is shaped like a rule for tokens.
pub open spec fn is_rule(json: Json) -> bool {
    is_structure(json, 2) && (match member(json, "settings"@, 1, 2) {
        Some(settings) => {
            &&& is_structure(settings, 2)
            &&& optional_text(member(settings, "foreground"@, 0, 2))
            &&& optional_text(member(settings, "fontStyle"@, 1, 2))
        },
        None => false,
    })
}

pub open spec fn all_text(items: Seq<Json>) -> bool {
    forall|i: int| 0 <= i < items.len() ==> #[trigger] items[i] is Text
}

/// Whether a scope is what a rule has of it.
pub open spec fn scope_holds(scope: TokenScope, value: Option<Json>) -> bool {
    match value {
        None | Some(Json::Null) => scope is All,
        Some(Json::Text(text)) => match scope {
            TokenScope::Scopes(lists) => lists@.len() == 1 && lists@[0]@ == text@,
            _ => false,
        },
        Some(Json::Array(items)) => if all_text(items@) {
            match scope {
                TokenScope::Scopes(lists) => lists@.len() == items@.len() && forall|i: int|
                    0 <= i < items@.len() ==> Some((#[trigger] lists@[i])@) == json_text(
                        Some(items@[i]),
                    ),
                _ => false,
            }
        } else {
            scope is NotAllText
        },
        _ => scope is Other,
    }
}

pub open spec fn rule_holds(rule: TokenRule, json: Json) -> bool {
    &&& scope_holds(rule.scope, member(json, "scope"@, 0, 2))
    &&& match member(json, "settings"@, 1, 2) {
        Some(settings) => {
            &&& name_model(rule.foreground) == json_text(member(settings, "foreground"@, 0, 2))
            &&& name_model(rule.font_style) == json_text(member(settings, "fontStyle"@, 1, 2))
        },
        None => false,
    }
}

pub open spec fn are_rules(items: Seq<Json>) -> bool {
    forall|i: int| 0 <= i < items.len() ==> is_rule(#[trigger] items[i])
}

/// Whether rules for tokens are what a file has of them.
pub open spec fn tokens_hold(tokens: TokenColors, value: Option<Json>) -> bool {
    match value {
        None | Some(Json::Null) => tokens is Absent,
        Some(Json::Text(_)) => tokens is External,
        Some(Json::Array(items)) => if are_rules(items@) {
            match tokens {
                TokenColors::Rules(rules) => rules@.len() == items@.len() && forall|i: int|
                    0 <= i < items@.len() ==> rule_holds(#[trigger] rules@[i], items@[i]),
                _ => false,
            }
        } else {
            tokens is Misshapen
        },
        _ => tokens is Misshapen,
    }
}

pub open spec fn colors_readable(fields: Seq<(String, Json)>) -> bool {
    forall|i: int| 0 <= i < fields.len() ==> optional_text(Some((#[trigger] fields[i]).1))
}

/// Whether a value is shaped like a theme of VS Code, its rules for tokens aside.
pub open spec fn is_vscode(json: Json) -> bool {
    &&& is_structure(json, 5)
    &&& optional_text(member(json, "name"@, 0, 5))
    &&& optional_text(member(json, "type"@, 1, 5))
    &&& match member(json, "colors"@, 2, 5) {
        Some(Json::Object(colors)) => colors_readable(colors@),
        _ => false,
    }
    &&& optional_text(member(json, "include"@, 4, 5))
}

pub open spec fn colors_hold(
    colors: Seq<(String, Option<String>)>,
    fields: Seq<(String, Json)>,
) -> bool {
    &&& colors.len() == fields.len()
    &&& forall|i: int|
        0 <= i < fields.len() ==> (#[trigger] colors[i]).0@ == fields[i].0@ && name_model(
            colors[i].1,
        ) == json_text(Some(fields[i].1))
}

pub open spec fn vscode_holds(theme: VsCodeTheme, json: Json) -> bool {
    &&& name_model(theme.name) == json_text(member(json, "name"@, 0, 5))
    &&& name_model(theme.appearance) == json_text(member(json, "type"@, 1, 5))
    &&& name_model(theme.base) == json_text(member(json, "include"@, 4, 5))
    &&& match member(json, "colors"@, 2, 5) {
        Some(Json::Object(colors)) => colors_hold(theme.colors@, colors@),
        _ => false,
    }
    &&& tokens_hold(theme.token_colors, member(json, "tokenColors"@, 3, 5))
}

fn is_optional_text(value: &Option<Json>) -> (answer: bool)
    ensures
        answer == optional_text(*value),
{
    match value {
        None | Some(Json::Null) | Some(Json::Text(_)) => true,
        _ => false,
    }
}

fn read_scope(value: Option<Json>) -> (scope: TokenScope)
    ensures
        scope_holds(scope, value),
{
    match value {
        None | Some(Json::Null) => TokenScope::All,
        Some(Json::Text(text)) => {
            let mut lists: Vec<String> = Vec::new();
            lists.push(text);
            TokenScope::Scopes(lists)
        },
        Some(Json::Array(items)) => {
            let mut lists: Vec<String> = Vec::new();
            let mut i: usize = 0;
            while i < items.len()
                invariant
                    i <= items@.len(),
                    lists@.len() == i,
                    value == Some(Json::Array(items)),
                    forall|j: int| 0 <= j < i ==> #[trigger] items@[j] is Text,
                    forall|j: int|
                        0 <= j < i ==> Some((#[trigger] lists@[j])@) == json_text(Some(items@[j])),
                decreases items@.len() - i,
            {
                match &items[i] {
                    Json::Text(text) => {
                        lists.push(text.clone());
                    },
                    _ => {
                        assert(!(items@[i as int] is Text));
                        return TokenScope::NotAllText;
                    },
                }
                i += 1;
            }
            TokenScope::Scopes(lists)
        },
        _ => TokenScope::Other,
    }
}

fn read_rule(json: Json) -> (rule: Option<TokenRule>)
    ensures
        match rule {
            Some(got) => is_rule(json) && rule_holds(got, json),
            None => !is_rule(json),
        },
{
    proof {
        reveal_strlit("settings");
        reveal_strlit("scope");
        reveal_strlit("foreground");
        reveal_strlit("fontStyle");
        assert("settings"@.len() == 8 && "scope"@.len() == 5);
        assert("foreground"@.len() == 10 && "fontStyle"@.len() == 9);
    }
    let keys: Vec<&'static str> = vec!["scope", "settings"];
    let mut found = match members(json, &keys) {
        Some(found) => found,
        None => {
            return None;
        },
    };
    assert(found@[0] == member(json, "scope"@, 0, 2));
    assert(found@[1] == member(json, "settings"@, 1, 2));
    let settings = match found.remove(1) {
        Some(settings) => settings,
        None => {
            return None;
        },
    };
    let scope = read_scope(found.remove(0));
    let keys: Vec<&'static str> = vec!["foreground", "fontStyle"];
    let mut found = match members(settings, &keys) {
        Some(found) => found,
        None => {
            return None;
        },
    };
    assert(found@[0] == member(settings, "foreground"@, 0, 2));
    assert(found@[1] == member(settings, "fontStyle"@, 1, 2));
    let font_style = found.remove(1);
    let foreground = found.remove(0);
    if !is_optional_text(&foreground) || !is_optional_text(&font_style) {
        return None;
    }
    Some(TokenRule { scope, foreground: text_of(foreground), font_style: text_of(font_style) })
}

fn read_tokens(value: Option<Json>) -> (tokens: TokenColors)
    ensures
        tokens_hold(tokens, value),
{
    match value {
        None | Some(Json::Null) => TokenColors::Absent,
        Some(Json::Text(_)) => TokenColors::External,
        Some(Json::Array(items)) => {
            let ghost all = items@;
            let mut rest = items;
            let mut rules: Vec<TokenRule> = Vec::new();
            let total: usize = rest.len();
            assert(all.skip(0) =~= all);
            while rules.len() < total
                invariant
                    rules@.len() <= total,
                    total == all.len(),
                    value == Some(Json::Array(items)),
                    all == items@,
                    rest@ == all.skip(rules@.len() as int),
                    forall|j: int| 0 <= j < rules@.len() ==> is_rule(#[trigger] all[j]),
                    forall|j: int|
                        0 <= j < rules@.len() ==> rule_holds(#[trigger] rules@[j], all[j]),
                decreases total - rules@.len(),
            {
                let ghost at = rules@.len() as int;
                let item = rest.remove(0);
                assert(item == all[at]);
                assert(rest@ =~= all.skip(at + 1));
                match read_rule(item) {
                    Some(rule) => {
                        rules.push(rule);
                    },
                    None => {
                        return TokenColors::Misshapen;
                    },
                }
            }
            TokenColors::Rules(rules)
        },
        _ => TokenColors::Misshapen,
    }
}

fn read_colors(fields: &Style) -> (colors: Option<Vec<(String, Option<String>)>>)
    ensures
        match colors {
            Some(got) => colors_readable(fields@) && colors_hold(got@, fields@),
            None => !colors_readable(fields@),
        },
{
    let mut colors: Vec<(String, Option<String>)> = Vec::new();
    let mut i: usize = 0;
    while i < fields.len()
        invariant
            i <= fields@.len(),
            colors@.len() == i,
            forall|j: int| 0 <= j < i ==> optional_text(Some((#[trigger] fields@[j]).1)),
            forall|j: int|
                0 <= j < i ==> (#[trigger] colors@[j]).0@ == fields@[j].0@ && name_model(
                    colors@[j].1,
                ) == json_text(Some(fields@[j].1)),
        decreases fields@.len() - i,
    {
        let color = match &fields[i].1 {
            Json::Text(text) => Some(text.clone()),
            Json::Null => None,
            _ => {
                assert(!optional_text(Some(fields@[i as int].1)));
                return None;
            },
        };
        colors.push((fields[i].0.clone(), color));
        i += 1;
    }
    Some(colors)
}

/// Read a theme of VS Code.
pub fn read_vscode(json: Json) -> (theme: Result<VsCodeTheme, ThemeError>)
    ensures
        match theme {
            Ok(got) => is_vscode(json) && vscode_holds(got, json),
            Err(refusal) => !is_vscode(json) && refusal is Misshapen,
        },
{
    proof {
        reveal_strlit("colors");
        reveal_strlit("name");
        reveal_strlit("type");
        reveal_strlit("include");
        reveal_strlit("tokenColors");
        assert("colors"@.len() == 6 && "name"@.len() == 4 && "type"@.len() == 4);
        assert("include"@.len() == 7 && "tokenColors"@.len() == 11);
        assert("name"@[0] == 'n' && "type"@[0] == 't');
    }
    let keys: Vec<&'static str> = vec!["name", "type", "colors", "tokenColors", "include"];
    let mut found = match members(json, &keys) {
        Some(found) => found,
        None => {
            return Err(Refusal::Misshapen);
        },
    };
    assert(found@[0] == member(json, "name"@, 0, 5));
    assert(found@[1] == member(json, "type"@, 1, 5));
    assert(found@[2] == member(json, "colors"@, 2, 5));
    assert(found@[3] == member(json, "tokenColors"@, 3, 5));
    assert(found@[4] == member(json, "include"@, 4, 5));
    let base = found.remove(4);
    let token_colors = read_tokens(found.remove(3));
    let listed = found.remove(2);
    let appearance = found.remove(1);
    let name = found.remove(0);
    if !is_optional_text(&name) || !is_optional_text(&appearance) || !is_optional_text(&base) {
        return Err(Refusal::Misshapen);
    }
    let colors = match &listed {
        Some(Json::Object(fields)) => read_colors(fields),
        _ => None,
    };
    match colors {
        Some(colors) => Ok(
            VsCodeTheme {
                name: text_of(name),
                appearance: text_of(appearance),
                colors,
                token_colors,
                base: text_of(base),
            },
        ),
        None => Err(Refusal::Misshapen),
    }
}

/// Whether a theme, or a refusal, is what a JSON value has of it.
pub open spec fn source_holds(read: Result<ThemeSource, ThemeError>, json: Json) -> bool {
    if field(json, "themes"@) is Some {
        match read {
            Ok(ThemeSource::Family(family)) => is_family(json) && family_holds(family, json),
            Ok(_) => false,
            Err(refusal) => !is_family(json) && refusal is Misshapen,
        }
    } else {
        match read {
            Ok(ThemeSource::VsCode(theme)) => is_vscode(json) && vscode_holds(theme, json),
            Ok(_) => false,
            Err(refusal) => !is_vscode(json) && refusal is Misshapen,
        }
    }
}

/// Tell the two kinds of files apart and read the one that it is.
pub fn read_json(json: Json) -> (read: Result<ThemeSource, ThemeError>)
    ensures
        source_holds(read, json),
{
    let listed = match &json {
        Json::Object(fields) => lookup(fields, "themes").is_some(),
        _ => false,
    };
    if listed {
        match read_family(json) {
            Ok(family) => Ok(ThemeSource::Family(family)),
            Err(refusal) => Err(refusal),
        }
    } else {
        match read_vscode(json) {
            Ok(theme) => Ok(ThemeSource::VsCode(theme)),
            Err(refusal) => Err(refusal),
        }
    }
}

/// Read a theme file.
pub fn read_theme(source: &str) -> (read: Result<ThemeSource, ThemeError>)
    ensures
        match lenient_value(source@) {
            Ok(value) => exists|json: Json| #[trigger]
                is_plain(json, value, MAX_LAYERS as nat) && source_holds(read, json),
            Err(message) => match read {
                Err(got) => got@ == (Refusal::Malformed { message }),
                Ok(_) => false,
            },
        },
{
    match parse_value(source) {
        Ok(value) => read_json(plain(value, MAX_LAYERS)),
        Err(message) => Err(Refusal::Malformed { message }),
    }
}

} // verus!
