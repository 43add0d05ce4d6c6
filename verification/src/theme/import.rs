//! Importing, exporting and removing themes.
use crate::text::{blank, is_blank};
use crate::theme::config::{Refusal, ThemeConfig, ThemeError, ThemeErrorModel, ThemeFamily};
use crate::theme::registry::{
    bundle_is_valid, families_model, is_name, resolves, theme_named, FamilyModel, PreferencesModel,
    Themes, ThemesModel,
};
use crate::theme::resolve::{resolve_theme, ThemeModel};
use crate::theme::ThemeMode;
use vstd::prelude::*;
use vstd::string::StringExecFns;

verus! {

pub open spec fn names_one(themes: Seq<ThemeConfig>, name: Seq<char>) -> bool {
    exists|i: int| 0 <= i < themes.len() && (#[trigger] themes[i]).name@ == name
}

/// Why a theme of a family is refused, if it is: for its name, for a theme before
/// it of the same name, for a bundled one of that name, or for a colour.
pub open spec fn config_refusal(themes: Seq<ThemeConfig>, i: int, bundled: FamilyModel) -> Option<
    ThemeErrorModel,
> {
    let config = themes[i];
    if blank(config.name@) {
        Some(Refusal::EmptyName)
    } else if names_one(themes.take(i), config.name@) {
        Some(Refusal::Duplicate { name: config.name@ })
    } else if names_one(bundled.themes, config.name@) {
        Some(Refusal::BuiltIn { name: config.name@ })
    } else {
        match resolves(config, bundled) {
            Ok(_) => None,
            Err(refusal) => Some(refusal),
        }
    }
}

/// Why one of the first `n` themes is refused.
pub open spec fn first_refusal(themes: Seq<ThemeConfig>, n: int, bundled: FamilyModel) -> Option<
    ThemeErrorModel,
>
    decreases n,
{
    if n <= 0 {
        None
    } else {
        match first_refusal(themes, n - 1, bundled) {
            Some(refusal) => Some(refusal),
            None => config_refusal(themes, n - 1, bundled),
        }
    }
}

/// Why a family is refused, if it is.
pub open spec fn family_refusal(family: FamilyModel, bundled: FamilyModel) -> Option<
    ThemeErrorModel,
> {
    if family.themes.len() == 0 {
        Some(Refusal::EmptyFamily)
    } else {
        first_refusal(family.themes, family.themes.len() as int, bundled)
    }
}

proof fn lemma_refused_stays(themes: Seq<ThemeConfig>, at: int, n: int, bundled: FamilyModel)
    requires
        0 < at <= n,
        first_refusal(themes, at, bundled) is Some,
    ensures
        first_refusal(themes, n, bundled) == first_refusal(themes, at, bundled),
    decreases n,
{
    if at < n {
        lemma_refused_stays(themes, at, n - 1, bundled);
    }
}

pub fn validate_family(family: &ThemeFamily, bundled: &ThemeFamily) -> (valid: Result<
    (),
    ThemeError,
>)
    requires
        bundle_is_valid(bundled@),
    ensures
        match (valid, family_refusal(family@, bundled@)) {
            (Ok(_), None) => true,
            (Err(got), Some(want)) => got@ == want,
            _ => false,
        },
{
    if family.themes.len() == 0 {
        return Err(Refusal::EmptyFamily);
    }
    let ghost themes = family@.themes;
    let mut i: usize = 0;
    while i < family.themes.len()
        invariant
            i <= family.themes@.len(),
            themes == family.themes@,
            bundle_is_valid(bundled@),
            first_refusal(themes, i as int, bundled@) is None,
            family@.themes.len() > 0,
        decreases family.themes@.len() - i,
    {
        let config = &family.themes[i];
        let refused = if is_blank(config.name.as_str()) {
            Some(Refusal::EmptyName)
        } else if named_before(&family.themes, i, &config.name) {
            Some(Refusal::Duplicate { name: config.name.clone() })
        } else if theme_named(&bundled.themes, &config.name).is_some() {
            Some(Refusal::BuiltIn { name: config.name.clone() })
        } else {
            let at: usize = if config.appearance.is_dark() {
                1
            } else {
                0
            };
            match resolve_theme(config, &bundled.themes[at].style) {
                Ok(_) => None,
                Err(refusal) => Some(refusal),
            }
        };
        assert(match (refused, config_refusal(themes, i as int, bundled@)) {
            (Some(got), Some(want)) => got@ == want,
            (None, None) => true,
            _ => false,
        });
        if let Some(refusal) = refused {
            proof {
                lemma_refused_stays(themes, i + 1, themes.len() as int, bundled@);
            }
            return Err(refusal);
        }
        i += 1;
    }
    Ok(())
}

fn named_before(themes: &Vec<ThemeConfig>, end: usize, name: &String) -> (found: bool)
    requires
        end <= themes@.len(),
    ensures
        found == names_one(themes@.take(end as int), name@),
{
    let mut i: usize = 0;
    while i < end
        invariant
            i <= end <= themes@.len(),
            forall|j: int| 0 <= j < i ==> (#[trigger] themes@[j]).name@ != name@,
        decreases end - i,
    {
        if themes[i].name == *name {
            assert(themes@.take(end as int)[i as int].name@ == name@);
            return true;
        }
        i += 1;
    }
    assert(!names_one(themes@.take(end as int), name@)) by {
        if names_one(themes@.take(end as int), name@) {
            let j = choose|j: int|
                0 <= j < themes@.take(end as int).len() && (#[trigger] themes@.take(
                    end as int,
                )[j]).name@ == name@;
            assert(themes@[j].name@ == name@);
        }
    }
    false
}

/// The themes of a family but those of given names.
pub open spec fn unnamed(themes: Seq<ThemeConfig>, gone: spec_fn(Seq<char>) -> bool) -> Seq<
    ThemeConfig,
>
    decreases themes.len(),
{
    if themes.len() == 0 {
        Seq::empty()
    } else {
        let before = unnamed(themes.drop_last(), gone);
        if gone(themes.last().name@) {
            before
        } else {
            before.push(themes.last())
        }
    }
}

/// The families without the themes of given names, and without those that then
/// hold none.
pub open spec fn cleared(families: Seq<FamilyModel>, gone: spec_fn(Seq<char>) -> bool) -> Seq<
    FamilyModel,
>
    decreases families.len(),
{
    if families.len() == 0 {
        Seq::empty()
    } else {
        let before = cleared(families.drop_last(), gone);
        let family = families.last();
        let themes = unnamed(family.themes, gone);
        if themes.len() == 0 {
            before
        } else {
            before.push(FamilyModel { themes, ..family })
        }
    }
}

/// The last theme of an appearance in a family.
pub open spec fn last_of_mode(themes: Seq<ThemeConfig>, mode: ThemeMode, otherwise: Option<
    Seq<char>,
>) -> Option<Seq<char>>
    decreases themes.len(),
{
    if themes.len() == 0 {
        otherwise
    } else if themes.last().appearance == mode {
        Some(themes.last().name@)
    } else {
        last_of_mode(themes.drop_last(), mode, otherwise)
    }
}

/// The preferences with a family taken in: it replaces themes of the same names
/// and is chosen for the appearances that it has.
pub open spec fn taking_in(preferences: PreferencesModel, family: FamilyModel) -> PreferencesModel {
    PreferencesModel {
        families: cleared(
            preferences.families,
            |name: Seq<char>| names_one(family.themes, name),
        ).push(family),
        light: last_of_mode(family.themes, ThemeMode::Light, preferences.light),
        dark: last_of_mode(family.themes, ThemeMode::Dark, preferences.dark),
    }
}

/// The appearance to show an imported family in: the one in use where it has a
/// theme for it, else that of its first theme.
pub open spec fn import_mode(family: FamilyModel, current: ThemeMode) -> ThemeMode {
    if exists|i: int| 0 <= i < family.themes.len() && (#[trigger] family.themes[i]).appearance
        == current {
        current
    } else {
        family.themes[0].appearance
    }
}

/// Whether a name is a given one.
pub open spec fn only(name: Seq<char>) -> spec_fn(Seq<char>) -> bool {
    |other: Seq<char>| other == name
}

/// The preferences with a theme removed.
pub open spec fn without(preferences: PreferencesModel, name: Seq<char>) -> PreferencesModel {
    PreferencesModel {
        families: cleared(preferences.families, only(name)),
        light: if preferences.light == Some(name) {
            None
        } else {
            preferences.light
        },
        dark: if preferences.dark == Some(name) {
            None
        } else {
            preferences.dark
        },
    }
}

/// Whether a name is among a family's, or is one name.
enum Gone<'a> {
    Family(&'a Vec<ThemeConfig>),
    Name(&'a String),
}

impl Gone<'_> {
    spec fn holds(self, name: Seq<char>) -> bool {
        match self {
            Gone::Family(themes) => names_one(themes@, name),
            Gone::Name(other) => name == other@,
        }
    }

    fn check(&self, name: &String) -> (held: bool)
        ensures
            held == self.holds(name@),
    {
        match self {
            Gone::Family(themes) => {
                let found = theme_named(themes, name);
                found.is_some()
            },
            Gone::Name(other) => *name == **other,
        }
    }
}

fn keep_unnamed(themes: Vec<ThemeConfig>, gone: &Gone) -> (kept: Vec<ThemeConfig>)
    ensures
        kept@ == unnamed(themes@, |name: Seq<char>| gone.holds(name)),
{
    let mut kept: Vec<ThemeConfig> = Vec::new();
    let ghost test = |name: Seq<char>| gone.holds(name);
    let mut i: usize = 0;
    assert(themes@.take(0) =~= Seq::<ThemeConfig>::empty());
    while i < themes.len()
        invariant
            i <= themes@.len(),
            test == (|name: Seq<char>| gone.holds(name)),
            kept@ == unnamed(themes@.take(i as int), test),
        decreases themes@.len() - i,
    {
        proof {
            assert(themes@.take(i + 1).drop_last() =~= themes@.take(i as int));
            assert(themes@.take(i + 1).last() == themes@[i as int]);
        }
        if !gone.check(&themes[i].name) {
            kept.push(themes[i].clone());
        }
        i += 1;
    }
    assert(themes@.take(themes@.len() as int) =~= themes@);
    kept
}

fn copy_themes(themes: &Vec<ThemeConfig>) -> (copy: Vec<ThemeConfig>)
    ensures
        copy@ == themes@,
{
    let mut copy: Vec<ThemeConfig> = Vec::new();
    let mut i: usize = 0;
    while i < themes.len()
        invariant
            i <= themes@.len(),
            copy@ == themes@.take(i as int),
        decreases themes@.len() - i,
    {
        copy.push(themes[i].clone());
        i += 1;
        assert(copy@ =~= themes@.take(i as int));
    }
    assert(themes@.take(themes@.len() as int) =~= themes@);
    copy
}

fn clear(families: &Vec<ThemeFamily>, gone: &Gone) -> (kept: Vec<ThemeFamily>)
    ensures
        families_model(kept@) == cleared(
            families_model(families@),
            |name: Seq<char>| gone.holds(name),
        ),
{
    let mut kept: Vec<ThemeFamily> = Vec::new();
    let ghost test = |name: Seq<char>| gone.holds(name);
    let ghost all = families_model(families@);
    let mut i: usize = 0;
    assert(all.take(0) =~= Seq::<FamilyModel>::empty());
    assert(families_model(kept@) =~= cleared(all.take(0), test));
    while i < families.len()
        invariant
            i <= families@.len(),
            all == families_model(families@),
            test == (|name: Seq<char>| gone.holds(name)),
            families_model(kept@) == cleared(all.take(i as int), test),
        decreases families@.len() - i,
    {
        let family = &families[i];
        let ghost held = kept@;
        proof {
            assert(all.take(i + 1).drop_last() =~= all.take(i as int));
            assert(all.take(i + 1).last() == family@);
        }
        let themes = keep_unnamed(copy_themes(&family.themes), gone);
        if themes.len() > 0 {
            let smaller = ThemeFamily {
                name: family.name.clone(),
                author: family.author.clone(),
                themes,
            };
            let ghost added = smaller@;
            kept.push(smaller);
            assert(families_model(kept@) =~= families_model(held).push(added));
            assert(added =~= (FamilyModel { themes: unnamed(family@.themes, test), ..family@ }));
        }
        i += 1;
    }
    assert(all.take(all.len() as int) =~= all);
    kept
}

/// What an import gives: whether the file was converted from another editor's,
/// and the appearance to show it in.
#[derive(Debug, Clone, Copy, PartialEq, Eq, Structural)]
pub struct Imported {
    pub converted: bool,
    pub mode: ThemeMode,
}

impl Themes {
    /// Import a family. The whole of it is validated before anything changes.
    pub fn import(&mut self, family: ThemeFamily, converted: bool) -> (imported: Result<
        Imported,
        ThemeError,
    >)
        requires
            old(self)@.well_formed(),
        ensures
            final(self)@.well_formed(),
            match (imported, family_refusal(family@, old(self)@.bundled)) {
                (Ok(got), None) => final(self)@ == old(self)@.with_preferences(
                    taking_in(old(self)@.preferences, family@),
                ) && got == (Imported {
                    converted,
                    mode: import_mode(family@, old(self)@.current.mode),
                }),
                (Err(got), Some(want)) => got@ == want && final(self)@ == old(self)@,
                _ => false,
            },
    {
        match validate_family(&family, &self.bundled) {
            Ok(_) => {},
            Err(refusal) => {
                return Err(refusal);
            },
        }
        let ghost themes = family@.themes;
        let ghost before = self@.preferences;
        let mut mode = family.themes[0].appearance;
        let mut found = false;
        let mut i: usize = 0;
        assert(themes.take(0) =~= Seq::<ThemeConfig>::empty());
        while i < family.themes.len()
            invariant
                i <= family.themes@.len(),
                themes == family.themes@,
                themes.len() > 0,
                before == old(self)@.preferences,
                self.preferences.families == old(self).preferences.families,
                self.bundled == old(self).bundled,
                self.available == old(self).available,
                self.opaque_canvas == old(self).opaque_canvas,
                self.revision == old(self).revision,
                self.current == old(self).current,
                crate::theme::registry::name_model(self.preferences.light) == last_of_mode(
                    themes.take(i as int),
                    ThemeMode::Light,
                    before.light,
                ),
                crate::theme::registry::name_model(self.preferences.dark) == last_of_mode(
                    themes.take(i as int),
                    ThemeMode::Dark,
                    before.dark,
                ),
                found == exists|j: int|
                    0 <= j < i && (#[trigger] themes[j]).appearance == old(self).current.mode,
                mode == if found {
                    old(self).current.mode
                } else {
                    themes[0].appearance
                },
            decreases family.themes@.len() - i,
        {
            let config = &family.themes[i];
            proof {
                assert(themes.take(i + 1).drop_last() =~= themes.take(i as int));
                assert(themes.take(i + 1).last() == *config);
            }
            if config.appearance == self.current.mode {
                assert(themes[i as int].appearance == old(self).current.mode);
                found = true;
                mode = self.current.mode;
            }
            if config.appearance.is_dark() {
                self.preferences.dark = Some(config.name.clone());
            } else {
                self.preferences.light = Some(config.name.clone());
            }
            i += 1;
        }
        assert(themes.take(themes.len() as int) =~= themes);
        let ghost gone = |name: Seq<char>| names_one(themes, name);
        let mut families = {
            let removed = Gone::Family(&family.themes);
            let kept = clear(&self.preferences.families, &removed);
            assert((|name: Seq<char>| removed.holds(name)) =~= gone);
            kept
        };
        let ghost kept = families@;
        let ghost added = family@;
        families.push(family);
        assert(families_model(families@) =~= families_model(kept).push(added));
        self.preferences.families = families;
        assert(self@.preferences =~= taking_in(before, added));
        self.rebuild();
        Ok(Imported { converted, mode })
    }

    /// Remove the theme in use, where it is one of the user's. Whatever was chosen
    /// by its name is chosen no longer.
    pub fn remove_selected(&mut self)
        requires
            old(self)@.well_formed(),
        ensures
            final(self)@ == old(self)@.with_preferences(
                without(old(self)@.preferences, old(self)@.current.theme_name),
            ),
            final(self)@.well_formed(),
    {
        let name = self.current.theme_name.clone();
        let removed = Gone::Name(&name);
        self.preferences.families = clear(&self.preferences.families, &removed);
        assert((|other: Seq<char>| removed.holds(other)) =~= only(name@));
        if is_name(&self.preferences.light, &name) {
            self.preferences.light = None;
        }
        if is_name(&self.preferences.dark, &name) {
            self.preferences.dark = None;
        }
        assert(self@.preferences =~= without(old(self)@.preferences, name@));
        self.rebuild();
    }

    /// The names to choose from for an appearance.
    pub fn choices(&self, mode: ThemeMode) -> (names: Vec<String>)
        ensures
            names@.len() == choice_names(self@.available, mode).len(),
            forall|i: int|
                0 <= i < names@.len() ==> (#[trigger] names@[i])@ == choice_names(
                    self@.available,
                    mode,
                )[i],
    {
        let mut names: Vec<String> = Vec::new();
        let ghost all = self@.available;
        let mut i: usize = 0;
        assert(all.take(0) =~= Seq::<ThemeModel>::empty());
        while i < self.available.len()
            invariant
                i <= self.available@.len(),
                all == self@.available,
                names@.len() == choice_names(all.take(i as int), mode).len(),
                forall|j: int|
                    0 <= j < names@.len() ==> (#[trigger] names@[j])@ == choice_names(
                        all.take(i as int),
                        mode,
                    )[j],
            decreases self.available@.len() - i,
        {
            proof {
                assert(all.take(i + 1).drop_last() =~= all.take(i as int));
                assert(all.take(i + 1).last() == self.available@[i as int]@);
            }
            if self.available[i].mode == mode {
                names.push(self.available[i].theme_name.clone());
            }
            i += 1;
        }
        assert(all.take(all.len() as int) =~= all);
        names
    }

    /// The theme in use as a file: the user's family that holds it, else the
    /// bundled theme under a name of its own. Nothing where it was removed since.
    pub fn export_selected(&self) -> (file: Option<ThemeFamily>)
        ensures
            match (file, exported(self@)) {
                (Some(got), Some(want)) => same_file(got@, want),
                (None, None) => true,
                _ => false,
            },
    {
        let name = &self.current.theme_name;
        let ghost all = self@.preferences.families;
        let mut i: usize = 0;
        while i < self.preferences.families.len()
            invariant
                i <= self.preferences.families@.len(),
                all == self@.preferences.families,
                name@ == self@.current.theme_name,
                forall|f: int|
                    0 <= f < i ==> !names_one((#[trigger] all[f]).themes, name@),
            decreases self.preferences.families@.len() - i,
        {
            let family = &self.preferences.families[i];
            assert(all[i as int] == family@);
            if theme_named(&family.themes, name).is_some() {
                proof {
                    lemma_first_family(all, name@, i as int);
                }
                return Some(
                    ThemeFamily {
                        name: family.name.clone(),
                        author: family.author.clone(),
                        themes: copy_themes(&family.themes),
                    },
                );
            }
            i += 1;
        }
        proof {
            lemma_no_family(all, name@);
        }
        match theme_named(&self.bundled.themes, name) {
            Some(at) => {
                let mut own = name.clone();
                own.append(" Custom");
                let mut config = self.bundled.themes[at].clone();
                config.name = own.clone();
                let mut themes: Vec<ThemeConfig> = Vec::new();
                themes.push(config);
                let file = ThemeFamily { name: own, author: self.bundled.author.clone(), themes };
                proof {
                    lemma_first_theme(self@.bundled.themes, name@, at as int);
                    assert(file@.themes.len() == 1);
                }
                Some(file)
            },
            None => {
                proof {
                    lemma_no_theme(self@.bundled.themes, name@);
                }
                None
            },
        }
    }
}

pub open spec fn choice_names(themes: Seq<ThemeModel>, mode: ThemeMode) -> Seq<Seq<char>>
    decreases themes.len(),
{
    if themes.len() == 0 {
        Seq::empty()
    } else {
        let before = choice_names(themes.drop_last(), mode);
        if themes.last().mode == mode {
            before.push(themes.last().theme_name)
        } else {
            before
        }
    }
}

/// The first family that has a theme of a name.
pub open spec fn family_with(families: Seq<FamilyModel>, name: Seq<char>) -> Option<FamilyModel>
    decreases families.len(),
{
    if families.len() == 0 {
        None
    } else if names_one(families[0].themes, name) {
        Some(families[0])
    } else {
        family_with(families.drop_first(), name)
    }
}

/// The first theme of a name.
pub open spec fn theme_with(themes: Seq<ThemeConfig>, name: Seq<char>) -> Option<ThemeConfig>
    decreases themes.len(),
{
    if themes.len() == 0 {
        None
    } else if themes[0].name@ == name {
        Some(themes[0])
    } else {
        theme_with(themes.drop_first(), name)
    }
}

/// A theme file: a family, or one theme under another name.
pub enum FileModel {
    Family(FamilyModel),
    Renamed { name: Seq<char>, author: Seq<char>, theme: ThemeConfig },
}

pub open spec fn exported(themes: ThemesModel) -> Option<FileModel> {
    let name = themes.current.theme_name;
    match family_with(themes.preferences.families, name) {
        Some(family) => Some(FileModel::Family(family)),
        None => match theme_with(themes.bundled.themes, name) {
            Some(theme) => Some(
                FileModel::Renamed {
                    name: name + " Custom"@,
                    author: themes.bundled.author,
                    theme,
                },
            ),
            None => None,
        },
    }
}

pub open spec fn same_file(family: FamilyModel, file: FileModel) -> bool {
    match file {
        FileModel::Family(want) => family == want,
        FileModel::Renamed { name, author, theme } => {
            &&& family.name == name
            &&& family.author == author
            &&& family.themes.len() == 1
            &&& family.themes[0] == (ThemeConfig { name: family.themes[0].name, ..theme })
            &&& family.themes[0].name@ == name
        },
    }
}

proof fn lemma_first_family(families: Seq<FamilyModel>, name: Seq<char>, at: int)
    requires
        0 <= at < families.len(),
        names_one(families[at].themes, name),
        forall|f: int| 0 <= f < at ==> !names_one((#[trigger] families[f]).themes, name),
    ensures
        family_with(families, name) == Some(families[at]),
    decreases at,
{
    if at > 0 {
        assert(!names_one(families[0].themes, name));
        let rest = families.drop_first();
        assert forall|f: int| 0 <= f < at - 1 implies !names_one(
            (#[trigger] rest[f]).themes,
            name,
        ) by {
            assert(rest[f] == families[f + 1]);
        }
        lemma_first_family(rest, name, at - 1);
    }
}

proof fn lemma_no_family(families: Seq<FamilyModel>, name: Seq<char>)
    requires
        forall|f: int|
            0 <= f < families.len() ==> !names_one((#[trigger] families[f]).themes, name),
    ensures
        family_with(families, name) is None,
    decreases families.len(),
{
    if families.len() > 0 {
        let rest = families.drop_first();
        assert forall|f: int| 0 <= f < rest.len() implies !names_one(
            (#[trigger] rest[f]).themes,
            name,
        ) by {
            assert(rest[f] == families[f + 1]);
        }
        assert(!names_one(families[0].themes, name));
        lemma_no_family(rest, name);
    }
}

proof fn lemma_first_theme(themes: Seq<ThemeConfig>, name: Seq<char>, at: int)
    requires
        0 <= at < themes.len(),
        themes[at].name@ == name,
        forall|j: int| 0 <= j < at ==> (#[trigger] themes[j]).name@ != name,
    ensures
        theme_with(themes, name) == Some(themes[at]),
    decreases at,
{
    if at > 0 {
        let rest = themes.drop_first();
        assert(themes[0].name@ != name);
        assert forall|j: int| 0 <= j < at - 1 implies (#[trigger] rest[j]).name@ != name by {
            assert(rest[j] == themes[j + 1]);
        }
        lemma_first_theme(rest, name, at - 1);
    }
}

proof fn lemma_no_theme(themes: Seq<ThemeConfig>, name: Seq<char>)
    requires
        forall|j: int| 0 <= j < themes.len() ==> (#[trigger] themes[j]).name@ != name,
    ensures
        theme_with(themes, name) is None,
    decreases themes.len(),
{
    if themes.len() > 0 {
        let rest = themes.drop_first();
        assert(themes[0].name@ != name);
        assert forall|j: int| 0 <= j < rest.len() implies (#[trigger] rest[j]).name@ != name by {
            assert(rest[j] == themes[j + 1]);
        }
        lemma_no_theme(rest, name);
    }
}

} // verus!
