//! The themes there are, and which of them is in use.
use crate::theme::config::{Json, ThemeConfig, ThemeErrorModel, ThemeFamily};
use crate::theme::resolve::{resolve_theme, resolved, Theme, ThemeColors, ThemeModel};
use crate::theme::{ThemeMode, WindowAppearance};
use vstd::prelude::*;

verus! {

#[verifier::ext_equal]
pub struct FamilyModel {
    pub name: Seq<char>,
    pub author: Seq<char>,
    pub themes: Seq<ThemeConfig>,
}

impl View for ThemeFamily {
    type V = FamilyModel;

    open spec fn view(&self) -> FamilyModel {
        FamilyModel { name: self.name@, author: self.author@, themes: self.themes@ }
    }
}

pub open spec fn families_model(families: Seq<ThemeFamily>) -> Seq<FamilyModel> {
    Seq::new(families.len(), |i: int| families[i]@)
}

/// What the user imported and chose.
pub struct ThemePreferences {
    pub families: Vec<ThemeFamily>,
    pub light: Option<String>,
    pub dark: Option<String>,
}

#[verifier::ext_equal]
pub struct PreferencesModel {
    pub families: Seq<FamilyModel>,
    pub light: Option<Seq<char>>,
    pub dark: Option<Seq<char>>,
}

pub open spec fn name_model(name: Option<String>) -> Option<Seq<char>> {
    match name {
        Some(text) => Some(text@),
        None => None,
    }
}

impl View for ThemePreferences {
    type V = PreferencesModel;

    open spec fn view(&self) -> PreferencesModel {
        PreferencesModel {
            families: families_model(self.families@),
            light: name_model(self.light),
            dark: name_model(self.dark),
        }
    }
}

impl Default for ThemePreferences {
    fn default() -> (preferences: Self)
        ensures
            preferences@ == PreferencesModel::none(),
    {
        let preferences = ThemePreferences { families: Vec::new(), light: None, dark: None };
        assert(preferences@ =~= PreferencesModel::none());
        preferences
    }
}

impl PreferencesModel {
    pub open spec fn none() -> PreferencesModel {
        PreferencesModel { families: Seq::empty(), light: None, dark: None }
    }

    pub open spec fn chosen(self, mode: ThemeMode) -> Option<Seq<char>> {
        if mode == ThemeMode::Dark {
            self.dark
        } else {
            self.light
        }
    }

    pub open spec fn choosing(self, mode: ThemeMode, name: Seq<char>) -> PreferencesModel {
        if mode == ThemeMode::Dark {
            PreferencesModel { dark: Some(name), ..self }
        } else {
            PreferencesModel { light: Some(name), ..self }
        }
    }
}

/// The bundled style of an appearance.
pub open spec fn bundled_style(bundled: FamilyModel, mode: ThemeMode) -> Seq<(String, Json)> {
    bundled.themes[if mode == ThemeMode::Dark {
        1
    } else {
        0
    }].style@
}

pub open spec fn resolves(config: ThemeConfig, bundled: FamilyModel) -> Result<
    ThemeModel,
    ThemeErrorModel,
> {
    resolved(config, bundled_style(bundled, config.appearance))
}

/// The themes that configurations resolve to; those that do not are left out.
pub open spec fn usable(configs: Seq<ThemeConfig>, bundled: FamilyModel) -> Seq<ThemeModel>
    decreases configs.len(),
{
    if configs.len() == 0 {
        Seq::empty()
    } else {
        let before = usable(configs.drop_last(), bundled);
        match resolves(configs.last(), bundled) {
            Ok(theme) => before.push(theme),
            Err(_) => before,
        }
    }
}

/// The configurations of all families, in order.
pub open spec fn all_configs(families: Seq<FamilyModel>) -> Seq<ThemeConfig>
    decreases families.len(),
{
    if families.len() == 0 {
        Seq::empty()
    } else {
        all_configs(families.drop_last()) + families.last().themes
    }
}

/// All themes: the bundled ones, then the usable ones of the user's.
pub open spec fn all_themes(bundled: FamilyModel, families: Seq<FamilyModel>) -> Seq<ThemeModel> {
    usable(bundled.themes, bundled) + usable(all_configs(families), bundled)
}

/// Whether a family can be the bundled one: it has a light and a dark theme, in
/// this order, and all its themes resolve.
pub open spec fn bundle_is_valid(bundled: FamilyModel) -> bool {
    &&& bundled.themes.len() >= 2
    &&& forall|i: int|
        0 <= i < bundled.themes.len() ==> resolves(#[trigger] bundled.themes[i], bundled) is Ok
}

/// The themes there are.
pub struct Themes {
    pub bundled: ThemeFamily,
    pub available: Vec<Theme>,
    pub preferences: ThemePreferences,
    pub opaque_canvas: bool,
    pub revision: u64,
    /// The theme in use.
    pub current: Theme,
}

pub open spec fn themes_model(themes: Seq<Theme>) -> Seq<ThemeModel> {
    Seq::new(themes.len(), |i: int| themes[i]@)
}

#[verifier::ext_equal]
pub struct ThemesModel {
    pub bundled: FamilyModel,
    pub available: Seq<ThemeModel>,
    pub preferences: PreferencesModel,
    pub opaque_canvas: bool,
    pub revision: u64,
    pub current: ThemeModel,
}

impl View for Themes {
    type V = ThemesModel;

    open spec fn view(&self) -> ThemesModel {
        ThemesModel {
            bundled: self.bundled@,
            available: themes_model(self.available@),
            preferences: self.preferences@,
            opaque_canvas: self.opaque_canvas,
            revision: self.revision,
            current: self.current@,
        }
    }
}

proof fn lemma_usable_of_valid(configs: Seq<ThemeConfig>, bundled: FamilyModel)
    requires
        forall|i: int| 0 <= i < configs.len() ==> resolves(#[trigger] configs[i], bundled) is Ok,
    ensures
        usable(configs, bundled).len() == configs.len(),
        forall|i: int|
            0 <= i < configs.len() ==> Ok::<ThemeModel, ThemeErrorModel>(
                #[trigger] usable(configs, bundled)[i],
            ) == resolves(configs[i], bundled),
    decreases configs.len(),
{
    if configs.len() > 0 {
        let shorter = configs.drop_last();
        assert forall|i: int| 0 <= i < shorter.len() implies resolves(
            #[trigger] shorter[i],
            bundled,
        ) is Ok by {
            assert(resolves(configs[i], bundled) is Ok);
        }
        lemma_usable_of_valid(shorter, bundled);
        assert(resolves(configs[configs.len() - 1], bundled) is Ok);
        assert forall|i: int| 0 <= i < configs.len() implies Ok::<ThemeModel, ThemeErrorModel>(
            #[trigger] usable(configs, bundled)[i],
        ) == resolves(configs[i], bundled) by {
            if i < shorter.len() {
                assert(usable(configs, bundled)[i] == usable(shorter, bundled)[i]);
                assert(shorter[i] == configs[i]);
            }
        }
    }
}

impl ThemesModel {
    /// The bundle is valid, and what is available is what it and the preferences
    /// give.
    pub open spec fn well_formed(self) -> bool {
        &&& bundle_is_valid(self.bundled)
        &&& self.available == all_themes(self.bundled, self.preferences.families)
    }

    /// Whether a theme is the one chosen for an appearance.
    pub open spec fn is_choice(self, theme: ThemeModel, mode: ThemeMode) -> bool {
        theme.mode == mode && self.preferences.chosen(mode) == Some(theme.theme_name)
    }

    /// The place of the theme for an appearance: the first that is its choice,
    /// else the bundled one.
    pub open spec fn selected_at(self, mode: ThemeMode) -> int {
        if exists|i: int|
            0 <= i < self.available.len() && self.is_choice(#[trigger] self.available[i], mode) {
            choose|i: int| #[trigger]
                self.first_choice(i, mode)
        } else if mode == ThemeMode::Dark {
            1
        } else {
            0
        }
    }

    pub open spec fn first_choice(self, i: int, mode: ThemeMode) -> bool {
        &&& 0 <= i < self.available.len()
        &&& self.is_choice(self.available[i], mode)
        &&& forall|j: int|
            0 <= j < i ==> !self.is_choice(#[trigger] self.available[j], mode)
    }

    pub open spec fn selected(self, mode: ThemeMode) -> ThemeModel {
        self.available[self.selected_at(mode)]
    }

    /// The preferences changed, and what is available with them.
    pub open spec fn with_preferences(self, preferences: PreferencesModel) -> ThemesModel {
        ThemesModel {
            preferences,
            available: all_themes(self.bundled, preferences.families),
            ..self
        }
    }

    /// The theme of an appearance comes into use.
    pub open spec fn in_mode(self, mode: ThemeMode) -> ThemesModel {
        let revision = (self.revision + 1) as u64;
        let theme = self.selected(mode);
        ThemesModel {
            revision,
            current: ThemeModel {
                revision,
                colors: if self.opaque_canvas {
                    ThemeColors { background: theme.colors.background.faded(100), ..theme.colors }
                } else {
                    theme.colors
                },
                ..theme
            },
            ..self
        }
    }
}

fn build(bundled: &ThemeFamily, families: &Vec<ThemeFamily>) -> (available: Vec<Theme>)
    requires
        bundled@.themes.len() >= 2,
    ensures
        themes_model(available@) == all_themes(bundled@, families_model(families@)),
{
    let mut available: Vec<Theme> = Vec::new();
    push_usable(&mut available, &bundled.themes, bundled);
    let ghost embedded = themes_model(available@);
    assert(embedded =~= usable(bundled@.themes, bundled@));
    let ghost all = families_model(families@);
    let mut i: usize = 0;
    assert(all.take(0) =~= Seq::<FamilyModel>::empty());
    assert(themes_model(available@) =~= embedded + usable(all_configs(all.take(0)), bundled@));
    while i < families.len()
        invariant
            i <= families@.len(),
            all == families_model(families@),
            bundled@.themes.len() >= 2,
            themes_model(available@) == embedded + usable(
                all_configs(all.take(i as int)),
                bundled@,
            ),
        decreases families@.len() - i,
    {
        let ghost before = all_configs(all.take(i as int));
        push_usable(&mut available, &families[i].themes, bundled);
        proof {
            assert(all.take(i + 1).drop_last() =~= all.take(i as int));
            assert(all.take(i + 1).last() == families@[i as int]@);
            lemma_usable_joins(before, families@[i as int].themes@, bundled@);
            assert(themes_model(available@) =~= embedded + usable(
                all_configs(all.take(i + 1)),
                bundled@,
            ));
        }
        i += 1;
    }
    assert(all.take(all.len() as int) =~= all);
    available
}

proof fn lemma_usable_joins(a: Seq<ThemeConfig>, b: Seq<ThemeConfig>, bundled: FamilyModel)
    ensures
        usable(a + b, bundled) == usable(a, bundled) + usable(b, bundled),
    decreases b.len(),
{
    if b.len() == 0 {
        assert(a + b =~= a);
        assert(usable(a, bundled) + usable(b, bundled) =~= usable(a, bundled));
    } else {
        lemma_usable_joins(a, b.drop_last(), bundled);
        assert((a + b).drop_last() =~= a + b.drop_last());
        assert(usable(a + b, bundled) =~= usable(a, bundled) + usable(b, bundled));
    }
}

fn push_usable(available: &mut Vec<Theme>, configs: &Vec<ThemeConfig>, bundled: &ThemeFamily)
    requires
        bundled@.themes.len() >= 2,
    ensures
        themes_model(final(available)@) == themes_model(old(available)@) + usable(
            configs@,
            bundled@,
        ),
{
    let ghost before = themes_model(available@);
    let mut i: usize = 0;
    assert(configs@.take(0) =~= Seq::<ThemeConfig>::empty());
    assert(themes_model(available@) =~= before + usable(configs@.take(0), bundled@));
    while i < configs.len()
        invariant
            i <= configs@.len(),
            bundled@.themes.len() >= 2,
            themes_model(available@) == before + usable(configs@.take(i as int), bundled@),
        decreases configs@.len() - i,
    {
        let ghost held = available@;
        proof {
            assert(configs@.take(i + 1).drop_last() =~= configs@.take(i as int));
            assert(configs@.take(i + 1).last() == configs@[i as int]);
        }
        let at: usize = if configs[i].appearance.is_dark() {
            1
        } else {
            0
        };
        match resolve_theme(&configs[i], &bundled.themes[at].style) {
            Ok(theme) => {
                let ghost added = theme@;
                available.push(theme);
                assert(themes_model(available@) =~= themes_model(held).push(added));
            },
            Err(_) => {},
        }
        assert(themes_model(available@) =~= before + usable(configs@.take(i + 1), bundled@));
        i += 1;
    }
    assert(configs@.take(configs@.len() as int) =~= configs@);
}

/// Whether an optional name is a given one.
pub(crate) fn is_name(name: &Option<String>, other: &String) -> (same: bool)
    ensures
        same == (name_model(*name) == Some(other@)),
{
    match name {
        Some(text) => *text == *other,
        None => false,
    }
}

impl Themes {
    /// The themes of an application whose windows let what is behind them show.
    pub fn init(bundled: ThemeFamily) -> (themes: Option<Themes>)
        ensures
            match themes {
                Some(t) => bundle_is_valid(bundled@) && t@.well_formed() && t@ == (ThemesModel {
                    bundled: bundled@,
                    available: all_themes(bundled@, Seq::empty()),
                    preferences: PreferencesModel::none(),
                    opaque_canvas: false,
                    revision: 0,
                    current: all_themes(bundled@, Seq::empty())[0],
                }).in_mode(ThemeMode::Light),
                None => !bundle_is_valid(bundled@),
            },
    {
        Themes::init_with_options(bundled, false)
    }

    /// The themes of an application that bundles a family. Nothing is chosen, and
    /// the bundled light theme is in use.
    pub fn init_with_options(bundled: ThemeFamily, opaque_canvas: bool) -> (themes: Option<Themes>)
        ensures
            match themes {
                Some(t) => bundle_is_valid(bundled@) && t@.well_formed() && t@ == (ThemesModel {
                    bundled: bundled@,
                    available: all_themes(bundled@, Seq::empty()),
                    preferences: PreferencesModel::none(),
                    opaque_canvas,
                    revision: 0,
                    current: all_themes(bundled@, Seq::empty())[0],
                }).in_mode(ThemeMode::Light),
                None => !bundle_is_valid(bundled@),
            },
    {
        if bundled.themes.len() < 2 {
            return None;
        }
        let mut i: usize = 0;
        while i < bundled.themes.len()
            invariant
                i <= bundled.themes@.len(),
                bundled.themes@.len() >= 2,
                forall|j: int|
                    0 <= j < i ==> resolves(#[trigger] bundled.themes@[j], bundled@) is Ok,
            decreases bundled.themes@.len() - i,
        {
            let at: usize = if bundled.themes[i].appearance.is_dark() {
                1
            } else {
                0
            };
            match resolve_theme(&bundled.themes[i], &bundled.themes[at].style) {
                Ok(_) => {},
                Err(_) => {
                    assert(resolves(bundled@.themes[i as int], bundled@) is Err);
                    return None;
                },
            }
            i += 1;
        }
        assert forall|j: int| 0 <= j < bundled@.themes.len() implies resolves(
            #[trigger] bundled@.themes[j],
            bundled@,
        ) is Ok by {
            assert(resolves(bundled.themes@[j], bundled@) is Ok);
        }
        let preferences = ThemePreferences::default();
        let available = build(&bundled, &preferences.families);
        proof {
            lemma_usable_of_valid(bundled@.themes, bundled@);
            assert(families_model(preferences.families@) =~= Seq::empty());
            assert(themes_model(available@) =~= all_themes(bundled@, Seq::empty()));
        }
        let current = available[0].clone();
        let mut themes = Themes {
            bundled,
            available,
            preferences,
            opaque_canvas,
            revision: 0,
            current,
        };
        assert(themes@ =~= (ThemesModel {
            bundled: bundled@,
            available: all_themes(bundled@, Seq::empty()),
            preferences: PreferencesModel::none(),
            opaque_canvas,
            revision: 0,
            current: all_themes(bundled@, Seq::empty())[0],
        }));
        themes.change_mode(ThemeMode::Light);
        Some(themes)
    }

    pub(crate) fn rebuild(&mut self)
        requires
            bundle_is_valid(old(self)@.bundled),
        ensures
            final(self)@ == old(self)@.with_preferences(old(self)@.preferences),
            final(self)@.well_formed(),
    {
        self.available = build(&self.bundled, &self.preferences.families);
        assert(self@ =~= old(self)@.with_preferences(old(self)@.preferences));
    }

    /// The place of the theme for an appearance.
    fn position(&self, mode: ThemeMode) -> (at: usize)
        requires
            self@.well_formed(),
        ensures
            at == self@.selected_at(mode),
            at < self.available@.len(),
    {
        proof {
            lemma_usable_of_valid(self@.bundled.themes, self@.bundled);
        }
        let name: &Option<String> = if mode.is_dark() {
            &self.preferences.dark
        } else {
            &self.preferences.light
        };
        let mut i: usize = 0;
        while i < self.available.len()
            invariant
                i <= self.available@.len(),
                name_model(*name) == self@.preferences.chosen(mode),
                self@.available.len() >= 2,
                forall|j: int|
                    0 <= j < i ==> !self@.is_choice(#[trigger] self@.available[j], mode),
            decreases self.available@.len() - i,
        {
            assert(self@.available[i as int] == self.available@[i as int]@);
            if self.available[i].mode == mode && is_name(name, &self.available[i].theme_name) {
                proof {
                    assert(self@.first_choice(i as int, mode));
                    let chosen = choose|c: int| #[trigger] self@.first_choice(c, mode);
                    assert(chosen == i) by {
                        if chosen < i {
                            assert(!self@.is_choice(self@.available[chosen], mode));
                        } else if i < chosen {
                            assert(!self@.is_choice(self@.available[i as int], mode));
                        }
                    }
                }
                return i;
            }
            i += 1;
        }
        if mode.is_dark() {
            1
        } else {
            0
        }
    }

    /// The theme for an appearance: the chosen one, else the bundled one.
    pub fn selected(&self, mode: ThemeMode) -> (theme: &Theme)
        requires
            self@.well_formed(),
        ensures
            theme@ == self@.selected(mode),
    {
        let at = self.position(mode);
        &self.available[at]
    }

    pub fn selected_name(&self, mode: ThemeMode) -> (name: String)
        requires
            self@.well_formed(),
        ensures
            name@ == self@.selected(mode).theme_name,
    {
        self.selected(mode).theme_name.clone()
    }

    /// Choose a theme for an appearance.
    pub fn select(&mut self, mode: ThemeMode, name: String)
        ensures
            final(self)@ == (ThemesModel {
                preferences: old(self)@.preferences.choosing(mode, name@),
                ..old(self)@
            }),
    {
        if mode.is_dark() {
            self.preferences.dark = Some(name);
        } else {
            self.preferences.light = Some(name);
        }
    }

    /// Go back to the bundled themes.
    pub fn reset_selection(&mut self)
        ensures
            final(self)@ == (ThemesModel {
                preferences: PreferencesModel {
                    light: None,
                    dark: None,
                    ..old(self)@.preferences
                },
                ..old(self)@
            }),
    {
        self.preferences.light = None;
        self.preferences.dark = None;
    }

    /// Take saved preferences over; none are the default ones.
    pub fn restore_preferences(&mut self, saved: Option<ThemePreferences>)
        requires
            old(self)@.well_formed(),
        ensures
            final(self)@ == old(self)@.with_preferences(
                match saved {
                    Some(preferences) => preferences@,
                    None => PreferencesModel::none(),
                },
            ),
            final(self)@.well_formed(),
    {
        self.preferences = match saved {
            Some(preferences) => preferences,
            None => ThemePreferences::default(),
        };
        self.rebuild();
    }

    /// Bring the theme of an appearance into use.
    pub fn change_mode(&mut self, mode: ThemeMode)
        requires
            old(self)@.well_formed(),
            old(self).revision < u64::MAX,
        ensures
            final(self)@ == old(self)@.in_mode(mode),
            final(self)@.well_formed(),
    {
        let at = self.position(mode);
        self.revision = self.revision + 1;
        let mut theme = self.available[at].clone();
        assert(theme@ == old(self)@.available[at as int]);
        theme.revision = self.revision;
        if self.opaque_canvas {
            theme.colors.background = theme.colors.background.opacity(100);
        }
        self.current = theme;
        assert(self@ =~= old(self)@.in_mode(mode));
    }

    /// Bring the theme of the platform's appearance into use.
    pub fn sync_system_appearance(&mut self, appearance: WindowAppearance)
        requires
            old(self)@.well_formed(),
            old(self).revision < u64::MAX,
        ensures
            final(self)@ == old(self)@.in_mode(
                if appearance == WindowAppearance::Dark || appearance
                    == WindowAppearance::VibrantDark {
                    ThemeMode::Dark
                } else {
                    ThemeMode::Light
                },
            ),
            final(self)@.well_formed(),
    {
        self.change_mode(ThemeMode::from(appearance));
    }

    /// Whether the theme in use is one of the user's.
    pub fn is_custom(&self) -> (custom: bool)
        ensures
            custom == exists|i: int, j: int|
                0 <= i < self@.preferences.families.len() && 0 <= j
                    < self@.preferences.families[i].themes.len()
                    && (#[trigger] self@.preferences.families[i].themes[j]).name@
                    == self@.current.theme_name,
    {
        let mut i: usize = 0;
        while i < self.preferences.families.len()
            invariant
                i <= self.preferences.families@.len(),
                forall|f: int, j: int|
                    0 <= f < i && 0 <= j < self@.preferences.families[f].themes.len() ==> (
                    #[trigger] self@.preferences.families[f].themes[j]).name@
                        != self@.current.theme_name,
            decreases self.preferences.families@.len() - i,
        {
            let family = &self.preferences.families[i];
            assert(self@.preferences.families[i as int] == family@);
            match theme_named(&family.themes, &self.current.theme_name) {
                Some(at) => {
                    assert(self@.preferences.families[i as int].themes[at as int].name@
                        == self@.current.theme_name);
                    return true;
                },
                None => {},
            }
            i += 1;
        }
        false
    }
}

/// The place of the first theme of a name.
pub(crate) fn theme_named(themes: &Vec<ThemeConfig>, name: &String) -> (at: Option<usize>)
    ensures
        match at {
            Some(i) => i < themes@.len() && themes@[i as int].name@ == name@ && forall|j: int|
                0 <= j < i ==> (#[trigger] themes@[j]).name@ != name@,
            None => forall|j: int| 0 <= j < themes@.len() ==> (#[trigger] themes@[j]).name@ != name@,
        },
{
    let mut i: usize = 0;
    while i < themes.len()
        invariant
            i <= themes@.len(),
            forall|j: int| 0 <= j < i ==> (#[trigger] themes@[j]).name@ != name@,
        decreases themes@.len() - i,
    {
        if themes[i].name == *name {
            return Some(i);
        }
        i += 1;
    }
    None
}

} // verus!
