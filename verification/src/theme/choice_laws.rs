//! Which themes there are, and which is in use.
use crate::protocol::ThemePreference;
use crate::theme::config::{Refusal, ThemeConfig};
use crate::theme::editor::preference_of;
use crate::theme::import::{
    choice_names, config_refusal, exported, family_refusal, family_with, first_refusal, import_mode,
    last_of_mode, names_one, taking_in, theme_with, unnamed, without, FileModel,
};
use crate::theme::registry::{all_configs, resolves, FamilyModel, PreferencesModel, ThemesModel};
use crate::theme::resolve::ThemeModel;
use crate::theme::ThemeMode;
use vstd::prelude::*;

verus! {

/// Each appearance has a choice of its own: choosing for one leaves the other's.
pub proof fn law_each_appearance_has_its_own_choice(
    preferences: PreferencesModel,
    name: Seq<char>,
)
    ensures
        preferences.choosing(ThemeMode::Dark, name).dark == Some(name),
        preferences.choosing(ThemeMode::Dark, name).light == preferences.light,
        preferences.choosing(ThemeMode::Light, name).light == Some(name),
        preferences.choosing(ThemeMode::Light, name).dark == preferences.dark,
        preferences.choosing(ThemeMode::Light, name).families == preferences.families,
        preferences.choosing(ThemeMode::Dark, name).families == preferences.families,
        preferences.chosen(ThemeMode::Dark) == preferences.dark,
        preferences.chosen(ThemeMode::Light) == preferences.light,
{
}

/// The theme for an appearance is the first of that appearance with the chosen name; where
/// there is none, the bundled one: the first for light, the second for dark.
pub proof fn law_the_chosen_theme_is_selected(themes: ThemesModel, mode: ThemeMode, at: int)
    requires
        themes.available.len() >= 2,
    ensures
        ({
            let name = if mode == ThemeMode::Dark {
                themes.preferences.dark
            } else {
                themes.preferences.light
            };
            &&& 0 <= at < themes.available.len() && themes.available[at].mode == mode && name
                == Some(themes.available[at].theme_name) && (forall|j: int|
                0 <= j < at ==> !((#[trigger] themes.available[j]).mode == mode && name == Some(
                    themes.available[j].theme_name,
                ))) ==> themes.selected(mode) == themes.available[at]
            &&& (forall|j: int|
                0 <= j < themes.available.len() ==> !((#[trigger] themes.available[j]).mode == mode
                    && name == Some(themes.available[j].theme_name))) ==> themes.selected(mode)
                == if mode == ThemeMode::Dark {
                themes.available[1]
            } else {
                themes.available[0]
            }
        }),
{
    let name = if mode == ThemeMode::Dark {
        themes.preferences.dark
    } else {
        themes.preferences.light
    };
    if 0 <= at < themes.available.len() && themes.available[at].mode == mode && name == Some(
        themes.available[at].theme_name,
    ) && (forall|j: int|
        0 <= j < at ==> !((#[trigger] themes.available[j]).mode == mode && name == Some(
            themes.available[j].theme_name,
        ))) {
        assert(themes.is_choice(themes.available[at], mode));
        assert(themes.first_choice(at, mode));
        let found = choose|i: int| #[trigger] themes.first_choice(i, mode);
        assert(themes.first_choice(found, mode));
        assert(found == at) by {
            if found < at {
                assert(themes.is_choice(themes.available[found], mode));
            } else if at < found {
                assert(themes.is_choice(themes.available[at], mode));
            }
        }
    }
    if forall|j: int|
        0 <= j < themes.available.len() ==> !((#[trigger] themes.available[j]).mode == mode && name
            == Some(themes.available[j].theme_name)) {
        assert forall|j: int| 0 <= j < themes.available.len() implies !themes.is_choice(
            #[trigger] themes.available[j],
            mode,
        ) by {
            assert(!(themes.available[j].mode == mode && name == Some(
                themes.available[j].theme_name,
            )));
        }
    }
}

/// The theme that comes into use is the selected one, under a new revision.
pub proof fn law_the_selected_theme_comes_into_use(themes: ThemesModel, mode: ThemeMode)
    requires
        themes.revision < u64::MAX,
    ensures
        ({
            let after = themes.in_mode(mode);
            let chosen = themes.selected(mode);
            &&& after.revision == themes.revision + 1
            &&& after.current.revision == after.revision
            &&& after.current.theme_name == chosen.theme_name
            &&& after.current.mode == chosen.mode
            &&& after.current.terminal == chosen.terminal
            &&& after.current.style == chosen.style
            &&& after.current.colors == chosen.colors
            &&& after.available == themes.available && after.preferences == themes.preferences
        }),
{
    let color = themes.selected(mode).colors.background;
    let kept = color.opacity as int;
    assert(kept * 100 / 100 == kept);
    assert(color.faded(100) == color);
}

/// A family is taken exactly if it has themes, and each of them has a name that is not
/// blank, that no theme before it and no bundled one has, and resolves.
pub proof fn law_families_are_taken_if_nothing_is_wrong(
    family: FamilyModel,
    bundled: FamilyModel,
)
    ensures
        family_refusal(family, bundled) is None <==> family.themes.len() > 0 && forall|i: int|
            0 <= i < family.themes.len() ==> nothing_wrong(family.themes, #[trigger] at(i), bundled),
{
    let n = family.themes.len() as int;
    if family_refusal(family, bundled) is None {
        assert forall|i: int| 0 <= i < n implies nothing_wrong(
            family.themes,
            #[trigger] at(i),
            bundled,
        ) by {
            lemma_none_refused(family.themes, n, i, bundled);
        }
    }
    if forall|i: int| 0 <= i < n ==> nothing_wrong(family.themes, #[trigger] at(i), bundled) {
        lemma_all_taken(family.themes, n, bundled);
    }
}

/// A position.
pub open spec fn at(i: int) -> int {
    i
}

/// Whether a theme of a family has a name of its own and colours that resolve.
pub open spec fn nothing_wrong(themes: Seq<ThemeConfig>, i: int, bundled: FamilyModel) -> bool {
    &&& exists|c: int|
        0 <= c < themes[i].name@.len() && !crate::text::white_space(#[trigger] themes[i].name@[c])
    &&& forall|j: int| 0 <= j < i ==> (#[trigger] themes[j]).name@ != themes[i].name@
    &&& forall|j: int|
        0 <= j < bundled.themes.len() ==> (#[trigger] bundled.themes[j]).name@ != themes[i].name@
    &&& resolves(themes[i], bundled) is Ok
}

proof fn lemma_one(themes: Seq<ThemeConfig>, i: int, bundled: FamilyModel)
    requires
        0 <= i < themes.len(),
    ensures
        config_refusal(themes, i, bundled) is None <==> nothing_wrong(themes, i, bundled),
{
    let name = themes[i].name@;
    if names_one(themes.take(i), name) {
        let j = choose|j: int| 0 <= j < i && (#[trigger] themes.take(i)[j]).name@ == name;
        assert(themes[j].name@ == name);
    } else {
        assert forall|j: int| 0 <= j < i implies (#[trigger] themes[j]).name@ != name by {
            assert(themes.take(i)[j] == themes[j]);
        }
    }
}

proof fn lemma_none_refused(themes: Seq<ThemeConfig>, n: int, i: int, bundled: FamilyModel)
    requires
        0 <= i < n <= themes.len(),
        first_refusal(themes, n, bundled) is None,
    ensures
        nothing_wrong(themes, i, bundled),
    decreases n,
{
    if i < n - 1 {
        lemma_none_refused(themes, n - 1, i, bundled);
    } else {
        lemma_one(themes, i, bundled);
    }
}

proof fn lemma_all_taken(themes: Seq<ThemeConfig>, n: int, bundled: FamilyModel)
    requires
        0 <= n <= themes.len(),
        forall|i: int| 0 <= i < n ==> nothing_wrong(themes, #[trigger] at(i), bundled),
    ensures
        first_refusal(themes, n, bundled) is None,
    decreases n,
{
    if n > 0 {
        lemma_all_taken(themes, n - 1, bundled);
        assert(nothing_wrong(themes, at(n - 1), bundled));
        lemma_one(themes, n - 1, bundled);
    }
}

/// What is wrong with the first theme of a family is what the family is refused for.
pub proof fn law_refusals_say_what_is_wrong(family: FamilyModel, bundled: FamilyModel, j: int)
    ensures
        family.themes.len() == 0 ==> family_refusal(family, bundled) == Some(
            Refusal::<Seq<char>>::EmptyFamily,
        ),
        family.themes.len() > 0 && (forall|c: int|
            0 <= c < family.themes[0].name@.len() ==> crate::text::white_space(
                #[trigger] family.themes[0].name@[c],
            )) ==> family_refusal(family, bundled) == Some(Refusal::<Seq<char>>::EmptyName),
        family.themes.len() == 1 && (exists|c: int|
            0 <= c < family.themes[0].name@.len() && !crate::text::white_space(
                #[trigger] family.themes[0].name@[c],
            )) && 0 <= j < bundled.themes.len() && bundled.themes[j].name@
            == family.themes[0].name@ ==> family_refusal(family, bundled) == Some(
            Refusal::BuiltIn { name: family.themes[0].name@ },
        ),
        family.themes.len() == 2 && nothing_wrong(family.themes, 0, bundled)
            && family.themes[0].name@ == family.themes[1].name@ ==> family_refusal(family, bundled)
            == Some(Refusal::Duplicate { name: family.themes[1].name@ }),
{
    let themes = family.themes;
    reveal_with_fuel(first_refusal, 3);
    if themes.len() > 0 {
        lemma_one(themes, 0, bundled);
        lemma_first_of(themes, bundled);
    }
    if themes.len() == 1 && 0 <= j < bundled.themes.len() && bundled.themes[j].name@
        == themes[0].name@ {
        assert(names_one(bundled.themes, themes[0].name@));
        assert(!names_one(themes.take(0), themes[0].name@));
    }
    if themes.len() == 2 && themes[0].name@ == themes[1].name@ {
        assert(themes.take(1)[0].name@ == themes[1].name@);
        assert(names_one(themes.take(1), themes[1].name@));
    }
}

proof fn lemma_first_of(themes: Seq<ThemeConfig>, bundled: FamilyModel)
    requires
        themes.len() > 0,
    ensures
        config_refusal(themes, 0, bundled) is Some ==> first_refusal(
            themes,
            themes.len() as int,
            bundled,
        ) == config_refusal(themes, 0, bundled),
{
    lemma_first_stays(themes, themes.len() as int, bundled);
}

proof fn lemma_first_stays(themes: Seq<ThemeConfig>, n: int, bundled: FamilyModel)
    requires
        0 < n <= themes.len(),
    ensures
        config_refusal(themes, 0, bundled) is Some ==> first_refusal(themes, n, bundled)
            == config_refusal(themes, 0, bundled),
    decreases n,
{
    reveal_with_fuel(first_refusal, 2);
    if n > 1 {
        lemma_first_stays(themes, n - 1, bundled);
    }
}

/// A theme resolves over the bundled theme of its own appearance.
pub proof fn law_themes_resolve_over_their_own_appearance(
    config: ThemeConfig,
    bundled: FamilyModel,
)
    ensures
        config.appearance == ThemeMode::Light ==> resolves(config, bundled)
            == crate::theme::resolve::resolved(config, bundled.themes[0].style@),
        config.appearance == ThemeMode::Dark ==> resolves(config, bundled)
            == crate::theme::resolve::resolved(config, bundled.themes[1].style@),
{
}

/// A family that is taken in is the last of the user's, and chosen by its last theme for
/// each appearance that it has; an appearance that it has no theme for keeps its choice.
pub proof fn law_an_imported_family_is_chosen(
    preferences: PreferencesModel,
    family: FamilyModel,
    k: int,
)
    ensures
        taking_in(preferences, family).families.len() > 0,
        taking_in(preferences, family).families.last() == family,
        0 <= k < family.themes.len() && family.themes[k].appearance == ThemeMode::Light && (
        forall|j: int|
            k < j < family.themes.len() ==> (#[trigger] family.themes[j]).appearance
                == ThemeMode::Dark) ==> taking_in(preferences, family).light == Some(
            family.themes[k].name@,
        ),
        0 <= k < family.themes.len() && family.themes[k].appearance == ThemeMode::Dark && (
        forall|j: int|
            k < j < family.themes.len() ==> (#[trigger] family.themes[j]).appearance
                == ThemeMode::Light) ==> taking_in(preferences, family).dark == Some(
            family.themes[k].name@,
        ),
        (forall|j: int|
            0 <= j < family.themes.len() ==> (#[trigger] family.themes[j]).appearance
                == ThemeMode::Dark) ==> taking_in(preferences, family).light == preferences.light,
        (forall|j: int|
            0 <= j < family.themes.len() ==> (#[trigger] family.themes[j]).appearance
                == ThemeMode::Light) ==> taking_in(preferences, family).dark == preferences.dark,
{
    lemma_last(family.themes, ThemeMode::Light, preferences.light, k);
    lemma_last(family.themes, ThemeMode::Dark, preferences.dark, k);
}

proof fn lemma_last(
    themes: Seq<ThemeConfig>,
    mode: ThemeMode,
    otherwise: Option<Seq<char>>,
    k: int,
)
    ensures
        0 <= k < themes.len() && themes[k].appearance == mode && (forall|j: int|
            k < j < themes.len() ==> (#[trigger] themes[j]).appearance != mode) ==> last_of_mode(
            themes,
            mode,
            otherwise,
        ) == Some(themes[k].name@),
        (forall|j: int| 0 <= j < themes.len() ==> (#[trigger] themes[j]).appearance != mode)
            ==> last_of_mode(themes, mode, otherwise) == otherwise,
    decreases themes.len(),
{
    if themes.len() > 0 {
        let init = themes.drop_last();
        lemma_last(init, mode, otherwise, k);
        assert(themes.last() == themes[themes.len() - 1]);
        if 0 <= k < init.len() {
            assert(init[k] == themes[k]);
        }
        assert forall|j: int| 0 <= j < init.len() implies #[trigger] init[j] == themes[j] by {}
    }
}

/// An imported family shows in the appearance in use where it has a theme for it, else in
/// that of its first theme.
pub proof fn law_an_import_shows_where_it_can(family: FamilyModel, current: ThemeMode, k: int)
    requires
        0 <= k < family.themes.len(),
    ensures
        family.themes[k].appearance == current ==> import_mode(family, current) == current,
        (forall|j: int|
            0 <= j < family.themes.len() ==> (#[trigger] family.themes[j]).appearance != current)
            ==> import_mode(family, current) == family.themes[0].appearance,
{
}

/// Removing a theme leaves every theme of another name, and every choice of another name.
pub proof fn law_removing_a_theme_leaves_the_others(
    preferences: PreferencesModel,
    name: Seq<char>,
    config: ThemeConfig,
)
    ensures
        config.name@ != name && all_configs(preferences.families).contains(config)
            ==> unnamed(all_configs(preferences.families), |other: Seq<char>| other == name).contains(
            config,
        ),
        preferences.light != Some(name) ==> without(preferences, name).light == preferences.light,
        preferences.dark != Some(name) ==> without(preferences, name).dark == preferences.dark,
        preferences.light == Some(name) ==> without(preferences, name).light is None,
        preferences.dark == Some(name) ==> without(preferences, name).dark is None,
{
    lemma_kept(all_configs(preferences.families), |other: Seq<char>| other == name, config);
}

proof fn lemma_kept(
    configs: Seq<ThemeConfig>,
    gone: spec_fn(Seq<char>) -> bool,
    config: ThemeConfig,
)
    ensures
        configs.contains(config) && !gone(config.name@) ==> unnamed(configs, gone).contains(config),
    decreases configs.len(),
{
    if configs.len() > 0 && configs.contains(config) && !gone(config.name@) {
        let init = configs.drop_last();
        lemma_kept(init, gone, config);
        let k = choose|k: int| 0 <= k < configs.len() && configs[k] == config;
        let before = unnamed(init, gone);
        let after = unnamed(configs, gone);
        if k < init.len() {
            assert(init[k] == config);
            assert(init.contains(config));
            let i = choose|i: int| 0 <= i < before.len() && before[i] == config;
            assert(after[i] == config);
        } else {
            assert(after.last() == config);
        }
    }
}

/// Exporting the theme in use gives the imported family that it belongs to.
pub proof fn law_an_imported_theme_is_exported_with_its_family(themes: ThemesModel, f: int, t: int)
    requires
        0 <= f < themes.preferences.families.len(),
        0 <= t < themes.preferences.families[f].themes.len(),
        themes.preferences.families[f].themes[t].name@ == themes.current.theme_name,
        forall|g: int, u: int|
            #![trigger themes.preferences.families[g].themes[u]]
            0 <= g < f && 0 <= u < themes.preferences.families[g].themes.len()
                ==> themes.preferences.families[g].themes[u].name@ != themes.current.theme_name,
    ensures
        exported(themes) == Some(FileModel::Family(themes.preferences.families[f])),
{
    let families = themes.preferences.families;
    let name = themes.current.theme_name;
    assert(families[f].themes[t].name@ == name);
    assert(names_one(families[f].themes, name));
    assert forall|g: int| 0 <= g < f implies !names_one((#[trigger] families[g]).themes, name) by {
        if names_one(families[g].themes, name) {
            let u = choose|u: int|
                0 <= u < families[g].themes.len() && (#[trigger] families[g].themes[u]).name@
                    == name;
            assert(families[g].themes[u].name@ == name);
        }
    }
    lemma_exported_family(families, name, f);
}

proof fn lemma_exported_family(families: Seq<FamilyModel>, name: Seq<char>, at: int)
    requires
        0 <= at < families.len(),
        names_one(families[at].themes, name),
        forall|f: int| 0 <= f < at ==> !names_one((#[trigger] families[f]).themes, name),
    ensures
        family_with(families, name) == Some(families[at]),
    decreases at,
{
    if at > 0 {
        let rest = families.drop_first();
        assert(!names_one(families[0].themes, name));
        assert forall|f: int| 0 <= f < at - 1 implies !names_one(
            (#[trigger] rest[f]).themes,
            name,
        ) by {
            assert(rest[f] == families[f + 1]);
        }
        lemma_exported_family(rest, name, at - 1);
    }
}

/// Exporting a bundled theme gives a copy under a name of its own, so that it can be
/// imported beside the bundled one.
pub proof fn law_a_bundled_theme_is_exported_under_its_own_name(themes: ThemesModel, t: int)
    requires
        0 <= t < themes.bundled.themes.len(),
        themes.bundled.themes[t].name@ == themes.current.theme_name,
        forall|u: int|
            0 <= u < t ==> (#[trigger] themes.bundled.themes[u]).name@
                != themes.current.theme_name,
        forall|f: int|
            0 <= f < themes.preferences.families.len() ==> !names_one(
                (#[trigger] themes.preferences.families[f]).themes,
                themes.current.theme_name,
            ),
    ensures
        exported(themes) == Some(
            FileModel::Renamed {
                name: themes.current.theme_name + " Custom"@,
                author: themes.bundled.author,
                theme: themes.bundled.themes[t],
            },
        ),
{
    lemma_no_family(themes.preferences.families, themes.current.theme_name);
    lemma_exported_theme(themes.bundled.themes, themes.current.theme_name, t);
}

proof fn lemma_no_family(families: Seq<FamilyModel>, name: Seq<char>)
    requires
        forall|f: int|
            0 <= f < families.len() ==> !names_one((#[trigger] families[f]).themes, name),
    ensures
        family_with(families, name) is None,
    decreases families.len(),
{
    if families.len() > 0 {
        let rest = families.drop_first();
        assert(!names_one(families[0].themes, name));
        assert forall|f: int| 0 <= f < rest.len() implies !names_one(
            (#[trigger] rest[f]).themes,
            name,
        ) by {
            assert(rest[f] == families[f + 1]);
        }
        lemma_no_family(rest, name);
    }
}

proof fn lemma_exported_theme(themes: Seq<ThemeConfig>, name: Seq<char>, at: int)
    requires
        0 <= at < themes.len(),
        themes[at].name@ == name,
        forall|t: int| 0 <= t < at ==> (#[trigger] themes[t]).name@ != name,
    ensures
        theme_with(themes, name) == Some(themes[at]),
    decreases at,
{
    if at > 0 {
        let rest = themes.drop_first();
        assert(themes[0].name@ != name);
        assert forall|t: int| 0 <= t < at - 1 implies (#[trigger] rest[t]).name@ != name by {
            assert(rest[t] == themes[t + 1]);
        }
        lemma_exported_theme(rest, name, at - 1);
    }
}

/// The themes that can be chosen for an appearance are those of that appearance.
pub proof fn law_choices_are_of_their_appearance(
    themes: Seq<ThemeModel>,
    mode: ThemeMode,
    name: Seq<char>,
)
    ensures
        choice_names(themes, mode).contains(name) <==> exists|i: int|
            0 <= i < themes.len() && (#[trigger] themes[i]).mode == mode && themes[i].theme_name
                == name,
    decreases themes.len(),
{
    if themes.len() > 0 {
        let init = themes.drop_last();
        let before = choice_names(init, mode);
        let all = choice_names(themes, mode);
        law_choices_are_of_their_appearance(init, mode, name);
        if all.contains(name) {
            let k = choose|k: int| 0 <= k < all.len() && all[k] == name;
            if k < before.len() {
                assert(before[k] == name);
                let i = choose|i: int|
                    0 <= i < init.len() && (#[trigger] init[i]).mode == mode && init[i].theme_name
                        == name;
                assert(themes[i] == init[i]);
            } else {
                assert(themes[themes.len() - 1].mode == mode);
            }
        }
        if exists|i: int|
            0 <= i < themes.len() && (#[trigger] themes[i]).mode == mode && themes[i].theme_name
                == name {
            let i = choose|i: int|
                0 <= i < themes.len() && (#[trigger] themes[i]).mode == mode
                    && themes[i].theme_name == name;
            if i < init.len() {
                assert(init[i] == themes[i]);
                let k = choose|k: int| 0 <= k < before.len() && before[k] == name;
                assert(all[k] == name);
            } else {
                assert(all[before.len() as int] == name);
            }
        }
    }
}

/// An imported theme for the other appearance brings the client to that one.
pub proof fn law_an_appearance_is_preferred_by_name(mode: ThemeMode)
    ensures
        mode == ThemeMode::Dark ==> preference_of(mode) == ThemePreference::Dark,
        mode == ThemeMode::Light ==> preference_of(mode) == ThemePreference::Light,
{
}

} // verus!
