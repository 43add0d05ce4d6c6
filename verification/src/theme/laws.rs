//! What holds of the themes whatever is imported and removed.
use crate::theme::config::{ThemeConfig, ThemeErrorModel};
use crate::theme::import::{
    cleared, config_refusal, family_refusal, first_refusal, last_of_mode, names_one, only, taking_in,
    unnamed, without,
};
use crate::theme::registry::{
    all_configs, resolves, usable, FamilyModel, PreferencesModel, ThemesModel,
};
use crate::theme::resolve::ThemeModel;
use crate::theme::ThemeMode;
use vstd::prelude::*;

verus! {

/// Whether no two themes share a name.
pub open spec fn distinct_names(configs: Seq<ThemeConfig>) -> bool {
    forall|i: int, j: int|
        0 <= i < j < configs.len() ==> (#[trigger] configs[i]).name@ != (
        #[trigger] configs[j]).name@
}

pub open spec fn no_empty_family(families: Seq<FamilyModel>) -> bool {
    forall|i: int| 0 <= i < families.len() ==> (#[trigger] families[i]).themes.len() > 0
}

proof fn lemma_unnamed(configs: Seq<ThemeConfig>, gone: spec_fn(Seq<char>) -> bool)
    ensures
        forall|i: int|
            0 <= i < unnamed(configs, gone).len() ==> !gone(
                (#[trigger] unnamed(configs, gone)[i]).name@,
            ) && configs.contains(unnamed(configs, gone)[i]),
        distinct_names(configs) ==> distinct_names(unnamed(configs, gone)),
    decreases configs.len(),
{
    if configs.len() > 0 {
        let shorter = configs.drop_last();
        lemma_unnamed(shorter, gone);
        let before = unnamed(shorter, gone);
        let after = unnamed(configs, gone);
        assert forall|i: int| 0 <= i < after.len() implies !gone((#[trigger] after[i]).name@)
            && configs.contains(after[i]) by {
            if i < before.len() {
                assert(after[i] == before[i]);
                let j = choose|j: int| 0 <= j < shorter.len() && shorter[j] == before[i];
                assert(configs[j] == before[i]);
            } else {
                assert(configs[configs.len() - 1] == after[i]);
            }
        }
        if distinct_names(configs) {
            assert(distinct_names(shorter)) by {
                assert forall|i: int, j: int| 0 <= i < j < shorter.len() implies (
                #[trigger] shorter[i]).name@ != (#[trigger] shorter[j]).name@ by {
                    assert(configs[i].name@ != configs[j].name@);
                }
            }
            assert forall|i: int, j: int| 0 <= i < j < after.len() implies (
            #[trigger] after[i]).name@ != (#[trigger] after[j]).name@ by {
                if j < before.len() {
                    assert(before[i].name@ != before[j].name@);
                } else {
                    assert(after[i] == before[i]);
                    let k = choose|k: int| 0 <= k < shorter.len() && shorter[k] == before[i];
                    assert(configs[k].name@ != configs[configs.len() - 1].name@);
                }
            }
        }
    }
}

proof fn lemma_unnamed_joins(
    a: Seq<ThemeConfig>,
    b: Seq<ThemeConfig>,
    gone: spec_fn(Seq<char>) -> bool,
)
    ensures
        unnamed(a + b, gone) == unnamed(a, gone) + unnamed(b, gone),
    decreases b.len(),
{
    if b.len() == 0 {
        assert(a + b =~= a);
        assert(unnamed(a, gone) + unnamed(b, gone) =~= unnamed(a, gone));
    } else {
        lemma_unnamed_joins(a, b.drop_last(), gone);
        assert((a + b).drop_last() =~= a + b.drop_last());
        assert(unnamed(a + b, gone) =~= unnamed(a, gone) + unnamed(b, gone));
    }
}

proof fn lemma_cleared(families: Seq<FamilyModel>, gone: spec_fn(Seq<char>) -> bool)
    ensures
        all_configs(cleared(families, gone)) == unnamed(all_configs(families), gone),
        no_empty_family(cleared(families, gone)),
    decreases families.len(),
{
    if families.len() > 0 {
        lemma_cleared(families.drop_last(), gone);
        let before = cleared(families.drop_last(), gone);
        let themes = unnamed(families.last().themes, gone);
        lemma_unnamed_joins(all_configs(families.drop_last()), families.last().themes, gone);
        let after = cleared(families, gone);
        if themes.len() > 0 {
            assert(after.drop_last() =~= before);
        } else {
            assert(all_configs(before) + themes =~= all_configs(before));
        }
    }
}

proof fn lemma_accepted(themes: Seq<ThemeConfig>, n: int, at: int, bundled: FamilyModel)
    requires
        0 <= at < n <= themes.len(),
        first_refusal(themes, n, bundled) is None,
    ensures
        config_refusal(themes, at, bundled) is None,
    decreases n,
{
    if at < n - 1 {
        lemma_accepted(themes, n - 1, at, bundled);
    }
}

proof fn lemma_accepted_names(family: FamilyModel, bundled: FamilyModel)
    requires
        family_refusal(family, bundled) is None,
    ensures
        distinct_names(family.themes),
{
    let themes = family.themes;
    assert forall|i: int, j: int| 0 <= i < j < themes.len() implies (#[trigger] themes[i]).name@
        != (#[trigger] themes[j]).name@ by {
        lemma_accepted(themes, themes.len() as int, j, bundled);
        if themes[i].name@ == themes[j].name@ {
            assert(themes.take(j)[i].name@ == themes[j].name@);
            assert(names_one(themes.take(j), themes[j].name@));
        }
    }
}

/// Importing a family keeps the user's themes apart by name and leaves no family
/// empty.
pub proof fn law_imports_keep_names_distinct(
    preferences: PreferencesModel,
    family: FamilyModel,
    bundled: FamilyModel,
)
    requires
        family_refusal(family, bundled) is None,
        distinct_names(all_configs(preferences.families)),
    ensures
        distinct_names(all_configs(taking_in(preferences, family).families)),
        no_empty_family(taking_in(preferences, family).families),
{
    let gone = |name: Seq<char>| names_one(family.themes, name);
    let kept = cleared(preferences.families, gone);
    let after = taking_in(preferences, family).families;
    lemma_cleared(preferences.families, gone);
    lemma_unnamed(all_configs(preferences.families), gone);
    lemma_accepted_names(family, bundled);
    assert(after.drop_last() =~= kept);
    let old_configs = all_configs(kept);
    let all = all_configs(after);
    assert(all =~= old_configs + family.themes);
    assert forall|i: int, j: int| 0 <= i < j < all.len() implies (#[trigger] all[i]).name@ != (
    #[trigger] all[j]).name@ by {
        if i < old_configs.len() && j >= old_configs.len() {
            let there = family.themes[j - old_configs.len()];
            assert(all[j] == there);
            if all[i].name@ == all[j].name@ {
                assert(names_one(family.themes, old_configs[i].name@));
            }
        } else if j < old_configs.len() {
            assert(old_configs[i].name@ != old_configs[j].name@);
        } else {
            let a = i - old_configs.len();
            let b = j - old_configs.len();
            assert(family.themes[a].name@ != family.themes[b].name@);
        }
    }
}

/// A removed theme is in no family any more, and chosen for nothing.
pub proof fn law_a_removed_theme_is_gone(
    preferences: PreferencesModel,
    name: Seq<char>,
    mode: ThemeMode,
)
    ensures
        !names_one(all_configs(without(preferences, name).families), name),
        without(preferences, name).chosen(mode) != Some(name),
        no_empty_family(without(preferences, name).families),
{
    let gone = only(name);
    lemma_cleared(preferences.families, gone);
    lemma_unnamed(all_configs(preferences.families), gone);
}

proof fn lemma_usable_from(configs: Seq<ThemeConfig>, bundled: FamilyModel, i: int) -> (j: int)
    requires
        0 <= i < usable(configs, bundled).len(),
    ensures
        0 <= j < configs.len(),
        resolves(configs[j], bundled) == Ok::<ThemeModel, ThemeErrorModel>(
            usable(configs, bundled)[i],
        ),
    decreases configs.len(),
{
    let shorter = configs.drop_last();
    let before = usable(shorter, bundled);
    if i < before.len() {
        let j = lemma_usable_from(shorter, bundled, i);
        assert(shorter[j] == configs[j]);
        j
    } else {
        configs.len() - 1
    }
}

proof fn lemma_usable_has(configs: Seq<ThemeConfig>, bundled: FamilyModel, j: int) -> (i: int)
    requires
        0 <= j < configs.len(),
        resolves(configs[j], bundled) is Ok,
    ensures
        0 <= i < usable(configs, bundled).len(),
        resolves(configs[j], bundled) == Ok::<ThemeModel, ThemeErrorModel>(
            usable(configs, bundled)[i],
        ),
    decreases configs.len(),
{
    let shorter = configs.drop_last();
    if j < shorter.len() {
        let i = lemma_usable_has(shorter, bundled, j);
        assert(usable(configs, bundled)[i] == usable(shorter, bundled)[i]);
        i
    } else {
        usable(configs, bundled).len() - 1
    }
}

proof fn lemma_first_choice(themes: ThemesModel, i: int, mode: ThemeMode)
    requires
        0 <= i < themes.available.len(),
        themes.is_choice(themes.available[i], mode),
    ensures
        exists|c: int| #[trigger] themes.first_choice(c, mode),
    decreases i,
{
    if exists|j: int| 0 <= j < i && themes.is_choice(#[trigger] themes.available[j], mode) {
        let j = choose|j: int|
            0 <= j < i && themes.is_choice(#[trigger] themes.available[j], mode);
        lemma_first_choice(themes, j, mode);
    } else {
        assert(themes.first_choice(i, mode));
    }
}

proof fn lemma_last_of_mode(
    themes: Seq<ThemeConfig>,
    mode: ThemeMode,
    otherwise: Option<Seq<char>>,
    has: int,
) -> (k: int)
    requires
        0 <= has < themes.len(),
        themes[has].appearance == mode,
    ensures
        0 <= k < themes.len(),
        themes[k].appearance == mode,
        last_of_mode(themes, mode, otherwise) == Some(themes[k].name@),
    decreases themes.len(),
{
    if themes.last().appearance == mode {
        themes.len() - 1
    } else {
        let k = lemma_last_of_mode(themes.drop_last(), mode, otherwise, has);
        assert(themes.drop_last()[k] == themes[k]);
        k
    }
}

/// An imported family comes into use: for each appearance that it has, the theme
/// selected afterwards is one of the family, as that family defines it.
pub proof fn law_an_imported_theme_is_selected(
    themes: ThemesModel,
    family: FamilyModel,
    mode: ThemeMode,
    has: int,
)
    requires
        themes.well_formed(),
        family_refusal(family, themes.bundled) is None,
        0 <= has < family.themes.len(),
        family.themes[has].appearance == mode,
    ensures
        exists|k: int|
            0 <= k < family.themes.len() && family.themes[k].appearance == mode && resolves(
                #[trigger] family.themes[k],
                themes.bundled,
            ) == Ok::<ThemeModel, ThemeErrorModel>(
                themes.with_preferences(taking_in(themes.preferences, family)).selected(mode),
            ),
{
    let preferences = taking_in(themes.preferences, family);
    let after = themes.with_preferences(preferences);
    let bundled = themes.bundled;
    let gone = |name: Seq<char>| names_one(family.themes, name);
    let kept = cleared(themes.preferences.families, gone);
    assert(preferences.families.drop_last() =~= kept);
    let configs = all_configs(preferences.families);
    assert(configs =~= all_configs(kept) + family.themes);
    let k = if mode == ThemeMode::Dark {
        lemma_last_of_mode(family.themes, mode, themes.preferences.dark, has)
    } else {
        lemma_last_of_mode(family.themes, mode, themes.preferences.light, has)
    };
    let config = family.themes[k];
    assert(after.preferences.chosen(mode) == Some(config.name@));
    lemma_accepted(family.themes, family.themes.len() as int, k, bundled);
    assert(resolves(config, bundled) is Ok);
    let at = all_configs(kept).len() + k;
    assert(configs[at] == config);
    let i = lemma_usable_has(configs, bundled, at);
    let embedded = usable(bundled.themes, bundled);
    let place = embedded.len() + i;
    assert(after.available[place] == usable(configs, bundled)[i]);
    assert(after.is_choice(after.available[place], mode));
    lemma_first_choice(after, place, mode);
    let c = after.selected_at(mode);
    assert(after.first_choice(c, mode));
    let selected = after.available[c];
    if c < embedded.len() {
        let j = lemma_usable_from(bundled.themes, bundled, c);
        assert(bundled.themes[j].name@ == selected.theme_name);
        assert(names_one(bundled.themes, config.name@));
    } else {
        let j = lemma_usable_from(configs, bundled, c - embedded.len());
        assert(selected.theme_name == configs[j].name@);
        lemma_cleared(themes.preferences.families, gone);
        lemma_unnamed(all_configs(themes.preferences.families), gone);
        if j < all_configs(kept).len() {
            assert(all_configs(kept)[j] == configs[j]);
            assert(names_one(family.themes, configs[j].name@));
        } else {
            let n = j - all_configs(kept).len();
            lemma_accepted_names(family, bundled);
            assert(configs[j] == family.themes[n]);
            if n < k {
                assert(family.themes[n].name@ != family.themes[k].name@);
            } else if k < n {
                assert(family.themes[k].name@ != family.themes[n].name@);
            }
        }
    }
}

/// Saved preferences bring back what was available and selected when they were
/// saved.
pub proof fn law_saved_preferences_bring_themes_back(
    saved: ThemesModel,
    later: ThemesModel,
    mode: ThemeMode,
)
    requires
        saved.well_formed(),
        later.bundled == saved.bundled,
    ensures
        later.with_preferences(saved.preferences).available == saved.available,
        later.with_preferences(saved.preferences).selected(mode) == saved.selected(mode),
{
    let restored = later.with_preferences(saved.preferences);
    assert(restored.available == saved.available);
    assert forall|i: int| #[trigger] restored.first_choice(i, mode) == saved.first_choice(
        i,
        mode,
    ) by {}
    if exists|i: int|
        0 <= i < saved.available.len() && saved.is_choice(#[trigger] saved.available[i], mode) {
        let i = choose|i: int|
            0 <= i < saved.available.len() && saved.is_choice(#[trigger] saved.available[i], mode);
        assert(restored.is_choice(restored.available[i], mode));
        lemma_first_choice(saved, i, mode);
        lemma_first_choice(restored, i, mode);
        let a = saved.selected_at(mode);
        let b = restored.selected_at(mode);
        assert(saved.first_choice(a, mode));
        assert(restored.first_choice(b, mode));
        assert(a == b) by {
            if a < b {
                assert(!restored.is_choice(restored.available[a], mode));
            } else if b < a {
                assert(!saved.is_choice(saved.available[b], mode));
            }
        }
    } else {
        assert(!exists|i: int|
            0 <= i < restored.available.len() && restored.is_choice(
                #[trigger] restored.available[i],
                mode,
            )) by {
            if exists|i: int|
                0 <= i < restored.available.len() && restored.is_choice(
                    #[trigger] restored.available[i],
                    mode,
                ) {
                let i = choose|i: int|
                    0 <= i < restored.available.len() && restored.is_choice(
                        #[trigger] restored.available[i],
                        mode,
                    );
                assert(saved.is_choice(saved.available[i], mode));
            }
        }
    }
}

} // verus!
