//! What views read of providers and their profiles.
use crate::listing::{first, lemma_first, lemma_no_first};
use crate::protocol::{
    copy_text, share, AcpMarketplaceItem, HostValue, ModelSpec, ProviderKind, ProviderUsage,
    ProviderVersionStatus, ResolvedProfile, Settings,
};
use crate::store::model::StoreModel;
use crate::store::queries::{lists_text, text_listed};
use crate::store::WorkspaceStore;
use crate::text::{characters, hex_digit, hex_value, strip_leading, trim, trimmed};
use crate::theme::color::{all_hex, hex_number};
use std::rc::Rc;
use vstd::prelude::*;

verus! {

/// Profiles with this id.
pub open spec fn has_profile_id(id: Seq<char>) -> spec_fn(ResolvedProfile) -> bool {
    |profile: ResolvedProfile| profile.id@ == id
}

/// The profile an id resolves to.
pub open spec fn profile_by_id(settings: Settings, id: Seq<char>) -> Option<ResolvedProfile> {
    first(settings.profiles@, has_profile_id(id))
}

/// The profile an id resolves to.
pub fn resolved_profile<'a>(settings: &'a Settings, id: &str) -> (profile: Option<
    &'a ResolvedProfile,
>)
    ensures
        match profile {
            Some(found) => profile_by_id(*settings, id@) == Some(*found),
            None => profile_by_id(*settings, id@) is None,
        },
{
    let profiles = &settings.profiles;
    let mut i: usize = 0;
    while i < profiles.len()
        invariant
            i <= profiles@.len(),
            profiles@ == settings.profiles@,
            forall|j: int| 0 <= j < i ==> (#[trigger] profiles@[j]).id@ != id@,
        decreases profiles@.len() - i,
    {
        if *profiles[i].id.as_str() == *id {
            proof {
                lemma_first(profiles@, has_profile_id(id@), i as int);
            }
            return Some(&settings.profiles[i]);
        }
        i += 1;
    }
    proof {
        lemma_no_first(profiles@, has_profile_id(id@));
    }
    None
}

/// Profiles of a provider, in the order of the settings.
pub open spec fn profiles_of(profiles: Seq<ResolvedProfile>, kind: ProviderKind) -> Seq<
    ResolvedProfile,
> {
    profiles.filter(|profile: ResolvedProfile| profile.kind == kind)
}

/// Every profile, provider by provider.
pub open spec fn profiles_by_provider(profiles: Seq<ResolvedProfile>) -> Seq<ResolvedProfile> {
    profiles_of(profiles, ProviderKind::Codex) + profiles_of(profiles, ProviderKind::ClaudeCode)
        + profiles_of(profiles, ProviderKind::Pi) + profiles_of(profiles, ProviderKind::OpenCode)
}

fn push_profiles(
    into: &mut Vec<ResolvedProfile>,
    profiles: &Vec<ResolvedProfile>,
    kind: ProviderKind,
)
    ensures
        final(into)@ == old(into)@ + profiles_of(profiles@, kind),
{
    let ghost before = into@;
    let ghost all = profiles@;
    let ghost kept = |profile: ResolvedProfile| profile.kind == kind;
    let mut i: usize = 0;
    assert(all.take(0) =~= Seq::<ResolvedProfile>::empty());
    assert(all.take(0).filter(kept) =~= Seq::<ResolvedProfile>::empty());
    assert(into@ =~= before + all.take(0).filter(kept));
    while i < profiles.len()
        invariant
            i <= all.len(),
            all == profiles@,
            kept == (|profile: ResolvedProfile| profile.kind == kind),
            into@ == before + all.take(i as int).filter(kept),
        decreases all.len() - i,
    {
        proof {
            reveal(Seq::filter);
            assert(all.take(i + 1).drop_last() =~= all.take(i as int));
            assert(all.take(i + 1).last() == all[i as int]);
        }
        if profiles[i].kind == kind {
            into.push(profiles[i].clone());
        }
        assert(into@ =~= before + all.take(i + 1).filter(kept));
        i += 1;
    }
    assert(all.take(i as int) =~= all);
}

/// The colour that an accent setting spells: six hexadecimal digits, after any
/// number of `#` and with white space around.
pub open spec fn accent_value(raw: Seq<char>) -> Option<nat> {
    let digits = strip_leading(trim(raw), '#');
    if digits.len() == 6 && all_hex(digits) {
        Some(hex_number(digits))
    } else {
        None
    }
}

/// The colour that an accent setting spells.
pub fn parse_accent(raw: &str) -> (color: Option<u32>)
    ensures
        match accent_value(raw@) {
            Some(value) => color is Some && color->0 == value,
            None => color is None,
        },
{
    let chars = characters(raw);
    let (start, end) = trimmed(&chars);
    let ghost text = trim(raw@);
    let mut at: usize = start;
    assert(chars@.subrange(at as int, end as int) == text);
    while at < end && chars[at] == '#'
        invariant
            start <= at <= end <= chars@.len(),
            strip_leading(text, '#') == strip_leading(
                chars@.subrange(at as int, end as int),
                '#',
            ),
        decreases end - at,
    {
        let ghost rest = chars@.subrange(at as int, end as int);
        assert(rest.subrange(1, rest.len() as int) =~= chars@.subrange(at + 1, end as int));
        at += 1;
    }
    let ghost digits = chars@.subrange(at as int, end as int);
    assert(digits.len() > 0 ==> digits[0] == chars@[at as int]);
    assert(digits == strip_leading(text, '#'));
    if end - at != 6 {
        return None;
    }
    let mut value: u32 = 0;
    let mut i: usize = 0;
    assert(digits.take(0) =~= Seq::<char>::empty());
    while i < 6
        invariant
            i <= 6,
            at + 6 == end,
            end <= chars@.len(),
            digits == chars@.subrange(at as int, end as int),
            digits == strip_leading(trim(raw@), '#'),
            digits.len() == 6,
            value == hex_number(digits.take(i as int)),
            i == 0 ==> value == 0,
            i == 1 ==> value < 0x10,
            i == 2 ==> value < 0x100,
            i == 3 ==> value < 0x1000,
            i == 4 ==> value < 0x1_0000,
            i == 5 ==> value < 0x10_0000,
            i == 6 ==> value < 0x100_0000,
            forall|j: int| 0 <= j < i ==> hex_value(#[trigger] digits[j]) is Some,
        decreases 6 - i,
    {
        assert(chars@[at + i] == digits[i as int]);
        match hex_digit(chars[at + i]) {
            Some(digit) => {
                proof {
                    assert(digits.take(i + 1).drop_last() =~= digits.take(i as int));
                    assert(digits.take(i + 1).last() == digits[i as int]);
                }
                value = value * 16 + digit as u32;
            },
            None => {
                assert(hex_value(digits[i as int]) is None);
                return None;
            },
        }
        i += 1;
    }
    assert(digits.take(6) =~= digits);
    Some(value)
}

/// An agent of the registry, with whether it is installed.
pub open spec fn marked(item: AcpMarketplaceItem, agents: Seq<String>) -> AcpMarketplaceItem {
    AcpMarketplaceItem { installed: text_listed(agents, item.id@), ..item }
}

impl StoreModel {
    /// The provider a profile belongs to; one that does not resolve counts as
    /// [`ProviderKind::ClaudeCode`]'s.
    pub open spec fn profile_kind(self, id: Seq<char>) -> ProviderKind {
        match profile_by_id(self.settings, id) {
            Some(profile) => profile.kind,
            None => ProviderKind::ClaudeCode,
        }
    }

    /// The models a provider offers.
    pub open spec fn catalog(self, kind: ProviderKind) -> Seq<ModelSpec> {
        if self.providers.model_catalogs@.contains_key(kind) {
            self.providers.model_catalogs@[kind]@
        } else {
            Seq::empty()
        }
    }
}

/// What a profile's models are resolved from.
pub struct ModelQuestion {
    pub catalog: Rc<Vec<ModelSpec>>,
    /// The profile's settings; the defaults where there are none.
    pub settings: Option<HostValue>,
    /// Lists that stand for those of the settings.
    pub overrides: Option<ModelOverrides>,
    pub favorites: Rc<Vec<String>>,
}

pub struct ModelOverrides {
    pub custom_models: Vec<String>,
    pub hidden_models: Vec<String>,
}

impl StoreModel {
    /// The models that a profile can offer: its provider's, where it is built in.
    pub open spec fn profile_models(self, profile_id: Seq<char>) -> Seq<ModelSpec> {
        if self.settings.builtin_profiles.names(profile_id) {
            self.catalog(self.profile_kind(profile_id))
        } else {
            Seq::empty()
        }
    }

    /// Whether a question is what a profile's models are resolved from.
    pub open spec fn asks_models(self, question: ModelQuestion, profile_id: Seq<char>) -> bool {
        &&& question.catalog@ == self.profile_models(profile_id)
        &&& question.settings == (match profile_by_id(self.settings, profile_id) {
            Some(profile) => Some(profile.settings),
            None => None,
        })
        &&& question.favorites == self.settings.favorite_models
    }
}

impl WorkspaceStore {
    pub fn all_provider_profiles(&self) -> (profiles: Vec<ResolvedProfile>)
        ensures
            profiles@ == profiles_by_provider(self@.settings.profiles@),
    {
        let mut profiles: Vec<ResolvedProfile> = Vec::new();
        push_profiles(&mut profiles, &self.settings_replica.profiles, ProviderKind::Codex);
        push_profiles(&mut profiles, &self.settings_replica.profiles, ProviderKind::ClaudeCode);
        push_profiles(&mut profiles, &self.settings_replica.profiles, ProviderKind::Pi);
        push_profiles(&mut profiles, &self.settings_replica.profiles, ProviderKind::OpenCode);
        assert(profiles@ =~= profiles_by_provider(self@.settings.profiles@));
        profiles
    }

    pub fn enabled_profiles(&self) -> (profiles: Vec<ResolvedProfile>)
        ensures
            profiles@ == profiles_by_provider(self@.settings.profiles@).filter(
                |profile: ResolvedProfile| profile.enabled,
            ),
    {
        let every = self.all_provider_profiles();
        let ghost all = every@;
        let ghost kept = |profile: ResolvedProfile| profile.enabled;
        let mut profiles: Vec<ResolvedProfile> = Vec::new();
        let mut i: usize = 0;
        assert(all.take(0) =~= Seq::<ResolvedProfile>::empty());
        assert(all.take(0).filter(kept) =~= Seq::<ResolvedProfile>::empty());
        while i < every.len()
            invariant
                i <= all.len(),
                all == every@,
                kept == (|profile: ResolvedProfile| profile.enabled),
                profiles@ == all.take(i as int).filter(kept),
            decreases all.len() - i,
        {
            proof {
                reveal(Seq::filter);
                assert(all.take(i + 1).drop_last() =~= all.take(i as int));
                assert(all.take(i + 1).last() == all[i as int]);
            }
            if every[i].enabled {
                profiles.push(every[i].clone());
            }
            i += 1;
        }
        assert(all.take(i as int) =~= all);
        profiles
    }

    pub fn provider_profile_kind(&self, profile_id: &str) -> (kind: ProviderKind)
        ensures
            kind == self@.profile_kind(profile_id@),
    {
        match resolved_profile(&self.settings_replica, profile_id) {
            Some(profile) => profile.kind,
            None => ProviderKind::ClaudeCode,
        }
    }

    pub fn provider_model_catalog(&self, provider: ProviderKind) -> (models: Rc<Vec<ModelSpec>>)
        ensures
            models@ == self@.catalog(provider),
    {
        match self.providers_replica.model_catalogs.get(&provider) {
            Some(models) => share(models),
            None => Rc::new(Vec::new()),
        }
    }

    /// The catalogue of a built-in profile's provider; other profiles have
    /// none.
    pub fn profile_catalog(&self, profile_id: &str) -> (models: Rc<Vec<ModelSpec>>)
        ensures
            models@ == self@.profile_models(profile_id@),
    {
        if self.settings_replica.builtin_profiles.contains(profile_id) {
            self.provider_model_catalog(self.provider_profile_kind(profile_id))
        } else {
            Rc::new(Vec::new())
        }
    }

    /// Whether a provider's models are on their way and none is there yet.
    pub fn models_loading(&self, provider: ProviderKind) -> (loading: bool)
        ensures
            loading == (self@.providers.models_loading@.contains_key(provider)
                && self@.providers.models_loading@[provider] && self@.catalog(provider).len() == 0),
    {
        let fetching = match self.providers_replica.models_loading.get(&provider) {
            Some(loading) => *loading,
            None => false,
        };
        let missing = match self.providers_replica.model_catalogs.get(&provider) {
            Some(models) => models.len() == 0,
            None => true,
        };
        fetching && missing
    }

    pub fn provider_profile_settings(&self, profile_id: &str) -> (settings: Option<HostValue>)
        ensures
            settings == (match profile_by_id(self@.settings, profile_id@) {
                Some(profile) => Some(profile.settings),
                None => None,
            }),
    {
        match resolved_profile(&self.settings_replica, profile_id) {
            Some(profile) => Some(profile.settings.clone()),
            None => None,
        }
    }

    /// Resolve the models that a picker offers for a profile.
    pub fn picker_models_for_profile<R, F: FnOnce(ModelQuestion) -> R>(
        &self,
        profile_id: &str,
        resolve: F,
    ) -> (models: R)
        requires
            forall|question: ModelQuestion|
                self@.asks_models(question, profile_id@) && question.overrides is None
                    ==> #[trigger] resolve.requires((question,)),
        ensures
            exists|question: ModelQuestion|
                self@.asks_models(question, profile_id@) && question.overrides is None
                    && #[trigger] resolve.ensures((question,), models),
    {
        let question = ModelQuestion {
            catalog: self.profile_catalog(profile_id),
            settings: self.provider_profile_settings(profile_id),
            overrides: None,
            favorites: share(&self.settings_replica.favorite_models),
        };
        assert(self@.asks_models(question, profile_id@));
        resolve(question)
    }

    /// Resolve the models of a profile as a dialog edits them, with its own lists of
    /// added and hidden ones.
    pub fn provider_dialog_models<R, F: FnOnce(ModelQuestion) -> R>(
        &self,
        profile_id: &str,
        custom_models: Vec<String>,
        hidden_models: Vec<String>,
        resolve: F,
    ) -> (models: R)
        requires
            forall|question: ModelQuestion|
                self@.asks_models(question, profile_id@) && question.overrides == Some(
                    ModelOverrides { custom_models, hidden_models },
                ) ==> #[trigger] resolve.requires((question,)),
        ensures
            exists|question: ModelQuestion|
                self@.asks_models(question, profile_id@) && question.overrides == Some(
                    ModelOverrides { custom_models, hidden_models },
                ) && #[trigger] resolve.ensures((question,), models),
    {
        let question = ModelQuestion {
            catalog: self.profile_catalog(profile_id),
            settings: self.provider_profile_settings(profile_id),
            overrides: Some(ModelOverrides { custom_models, hidden_models }),
            favorites: share(&self.settings_replica.favorite_models),
        };
        assert(self@.asks_models(question, profile_id@));
        resolve(question)
    }

    pub fn provider_profile_display_name(&self, profile_id: &str) -> (name: Option<String>)
        ensures
            name == (match profile_by_id(self@.settings, profile_id@) {
                Some(profile) => Some(profile.display_name),
                None => None,
            }),
    {
        match resolved_profile(&self.settings_replica, profile_id) {
            Some(profile) => Some(profile.display_name.clone()),
            None => None,
        }
    }

    /// A profile's accent colour, where it has a readable one.
    pub fn provider_profile_accent(&self, profile_id: &str) -> (color: Option<u32>)
        ensures
            match profile_by_id(self@.settings, profile_id@) {
                Some(profile) => match profile.accent_color {
                    Some(raw) => match accent_value(raw@) {
                        Some(value) => color is Some && color->0 == value,
                        None => color is None,
                    },
                    None => color is None,
                },
                None => color is None,
            },
    {
        match resolved_profile(&self.settings_replica, profile_id) {
            Some(profile) => match &profile.accent_color {
                Some(raw) => parse_accent(raw.as_str()),
                None => None,
            },
            None => None,
        }
    }

    pub fn providers_checked_at(&self) -> (at: Option<u64>)
        ensures
            at == self@.providers.providers_checked_at,
    {
        self.providers_replica.providers_checked_at
    }

    pub fn providers_checking(&self) -> (checking: bool)
        ensures
            checking == self@.providers.providers_checking,
    {
        self.providers_replica.providers_checking
    }

    /// The latest usage fetch for a provider profile, when one has landed.
    pub fn provider_usage(&self, profile_id: &str) -> (usage: Option<ProviderUsage>)
        ensures
            usage == (if self@.providers.provider_usage@.contains_key(profile_id@) {
                Some(self@.providers.provider_usage@[profile_id@])
            } else {
                None
            }),
    {
        match self.providers_replica.provider_usage.get_text(profile_id) {
            Some(usage) => Some(usage.clone()),
            None => None,
        }
    }

    /// A usage fetch is in flight for this profile.
    pub fn usage_checking(&self, profile_id: &str) -> (checking: bool)
        ensures
            checking == self@.providers.usage_checking@.contains(profile_id@),
    {
        self.providers_replica.usage_checking.contains(&profile_id.to_owned())
    }

    pub fn provider_profile_snapshot(&self, profile_id: &str) -> (snapshot: Option<HostValue>)
        ensures
            snapshot == (if self@.providers.provider_snapshots@.contains_key(profile_id@) {
                Some(self@.providers.provider_snapshots@[profile_id@])
            } else {
                None
            }),
    {
        match self.providers_replica.provider_snapshots.get_text(profile_id) {
            Some(snapshot) => Some(snapshot.clone()),
            None => None,
        }
    }

    /// Whether this program has a newer version, once the host has told.
    pub fn tcode_update_status(&self) -> (status: Option<HostValue>)
        ensures
            status == self@.providers.tcode_update,
    {
        match &self.providers_replica.tcode_update {
            Some(status) => Some(status.clone()),
            None => None,
        }
    }

    pub fn provider_version_status(&self, provider: ProviderKind) -> (status: Option<
        ProviderVersionStatus,
    >)
        ensures
            status == (if self@.providers.provider_versions@.contains_key(provider) {
                Some(self@.providers.provider_versions@[provider])
            } else {
                None
            }),
    {
        match self.providers_replica.provider_versions.get(&provider) {
            Some(status) => Some(status.clone()),
            None => None,
        }
    }

    pub fn provider_update_command(&self, provider: ProviderKind) -> (command: Option<String>)
        ensures
            command == (if self@.providers.provider_versions@.contains_key(provider) {
                self@.providers.provider_versions@[provider].update_command
            } else {
                None
            }),
    {
        match self.providers_replica.provider_versions.get(&provider) {
            Some(status) => copy_text(&status.update_command),
            None => None,
        }
    }

    pub fn provider_profile_stored_secret_names(&self, profile_id: &str) -> (names: Rc<Vec<String>>)
        ensures
            names@ == (if self@.providers.secret_names@.contains_key(profile_id@) {
                self@.providers.secret_names@[profile_id@]@
            } else {
                Seq::empty()
            }),
    {
        match self.providers_replica.secret_names.get_text(profile_id) {
            Some(names) => share(names),
            None => Rc::new(Vec::new()),
        }
    }

    /// Whether an ACP agent is installed.
    pub fn installed_acp_agent(&self, agent_id: &str) -> (installed: bool)
        ensures
            installed == text_listed(self@.settings.acp_agents@, agent_id@),
    {
        lists_text(&self.settings_replica.acp_agents, agent_id)
    }

    /// The registry's agents, each with whether it is installed by the current
    /// settings.
    pub fn acp_marketplace_items(&self) -> (items: Vec<AcpMarketplaceItem>)
        ensures
            items@ == self@.providers.acp_marketplace_items@.map_values(
                |item: AcpMarketplaceItem| marked(item, self@.settings.acp_agents@),
            ),
    {
        let ghost agents = self@.settings.acp_agents@;
        let source = &self.providers_replica.acp_marketplace_items;
        let ghost expected = source@.map_values(|item: AcpMarketplaceItem| marked(item, agents));
        let mut items: Vec<AcpMarketplaceItem> = Vec::new();
        let mut i: usize = 0;
        while i < source.len()
            invariant
                i <= source@.len(),
                agents == self@.settings.acp_agents@,
                expected == source@.map_values(|item: AcpMarketplaceItem| marked(item, agents)),
                items@ =~= expected.take(i as int),
            decreases source@.len() - i,
        {
            let installed = self.installed_acp_agent(source[i].id.as_str());
            let item = AcpMarketplaceItem {
                id: source[i].id.clone(),
                installed,
                details: source[i].details.clone(),
            };
            assert(item == marked(source@[i as int], agents));
            assert(expected[i as int] == marked(source@[i as int], agents));
            items.push(item);
            i += 1;
        }
        assert(expected.take(i as int) =~= expected);
        items
    }

    pub fn acp_registry_loading(&self) -> (loading: bool)
        ensures
            loading == self@.providers.acp_registry_loading,
    {
        self.providers_replica.acp_registry_loading
    }

    pub fn acp_registry_error(&self) -> (error: Option<String>)
        ensures
            error == self@.providers.acp_registry_error,
    {
        copy_text(&self.providers_replica.acp_registry_error)
    }

    pub fn acp_installing(&self, agent_id: &str) -> (installing: bool)
        ensures
            installing == self@.providers.acp_installing@.contains(agent_id@),
    {
        self.providers_replica.acp_installing.contains(&agent_id.to_owned())
    }
}

} // verus!
