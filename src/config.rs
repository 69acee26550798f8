//! Application preferences and the model/provider catalog.

use vstd::prelude::*;

use std::collections::HashMap;

use crate::error::{ConfigError, ErrorLocation};
use crate::server_info::has_web_scheme;
use crate::text::{joined, same_text, starts_with};

verus! {

broadcast use vstd::string::group_string_axioms;

/// The config file format version this build writes.
pub const CONFIG_VERSION: u32 = 1;

/// Font size preset of the UI.
#[derive(Debug, Clone, Copy, PartialEq, Eq, Structural)]
pub enum FontSizePreset {
    Small,
    Standard,
    Large,
}

impl Default for FontSizePreset {
    fn default() -> (r: Self)
        ensures
            r == FontSizePreset::Standard,
    {
        FontSizePreset::Standard
    }
}

/// Spacing of the chat view.
#[derive(Debug, Clone, Copy, PartialEq, Eq, Structural)]
pub enum ChatDensity {
    Compact,
    Normal,
    Comfortable,
}

impl Default for ChatDensity {
    fn default() -> (r: Self)
        ensures
            r == ChatDensity::Normal,
    {
        ChatDensity::Normal
    }
}

/// Server preferences.
#[derive(Debug, Clone)]
pub struct ServerConfig {
    pub last_opencode_url: Option<String>,
    pub auto_start: bool,
    pub directory_override: Option<String>,
}

impl Default for ServerConfig {
    fn default() -> (r: Self)
        ensures
            r.last_opencode_url is None,
            r.auto_start,
            r.directory_override is None,
    {
        ServerConfig { last_opencode_url: None, auto_start: default_auto_start(), directory_override: None }
    }
}

/// Audio preferences.
#[derive(Debug, Clone)]
pub struct AudioConfig {
    pub push_to_talk_key: String,
    pub whisper_model_path: Option<String>,
}

impl Default for AudioConfig {
    fn default() -> (r: Self)
        ensures
            r.push_to_talk_key@ == "AltRight"@,
            r.whisper_model_path is None,
    {
        AudioConfig { push_to_talk_key: default_push_to_talk_key(), whisper_model_path: None }
    }
}

pub fn default_version() -> (r: u32)
    ensures
        r == CONFIG_VERSION,
{
    CONFIG_VERSION
}

pub fn default_auto_start() -> (r: bool)
    ensures
        r,
{
    true
}

pub fn default_push_to_talk_key() -> (r: String)
    ensures
        r@ == "AltRight"@,
{
    "AltRight".to_string()
}

fn validation_error(reason: String) -> (r: ConfigError)
    ensures
        r matches ConfigError::ValidationError { reason: m, .. } && m@ == reason@,
{
    ConfigError::ValidationError { location: ErrorLocation::raised_in("config"), reason }
}

/// A config version is accepted when it lies in 1..=CONFIG_VERSION.
pub fn validate_version(version: u32) -> (r: Result<(), ConfigError>)
    ensures
        r is Ok <==> (1 <= version && version <= CONFIG_VERSION),
        r is Err ==> r->Err_0 is ValidationError,
{
    if version == 0 || version > CONFIG_VERSION {
        return Err(validation_error("Invalid version (expected 1-1)".to_string()));
    }
    Ok(())
}

/// The last-used backend URL, when set, is non-empty and starts with
/// `http://` or `https://`.
pub fn validate_server_config(server: &ServerConfig) -> (r: Result<(), ConfigError>)
    ensures
        r is Ok <==> (server.last_opencode_url is None || (server.last_opencode_url->0@.len() > 0
            && has_web_scheme(server.last_opencode_url->0@))),
        r is Err ==> r->Err_0 is ValidationError,
{
    proof {
        reveal_strlit("http://");
        reveal_strlit("https://");
        assert("http://"@ =~= crate::server_info::http_scheme());
        assert("https://"@ =~= crate::server_info::https_scheme());
    }
    match &server.last_opencode_url {
        None => Ok(()),
        Some(url) => {
            if url.as_str().is_empty() {
                return Err(validation_error("last_opencode_url cannot be empty string".to_string()));
            }
            if !starts_with(url.as_str(), "http://") && !starts_with(url.as_str(), "https://") {
                return Err(validation_error(joined("Invalid URL format: ", url.as_str())));
            }
            Ok(())
        },
    }
}

/// A model offered in the picker.
#[derive(Debug, Clone, PartialEq, Eq)]
pub struct CuratedModel {
    pub name: String,
    pub provider: String,
    pub model_id: String,
}

impl CuratedModel {
    pub fn new(name: &str, provider: &str, model_id: &str) -> (r: Self)
        ensures
            r.name@ == name@,
            r.provider@ == provider@,
            r.model_id@ == model_id@,
    {
        CuratedModel { name: name.to_owned(), provider: provider.to_owned(), model_id: model_id.to_owned() }
    }
}

/// Where a provider's model list is found in its response.
#[derive(Debug, Clone)]
pub struct ResponseFormat {
    pub models_path: String,
    pub model_id_field: String,
    pub model_id_strip_prefix: Option<String>,
    pub model_name_field: String,
}

/// A model provider of the catalog.
#[derive(Debug, Clone)]
pub struct ProviderConfig {
    pub name: String,
    pub display_name: String,
    pub api_key_env: String,
    pub models_url: String,
    pub auth_type: String,
    pub auth_header: Option<String>,
    pub auth_param: Option<String>,
    pub extra_headers: HashMap<String, String>,
    pub response_format: ResponseFormat,
}

/// The curated models and the default one.
#[derive(Debug, Clone)]
pub struct ModelsSection {
    pub default_model: String,
    pub curated: Vec<CuratedModel>,
}

pub fn default_model() -> (r: String)
    ensures
        r@ == "openai/gpt-4"@,
{
    "openai/gpt-4".to_string()
}

impl Default for ModelsSection {
    fn default() -> (r: Self)
        ensures
            r.default_model@ == "openai/gpt-4"@,
            r.curated@.len() == 0,
    {
        ModelsSection { default_model: default_model(), curated: Vec::new() }
    }
}

/// The model/provider catalog.
#[derive(Debug, Clone)]
pub struct ModelsConfig {
    pub providers: Vec<ProviderConfig>,
    pub models: ModelsSection,
}

impl Default for ModelsConfig {
    fn default() -> (r: Self)
        ensures
            r.providers@.len() == 0,
            r.models.default_model@ == "openai/gpt-4"@,
            r.models.curated@.len() == 0,
    {
        ModelsConfig { providers: Vec::new(), models: ModelsSection::default() }
    }
}

/// The first candidate that is present and valid.
pub open spec fn first_valid(c: Seq<Option<ModelsConfig>>) -> Option<ModelsConfig>
    decreases c.len(),
{
    if c.len() == 0 {
        None
    } else if c[0] is Some && c[0]->0.valid() {
        c[0]
    } else {
        first_valid(c.drop_first())
    }
}

/// An accepted way of authenticating with a provider.
pub open spec fn known_auth_type(t: Seq<char>) -> bool {
    t == "bearer"@ || t == "header"@ || t == "query_param"@
}

/// A provider entry that the catalog accepts.
pub open spec fn provider_valid(p: ProviderConfig) -> bool {
    p.name@.len() > 0 && p.models_url@.len() > 0 && known_auth_type(p.auth_type@)
}

/// Keeps the curated entries that are not this provider's model.
pub open spec fn other_model(provider: Seq<char>, model_id: Seq<char>) -> spec_fn(CuratedModel) -> bool {
    |m: CuratedModel| !same_model(m, provider, model_id)
}

/// The same curated entry: same provider and model id.
pub open spec fn same_model(a: CuratedModel, provider: Seq<char>, model_id: Seq<char>) -> bool {
    a.provider@ == provider && a.model_id@ == model_id
}

fn first_valid_at(c: &Vec<Option<ModelsConfig>>) -> (r: Option<usize>)
    ensures
        r is Some ==> r->0 < c@.len() && c@[r->0 as int] is Some && first_valid(c@) == c@[r->0 as int],
        r is None ==> first_valid(c@) is None,
{
    let mut i: usize = 0;
    proof {
        assert(c@.subrange(0, c@.len() as int) =~= c@);
    }
    while i < c.len()
        invariant
            i <= c@.len(),
            first_valid(c@) == first_valid(c@.subrange(i as int, c@.len() as int)),
        decreases c@.len() - i,
    {
        proof {
            assert(c@.subrange(i as int, c@.len() as int).drop_first() =~= c@.subrange(i + 1, c@.len() as int));
        }
        if let Some(cfg) = &c[i] {
            if cfg.validate().is_ok() {
                return Some(i);
            }
        }
        i = i + 1;
    }
    None
}

fn provider_error(p: &ProviderConfig) -> (r: Result<(), ConfigError>)
    ensures
        r is Ok <==> provider_valid(*p),
        r is Err ==> r->Err_0 is ValidationError,
{
    if p.name.as_str().is_empty() {
        return Err(validation_error("Provider name cannot be empty".to_string()));
    }
    if p.models_url.as_str().is_empty() {
        return Err(validation_error(joined(p.name.as_str(), ": missing models_url")));
    }
    let t = p.auth_type.as_str();
    if !(same_text(t, "bearer") || same_text(t, "header") || same_text(t, "query_param")) {
        return Err(validation_error(joined("Invalid auth_type for provider ", p.name.as_str())));
    }
    Ok(())
}

impl ModelsConfig {
    /// The catalog as loaded: the first candidate file, in lookup order,
    /// that was read, parsed and passes validation; the defaults when none
    /// did.
    pub fn load(candidates: Vec<Option<ModelsConfig>>) -> (r: Result<ModelsConfig, ConfigError>)
        ensures
            r is Ok,
            first_valid(candidates@) is Some ==> r->Ok_0 == first_valid(candidates@)->0,
            first_valid(candidates@) is None ==> r->Ok_0.providers@.len() == 0
                && r->Ok_0.models.curated@.len() == 0
                && r->Ok_0.models.default_model@ == "openai/gpt-4"@,
    {
        match first_valid_at(&candidates) {
            Some(k) => {
                let mut rest = candidates;
                let c = rest.remove(k);
                match c {
                    Some(cfg) => Ok(cfg),
                    None => Ok(ModelsConfig::default()),
                }
            },
            None => Ok(ModelsConfig::default()),
        }
    }

    /// Every provider is well-formed.
    pub open spec fn valid(&self) -> bool {
        forall|i: int| 0 <= i < self.providers@.len() ==> provider_valid(#[trigger] self.providers@[i])
    }

    /// Validate provider configurations.
    pub fn validate(&self) -> (r: Result<(), ConfigError>)
        ensures
            r is Ok <==> self.valid(),
            r is Err ==> r->Err_0 is ValidationError,
    {
        let mut i: usize = 0;
        while i < self.providers.len()
            invariant
                i <= self.providers@.len(),
                forall|j: int| 0 <= j < i ==> provider_valid(#[trigger] self.providers@[j]),
            decreases self.providers@.len() - i,
        {
            let r = provider_error(&self.providers[i]);
            if r.is_err() {
                return r;
            }
            i = i + 1;
        }
        Ok(())
    }

    /// Get provider by name: the first one so named.
    pub fn get_provider(&self, name: &str) -> (r: Option<&ProviderConfig>)
        ensures
            r is Some <==> exists|i: int| 0 <= i < self.providers@.len() && (#[trigger] self.providers@[i]).name@ == name@,
            r is Some ==> exists|i: int| 0 <= i < self.providers@.len() && *r->0 == self.providers@[i]
                && self.providers@[i].name@ == name@
                && forall|j: int| 0 <= j < i ==> (#[trigger] self.providers@[j]).name@ != name@,
    {
        let mut i: usize = 0;
        while i < self.providers.len()
            invariant
                i <= self.providers@.len(),
                forall|j: int| 0 <= j < i ==> (#[trigger] self.providers@[j]).name@ != name@,
            decreases self.providers@.len() - i,
        {
            if same_text(self.providers[i].name.as_str(), name) {
                return Some(&self.providers[i]);
            }
            i = i + 1;
        }
        None
    }

    /// Add a curated model unless one with the same provider and model id
    /// is already listed.
    pub fn add_curated_model(&mut self, model: CuratedModel)
        ensures
            final(self).providers == old(self).providers,
            final(self).models.default_model == old(self).models.default_model,
            (exists|i: int| 0 <= i < old(self).models.curated@.len()
                && same_model(#[trigger] old(self).models.curated@[i], model.provider@, model.model_id@))
                ==> final(self).models.curated@ == old(self).models.curated@,
            !(exists|i: int| 0 <= i < old(self).models.curated@.len()
                && same_model(#[trigger] old(self).models.curated@[i], model.provider@, model.model_id@))
                ==> final(self).models.curated@ == old(self).models.curated@.push(model),
    {
        let mut i: usize = 0;
        while i < self.models.curated.len()
            invariant
                i <= self.models.curated@.len(),
                forall|j: int| 0 <= j < i ==> !same_model(#[trigger] self.models.curated@[j], model.provider@, model.model_id@),
            decreases self.models.curated@.len() - i,
        {
            let m = &self.models.curated[i];
            if same_text(m.provider.as_str(), model.provider.as_str()) && same_text(m.model_id.as_str(), model.model_id.as_str()) {
                return;
            }
            i = i + 1;
        }
        self.models.curated.push(model);
    }

    /// Remove every curated model with this provider and model id.
    pub fn remove_curated_model(&mut self, provider: &str, model_id: &str)
        ensures
            final(self).providers == old(self).providers,
            final(self).models.default_model == old(self).models.default_model,
            final(self).models.curated@ == old(self).models.curated@.filter(other_model(provider@, model_id@)),
    {
        let ghost before = self.models.curated@;
        let mut kept: Vec<CuratedModel> = Vec::new();
        let mut rest: Vec<CuratedModel> = Vec::new();
        std::mem::swap(&mut rest, &mut self.models.curated);
        let total = rest.len();
        let mut taken: usize = 0;
        proof {
            assert(rest@ =~= before.subrange(0, before.len() as int));
            assert(before.subrange(0, 0) =~= Seq::<CuratedModel>::empty());
        }
        while rest.len() > 0
            invariant
                taken + rest@.len() == before.len(),
                rest@ =~= before.subrange(taken as int, before.len() as int),
                kept@ == before.subrange(0, taken as int).filter(other_model(provider@, model_id@)),
                before.len() == total,
            decreases rest@.len(),
        {
            let m = rest.remove(0);
            proof {
                assert(m == before[taken as int]);
                assert(rest@ =~= before.subrange(taken + 1, before.len() as int));
                assert(before.subrange(0, taken + 1) =~= before.subrange(0, taken as int).push(m));
                before.subrange(0, taken as int).lemma_filter_push(m, other_model(provider@, model_id@));
                assert(other_model(provider@, model_id@)(m) == !(m.provider@ == provider@ && m.model_id@ == model_id@));
            }
            if !(same_text(m.provider.as_str(), provider) && same_text(m.model_id.as_str(), model_id)) {
                kept.push(m);
            }
            taken = taken + 1;
        }
        proof {
            assert(before.subrange(0, before.len() as int) =~= before);
        }
        self.models.curated = kept;
    }

    /// Get all curated models.
    pub fn get_curated_models(&self) -> (r: &[CuratedModel])
        ensures
            r@ == self.models.curated@,
    {
        self.models.curated.as_slice()
    }
}

} // verus!
