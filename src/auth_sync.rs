//! Collecting API keys from the environment, per provider of the catalog.

use vstd::prelude::*;

use crate::config::ModelsConfig;
use crate::error::{AuthSyncError, ErrorLocation};
use crate::redacted_key::RedactedApiKey;
use crate::text::{joined, owned};
use crate::config::ProviderConfig;
use crate::validation::{lower_of, rules_for, trimmed_of, validation_outcome, KeyValidator, ValidationResult};

verus! {

broadcast use vstd::string::group_string_axioms;

/// Keys found in the environment.
pub struct LoadedKeys {
    /// Valid keys, by provider name, in catalog order.
    pub keys: Vec<(String, RedactedApiKey)>,
    /// Keys that failed validation, by provider name, in catalog order.
    pub validation_errors: Vec<(String, AuthSyncError)>,
}

impl LoadedKeys {
    pub fn is_empty(&self) -> (r: bool)
        ensures
            r == (self.keys@.len() == 0),
    {
        self.keys.len() == 0
    }

    /// How many providers had a key set, valid or not.
    pub fn total_found(&self) -> (r: usize)
        ensures
            r as int == if self.keys@.len() + self.validation_errors@.len() <= usize::MAX {
                (self.keys@.len() + self.validation_errors@.len()) as int
            } else {
                usize::MAX as int
            },
    {
        let a = self.keys.len();
        let b = self.validation_errors.len();
        if a > usize::MAX - b {
            usize::MAX
        } else {
            a + b
        }
    }
}

/// Whether a `.env` file was loaded, and from where.
#[derive(Debug, Clone)]
pub struct EnvLoadResult {
    pub path: Option<String>,
    pub loaded: bool,
}

/// Settings of one key sync run.
#[derive(Debug, Clone)]
pub struct SyncConfig {
    /// Skip providers with OAuth configured.
    pub skip_oauth_providers: bool,
    /// Overall operation timeout, in milliseconds.
    pub timeout_ms: u64,
    /// Maximum retries per provider.
    pub max_retries: u32,
    /// Initial retry delay, in milliseconds.
    pub initial_delay_ms: u64,
    /// Maximum retry delay, in milliseconds.
    pub max_delay_ms: u64,
}

impl Default for SyncConfig {
    fn default() -> (r: Self)
        ensures
            r.skip_oauth_providers,
            r.timeout_ms == 30_000,
            r.max_retries == 3,
            r.initial_delay_ms == 200,
            r.max_delay_ms == 2_000,
    {
        SyncConfig {
            skip_oauth_providers: true,
            timeout_ms: 30_000,
            max_retries: 3,
            initial_delay_ms: 200,
            max_delay_ms: 2_000,
        }
    }
}

/// The value of one environment variable.
#[derive(Debug)]
pub enum EnvValue {
    NotPresent,
    NotUnicode,
    Value(String),
}

/// Where a provider's key ends up: nowhere (0), among the keys (1), or
/// among the validation errors (2). Providers without a variable name and
/// unset variables are skipped; a value that passes the provider's rules is
/// kept; an invalid or non-Unicode value is an error.
pub open spec fn key_goes(p: ProviderConfig, value: EnvValue) -> int {
    if p.api_key_env@.len() == 0 {
        0
    } else {
        match value {
            EnvValue::NotPresent => 0,
            EnvValue::NotUnicode => 2,
            EnvValue::Value(s) => if validation_outcome(
                rules_for(p.name@),
                trimmed_of(s@),
                lower_of(trimmed_of(s@)),
                ValidationResult::Valid,
            ) {
                1
            } else {
                2
            },
        }
    }
}

/// The positions, in catalog order, among the first `n` providers, whose
/// key ends up at `goes`.
pub open spec fn providers_going(config: ModelsConfig, env: Seq<EnvValue>, n: int, goes: int) -> Seq<int>
    decreases n,
{
    if n <= 0 {
        Seq::empty()
    } else if key_goes(config.providers@[n - 1], env[n - 1]) == goes {
        providers_going(config, env, n - 1, goes).push(n - 1)
    } else {
        providers_going(config, env, n - 1, goes)
    }
}

/// How many of the first `n` providers have a key variable that is set.
pub open spec fn variables_set(config: ModelsConfig, env: Seq<EnvValue>, n: int) -> int
    decreases n,
{
    if n <= 0 {
        0
    } else if config.providers@[n - 1].api_key_env@.len() > 0 && !(env[n - 1] is NotPresent) {
        variables_set(config, env, n - 1) + 1
    } else {
        variables_set(config, env, n - 1)
    }
}

/// Every provider whose key variable is set is counted once, as a key or
/// as an error: the keys and errors that `load_env_api_keys` returns (and
/// so `total_found`) number the providers whose variable is set.
pub proof fn lemma_found_counts_set_variables(config: ModelsConfig, env: Seq<EnvValue>, n: int)
    requires
        0 <= n <= env.len(),
        n <= config.providers@.len(),
    ensures
        providers_going(config, env, n, 1).len() + providers_going(config, env, n, 2).len() == variables_set(config, env, n),
    decreases n,
{
    if n > 0 {
        lemma_found_counts_set_variables(config, env, n - 1);
    }
}

proof fn lemma_going_bounds(config: ModelsConfig, env: Seq<EnvValue>, n: int, goes: int)
    ensures
        forall|k: int| 0 <= k < providers_going(config, env, n, goes).len() ==> 0 <= #[trigger] providers_going(
            config,
            env,
            n,
            goes,
        )[k] < n,
    decreases n,
{
    if n > 0 {
        lemma_going_bounds(config, env, n - 1, goes);
        let prev = providers_going(config, env, n - 1, goes);
        let cur = providers_going(config, env, n, goes);
        assert forall|k: int| 0 <= k < cur.len() implies 0 <= #[trigger] cur[k] < n by {
            if k < prev.len() {
                assert(cur[k] == prev[k]);
            }
        }
    }
}

/// Collect the keys of the catalog's providers from the values of their
/// key variables (`env_values[i]` for provider `i`): one entry per
/// provider, in catalog order, among the keys for a valid value (wrapped in
/// `RedactedApiKey`) or among the errors for an invalid or non-Unicode one;
/// providers without a variable name and unset variables give no entry.
pub fn load_env_api_keys(config: &ModelsConfig, env_values: &Vec<EnvValue>) -> (r: LoadedKeys)
    requires
        env_values@.len() == config.providers@.len(),
    ensures
        ({
            let ks = providers_going(*config, env_values@, config.providers@.len() as int, 1);
            &&& r.keys@.len() == ks.len()
            &&& forall|k: int| 0 <= k < ks.len() ==> (#[trigger] r.keys@[k]).0@ == config.providers@[ks[k]].name@
                && env_values@[ks[k]] is Value && r.keys@[k].1@ == env_values@[ks[k]]->Value_0@
        }),
        ({
            let es = providers_going(*config, env_values@, config.providers@.len() as int, 2);
            &&& r.validation_errors@.len() == es.len()
            &&& forall|k: int| 0 <= k < es.len() ==> (#[trigger] r.validation_errors@[k]).0@ == config.providers@[es[k]].name@
        }),
{
    let mut keys: Vec<(String, RedactedApiKey)> = Vec::new();
    let mut validation_errors: Vec<(String, AuthSyncError)> = Vec::new();
    let mut i: usize = 0;
    while i < config.providers.len()
        invariant
            i <= config.providers@.len(),
            env_values@.len() == config.providers@.len(),
            ({
                let ks = providers_going(*config, env_values@, i as int, 1);
                &&& keys@.len() == ks.len()
                &&& forall|k: int| 0 <= k < ks.len() ==> (#[trigger] keys@[k]).0@ == config.providers@[ks[k]].name@
                    && env_values@[ks[k]] is Value && keys@[k].1@ == env_values@[ks[k]]->Value_0@
            }),
            ({
                let es = providers_going(*config, env_values@, i as int, 2);
                &&& validation_errors@.len() == es.len()
                &&& forall|k: int| 0 <= k < es.len() ==> (#[trigger] validation_errors@[k]).0@ == config.providers@[es[k]].name@
            }),
        decreases config.providers@.len() - i,
    {
        let provider = &config.providers[i];
        let ghost goes = key_goes(config.providers@[i as int], env_values@[i as int]);
        if !provider.api_key_env.as_str().is_empty() {
            match &env_values[i] {
                EnvValue::NotPresent => {},
                EnvValue::NotUnicode => {
                    let message = joined(provider.api_key_env.as_str(), " contains invalid unicode");
                    let e = AuthSyncError::env_load(message, ErrorLocation::raised_in("auth_sync"));
                    validation_errors.push((owned(provider.name.as_str()), e));
                },
                EnvValue::Value(s) => {
                    let validator = KeyValidator::from_config(provider);
                    match validator.validate_and_wrap(owned(s.as_str())) {
                        Ok(key) => {
                            keys.push((owned(provider.name.as_str()), key));
                            assert(goes == 1);
                        },
                        Err(e) => {
                            validation_errors.push((owned(provider.name.as_str()), e));
                            assert(goes == 2);
                        },
                    }
                },
            }
        }
        proof {
            lemma_going_bounds(*config, env_values@, i as int, 1);
            lemma_going_bounds(*config, env_values@, i as int, 2);
            let ks = providers_going(*config, env_values@, i as int, 1);
            let es = providers_going(*config, env_values@, i as int, 2);
            let ks1 = providers_going(*config, env_values@, i + 1, 1);
            let es1 = providers_going(*config, env_values@, i + 1, 2);
            if goes == 1 {
                assert(ks1 == ks.push(i as int));
                assert(es1 == es);
                assert forall|k: int| 0 <= k < ks1.len() implies (#[trigger] keys@[k]).0@ == config.providers@[ks1[k]].name@
                    && env_values@[ks1[k]] is Value && keys@[k].1@ == env_values@[ks1[k]]->Value_0@ by {
                    if k < ks.len() {
                        assert(ks1[k] == ks[k]);
                    }
                }
            } else if goes == 2 {
                assert(ks1 == ks);
                assert(es1 == es.push(i as int));
                assert forall|k: int| 0 <= k < es1.len() implies (#[trigger] validation_errors@[k]).0@ == config.providers@[es1[k]].name@ by {
                    if k < es.len() {
                        assert(es1[k] == es[k]);
                    }
                }
            } else {
                assert(ks1 == ks);
                assert(es1 == es);
            }
        }
        i = i + 1;
    }
    LoadedKeys { keys, validation_errors }
}

} // verus!
