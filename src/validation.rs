//! Format checks on API keys before they are sent to the backend.

use vstd::prelude::*;

use crate::config::ProviderConfig;
use crate::error::{AuthSyncError, ErrorLocation, KeyValidationFailure};
use crate::redacted_key::RedactedApiKey;
use crate::text::{contains, contains_seq, has_prefix, same_text, starts_with};

verus! {

broadcast use vstd::string::group_string_axioms;

/// A character of Unicode's White_Space property, which `char::is_whitespace`
/// tests for.
pub open spec fn white_space(c: char) -> bool {
    ('\u{9}' <= c && c <= '\u{d}') || c == ' ' || c == '\u{85}' || c == '\u{a0}' || c == '\u{1680}'
        || ('\u{2000}' <= c && c <= '\u{200a}') || c == '\u{2028}' || c == '\u{2029}' || c == '\u{202f}'
        || c == '\u{205f}' || c == '\u{3000}'
}

/// The text without its leading white space.
pub open spec fn trim_start_of(s: Seq<char>) -> Seq<char>
    decreases s.len(),
{
    if s.len() > 0 && white_space(s[0]) {
        trim_start_of(s.drop_first())
    } else {
        s
    }
}

/// The text without its trailing white space.
pub open spec fn trim_end_of(s: Seq<char>) -> Seq<char>
    decreases s.len(),
{
    if s.len() > 0 && white_space(s.last()) {
        trim_end_of(s.drop_last())
    } else {
        s
    }
}

/// The text without leading and trailing white space.
pub open spec fn trimmed_of(s: Seq<char>) -> Seq<char> {
    trim_end_of(trim_start_of(s))
}

/// What `str::to_lowercase` makes of a string.
pub uninterp spec fn lower_of(s: Seq<char>) -> Seq<char>;

/// Relies on `str::trim`: the string without leading and trailing
/// characters of the White_Space property.
#[verifier::external_body]
fn trim_text(s: &str) -> (r: &str)
    ensures
        r@ == trimmed_of(s@),
{
    s.trim()
}

/// Relies on `str::to_lowercase`: the lower-case mapping of each character;
/// the result depends on the characters alone.
#[verifier::external_body]
fn lowercase(s: &str) -> (r: String)
    ensures
        r@ == lower_of(s@),
{
    s.to_lowercase()
}

/// Length of a text in UTF-8 bytes.
pub open spec fn byte_len(t: Seq<char>) -> usize {
    vstd::utf8::encode_utf8(t).len() as usize
}

/// Outcome of checking one key.
#[derive(Debug)]
pub enum ValidationResult {
    Valid,
    Invalid(KeyValidationFailure),
}

/// Provider-specific rules for API keys.
pub struct KeyValidator {
    /// Provider name for error messages.
    pub provider: String,
    /// Prefix every key of the provider starts with, if any.
    pub expected_prefix: Option<String>,
    /// Minimum key length in bytes.
    pub min_length: usize,
    /// Maximum key length in bytes.
    pub max_length: usize,
}

/// The rules a key is checked against: a prefix, if any, and bounds on
/// its length in bytes.
pub struct KeyRules {
    pub prefix: Option<Seq<char>>,
    pub min_length: usize,
    pub max_length: usize,
}

/// The rules of a validator.
pub open spec fn rules_of(v: KeyValidator) -> KeyRules {
    KeyRules {
        prefix: match v.expected_prefix {
            Some(p) => Some(p@),
            None => None,
        },
        min_length: v.min_length,
        max_length: v.max_length,
    }
}

pub open spec fn key_rules(prefix: Option<Seq<char>>, min_length: usize, max_length: usize) -> KeyRules {
    KeyRules { prefix, min_length, max_length }
}

/// The rules used for a provider name.
pub open spec fn rules_for(name: Seq<char>) -> KeyRules {
    if name == "openai"@ {
        key_rules(Some("sk-"@), 20, 200)
    } else if name == "anthropic"@ {
        key_rules(Some("sk-ant-"@), 40, 200)
    } else if name == "google"@ || name == "google_generativeai"@ {
        key_rules(Some("AI"@), 30, 100)
    } else if name == "mistral"@ {
        key_rules(None, 32, 64)
    } else if name == "cohere"@ {
        key_rules(None, 30, 100)
    } else {
        key_rules(None, 10, 500)
    }
}

pub open spec fn placeholder_pattern(lower: Seq<char>) -> Option<Seq<char>> {
    if contains_seq(lower, "..."@) {
        Some("ellipsis"@)
    } else if contains_seq(lower, "your-api-key"@) {
        Some("your-api-key"@)
    } else if contains_seq(lower, "your_api_key"@) {
        Some("your_api_key"@)
    } else if contains_seq(lower, "insert"@) {
        Some("INSERT"@)
    } else if contains_seq(lower, "<your"@) {
        Some("<your...>"@)
    } else if contains_seq(lower, "xxx"@) {
        Some("xxx"@)
    } else if contains_seq(lower, "placeholder"@) {
        Some("placeholder"@)
    } else if contains_seq(lower, "example"@) {
        Some("example"@)
    } else if contains_seq(lower, "test-key"@) {
        Some("test-key"@)
    } else if contains_seq(lower, "dummy"@) {
        Some("dummy"@)
    } else if contains_seq(lower, "fake"@) {
        Some("fake"@)
    } else if contains_seq(lower, "replace"@) {
        Some("replace"@)
    } else if contains_seq(lower, "put-your"@) {
        Some("put-your"@)
    } else if contains_seq(lower, "add-your"@) {
        Some("add-your"@)
    } else if contains_seq(lower, "enter-your"@) {
        Some("enter-your"@)
    } else {
        None
    }
}

/// The placeholder a trimmed key is taken for, given its lower-case form:
/// the first listed pattern found in the lower-case form, else a run of one
/// repeated character ten bytes or longer.
pub open spec fn placeholder_of(key: Seq<char>, lower: Seq<char>) -> Option<Seq<char>> {
    match placeholder_pattern(lower) {
        Some(p) => Some(p),
        None => if repeated_char_key(key) {
            Some("repeated_char"@)
        } else {
            None
        },
    }
}

/// Ten bytes or more of one character repeated.
pub open spec fn repeated_char_key(key: Seq<char>) -> bool {
    byte_len(key) >= 10 && key.len() > 0 && forall|i: int| 0 <= i < key.len() ==> (#[trigger] key[i]) == key[0]
}

/// A character allowed in a key: ASCII letters and digits, `-`, `_`, `.`, `:`.
pub open spec fn key_char(c: char) -> bool {
    ('a' <= c && c <= 'z') || ('A' <= c && c <= 'Z') || ('0' <= c && c <= '9')
        || c == '-' || c == '_' || c == '.' || c == ':'
}

/// Every character of the key is allowed.
pub open spec fn key_chars(key: Seq<char>) -> bool {
    forall|i: int| 0 <= i < key.len() ==> key_char(#[trigger] key[i])
}

/// `r` is what checking the trimmed key `t`, whose lower-case form is
/// `lower`, against `v`'s rules gives. The checks run in order: empty,
/// too short, too long, prefix, placeholder, characters.
pub open spec fn validation_outcome(v: KeyRules, t: Seq<char>, lower: Seq<char>, r: ValidationResult) -> bool {
    if t.len() == 0 {
        r == ValidationResult::Invalid(KeyValidationFailure::Empty)
    } else if byte_len(t) < v.min_length {
        r == ValidationResult::Invalid(KeyValidationFailure::TooShort { min: v.min_length, actual: byte_len(t) })
    } else if byte_len(t) > v.max_length {
        r == ValidationResult::Invalid(KeyValidationFailure::TooLong { max: v.max_length, actual: byte_len(t) })
    } else if v.prefix is Some && !has_prefix(t, v.prefix->0) {
        r is Invalid && r->Invalid_0 is InvalidPrefix
            && r->Invalid_0->InvalidPrefix_expected@ == v.prefix->0
            && r->Invalid_0->InvalidPrefix_actual@ == (if v.prefix->0.len() < t.len() {
                t.take(v.prefix->0.len() as int)
            } else {
                t
            })
    } else if placeholder_of(t, lower) is Some {
        r is Invalid && r->Invalid_0 is PlaceholderDetected
            && r->Invalid_0->PlaceholderDetected_pattern@ == placeholder_of(t, lower)->0
    } else if !key_chars(t) {
        r == ValidationResult::Invalid(KeyValidationFailure::InvalidCharacters)
    } else {
        r is Valid
    }
}

fn placeholder_in_lowered(lower: &str) -> (r: Option<&'static str>)
    ensures
        (r is Some) <==> (placeholder_pattern(lower@) is Some),
        r is Some ==> r->0@ == placeholder_pattern(lower@)->0,
{
    if contains(lower, "...") {
        return Some("ellipsis");
    }
    if contains(lower, "your-api-key") {
        return Some("your-api-key");
    }
    if contains(lower, "your_api_key") {
        return Some("your_api_key");
    }
    if contains(lower, "insert") {
        return Some("INSERT");
    }
    if contains(lower, "<your") {
        return Some("<your...>");
    }
    if contains(lower, "xxx") {
        return Some("xxx");
    }
    if contains(lower, "placeholder") {
        return Some("placeholder");
    }
    if contains(lower, "example") {
        return Some("example");
    }
    if contains(lower, "test-key") {
        return Some("test-key");
    }
    if contains(lower, "dummy") {
        return Some("dummy");
    }
    if contains(lower, "fake") {
        return Some("fake");
    }
    if contains(lower, "replace") {
        return Some("replace");
    }
    if contains(lower, "put-your") {
        return Some("put-your");
    }
    if contains(lower, "add-your") {
        return Some("add-your");
    }
    if contains(lower, "enter-your") {
        return Some("enter-your");
    }
    None
}

fn placeholder_checked(key: &str, lower: &str) -> (r: Option<&'static str>)
    ensures
        (r is Some) <==> (placeholder_of(key@, lower@) is Some),
        r is Some ==> r->0@ == placeholder_of(key@, lower@)->0,
{
    let found = placeholder_in_lowered(lower);
    if found.is_some() {
        return found;
    }
    if key.len() >= 10 {
        let n = key.unicode_len();
        if n == 0 {
            return None;
        }
        let first = key.get_char(0);
        let mut i: usize = 1;
        while i < n
            invariant
                n == key@.len(),
                1 <= i <= n,
                first == key@[0],
                forall|j: int| 0 <= j < i ==> (#[trigger] key@[j]) == first,
                placeholder_pattern(lower@) is None,
                byte_len(key@) >= 10,
            decreases n - i,
        {
            if key.get_char(i) != first {
                assert(key@[i as int] != key@[0]);
                assert(!(forall|j: int| 0 <= j < key@.len() ==> (#[trigger] key@[j]) == key@[0]));
                return None;
            }
            i = i + 1;
        }
        return Some("repeated_char");
    }
    None
}

/// Detect common placeholder patterns, matched without regard to case;
/// the name of the pattern found, if any.
pub fn detect_placeholder(key: &str) -> (r: Option<&'static str>)
    ensures
        (r is Some) <==> (placeholder_of(key@, lower_of(key@)) is Some),
        r is Some ==> r->0@ == placeholder_of(key@, lower_of(key@))->0,
{
    let lower = lowercase(key);
    placeholder_checked(key, lower.as_str())
}

/// Check if the key contains only ASCII letters and digits, `-`, `_`, `.`
/// and `:`.
pub fn is_valid_key_chars(key: &str) -> (r: bool)
    ensures
        r == key_chars(key@),
{
    let n = key.unicode_len();
    let mut i: usize = 0;
    while i < n
        invariant
            n == key@.len(),
            i <= n,
            forall|j: int| 0 <= j < i ==> key_char(#[trigger] key@[j]),
        decreases n - i,
    {
        let c = key.get_char(i);
        if !(('a' <= c && c <= 'z') || ('A' <= c && c <= 'Z') || ('0' <= c && c <= '9')
            || c == '-' || c == '_' || c == '.' || c == ':') {
            assert(!key_char(key@[i as int]));
            return false;
        }
        i = i + 1;
    }
    true
}

fn rules(provider: String, prefix: Option<&str>, min_length: usize, max_length: usize) -> (r: KeyValidator)
    ensures
        r.provider == provider,
        (r.expected_prefix is Some) <==> (prefix is Some),
        prefix is Some ==> r.expected_prefix->0@ == prefix->0@,
        r.min_length == min_length,
        r.max_length == max_length,
{
    let expected_prefix = match prefix {
        Some(p) => Some(p.to_owned()),
        None => None,
    };
    KeyValidator { provider, expected_prefix, min_length, max_length }
}

impl KeyValidator {
    /// Validator for a provider: the well-known rules for recognized
    /// providers, permissive ones for the rest.
    pub fn from_config(config: &ProviderConfig) -> (r: Self)
        ensures
            r.provider@ == config.name@,
            rules_of(r) == rules_for(config.name@),
    {
        let name = config.name.as_str();
        let provider = name.to_owned();
        if same_text(name, "openai") {
            rules(provider, Some("sk-"), 20, 200)
        } else if same_text(name, "anthropic") {
            rules(provider, Some("sk-ant-"), 40, 200)
        } else if same_text(name, "google") || same_text(name, "google_generativeai") {
            rules(provider, Some("AI"), 30, 100)
        } else if same_text(name, "mistral") {
            rules(provider, None, 32, 64)
        } else if same_text(name, "cohere") {
            rules(provider, None, 30, 100)
        } else {
            rules(provider, None, 10, 500)
        }
    }

    /// Check an already trimmed key, given its lower-case form.
    pub fn validate_trimmed(&self, trimmed: &str, lower: &str) -> (r: ValidationResult)
        ensures
            validation_outcome(rules_of(*self), trimmed@, lower@, r),
    {
        if trimmed.is_empty() {
            return ValidationResult::Invalid(KeyValidationFailure::Empty);
        }
        let len = trimmed.len();
        if len < self.min_length {
            return ValidationResult::Invalid(KeyValidationFailure::TooShort { min: self.min_length, actual: len });
        }
        if len > self.max_length {
            return ValidationResult::Invalid(KeyValidationFailure::TooLong { max: self.max_length, actual: len });
        }
        if let Some(expected) = &self.expected_prefix {
            if !starts_with(trimmed, expected.as_str()) {
                let n = trimmed.unicode_len();
                let k = expected.as_str().unicode_len();
                let end = if k < n { k } else { n };
                let actual = trimmed.substring_char(0, end).to_owned();
                proof {
                    assert(k < n ==> trimmed@.subrange(0, end as int) =~= trimmed@.take(k as int));
                    assert(k >= n ==> trimmed@.subrange(0, end as int) =~= trimmed@);
                }
                return ValidationResult::Invalid(KeyValidationFailure::InvalidPrefix {
                    expected: expected.as_str().to_owned(),
                    actual,
                });
            }
        }
        if let Some(pattern) = placeholder_checked(trimmed, lower) {
            return ValidationResult::Invalid(KeyValidationFailure::PlaceholderDetected { pattern: pattern.to_owned() });
        }
        if !is_valid_key_chars(trimmed) {
            return ValidationResult::Invalid(KeyValidationFailure::InvalidCharacters);
        }
        ValidationResult::Valid
    }

    /// Check a key: it is trimmed first, and placeholders are matched
    /// without regard to case.
    pub fn validate(&self, key: &str) -> (r: ValidationResult)
        ensures
            validation_outcome(rules_of(*self), trimmed_of(key@), lower_of(trimmed_of(key@)), r),
    {
        let trimmed = trim_text(key);
        let lower = lowercase(trimmed);
        self.validate_trimmed(trimmed, lower.as_str())
    }

    /// Validate and wrap in a `RedactedApiKey` if valid; otherwise a key
    /// validation error naming the provider and the reason.
    pub fn validate_and_wrap(&self, key: String) -> (r: Result<RedactedApiKey, AuthSyncError>)
        ensures
            r is Ok <==> validation_outcome(rules_of(*self), trimmed_of(key@), lower_of(trimmed_of(key@)), ValidationResult::Valid),
            r is Ok ==> r->Ok_0@ == key@,
            r is Err ==> (r->Err_0 matches AuthSyncError::KeyValidation { provider, reason, .. }
                && provider@ == self.provider@
                && validation_outcome(rules_of(*self), trimmed_of(key@), lower_of(trimmed_of(key@)), ValidationResult::Invalid(reason))),
    {
        match self.validate(key.as_str()) {
            ValidationResult::Valid => Ok(RedactedApiKey::new(key)),
            ValidationResult::Invalid(reason) => Err(AuthSyncError::key_validation(
                self.provider.as_str(),
                reason,
                ErrorLocation::raised_in("validation"),
            )),
        }
    }
}

} // verus!
