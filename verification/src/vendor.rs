//! Vendor resolution: ordered pattern rules with a provider-level
//! fallback.

use vstd::prelude::*;

use crate::strutil::{contains_sub, spec_contains, str_eq};

verus! {

/// What a regular-expression test of `pattern` against `text` yields:
/// `None` when the pattern does not compile, otherwise whether the text
/// matches. The regex engine is deterministic, so this is a function of
/// the two strings alone.
pub uninterp spec fn regex_match(pattern: Seq<char>, text: Seq<char>) -> Option<bool>;

/// Relies on `regex::Regex::new` (which errors exactly on an invalid
/// pattern) and `regex::Regex::is_match` (true iff the regex matches
/// anywhere in the haystack).
#[verifier::external_body]
fn try_regex_is_match(pattern: &str, text: &str) -> (r: Option<bool>)
    ensures
        r == regex_match(pattern@, text@),
{
    match regex::Regex::new(pattern) {
        Ok(re) => Some(re.is_match(text)),
        Err(_) => None,
    }
}

/// The ordered vendor-mapping configuration: pattern rules, first match
/// wins, and per-provider default vendors. Both tables are explicit
/// ordered sequences so that the first-match contract is well defined.
#[derive(Debug, Clone)]
pub struct VendorMappingsConfig {
    /// Ordered `(regex pattern, vendor name)` rules.
    pub patterns: Vec<(String, String)>,
    /// `(provider id, default vendor name)` fallbacks, first match wins.
    pub provider_defaults: Vec<(String, String)>,
}

/// The vendor of the first pattern rule that matches `model_id`, if any.
/// A rule whose pattern does not compile, or does not match, is skipped.
pub open spec fn spec_first_pattern_vendor(
    patterns: Seq<(String, String)>,
    model_id: Seq<char>,
) -> Option<Seq<char>>
    decreases patterns.len(),
{
    if patterns.len() == 0 {
        None
    } else if regex_match(patterns[0].0@, model_id) == Some(true) {
        Some(patterns[0].1@)
    } else {
        spec_first_pattern_vendor(patterns.drop_first(), model_id)
    }
}

/// The value bound to `key` in an ordered association list, if any.
pub open spec fn spec_assoc(entries: Seq<(String, String)>, key: Seq<char>) -> Option<Seq<char>>
    decreases entries.len(),
{
    if entries.len() == 0 {
        None
    } else if entries[0].0@ == key {
        Some(entries[0].1@)
    } else {
        spec_assoc(entries.drop_first(), key)
    }
}

/// The vendor that resolution yields: the first matching pattern rule's
/// vendor, else the provider's default vendor, else the provider itself.
pub open spec fn spec_extract_vendor(
    patterns: Seq<(String, String)>,
    provider_defaults: Seq<(String, String)>,
    model_id: Seq<char>,
    provider_id: Seq<char>,
) -> Seq<char> {
    match spec_first_pattern_vendor(patterns, model_id) {
        Some(v) => v,
        None => match spec_assoc(provider_defaults, provider_id) {
            Some(v) => v,
            None => provider_id,
        },
    }
}

/// Whether a model counts as Chinese-origin: fixed provider-id substring
/// checks, or a model-id substring check.
pub open spec fn spec_is_chinese(model_id: Seq<char>, provider_id: Seq<char>) -> bool {
    ||| spec_contains(provider_id, "china"@)
    ||| spec_contains(provider_id, "alibaba"@)
    ||| spec_contains(provider_id, "moonshot"@)
    ||| spec_contains(model_id, "qwen"@)
}

/// Whether a provider is on the fixed GDPR allow-list.
pub open spec fn spec_is_gdpr(provider_id: Seq<char>) -> bool {
    ||| provider_id == "openai"@
    ||| provider_id == "azure"@
    ||| provider_id == "anthropic"@
}

/// Vendor-resolution rules over an injected configuration.
pub struct VendorMappings;

impl VendorMappings {
    /// Resolves a model and provider to a canonical vendor name: the first
    /// pattern rule that matches wins; with no match, the provider's
    /// default vendor; with no default, the provider is its own vendor.
    /// Total: a malformed pattern is skipped, never an error.
    #[verifier::loop_isolation(false)]
    pub fn extract_vendor(config: &VendorMappingsConfig, model_id: &str, provider_id: &str) -> (r:
        String)
        ensures
            r@ == spec_extract_vendor(
                config.patterns@,
                config.provider_defaults@,
                model_id@,
                provider_id@,
            ),
    {
        proof {
            assert(config.patterns@.skip(0) =~= config.patterns@);
            assert(config.provider_defaults@.skip(0) =~= config.provider_defaults@);
        }
        let mut i: usize = 0;
        while i < config.patterns.len()
            invariant
                i <= config.patterns@.len(),
                spec_first_pattern_vendor(config.patterns@, model_id@)
                    == spec_first_pattern_vendor(config.patterns@.skip(i as int), model_id@),
            decreases config.patterns@.len() - i,
        {
            proof {
                assert(config.patterns@.skip(i as int)[0] == config.patterns@[i as int]);
                assert(config.patterns@.skip(i as int).drop_first() =~= config.patterns@.skip(
                    i + 1,
                ));
            }
            match try_regex_is_match(config.patterns[i].0.as_str(), model_id) {
                Some(true) => {
                    return config.patterns[i].1.clone();
                },
                _ => (),
            }
            i += 1;
        }
        proof {
            assert(config.patterns@.skip(config.patterns@.len() as int).len() == 0);
        }
        let mut j: usize = 0;
        while j < config.provider_defaults.len()
            invariant
                j <= config.provider_defaults@.len(),
                spec_assoc(config.provider_defaults@, provider_id@) == spec_assoc(
                    config.provider_defaults@.skip(j as int),
                    provider_id@,
                ),
            decreases config.provider_defaults@.len() - j,
        {
            proof {
                assert(config.provider_defaults@.skip(j as int)[0]
                    == config.provider_defaults@[j as int]);
                assert(config.provider_defaults@.skip(j as int).drop_first()
                    =~= config.provider_defaults@.skip(j + 1));
            }
            if str_eq(config.provider_defaults[j].0.as_str(), provider_id) {
                return config.provider_defaults[j].1.clone();
            }
            j += 1;
        }
        proof {
            assert(config.provider_defaults@.skip(config.provider_defaults@.len() as int).len()
                == 0);
        }
        provider_id.to_owned()
    }

    /// Whether a model counts as Chinese-origin.
    pub fn is_chinese_model(model_id: &str, provider_id: &str) -> (r: bool)
        ensures
            r == spec_is_chinese(model_id@, provider_id@),
    {
        contains_sub(provider_id, "china") || contains_sub(provider_id, "alibaba") || contains_sub(
            provider_id,
            "moonshot",
        ) || contains_sub(model_id, "qwen")
    }

    /// Whether a provider is on the fixed GDPR allow-list.
    pub fn is_gdpr_compliant(provider_id: &str) -> (r: bool)
        ensures
            r == spec_is_gdpr(provider_id@),
    {
        str_eq(provider_id, "openai") || str_eq(provider_id, "azure") || str_eq(
            provider_id,
            "anthropic",
        )
    }
}

/// Resolution is deterministic and total: against one rule set, one
/// model and provider always resolve to the one vendor that the
/// resolution function of the configuration gives, so two results of
/// resolving the same inputs are equal.
pub proof fn lemma_resolve_deterministic(
    config: VendorMappingsConfig,
    model_id: Seq<char>,
    provider_id: Seq<char>,
    r1: Seq<char>,
    r2: Seq<char>,
)
    requires
        r1 == spec_extract_vendor(config.patterns@, config.provider_defaults@, model_id, provider_id),
        r2 == spec_extract_vendor(config.patterns@, config.provider_defaults@, model_id, provider_id),
    ensures
        r1 == r2,
{
}

} // verus!
