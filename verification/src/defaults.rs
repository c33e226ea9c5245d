//! Per-provider capability baselines.

use vstd::prelude::*;

use crate::model::{spec_default_capabilities, ModelCapabilities};
use crate::strutil::str_eq;

verus! {

/// The capability baseline of one provider, loaded once at startup and
/// handed around by reference.
#[derive(Debug)]
pub struct ProviderDefaults {
    pub capabilities: ModelCapabilities,
    pub base_url: Option<String>,
}

impl Clone for ProviderDefaults {
    fn clone(&self) -> (r: Self)
        ensures
            r == *self,
    {
        ProviderDefaults {
            capabilities: self.capabilities,
            base_url: match &self.base_url {
                Some(u) => Some(u.clone()),
                None => None,
            },
        }
    }
}

/// The baseline bound to `provider_id` in the table, if any: the first
/// entry with that provider id.
pub open spec fn spec_defaults_lookup(
    entries: Seq<(String, ProviderDefaults)>,
    provider_id: Seq<char>,
) -> Option<ProviderDefaults>
    decreases entries.len(),
{
    if entries.len() == 0 {
        None
    } else if entries[0].0@ == provider_id {
        Some(entries[0].1)
    } else {
        spec_defaults_lookup(entries.drop_first(), provider_id)
    }
}

/// The baseline that `for_provider` yields: the provider's own entry, or
/// the global default set for an unknown provider.
pub open spec fn spec_for_provider(
    entries: Seq<(String, ProviderDefaults)>,
    provider_id: Seq<char>,
) -> ProviderDefaults {
    match spec_defaults_lookup(entries, provider_id) {
        Some(d) => d,
        None => ProviderDefaults { capabilities: spec_default_capabilities(), base_url: None },
    }
}

impl ProviderDefaults {
    /// An independent copy of the provider's baseline, or the global
    /// default set if the provider is unknown. Total: never fails.
    #[verifier::loop_isolation(false)]
    pub fn for_provider(table: &Vec<(String, ProviderDefaults)>, provider_id: &str) -> (r:
        ProviderDefaults)
        ensures
            r == spec_for_provider(table@, provider_id@),
    {
        proof {
            assert(table@.skip(0) =~= table@);
        }
        let mut i: usize = 0;
        while i < table.len()
            invariant
                i <= table@.len(),
                spec_defaults_lookup(table@, provider_id@) == spec_defaults_lookup(
                    table@.skip(i as int),
                    provider_id@,
                ),
            decreases table@.len() - i,
        {
            proof {
                assert(table@.skip(i as int)[0] == table@[i as int]);
                assert(table@.skip(i as int).drop_first() =~= table@.skip(i + 1));
            }
            if str_eq(table[i].0.as_str(), provider_id) {
                return table[i].1.clone();
            }
            i += 1;
        }
        ProviderDefaults { capabilities: ModelCapabilities::default(), base_url: None }
    }

    /// An independent copy of the whole baseline table.
    pub fn get_all(table: &Vec<(String, ProviderDefaults)>) -> (r: Result<
        Vec<(String, ProviderDefaults)>,
        crate::error::AdapterError,
    >)
        ensures
            r matches Ok(t) && t@ == table@,
    {
        let mut out: Vec<(String, ProviderDefaults)> = Vec::new();
        let mut i: usize = 0;
        while i < table.len()
            invariant
                i <= table@.len(),
                out@ =~= table@.subrange(0, i as int),
            decreases table@.len() - i,
        {
            out.push((table[i].0.clone(), table[i].1.clone()));
            i += 1;
        }
        proof {
            assert(table@.subrange(0, table@.len() as int) =~= table@);
        }
        Ok(out)
    }
}

} // verus!
