//! The canonical model entity and its capability and property records.

use vstd::prelude::*;
use vstd::string::StringExecFns;

use crate::cost::Cost;

verus! {

/// The fixed set of boolean feature flags of one model.
///
/// Every flag defaults to the permissive `true` except the multimodal and
/// tool-related flags (`supports_vision`, `supports_tools`,
/// `supports_tool_choice`, `supports_tool_choice_required`), which default
/// to `false`.
#[derive(Debug, Clone, Copy, PartialEq, Eq, Structural)]
pub struct ModelCapabilities {
    pub supports_user: bool,
    pub supports_repeating_roles: bool,
    pub supports_streaming: bool,
    pub supports_vision: bool,
    pub supports_tools: bool,
    pub supports_n: bool,
    pub supports_system: bool,
    pub supports_multiple_system: bool,
    pub supports_empty_content: bool,
    pub supports_tool_choice: bool,
    pub supports_tool_choice_required: bool,
    pub supports_json_output: bool,
    pub supports_json_content: bool,
    pub supports_last_assistant: bool,
    pub supports_first_assistant: bool,
    pub supports_temperature: bool,
    pub supports_only_system: bool,
    pub supports_only_assistant: bool,
}

/// The capability set with every flag permissive and the multimodal and
/// tool flags off.
pub open spec fn spec_default_capabilities() -> ModelCapabilities {
    ModelCapabilities {
        supports_user: true,
        supports_repeating_roles: true,
        supports_streaming: true,
        supports_vision: false,
        supports_tools: false,
        supports_n: true,
        supports_system: true,
        supports_multiple_system: true,
        supports_empty_content: true,
        supports_tool_choice: false,
        supports_tool_choice_required: false,
        supports_json_output: true,
        supports_json_content: true,
        supports_last_assistant: true,
        supports_first_assistant: true,
        supports_temperature: true,
        supports_only_system: true,
        supports_only_assistant: true,
    }
}

impl Default for ModelCapabilities {
    fn default() -> (r: ModelCapabilities)
        ensures
            r == spec_default_capabilities(),
    {
        ModelCapabilities {
            supports_user: true,
            supports_repeating_roles: true,
            supports_streaming: true,
            supports_vision: false,
            supports_tools: false,
            supports_n: true,
            supports_system: true,
            supports_multiple_system: true,
            supports_empty_content: true,
            supports_tool_choice: false,
            supports_tool_choice_required: false,
            supports_json_output: true,
            supports_json_content: true,
            supports_last_assistant: true,
            supports_first_assistant: true,
            supports_temperature: true,
            supports_only_system: true,
            supports_only_assistant: true,
        }
    }
}

/// Provenance and compliance properties of one model.
#[derive(Debug, Clone, Copy, PartialEq, Eq, Structural)]
pub struct ModelProperties {
    pub open_source: bool,
    pub chinese: bool,
    pub gdpr_compliant: bool,
    pub is_nsfw: bool,
}

impl Default for ModelProperties {
    fn default() -> (r: ModelProperties)
        ensures
            r == (ModelProperties {
                open_source: false,
                chinese: false,
                gdpr_compliant: false,
                is_nsfw: false,
            }),
    {
        ModelProperties { open_source: false, chinese: false, gdpr_compliant: false, is_nsfw: false }
    }
}

/// One canonical model record. `provider_name`, `vendor_name` and `name`
/// together form the composite key `provider/vendor/name`.
#[derive(Debug)]
pub struct Model {
    pub name: String,
    pub vendor_name: String,
    pub provider_name: String,
    pub cost: Cost,
    pub context_length: u32,
    pub completion_length: Option<u32>,
    pub capabilities: ModelCapabilities,
    pub properties: ModelProperties,
    pub knowledge_cutoff: Option<String>,
    pub release_date: Option<String>,
    pub last_updated: Option<String>,
}

/// An independent copy of an optional string.
pub(crate) fn clone_opt_string(o: &Option<String>) -> (r: Option<String>)
    ensures
        r == *o,
{
    match o {
        Some(s) => Some(s.clone()),
        None => None,
    }
}

impl Clone for Model {
    fn clone(&self) -> (r: Self)
        ensures
            r == *self,
    {
        Model {
            name: self.name.clone(),
            vendor_name: self.vendor_name.clone(),
            provider_name: self.provider_name.clone(),
            cost: self.cost,
            context_length: self.context_length,
            completion_length: self.completion_length,
            capabilities: self.capabilities,
            properties: self.properties,
            knowledge_cutoff: clone_opt_string(&self.knowledge_cutoff),
            release_date: clone_opt_string(&self.release_date),
            last_updated: clone_opt_string(&self.last_updated),
        }
    }
}

/// The composite key `provider/vendor/name` as a character sequence.
pub open spec fn spec_path(provider: Seq<char>, vendor: Seq<char>, name: Seq<char>) -> Seq<char> {
    provider + seq!['/'] + vendor + seq!['/'] + name
}

impl Model {
    /// The composite key of this model, derived from its parts on every
    /// call and never stored redundantly.
    pub open spec fn path_view(&self) -> Seq<char> {
        spec_path(self.provider_name@, self.vendor_name@, self.name@)
    }

    pub fn get_path(&self) -> (r: String)
        ensures
            r@ == self.path_view(),
    {
        let mut r = self.provider_name.clone();
        r.append("/");
        r.append(self.vendor_name.as_str());
        r.append("/");
        r.append(self.name.as_str());
        proof {
            reveal_strlit("/");
            assert("/"@ =~= seq!['/']);
            assert(r@ =~= self.path_view());
        }
        r
    }
}

} // verus!
