//! Conjunctive predicates over canonical models.

use vstd::prelude::*;

use crate::model::Model;

verus! {

/// A predicate built from zero or more optional equality constraints; an
/// unset constraint is vacuously satisfied, so the empty filter matches
/// every model.
#[derive(Debug)]
pub struct ModelFilter {
    pub supports_streaming: Option<bool>,
    pub supports_vision: Option<bool>,
    pub supports_tools: Option<bool>,
    pub supports_temperature: Option<bool>,
    pub provider: Option<String>,
}

/// The filter with no constraint set.
pub open spec fn spec_empty_filter() -> ModelFilter {
    ModelFilter {
        supports_streaming: None,
        supports_vision: None,
        supports_tools: None,
        supports_temperature: None,
        provider: None,
    }
}

/// Whether a model satisfies every constraint that the filter sets.
pub open spec fn spec_matches(f: ModelFilter, m: Model) -> bool {
    &&& (f.supports_streaming matches Some(b) ==> m.capabilities.supports_streaming == b)
    &&& (f.supports_vision matches Some(b) ==> m.capabilities.supports_vision == b)
    &&& (f.supports_tools matches Some(b) ==> m.capabilities.supports_tools == b)
    &&& (f.supports_temperature matches Some(b) ==> m.capabilities.supports_temperature == b)
    &&& (f.provider matches Some(p) ==> m.provider_name@ == p@)
}

impl Clone for ModelFilter {
    fn clone(&self) -> (r: Self)
        ensures
            spec_filter_eq(r, *self),
    {
        ModelFilter {
            supports_streaming: self.supports_streaming,
            supports_vision: self.supports_vision,
            supports_tools: self.supports_tools,
            supports_temperature: self.supports_temperature,
            provider: match &self.provider {
                Some(p) => Some(p.clone()),
                None => None,
            },
        }
    }
}

/// Two filters that constrain exactly alike.
pub open spec fn spec_filter_eq(a: ModelFilter, b: ModelFilter) -> bool {
    &&& a.supports_streaming == b.supports_streaming
    &&& a.supports_vision == b.supports_vision
    &&& a.supports_tools == b.supports_tools
    &&& a.supports_temperature == b.supports_temperature
    &&& (match (a.provider, b.provider) {
        (None, None) => true,
        (Some(x), Some(y)) => x@ == y@,
        _ => false,
    })
}

/// Filters that constrain alike match alike.
pub proof fn lemma_filter_eq_matches(a: ModelFilter, b: ModelFilter, m: Model)
    requires
        spec_filter_eq(a, b),
    ensures
        spec_matches(a, m) == spec_matches(b, m),
{
}

impl ModelFilter {
    /// The filter with no constraint set, which matches every model.
    pub fn new() -> (r: ModelFilter)
        ensures
            r == spec_empty_filter(),
    {
        ModelFilter {
            supports_streaming: None,
            supports_vision: None,
            supports_tools: None,
            supports_temperature: None,
            provider: None,
        }
    }

    /// This filter with the streaming constraint set to `value`.
    pub fn with_streaming(self, value: bool) -> (r: ModelFilter)
        ensures
            r == (ModelFilter { supports_streaming: Some(value), ..self }),
    {
        ModelFilter { supports_streaming: Some(value), ..self }
    }

    /// This filter with the vision constraint set to `value`.
    pub fn with_vision(self, value: bool) -> (r: ModelFilter)
        ensures
            r == (ModelFilter { supports_vision: Some(value), ..self }),
    {
        ModelFilter { supports_vision: Some(value), ..self }
    }

    /// This filter with the tools constraint set to `value`.
    pub fn with_tools(self, value: bool) -> (r: ModelFilter)
        ensures
            r == (ModelFilter { supports_tools: Some(value), ..self }),
    {
        ModelFilter { supports_tools: Some(value), ..self }
    }

    /// This filter with the temperature constraint set to `value`.
    pub fn with_temperature(self, value: bool) -> (r: ModelFilter)
        ensures
            r == (ModelFilter { supports_temperature: Some(value), ..self }),
    {
        ModelFilter { supports_temperature: Some(value), ..self }
    }

    /// This filter with the provider constraint set to `provider`.
    pub fn with_provider(self, provider: String) -> (r: ModelFilter)
        ensures
            r == (ModelFilter { provider: Some(provider), ..self }),
    {
        ModelFilter { provider: Some(provider), ..self }
    }

    /// Whether `model` satisfies every constraint this filter sets.
    pub fn matches(&self, model: &Model) -> (r: bool)
        ensures
            r == spec_matches(*self, *model),
    {
        if let Some(streaming) = self.supports_streaming {
            if model.capabilities.supports_streaming != streaming {
                return false;
            }
        }
        if let Some(vision) = self.supports_vision {
            if model.capabilities.supports_vision != vision {
                return false;
            }
        }
        if let Some(tools) = self.supports_tools {
            if model.capabilities.supports_tools != tools {
                return false;
            }
        }
        if let Some(temp) = self.supports_temperature {
            if model.capabilities.supports_temperature != temp {
                return false;
            }
        }
        if let Some(prov) = &self.provider {
            if !crate::strutil::str_eq(model.provider_name.as_str(), prov.as_str()) {
                return false;
            }
        }
        true
    }
}

impl Default for ModelFilter {
    /// The filter with no constraint set.
    fn default() -> (r: ModelFilter)
        ensures
            r == spec_empty_filter(),
    {
        ModelFilter::new()
    }
}

/// Filter conjunction: a model passes a filter that sets both the vision
/// and the tools constraint exactly when it passes the filter that sets
/// only the vision constraint and the filter that sets only the tools
/// constraint.
pub proof fn lemma_filter_conjunction(vision: bool, tools: bool, m: Model)
    ensures
        spec_matches(spec_empty_filter().with_vision_spec(vision).with_tools_spec(tools), m)
            == (spec_matches(spec_empty_filter().with_vision_spec(vision), m) && spec_matches(
            spec_empty_filter().with_tools_spec(tools),
            m,
        )),
{
}

impl ModelFilter {
    /// This filter with the vision constraint set, as a value.
    pub open spec fn with_vision_spec(self, value: bool) -> ModelFilter {
        ModelFilter { supports_vision: Some(value), ..self }
    }

    /// This filter with the tools constraint set, as a value.
    pub open spec fn with_tools_spec(self, value: bool) -> ModelFilter {
        ModelFilter { supports_tools: Some(value), ..self }
    }
}

} // verus!
