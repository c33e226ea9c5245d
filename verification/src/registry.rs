//! The model registry: normalization of raw records and filterable
//! lookups over the canonical store.

use vstd::prelude::*;
use vstd::seq_lib::group_seq_properties;

use crate::catalog::{ModelInfo, ModelsDevResponse, Provider};
use crate::cost::Cost;
use crate::defaults::{spec_for_provider, ProviderDefaults};
use crate::error::AdapterError;
use crate::filter::{spec_matches, ModelFilter};
use crate::model::{Model, ModelCapabilities, ModelProperties};
use crate::strutil::{spec_vec_contains_str, str_eq, vec_contains_str};
use crate::vendor::{spec_extract_vendor, spec_is_chinese, spec_is_gdpr, VendorMappings,
    VendorMappingsConfig};

verus! {

/// No two models in the sequence share a composite key.
pub open spec fn spec_paths_unique(ms: Seq<Model>) -> bool {
    forall|i: int, j: int|
        0 <= i < j < ms.len() ==> ms[i].path_view() != ms[j].path_view()
}

/// The sequence with `m` keyed in: if some model already bears `m`'s
/// composite key, `m` replaces it in place; otherwise `m` is appended.
pub open spec fn spec_upsert(ms: Seq<Model>, m: Model) -> Seq<Model> {
    if exists|i: int| 0 <= i < ms.len() && ms[i].path_view() == m.path_view() {
        let i = choose|i: int| 0 <= i < ms.len() && ms[i].path_view() == m.path_view();
        ms.update(i, m)
    } else {
        ms.push(m)
    }
}

/// The sequence keyed in from left to right: on a key collision the later
/// model wins, in the place of the earlier one.
pub open spec fn spec_dedup(ms: Seq<Model>) -> Seq<Model>
    decreases ms.len(),
{
    if ms.len() == 0 {
        Seq::empty()
    } else {
        spec_upsert(spec_dedup(ms.drop_last()), ms.last())
    }
}

/// On a list whose keys are already unique, deduplication is the
/// identity: `replace_all` then stores exactly the given models.
pub proof fn lemma_dedup_of_unique(ms: Seq<Model>)
    requires
        spec_paths_unique(ms),
    ensures
        spec_dedup(ms) == ms,
    decreases ms.len(),
{
    if ms.len() > 0 {
        assert(spec_paths_unique(ms.drop_last()));
        lemma_dedup_of_unique(ms.drop_last());
        assert(forall|i: int|
            0 <= i < ms.drop_last().len() ==> ms.drop_last()[i].path_view()
                != ms.last().path_view());
        assert(ms.drop_last().push(ms.last()) =~= ms);
    }
}

/// Whether an optional filter accepts a model; no filter accepts all.
pub open spec fn spec_opt_matches(f: Option<ModelFilter>, m: Model) -> bool {
    match f {
        None => true,
        Some(f) => spec_matches(f, m),
    }
}

/// `m` is the canonical model that normalizing the raw record
/// `(provider_id, model_id, info)` yields under the given configuration
/// tables.
pub open spec fn spec_normalized(
    vendor_config: VendorMappingsConfig,
    defaults_table: Seq<(String, ProviderDefaults)>,
    provider_id: Seq<char>,
    model_id: Seq<char>,
    info: ModelInfo,
    m: Model,
) -> bool {
    &&& m.name@ == model_id
    &&& m.provider_name@ == provider_id
    &&& m.vendor_name@ == spec_extract_vendor(
        vendor_config.patterns@,
        vendor_config.provider_defaults@,
        model_id,
        provider_id,
    )
    &&& m.cost == (match info.cost {
        Some(c) => Cost { prompt: c.input, completion: c.output, request: 0 },
        None => Cost { prompt: 0, completion: 0, request: 0 },
    })
    &&& m.context_length == info.limit.context
    &&& m.completion_length == Some(info.limit.output)
    &&& m.capabilities == (ModelCapabilities {
        supports_vision: spec_vec_contains_str(info.modalities.input@, "image"@),
        supports_tools: info.tool_call,
        supports_temperature: info.temperature,
        ..spec_for_provider(defaults_table, provider_id).capabilities
    })
    &&& m.properties == (ModelProperties {
        open_source: info.open_weights,
        chinese: spec_is_chinese(model_id, provider_id),
        gdpr_compliant: spec_is_gdpr(provider_id),
        is_nsfw: false,
    })
    &&& crate::conversation::opt_str_view(m.knowledge_cutoff) == crate::conversation::opt_str_view(
        info.knowledge,
    )
    &&& crate::conversation::opt_str_view(m.release_date) == crate::conversation::opt_str_view(
        info.release_date,
    )
    &&& crate::conversation::opt_str_view(m.last_updated) == crate::conversation::opt_str_view(
        info.last_updated,
    )
}

/// The raw records of one provider, each tagged with the provider id.
pub open spec fn spec_provider_records(p: (String, Provider)) -> Seq<(String, String, ModelInfo)> {
    p.1.models@.map_values(|e: (String, ModelInfo)| (p.0, e.0, e.1))
}

/// All raw records of the catalog, providers in order, models in order
/// within each provider.
pub open spec fn spec_records(providers: Seq<(String, Provider)>) -> Seq<
    (String, String, ModelInfo),
>
    decreases providers.len(),
{
    if providers.len() == 0 {
        Seq::empty()
    } else {
        spec_records(providers.drop_last()) + spec_provider_records(providers.last())
    }
}

/// The registry and normalization pipeline: an injectable store of
/// canonical models together with the configuration tables that
/// normalization reads.
pub struct AdapterFactory {
    /// The canonical store; its composite keys stay unique.
    pub models: Vec<Model>,
    /// The ordered vendor-mapping rules that resolution uses.
    pub vendor_config: VendorMappingsConfig,
    /// The per-provider capability baselines.
    pub provider_defaults: Vec<(String, ProviderDefaults)>,
}

impl View for AdapterFactory {
    type V = Seq<Model>;

    /// The stored models, as a sequence.
    closed spec fn view(&self) -> Seq<Model> {
        self.models@
    }
}

impl AdapterFactory {
    /// The store keeps composite keys unique.
    pub open spec fn wf(&self) -> bool {
        spec_paths_unique(self@)
    }

    /// An empty registry with empty configuration tables: every vendor
    /// falls back to its provider and every capability baseline is the
    /// global default.
    pub fn new() -> (r: AdapterFactory)
        ensures
            r@ == Seq::<Model>::empty(),
            r.wf(),
            r.vendor_config.patterns@ == Seq::<(String, String)>::empty(),
            r.vendor_config.provider_defaults@ == Seq::<(String, String)>::empty(),
            r.provider_defaults@ == Seq::<(String, ProviderDefaults)>::empty(),
    {
        AdapterFactory {
            models: Vec::new(),
            vendor_config: VendorMappingsConfig {
                patterns: Vec::new(),
                provider_defaults: Vec::new(),
            },
            provider_defaults: Vec::new(),
        }
    }

    /// An empty registry over the given configuration tables.
    pub fn with_config(
        vendor_config: VendorMappingsConfig,
        provider_defaults: Vec<(String, ProviderDefaults)>,
    ) -> (r: AdapterFactory)
        ensures
            r@ == Seq::<Model>::empty(),
            r.wf(),
            r.vendor_config == vendor_config,
            r.provider_defaults == provider_defaults,
    {
        AdapterFactory { models: Vec::new(), vendor_config, provider_defaults }
    }

    /// Keys one model into the store: last write wins on its composite
    /// key.
    #[verifier::loop_isolation(false)]
    fn upsert(&mut self, m: Model)
        requires
            old(self).wf(),
        ensures
            final(self)@ == spec_upsert(old(self)@, m),
            final(self).wf(),
            final(self).vendor_config == old(self).vendor_config,
            final(self).provider_defaults == old(self).provider_defaults,
    {
        let key = m.get_path();
        let mut j: usize = 0;
        while j < self.models.len()
            invariant
                j <= self.models@.len(),
                self.models@ == old(self).models@,
                self.vendor_config == old(self).vendor_config,
                self.provider_defaults == old(self).provider_defaults,
                forall|k: int| 0 <= k < j ==> self.models@[k].path_view() != m.path_view(),
            decreases self.models@.len() - j,
        {
            let other = self.models[j].get_path();
            if str_eq(other.as_str(), key.as_str()) {
                self.models[j] = m;
                proof {
                    let ghost oldms = old(self)@;
                    assert(exists|i: int|
                        0 <= i < oldms.len() && oldms[i].path_view() == m.path_view());
                    let ghost i = choose|i: int|
                        0 <= i < oldms.len() && oldms[i].path_view() == m.path_view();
                    assert(i == j);
                    assert(self@ =~= spec_upsert(oldms, m));
                    assert forall|a: int, b: int|
                        0 <= a < b < self@.len() implies self@[a].path_view()
                        != self@[b].path_view() by {
                        assert(old(self)@[a].path_view() != old(self)@[b].path_view());
                    }
                }
                return;
            }
            j += 1;
        }
        self.models.push(m);
        proof {
            assert(!(exists|i: int|
                0 <= i < old(self)@.len() && old(self)@[i].path_view() == m.path_view()));
            assert(self@ =~= spec_upsert(old(self)@, m));
        }
    }

    /// Replaces the whole store with the given models, keyed in from left
    /// to right: on a key collision the later model wins. Never fails.
    #[verifier::loop_isolation(false)]
    pub fn replace_all(&mut self, models: Vec<Model>)
        ensures
            final(self)@ == spec_dedup(models@),
            final(self).wf(),
            final(self).vendor_config == old(self).vendor_config,
            final(self).provider_defaults == old(self).provider_defaults,
    {
        self.models.clear();
        let mut i: usize = 0;
        while i < models.len()
            invariant
                i <= models@.len(),
                self@ == spec_dedup(models@.take(i as int)),
                self.wf(),
                self.vendor_config == old(self).vendor_config,
                self.provider_defaults == old(self).provider_defaults,
            decreases models@.len() - i,
        {
            self.upsert(models[i].clone());
            proof {
                assert(models@.take(i + 1).drop_last() =~= models@.take(i as int));
                assert(models@.take(i + 1).last() == models@[i as int]);
            }
            i += 1;
        }
        proof {
            assert(models@.take(models@.len() as int) =~= models@);
        }
    }

    /// The model stored under the composite key `model_path`, or
    /// `ModelNotFound` carrying that key if no model bears it.
    #[verifier::loop_isolation(false)]
    pub fn get_model(&self, model_path: &str) -> (r: Result<Model, AdapterError>)
        ensures
            (exists|i: int| 0 <= i < self@.len() && self@[i].path_view() == model_path@) ==> (
            r matches Ok(m) && exists|i: int|
                0 <= i < self@.len() && self@[i].path_view() == model_path@ && m == self@[i]),
            !(exists|i: int| 0 <= i < self@.len() && self@[i].path_view() == model_path@) ==> (
            r matches Err(e) && e matches AdapterError::ModelNotFound(p) && p@ == model_path@),
    {
        let mut i: usize = 0;
        while i < self.models.len()
            invariant
                i <= self.models@.len(),
                forall|k: int| 0 <= k < i ==> self.models@[k].path_view() != model_path@,
            decreases self.models@.len() - i,
        {
            let key = self.models[i].get_path();
            if str_eq(key.as_str(), model_path) {
                return Ok(self.models[i].clone());
            }
            i += 1;
        }
        Err(AdapterError::ModelNotFound(model_path.to_owned()))
    }

    /// Exactly the stored models that the filter accepts, in store order;
    /// with no filter, every stored model.
    #[verifier::loop_isolation(false)]
    pub fn get_supported_models(&self, filter: Option<ModelFilter>) -> (r: Vec<Model>)
        ensures
            r@ == self@.filter(|m: Model| spec_opt_matches(filter, m)),
    {
        broadcast use group_seq_properties;

        let ghost pred = |m: Model| spec_opt_matches(filter, m);
        let mut out: Vec<Model> = Vec::new();
        let mut i: usize = 0;
        proof {
            assert(self@.take(0) =~= Seq::<Model>::empty());
            assert(self@.take(0).filter(pred) =~= Seq::<Model>::empty());
        }
        while i < self.models.len()
            invariant
                i <= self.models@.len(),
                self@ == self.models@,
                out@ == self@.take(i as int).filter(pred),
                pred == (|m: Model| spec_opt_matches(filter, m)),
            decreases self.models@.len() - i,
        {
            let keep = match &filter {
                None => true,
                Some(f) => f.matches(&self.models[i]),
            };
            if keep {
                out.push(self.models[i].clone());
            }
            proof {
                assert(self@.take(i + 1) =~= self@.take(i as int).push(self@[i as int]));
                Seq::lemma_filter_push(self@.take(i as int), self@[i as int], pred);
            }
            i += 1;
        }
        proof {
            assert(self@.take(self@.len() as int) =~= self@);
        }
        out
    }
}

impl AdapterFactory {
    /// Normalizes one raw upstream record into a canonical model:
    /// resolves the vendor, applies the provider's capability baseline
    /// with the record's own vision, tools and temperature signals, and
    /// converts prices to the canonical per-token unit exactly. With a
    /// fully typed record no required field can be absent, so this always
    /// succeeds.
    pub fn convert_modelsdev_model(
        &self,
        provider_id: &str,
        model_id: &str,
        model_info: &ModelInfo,
    ) -> (r: Result<Model, AdapterError>)
        ensures
            r matches Ok(m) && spec_normalized(
                self.vendor_config,
                self.provider_defaults@,
                provider_id@,
                model_id@,
                *model_info,
                m,
            ),
    {
        let vendor_name = VendorMappings::extract_vendor(&self.vendor_config, model_id, provider_id);
        let defaults = ProviderDefaults::for_provider(&self.provider_defaults, provider_id);
        let mut capabilities = defaults.capabilities;
        capabilities.supports_vision = vec_contains_str(&model_info.modalities.input, "image");
        capabilities.supports_tools = model_info.tool_call;
        capabilities.supports_temperature = model_info.temperature;
        let cost = match &model_info.cost {
            Some(ci) => Cost::from_modelsdev(ci.input, ci.output),
            None => Cost::default(),
        };
        Ok(
            Model {
                name: model_id.to_owned(),
                vendor_name,
                provider_name: provider_id.to_owned(),
                cost,
                context_length: model_info.limit.context,
                completion_length: Some(model_info.limit.output),
                capabilities,
                properties: ModelProperties {
                    open_source: model_info.open_weights,
                    chinese: VendorMappings::is_chinese_model(model_id, provider_id),
                    gdpr_compliant: VendorMappings::is_gdpr_compliant(provider_id),
                    is_nsfw: false,
                },
                knowledge_cutoff: crate::model::clone_opt_string(&model_info.knowledge),
                release_date: crate::model::clone_opt_string(&model_info.release_date),
                last_updated: crate::model::clone_opt_string(&model_info.last_updated),
            },
        )
    }

    /// Ingests a whole raw catalog: every record is normalized and the
    /// store is replaced wholesale with the result, later records winning
    /// on a key collision. One bad record never aborts the refresh, and
    /// with typed records none can be bad, so this always succeeds.
    #[verifier::loop_isolation(false)]
    pub fn populate_from_modelsdev(&mut self, response: ModelsDevResponse) -> (r: Result<
        (),
        AdapterError,
    >)
        ensures
            r is Ok,
            final(self).wf(),
            final(self).vendor_config == old(self).vendor_config,
            final(self).provider_defaults == old(self).provider_defaults,
            exists|ms: Seq<Model>|
                {
                    let recs = spec_records(response.providers@);
                    &&& ms.len() == recs.len()
                    &&& (forall|k: int|
                        0 <= k < recs.len() ==> spec_normalized(
                            old(self).vendor_config,
                            old(self).provider_defaults@,
                            recs[k].0@,
                            recs[k].1@,
                            recs[k].2,
                            #[trigger] ms[k],
                        ))
                    &&& final(self)@ == #[trigger] spec_dedup(ms)
                },
    {
        let ghost recs = spec_records(response.providers@);
        let mut list: Vec<Model> = Vec::new();
        let mut pi: usize = 0;
        proof {
            assert(response.providers@.take(0) =~= Seq::<(String, Provider)>::empty());
        }
        while pi < response.providers.len()
            invariant
                pi <= response.providers@.len(),
                self == old(self),
                list@.len() == spec_records(response.providers@.take(pi as int)).len(),
                forall|k: int|
                    0 <= k < list@.len() ==> spec_normalized(
                        self.vendor_config,
                        self.provider_defaults@,
                        spec_records(response.providers@.take(pi as int))[k].0@,
                        spec_records(response.providers@.take(pi as int))[k].1@,
                        spec_records(response.providers@.take(pi as int))[k].2,
                        #[trigger] list@[k],
                    ),
            decreases response.providers@.len() - pi,
        {
            let ghost done = spec_records(response.providers@.take(pi as int));
            let ghost prec = spec_provider_records(response.providers@[pi as int]);
            let provider_id_string = response.providers[pi].0.clone();
            let provider_id = provider_id_string.as_str();
            let mut mi: usize = 0;
            proof {
                assert(prec.take(0) =~= Seq::<(String, String, ModelInfo)>::empty());
                assert((done + prec.take(0)) =~= done);
            }
            while mi < response.providers[pi].1.models.len()
                invariant
                    pi < response.providers@.len(),
                    mi <= response.providers@[pi as int].1.models@.len(),
                    self == old(self),
                    provider_id_string@ == response.providers@[pi as int].0@,
                    provider_id@ == provider_id_string@,
                    done == spec_records(response.providers@.take(pi as int)),
                    prec == spec_provider_records(response.providers@[pi as int]),
                    list@.len() == (done + prec.take(mi as int)).len(),
                    forall|k: int|
                        0 <= k < list@.len() ==> spec_normalized(
                            self.vendor_config,
                            self.provider_defaults@,
                            (done + prec.take(mi as int))[k].0@,
                            (done + prec.take(mi as int))[k].1@,
                            (done + prec.take(mi as int))[k].2,
                            #[trigger] list@[k],
                        ),
                decreases response.providers@[pi as int].1.models@.len() - mi,
            {
                let entry_id = response.providers[pi].1.models[mi].0.clone();
                match self.convert_modelsdev_model(
                    provider_id,
                    entry_id.as_str(),
                    &response.providers[pi].1.models[mi].1,
                ) {
                    Ok(m) => {
                        list.push(m);
                        proof {
                            assert(prec[mi as int] == (
                                response.providers@[pi as int].0,
                                response.providers@[pi as int].1.models@[mi as int].0,
                                response.providers@[pi as int].1.models@[mi as int].1,
                            ));
                            assert((done + prec.take(mi + 1)) =~= (done + prec.take(
                                mi as int,
                            )).push(prec[mi as int]));
                        }
                    },
                    Err(_) => {
                        proof {
                            assert(false);
                        }
                    },
                }
                mi += 1;
            }
            proof {
                assert(prec.take(prec.len() as int) =~= prec);
                assert(response.providers@.take(pi + 1).drop_last() =~= response.providers@.take(
                    pi as int,
                ));
                assert(response.providers@.take(pi + 1).last()
                    == response.providers@[pi as int]);
                assert(spec_records(response.providers@.take(pi + 1)) == done + prec);
            }
            pi += 1;
        }
        proof {
            assert(response.providers@.take(response.providers@.len() as int)
                =~= response.providers@);
        }
        let ghost ms = list@;
        self.replace_all(list);
        proof {
            assert(ms.len() == recs.len());
            assert(final(self)@ == spec_dedup(ms));
        }
        Ok(())
    }
}

/// Strictly increasing lexicographic order (which also rules out
/// duplicates).
pub open spec fn spec_sorted_unique(rs: Seq<String>) -> bool {
    forall|i: int, j: int|
        0 <= i < j < rs.len() ==> crate::strutil::spec_lex_lt(rs[i]@, rs[j]@)
}

/// Some string in the list reads exactly `s`.
pub open spec fn spec_present(rs: Seq<String>, s: Seq<char>) -> bool {
    exists|i: int| 0 <= i < rs.len() && rs[i]@ == s
}

/// Inserts a string into a strictly sorted list, keeping it strictly
/// sorted; a string already present is not inserted again.
#[verifier::loop_isolation(false)]
fn insert_sorted(rs: &mut Vec<String>, s: String)
    requires
        spec_sorted_unique(old(rs)@),
    ensures
        spec_sorted_unique(final(rs)@),
        forall|x: Seq<char>|
            #[trigger] spec_present(final(rs)@, x) <==> (spec_present(old(rs)@, x) || x == s@),
{
    let mut idx: usize = 0;
    while idx < rs.len() && crate::strutil::lex_lt(rs[idx].as_str(), s.as_str())
        invariant
            idx <= rs@.len(),
            rs@ == old(rs)@,
            forall|k: int| 0 <= k < idx ==> crate::strutil::spec_lex_lt(rs@[k]@, s@),
        decreases rs@.len() - idx,
    {
        idx += 1;
    }
    if idx < rs.len() && str_eq(rs[idx].as_str(), s.as_str()) {
        proof {
            assert(spec_present(rs@, s@));
            assert(forall|x: Seq<char>|
                spec_present(rs@, x) <==> (spec_present(old(rs)@, x) || x == s@));
        }
        return;
    }
    proof {
        if idx < rs@.len() {
            crate::strutil::lemma_lex_lt_trichotomy(rs@[idx as int]@, s@);
            assert(crate::strutil::spec_lex_lt(s@, rs@[idx as int]@));
        }
    }
    let ghost rs0 = rs@;
    rs.insert(idx, s);
    proof {
        assert forall|i: int, j: int| 0 <= i < j < rs@.len() implies crate::strutil::spec_lex_lt(
            rs@[i]@,
            rs@[j]@,
        ) by {
            if j < idx {
            } else if i < idx && j == idx {
            } else if i == idx && j > idx {
                if !crate::strutil::spec_lex_lt(rs0[j - 1]@, s@) {
                }
                if idx < rs0.len() {
                    if j - 1 > idx {
                        crate::strutil::lemma_lex_lt_trans(s@, rs0[idx as int]@, rs0[j - 1]@);
                    }
                }
            } else if i < idx && j > idx {
            } else if i > idx && j > idx {
            }
        }
        assert forall|x: Seq<char>| #[trigger]
            spec_present(rs@, x) <==> (spec_present(rs0, x) || x == s@) by {
            if spec_present(rs@, x) {
                let i = choose|i: int| 0 <= i < rs@.len() && rs@[i]@ == x;
                if i < idx {
                    assert(rs0[i]@ == x);
                } else if i == idx {
                } else {
                    assert(rs0[i - 1]@ == x);
                }
            }
            if spec_present(rs0, x) {
                let i = choose|i: int| 0 <= i < rs0.len() && rs0[i]@ == x;
                if i < idx {
                    assert(rs@[i]@ == x);
                } else {
                    assert(rs@[i + 1]@ == x);
                }
            }
            if x == s@ {
                assert(rs@[idx as int]@ == x);
            }
        }
    }
}

impl AdapterFactory {
    /// The distinct provider names across all stored models, in strictly
    /// increasing lexicographic order.
    #[verifier::loop_isolation(false)]
    pub fn list_providers(&self) -> (r: Vec<String>)
        ensures
            spec_sorted_unique(r@),
            forall|x: Seq<char>|
                #[trigger] spec_present(r@, x) <==> exists|k: int|
                    0 <= k < self@.len() && self@[k].provider_name@ == x,
    {
        let mut out: Vec<String> = Vec::new();
        let mut i: usize = 0;
        while i < self.models.len()
            invariant
                i <= self.models@.len(),
                spec_sorted_unique(out@),
                forall|x: Seq<char>|
                    #[trigger] spec_present(out@, x) <==> exists|k: int|
                        0 <= k < i && self@[k].provider_name@ == x,
            decreases self.models@.len() - i,
        {
            insert_sorted(&mut out, self.models[i].provider_name.clone());
            i += 1;
        }
        out
    }
}

/// A model list filtered by one predicate holds a model exactly when the
/// list holds it and the predicate accepts it.
proof fn lemma_filter_contains_iff(ms: Seq<Model>, pred: spec_fn(Model) -> bool, x: Model)
    ensures
        ms.filter(pred).contains(x) <==> (ms.contains(x) && pred(x)),
{
    if ms.filter(pred).contains(x) {
        ms.filter_lemma(pred);
        let i = choose|i: int| 0 <= i < ms.filter(pred).len() && ms.filter(pred)[i] == x;
        assert(pred(ms.filter(pred)[i]));
        Seq::lemma_filter_contains_rev(ms, pred, x);
    }
    if ms.contains(x) && pred(x) {
        ms.filter_lemma(pred);
        let i = choose|i: int| 0 <= i < ms.len() && ms[i] == x;
        assert(ms.filter(pred).contains(ms[i]));
    }
}

/// Filtering with no filter keeps every model.
proof fn lemma_filter_none_identity(ms: Seq<Model>)
    ensures
        ms.filter(|m: Model| spec_opt_matches(None::<ModelFilter>, m)) == ms,
    decreases ms.len(),
{
    let pred = |m: Model| spec_opt_matches(None::<ModelFilter>, m);
    if ms.len() == 0 {
        ms.filter_lemma(pred);
        assert(ms.filter(pred) =~= ms);
    } else {
        lemma_filter_none_identity(ms.drop_last());
        Seq::lemma_filter_push(ms.drop_last(), ms.last(), pred);
        assert(ms.drop_last().push(ms.last()) =~= ms);
    }
}

/// Replacing the whole store and then listing with no filter yields
/// exactly the models that were passed in, keyed in left to right with
/// the later model winning on a collision; when the passed keys are
/// already unique, that is exactly the passed list, with its length.
pub proof fn lemma_replace_all_then_list(models: Seq<Model>, stored: Seq<Model>, listed: Seq<Model>)
    requires
        stored == spec_dedup(models),
        listed == stored.filter(|m: Model| spec_opt_matches(None::<ModelFilter>, m)),
    ensures
        listed == spec_dedup(models),
        spec_paths_unique(models) ==> (listed == models && listed.len() == models.len()),
{
    lemma_filter_none_identity(stored);
    if spec_paths_unique(models) {
        lemma_dedup_of_unique(models);
    }
}

/// Filter conjunction at the listing level: the models listed under a
/// filter that sets both the vision and the tools constraint are, as a
/// set, the intersection of the models listed under each constraint
/// alone.
pub proof fn lemma_list_conjunction(ms: Seq<Model>, vision: bool, tools: bool)
    ensures
        ({
            let fboth = crate::filter::spec_empty_filter().with_vision_spec(
                vision,
            ).with_tools_spec(tools);
            let fv = crate::filter::spec_empty_filter().with_vision_spec(vision);
            let ft = crate::filter::spec_empty_filter().with_tools_spec(tools);
            ms.filter(|m: Model| spec_matches(fboth, m)).to_set() == ms.filter(
                |m: Model| spec_matches(fv, m),
            ).to_set().intersect(ms.filter(|m: Model| spec_matches(ft, m)).to_set())
        }),
{
    let fboth = crate::filter::spec_empty_filter().with_vision_spec(vision).with_tools_spec(tools);
    let fv = crate::filter::spec_empty_filter().with_vision_spec(vision);
    let ft = crate::filter::spec_empty_filter().with_tools_spec(tools);
    let pboth = |m: Model| spec_matches(fboth, m);
    let pv = |m: Model| spec_matches(fv, m);
    let pt = |m: Model| spec_matches(ft, m);
    assert forall|x: Model| #[trigger] ms.filter(pboth).to_set().contains(x) implies ms.filter(
        pv,
    ).to_set().intersect(ms.filter(pt).to_set()).contains(x) by {
        lemma_filter_contains_iff(ms, pboth, x);
        lemma_filter_contains_iff(ms, pv, x);
        lemma_filter_contains_iff(ms, pt, x);
    }
    assert forall|x: Model| #[trigger] ms.filter(pv).to_set().intersect(
        ms.filter(pt).to_set(),
    ).contains(x) implies ms.filter(pboth).to_set().contains(x) by {
        lemma_filter_contains_iff(ms, pboth, x);
        lemma_filter_contains_iff(ms, pv, x);
        lemma_filter_contains_iff(ms, pt, x);
    }
    assert(ms.filter(pboth).to_set() =~= ms.filter(pv).to_set().intersect(
        ms.filter(pt).to_set(),
    ));
}

/// Cost scale invariance: for every raw record that quotes a cost, the
/// normalized model's per-token prompt price equals the raw per-million
/// prompt price exactly. The per-million price is in nanodollars and the
/// per-token price in femtodollars, so the equal number is the raw price
/// divided by one million, carried by the unit change and never rounded.
pub proof fn lemma_normalize_cost_exact(
    vendor_config: VendorMappingsConfig,
    defaults_table: Seq<(String, ProviderDefaults)>,
    provider_id: Seq<char>,
    model_id: Seq<char>,
    info: ModelInfo,
    m: Model,
)
    requires
        spec_normalized(vendor_config, defaults_table, provider_id, model_id, info, m),
        info.cost is Some,
    ensures
        m.cost.prompt == info.cost->0.input,
        m.cost.completion == info.cost->0.output,
        m.cost.request == 0,
{
}

} // verus!
