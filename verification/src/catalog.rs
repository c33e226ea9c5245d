//! The raw upstream catalog, as plain values handed to ingestion.
//!
//! Prices are fixed-point: a raw price is measured in nanodollars
//! (10^-9 of a dollar) per million tokens, so that the conversion to the
//! canonical per-token unit is exact (see the cost module).

use vstd::prelude::*;

verus! {

/// Raw prices of one model, per million tokens, in nanodollars.
#[derive(Debug, Clone, Copy, PartialEq, Eq, Structural)]
pub struct ModelCost {
    pub input: u64,
    pub output: u64,
    pub cache_read: Option<u64>,
    pub cache_write: Option<u64>,
}

/// Raw token limits of one model.
#[derive(Debug, Clone, Copy, PartialEq, Eq, Structural)]
pub struct ModelLimit {
    pub context: u32,
    pub output: u32,
}

/// Raw input and output modality names of one model.
#[derive(Debug)]
pub struct Modalities {
    pub input: Vec<String>,
    pub output: Vec<String>,
}

/// One raw upstream model record.
#[derive(Debug)]
pub struct ModelInfo {
    pub id: String,
    pub name: String,
    pub attachment: bool,
    pub reasoning: bool,
    pub temperature: bool,
    pub tool_call: bool,
    pub knowledge: Option<String>,
    pub release_date: Option<String>,
    pub last_updated: Option<String>,
    pub modalities: Modalities,
    pub open_weights: bool,
    pub cost: Option<ModelCost>,
    pub limit: ModelLimit,
}

/// One raw upstream provider record, with its models as an ordered list
/// of `(model id, record)` pairs.
#[derive(Debug)]
pub struct Provider {
    pub id: String,
    pub name: String,
    pub env: Vec<String>,
    pub npm: Option<String>,
    pub api: Option<String>,
    pub doc: Option<String>,
    pub models: Vec<(String, ModelInfo)>,
}

/// The whole raw upstream catalog: providers as an ordered list of
/// `(provider id, record)` pairs.
#[derive(Debug)]
pub struct ModelsDevResponse {
    pub providers: Vec<(String, Provider)>,
}

} // verus!
