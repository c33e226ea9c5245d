//! A client-side catalog and data-normalization layer for heterogeneous
//! model providers: it ingests a raw upstream catalog, normalizes
//! provider naming and capability flags into one canonical schema, and
//! serves filterable lookups; beside it stands the conversation-turn
//! data model with its tag-free, shape-inferred wire codec.

pub mod cache;
pub mod catalog;
pub mod codec;
pub mod conversation;
pub mod cost;
pub mod defaults;
pub mod env;
pub mod error;
pub mod filter;
pub mod images;
pub mod model;
pub mod normalization;
pub mod registry;
pub mod response;
pub mod strutil;
pub mod vendor;
pub mod wire;

pub use cache::ClientCache;
pub use catalog::{Modalities, ModelCost, ModelInfo, ModelLimit, ModelsDevResponse, Provider};
pub use codec::{decode_turn, encode_turn};
pub use conversation::{
    ContentEntry, ContentEntryData, ContentTurn, Conversation, ConversationRole, FunctionCall,
    ImageUrl, ToolCall, Turn, TurnType,
};
pub use cost::{Cost, TokenUsage};
pub use defaults::ProviderDefaults;
pub use env::EnvConfig;
pub use error::AdapterError;
pub use filter::ModelFilter;
pub use images::{encode_image_to_base64, process_image_url_anthropic};
pub use model::{Model, ModelCapabilities, ModelProperties};
pub use normalization::delete_none_values;
pub use registry::AdapterFactory;
pub use response::{
    AdapterChatCompletion, AdapterChatCompletionChunk, Choice, ChunkChoice, Delta, Message,
    ResponseFormat,
};
pub use vendor::{VendorMappings, VendorMappingsConfig};
pub use wire::WireValue;
