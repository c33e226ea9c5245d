//! Unit prices and token accounting.
//!
//! Prices are fixed-point decimals so that every conversion and total is
//! exact. A per-token price is measured in femtodollars (10^-15 of a
//! dollar); the upstream catalog quotes prices per million tokens, which the
//! library holds in nanodollars (10^-9 of a dollar). One nanodollar per
//! million tokens is exactly one femtodollar per token, so the unit
//! conversion — division by 1,000,000 — never loses a digit.

use vstd::prelude::*;

verus! {

/// Unit prices for one model.
///
/// `prompt` and `completion` are prices per single token, `request` is the
/// price per request, all in femtodollars (10^-15 of a dollar).
#[derive(Debug, Clone, Copy, PartialEq, Eq, Structural)]
pub struct Cost {
    pub prompt: u64,
    pub completion: u64,
    pub request: u64,
}

impl Cost {
    pub fn new(prompt: u64, completion: u64, request: u64) -> (r: Cost)
        ensures
            r == (Cost { prompt, completion, request }),
    {
        Cost { prompt, completion, request }
    }

    /// Converts upstream per-million-token prices (in nanodollars per
    /// million tokens) to canonical per-token prices. Dividing a price in
    /// nanodollars per million tokens by 1,000,000 yields the same number in
    /// femtodollars per token, so the conversion is exact.
    pub fn from_modelsdev(input_per_million: u64, output_per_million: u64) -> (r: Cost)
        ensures
            r.prompt == input_per_million,
            r.completion == output_per_million,
            r.request == 0,
    {
        Cost { prompt: input_per_million, completion: output_per_million, request: 0 }
    }

    /// The exact total price of a call, in femtodollars.
    pub fn calculate(&self, prompt_tokens: u32, completion_tokens: u32) -> (r: u128)
        ensures
            r == self.prompt * prompt_tokens + self.completion * completion_tokens
                + self.request,
    {
        proof {
            assert(self.prompt * prompt_tokens <= u64::MAX * u32::MAX) by (nonlinear_arith)
                requires
                    self.prompt <= u64::MAX,
                    prompt_tokens <= u32::MAX,
            ;
            assert(self.completion * completion_tokens <= u64::MAX * u32::MAX)
                by (nonlinear_arith)
                requires
                    self.completion <= u64::MAX,
                    completion_tokens <= u32::MAX,
            ;
        }
        self.prompt as u128 * prompt_tokens as u128
            + self.completion as u128 * completion_tokens as u128 + self.request as u128
    }
}

impl Default for Cost {
    /// A zero price on every axis.
    fn default() -> (r: Cost)
        ensures
            r == (Cost { prompt: 0u64, completion: 0u64, request: 0u64 }),
    {
        Cost { prompt: 0, completion: 0, request: 0 }
    }
}

/// Token counts reported for one call.
#[derive(Debug, Clone, Copy, PartialEq, Eq, Structural)]
pub struct TokenUsage {
    pub prompt_tokens: u32,
    pub completion_tokens: u32,
    pub total_tokens: u32,
}

impl TokenUsage {
    pub fn new(prompt_tokens: u32, completion_tokens: u32) -> (r: TokenUsage)
        requires
            prompt_tokens + completion_tokens <= u32::MAX,
        ensures
            r.prompt_tokens == prompt_tokens,
            r.completion_tokens == completion_tokens,
            r.total_tokens == prompt_tokens + completion_tokens,
    {
        TokenUsage {
            prompt_tokens,
            completion_tokens,
            total_tokens: prompt_tokens + completion_tokens,
        }
    }
}

} // verus!
