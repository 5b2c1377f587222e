//! The plain settings of an inference session.
use vstd::prelude::*;

verus! {

/// How a session is built from a loaded model. The progress hook that a
/// caller may add lives beside this record, not in it.
#[derive(Debug, Clone, Copy, PartialEq, Eq, Structural)]
pub struct SessionParams {
    /// Target context length.
    pub n_ctx: i32,
    /// Number of layers offloaded to an accelerator.
    pub n_gpu_layers: i32,
    /// Random seed.
    pub seed: i32,
    /// Keep the key/value cache in 16-bit floats.
    pub f16_kv: bool,
    /// Compute output scores for every position, not only the last.
    pub logits_all: bool,
    /// Load the vocabulary and metadata only.
    pub vocab_only: bool,
    /// Map the weights into memory instead of reading them.
    pub use_mmap: bool,
    /// Lock the loaded weights in memory.
    pub use_mlock: bool,
    /// Return the final hidden state only.
    pub embedding: bool,
}

impl SessionParams {
    /// Whether weight tensors are allocated: never in vocabulary-only mode.
    pub fn allocates_weights(&self) -> (r: bool)
        ensures
            r == !self.vocab_only,
    {
        !self.vocab_only
    }

    /// Whether per-token logits are kept for the whole sequence: only when
    /// asked for, also in embedding mode.
    pub fn keeps_all_logits(&self) -> (r: bool)
        ensures
            r == self.logits_all,
    {
        self.logits_all
    }
}

} // verus!
