//! Per-size-class memory budgets for the buffers of an inference context.
use vstd::prelude::*;
use crate::hparams::{LlamaHyperParams, ModelSize};

verus! {

/// One mebibyte.
pub const MIB: u64 = 1024 * 1024;

/// The buffers whose size is budgeted ahead of loading the weights.
#[derive(Debug, Clone, Copy, PartialEq, Eq, Structural)]
pub enum BufferKind {
    /// The first scratch arena.
    Scratch0,
    /// The second scratch arena.
    Scratch1,
    /// The key/value cache.
    KvSelf,
    /// The evaluation workspace.
    Eval,
}

/// The budget of each buffer for a model of one size class, in bytes.
#[derive(Debug, Clone, Copy, PartialEq, Eq, Structural)]
pub struct MemoryBudget {
    pub scratch0: u64,
    pub scratch1: u64,
    pub kv_self: u64,
    pub eval: u64,
}

/// The calibrated budget in mebibytes of a buffer for a known size class.
pub open spec fn mem_req_mib(size: ModelSize, buf: BufferKind) -> int {
    match buf {
        BufferKind::Scratch0 | BufferKind::Scratch1 => match size {
            ModelSize::Model65B => 1024,
            _ => 512,
        },
        BufferKind::KvSelf => match size {
            ModelSize::Model7B => 1026,
            ModelSize::Model13B => 1608,
            ModelSize::Model30B => 3124,
            _ => 5120,
        },
        BufferKind::Eval => match size {
            ModelSize::Model7B => 768,
            ModelSize::Model13B => 1024,
            ModelSize::Model30B => 1280,
            _ => 1536,
        },
    }
}

/// The calibrated budget in bytes of a buffer for a known size class.
pub open spec fn mem_req(size: ModelSize, buf: BufferKind) -> int {
    mem_req_mib(size, buf) * MIB
}

/// The budget in bytes of a buffer for a model of the given size class, or
/// `None` for the unknown class, which has no budget.
pub fn estimate(size: ModelSize, buf: BufferKind) -> (r: Option<u64>)
    ensures
        size == ModelSize::Unknown ==> r is None,
        size != ModelSize::Unknown ==> r is Some && r.unwrap() == mem_req(size, buf),
{
    let mib: u64 = match size {
        ModelSize::Unknown => {
            return None;
        },
        ModelSize::Model7B => match buf {
            BufferKind::Scratch0 => 512,
            BufferKind::Scratch1 => 512,
            BufferKind::KvSelf => 1026,
            BufferKind::Eval => 768,
        },
        ModelSize::Model13B => match buf {
            BufferKind::Scratch0 => 512,
            BufferKind::Scratch1 => 512,
            BufferKind::KvSelf => 1608,
            BufferKind::Eval => 1024,
        },
        ModelSize::Model30B => match buf {
            BufferKind::Scratch0 => 512,
            BufferKind::Scratch1 => 512,
            BufferKind::KvSelf => 3124,
            BufferKind::Eval => 1280,
        },
        ModelSize::Model65B => match buf {
            BufferKind::Scratch0 => 1024,
            BufferKind::Scratch1 => 1024,
            BufferKind::KvSelf => 5120,
            BufferKind::Eval => 1536,
        },
    };
    Some(mib * MIB)
}

/// Every known size class has a positive budget for every buffer, and the
/// largest class needs at least as much as any other in every buffer.
pub proof fn lemma_budgets_positive_and_largest(size: ModelSize, buf: BufferKind)
    requires
        size != ModelSize::Unknown,
    ensures
        mem_req(size, buf) > 0,
        mem_req(ModelSize::Model65B, buf) >= mem_req(size, buf),
{
}

/// Budgets never shrink from one tier to the next, in every buffer.
pub proof fn lemma_budgets_monotone(buf: BufferKind)
    ensures
        mem_req(ModelSize::Model7B, buf) <= mem_req(ModelSize::Model13B, buf),
        mem_req(ModelSize::Model13B, buf) <= mem_req(ModelSize::Model30B, buf),
        mem_req(ModelSize::Model30B, buf) <= mem_req(ModelSize::Model65B, buf),
{
}

/// The budgets of all four buffers for a size class, or `None` for the
/// unknown class.
pub fn budget_for(size: ModelSize) -> (r: Option<MemoryBudget>)
    ensures
        r == budget_of(size),
{
    let scratch0 = estimate(size, BufferKind::Scratch0)?;
    let scratch1 = estimate(size, BufferKind::Scratch1)?;
    let kv_self = estimate(size, BufferKind::KvSelf)?;
    let eval = estimate(size, BufferKind::Eval)?;
    Some(MemoryBudget { scratch0, scratch1, kv_self, eval })
}

/// The buffer budgets of a model: its size class picks the row of the table;
/// a model that fits no class gets no budget.
pub fn plan_memory(hp: &LlamaHyperParams) -> (r: Option<MemoryBudget>)
    ensures
        r == budget_of(LlamaHyperParams::size_of(hp.n_layer, hp.n_embd)),
{
    budget_for(hp.classify())
}

/// What `budget_for` returns for a size class.
pub open spec fn budget_of(size: ModelSize) -> Option<MemoryBudget> {
    if size == ModelSize::Unknown {
        None
    } else {
        Some(
            MemoryBudget {
                scratch0: mem_req(size, BufferKind::Scratch0) as u64,
                scratch1: mem_req(size, BufferKind::Scratch1) as u64,
                kv_self: mem_req(size, BufferKind::KvSelf) as u64,
                eval: mem_req(size, BufferKind::Eval) as u64,
            },
        )
    }
}

} // verus!
