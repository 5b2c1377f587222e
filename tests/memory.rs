use ggml::hparams::{LlamaHyperParams, ModelSize};
use ggml::memory::{budget_for, estimate, plan_memory, BufferKind, MemoryBudget, MIB};

const KNOWN: [ModelSize; 4] =
    [ModelSize::Model7B, ModelSize::Model13B, ModelSize::Model30B, ModelSize::Model65B];
const BUFFERS: [BufferKind; 4] =
    [BufferKind::Scratch0, BufferKind::Scratch1, BufferKind::KvSelf, BufferKind::Eval];

#[test]
fn reference_table_values() {
    assert_eq!(MIB, 1048576);
    assert_eq!(estimate(ModelSize::Model7B, BufferKind::Scratch0), Some(512 * MIB));
    assert_eq!(estimate(ModelSize::Model30B, BufferKind::Scratch1), Some(512 * MIB));
    assert_eq!(estimate(ModelSize::Model65B, BufferKind::Scratch0), Some(1024 * MIB));
    assert_eq!(estimate(ModelSize::Model65B, BufferKind::Scratch1), Some(1024 * MIB));
    assert_eq!(estimate(ModelSize::Model7B, BufferKind::KvSelf), Some(1026 * MIB));
    assert_eq!(estimate(ModelSize::Model13B, BufferKind::KvSelf), Some(1608 * MIB));
    assert_eq!(estimate(ModelSize::Model30B, BufferKind::KvSelf), Some(3124 * MIB));
    assert_eq!(estimate(ModelSize::Model65B, BufferKind::KvSelf), Some(5368709120));
    assert_eq!(estimate(ModelSize::Model7B, BufferKind::Eval), Some(768 * MIB));
    assert_eq!(estimate(ModelSize::Model13B, BufferKind::Eval), Some(1024 * MIB));
    assert_eq!(estimate(ModelSize::Model30B, BufferKind::Eval), Some(1280 * MIB));
    assert_eq!(estimate(ModelSize::Model65B, BufferKind::Eval), Some(1536 * MIB));
}

#[test]
fn unknown_class_has_no_budget() {
    for buf in BUFFERS {
        assert_eq!(estimate(ModelSize::Unknown, buf), None);
    }
    assert_eq!(budget_for(ModelSize::Unknown), None);
}

#[test]
fn budgets_positive_and_largest_dominates() {
    for size in KNOWN {
        for buf in BUFFERS {
            let v = estimate(size, buf).unwrap();
            assert!(v > 0);
            assert!(estimate(ModelSize::Model65B, buf).unwrap() >= v);
        }
    }
}

#[test]
fn budgets_never_shrink_across_tiers() {
    for buf in BUFFERS {
        for w in KNOWN.windows(2) {
            assert!(estimate(w[0], buf).unwrap() <= estimate(w[1], buf).unwrap());
        }
    }
}

#[test]
fn full_budget_for_13b() {
    assert_eq!(
        budget_for(ModelSize::Model13B),
        Some(MemoryBudget {
            scratch0: 512 * MIB,
            scratch1: 512 * MIB,
            kv_self: 1608 * MIB,
            eval: 1024 * MIB,
        })
    );
}

#[test]
fn plan_memory_from_hyperparams() {
    let h = LlamaHyperParams {
        n_vocab: 32000,
        n_ctx: 2048,
        n_embd: 8192,
        n_mult: 256,
        n_head: 64,
        n_layer: 80,
        n_rot: 128,
        ftype: 2,
    };
    assert_eq!(
        plan_memory(&h),
        Some(MemoryBudget {
            scratch0: 1024 * MIB,
            scratch1: 1024 * MIB,
            kv_self: 5120 * MIB,
            eval: 1536 * MIB,
        })
    );
    assert_eq!(plan_memory(&LlamaHyperParams::default()), None);
}
