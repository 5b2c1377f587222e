use ggml::session::SessionParams;

fn params() -> SessionParams {
    SessionParams {
        n_ctx: 512,
        n_gpu_layers: 0,
        seed: -1,
        f16_kv: true,
        logits_all: false,
        vocab_only: false,
        use_mmap: true,
        use_mlock: false,
        embedding: false,
    }
}

#[test]
fn vocab_only_allocates_no_weights() {
    assert!(params().allocates_weights());
    let p = SessionParams { vocab_only: true, ..params() };
    assert!(!p.allocates_weights());
}

#[test]
fn embedding_mode_keeps_logits_only_when_asked() {
    let p = SessionParams { embedding: true, ..params() };
    assert!(!p.keeps_all_logits());
    let p = SessionParams { embedding: true, logits_all: true, ..params() };
    assert!(p.keeps_all_logits());
}
