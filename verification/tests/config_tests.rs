use rustymimi_c::config::{
    config_for, mimi_cfg, Activation, ConvNorm, NormKind, PadMode, PositionalEmbedding,
    ResampleMethod, FRAME_RATE_MILLIHZ, QUANTIZER_BINS, QUANTIZER_DIM, SAMPLE_RATE_HZ,
};

#[test]
fn config_constants_match_defaults() {
    let c = mimi_cfg(8);
    assert_eq!(c.channels, 1);
    assert_eq!(c.sample_rate_hz, 24_000);
    assert_eq!(c.sample_rate_hz, SAMPLE_RATE_HZ);
    assert_eq!(c.frame_rate_millihz, 12_500);
    assert_eq!(c.frame_rate_millihz, FRAME_RATE_MILLIHZ);
    assert!(c.renormalize);
    assert_eq!(c.resample_method, ResampleMethod::Conv);
    assert_eq!(c.quantizer_n_q, 8);
    assert_eq!(c.quantizer_bins, 2048);
    assert_eq!(c.quantizer_bins, QUANTIZER_BINS);
    assert_eq!(c.quantizer_dim, 256);
    assert_eq!(c.quantizer_dim, QUANTIZER_DIM);

    let s = &c.seanet;
    assert_eq!(s.dimension, 512);
    assert_eq!(s.channels, 1);
    assert!(s.causal);
    assert_eq!(s.n_filters, 64);
    assert_eq!(s.n_residual_layers, 1);
    assert_eq!(s.ratios, vec![8, 6, 5, 4]);
    assert_eq!(s.activation, Activation::Elu { alpha_milli: 1000 });
    assert_eq!(s.norm, ConvNorm::WeightNorm);
    assert_eq!(s.kernel_size, 7);
    assert_eq!(s.residual_kernel_size, 3);
    assert_eq!(s.last_kernel_size, 3);
    assert_eq!(s.dilation_base, 2);
    assert_eq!(s.pad_mode, PadMode::Constant);
    assert!(s.true_skip);
    assert_eq!(s.compress, 2);
    assert_eq!(s.lstm, 0);
    assert_eq!(s.disable_norm_outer_blocks, 0);
    assert!(s.final_activation.is_none());

    let t = &c.transformer;
    assert_eq!(t.d_model, 512);
    assert_eq!(t.d_model, s.dimension);
    assert_eq!(t.num_heads, 8);
    assert_eq!(t.num_layers, 8);
    assert!(t.causal);
    assert!(t.norm_first);
    assert!(!t.bias_ff);
    assert!(!t.bias_attn);
    assert_eq!(t.layer_scale_milli, Some(10));
    assert_eq!(t.positional_embedding, PositionalEmbedding::Rope);
    assert!(!t.use_conv_block);
    assert!(t.cross_attention.is_none());
    assert_eq!(t.conv_kernel_size, 5);
    assert!(t.use_conv_bias);
    assert!(t.gating.is_none());
    assert_eq!(t.norm, NormKind::LayerNorm);
    assert_eq!(t.context, 250);
    assert_eq!(t.max_period, 10000);
    assert_eq!(t.max_seq_len, 8192);
    assert_eq!(t.kv_repeat, 1);
    assert_eq!(t.dim_feedforward, 2048);
    assert!(t.conv_layout);
    assert!(t.shared_cross_attn);
}

#[test]
fn config_codebook_count_is_the_only_variable() {
    let a = mimi_cfg(4);
    let b = mimi_cfg(16);
    assert_eq!(a.quantizer_n_q, 4);
    assert_eq!(b.quantizer_n_q, 16);
    assert_eq!(a.quantizer_bins, b.quantizer_bins);
    assert_eq!(a.sample_rate_hz, b.sample_rate_hz);
    assert_eq!(a.seanet.ratios, b.seanet.ratios);
}

#[test]
fn config_rejects_zero_codebooks() {
    assert!(config_for(0).is_none());
}

#[test]
fn config_accepts_positive_codebooks() {
    let c = config_for(8).unwrap();
    assert_eq!(c.quantizer_n_q, 8);
    let c1 = config_for(1).unwrap();
    assert_eq!(c1.quantizer_n_q, 1);
}
