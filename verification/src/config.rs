//! The fixed model configuration.
//!
//! All architectural constants are dictated by the pretrained weights and
//! must be reproduced exactly; the only caller-supplied variable is the
//! number of codebooks. Fractional constants (sample rate, frame rate,
//! layer scale, activation parameters) are carried as exact scaled
//! integers so that the configuration stays in integer arithmetic; the
//! scale is part of each field's name.

use vstd::prelude::*;

verus! {

/// Audio sample rate in hertz.
pub const SAMPLE_RATE_HZ: u64 = 24_000;

/// Token frame rate in millihertz (12.5 Hz).
pub const FRAME_RATE_MILLIHZ: u64 = 12_500;

/// Quantizer bins per codebook.
pub const QUANTIZER_BINS: usize = 2048;

/// Quantizer embedding dimension.
pub const QUANTIZER_DIM: usize = 256;

/// Activation function selector. Parameters are in thousandths, so
/// `Elu { alpha_milli: 1000 }` is an ELU with coefficient one.
#[derive(Clone, Copy, PartialEq, Eq, Structural, Debug)]
pub enum Activation {
    Gelu,
    NewGelu,
    Relu,
    Relu2,
    Relu6,
    Silu,
    Sigmoid,
    HardSigmoid,
    Swiglu,
    Swish,
    Mish,
    HardSwish,
    Elu { alpha_milli: u64 },
    LeakyRelu { slope_milli: u64 },
    GeluPytorchTanh,
}

/// Normalization applied to convolution weights.
#[derive(Clone, Copy, PartialEq, Eq, Structural, Debug)]
pub enum ConvNorm {
    WeightNorm,
    SpectralNorm,
    TimeGroupNorm,
}

/// Padding policy of the causal convolutions.
#[derive(Clone, Copy, PartialEq, Eq, Structural, Debug)]
pub enum PadMode {
    Constant,
    Reflect,
    Replicate,
}

/// Positional embedding of the transformer.
#[derive(Clone, Copy, PartialEq, Eq, Structural, Debug)]
pub enum PositionalEmbedding {
    Rope,
    Sin,
    Absent,
}

/// Layer normalization flavour of the transformer.
#[derive(Clone, Copy, PartialEq, Eq, Structural, Debug)]
pub enum NormKind {
    RmsNorm,
    LayerNorm,
}

/// Gating applied to cross-attention layers.
#[derive(Clone, Copy, PartialEq, Eq, Structural, Debug)]
pub enum CrossAttentionGating {
    Normal,
    ConstantGatedTanh,
    ConstantGatedSigmoid,
    ConditionalGatedTanh,
    ConditionalGatedSigmoid,
    ConditionalGatedSigmoidLearnableBias,
    ConditionalGatedTanhLearnableBias,
}

/// Cross-attention setup of the transformer, absent in this model.
#[derive(Clone, Copy, PartialEq, Eq, Structural, Debug)]
pub struct CrossAttentionConfig {
    pub gating: CrossAttentionGating,
    pub norm: NormKind,
    pub dim: Option<usize>,
}

/// How the encoder output is brought down to the token frame rate.
#[derive(Clone, Copy, PartialEq, Eq, Structural, Debug)]
pub enum ResampleMethod {
    Conv,
    Interpolate,
}

/// Configuration of the causal convolutional encoder.
pub struct SeanetConfig {
    pub dimension: usize,
    pub channels: usize,
    pub causal: bool,
    pub n_filters: usize,
    pub n_residual_layers: usize,
    pub ratios: Vec<usize>,
    pub activation: Activation,
    pub norm: ConvNorm,
    pub kernel_size: usize,
    pub residual_kernel_size: usize,
    pub last_kernel_size: usize,
    pub dilation_base: usize,
    pub pad_mode: PadMode,
    pub true_skip: bool,
    pub compress: usize,
    pub lstm: usize,
    pub disable_norm_outer_blocks: usize,
    pub final_activation: Option<Activation>,
}

/// Configuration of the causal transformer. `layer_scale_milli` carries
/// the layer-scale coefficient in thousandths (10 means 0.01).
pub struct TransformerConfig {
    pub d_model: usize,
    pub num_heads: usize,
    pub num_layers: usize,
    pub causal: bool,
    pub norm_first: bool,
    pub bias_ff: bool,
    pub bias_attn: bool,
    pub layer_scale_milli: Option<u64>,
    pub positional_embedding: PositionalEmbedding,
    pub use_conv_block: bool,
    pub cross_attention: Option<CrossAttentionConfig>,
    pub conv_kernel_size: usize,
    pub use_conv_bias: bool,
    pub gating: Option<Activation>,
    pub norm: NormKind,
    pub context: usize,
    pub max_period: usize,
    pub max_seq_len: usize,
    pub kv_repeat: usize,
    pub dim_feedforward: usize,
    pub conv_layout: bool,
    pub shared_cross_attn: bool,
}

/// The whole model configuration: encoder, transformer, quantizer and
/// resampling policy.
pub struct MimiConfig {
    pub channels: usize,
    pub sample_rate_hz: u64,
    pub frame_rate_millihz: u64,
    pub renormalize: bool,
    pub resample_method: ResampleMethod,
    pub seanet: SeanetConfig,
    pub transformer: TransformerConfig,
    pub quantizer_n_q: usize,
    pub quantizer_bins: usize,
    pub quantizer_dim: usize,
}

/// The documented constants of the encoder part.
pub open spec fn is_fixed_seanet(s: SeanetConfig) -> bool {
    &&& s.dimension == 512
    &&& s.channels == 1
    &&& s.causal
    &&& s.n_filters == 64
    &&& s.n_residual_layers == 1
    &&& s.ratios@ == seq![8usize, 6usize, 5usize, 4usize]
    &&& s.activation == (Activation::Elu { alpha_milli: 1000u64 })
    &&& s.norm == ConvNorm::WeightNorm
    &&& s.kernel_size == 7
    &&& s.residual_kernel_size == 3
    &&& s.last_kernel_size == 3
    &&& s.dilation_base == 2
    &&& s.pad_mode == PadMode::Constant
    &&& s.true_skip
    &&& s.compress == 2
    &&& s.lstm == 0
    &&& s.disable_norm_outer_blocks == 0
    &&& s.final_activation is None
}

/// The documented constants of the transformer part.
pub open spec fn is_fixed_transformer(t: TransformerConfig) -> bool {
    &&& t.d_model == 512
    &&& t.num_heads == 8
    &&& t.num_layers == 8
    &&& t.causal
    &&& t.norm_first
    &&& !t.bias_ff
    &&& !t.bias_attn
    &&& t.layer_scale_milli == Some(10u64)
    &&& t.positional_embedding == PositionalEmbedding::Rope
    &&& !t.use_conv_block
    &&& t.cross_attention is None
    &&& t.conv_kernel_size == 5
    &&& t.use_conv_bias
    &&& t.gating is None
    &&& t.norm == NormKind::LayerNorm
    &&& t.context == 250
    &&& t.max_period == 10000
    &&& t.max_seq_len == 8192
    &&& t.kv_repeat == 1
    &&& t.dim_feedforward == 2048
    &&& t.conv_layout
    &&& t.shared_cross_attn
}

/// The whole configuration that a handle is built with: every field is a
/// documented constant except the codebook count.
pub open spec fn is_fixed_config(c: MimiConfig, num_codebooks: usize) -> bool {
    &&& c.channels == 1
    &&& c.sample_rate_hz == SAMPLE_RATE_HZ
    &&& c.frame_rate_millihz == FRAME_RATE_MILLIHZ
    &&& c.renormalize
    &&& c.resample_method == ResampleMethod::Conv
    &&& is_fixed_seanet(c.seanet)
    &&& is_fixed_transformer(c.transformer)
    &&& c.quantizer_n_q == num_codebooks
    &&& c.quantizer_bins == QUANTIZER_BINS
    &&& c.quantizer_dim == QUANTIZER_DIM
}

/// Builds the configuration for the given codebook count. Everything but
/// `quantizer_n_q` is a constant of the pretrained architecture.
pub fn mimi_cfg(num_codebooks: usize) -> (c: MimiConfig)
    ensures
        is_fixed_config(c, num_codebooks),
{
    let mut ratios: Vec<usize> = Vec::new();
    ratios.push(8);
    ratios.push(6);
    ratios.push(5);
    ratios.push(4);
    assert(ratios@ == seq![8usize, 6usize, 5usize, 4usize]);
    let seanet = SeanetConfig {
        dimension: 512,
        channels: 1,
        causal: true,
        n_filters: 64,
        n_residual_layers: 1,
        ratios,
        activation: Activation::Elu { alpha_milli: 1000 },
        norm: ConvNorm::WeightNorm,
        kernel_size: 7,
        residual_kernel_size: 3,
        last_kernel_size: 3,
        dilation_base: 2,
        pad_mode: PadMode::Constant,
        true_skip: true,
        compress: 2,
        lstm: 0,
        disable_norm_outer_blocks: 0,
        final_activation: None,
    };
    let transformer = TransformerConfig {
        d_model: 512,
        num_heads: 8,
        num_layers: 8,
        causal: true,
        norm_first: true,
        bias_ff: false,
        bias_attn: false,
        layer_scale_milli: Some(10),
        positional_embedding: PositionalEmbedding::Rope,
        use_conv_block: false,
        cross_attention: None,
        conv_kernel_size: 5,
        use_conv_bias: true,
        gating: None,
        norm: NormKind::LayerNorm,
        context: 250,
        max_period: 10000,
        max_seq_len: 8192,
        kv_repeat: 1,
        dim_feedforward: 2048,
        conv_layout: true,
        shared_cross_attn: true,
    };
    MimiConfig {
        channels: 1,
        sample_rate_hz: SAMPLE_RATE_HZ,
        frame_rate_millihz: FRAME_RATE_MILLIHZ,
        renormalize: true,
        resample_method: ResampleMethod::Conv,
        seanet,
        transformer,
        quantizer_n_q: num_codebooks,
        quantizer_bins: QUANTIZER_BINS,
        quantizer_dim: QUANTIZER_DIM,
    }
}

/// Builds the configuration if the codebook count is valid. A codebook
/// count of zero is an invalid argument and is rejected here, before any
/// resource is allocated.
pub fn config_for(num_codebooks: usize) -> (r: Option<MimiConfig>)
    ensures
        r is Some <==> num_codebooks >= 1,
        r matches Some(c) ==> is_fixed_config(c, num_codebooks),
{
    if num_codebooks == 0 {
        None
    } else {
        Some(mimi_cfg(num_codebooks))
    }
}

} // verus!
