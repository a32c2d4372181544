//! The model adapter.
//!
//! A [`MimiTokenizer`] aggregates a streaming tokenizer model instance
//! with its execution device, numeric precision and configuration. Each
//! encode call feeds one frame tensor into the model, classifies the
//! model's lazy result (codes, nothing yet, or a failure) and converts an
//! emitted code matrix into the flat caller-owned layout. The model's
//! tensors are opaque here; everything around the model calls — shape
//! validation, result classification, flattening, and the stream's reset
//! bookkeeping — is verified.

use vstd::prelude::*;
use crate::codes::{flatten_codes, CodeBuffer, EncodeError, EncodeOutcome};
use crate::config::MimiConfig;

verus! {

#[verifier::external_type_specification]
#[verifier::external_body]
pub struct ExMimi(moshi::mimi::Mimi);

#[verifier::external_type_specification]
#[verifier::external_body]
pub struct ExTensor(moshi::candle::Tensor);

#[verifier::external_type_specification]
#[verifier::external_body]
pub struct ExDevice(moshi::candle::Device);

#[verifier::external_type_specification]
#[verifier::external_body]
pub struct ExDType(moshi::candle::DType);

#[verifier::external_type_specification]
#[verifier::external_body]
pub struct ExCandleError(moshi::candle::Error);

#[verifier::external_type_specification]
#[verifier::external_body]
pub struct ExStreamTensor(moshi::StreamTensor);

/// Relies on moshi's Mimi::encode_step: feeds one frame tensor into the
/// streaming encoder, advancing its convolutional and attention caches,
/// and lazily yields a stream result that may hold no tensor yet.
#[verifier::external_body]
fn model_encode_step(model: &mut moshi::mimi::Mimi, frame: moshi::candle::Tensor) -> (r: Result<
    moshi::StreamTensor,
    moshi::candle::Error,
>) {
    model.encode_step(&frame.into(), &().into())
}

/// Relies on moshi's StreamTensor::as_option: a lazy stream result either
/// holds an emitted tensor or nothing yet.
#[verifier::external_body]
fn stream_contents(st: &moshi::StreamTensor) -> (r: Option<&moshi::candle::Tensor>) {
    st.as_option()
}

/// The dimensions of a tensor, one entry per axis. Names the shape that
/// candle's Tensor::dims3 reads, a function of the tensor value alone.
pub uninterp spec fn tensor_dims_of(t: moshi::candle::Tensor) -> Seq<int>;

/// Whether the tensor's contents can be read out as rank-3 unsigned
/// 32-bit codes. Names the success of candle's Tensor::to_vec3, which
/// depends on the tensor value (rank and element type) alone.
pub uninterp spec fn tensor3_ok(t: moshi::candle::Tensor) -> bool;

/// The contents of a rank-3 tensor as nested sequences, outer to inner
/// axis. Names the result of candle's Tensor::to_vec3.
pub uninterp spec fn tensor3_contents(t: moshi::candle::Tensor) -> Seq<Seq<Seq<u32>>>;

/// Relies on candle's Tensor::dims3: the dimensions of a rank-3 tensor,
/// or an error for any other rank.
#[verifier::external_body]
fn tensor_dims3(t: &moshi::candle::Tensor) -> (r: Result<
    (usize, usize, usize),
    moshi::candle::Error,
>)
    ensures
        r is Ok <==> tensor_dims_of(*t).len() == 3,
        r matches Ok(d) ==> tensor_dims_of(*t) =~= seq![d.0 as int, d.1 as int, d.2 as int],
{
    t.dims3()
}

/// Relies on candle's Tensor::to_vec3: the contents of a rank-3 tensor as
/// nested vectors whose lengths follow the tensor's three dimensions, so
/// the nesting is rectangular at both levels. Succeeds exactly when the
/// tensor is readable as rank-3 unsigned 32-bit codes, and then returns
/// the tensor's contents.
#[verifier::external_body]
fn tensor_to_vec3_u32(t: &moshi::candle::Tensor) -> (r: Result<
    Vec<Vec<Vec<u32>>>,
    moshi::candle::Error,
>)
    ensures
        r is Ok <==> tensor3_ok(*t),
        r matches Ok(v) ==> v@.map_values(
            |row: Vec<Vec<u32>>| row@.map_values(|inner: Vec<u32>| inner@),
        ) == tensor3_contents(*t),
        r matches Ok(v) ==> (forall|i: int, j: int|
            0 <= i < v@.len() && 0 <= j < v@.len() ==> #[trigger] v@[i]@.len()
                == #[trigger] v@[j]@.len()),
        r matches Ok(v) ==> (forall|i: int, j: int, i2: int, j2: int|
            0 <= i < v@.len() && 0 <= j < v@[i]@.len() && 0 <= i2 < v@.len() && 0 <= j2
                < v@[i2]@.len() ==> #[trigger] v@[i]@[j]@.len() == #[trigger] v@[i2]@[j2]@.len()),
{
    t.to_vec3::<u32>()
}

/// Relies on moshi's Mimi::reset_state: clears every streaming cache of
/// the model back to its initial condition.
#[verifier::external_body]
fn model_reset(model: &mut moshi::mimi::Mimi) {
    model.reset_state()
}

/// Whether the tensor has exactly the declared frame shape (1, 1,
/// `samples`): one batch, one channel, and the declared sample count.
pub fn frame_shape_matches(t: &moshi::candle::Tensor, samples: usize) -> (r: bool)
    ensures
        r <==> tensor_dims_of(*t) =~= seq![1int, 1int, samples as int],
{
    let dims = tensor_dims3(t);
    let shape_ok = match dims {
        Ok(d) => d.0 == 1 && d.1 == 1 && d.2 == samples,
        Err(_) => false,
    };
    proof {
        let target = seq![1int, 1int, samples as int];
        if tensor_dims_of(*t) =~= target {
            assert(tensor_dims_of(*t) == target);
            assert(dims is Ok);
            let d = dims->Ok_0;
            assert(tensor_dims_of(*t) == seq![d.0 as int, d.1 as int, d.2 as int]);
            assert(seq![d.0 as int, d.1 as int, d.2 as int][0] == target[0]);
            assert(seq![d.0 as int, d.1 as int, d.2 as int][1] == target[1]);
            assert(seq![d.0 as int, d.1 as int, d.2 as int][2] == target[2]);
            assert(shape_ok);
        } else {
            assert(!shape_ok) by {
                if dims is Ok {
                    let d = dims->Ok_0;
                    if d.0 == 1 && d.1 == 1 && d.2 == samples {
                        assert(tensor_dims_of(*t) =~= target);
                    }
                }
            }
        }
    }
    shape_ok
}

/// Converts a model result tensor of shape (batch, codebooks, steps) into
/// a flat caller-owned code buffer. The first (and only) batch entry is
/// the code matrix; the call succeeds exactly when the tensor is readable
/// as rank-3 unsigned 32-bit codes and non-empty in every dimension, and
/// the buffer then holds, at flat index `s * codebooks + c`, the tensor's
/// code for step `s` and codebook `c`. An unreadable tensor and an empty
/// one are reported as distinct errors.
pub fn extract_codes(t: &moshi::candle::Tensor) -> (r: Result<CodeBuffer, EncodeError>)
    ensures
        r is Ok <==> tensor3_ok(*t) && tensor3_contents(*t).len() > 0 && tensor3_contents(
            *t,
        )[0].len() > 0 && tensor3_contents(*t)[0][0].len() > 0,
        r == Err::<CodeBuffer, EncodeError>(EncodeError::ModelFailure) <==> !tensor3_ok(*t),
        r matches Ok(b) ==> b.wf() && b.codebooks == tensor3_contents(*t)[0].len() && b.steps
            == tensor3_contents(*t)[0][0].len() && (forall|s: int, c: int|
            0 <= s < b.steps && 0 <= c < b.codebooks ==> b.code_at(s, c) == tensor3_contents(
                *t,
            )[0][c][s]),
        r matches Err(e) ==> (e == EncodeError::ModelFailure || e == EncodeError::EmptyCodes),
{
    let v = match tensor_to_vec3_u32(t) {
        Ok(v) => v,
        Err(_) => {
            return Err(EncodeError::ModelFailure);
        },
    };
    let ghost contents = tensor3_contents(*t);
    proof {
        assert(contents == v@.map_values(
            |row: Vec<Vec<u32>>| row@.map_values(|inner: Vec<u32>| inner@),
        ));
        assert(contents.len() == v@.len());
    }
    if v.len() == 0 {
        return Err(EncodeError::EmptyCodes);
    }
    let matrix = &v[0];
    let ghost rows = matrix@.map_values(|row: Vec<u32>| row@);
    proof {
        assert(contents[0] == v@[0]@.map_values(|inner: Vec<u32>| inner@));
        assert(contents[0].len() == matrix@.len());
        assert(forall|c: int| 0 <= c < matrix@.len() ==> contents[0][c] == #[trigger] matrix@[c]@);
        assert(forall|c: int| 0 <= c < rows.len() ==> rows[c] == matrix@[c]@);
        assert(crate::codes::rectangular(rows));
    }
    match flatten_codes(matrix) {
        Ok(b) => {
            proof {
                assert(b.steps == contents[0][0].len());
                assert(forall|s: int, c: int|
                    0 <= s < b.steps && 0 <= c < b.codebooks ==> #[trigger] b.code_at(s, c)
                        == contents[0][c][s]);
            }
            Ok(b)
        },
        Err(e) => {
            proof {
                assert(e != EncodeError::RaggedCodes);
            }
            Err(e)
        },
    }
}

/// An opaque streaming tokenizer handle: the model instance, its execution
/// device and numeric precision, the configuration it was built with, and
/// the stream's bookkeeping state.
///
/// A handle starts in the constructed (non-streaming) state, moves to the
/// streaming state when a frame first reaches the model, and returns to
/// the constructed-equivalent state on [`MimiTokenizer::reset`]. Storage
/// and destruction are the registry's business: a destroyed handle is
/// simply gone from its slot.
pub struct MimiTokenizer {
    /// The underlying streaming tokenizer model.
    pub model: moshi::mimi::Mimi,
    /// The device the model executes on.
    pub device: moshi::candle::Device,
    /// The numeric precision of the model's tensors.
    pub dtype: moshi::candle::DType,
    /// The configuration the handle was constructed with.
    pub cfg: MimiConfig,
    /// Whether any frame has reached the model since the last reset.
    pub streaming: bool,
    /// The declared sample counts of the frames fed since the last reset.
    pub history: Ghost<Seq<usize>>,
}

impl MimiTokenizer {
    /// The stream bookkeeping is consistent: the handle is streaming
    /// exactly when at least one frame has reached the model since the
    /// last reset.
    pub open spec fn wf(&self) -> bool {
        self.streaming <==> self.history@.len() > 0
    }

    /// Wraps a freshly constructed model instance. The stream starts in
    /// the initial condition, equivalent to the state right after a reset.
    pub fn new(
        model: moshi::mimi::Mimi,
        device: moshi::candle::Device,
        dtype: moshi::candle::DType,
        cfg: MimiConfig,
    ) -> (r: Self)
        ensures
            r.wf(),
            r.cfg == cfg,
            r.device == device,
            r.dtype == dtype,
            r.model == model,
            !r.streaming,
            r.history@.len() == 0,
    {
        MimiTokenizer {
            model,
            device,
            dtype,
            cfg,
            streaming: false,
            history: Ghost(Seq::empty()),
        }
    }

    /// The configuration the handle was constructed with.
    pub fn config(&self) -> (r: &MimiConfig)
        ensures
            r == self.cfg,
    {
        &self.cfg
    }

    /// The device the model executes on.
    pub fn device(&self) -> (r: &moshi::candle::Device)
        ensures
            r == self.device,
    {
        &self.device
    }

    /// The numeric precision of the model's tensors.
    pub fn dtype(&self) -> (r: &moshi::candle::DType)
        ensures
            r == self.dtype,
    {
        &self.dtype
    }

    /// Whether any frame has reached the model since the last reset.
    pub fn is_streaming(&self) -> (r: bool)
        ensures
            r == self.streaming,
    {
        self.streaming
    }

    /// Feeds one audio frame into the streaming encoder. The frame tensor
    /// must have shape (1, 1, `samples`) — one batch, one channel, and
    /// exactly the declared sample count; any other shape is rejected as
    /// an invalid frame before it reaches the model. A frame that reaches
    /// the model always advances the stream, whether or not codes come
    /// out: the result distinguishes an emitted code buffer, a buffered
    /// frame with no output yet, and a failure.
    pub fn encode_step(&mut self, frame: moshi::candle::Tensor, samples: usize) -> (r: Result<
        EncodeOutcome,
        EncodeError,
    >)
        requires
            old(self).wf(),
        ensures
            final(self).wf(),
            final(self).cfg == old(self).cfg,
            final(self).device == old(self).device,
            final(self).dtype == old(self).dtype,
            r == Err::<EncodeOutcome, EncodeError>(EncodeError::InvalidFrame) <==> !(
            tensor_dims_of(frame) =~= seq![1int, 1int, samples as int]),
            r == Err::<EncodeOutcome, EncodeError>(EncodeError::InvalidFrame) ==> (final(
                self).history@ == old(self).history@ && final(self).streaming == old(
                self).streaming && final(self).model == old(self).model),
            r != Err::<EncodeOutcome, EncodeError>(EncodeError::InvalidFrame) ==> (final(
                self).history@ == old(self).history@.push(samples) && final(self).streaming),
            r matches Ok(o) ==> (o matches EncodeOutcome::Produced(b) ==> b.wf() && b.codebooks
                >= 1 && b.steps >= 1),
            r matches Err(e) ==> e != EncodeError::RaggedCodes,
    {
        if !frame_shape_matches(&frame, samples) {
            return Err(EncodeError::InvalidFrame);
        }
        self.history = Ghost(self.history@.push(samples));
        self.streaming = true;
        let st = match model_encode_step(&mut self.model, frame) {
            Ok(st) => st,
            Err(_) => {
                return Err(EncodeError::ModelFailure);
            },
        };
        let t = match stream_contents(&st) {
            Some(t) => t,
            None => {
                return Ok(EncodeOutcome::NoOutputYet);
            },
        };
        match extract_codes(t) {
            Ok(b) => Ok(EncodeOutcome::Produced(b)),
            Err(e) => Err(e),
        }
    }

    /// Clears the stream back to the model's initial condition: all
    /// caches emptied, bookkeeping as in a freshly constructed handle.
    /// The handle itself stays valid; configuration, device and precision
    /// are untouched. Reset cannot fail.
    pub fn reset(&mut self)
        ensures
            final(self).wf(),
            final(self).cfg == old(self).cfg,
            final(self).device == old(self).device,
            final(self).dtype == old(self).dtype,
            !final(self).streaming,
            final(self).history@.len() == 0,
    {
        model_reset(&mut self.model);
        self.streaming = false;
        self.history = Ghost(Seq::empty());
    }
}

/// The stream bookkeeping after feeding the frames of `fed`, in order,
/// into a stream whose history since its last reset is `init`.
pub open spec fn history_after(init: Seq<usize>, fed: Seq<usize>) -> Seq<usize> {
    init + fed
}

/// Replaying a frame sequence after a reset drives the stream bookkeeping
/// through exactly the states of a freshly constructed handle fed the
/// same sequence: reset and construction both leave the history empty,
/// and each encode call extends it by that call's frame alone.
pub proof fn lemma_reset_replay_matches_fresh(fed: Seq<usize>)
    ensures
        history_after(Seq::<usize>::empty(), fed) == fed,
{
    assert(Seq::<usize>::empty() + fed =~= fed);
}

/// The stream bookkeeping is deterministic: two handles whose histories
/// agree and that are fed the same frame sequence end with histories that
/// agree as well.
pub proof fn lemma_history_deterministic(a: Seq<usize>, b: Seq<usize>, fed: Seq<usize>)
    requires
        a == b,
    ensures
        history_after(a, fed) == history_after(b, fed),
{
}

} // verus!
