//! The buffer transfer protocol.
//!
//! The encoder produces a code matrix of shape (codebooks, steps). It
//! crosses the boundary as a flat, caller-owned buffer in row-major order
//! with the step as the slow index: the code for step `s` and codebook `c`
//! sits at flat index `s * codebooks + c`. The buffer is released exactly
//! once, by value, with the element count it was handed out with.

use vstd::prelude::*;

verus! {

/// Status value reported to the caller when a step produced codes.
pub const STATUS_OK: i32 = 0;

/// Status value reported to the caller when a step failed.
pub const STATUS_ERROR: i32 = -1;

/// Status value reported to the caller when a step consumed the frame but
/// the model has not emitted codes yet; this is not an error.
pub const STATUS_PENDING: i32 = 1;

/// Why an encode step failed.
#[derive(Clone, Copy, PartialEq, Eq, Structural, Debug)]
pub enum EncodeError {
    /// The frame tensor does not have the declared shape.
    InvalidFrame,
    /// The model itself reported a failure.
    ModelFailure,
    /// The model returned a result with no codebooks or no steps.
    EmptyCodes,
    /// The rows of the code matrix do not all have the same length.
    RaggedCodes,
}

/// What a successful encode step yields.
pub enum EncodeOutcome {
    /// The frame was consumed and buffered; no codes are available yet.
    NoOutputYet,
    /// A freshly allocated code buffer, owned by the caller.
    Produced(CodeBuffer),
}

/// A flat, caller-owned code buffer together with its shape.
pub struct CodeBuffer {
    /// The flat code data, one element per (step, codebook) pair.
    pub data: Vec<u32>,
    /// The number of codebooks (the fast-varying index).
    pub codebooks: usize,
    /// The number of steps (the slow-varying index).
    pub steps: usize,
}

/// The flat position of the code for step `s`, codebook `c`.
pub open spec fn flat_index(s: int, c: int, codebooks: int) -> int {
    s * codebooks + c
}

/// A code matrix is rectangular: every codebook row has one code per step.
pub open spec fn rectangular(codes: Seq<Seq<u32>>) -> bool {
    forall|c: int| 0 <= c < codes.len() ==> #[trigger] codes[c].len() == codes[0].len()
}

impl CodeBuffer {
    /// The flat buffer holds exactly one element per (step, codebook) pair.
    pub open spec fn wf(&self) -> bool {
        self.data@.len() == self.steps * self.codebooks
    }

    /// The code stored for step `s`, codebook `c`.
    pub open spec fn code_at(&self, s: int, c: int) -> u32 {
        self.data@[flat_index(s, c, self.codebooks as int)]
    }

    /// The total element count, as handed to the caller and expected back
    /// by [`CodeBuffer::release`].
    pub fn element_count(&self) -> (r: usize)
        ensures
            r == self.data@.len(),
    {
        self.data.len()
    }

    /// The code for step `s`, codebook `c`.
    pub fn code(&self, s: usize, c: usize) -> (r: u32)
        requires
            self.wf(),
            s < self.steps,
            c < self.codebooks,
        ensures
            r == self.code_at(s as int, c as int),
    {
        let n = self.data.len();
        proof {
            lemma_flat_index_in_range(
                s as int,
                c as int,
                self.steps as int,
                self.codebooks as int,
            );
            assert(s * self.codebooks + c < n);
        }
        self.data[s * self.codebooks + c]
    }

    /// Surrenders the buffer to the boundary: the flat data and its shape.
    /// After this the buffer is owned by the caller alone.
    pub fn into_parts(self) -> (r: (Vec<u32>, usize, usize))
        ensures
            r.0 == self.data,
            r.1 == self.codebooks,
            r.2 == self.steps,
    {
        let CodeBuffer { data, codebooks, steps } = self;
        (data, codebooks, steps)
    }

    /// Releases the buffer. Taking `self` by value consumes the one
    /// capability to free it, so a second release of the same buffer is
    /// impossible rather than undefined. The element count must be the one
    /// returned alongside the buffer; a mismatch is reported, not ignored.
    pub fn release(self, element_count: usize) -> (ok: bool)
        ensures
            ok <==> element_count == self.data@.len(),
    {
        element_count == self.data.len()
    }
}

/// In a rectangular (steps x codebooks) grid, the flat index of a cell is
/// within the grid's total size.
proof fn lemma_flat_index_in_range(s: int, c: int, steps: int, codebooks: int)
    requires
        0 <= s < steps,
        0 <= c < codebooks,
    ensures
        0 <= flat_index(s, c, codebooks) < steps * codebooks,
        flat_index(s, c, codebooks) < (s + 1) * codebooks,
{
    assert(s * codebooks + c < (s + 1) * codebooks <= steps * codebooks) by (nonlinear_arith)
        requires
            0 <= s < steps,
            0 <= c < codebooks,
    ;
}

/// Distinct (step, codebook) cells map to distinct flat indices; in
/// particular a cell of an earlier step sits strictly below the current
/// write position.
proof fn lemma_flat_index_order(s1: int, c1: int, s2: int, c2: int, codebooks: int)
    requires
        0 <= c1 < codebooks,
        0 <= c2 < codebooks,
        0 <= s1 < s2,
    ensures
        flat_index(s1, c1, codebooks) < flat_index(s2, c2, codebooks),
{
    assert(s1 * codebooks + c1 < s2 * codebooks + c2) by (nonlinear_arith)
        requires
            0 <= c1 < codebooks,
            0 <= c2 < codebooks,
            0 <= s1 < s2,
    ;
}

/// Flattens a code matrix, given as one row per codebook, into the flat
/// caller-facing layout. The matrix must be non-empty in both dimensions
/// and rectangular; otherwise the matching error is returned and nothing
/// is allocated.
pub fn flatten_codes(codes: &Vec<Vec<u32>>) -> (r: Result<CodeBuffer, EncodeError>)
    ensures
        r is Ok <==> codes@.len() > 0 && codes@[0]@.len() > 0 && rectangular(
            codes@.map_values(|row: Vec<u32>| row@),
        ),
        r == Err::<CodeBuffer, EncodeError>(EncodeError::EmptyCodes) <==> codes@.len() == 0
            || codes@[0]@.len() == 0,
        r matches Err(e) ==> (e == EncodeError::EmptyCodes || e == EncodeError::RaggedCodes),
        r matches Ok(b) ==> {
            &&& b.wf()
            &&& b.codebooks == codes@.len()
            &&& b.steps == codes@[0]@.len()
            &&& forall|s: int, c: int|
                0 <= s < b.steps && 0 <= c < b.codebooks ==> b.code_at(s, c) == codes@[c]@[s]
        },
{
    let codebooks = codes.len();
    if codebooks == 0 {
        return Err(EncodeError::EmptyCodes);
    }
    let steps = codes[0].len();
    if steps == 0 {
        return Err(EncodeError::EmptyCodes);
    }
    let ghost rows = codes@.map_values(|row: Vec<u32>| row@);
    for c in 1..codebooks
        invariant
            codebooks == codes@.len(),
            steps == codes@[0]@.len(),
            codebooks >= 1,
            steps >= 1,
            rows == codes@.map_values(|row: Vec<u32>| row@),
            forall|c2: int| 0 <= c2 < c ==> codes@[c2]@.len() == steps,
    {
        if codes[c].len() != steps {
            proof {
                assert(rows[c as int] == codes@[c as int]@);
                assert(rows[0] == codes@[0]@);
                assert(!rectangular(rows));
            }
            return Err(EncodeError::RaggedCodes);
        }
    }
    assert(rectangular(rows)) by {
        assert(forall|c2: int| 0 <= c2 < rows.len() ==> rows[c2] == codes@[c2]@);
    }
    let mut data: Vec<u32> = Vec::new();
    assert(data@.len() == 0 * (codebooks as int)) by (nonlinear_arith)
        requires
            data@.len() == 0,
    ;
    for s in 0..steps
        invariant
            codebooks == codes@.len(),
            steps == codes@[0]@.len(),
            codebooks >= 1,
            forall|c2: int| 0 <= c2 < codebooks ==> codes@[c2]@.len() == steps,
            data@.len() == s * codebooks,
            forall|s2: int, c2: int|
                0 <= s2 < s && 0 <= c2 < codebooks ==> data@[flat_index(s2, c2, codebooks as int)]
                    == codes@[c2]@[s2],
    {
        assert(data@.len() + codebooks <= steps * codebooks) by (nonlinear_arith)
            requires
                data@.len() == s * codebooks,
                0 <= s < steps,
                codebooks >= 1,
        ;
        for c in 0..codebooks
            invariant
                codebooks == codes@.len(),
                steps == codes@[0]@.len(),
                codebooks >= 1,
                s < steps,
                forall|c2: int| 0 <= c2 < codebooks ==> codes@[c2]@.len() == steps,
                data@.len() == s * codebooks + c,
                data@.len() + (codebooks - c) <= steps * codebooks,
                forall|s2: int, c2: int|
                    0 <= s2 < s && 0 <= c2 < codebooks ==> data@[flat_index(
                        s2,
                        c2,
                        codebooks as int,
                    )] == codes@[c2]@[s2],
                forall|c2: int|
                    0 <= c2 < c ==> data@[flat_index(s as int, c2, codebooks as int)]
                        == codes@[c2]@[s as int],
        {
            proof {
                assert forall|s2: int, c2: int|
                    0 <= s2 < s && 0 <= c2 < codebooks implies #[trigger] flat_index(
                    s2,
                    c2,
                    codebooks as int,
                ) < data@.len() by {
                    lemma_flat_index_order(s2, c2, s as int, c as int, codebooks as int);
                }
            }
            data.push(codes[c][s]);
        }
        assert(data@.len() == (s + 1) * codebooks) by (nonlinear_arith)
            requires
                data@.len() == s * codebooks + codebooks,
        ;
    }
    proof {
        assert forall|s2: int, c2: int|
            0 <= s2 < steps && 0 <= c2 < codebooks implies 0 <= #[trigger] flat_index(
            s2,
            c2,
            codebooks as int,
        ) < data@.len() by {
            lemma_flat_index_in_range(s2, c2, steps as int, codebooks as int);
        }
    }
    Ok(CodeBuffer { data, codebooks, steps })
}

/// The status value that crosses the boundary for each outcome of an
/// encode step: success, no-output-yet, or failure. A buffered frame is
/// reported with its own status rather than sharing the failure code, so
/// a caller can tell latency from breakage.
pub fn status_of(r: &Result<EncodeOutcome, EncodeError>) -> (status: i32)
    ensures
        status == STATUS_OK <==> (r matches Ok(o) && o is Produced),
        status == STATUS_PENDING <==> (r matches Ok(o) && o is NoOutputYet),
        status == STATUS_ERROR <==> r is Err,
{
    match r {
        Ok(EncodeOutcome::Produced(_)) => STATUS_OK,
        Ok(EncodeOutcome::NoOutputYet) => STATUS_PENDING,
        Err(_) => STATUS_ERROR,
    }
}

} // verus!
