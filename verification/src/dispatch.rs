//! Building one dispatch request and copying its result back.
//!
//! The dispatcher moves 32-bit words: the host boundary and the shaders
//! decide how those words are read. Preparing a run resolves the kernel
//! name, sizes the two shared buffers and shapes the thread grid; copying
//! the raw output buffer back yields the run's result, always exactly as
//! long as the caller asked.

use vstd::prelude::*;

verus! {

use crate::errors::DispatchError;
use crate::grid::GridPlan;
use crate::grid::group_count_of;
use crate::grid::group_size_of;
use crate::grid::lemma_grid_covers;
use crate::grid::plan_grid;
use crate::text::str_eq;

/// Bytes of one buffer element: the shaders read and write 32-bit words.
pub const BYTES_PER_ELEMENT: u64 = 4;

/// The kernels the embedded shader source defines.
#[derive(Clone, Copy, Debug, PartialEq, Eq, Structural)]
pub enum KernelId {
    /// `square_kernel`: each output word is the square of the input word
    /// at the same index.
    Square,
    /// `cube_kernel`: each output word is the cube of the input word at
    /// the same index.
    Cube,
}

impl KernelId {
    /// The name under which the shader source defines this kernel.
    pub open spec fn spec_name(self) -> Seq<char> {
        match self {
            KernelId::Square => "square_kernel"@,
            KernelId::Cube => "cube_kernel"@,
        }
    }

    /// The name under which the shader source defines this kernel.
    pub fn name(self) -> (r: &'static str)
        ensures
            r@ == self.spec_name(),
    {
        match self {
            KernelId::Square => "square_kernel",
            KernelId::Cube => "cube_kernel",
        }
    }
}

/// The kernel a name denotes, or `KernelNotFound` for every name the
/// shader source does not define.
pub open spec fn spec_lookup(name: Seq<char>) -> Result<KernelId, DispatchError> {
    if name == KernelId::Square.spec_name() {
        Ok(KernelId::Square)
    } else if name == KernelId::Cube.spec_name() {
        Ok(KernelId::Cube)
    } else {
        Err(DispatchError::KernelNotFound)
    }
}

/// Looks `name` up among the kernels the shader source defines.
pub fn lookup_kernel(name: &str) -> (r: Result<KernelId, DispatchError>)
    ensures
        r == spec_lookup(name@),
{
    if str_eq(name, "square_kernel") {
        Ok(KernelId::Square)
    } else if str_eq(name, "cube_kernel") {
        Ok(KernelId::Cube)
    } else {
        Err(DispatchError::KernelNotFound)
    }
}

/// Everything one dispatch needs: the kernel to bind, the sizes of the two
/// shared buffers, and the thread grid that covers the output.
#[derive(Clone, Copy, Debug, PartialEq, Eq, Structural)]
pub struct DispatchRequest {
    /// The kernel the pipeline is built from.
    pub kernel: KernelId,
    /// Elements in the input buffer, bound at slot 0.
    pub input_len: usize,
    /// Elements in the output buffer, bound at slot 1, and in the returned
    /// array.
    pub output_len: usize,
    /// Bytes to allocate for the input buffer.
    pub input_byte_len: u64,
    /// Bytes to allocate for the output buffer.
    pub output_byte_len: u64,
    /// The thread grid covering one work item per output element.
    pub grid: GridPlan,
}

/// The one request that runs kernel `k` on `input_len` input elements for
/// `output_len` output elements.
pub open spec fn spec_request(k: KernelId, input_len: int, output_len: int) -> DispatchRequest {
    DispatchRequest {
        kernel: k,
        input_len: input_len as usize,
        output_len: output_len as usize,
        input_byte_len: (input_len * (BYTES_PER_ELEMENT as int)) as u64,
        output_byte_len: (output_len * (BYTES_PER_ELEMENT as int)) as u64,
        grid: GridPlan {
            thread_count: output_len as u64,
            group_size: group_size_of(output_len) as u64,
            group_count: group_count_of(output_len) as u64,
        },
    }
}

/// Every decision of `prepare_run` as one function of its inputs: an
/// unknown kernel name is rejected, an empty output dispatches nothing,
/// and anything else yields the one request for these arguments.
pub open spec fn spec_prepare(name: Seq<char>, input_len: int, output_len: int) -> Result<
    Option<DispatchRequest>,
    DispatchError,
> {
    match spec_lookup(name) {
        Err(e) => Err(e),
        Ok(k) => if output_len == 0 {
            Ok(None)
        } else {
            Ok(Some(spec_request(k, input_len, output_len)))
        },
    }
}

/// The byte length of a buffer of `count` 32-bit elements.
pub fn buffer_byte_len(count: usize) -> (r: u64)
    requires
        count as int * (BYTES_PER_ELEMENT as int) <= u64::MAX,
    ensures
        r as int == count as int * (BYTES_PER_ELEMENT as int),
{
    (count as u64) * BYTES_PER_ELEMENT
}

/// Prepares one run: resolves the kernel name, sizes the two buffers and
/// shapes the thread grid. An empty output needs no dispatch — the run's
/// result is the empty array — and a name the shader source does not
/// define fails with `KernelNotFound` before any work is recorded.
pub fn prepare_run(kernel_name: &str, input_len: usize, output_len: usize) -> (r: Result<
    Option<DispatchRequest>,
    DispatchError,
>)
    requires
        input_len as int * (BYTES_PER_ELEMENT as int) <= u64::MAX,
        output_len as int * (BYTES_PER_ELEMENT as int) <= u64::MAX,
    ensures
        r == spec_prepare(kernel_name@, input_len as int, output_len as int),
{
    match lookup_kernel(kernel_name) {
        Err(e) => Err(e),
        Ok(kernel) => {
            match plan_grid(output_len) {
                None => Ok(None),
                Some(grid) => {
                    let input_byte_len = buffer_byte_len(input_len);
                    let output_byte_len = buffer_byte_len(output_len);
                    Ok(
                        Some(
                            DispatchRequest {
                                kernel,
                                input_len,
                                output_len,
                                input_byte_len,
                                output_byte_len,
                                grid,
                            },
                        ),
                    )
                },
            }
        },
    }
}

/// Copies the first `output_len` elements of the raw output buffer into a
/// fresh array, the run's result. The copy validates that the buffer holds
/// at least `output_len` elements and refuses to copy where it does not,
/// so a returned array is always exactly `output_len` long.
pub fn copy_output(raw: &Vec<u32>, output_len: usize) -> (r: Option<Vec<u32>>)
    ensures
        raw.len() >= output_len ==> (r matches Some(out) && out@ == raw@.subrange(
            0,
            output_len as int,
        )),
        raw.len() < output_len ==> r is None,
{
    if raw.len() < output_len {
        return None;
    }
    let mut out: Vec<u32> = Vec::new();
    let mut i: usize = 0;
    while i < output_len
        invariant
            0 <= i <= output_len,
            output_len <= raw.len(),
            out@ =~= raw@.subrange(0, i as int),
        decreases output_len - i,
    {
        out.push(raw[i]);
        i += 1;
    }
    Some(out)
}

/// The run the square entry point performs: `square_kernel` on the whole
/// input, with the output exactly as long as the input. An empty input
/// needs no dispatch.
pub fn prepare_square_run(input_len: usize) -> (r: Option<DispatchRequest>)
    requires
        input_len as int * (BYTES_PER_ELEMENT as int) <= u64::MAX,
    ensures
        input_len == 0 ==> r is None,
        input_len > 0 ==> r == Some(
            spec_request(KernelId::Square, input_len as int, input_len as int),
        ),
        input_len > 0 ==> (r matches Some(req) && req.kernel == KernelId::Square
            && req.input_len == input_len && req.output_len == input_len),
{
    match prepare_run(KernelId::Square.name(), input_len, input_len) {
        Ok(req) => req,
        Err(_) => None,
    }
}

/// The run the cube entry point performs: `cube_kernel` on the whole
/// input, with the output exactly as long as the input. An empty input
/// needs no dispatch.
pub fn prepare_cube_run(input_len: usize) -> (r: Option<DispatchRequest>)
    requires
        input_len as int * (BYTES_PER_ELEMENT as int) <= u64::MAX,
    ensures
        input_len == 0 ==> r is None,
        input_len > 0 ==> r == Some(
            spec_request(KernelId::Cube, input_len as int, input_len as int),
        ),
        input_len > 0 ==> (r matches Some(req) && req.kernel == KernelId::Cube
            && req.input_len == input_len && req.output_len == input_len),
{
    proof {
        reveal_strlit("square_kernel");
        reveal_strlit("cube_kernel");
        assert("square_kernel"@.len() == 13);
        assert("cube_kernel"@.len() == 11);
        assert("cube_kernel"@ != "square_kernel"@);
    }
    match prepare_run(KernelId::Cube.name(), input_len, input_len) {
        Ok(req) => req,
        Err(_) => None,
    }
}

/// Preparing the same run twice decides the same thing: the request is a
/// function of the kernel name and the two lengths alone, so two runs of
/// one kernel on one input are dispatched identically.
pub proof fn lemma_prepare_deterministic(
    name: Seq<char>,
    input_len: int,
    output_len: int,
    r1: Result<Option<DispatchRequest>, DispatchError>,
    r2: Result<Option<DispatchRequest>, DispatchError>,
)
    requires
        r1 == spec_prepare(name, input_len, output_len),
        r2 == spec_prepare(name, input_len, output_len),
    ensures
        r1 == r2,
{
}

/// An empty output dispatches nothing: with a known kernel name and an
/// empty output, preparation asks for no GPU work at all.
pub proof fn lemma_empty_run_dispatches_nothing(name: Seq<char>, input_len: int)
    requires
        spec_lookup(name) is Ok,
    ensures
        spec_prepare(name, input_len, 0) == Ok::<Option<DispatchRequest>, DispatchError>(None),
{
}

/// An unregistered kernel name is rejected with `KernelNotFound`, whatever
/// the lengths: no request, and so no array, ever comes out of it.
pub proof fn lemma_unknown_kernel_rejected(name: Seq<char>, input_len: int, output_len: int)
    requires
        spec_lookup(name) is Err,
    ensures
        spec_prepare(name, input_len, output_len) == Err::<
            Option<DispatchRequest>,
            DispatchError,
        >(DispatchError::KernelNotFound),
{
}

/// The output length is the caller's, never the grid's: a prepared request
/// carries `output_len` itself and sizes the output buffer to it, while
/// the grid may cover up to one group more; rounding the group count up
/// never rounds the output.
pub proof fn lemma_output_length_exact(name: Seq<char>, input_len: int, output_len: int)
    requires
        0 < output_len <= usize::MAX as int,
        0 <= input_len <= usize::MAX as int,
        input_len * (BYTES_PER_ELEMENT as int) <= u64::MAX,
        output_len * (BYTES_PER_ELEMENT as int) <= u64::MAX,
        spec_lookup(name) is Ok,
    ensures
        spec_prepare(name, input_len, output_len) matches Ok(Some(req)) && {
            &&& req.output_len == output_len
            &&& req.output_byte_len == output_len * (BYTES_PER_ELEMENT as int)
            &&& req.grid.thread_count == output_len
            &&& req.grid.group_count * req.grid.group_size >= output_len
            &&& (req.grid.group_count - 1) * req.grid.group_size < output_len
        },
{
    lemma_grid_covers(output_len);
}

} // verus!
