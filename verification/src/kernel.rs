//! Kernel programs and dispatches: assembling a program's source blob from its
//! lines, resolving the build plan for one named entry point with its default
//! global work size, planning a buffer-oriented dispatch, and validating what
//! the device hands back.

use vstd::prelude::*;

use crate::common::{flatten_lines, joined_lines};
use crate::error::SessionError;
use crate::profiling::ProfilingEvent;

verus! {

/// The dimensions of a buffer or image a kernel targets.
#[derive(Clone, Copy, PartialEq, Eq, Structural, Debug)]
pub struct BufferDims {
    pub width: usize,
    pub height: usize,
    pub depth: usize,
}

/// How many work items a dispatch over these dimensions covers.
pub open spec fn work_item_count(d: BufferDims) -> int {
    d.width * d.height * d.depth
}

/// With depth 1, the dispatch grid covers exactly width times height items.
pub proof fn lemma_planar_work_count(d: BufferDims)
    requires
        d.depth == 1,
    ensures
        work_item_count(d) == d.width * d.height,
{
}

/// The build plan of one kernel: the assembled program source, the name of the
/// entry point to resolve, and the default global work size derived from the
/// dimensions of the reference buffer.
pub struct Kernel {
    pub program_source: String,
    pub name: String,
    pub global_work_size: BufferDims,
}

/// `k` is the kernel that building `lines` and resolving `name` over a
/// reference buffer of dimensions `dims` yields.
pub open spec fn built_from(k: Kernel, lines: Seq<Seq<char>>, name: Seq<char>, dims: BufferDims) -> bool {
    &&& k.program_source@ == joined_lines(lines)
    &&& k.name@ == name
    &&& k.global_work_size == dims
}

impl Kernel {
    /// Resolves the build plan of one named entry point: concatenates the
    /// source lines back into a single blob and derives the default global
    /// work size from the reference buffer's dimensions.
    pub fn create(source_lines: &Vec<String>, kernel_name: &str, dims: BufferDims) -> (k: Kernel)
        ensures
            built_from(k, source_lines.deep_view(), kernel_name@, dims),
    {
        Kernel {
            program_source: flatten_lines(source_lines),
            name: String::from_str(kernel_name),
            global_work_size: dims,
        }
    }
}

/// Building the same source twice yields kernels with identical dispatch
/// behavior: the same program source, entry point and global work size. No
/// compiler state is shared between the two builds.
pub proof fn lemma_build_deterministic(
    k1: Kernel,
    k2: Kernel,
    lines: Seq<Seq<char>>,
    name: Seq<char>,
    dims: BufferDims,
)
    requires
        built_from(k1, lines, name, dims),
        built_from(k2, lines, name, dims),
    ensures
        k1.program_source@ == k2.program_source@,
        k1.name@ == k2.name@,
        k1.global_work_size == k2.global_work_size,
{
}

/// The access mode a device memory region is created with.
#[derive(Clone, Copy, PartialEq, Eq, Structural, Debug)]
pub enum AccessMode {
    ReadOnly,
    WriteOnly,
    ReadWrite,
}

/// One device buffer to allocate: its element count and access mode.
#[derive(Clone, Copy, PartialEq, Eq, Structural, Debug)]
pub struct BufferSpec {
    pub len: usize,
    pub mode: AccessMode,
}

/// The plan of one buffer-oriented dispatch: the two buffers to allocate, the
/// element count bound as the kernel's third positional argument, and the
/// one-dimensional global work size.
#[derive(Clone, Copy, PartialEq, Eq, Structural, Debug)]
pub struct DispatchPlan {
    pub input: BufferSpec,
    pub output: BufferSpec,
    pub element_count: usize,
    pub global_work_size: usize,
}

/// The plan a round trip of `input_len` host elements requires: a read-only
/// input and a write-only output buffer of that length, the length bound as
/// the element-count argument, and a work size of one item per element.
pub open spec fn plans_round_trip(p: DispatchPlan, input_len: int) -> bool {
    &&& p.input.len == input_len
    &&& p.input.mode == AccessMode::ReadOnly
    &&& p.output.len == input_len
    &&& p.output.mode == AccessMode::WriteOnly
    &&& p.element_count == input_len
    &&& p.global_work_size == input_len
}

/// Plans a buffer-oriented dispatch over `input_len` host elements.
pub fn plan_buffer_dispatch(input_len: usize) -> (p: DispatchPlan)
    ensures
        plans_round_trip(p, input_len as int),
{
    DispatchPlan {
        input: BufferSpec { len: input_len, mode: AccessMode::ReadOnly },
        output: BufferSpec { len: input_len, mode: AccessMode::WriteOnly },
        element_count: input_len,
        global_work_size: input_len,
    }
}

/// One positional kernel argument of a buffer-oriented dispatch.
#[derive(Clone, Copy, PartialEq, Eq, Structural, Debug)]
pub enum KernelArg {
    InputBuffer,
    OutputBuffer,
    ElementCount(usize),
}

/// The kernel's three positional arguments, in the fixed order the kernel
/// signature declares: input buffer, output buffer, element count.
pub fn positional_args(p: &DispatchPlan) -> (a: Vec<KernelArg>)
    ensures
        a@.len() == 3,
        a@[0] == KernelArg::InputBuffer,
        a@[1] == KernelArg::OutputBuffer,
        a@[2] == KernelArg::ElementCount(p.element_count),
{
    vec![
        KernelArg::InputBuffer,
        KernelArg::OutputBuffer,
        KernelArg::ElementCount(p.element_count),
    ]
}

/// What a completed dispatch hands back to the caller: the host copy of the
/// output buffer and the profiled duration in nanoseconds.
pub struct DispatchOutcome<T> {
    pub output: Vec<T>,
    pub duration_ns: u64,
}

/// Validates what the device returned for a planned dispatch. An enqueue
/// failure, an output of the wrong length, or out-of-order profiling
/// timestamps each abort the invocation with a dispatch error; otherwise the
/// output and the profiled duration are handed back.
pub fn accept_dispatch_result<T>(
    plan: &DispatchPlan,
    device_result: Result<(Vec<T>, ProfilingEvent), String>,
) -> (r: Result<DispatchOutcome<T>, SessionError>)
    ensures
        match device_result {
            Result::Err(msg) => r == Result::<DispatchOutcome<T>, SessionError>::Err(
                SessionError::Dispatch(msg),
            ),
            Result::Ok((out, ev)) => {
                &&& (out@.len() == plan.output.len && ev.is_ordered()) ==> (r matches Result::Ok(o)
                    && o.output == out && o.duration_ns == ev.spec_duration_ns())
                &&& out@.len() != plan.output.len ==> (r matches Result::Err(e)
                    && e matches SessionError::Dispatch(m)
                    && m@ == "Output buffer length does not match the dispatch plan"@)
                &&& (out@.len() == plan.output.len && !ev.is_ordered()) ==> (r matches Result::Err(
                    e,
                ) && e matches SessionError::Dispatch(m)
                    && m@ == "Profiling timestamps are out of order"@)
            },
        },
{
    match device_result {
        Result::Err(msg) => Result::Err(SessionError::Dispatch(msg)),
        Result::Ok((out, ev)) => {
            if out.len() != plan.output.len {
                Result::Err(
                    SessionError::Dispatch(
                        String::from_str("Output buffer length does not match the dispatch plan"),
                    ),
                )
            } else {
                match ev.duration_ns() {
                    Option::Some(d) => Result::Ok(DispatchOutcome { output: out, duration_ns: d }),
                    Option::None => Result::Err(
                        SessionError::Dispatch(
                            String::from_str("Profiling timestamps are out of order"),
                        ),
                    ),
                }
            }
        },
    }
}

/// Round trip: an outcome accepted for a plan over `input_len` host elements
/// carries an output of exactly that length.
pub proof fn lemma_round_trip_preserves_length<T>(
    p: DispatchPlan,
    o: DispatchOutcome<T>,
    input_len: int,
)
    requires
        plans_round_trip(p, input_len),
        o.output@.len() == p.output.len,
    ensures
        o.output@.len() == input_len,
{
}

} // verus!
