//! Compute-context and command-queue planning: binding the selected device,
//! optionally with graphics-interop properties, and requesting a profiling
//! queue. The platform calls that realize a plan happen outside this crate;
//! the plan itself pins every choice.

use vstd::prelude::*;

use crate::device::{find_most_capable_device, is_selected, DeviceProfile};
use crate::error::SessionError;

verus! {

/// An opaque native handle (a window's graphics context or device context).
/// The core never interprets its bits; it only forwards them to the boundary
/// call that builds an interop context.
#[derive(Clone, Copy, PartialEq, Eq, Structural, Debug)]
pub struct NativeHandle {
    pub bits: usize,
}

/// The platform-specific sharing properties of an interop context: the native
/// graphics-context handle and the native device-context handle of an
/// already-created graphics window.
#[derive(Clone, Copy, PartialEq, Eq, Structural, Debug)]
pub struct InteropProperties {
    pub gl_context: NativeHandle,
    pub device_context: NativeHandle,
}

/// How a compute context is built: from the device alone, or sharing state
/// with a graphics context.
#[derive(Clone, Copy, PartialEq, Eq, Structural, Debug)]
pub enum ContextMode {
    Standalone,
    Interop(InteropProperties),
}

/// A compute context bound to the one selected device, with the mode it was
/// built in.
pub struct ComputeContext {
    pub device: DeviceProfile,
    pub mode: ContextMode,
}

impl Clone for ComputeContext {
    fn clone(&self) -> (res: Self)
        ensures
            res == *self,
    {
        ComputeContext { device: self.device.clone(), mode: self.mode }
    }
}

/// Builds the context plan for a device: standalone without interop
/// properties, interop with the given handles forwarded verbatim.
pub fn build_context(device: DeviceProfile, interop: Option<InteropProperties>) -> (c:
    ComputeContext)
    ensures
        c.device == device,
        match interop {
            Option::Some(p) => c.mode == ContextMode::Interop(p),
            Option::None => c.mode == ContextMode::Standalone,
        },
{
    match interop {
        Option::Some(p) => ComputeContext { device, mode: ContextMode::Interop(p) },
        Option::None => ComputeContext { device, mode: ContextMode::Standalone },
    }
}

/// An ordered execution channel bound to exactly one context (and through it,
/// one device). Owning the context, it cannot outlive it. When `profiling` is
/// set, every enqueued operation records start/end device timestamps.
pub struct CommandQueue {
    pub context: ComputeContext,
    pub profiling: bool,
}

impl CommandQueue {
    /// Binds a queue to a context, optionally requesting profiling.
    pub fn new(context: ComputeContext, profiling: bool) -> (q: CommandQueue)
        ensures
            q.context == context,
            q.profiling == profiling,
    {
        CommandQueue { context, profiling }
    }

    /// The device this queue is bound to.
    pub fn device(&self) -> (d: &DeviceProfile)
        ensures
            *d == self.context.device,
    {
        &self.context.device
    }
}

/// Plans the whole compute setup from an enumeration outcome: selects the most
/// capable device, builds the context plan (interop when window handles are
/// given), and binds a queue to it. Fails with [`SessionError::NoDevice`]
/// exactly when enumeration failed or listed no device.
pub fn plan_compute_setup(
    enumeration: Option<Vec<DeviceProfile>>,
    interop: Option<InteropProperties>,
    profiling: bool,
) -> (r: Result<CommandQueue, SessionError>)
    ensures
        match r {
            Result::Err(e) => {
                &&& e == SessionError::NoDevice
                &&& match enumeration {
                    Option::None => true,
                    Option::Some(list) => list@.len() == 0,
                }
            },
            Result::Ok(q) => {
                &&& match enumeration {
                    Option::None => false,
                    Option::Some(list) => exists|i: int|
                        #[trigger] is_selected(list@, i) && q.context.device == list@[i],
                }
                &&& match interop {
                    Option::Some(p) => q.context.mode == ContextMode::Interop(p),
                    Option::None => q.context.mode == ContextMode::Standalone,
                }
                &&& q.profiling == profiling
            },
        },
{
    match find_most_capable_device(enumeration) {
        Option::None => Result::Err(SessionError::NoDevice),
        Option::Some(device) => {
            let context = build_context(device, interop);
            Result::Ok(CommandQueue::new(context, profiling))
        },
    }
}

} // verus!
