//! The shared surface: a 2D image resource visible to both the rasterizer and
//! the compute engine. Creating it and handing it between the two pipelines
//! are platform calls made outside this crate; here stand the descriptor the
//! creation call needs and the explicit, ordered, fail-fast protocol that
//! drives one compute pass over the surface.

use vstd::prelude::*;

verus! {

/// The descriptor of a 2D shared surface: width and height of the image, with
/// a depth of one.
#[derive(Clone, Copy, PartialEq, Eq, Structural, Debug)]
pub struct SurfaceDescriptor {
    pub width: usize,
    pub height: usize,
    pub depth: usize,
}

/// Builds the descriptor for a 2D surface of the given size.
pub fn surface_descriptor(width: usize, height: usize) -> (d: SurfaceDescriptor)
    ensures
        d.width == width,
        d.height == height,
        d.depth == 1,
{
    SurfaceDescriptor { width, height, depth: 1 }
}

/// Who holds the surface: released to the graphics pipeline, or acquired for
/// exclusive compute access.
#[derive(Clone, Copy, PartialEq, Eq, Structural, Debug)]
pub enum SurfaceState {
    Released,
    Acquired,
}

/// Where one compute pass over the surface stands: which step is owed next, or
/// how the pass ended.
#[derive(Clone, Copy, PartialEq, Eq, Structural, Debug)]
pub enum PassStep {
    NeedAcquire,
    NeedDispatch,
    NeedRelease,
    Finished,
    Failed,
}

/// What the driver of a pass must do next.
#[derive(Clone, Copy, PartialEq, Eq, Structural, Debug)]
pub enum SurfaceAction {
    Acquire,
    Dispatch,
    Release,
    Stop,
}

/// One compute pass over the shared surface: acquire, dispatch, release, in
/// that order, each step waited on before the next. A failure at any step
/// aborts the whole pass, and an acquired surface is released on every path.
pub struct SurfacePass {
    pub surface: SurfaceState,
    pub step: PassStep,
    pub failed: bool,
}

impl SurfacePass {
    /// The pass invariant: the surface is acquired exactly between a completed
    /// acquire and a completed release, and a finished pass saw no failure.
    pub open spec fn wf(&self) -> bool {
        &&& (self.step == PassStep::NeedDispatch || self.step == PassStep::NeedRelease
            <==> self.surface == SurfaceState::Acquired)
        &&& (self.step == PassStep::Finished ==> !self.failed)
    }

    /// Whether the pass has ended, well or badly.
    pub open spec fn is_terminal(&self) -> bool {
        self.step == PassStep::Finished || self.step == PassStep::Failed
    }

    /// Starts a pass: the surface is with the graphics pipeline and an acquire
    /// is owed first.
    pub fn begin() -> (p: SurfacePass)
        ensures
            p.wf(),
            p.step == PassStep::NeedAcquire,
            p.surface == SurfaceState::Released,
            !p.failed,
    {
        SurfacePass { surface: SurfaceState::Released, step: PassStep::NeedAcquire, failed: false }
    }

    /// The action the driver must perform (and wait on) next.
    pub fn next_action(&self) -> (a: SurfaceAction)
        ensures
            a == match self.step {
                PassStep::NeedAcquire => SurfaceAction::Acquire,
                PassStep::NeedDispatch => SurfaceAction::Dispatch,
                PassStep::NeedRelease => SurfaceAction::Release,
                PassStep::Finished => SurfaceAction::Stop,
                PassStep::Failed => SurfaceAction::Stop,
            },
    {
        match self.step {
            PassStep::NeedAcquire => SurfaceAction::Acquire,
            PassStep::NeedDispatch => SurfaceAction::Dispatch,
            PassStep::NeedRelease => SurfaceAction::Release,
            PassStep::Finished => SurfaceAction::Stop,
            PassStep::Failed => SurfaceAction::Stop,
        }
    }

    /// Advances the pass once the pending step has completed (`ok`) or failed.
    /// A failed acquire ends the pass at once; a failed dispatch still owes the
    /// release; after the release the surface is back with the graphics
    /// pipeline whatever happened.
    pub fn on_step_completed(&mut self, ok: bool)
        requires
            old(self).wf(),
            !old(self).is_terminal(),
        ensures
            final(self).wf(),
            final(self).failed == (old(self).failed || !ok),
            old(self).step == PassStep::NeedAcquire && ok ==> final(self).step
                == PassStep::NeedDispatch && final(self).surface == SurfaceState::Acquired,
            old(self).step == PassStep::NeedAcquire && !ok ==> final(self).step == PassStep::Failed
                && final(self).surface == SurfaceState::Released,
            old(self).step == PassStep::NeedDispatch ==> final(self).step == PassStep::NeedRelease
                && final(self).surface == SurfaceState::Acquired,
            old(self).step == PassStep::NeedRelease ==> final(self).surface
                == SurfaceState::Released && final(self).step == (
            if ok && !old(self).failed {
                PassStep::Finished
            } else {
                PassStep::Failed
            }),
    {
        if !ok {
            self.failed = true;
        }
        match self.step {
            PassStep::NeedAcquire => {
                if ok {
                    self.surface = SurfaceState::Acquired;
                    self.step = PassStep::NeedDispatch;
                } else {
                    self.step = PassStep::Failed;
                }
            },
            PassStep::NeedDispatch => {
                self.step = PassStep::NeedRelease;
            },
            PassStep::NeedRelease => {
                self.surface = SurfaceState::Released;
                self.step = if self.failed {
                    PassStep::Failed
                } else {
                    PassStep::Finished
                };
            },
            PassStep::Finished => {},
            PassStep::Failed => {},
        }
    }
}

/// However a pass ends, the surface is back with the graphics pipeline: no
/// error path leaves it acquired.
pub proof fn lemma_terminal_means_released(p: SurfacePass)
    requires
        p.wf(),
        p.is_terminal(),
    ensures
        p.surface == SurfaceState::Released,
{
}

/// While the surface is acquired, the pass still owes a dispatch or a release:
/// no pass abandons an acquired surface.
pub proof fn lemma_acquired_owes_release(p: SurfacePass)
    requires
        p.wf(),
        p.surface == SurfaceState::Acquired,
    ensures
        p.step == PassStep::NeedDispatch || p.step == PassStep::NeedRelease,
{
}

} // verus!
