//! The frame-lifecycle state machine: acquire a presentable image,
//! record, submit, present, and classify failures.
//!
//! The device itself is outside: each step takes the device's outcome as
//! a value and the machine decides the next state and what the caller
//! must do — retry after a rebuild, proceed, or stop. One frame's work
//! is outstanding at a time: the machine returns to idle only when the
//! device reports completion.

use vstd::prelude::*;

verus! {

/// Why a frame could not be drawn. The first variant is recoverable by
/// rebuilding the surface-sized resources; the other two are fatal.
#[derive(Clone, Copy, Debug, PartialEq, Eq, Structural)]
pub enum DrawError {
    RecreationRequired,
    AcquisitionFailed,
    ExecutionFailed,
}

/// An event handed to the renderer from the window layer.
#[derive(Clone, Copy, Debug, PartialEq, Eq)]
pub enum RendererIncomingEvent {
    ExtentChange([u32; 2]),
}

/// What the device reported for an image-acquire request. `Ready` carries
/// the index of the acquired image; `Suboptimal` means the image works
/// but no longer matches the surface; `OutOfDate` means it cannot be
/// presented at all.
#[derive(Clone, Copy, Debug, PartialEq, Eq, Structural)]
pub enum AcquireOutcome {
    Ready { image_index: u32 },
    Suboptimal { image_index: u32 },
    OutOfDate,
    OtherError,
}

/// What the device reported for a queue submission.
#[derive(Clone, Copy, Debug, PartialEq, Eq, Structural)]
pub enum SubmitOutcome {
    Enqueued,
    Failed,
}

/// What the device reported for a present request and the wait for
/// completion.
#[derive(Clone, Copy, Debug, PartialEq, Eq, Structural)]
pub enum PresentOutcome {
    Completed,
    OutOfDate,
    OtherError,
}

/// Where the scheduler stands in the frame cycle. `RecreatePending`
/// records that the surface was found stale or resized and the
/// surface-sized resources must be rebuilt before the next acquire.
#[derive(Clone, Copy, Debug, PartialEq, Eq, Structural)]
pub enum FrameState {
    Idle,
    Recording { image_index: u32 },
    Submitted { image_index: u32 },
    RecreatePending,
}

/// The classification of the combined submit-present-wait path: a stale
/// surface asks for a rebuild, everything else that fails is fatal.
pub open spec fn spec_classify_present(o: PresentOutcome) -> Result<(), DrawError> {
    match o {
        PresentOutcome::Completed => Ok(()),
        PresentOutcome::OutOfDate => Err(DrawError::RecreationRequired),
        PresentOutcome::OtherError => Err(DrawError::ExecutionFailed),
    }
}

/// The classification of an acquire outcome: a suboptimal or out-of-date
/// surface asks for a rebuild, any other failure is fatal, success hands
/// back the image index.
pub open spec fn spec_classify_acquire(o: AcquireOutcome) -> Result<u32, DrawError> {
    match o {
        AcquireOutcome::Ready { image_index } => Ok(image_index),
        AcquireOutcome::Suboptimal { .. } => Err(DrawError::RecreationRequired),
        AcquireOutcome::OutOfDate => Err(DrawError::RecreationRequired),
        AcquireOutcome::OtherError => Err(DrawError::AcquisitionFailed),
    }
}

/// Classifies an acquire outcome, exactly as the frame scheduler does.
pub fn classify_acquire(o: AcquireOutcome) -> (r: Result<u32, DrawError>)
    ensures
        r == spec_classify_acquire(o),
{
    match o {
        AcquireOutcome::Ready { image_index } => Ok(image_index),
        AcquireOutcome::Suboptimal { .. } => Err(DrawError::RecreationRequired),
        AcquireOutcome::OutOfDate => Err(DrawError::RecreationRequired),
        AcquireOutcome::OtherError => Err(DrawError::AcquisitionFailed),
    }
}

/// Classifies the outcome of the submit-present-wait path.
pub fn classify_present(o: PresentOutcome) -> (r: Result<(), DrawError>)
    ensures
        r == spec_classify_present(o),
{
    match o {
        PresentOutcome::Completed => Ok(()),
        PresentOutcome::OutOfDate => Err(DrawError::RecreationRequired),
        PresentOutcome::OtherError => Err(DrawError::ExecutionFailed),
    }
}

/// The acquire-record-submit-present cycle as a machine over device
/// outcomes.
pub struct FrameScheduler {
    state: FrameState,
}

impl FrameScheduler {
    /// The current state.
    pub closed spec fn spec_state(&self) -> FrameState {
        self.state
    }

    /// A scheduler with no frame in flight.
    pub fn new() -> (s: FrameScheduler)
        ensures
            s.spec_state() == FrameState::Idle,
    {
        FrameScheduler { state: FrameState::Idle }
    }

    /// Reads the current state.
    pub fn state(&self) -> (r: FrameState)
        ensures
            r == self.spec_state(),
    {
        self.state
    }

    /// Feeds the outcome of an image acquire. On success the machine
    /// advances to recording that image; a stale surface parks it in
    /// `RecreatePending`; a fatal failure leaves it idle, and the caller
    /// gets the classification either way.
    pub fn acquire(&mut self, outcome: AcquireOutcome) -> (r: Result<u32, DrawError>)
        requires
            old(self).spec_state() == FrameState::Idle,
        ensures
            r == spec_classify_acquire(outcome),
            final(self).spec_state() == (match outcome {
                AcquireOutcome::Ready { image_index } => FrameState::Recording { image_index },
                AcquireOutcome::Suboptimal { .. } => FrameState::RecreatePending,
                AcquireOutcome::OutOfDate => FrameState::RecreatePending,
                AcquireOutcome::OtherError => FrameState::Idle,
            }),
    {
        match outcome {
            AcquireOutcome::Ready { image_index } => {
                self.state = FrameState::Recording { image_index };
                Ok(image_index)
            },
            AcquireOutcome::Suboptimal { .. } => {
                self.state = FrameState::RecreatePending;
                Err(DrawError::RecreationRequired)
            },
            AcquireOutcome::OutOfDate => {
                self.state = FrameState::RecreatePending;
                Err(DrawError::RecreationRequired)
            },
            AcquireOutcome::OtherError => Err(DrawError::AcquisitionFailed),
        }
    }

    /// Feeds the outcome of submitting the recorded work for the acquired
    /// image. Success moves the frame to the submitted stage; a failed
    /// submission is fatal and returns the machine to idle.
    pub fn submit(&mut self, outcome: SubmitOutcome) -> (r: Result<(), DrawError>)
        requires
            old(self).spec_state() matches FrameState::Recording { .. },
        ensures
            r == (match outcome {
                SubmitOutcome::Enqueued => Ok::<(), DrawError>(()),
                SubmitOutcome::Failed => Err::<(), DrawError>(DrawError::ExecutionFailed),
            }),
            final(self).spec_state() == (match outcome {
                SubmitOutcome::Enqueued => FrameState::Submitted {
                    image_index: old(self).spec_state()->Recording_image_index,
                },
                SubmitOutcome::Failed => FrameState::Idle,
            }),
    {
        let image_index = match self.state {
            FrameState::Recording { image_index } => image_index,
            _ => {
                proof {
                    assert(false);
                }
                0
            },
        };
        match outcome {
            SubmitOutcome::Enqueued => {
                self.state = FrameState::Submitted { image_index };
                Ok(())
            },
            SubmitOutcome::Failed => {
                self.state = FrameState::Idle;
                Err(DrawError::ExecutionFailed)
            },
        }
    }

    /// Feeds the outcome of presenting the submitted image and waiting
    /// for completion. Completion closes the cycle back to idle; a stale
    /// surface parks the machine for a rebuild; any other failure is
    /// fatal and returns it to idle.
    pub fn present(&mut self, outcome: PresentOutcome) -> (r: Result<(), DrawError>)
        requires
            old(self).spec_state() matches FrameState::Submitted { .. },
        ensures
            r == spec_classify_present(outcome),
            final(self).spec_state() == (match outcome {
                PresentOutcome::Completed => FrameState::Idle,
                PresentOutcome::OutOfDate => FrameState::RecreatePending,
                PresentOutcome::OtherError => FrameState::Idle,
            }),
    {
        match outcome {
            PresentOutcome::Completed => {
                self.state = FrameState::Idle;
                Ok(())
            },
            PresentOutcome::OutOfDate => {
                self.state = FrameState::RecreatePending;
                Err(DrawError::RecreationRequired)
            },
            PresentOutcome::OtherError => {
                self.state = FrameState::Idle;
                Err(DrawError::ExecutionFailed)
            },
        }
    }

    /// A resize notification short-circuits the cycle: whatever was in
    /// flight, the surface-sized resources must be rebuilt before the
    /// next acquire.
    pub fn notify_resize(&mut self)
        ensures
            final(self).spec_state() == FrameState::RecreatePending,
    {
        self.state = FrameState::RecreatePending;
    }

    /// The caller finished rebuilding swapchain, pipeline and command
    /// buffers, in that order; the machine may acquire again.
    pub fn mark_rebuilt(&mut self)
        requires
            old(self).spec_state() == FrameState::RecreatePending,
        ensures
            final(self).spec_state() == FrameState::Idle,
    {
        self.state = FrameState::Idle;
    }
}

} // verus!
