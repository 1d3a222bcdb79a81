//! The fence-guarded command-submission protocol.
//!
//! Each reusable command buffer is paired with one fence. A submission cycle
//! is: wait on the fence until the previous submission has completed, reset
//! the fence, reset the command buffer, record, then submit with the fence
//! attached so that it signals again when the new work completes. The same
//! cycle serves the one-shot setup submissions and the repeating per-frame
//! draw submission. The invariant the protocol lives by: a command buffer is
//! never reset or re-recorded while its fence is unsignaled, because the
//! device may still be reading it.

use vstd::prelude::*;

verus! {

/// The completion state of a fence: signaled once the command sequence it
/// was submitted with has finished executing on the device.
#[derive(Clone, Copy, PartialEq, Eq, Structural, Debug)]
pub enum FenceStatus {
    Signaled,
    Unsignaled,
}

/// Where a reusable command buffer stands in its submission cycle.
#[derive(Clone, Copy, PartialEq, Eq, Structural, Debug)]
pub enum SubmissionPhase {
    /// No submission outstanding: the buffer may be reset and re-recorded.
    Idle,
    /// Submitted, and the device may still be executing it.
    InFlight,
}

/// One command buffer together with the fence that guards its reuse.
#[derive(Clone, Copy, PartialEq, Eq, Structural, Debug)]
pub struct CommandContext {
    pub fence: FenceStatus,
    pub phase: SubmissionPhase,
}

/// Whether the protocol permits resetting and re-recording the command
/// buffer right now.
pub open spec fn reset_allowed(ctx: CommandContext) -> bool {
    ctx.fence == FenceStatus::Signaled
}

impl CommandContext {
    /// The context is idle exactly when its fence is signaled: the fence is
    /// the one witness by which the host learns that the device is done.
    pub open spec fn wf(self) -> bool {
        self.phase == SubmissionPhase::Idle <==> self.fence == FenceStatus::Signaled
    }

    /// A fresh context: its fence is created already signaled so that the
    /// very first cycle does not wait forever.
    pub fn new() -> (r: CommandContext)
        ensures
            r.wf(),
            r.fence == FenceStatus::Signaled,
            r.phase == SubmissionPhase::Idle,
    {
        CommandContext { fence: FenceStatus::Signaled, phase: SubmissionPhase::Idle }
    }

    /// Blocks until the fence is signaled (the wait-forever policy: a hung
    /// device call is never locally recovered). Afterwards the previous
    /// submission has completed and the buffer is idle.
    pub fn wait_fence(&mut self)
        requires
            old(self).wf(),
        ensures
            final(self).wf(),
            final(self).fence == FenceStatus::Signaled,
            final(self).phase == SubmissionPhase::Idle,
    {
        self.fence = FenceStatus::Signaled;
        self.phase = SubmissionPhase::Idle;
    }

    /// Resets the fence and the command buffer, records new commands, and
    /// submits them with the fence attached. Only an idle context — one
    /// whose fence is signaled — may enter this step; the waiting is the
    /// caller's (or `run_submission_cycle`'s) duty.
    pub fn reset_record_submit(&mut self)
        requires
            old(self).wf(),
            reset_allowed(*old(self)),
        ensures
            final(self).wf(),
            final(self).fence == FenceStatus::Unsignaled,
            final(self).phase == SubmissionPhase::InFlight,
    {
        self.fence = FenceStatus::Unsignaled;
        self.phase = SubmissionPhase::InFlight;
    }

    /// One whole submission cycle: wait on the fence, then reset, record and
    /// submit. Callable in any well-formed state; the wait makes the reset
    /// lawful.
    pub fn run_submission_cycle(&mut self)
        requires
            old(self).wf(),
        ensures
            final(self).wf(),
            final(self).fence == FenceStatus::Unsignaled,
            final(self).phase == SubmissionPhase::InFlight,
    {
        self.wait_fence();
        self.reset_record_submit();
    }
}

/// A command buffer whose fence is signaled may always be reset and
/// re-recorded, and one that is in flight — whose fence is unsignaled —
/// never may: the protocol admits the reset in exactly the signaled states.
pub proof fn lemma_reset_safety(ctx: CommandContext)
    requires
        ctx.wf(),
    ensures
        reset_allowed(ctx) <==> ctx.fence == FenceStatus::Signaled,
        ctx.phase == SubmissionPhase::InFlight ==> !reset_allowed(ctx),
        ctx.phase == SubmissionPhase::Idle ==> reset_allowed(ctx),
{
}

} // verus!
