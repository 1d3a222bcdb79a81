//! The frame loop: acquire, record, submit, present — and invalidation.
//!
//! One engine value owns the surface-dependent resources, the per-image
//! uniform slots, and the two fence-guarded command contexts (the repeating
//! draw submission and the one-shot setup submission). Each frame runs the
//! same cycle: rebuild the resource set when the invalidation flag is up,
//! wait on the previous frame's draw fence, consume the acquire outcome,
//! write the camera-derived uniform payload into the acquired image's slot,
//! record and submit the draw, and consume the present outcome. The shell
//! performs the driver calls between these steps and feeds their outcomes
//! in as plain values; any driver result other than the two recoverable
//! resize conditions is fatal in the shell and never reaches the engine.

use vstd::prelude::*;

use crate::buffer::{Buffer, BufferUsage, MemoryProperties};
use crate::resources::{ResourceSet, spec_resource_set};
use crate::swapchain::{
    Extent2D, PresentMode, SurfaceCapabilities, SurfaceFormat, SwapchainPlan, plan_swapchain,
    spec_plan_swapchain,
};
use crate::sync::{CommandContext, FenceStatus, SubmissionPhase};

verus! {

/// One uniform record: a model, a view and a projection matrix of sixteen
/// 32-bit components each, carried as raw words.
pub const UNIFORM_WORDS: usize = 48;

/// How many frames may be in flight at once. The draw fence is waited at
/// the top of every frame, so one; raising this would add a fence and a
/// uniform slot per extra frame.
pub const FRAMES_IN_FLIGHT: u64 = 1;

/// The synchronization slot a frame uses: frames cycle through the
/// `FRAMES_IN_FLIGHT` slots in order, which with a single slot is always
/// slot zero. Kept as its own rule so that deeper buffering stays a
/// bounded, local change.
pub fn frame_slot(frame_number: u64) -> (r: u64)
    ensures
        r == frame_number as int % FRAMES_IN_FLIGHT as int,
        r < FRAMES_IN_FLIGHT,
{
    frame_number % FRAMES_IN_FLIGHT
}

/// What acquiring the next presentable image came to. A driver error other
/// than these is fatal in the shell and never reaches the engine.
#[derive(Clone, Copy, PartialEq, Eq, Structural, Debug)]
pub enum AcquireOutcome {
    /// An image was acquired; `suboptimal` asks for a rebuild after this
    /// frame is still drawn.
    Success { image_index: usize, suboptimal: bool },
    /// The swapchain no longer matches the surface: nothing was acquired
    /// and this frame is skipped.
    OutOfDate,
}

/// What presenting the drawn image came to.
#[derive(Clone, Copy, PartialEq, Eq, Structural, Debug)]
pub enum PresentOutcome {
    /// The image was queued for presentation; `suboptimal` asks for a
    /// rebuild before the next frame.
    Presented { suboptimal: bool },
    /// The swapchain no longer matches the surface; the next frame rebuilds.
    OutOfDate,
}

/// How a frame ended.
#[derive(Clone, Copy, PartialEq, Eq, Structural, Debug)]
pub enum FrameResult {
    /// The frame was drawn and queued for presentation into this image.
    Drawn { image_index: usize },
    /// Acquiring failed out-of-date: nothing was drawn or presented.
    SkippedOutOfDate,
}

/// Everything a rebuild of the surface-dependent resources consumes: the
/// freshly queried surface answers, the window's pixel size, and how many
/// presentable images the driver realized for the new swapchain.
pub struct RebuildInputs {
    pub caps: SurfaceCapabilities,
    pub window_extent: Extent2D,
    pub formats: Vec<SurfaceFormat>,
    pub modes: Vec<PresentMode>,
    pub realized_image_count: usize,
}

impl RebuildInputs {
    /// What any real surface query satisfies: at least one supported
    /// format, a realizable image count, and a minimum bound the desired
    /// count can exceed by one.
    pub open spec fn valid(self) -> bool {
        &&& self.caps.min_image_count < u32::MAX
        &&& self.formats@.len() > 0
        &&& self.realized_image_count >= 1
    }

    /// The swapchain plan these inputs determine.
    pub open spec fn spec_plan(self) -> SwapchainPlan {
        spec_plan_swapchain(self.caps, self.window_extent, self.formats@, self.modes@)
    }
}

/// A uniform slot as the engine keeps one per presentable image: a
/// host-visible, host-coherent, persistently mapped uniform buffer holding
/// one uniform record.
pub open spec fn spec_uniform_slot_wf(b: Buffer<u32>) -> bool {
    &&& b.wf()
    &&& b.usage.uniform
    &&& b.properties.host_visible
    &&& b.properties.host_coherent
    &&& b.persistently_mapped
    &&& b.capacity == UNIFORM_WORDS
}

/// The usage of a uniform slot.
fn uniform_slot_usage() -> (r: BufferUsage)
    ensures
        r == (BufferUsage {
            transfer_src: false,
            transfer_dst: false,
            vertex: false,
            index: false,
            uniform: true,
        }),
{
    BufferUsage { transfer_src: false, transfer_dst: false, vertex: false, index: false, uniform: true }
}

/// One fresh uniform slot per presentable image, none written yet.
fn make_uniform_slots(count: usize) -> (r: Vec<Buffer<u32>>)
    ensures
        r@.len() == count,
        forall|i: int| 0 <= i < count ==> spec_uniform_slot_wf(#[trigger] r@[i]),
        forall|i: int| 0 <= i < count ==> (#[trigger] r@[i]).contents@.len() == 0,
{
    let mut slots: Vec<Buffer<u32>> = Vec::new();
    let mut i: usize = 0;
    while i < count
        invariant
            i <= count,
            slots@.len() == i,
            forall|j: int| 0 <= j < i ==> spec_uniform_slot_wf(#[trigger] slots@[j]),
            forall|j: int| 0 <= j < i ==> (#[trigger] slots@[j]).contents@.len() == 0,
        decreases count - i,
    {
        let slot = Buffer::<u32>::new(
            UNIFORM_WORDS,
            uniform_slot_usage(),
            MemoryProperties { host_visible: true, host_coherent: true, device_local: false },
            true,
        );
        slots.push(slot);
        i = i + 1;
    }
    slots
}

/// The engine: the surface-dependent resources, the per-image uniform
/// slots, the two command contexts, and the invalidation flag raised by a
/// resize event or by a suboptimal or out-of-date acquire or present.
pub struct FrameEngine {
    /// Raised when the surface-dependent resources must be rebuilt before
    /// the next frame draws.
    pub resize_dependent_component_rebuild_needed: bool,
    pub resources: ResourceSet,
    /// One uniform slot per presentable image, indexed by the acquired
    /// image index.
    pub uniform_slots: Vec<Buffer<u32>>,
    /// The repeating per-frame draw submission.
    pub draw_commands: CommandContext,
    /// The one-shot setup submission reused for uploads and layout
    /// transitions.
    pub setup_commands: CommandContext,
}

impl FrameEngine {
    /// The engine's invariant: the resource set is coherent, there are
    /// exactly as many uniform slots as presentable images — the arrays
    /// indexed by the acquired image index never fall out of step — and
    /// both command contexts obey the fence protocol.
    pub open spec fn wf(self) -> bool {
        &&& self.resources.wf()
        &&& self.uniform_slots@.len() == self.resources.image_count
        &&& forall|i: int| 0 <= i < self.uniform_slots@.len()
            ==> spec_uniform_slot_wf(#[trigger] self.uniform_slots@[i])
        &&& self.draw_commands.wf()
        &&& self.setup_commands.wf()
    }

    /// Brings the engine up around a created swapchain: fresh uniform
    /// slots for each realized image, both fences signaled, and no rebuild
    /// pending.
    pub fn new(plan: SwapchainPlan, realized_image_count: usize) -> (r: FrameEngine)
        requires
            realized_image_count >= 1,
        ensures
            r.wf(),
            !r.resize_dependent_component_rebuild_needed,
            r.resources == spec_resource_set(plan, realized_image_count),
            r.uniform_slots@.len() == realized_image_count,
            forall|i: int| 0 <= i < realized_image_count
                ==> (#[trigger] r.uniform_slots@[i]).contents@.len() == 0,
            r.draw_commands
                == (CommandContext { fence: FenceStatus::Signaled, phase: SubmissionPhase::Idle }),
            r.setup_commands
                == (CommandContext { fence: FenceStatus::Signaled, phase: SubmissionPhase::Idle }),
    {
        FrameEngine {
            resize_dependent_component_rebuild_needed: false,
            resources: ResourceSet::new(plan, realized_image_count),
            uniform_slots: make_uniform_slots(realized_image_count),
            draw_commands: CommandContext::new(),
            setup_commands: CommandContext::new(),
        }
    }

    /// The resize signal from the windowing shell: the next frame rebuilds
    /// before drawing. Nothing else changes.
    pub fn on_resize(&mut self)
        requires
            old(self).wf(),
        ensures
            final(self).wf(),
            *final(self) == (FrameEngine {
                resize_dependent_component_rebuild_needed: true,
                ..*old(self)
            }),
    {
        self.resize_dependent_component_rebuild_needed = true;
    }

    /// Supersedes the surface-dependent generation: the shell has waited
    /// the device idle, destroyed the old generation, created a swapchain
    /// from `plan` and seen the driver realize `realized_image_count`
    /// images. The uniform slots are rebuilt to the new count, the depth
    /// buffer's layout transition runs as one setup submission, and the
    /// rebuild flag comes down.
    pub fn install_resources(&mut self, plan: SwapchainPlan, realized_image_count: usize)
        requires
            old(self).wf(),
            realized_image_count >= 1,
        ensures
            final(self).wf(),
            !final(self).resize_dependent_component_rebuild_needed,
            final(self).resources == spec_resource_set(plan, realized_image_count),
            final(self).uniform_slots@.len() == realized_image_count,
            forall|i: int| 0 <= i < realized_image_count
                ==> (#[trigger] final(self).uniform_slots@[i]).contents@.len() == 0,
            final(self).draw_commands == old(self).draw_commands,
            final(self).setup_commands.phase == SubmissionPhase::InFlight,
            final(self).setup_commands.fence == FenceStatus::Unsignaled,
    {
        self.resources = ResourceSet::new(plan, realized_image_count);
        self.uniform_slots = make_uniform_slots(realized_image_count);
        self.setup_commands.run_submission_cycle();
        self.resize_dependent_component_rebuild_needed = false;
    }

    /// Plans the new swapchain from the queried surface answers and
    /// supersedes the generation in one step.
    pub fn rebuild_resources(&mut self, inputs: &RebuildInputs)
        requires
            old(self).wf(),
            inputs.valid(),
        ensures
            final(self).wf(),
            !final(self).resize_dependent_component_rebuild_needed,
            final(self).resources
                == spec_resource_set(inputs.spec_plan(), inputs.realized_image_count),
            final(self).uniform_slots@.len() == inputs.realized_image_count,
            forall|i: int| 0 <= i < inputs.realized_image_count
                ==> (#[trigger] final(self).uniform_slots@[i]).contents@.len() == 0,
            final(self).draw_commands == old(self).draw_commands,
            final(self).setup_commands.phase == SubmissionPhase::InFlight,
            final(self).setup_commands.fence == FenceStatus::Unsignaled,
    {
        let plan = plan_swapchain(&inputs.caps, inputs.window_extent, &inputs.formats, &inputs.modes);
        self.install_resources(plan, inputs.realized_image_count);
    }

    /// Blocks on the previous frame's draw fence, bounding the frames in
    /// flight to one: past this point the device has finished reading every
    /// per-frame resource and the host may touch them again.
    pub fn wait_previous_frame(&mut self)
        requires
            old(self).wf(),
        ensures
            final(self).wf(),
            final(self).draw_commands.fence == FenceStatus::Signaled,
            final(self).draw_commands.phase == SubmissionPhase::Idle,
            *final(self) == (FrameEngine { draw_commands: final(self).draw_commands, ..*old(self) }),
    {
        self.draw_commands.wait_fence();
    }

    /// Consumes the acquire outcome. Out-of-date raises the rebuild flag
    /// and yields no image: the frame is skipped without drawing. A
    /// successful acquire yields the image index; a suboptimal one also
    /// raises the flag for the next frame while this one still draws.
    pub fn handle_acquire(&mut self, outcome: AcquireOutcome) -> (r: Option<usize>)
        requires
            old(self).wf(),
            outcome matches AcquireOutcome::Success { image_index, .. }
                ==> image_index < old(self).resources.image_count,
        ensures
            final(self).wf(),
            match outcome {
                AcquireOutcome::OutOfDate => {
                    &&& r is None
                    &&& *final(self) == (FrameEngine {
                        resize_dependent_component_rebuild_needed: true,
                        ..*old(self)
                    })
                },
                AcquireOutcome::Success { image_index, suboptimal } => {
                    &&& r == Some(image_index)
                    &&& *final(self) == (FrameEngine {
                        resize_dependent_component_rebuild_needed:
                            old(self).resize_dependent_component_rebuild_needed || suboptimal,
                        ..*old(self)
                    })
                },
            },
    {
        match outcome {
            AcquireOutcome::OutOfDate => {
                self.resize_dependent_component_rebuild_needed = true;
                None
            },
            AcquireOutcome::Success { image_index, suboptimal } => {
                if suboptimal {
                    self.resize_dependent_component_rebuild_needed = true;
                }
                Some(image_index)
            },
        }
    }

    /// Writes the camera-derived uniform record into the acquired image's
    /// slot — overwrite, not append. Safe because the draw-fence wait
    /// guarantees the device is done reading the previous cycle's contents
    /// of this slot.
    pub fn update_uniform(&mut self, image_index: usize, payload: &Vec<u32>)
        requires
            old(self).wf(),
            image_index < old(self).resources.image_count,
            payload@.len() == UNIFORM_WORDS,
        ensures
            final(self).wf(),
            final(self).uniform_slots@.len() == old(self).uniform_slots@.len(),
            final(self).uniform_slots@[image_index as int].contents@ == payload@,
            forall|i: int| 0 <= i < old(self).uniform_slots@.len() && i != image_index
                ==> final(self).uniform_slots@[i] == old(self).uniform_slots@[i],
            final(self).resize_dependent_component_rebuild_needed
                == old(self).resize_dependent_component_rebuild_needed,
            final(self).resources == old(self).resources,
            final(self).draw_commands == old(self).draw_commands,
            final(self).setup_commands == old(self).setup_commands,
    {
        let slot = &mut self.uniform_slots[image_index];
        slot.write_data_direct(payload);
    }

    /// Records the frame's commands and submits them as one fence-guarded
    /// cycle: waiting on the image-available ordering, drawing, and
    /// signaling render completion. The draw submission is in flight when
    /// this returns.
    pub fn submit_draw(&mut self)
        requires
            old(self).wf(),
        ensures
            final(self).wf(),
            final(self).draw_commands.phase == SubmissionPhase::InFlight,
            final(self).draw_commands.fence == FenceStatus::Unsignaled,
            *final(self) == (FrameEngine { draw_commands: final(self).draw_commands, ..*old(self) }),
    {
        self.draw_commands.run_submission_cycle();
    }

    /// Consumes the present outcome: out-of-date and suboptimal raise the
    /// rebuild flag for the next frame; a clean present changes nothing.
    pub fn handle_present(&mut self, outcome: PresentOutcome)
        requires
            old(self).wf(),
        ensures
            final(self).wf(),
            *final(self) == (FrameEngine {
                resize_dependent_component_rebuild_needed:
                    old(self).resize_dependent_component_rebuild_needed
                        || spec_present_triggers_rebuild(outcome),
                ..*old(self)
            }),
    {
        match outcome {
            PresentOutcome::Presented { suboptimal } => {
                if suboptimal {
                    self.resize_dependent_component_rebuild_needed = true;
                }
            },
            PresentOutcome::OutOfDate => {
                self.resize_dependent_component_rebuild_needed = true;
            },
        }
    }

    /// One whole frame, composed of the phases above in the engine's fixed
    /// order: rebuild when flagged, wait the previous frame's fence, then
    /// either skip on an out-of-date acquire — raising the flag, touching
    /// no uniform slot and submitting nothing — or write the acquired
    /// image's uniform slot, submit the draw, and consume the present
    /// outcome. The shell drives the same phases one by one with the
    /// driver calls in between; this composition is the engine's own
    /// statement of the cycle.
    ///
    /// `rebuild` carries the surface answers for the rebuild and must be
    /// there when the flag is up; `present` is what presenting came to and
    /// is ignored when the frame is skipped.
    pub fn draw_frame(
        &mut self,
        rebuild: &Option<RebuildInputs>,
        acquire: AcquireOutcome,
        uniform_payload: &Vec<u32>,
        present: PresentOutcome,
    ) -> (r: FrameResult)
        requires
            old(self).wf(),
            uniform_payload@.len() == UNIFORM_WORDS,
            old(self).resize_dependent_component_rebuild_needed
                ==> (rebuild matches Some(ri) && ri.valid()),
            acquire matches AcquireOutcome::Success { image_index, .. }
                ==> image_index < old(self).spec_image_count_after_rebuild(*rebuild),
        ensures
            final(self).wf(),
            // What the frame came to.
            match acquire {
                AcquireOutcome::OutOfDate => r == FrameResult::SkippedOutOfDate,
                AcquireOutcome::Success { image_index, .. }
                    => r == (FrameResult::Drawn { image_index }),
            },
            // The invalidation flag after the frame: the rebuild consumed
            // the old flag, so only this frame's outcomes raise it again.
            final(self).resize_dependent_component_rebuild_needed == match acquire {
                AcquireOutcome::OutOfDate => true,
                AcquireOutcome::Success { suboptimal, .. } =>
                    suboptimal || spec_present_triggers_rebuild(present),
            },
            // The resource generation: superseded exactly when the flag was up.
            old(self).resize_dependent_component_rebuild_needed
                ==> (rebuild matches Some(ri) ==> final(self).resources
                    == spec_resource_set(ri.spec_plan(), ri.realized_image_count)),
            !old(self).resize_dependent_component_rebuild_needed
                ==> final(self).resources == old(self).resources,
            // The uniform slots: the acquired image's slot holds the
            // payload; no other slot was written this frame.
            acquire matches AcquireOutcome::Success { image_index, .. }
                ==> final(self).uniform_slots@[image_index as int].contents@ == uniform_payload@,
            forall|i: int| 0 <= i < final(self).uniform_slots@.len()
                && !(acquire matches AcquireOutcome::Success { image_index, .. }
                    && i == image_index)
                ==> (if old(self).resize_dependent_component_rebuild_needed {
                    (#[trigger] final(self).uniform_slots@[i]).contents@.len() == 0
                } else {
                    final(self).uniform_slots@[i] == old(self).uniform_slots@[i]
                }),
            // The draw submission: in flight when the frame drew, idle with
            // a signaled fence when it was skipped — nothing was submitted.
            match acquire {
                AcquireOutcome::OutOfDate => final(self).draw_commands
                    == (CommandContext {
                        fence: FenceStatus::Signaled,
                        phase: SubmissionPhase::Idle,
                    }),
                AcquireOutcome::Success { .. } => final(self).draw_commands
                    == (CommandContext {
                        fence: FenceStatus::Unsignaled,
                        phase: SubmissionPhase::InFlight,
                    }),
            },
            // The setup submission ran exactly when the rebuild did.
            old(self).resize_dependent_component_rebuild_needed
                ==> final(self).setup_commands == (CommandContext {
                    fence: FenceStatus::Unsignaled,
                    phase: SubmissionPhase::InFlight,
                }),
            !old(self).resize_dependent_component_rebuild_needed
                ==> final(self).setup_commands == old(self).setup_commands,
    {
        if self.resize_dependent_component_rebuild_needed {
            if let Some(inputs) = rebuild {
                self.rebuild_resources(inputs);
            }
        }
        self.wait_previous_frame();
        let acquired = self.handle_acquire(acquire);
        match acquired {
            None => FrameResult::SkippedOutOfDate,
            Some(image_index) => {
                self.update_uniform(image_index, uniform_payload);
                self.submit_draw();
                self.handle_present(present);
                FrameResult::Drawn { image_index }
            },
        }
    }

    /// How many presentable images the engine has once a pending rebuild
    /// (with the given inputs) has run — or still has, when none is pending.
    pub open spec fn spec_image_count_after_rebuild(self, rebuild: Option<RebuildInputs>) -> int {
        if self.resize_dependent_component_rebuild_needed {
            match rebuild {
                Some(ri) => ri.realized_image_count as int,
                None => 0,
            }
        } else {
            self.resources.image_count as int
        }
    }
}

/// The per-image arrays never fall out of step: a well-formed engine has
/// exactly one uniform slot per realized presentable image, so every index
/// a successful acquire can yield has its slot.
pub proof fn lemma_uniform_count_matches_images(engine: FrameEngine)
    requires
        engine.wf(),
    ensures
        engine.uniform_slots@.len() == engine.resources.image_count,
{
}

/// Whether a present outcome demands a rebuild before the next frame.
pub open spec fn spec_present_triggers_rebuild(outcome: PresentOutcome) -> bool {
    match outcome {
        PresentOutcome::Presented { suboptimal } => suboptimal,
        PresentOutcome::OutOfDate => true,
    }
}

} // verus!
