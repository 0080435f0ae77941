//! The frame scheduler: which frame slot the next frame uses, and what may
//! be done with it.
//!
//! A slot holds a command buffer, two semaphores and a fence. The scheduler
//! decides; the application does the GPU calls that a decision names and
//! reports back what happened. Every frame begins with the wait for the
//! fence of its slot, and nothing of the slot is used before that fence was
//! reported signaled.

use vstd::prelude::*;
use crate::vulkan::{
    COMMAND_BUFFER_LEVEL_PRIMARY, COMMAND_POOL_RESET_COMMAND_BUFFER, FENCE_SIGNALED,
    PIPELINE_STAGE_COLOR_ATTACHMENT_OUTPUT,
};
use vstd::arithmetic::div_mod::{
    lemma_fundamental_div_mod_converse, lemma_mod_bound, lemma_small_mod,
};

verus! {

/// The number of frame slots of the renderer.
pub const FRAMES_IN_FLIGHT: usize = 2;

/// Where a frame slot stands.
#[derive(Clone, Copy, Debug, PartialEq, Eq, Structural)]
pub enum SlotState {
    /// The fence is signaled: nothing of the slot is in use by the GPU.
    Idle,
    /// A frame has begun on the slot and waits for the slot's fence.
    Waiting,
    /// The fence was reported signaled and the frame waits for its image.
    Acquiring,
    /// The image with this index was acquired, the fence was reset and the
    /// command buffer is being recorded.
    Recording { image_index: u32 },
    /// The work was submitted; the fence signals when the GPU is done.
    Submitted,
}

/// What the application does to begin a frame.
#[derive(Clone, Copy, Debug, PartialEq, Eq, Structural)]
pub enum BeginFrame {
    /// Wait, without a time limit, for the fence of this slot, then report
    /// it signaled and ask again.
    Wait { slot: usize },
    /// Acquire the next image, to signal the image-available semaphore of
    /// this slot.
    Acquire { slot: usize },
}

/// What the application does once the image is acquired: reset the slot's
/// fence, then reset and record the slot's command buffer against the
/// framebuffer of the image, with the slot's descriptor set bound.
#[derive(Clone, Copy, Debug, PartialEq, Eq, Structural)]
pub struct RecordOrder {
    pub slot: usize,
    pub image_index: u32,
}

/// What the application does to end a frame: submit the slot's command
/// buffer to the graphics queue, to wait at `wait_stage` for the slot's
/// image-available semaphore and to signal the slot's render-finished
/// semaphore and fence; then present image `image_index` on the present
/// queue once the render-finished semaphore is signaled.
#[derive(Clone, Copy, Debug, PartialEq, Eq, Structural)]
pub struct SubmitOrder {
    pub slot: usize,
    pub wait_stage: u32,
    pub image_index: u32,
}

/// A call that the scheduler refuses.
#[derive(Clone, Copy, Debug, PartialEq, Eq, Structural)]
pub enum FrameError {
    /// The current slot is not in the state that the call continues from.
    OutOfOrder,
    /// The acquired image is not one of the swapchain's.
    ImageOutOfRange,
    /// There is no slot with this number.
    NoSuchSlot,
}

/// The slot that follows `current` among `slots` slots.
pub open spec fn spec_next_slot(current: int, slots: int) -> int {
    (current + 1) % slots
}

/// The slot in use `frames` frames after a frame that used `current`.
pub open spec fn spec_slot_after(current: int, slots: int, frames: nat) -> int
    decreases frames,
{
    if frames == 0 {
        current
    } else {
        spec_next_slot(spec_slot_after(current, slots, (frames - 1) as nat), slots)
    }
}

/// A slot that is between the beginning of a frame and its end.
pub open spec fn in_frame(state: SlotState) -> bool {
    state is Waiting || state is Acquiring || state is Recording
}

/// What the scheduler knows: where each slot stands, which slot the
/// current frame uses, and how many images the swapchain has.
pub struct SchedulerState {
    pub slots: Seq<SlotState>,
    pub current: usize,
    pub images: u32,
}

impl SchedulerState {
    /// There is a slot, the slots can be counted by a `usize`, the current
    /// slot is one of them, and no slot but the current one is between the
    /// beginning and the end of a frame.
    pub open spec fn wf(self) -> bool {
        &&& 0 < self.slots.len() <= usize::MAX
        &&& self.current < self.slots.len()
        &&& forall|s: int|
            0 <= s < self.slots.len() && s != self.current ==> !in_frame(#[trigger] self.slots[s])
    }

    /// Where the current slot stands.
    pub open spec fn current_state(self) -> SlotState {
        self.slots[self.current as int]
    }

    /// No frame is under way: the next call begins one.
    pub open spec fn between_frames(self) -> bool {
        !in_frame(self.current_state())
    }

    /// This state with slot `slot` in the state `state`.
    pub open spec fn with_slot(self, slot: usize, state: SlotState) -> SchedulerState {
        SchedulerState { slots: self.slots.update(slot as int, state), ..self }
    }
}

/// Beginning a frame.
///
/// Between frames the frame begins: the slot goes to `Waiting` and the wait
/// for its fence is ordered, whether the slot was used before or not. While
/// the fence has not been reported signaled the same wait stays ordered.
/// Once it has been, the image is to be acquired. During the recording the
/// call is out of order.
pub open spec fn spec_begin_frame(s: SchedulerState) -> (
    SchedulerState,
    Result<BeginFrame, FrameError>,
) {
    match s.current_state() {
        SlotState::Idle | SlotState::Submitted => (
            s.with_slot(s.current, SlotState::Waiting),
            Ok(BeginFrame::Wait { slot: s.current }),
        ),
        SlotState::Waiting => (s, Ok(BeginFrame::Wait { slot: s.current })),
        SlotState::Acquiring => (s, Ok(BeginFrame::Acquire { slot: s.current })),
        SlotState::Recording { .. } => (s, Err(FrameError::OutOfOrder)),
    }
}

/// The report that the fence of `slot` was seen signaled: a waiting slot
/// goes on to acquire, a submitted slot becomes idle, any other slot stays
/// as it is. Refused exactly when there is no such slot.
pub open spec fn spec_fence_signaled(s: SchedulerState, slot: usize) -> (
    SchedulerState,
    Result<(), FrameError>,
) {
    if slot >= s.slots.len() {
        (s, Err(FrameError::NoSuchSlot))
    } else {
        match s.slots[slot as int] {
            SlotState::Waiting => (s.with_slot(slot, SlotState::Acquiring), Ok(())),
            SlotState::Submitted => (s.with_slot(slot, SlotState::Idle), Ok(())),
            _ => (s, Ok(())),
        }
    }
}

/// The report that the image with index `image_index` was acquired: the
/// recording is ordered. Refused, with nothing changed, when the current
/// slot is not acquiring, and else when the swapchain has no such image.
pub open spec fn spec_image_acquired(s: SchedulerState, image_index: u32) -> (
    SchedulerState,
    Result<RecordOrder, FrameError>,
) {
    if !(s.current_state() is Acquiring) {
        (s, Err(FrameError::OutOfOrder))
    } else if image_index >= s.images {
        (s, Err(FrameError::ImageOutOfRange))
    } else {
        (
            s.with_slot(s.current, SlotState::Recording { image_index }),
            Ok(RecordOrder { slot: s.current, image_index }),
        )
    }
}

/// Ending a frame: the submission and the presentation of the recorded
/// work are ordered, the slot is marked submitted and the next slot becomes
/// the current one. Refused, with nothing changed, exactly when the current
/// slot is not recording.
pub open spec fn spec_end_frame(s: SchedulerState) -> (
    SchedulerState,
    Result<SubmitOrder, FrameError>,
) {
    match s.current_state() {
        SlotState::Recording { image_index } => (
            SchedulerState {
                slots: s.slots.update(s.current as int, SlotState::Submitted),
                current: spec_next_slot(s.current as int, s.slots.len() as int) as usize,
                images: s.images,
            },
            Ok(
                SubmitOrder {
                    slot: s.current,
                    wait_stage: PIPELINE_STAGE_COLOR_ATTACHMENT_OUTPUT,
                    image_index,
                },
            ),
        ),
        _ => (s, Err(FrameError::OutOfOrder)),
    }
}

/// The frame scheduler.
pub struct FrameScheduler {
    slots: Vec<SlotState>,
    current_frame: usize,
    image_count: u32,
}

impl View for FrameScheduler {
    type V = SchedulerState;

    closed spec fn view(&self) -> SchedulerState {
        SchedulerState {
            slots: self.slots@,
            current: self.current_frame,
            images: self.image_count,
        }
    }
}

impl FrameScheduler {
    /// The scheduler's state is well formed.
    pub open spec fn wf(&self) -> bool {
        self@.wf()
    }

    /// Tests [`FrameScheduler::wf`].
    pub fn is_wf(&self) -> (ok: bool)
        ensures
            ok == self.wf(),
    {
        if self.slots.len() == 0 || self.current_frame >= self.slots.len() {
            return false;
        }
        let mut s: usize = 0;
        while s < self.slots.len()
            invariant
                0 <= s <= self.slots.len(),
                forall|t: int|
                    0 <= t < s && t != self.current_frame ==> !in_frame(#[trigger] self.slots[t]),
            decreases self.slots.len() - s,
        {
            if s != self.current_frame {
                match self.slots[s] {
                    SlotState::Waiting => {
                        return false;
                    },
                    SlotState::Acquiring => {
                        return false;
                    },
                    SlotState::Recording { .. } => {
                        return false;
                    },
                    _ => {},
                }
            }
            s += 1;
        }
        true
    }

    /// A scheduler of `frames_in_flight` slots, all idle, for a swapchain
    /// of `image_count` images, that begins with slot 0. `None` exactly
    /// when `frames_in_flight` is 0.
    pub fn new(frames_in_flight: usize, image_count: u32) -> (made: Option<Self>)
        ensures
            frames_in_flight == 0 <==> made is None,
            made matches Some(scheduler) ==> {
                &&& scheduler.wf()
                &&& scheduler@.between_frames()
                &&& scheduler@.slots == Seq::new(frames_in_flight as nat, |s: int| SlotState::Idle)
                &&& scheduler@.current == 0
                &&& scheduler@.images == image_count
            },
    {
        if frames_in_flight == 0 {
            return None;
        }
        let mut slots: Vec<SlotState> = Vec::with_capacity(frames_in_flight);
        let mut i: usize = 0;
        while i < frames_in_flight
            invariant
                0 <= i <= frames_in_flight,
                slots.len() == i,
                forall|s: int| 0 <= s < i ==> slots[s] == SlotState::Idle,
            decreases frames_in_flight - i,
        {
            slots.push(SlotState::Idle);
            i += 1;
        }
        assert(slots@ =~= Seq::new(frames_in_flight as nat, |s: int| SlotState::Idle));
        Some(FrameScheduler { slots, current_frame: 0, image_count })
    }

    /// The slot of the current frame. It is always one of the scheduler's.
    pub fn current_frame(&self) -> (slot: usize)
        requires
            self.wf(),
        ensures
            slot == self@.current,
            slot < self@.slots.len(),
    {
        self.current_frame
    }

    /// The number of slots.
    pub fn frames_in_flight(&self) -> (count: usize)
        ensures
            count == self@.slots.len(),
    {
        self.slots.len()
    }

    /// Where slot `slot` stands; `None` exactly when there is no such slot.
    pub fn slot_state(&self, slot: usize) -> (state: Option<SlotState>)
        ensures
            state == if slot < self@.slots.len() {
                Some(self@.slots[slot as int])
            } else {
                None
            },
    {
        if slot < self.slots.len() {
            Some(self.slots[slot])
        } else {
            None
        }
    }

    /// Begins the frame on the current slot, or says what is still to be
    /// done to begin it: first the wait for the slot's fence, on every
    /// frame, and only after the fence was reported signaled the
    /// acquisition of the image.
    pub fn begin_frame(&mut self) -> (begun: Result<BeginFrame, FrameError>)
        requires
            old(self).wf(),
        ensures
            final(self).wf(),
            final(self)@ == spec_begin_frame(old(self)@).0,
            begun == spec_begin_frame(old(self)@).1,
    {
        let slot = self.current_frame;
        match self.slots[slot] {
            SlotState::Idle => {
                self.slots.set(slot, SlotState::Waiting);
                Ok(BeginFrame::Wait { slot })
            },
            SlotState::Submitted => {
                self.slots.set(slot, SlotState::Waiting);
                Ok(BeginFrame::Wait { slot })
            },
            SlotState::Waiting => Ok(BeginFrame::Wait { slot }),
            SlotState::Acquiring => Ok(BeginFrame::Acquire { slot }),
            SlotState::Recording { .. } => Err(FrameError::OutOfOrder),
        }
    }

    /// Records that the fence of `slot` was seen signaled.
    pub fn fence_signaled(&mut self, slot: usize) -> (seen: Result<(), FrameError>)
        requires
            old(self).wf(),
        ensures
            final(self).wf(),
            final(self)@ == spec_fence_signaled(old(self)@, slot).0,
            seen == spec_fence_signaled(old(self)@, slot).1,
    {
        if slot >= self.slots.len() {
            return Err(FrameError::NoSuchSlot);
        }
        match self.slots[slot] {
            SlotState::Waiting => {
                self.slots.set(slot, SlotState::Acquiring);
            },
            SlotState::Submitted => {
                self.slots.set(slot, SlotState::Idle);
            },
            _ => {},
        }
        Ok(())
    }

    /// Records that the image with index `image_index` was acquired for
    /// the current frame, and orders the recording.
    pub fn image_acquired(&mut self, image_index: u32) -> (order: Result<RecordOrder, FrameError>)
        requires
            old(self).wf(),
        ensures
            final(self).wf(),
            final(self)@ == spec_image_acquired(old(self)@, image_index).0,
            order == spec_image_acquired(old(self)@, image_index).1,
    {
        let slot = self.current_frame;
        match self.slots[slot] {
            SlotState::Acquiring => {
                if image_index >= self.image_count {
                    return Err(FrameError::ImageOutOfRange);
                }
                self.slots.set(slot, SlotState::Recording { image_index });
                Ok(RecordOrder { slot, image_index })
            },
            _ => Err(FrameError::OutOfOrder),
        }
    }

    /// Ends the frame: orders the submission and the presentation of the
    /// recorded work and moves on to the next slot.
    pub fn end_frame(&mut self) -> (order: Result<SubmitOrder, FrameError>)
        requires
            old(self).wf(),
        ensures
            final(self).wf(),
            final(self)@ == spec_end_frame(old(self)@).0,
            order == spec_end_frame(old(self)@).1,
    {
        let slot = self.current_frame;
        match self.slots[slot] {
            SlotState::Recording { image_index } => {
                self.slots.set(slot, SlotState::Submitted);
                let next = if slot == self.slots.len() - 1 {
                    0
                } else {
                    slot + 1
                };
                proof {
                    let n = self.slots.len() as int;
                    if slot + 1 == n {
                        assert((slot + 1) % n == 0) by (nonlinear_arith)
                            requires
                                slot + 1 == n,
                                n > 0,
                        ;
                    } else {
                        lemma_small_mod((slot + 1) as nat, n as nat);
                    }
                }
                self.current_frame = next;
                Ok(
                    SubmitOrder {
                        slot,
                        wait_stage: PIPELINE_STAGE_COLOR_ATTACHMENT_OUTPUT,
                        image_index,
                    },
                )
            },
            _ => Err(FrameError::OutOfOrder),
        }
    }
}

/// The slot in use `frames` frames later is `current + frames`, counted
/// round the slots; it is one of the slots.
pub proof fn lemma_slot_after(current: int, slots: int, frames: nat)
    requires
        0 <= current < slots,
    ensures
        spec_slot_after(current, slots, frames) == (current + frames) % slots,
        0 <= spec_slot_after(current, slots, frames) < slots,
    decreases frames,
{
    if frames == 0 {
        lemma_small_mod(current as nat, slots as nat);
    } else {
        lemma_slot_after(current, slots, (frames - 1) as nat);
        let before = (current + frames - 1) % slots;
        assert((before + 1) % slots == (current + frames) % slots) by (nonlinear_arith)
            requires
                before == (current + frames - 1) % slots,
                slots > 0,
        ;
        lemma_mod_bound(current + frames, slots);
    }
}

/// The slot in use after fewer than `slots` frames, without a remainder.
proof fn lemma_slot_after_unrolled(current: int, slots: int, frames: nat)
    requires
        0 <= current < slots,
        frames < slots,
    ensures
        spec_slot_after(current, slots, frames) == if current + frames < slots {
            current + frames
        } else {
            current + frames - slots
        },
{
    lemma_slot_after(current, slots, frames);
    if current + frames < slots {
        lemma_small_mod((current + frames) as nat, slots as nat);
    } else {
        lemma_fundamental_div_mod_converse(current + frames, slots, 1, current + frames - slots);
    }
}

/// The scheduler never leaves its slots: the slot that follows one of the
/// `slots` slots is again one of them.
pub proof fn lemma_next_slot_in_range(current: int, slots: int)
    requires
        0 <= current < slots,
    ensures
        0 <= spec_next_slot(current, slots) < slots,
{
    lemma_mod_bound(current + 1, slots);
}

/// Counting on from any slot, each of the `slots` slots is reached after
/// exactly one number of steps below `slots`.
pub proof fn lemma_every_slot_once(current: int, slots: int, slot: int)
    requires
        0 <= current < slots,
        0 <= slot < slots,
    ensures
        exists|k: nat| k < slots && spec_slot_after(current, slots, k) == slot,
        forall|a: nat, b: nat|
            a < slots && b < slots && spec_slot_after(current, slots, a) == slot
                && spec_slot_after(current, slots, b) == slot ==> a == b,
{
    let k: nat = if slot >= current {
        (slot - current) as nat
    } else {
        (slot - current + slots) as nat
    };
    lemma_slot_after_unrolled(current, slots, k);
    assert(k < slots && spec_slot_after(current, slots, k) == slot);
    assert forall|a: nat, b: nat|
        a < slots && b < slots && spec_slot_after(current, slots, a) == slot && spec_slot_after(
            current,
            slots,
            b,
        ) == slot implies a == b by {
        lemma_slot_after_unrolled(current, slots, a);
        lemma_slot_after_unrolled(current, slots, b);
    }
}

/// After as many frames as there are slots the scheduler is back at the
/// slot it began with.
pub proof fn lemma_slots_cycle(current: int, slots: int)
    requires
        0 <= current < slots,
    ensures
        spec_slot_after(current, slots, slots as nat) == current,
{
    lemma_slot_after(current, slots, slots as nat);
    lemma_fundamental_div_mod_converse(current + slots, slots, 1, current);
}

/// The state after one whole frame in which the image with index
/// `image_index` is acquired: the frame begins, the fence of its slot is
/// reported signaled, the image is reported acquired, the frame ends.
pub open spec fn spec_frame(s: SchedulerState, image_index: u32) -> SchedulerState {
    let waiting = spec_begin_frame(s).0;
    let acquiring = spec_fence_signaled(waiting, s.current).0;
    let recording = spec_image_acquired(acquiring, image_index).0;
    spec_end_frame(recording).0
}

/// The state after the first `frames` whole frames, frame `k` of which
/// acquires the image `images[k]`.
pub open spec fn spec_frames(s: SchedulerState, images: Seq<u32>, frames: nat) -> SchedulerState
    decreases frames,
{
    if frames == 0 {
        s
    } else {
        spec_frame(spec_frames(s, images, (frames - 1) as nat), images[frames - 1])
    }
}

/// What the scheduler orders at the beginning of frame `frame`.
pub open spec fn spec_first_order(s: SchedulerState, images: Seq<u32>, frame: nat) -> Result<
    BeginFrame,
    FrameError,
> {
    spec_begin_frame(spec_frames(s, images, frame)).1
}

/// Every image of the first `frames` is one of the swapchain's.
pub open spec fn images_in_range(s: SchedulerState, images: Seq<u32>, frames: nat) -> bool {
    &&& frames <= images.len()
    &&& forall|k: int| 0 <= k < frames ==> #[trigger] images[k] < s.images
}

/// Every transition keeps the scheduler's state well formed.
pub proof fn lemma_transitions_keep_wf(s: SchedulerState, slot: usize, image_index: u32)
    requires
        s.wf(),
    ensures
        spec_begin_frame(s).0.wf(),
        spec_fence_signaled(s, slot).0.wf(),
        spec_image_acquired(s, image_index).0.wf(),
        spec_end_frame(s).0.wf(),
{
    let n = s.slots.len() as int;
    lemma_next_slot_in_range(s.current as int, n);
}

/// A frame goes through its steps in one order. It begins with the wait
/// for the fence of its slot, whether the slot was used before or not.
/// Until that fence is reported signaled the wait stays ordered and no
/// image is taken. Then the image is acquired, the recording is ordered
/// against it, and the end of the frame orders the submission, marks the
/// slot submitted and makes the next slot the current one, on which the
/// next frame can begin.
pub proof fn lemma_frame(s: SchedulerState, image_index: u32)
    requires
        s.wf(),
        s.between_frames(),
        image_index < s.images,
    ensures
        ({
            let slot = s.current;
            let waiting = spec_begin_frame(s).0;
            let acquiring = spec_fence_signaled(waiting, slot).0;
            let recording = spec_image_acquired(acquiring, image_index).0;
            let ended = spec_frame(s, image_index);
            &&& spec_begin_frame(s).1 == Ok::<BeginFrame, FrameError>(BeginFrame::Wait { slot })
            &&& spec_begin_frame(waiting) == (
                waiting,
                Ok::<BeginFrame, FrameError>(BeginFrame::Wait { slot }),
            )
            &&& spec_image_acquired(waiting, image_index).1 == Err::<RecordOrder, FrameError>(
                FrameError::OutOfOrder,
            )
            &&& spec_begin_frame(acquiring) == (
                acquiring,
                Ok::<BeginFrame, FrameError>(BeginFrame::Acquire { slot }),
            )
            &&& spec_image_acquired(acquiring, image_index).1 == Ok::<RecordOrder, FrameError>(
                RecordOrder { slot, image_index },
            )
            &&& spec_end_frame(recording).1 == Ok::<SubmitOrder, FrameError>(
                SubmitOrder {
                    slot,
                    wait_stage: PIPELINE_STAGE_COLOR_ATTACHMENT_OUTPUT,
                    image_index,
                },
            )
            &&& ended.wf()
            &&& ended.between_frames()
            &&& ended.slots == s.slots.update(slot as int, SlotState::Submitted)
            &&& ended.current == spec_next_slot(slot as int, s.slots.len() as int)
            &&& ended.images == s.images
        }),
{
    let n = s.slots.len() as int;
    lemma_next_slot_in_range(s.current as int, n);
    let ended = spec_frame(s, image_index);
    assert(ended.slots =~= s.slots.update(s.current as int, SlotState::Submitted));
    let next = ended.current as int;
    if next != s.current {
        assert(!in_frame(s.slots[next]));
    }
}

/// After `frames` whole frames the scheduler is again between frames, has
/// as many slots as before, and its current slot is `frames` slots on.
pub proof fn lemma_frames(s: SchedulerState, images: Seq<u32>, frames: nat)
    requires
        s.wf(),
        s.between_frames(),
        images_in_range(s, images, frames),
    ensures
        ({
            let after = spec_frames(s, images, frames);
            &&& after.wf()
            &&& after.between_frames()
            &&& after.slots.len() == s.slots.len()
            &&& after.images == s.images
            &&& after.current == spec_slot_after(s.current as int, s.slots.len() as int, frames)
        }),
    decreases frames,
{
    if frames > 0 {
        lemma_frames(s, images, (frames - 1) as nat);
        let before = spec_frames(s, images, (frames - 1) as nat);
        lemma_frame(before, images[frames - 1]);
    }
}

/// Frame `frame` begins with the wait for the fence of the slot that lies
/// `frame` slots on from the first frame's: every frame waits, and on the
/// fence of its own slot.
pub proof fn lemma_frame_waits_on_its_slot(s: SchedulerState, images: Seq<u32>, frame: nat)
    requires
        s.wf(),
        s.between_frames(),
        images_in_range(s, images, frame),
    ensures
        spec_first_order(s, images, frame) == Ok::<BeginFrame, FrameError>(
            BeginFrame::Wait {
                slot: spec_slot_after(s.current as int, s.slots.len() as int, frame) as usize,
            },
        ),
{
    lemma_frames(s, images, frame);
}

/// In as many consecutive frames as there are slots, the fence of every
/// slot is waited for exactly once: one of these frames begins with the
/// wait for it, and no other does. After them the scheduler is back at the
/// slot it began with.
pub proof fn lemma_every_fence_waited_once(s: SchedulerState, images: Seq<u32>, slot: usize)
    requires
        s.wf(),
        s.between_frames(),
        images_in_range(s, images, s.slots.len()),
        slot < s.slots.len(),
    ensures
        exists|k: nat|
            k < s.slots.len() && #[trigger] spec_first_order(s, images, k) == Ok::<
                BeginFrame,
                FrameError,
            >(BeginFrame::Wait { slot }),
        forall|a: nat, b: nat|
            a < s.slots.len() && b < s.slots.len() && #[trigger] spec_first_order(s, images, a)
                == Ok::<BeginFrame, FrameError>(BeginFrame::Wait { slot })
                && #[trigger] spec_first_order(s, images, b) == Ok::<BeginFrame, FrameError>(
                BeginFrame::Wait { slot },
            ) ==> a == b,
        spec_frames(s, images, s.slots.len()).current == s.current,
{
    let n = s.slots.len() as int;
    let c = s.current as int;
    lemma_every_slot_once(c, n, slot as int);
    let k = choose|k: nat| k < n && spec_slot_after(c, n, k) == slot;
    lemma_frame_waits_on_its_slot(s, images, k);
    assert(spec_first_order(s, images, k) == Ok::<BeginFrame, FrameError>(
        BeginFrame::Wait { slot },
    ));
    assert forall|a: nat, b: nat|
        a < n && b < n && #[trigger] spec_first_order(s, images, a) == Ok::<
            BeginFrame,
            FrameError,
        >(BeginFrame::Wait { slot }) && #[trigger] spec_first_order(s, images, b) == Ok::<
            BeginFrame,
            FrameError,
        >(BeginFrame::Wait { slot }) implies a == b by {
        lemma_frame_waits_on_its_slot(s, images, a);
        lemma_frame_waits_on_its_slot(s, images, b);
        lemma_slot_after(c, n, a);
        lemma_slot_after(c, n, b);
        assert(spec_slot_after(c, n, a) == slot);
        assert(spec_slot_after(c, n, b) == slot);
    }
    lemma_frames(s, images, n as nat);
    lemma_slots_cycle(c, n);
}

/// The creation bits of a fence that starts signaled or unsignaled.
pub fn create_fence(signaled: bool) -> (flags: u32)
    ensures
        flags == (if signaled {
            FENCE_SIGNALED
        } else {
            0u32
        }),
{
    if signaled {
        FENCE_SIGNALED
    } else {
        0
    }
}

/// What the synchronisation objects of one frame slot are created with:
/// two semaphores and one fence.
#[derive(Clone, Copy, Debug, PartialEq, Eq, Structural)]
pub struct SlotSyncConfig {
    pub semaphores: u32,
    pub fence_flags: u32,
}

/// The synchronisation objects to create, slot by slot. Every fence starts
/// signaled, so that the first frame of a slot does not wait.
pub fn create_sync_objects(frames: usize) -> (configs: Vec<SlotSyncConfig>)
    ensures
        configs@ == Seq::new(
            frames as nat,
            |i: int| SlotSyncConfig { semaphores: 2, fence_flags: FENCE_SIGNALED },
        ),
{
    let mut configs: Vec<SlotSyncConfig> = Vec::with_capacity(frames);
    let mut i: usize = 0;
    while i < frames
        invariant
            0 <= i <= frames,
            configs.len() == i,
            forall|j: int|
                0 <= j < i ==> configs[j] == (SlotSyncConfig {
                    semaphores: 2,
                    fence_flags: FENCE_SIGNALED,
                }),
        decreases frames - i,
    {
        configs.push(SlotSyncConfig { semaphores: 2, fence_flags: create_fence(true) });
        i += 1;
    }
    assert(configs@ =~= Seq::new(
        frames as nat,
        |i: int| SlotSyncConfig { semaphores: 2, fence_flags: FENCE_SIGNALED },
    ));
    configs
}

/// What a command pool is created with.
#[derive(Clone, Copy, Debug, PartialEq, Eq, Structural)]
pub struct CommandPoolConfig {
    pub flags: u32,
    pub queue_family_index: u32,
}

/// The parameters of a command pool on the queue family
/// `queue_family_index`, whose buffers can be reset one by one if `reset`.
pub fn create_command_pool(queue_family_index: u32, reset: bool) -> (config: CommandPoolConfig)
    ensures
        config.queue_family_index == queue_family_index,
        config.flags == (if reset {
            COMMAND_POOL_RESET_COMMAND_BUFFER
        } else {
            0u32
        }),
{
    let flags = if reset {
        COMMAND_POOL_RESET_COMMAND_BUFFER
    } else {
        0
    };
    CommandPoolConfig { flags, queue_family_index }
}

/// What command buffers are allocated with.
#[derive(Clone, Copy, Debug, PartialEq, Eq, Structural)]
pub struct CommandBufferAllocation {
    pub level: i32,
    pub command_buffer_count: u32,
}

/// The allocation of `num` primary command buffers.
pub fn create_command_buffers(num: u32) -> (config: CommandBufferAllocation)
    ensures
        config == (CommandBufferAllocation {
            level: COMMAND_BUFFER_LEVEL_PRIMARY,
            command_buffer_count: num,
        }),
{
    CommandBufferAllocation { level: COMMAND_BUFFER_LEVEL_PRIMARY, command_buffer_count: num }
}

} // verus!
