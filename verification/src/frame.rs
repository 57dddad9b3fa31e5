//! The frame synchroniser: the ring of frame slots and the protocol of one
//! tick, as a state machine. The host performs what an action asks for and
//! reports the outcome as the next event.
use vstd::prelude::*;

verus! {

/// Number of frame slots the engine runs with unless told otherwise.
pub const DEFAULT_FRAMES_IN_FLIGHT: usize = 2;

/// Whether the device may still be working on a slot's last submission.
#[derive(Clone, Copy, Debug, PartialEq, Eq, Structural)]
pub enum SlotState {
    /// The slot's fence is signaled: nothing of the slot is in use.
    Idle,
    /// The slot's fence was reset and work was handed to the device.
    Submitted,
}

/// What the driver says of a presentation.
#[derive(Clone, Copy, Debug, PartialEq, Eq, Structural)]
pub enum PresentStatus {
    Optimal,
    /// The image was shown, but the swapchain no longer fits the surface.
    Suboptimal,
    /// The swapchain can no longer be used with the surface.
    OutOfDate,
}

/// How far the current tick has come.
#[derive(Clone, Copy, Debug, PartialEq, Eq, Structural)]
pub enum Phase {
    /// Between two ticks.
    Ready,
    /// Waiting for the fence of the tick's slot.
    AwaitFence,
    /// An image of the swapchain was asked for.
    AwaitImage,
    /// The commands for `image` are being recorded and submitted.
    AwaitSubmit { image: u32, suboptimal: bool },
    /// `image` was handed over for presentation.
    AwaitPresent { image: u32, suboptimal: bool },
    /// The swapchain is to be recreated: waiting for the device to finish.
    AwaitIdle,
    /// The device is idle and the swapchain is being rebuilt.
    AwaitRebuild,
}

/// What the host reports to the synchroniser.
#[derive(Clone, Copy, Debug, PartialEq, Eq, Structural)]
pub enum Event {
    /// The host asks for a frame.
    Tick,
    /// The window has a new size in pixels.
    Resized { width: u32, height: u32 },
    /// The fence of the tick's slot is signaled.
    FenceSignaled,
    /// The swapchain gave out an image.
    ImageAcquired { image: u32, suboptimal: bool },
    /// The swapchain gave out no image, for it no longer fits the surface.
    AcquireOutOfDate,
    /// The tick's commands are recorded and with the device.
    Submitted,
    /// The tick's image was handed over for presentation.
    Presented { status: PresentStatus },
    /// The device has finished all work it was given.
    DeviceIdle,
    /// A new generation of the swapchain is in place.
    SwapchainRebuilt,
}

/// What the synchroniser asks of the host in answer to an event.
#[derive(Clone, Copy, Debug, PartialEq, Eq, Structural)]
pub enum Action {
    /// The event was taken note of; nothing is to be done.
    Nothing,
    /// The event does not belong to this point of the protocol, or a tick
    /// was asked for that can no longer be counted. Nothing has changed.
    Rejected,
    /// Block until the fence of `slot` is signaled.
    WaitForFence { slot: usize },
    /// Ask the swapchain for its next image, to be announced on the
    /// image-available semaphore of `slot`.
    AcquireImage { slot: usize },
    /// Write the uniform buffer of `image`; reset the command buffer of
    /// `slot` and record it anew for the framebuffer of `image`; reset the
    /// fence of `slot`; submit, waiting on the slot's image-available
    /// semaphore, signaling its render-finished semaphore and its fence.
    RecordAndSubmit { slot: usize, image: u32 },
    /// Present `image`, waiting on the render-finished semaphore of `slot`.
    Present { slot: usize, image: u32 },
    /// Block until the device has finished all work it was given.
    WaitDeviceIdle,
    /// Destroy the swapchain's generation and create the next.
    RebuildSwapchain,
    /// The tick is over.
    FrameDone,
}

/// The synchroniser as a value of mathematics.
pub struct SyncState {
    /// The slots of the ring.
    pub slots: Seq<SlotState>,
    /// Ticks finished so far.
    pub frame_count: u64,
    pub phase: Phase,
    /// The host has reported a new window size that was not acted on yet.
    pub resized: bool,
}

impl SyncState {
    /// The slot of the current tick: the frame counter modulo the number of
    /// slots.
    pub open spec fn slot(self) -> int {
        (self.frame_count as int) % (self.slots.len() as int)
    }

    /// How many slots the device may still be working on.
    pub open spec fn in_flight(self) -> nat {
        count_submitted(self.slots)
    }

    /// What holds of the synchroniser at every instant: the ring is not
    /// empty, and a machine can hold it; a tick that has begun can be
    /// counted; between the wait for a slot's fence and the slot's submission
    /// the slot is idle; and while the swapchain is rebuilt every slot is.
    pub open spec fn well_formed(self) -> bool {
        &&& 0 < self.slots.len() <= usize::MAX
        &&& self.phase != Phase::Ready ==> self.frame_count < u64::MAX
        &&& (self.phase == Phase::AwaitImage || self.phase is AwaitSubmit)
            ==> self.slots[self.slot()] == SlotState::Idle
        &&& self.phase == Phase::AwaitRebuild ==> all_idle(self.slots)
    }
}

/// The number of submitted slots among `slots`.
pub open spec fn count_submitted(slots: Seq<SlotState>) -> nat
    decreases slots.len(),
{
    if slots.len() == 0 {
        0
    } else {
        count_submitted(slots.drop_last()) + if slots.last() == SlotState::Submitted {
            1nat
        } else {
            0nat
        }
    }
}

/// Every slot is idle.
pub open spec fn all_idle(slots: Seq<SlotState>) -> bool {
    forall|i: int| 0 <= i < slots.len() ==> slots[i] == SlotState::Idle
}

/// A ring of `count` idle slots.
pub open spec fn idle_ring(count: nat) -> Seq<SlotState> {
    Seq::new(count, |i: int| SlotState::Idle)
}

/// The synchroniser before the first tick.
pub open spec fn initial_state(slot_count: nat) -> SyncState {
    SyncState { slots: idle_ring(slot_count), frame_count: 0, phase: Phase::Ready, resized: false }
}

/// The protocol: the state after `event` and the action that answers it.
pub open spec fn step_spec(s: SyncState, event: Event) -> (SyncState, Action) {
    match event {
        // A window without pixels is minimised: its size is not acted on.
        Event::Resized { width, height } => (
            SyncState { resized: s.resized || (width > 0 && height > 0), ..s },
            Action::Nothing,
        ),
        Event::Tick => if s.phase == Phase::Ready && s.frame_count < u64::MAX {
            (
                SyncState { phase: Phase::AwaitFence, ..s },
                Action::WaitForFence { slot: s.slot() as usize },
            )
        } else {
            (s, Action::Rejected)
        },
        Event::FenceSignaled => if s.phase == Phase::AwaitFence {
            (
                SyncState {
                    slots: s.slots.update(s.slot(), SlotState::Idle),
                    phase: Phase::AwaitImage,
                    ..s
                },
                Action::AcquireImage { slot: s.slot() as usize },
            )
        } else {
            (s, Action::Rejected)
        },
        Event::ImageAcquired { image, suboptimal } => if s.phase == Phase::AwaitImage {
            (
                SyncState { phase: Phase::AwaitSubmit { image, suboptimal }, ..s },
                Action::RecordAndSubmit { slot: s.slot() as usize, image },
            )
        } else {
            (s, Action::Rejected)
        },
        // The tick is given up: nothing is recorded or submitted for it.
        Event::AcquireOutOfDate => if s.phase == Phase::AwaitImage {
            (SyncState { phase: Phase::AwaitIdle, ..s }, Action::WaitDeviceIdle)
        } else {
            (s, Action::Rejected)
        },
        Event::Submitted => match s.phase {
            Phase::AwaitSubmit { image, suboptimal } => (
                SyncState {
                    slots: s.slots.update(s.slot(), SlotState::Submitted),
                    phase: Phase::AwaitPresent { image, suboptimal },
                    ..s
                },
                Action::Present { slot: s.slot() as usize, image },
            ),
            _ => (s, Action::Rejected),
        },
        Event::Presented { status } => match s.phase {
            Phase::AwaitPresent { image, suboptimal } => if status != PresentStatus::Optimal
                || suboptimal || s.resized {
                (
                    SyncState { phase: Phase::AwaitIdle, resized: false, ..s },
                    Action::WaitDeviceIdle,
                )
            } else {
                (
                    SyncState {
                        phase: Phase::Ready,
                        frame_count: (s.frame_count + 1) as u64,
                        ..s
                    },
                    Action::FrameDone,
                )
            },
            _ => (s, Action::Rejected),
        },
        // An idle device has finished every submission: every fence is
        // signaled.
        Event::DeviceIdle => if s.phase == Phase::AwaitIdle {
            (
                SyncState { slots: idle_ring(s.slots.len()), phase: Phase::AwaitRebuild, ..s },
                Action::RebuildSwapchain,
            )
        } else {
            (s, Action::Rejected)
        },
        Event::SwapchainRebuilt => if s.phase == Phase::AwaitRebuild {
            (
                SyncState { phase: Phase::Ready, frame_count: (s.frame_count + 1) as u64, ..s },
                Action::FrameDone,
            )
        } else {
            (s, Action::Rejected)
        },
    }
}

/// The state after a run of events.
pub open spec fn run_spec(s: SyncState, events: Seq<Event>) -> SyncState
    decreases events.len(),
{
    if events.len() == 0 {
        s
    } else {
        step_spec(run_spec(s, events.drop_last()), events.last()).0
    }
}

/// The ring of frame slots and the state of the current tick.
#[derive(Debug)]
pub struct FrameSynchronizer {
    slots: Vec<SlotState>,
    frame_count: u64,
    phase: Phase,
    resized: bool,
}

impl View for FrameSynchronizer {
    type V = SyncState;

    closed spec fn view(&self) -> SyncState {
        SyncState {
            slots: self.slots@,
            frame_count: self.frame_count,
            phase: self.phase,
            resized: self.resized,
        }
    }
}

impl FrameSynchronizer {
    /// What holds of the synchroniser at every instant.
    pub open spec fn well_formed(&self) -> bool {
        self@.well_formed()
    }

    /// A synchroniser with `slot_count` slots, all idle, before the first
    /// tick. A ring needs at least one slot.
    pub fn new(slot_count: usize) -> (r: Option<Self>)
        ensures
            r is Some <==> slot_count > 0,
            r matches Some(sync) ==> sync@ == initial_state(slot_count as nat)
                && sync.well_formed(),
    {
        if slot_count == 0 {
            return None;
        }
        let mut slots: Vec<SlotState> = Vec::new();
        let mut i: usize = 0;
        while i < slot_count
            invariant
                i <= slot_count,
                slots@.len() == i,
                all_idle(slots@),
            decreases slot_count - i,
        {
            slots.push(SlotState::Idle);
            i = i + 1;
        }
        assert(slots@ =~= idle_ring(slot_count as nat));
        Some(FrameSynchronizer { slots, frame_count: 0, phase: Phase::Ready, resized: false })
    }

    /// Number of ticks finished so far.
    pub fn frame_count(&self) -> (n: u64)
        ensures
            n == self@.frame_count,
    {
        self.frame_count
    }

    /// Number of slots in the ring.
    pub fn slot_count(&self) -> (n: usize)
        ensures
            n == self@.slots.len(),
    {
        self.slots.len()
    }

    /// The slot of the current tick.
    pub fn current_slot(&self) -> (slot: usize)
        requires
            self.well_formed(),
        ensures
            slot == self@.slot(),
            slot < self@.slots.len(),
    {
        (self.frame_count % (self.slots.len() as u64)) as usize
    }

    /// How far the current tick has come.
    pub fn phase(&self) -> (p: Phase)
        ensures
            p == self@.phase,
    {
        self.phase
    }

    /// Whether a new window size waits to be acted on.
    pub fn resize_pending(&self) -> (b: bool)
        ensures
            b == self@.resized,
    {
        self.resized
    }

    /// The state of one slot, if the ring has it.
    pub fn slot_state(&self, slot: usize) -> (r: Option<SlotState>)
        ensures
            r == if slot < self@.slots.len() {
                Some(self@.slots[slot as int])
            } else {
                None
            },
    {
        if slot < self.slots.len() {
            Some(self.slots[slot])
        } else {
            None
        }
    }

    /// Number of slots the device may still be working on.
    pub fn in_flight(&self) -> (n: usize)
        ensures
            n == self@.in_flight(),
            n <= self@.slots.len(),
    {
        let mut n: usize = 0;
        let mut i: usize = 0;
        while i < self.slots.len()
            invariant
                i <= self.slots.len(),
                n <= i,
                n == count_submitted(self.slots@.take(i as int)),
            decreases self.slots.len() - i,
        {
            assert(self.slots@.take(i as int + 1).drop_last() =~= self.slots@.take(i as int));
            if self.slots[i] == SlotState::Submitted {
                n = n + 1;
            }
            i = i + 1;
        }
        assert(self.slots@.take(i as int) =~= self.slots@);
        n
    }

    /// Takes one event of the protocol and answers with what to do next.
    pub fn step(&mut self, event: Event) -> (action: Action)
        requires
            old(self).well_formed(),
        ensures
            final(self).well_formed(),
            (final(self)@, action) == step_spec(old(self)@, event),
    {
        let slot: usize = self.current_slot();
        match event {
            Event::Resized { width, height } => {
                if width > 0 && height > 0 {
                    self.resized = true;
                }
                Action::Nothing
            },
            Event::Tick => {
                if self.phase == Phase::Ready && self.frame_count < u64::MAX {
                    self.phase = Phase::AwaitFence;
                    Action::WaitForFence { slot }
                } else {
                    Action::Rejected
                }
            },
            Event::FenceSignaled => {
                if self.phase == Phase::AwaitFence {
                    self.slots.set(slot, SlotState::Idle);
                    self.phase = Phase::AwaitImage;
                    Action::AcquireImage { slot }
                } else {
                    Action::Rejected
                }
            },
            Event::ImageAcquired { image, suboptimal } => {
                if self.phase == Phase::AwaitImage {
                    self.phase = Phase::AwaitSubmit { image, suboptimal };
                    Action::RecordAndSubmit { slot, image }
                } else {
                    Action::Rejected
                }
            },
            Event::AcquireOutOfDate => {
                if self.phase == Phase::AwaitImage {
                    self.phase = Phase::AwaitIdle;
                    Action::WaitDeviceIdle
                } else {
                    Action::Rejected
                }
            },
            Event::Submitted => {
                match self.phase {
                    Phase::AwaitSubmit { image, suboptimal } => {
                        self.slots.set(slot, SlotState::Submitted);
                        self.phase = Phase::AwaitPresent { image, suboptimal };
                        Action::Present { slot, image }
                    },
                    _ => Action::Rejected,
                }
            },
            Event::Presented { status } => {
                match self.phase {
                    Phase::AwaitPresent { image, suboptimal } => {
                        if status != PresentStatus::Optimal || suboptimal || self.resized {
                            self.phase = Phase::AwaitIdle;
                            self.resized = false;
                            Action::WaitDeviceIdle
                        } else {
                            self.phase = Phase::Ready;
                            self.frame_count = self.frame_count + 1;
                            Action::FrameDone
                        }
                    },
                    _ => Action::Rejected,
                }
            },
            Event::DeviceIdle => {
                if self.phase == Phase::AwaitIdle {
                    let mut i: usize = 0;
                    while i < self.slots.len()
                        invariant
                            i <= self.slots.len(),
                            self.slots@.len() == old(self).slots@.len(),
                            self.frame_count == old(self).frame_count,
                            self.phase == old(self).phase,
                            self.resized == old(self).resized,
                            forall|j: int| 0 <= j < i ==> self.slots@[j] == SlotState::Idle,
                        decreases self.slots.len() - i,
                    {
                        self.slots.set(i, SlotState::Idle);
                        i = i + 1;
                    }
                    assert(self.slots@ =~= idle_ring(old(self).slots@.len()));
                    self.phase = Phase::AwaitRebuild;
                    Action::RebuildSwapchain
                } else {
                    Action::Rejected
                }
            },
            Event::SwapchainRebuilt => {
                if self.phase == Phase::AwaitRebuild {
                    self.phase = Phase::Ready;
                    self.frame_count = self.frame_count + 1;
                    Action::FrameDone
                } else {
                    Action::Rejected
                }
            },
        }
    }
}

/// No more slots are submitted than there are slots.
pub proof fn lemma_count_submitted_bounded(slots: Seq<SlotState>)
    ensures
        count_submitted(slots) <= slots.len(),
    decreases slots.len(),
{
    if slots.len() > 0 {
        lemma_count_submitted_bounded(slots.drop_last());
    }
}

/// Among idle slots none is submitted.
pub proof fn lemma_all_idle_none_submitted(slots: Seq<SlotState>)
    requires
        all_idle(slots),
    ensures
        count_submitted(slots) == 0,
    decreases slots.len(),
{
    if slots.len() > 0 {
        assert(slots.last() == slots[slots.len() - 1]);
        assert forall|i: int| 0 <= i < slots.drop_last().len() implies slots.drop_last()[i]
            == SlotState::Idle by {
            assert(slots.drop_last()[i] == slots[i]);
        }
        lemma_all_idle_none_submitted(slots.drop_last());
    }
}

/// At any instant the frames in flight are no more than the ring has slots.
pub proof fn lemma_in_flight_bounded(s: SyncState)
    ensures
        s.in_flight() <= s.slots.len(),
{
    lemma_count_submitted_bounded(s.slots);
}

/// Every event leaves the synchroniser well formed and the ring as long as
/// it was.
pub proof fn lemma_step_preserves_well_formed(s: SyncState, event: Event)
    requires
        s.well_formed(),
    ensures
        step_spec(s, event).0.well_formed(),
        step_spec(s, event).0.slots.len() == s.slots.len(),
{
}

/// Whatever the host reports, and in whatever order, a synchroniser that
/// started with `slot_count` slots keeps them, stays well formed, and never
/// has more than `slot_count` frames in flight.
pub proof fn lemma_run_keeps_ring(slot_count: nat, events: Seq<Event>)
    requires
        0 < slot_count <= usize::MAX,
    ensures
        run_spec(initial_state(slot_count), events).well_formed(),
        run_spec(initial_state(slot_count), events).slots.len() == slot_count,
        run_spec(initial_state(slot_count), events).in_flight() <= slot_count,
    decreases events.len(),
{
    if events.len() > 0 {
        lemma_run_keeps_ring(slot_count, events.drop_last());
        lemma_step_preserves_well_formed(
            run_spec(initial_state(slot_count), events.drop_last()),
            events.last(),
        );
    }
    lemma_in_flight_bounded(run_spec(initial_state(slot_count), events));
}

/// The frame counter moves only when a tick ends, and then by one.
pub proof fn lemma_frame_count_advances(s: SyncState, event: Event)
    requires
        s.well_formed(),
    ensures
        step_spec(s, event).1 == Action::FrameDone ==> step_spec(s, event).0.frame_count
            == s.frame_count + 1,
        step_spec(s, event).1 != Action::FrameDone ==> step_spec(s, event).0.frame_count
            == s.frame_count,
{
}

/// Commands are recorded and submitted only for the slot of the tick, and
/// only while that slot is idle: the device never works on a command buffer
/// that is being written.
pub proof fn lemma_records_into_idle_slot(s: SyncState, event: Event)
    requires
        s.well_formed(),
    ensures
        step_spec(s, event).1 matches Action::RecordAndSubmit { slot, image } ==> {
            &&& slot == s.slot()
            &&& s.slots[slot as int] == SlotState::Idle
            &&& step_spec(s, event).0.slots[slot as int] == SlotState::Idle
        },
{
}

/// The swapchain is rebuilt only while no frame is in flight.
pub proof fn lemma_rebuilds_while_idle(s: SyncState, event: Event)
    requires
        s.well_formed(),
    ensures
        step_spec(s, event).1 == Action::RebuildSwapchain ==> step_spec(s, event).0.in_flight()
            == 0,
        step_spec(s, event).0.phase == Phase::AwaitRebuild ==> step_spec(s, event).0.in_flight()
            == 0,
{
    let after = step_spec(s, event).0;
    if after.phase == Phase::AwaitRebuild {
        lemma_step_preserves_well_formed(s, event);
        lemma_all_idle_none_submitted(after.slots);
    }
}

/// While the swapchain is recreated, nothing is acquired, recorded,
/// submitted or presented.
pub proof fn lemma_recreation_stalls_the_tick(s: SyncState, event: Event)
    requires
        s.phase == Phase::AwaitIdle || s.phase == Phase::AwaitRebuild,
    ensures
        step_spec(s, event).1 == Action::Nothing || step_spec(s, event).1 == Action::Rejected
            || step_spec(s, event).1 == Action::RebuildSwapchain || step_spec(s, event).1
            == Action::FrameDone,
{
}

/// The size of a window without pixels is not acted on: the report changes
/// nothing. Any other size is remembered until a tick acts on it.
pub proof fn lemma_resize_signal(s: SyncState, width: u32, height: u32)
    ensures
        width == 0 || height == 0 ==> step_spec(s, Event::Resized { width, height }) == (
            s,
            Action::Nothing,
        ),
        width > 0 && height > 0 ==> step_spec(s, Event::Resized { width, height }) == (
            SyncState { resized: true, ..s },
            Action::Nothing,
        ),
{
}

/// After a presentation the swapchain is recreated exactly when the
/// presentation or the acquisition before it found the swapchain not to fit
/// the surface any more, or a new window size waits; the tick then acts on
/// the new size.
pub proof fn lemma_recreation_after_present(
    s: SyncState,
    image: u32,
    suboptimal: bool,
    status: PresentStatus,
)
    requires
        s.phase == (Phase::AwaitPresent { image, suboptimal }),
    ensures
        step_spec(s, Event::Presented { status }).1 == Action::WaitDeviceIdle <==> (status
            != PresentStatus::Optimal || suboptimal || s.resized),
        step_spec(s, Event::Presented { status }).1 == Action::WaitDeviceIdle ==> !step_spec(
            s,
            Event::Presented { status },
        ).0.resized,
        step_spec(s, Event::Presented { status }).1 == Action::WaitDeviceIdle || step_spec(
            s,
            Event::Presented { status },
        ).1 == Action::FrameDone,
{
}

/// A tick in which nothing goes wrong: the slot is the frame counter modulo
/// the number of slots, the same slot is waited for, acquired on, recorded
/// and presented, and at the end that slot alone is newly in flight and the
/// counter is one higher.
pub proof fn lemma_plain_tick(s: SyncState, image: u32)
    requires
        s.well_formed(),
        s.phase == Phase::Ready,
        s.frame_count < u64::MAX,
        !s.resized,
    ensures
        ({
            let slot = s.slot() as usize;
            let (s1, a1) = step_spec(s, Event::Tick);
            let (s2, a2) = step_spec(s1, Event::FenceSignaled);
            let (s3, a3) = step_spec(s2, Event::ImageAcquired { image, suboptimal: false });
            let (s4, a4) = step_spec(s3, Event::Submitted);
            let (s5, a5) = step_spec(s4, Event::Presented { status: PresentStatus::Optimal });
            &&& a1 == Action::WaitForFence { slot }
            &&& a2 == Action::AcquireImage { slot }
            &&& a3 == Action::RecordAndSubmit { slot, image }
            &&& a4 == Action::Present { slot, image }
            &&& a5 == Action::FrameDone
            &&& s5 == SyncState {
                slots: s.slots.update(slot as int, SlotState::Submitted),
                frame_count: (s.frame_count + 1) as u64,
                ..s
            }
        }),
{
    let slot = s.slot();
    assert(s.slots.update(slot, SlotState::Idle).update(slot, SlotState::Submitted)
        =~= s.slots.update(slot, SlotState::Submitted));
}

/// A tick whose acquisition finds the swapchain out of date: the swapchain
/// is recreated before anything is recorded or submitted, the tick ends
/// without a frame, and the counter is one higher all the same.
pub proof fn lemma_out_of_date_tick(s: SyncState)
    requires
        s.well_formed(),
        s.phase == Phase::Ready,
        s.frame_count < u64::MAX,
    ensures
        ({
            let slot = s.slot() as usize;
            let (s1, a1) = step_spec(s, Event::Tick);
            let (s2, a2) = step_spec(s1, Event::FenceSignaled);
            let (s3, a3) = step_spec(s2, Event::AcquireOutOfDate);
            let (s4, a4) = step_spec(s3, Event::DeviceIdle);
            let (s5, a5) = step_spec(s4, Event::SwapchainRebuilt);
            &&& a1 == Action::WaitForFence { slot }
            &&& a2 == Action::AcquireImage { slot }
            &&& a3 == Action::WaitDeviceIdle
            &&& a4 == Action::RebuildSwapchain
            &&& a5 == Action::FrameDone
            &&& s5 == SyncState {
                slots: idle_ring(s.slots.len()),
                frame_count: (s.frame_count + 1) as u64,
                ..s
            }
            &&& s5.in_flight() == 0
        }),
{
    lemma_all_idle_none_submitted(idle_ring(s.slots.len()));
}

/// The state after a tick on `image` in which nothing goes wrong.
pub open spec fn plain_tick_spec(s: SyncState, image: u32) -> SyncState {
    let s1 = step_spec(s, Event::Tick).0;
    let s2 = step_spec(s1, Event::FenceSignaled).0;
    let s3 = step_spec(s2, Event::ImageAcquired { image, suboptimal: false }).0;
    let s4 = step_spec(s3, Event::Submitted).0;
    step_spec(s4, Event::Presented { status: PresentStatus::Optimal }).0
}

/// The state after one such tick for each image of `images`, in order.
pub open spec fn plain_ticks_spec(s: SyncState, images: Seq<u32>) -> SyncState
    decreases images.len(),
{
    if images.len() == 0 {
        s
    } else {
        plain_tick_spec(plain_ticks_spec(s, images.drop_last()), images.last())
    }
}

/// After any number of ticks in which nothing goes wrong and the window
/// keeps its size, the frame counter is the number of ticks, and the next
/// tick takes the slot that this number leaves modulo the number of slots:
/// with two slots the ticks take slots 0, 1, 0, 1 and so on.
pub proof fn lemma_plain_ticks(slot_count: nat, images: Seq<u32>)
    requires
        0 < slot_count <= usize::MAX,
        images.len() < u64::MAX,
    ensures
        plain_ticks_spec(initial_state(slot_count), images).well_formed(),
        plain_ticks_spec(initial_state(slot_count), images).frame_count == images.len(),
        plain_ticks_spec(initial_state(slot_count), images).phase == Phase::Ready,
        !plain_ticks_spec(initial_state(slot_count), images).resized,
        plain_ticks_spec(initial_state(slot_count), images).slots.len() == slot_count,
        step_spec(plain_ticks_spec(initial_state(slot_count), images), Event::Tick).1
            == (Action::WaitForFence { slot: (images.len() % slot_count) as usize }),
    decreases images.len(),
{
    if images.len() > 0 {
        let before = plain_ticks_spec(initial_state(slot_count), images.drop_last());
        lemma_plain_ticks(slot_count, images.drop_last());
        lemma_plain_tick(before, images.last());
    }
}

} // verus!
