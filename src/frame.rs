use vstd::prelude::*;
use ash::vk;

verus! {

/// The steps of one frame on the reusable command buffer, in the order
/// they must be carried out.
#[derive(Clone, Copy, Debug, PartialEq, Eq)]
pub enum FrameStep {
    /// Block until the fence shows the previous submission finished.
    WaitForFence,
    /// Return the fence to unsignaled.
    ResetFence,
    /// Discard what the command buffer held.
    ResetCommandBuffer,
    /// Begin recording, for one submission.
    BeginRecording,
    /// Let the caller record its commands.
    Record,
    /// End recording.
    EndRecording,
    /// Submit to the queue with the semaphores, signalling the fence.
    Submit,
}

/// Where the command buffer stands between steps.
#[derive(Clone, Copy, Debug, PartialEq, Eq)]
pub enum FramePhase {
    /// Nothing recorded since the last submission; the fence may be awaited.
    Idle,
    /// The fence has been awaited and the buffer is being prepared or recorded.
    Recording,
}

/// Number of steps in one frame.
pub const STEPS_PER_FRAME: usize = 7;

/// The step at position `i` of the step sequence of a run of frames.
pub open spec fn protocol_step(i: nat) -> FrameStep {
    let k = i % 7;
    if k == 0 {
        FrameStep::WaitForFence
    } else if k == 1 {
        FrameStep::ResetFence
    } else if k == 2 {
        FrameStep::ResetCommandBuffer
    } else if k == 3 {
        FrameStep::BeginRecording
    } else if k == 4 {
        FrameStep::Record
    } else if k == 5 {
        FrameStep::EndRecording
    } else {
        FrameStep::Submit
    }
}

/// `h` is a prefix of the endless repetition of one frame's steps.
#[verifier::opaque]
pub open spec fn follows_protocol(h: Seq<FrameStep>) -> bool {
    forall|i: int| 0 <= i < h.len() ==> #[trigger] h[i] == protocol_step(i as nat)
}

/// The step that follows `s`, wrapping from `Submit` to the next frame.
pub open spec fn step_after(s: FrameStep) -> FrameStep {
    match s {
        FrameStep::WaitForFence => FrameStep::ResetFence,
        FrameStep::ResetFence => FrameStep::ResetCommandBuffer,
        FrameStep::ResetCommandBuffer => FrameStep::BeginRecording,
        FrameStep::BeginRecording => FrameStep::Record,
        FrameStep::Record => FrameStep::EndRecording,
        FrameStep::EndRecording => FrameStep::Submit,
        FrameStep::Submit => FrameStep::WaitForFence,
    }
}

/// Hands out the steps of each frame for one command buffer and its fence,
/// in protocol order, and keeps the steps handed out so far.
pub struct FrameCoordinator {
    next: FrameStep,
    history: Ghost<Seq<FrameStep>>,
}

impl FrameCoordinator {
    /// Every step handed out so far, oldest first.
    pub closed spec fn spec_history(&self) -> Seq<FrameStep> {
        self.history@
    }

    pub closed spec fn wf(&self) -> bool {
        &&& follows_protocol(self.history@)
        &&& self.next == protocol_step(self.history@.len())
    }

    /// A coordinator for a command buffer that is idle and whose fence was
    /// created signaled.
    pub fn new() -> (r: Self)
        ensures
            r.wf(),
            follows_protocol(r.spec_history()),
            r.spec_history() == Seq::<FrameStep>::empty(),
    {
        proof {
            reveal(follows_protocol);
        }
        FrameCoordinator { next: FrameStep::WaitForFence, history: Ghost(Seq::empty()) }
    }

    /// The step that must be carried out next.
    pub fn next_step(&self) -> (r: FrameStep)
        requires
            self.wf(),
        ensures
            r == protocol_step(self.spec_history().len()),
    {
        self.next
    }

    /// Where the command buffer stands: idle between a submission and the
    /// next wait, recording from the wait up to the submission.
    pub fn phase(&self) -> (r: FramePhase)
        requires
            self.wf(),
        ensures
            r == FramePhase::Idle <==> self.spec_history().len() % 7 == 0,
    {
        match self.next {
            FrameStep::WaitForFence => FramePhase::Idle,
            _ => FramePhase::Recording,
        }
    }

    /// Hands out the next step and records it as carried out.
    pub fn advance(&mut self) -> (r: FrameStep)
        requires
            old(self).wf(),
        ensures
            final(self).wf(),
            follows_protocol(final(self).spec_history()),
            r == protocol_step(old(self).spec_history().len()),
            final(self).spec_history() == old(self).spec_history().push(r),
    {
        let step = self.next;
        let next = match step {
            FrameStep::WaitForFence => FrameStep::ResetFence,
            FrameStep::ResetFence => FrameStep::ResetCommandBuffer,
            FrameStep::ResetCommandBuffer => FrameStep::BeginRecording,
            FrameStep::BeginRecording => FrameStep::Record,
            FrameStep::Record => FrameStep::EndRecording,
            FrameStep::EndRecording => FrameStep::Submit,
            FrameStep::Submit => FrameStep::WaitForFence,
        };
        proof {
            lemma_step_after(self.history@.len());
        }
        self.next = next;
        self.history = Ghost(self.history@.push(step));
        proof {
            reveal(follows_protocol);
            assert forall|i: int| 0 <= i < self.history@.len() implies #[trigger] self.history@[i]
                == protocol_step(i as nat) by {
                if i < old(self).history@.len() {
                    assert(old(self).history@[i] == protocol_step(i as nat));
                }
            }
        }
        step
    }
}

/// The step at position `i + 1` follows the one at `i`.
proof fn lemma_step_after(i: nat)
    ensures
        protocol_step(i + 1) == step_after(protocol_step(i)),
{
    assert((i + 1) % 7 == if i % 7 == 6 { 0 } else { i % 7 + 1 });
}

/// Which positions hold a submission, a fence wait or a command-buffer reset.
proof fn lemma_step_kinds(i: nat)
    ensures
        protocol_step(i) == FrameStep::Submit <==> i % 7 == 6,
        protocol_step(i) == FrameStep::WaitForFence <==> i % 7 == 0,
        protocol_step(i) == FrameStep::ResetCommandBuffer <==> i % 7 == 2,
{
}

/// A submission that is not the last step is followed by a fence wait.
proof fn lemma_submit_then_wait(h: Seq<FrameStep>, i: int)
    requires
        follows_protocol(h),
        0 <= i,
        i + 1 < h.len(),
        h[i] == FrameStep::Submit,
    ensures
        h[i + 1] == FrameStep::WaitForFence,
{
    reveal(follows_protocol);
    assert(h[i] == protocol_step(i as nat));
    assert(h[i + 1] == protocol_step((i + 1) as nat));
    lemma_step_kinds(i as nat);
    lemma_step_kinds((i + 1) as nat);
}

/// A fence wait after the first position follows a submission.
proof fn lemma_wait_follows_submit(h: Seq<FrameStep>, k: int)
    requires
        follows_protocol(h),
        0 < k < h.len(),
        h[k] == FrameStep::WaitForFence,
    ensures
        h[k - 1] == FrameStep::Submit,
{
    reveal(follows_protocol);
    assert(h[k] == protocol_step(k as nat));
    assert(h[k - 1] == protocol_step((k - 1) as nat));
    lemma_step_kinds(k as nat);
    lemma_step_kinds((k - 1) as nat);
}

/// A command-buffer reset comes two steps after a fence wait.
proof fn lemma_reset_follows_wait(h: Seq<FrameStep>, k: int)
    requires
        follows_protocol(h),
        0 <= k < h.len(),
        h[k] == FrameStep::ResetCommandBuffer,
    ensures
        k >= 2,
        h[k - 2] == FrameStep::WaitForFence,
{
    reveal(follows_protocol);
    assert(h[k] == protocol_step(k as nat));
    lemma_step_kinds(k as nat);
    assert(h[k - 2] == protocol_step((k - 2) as nat));
    lemma_step_kinds((k - 2) as nat);
}

/// In any run of frames on one command buffer and fence, fence waits and
/// submissions strictly alternate: a submission that is not the last step
/// is followed at once by a fence wait, so no two submissions come without
/// a wait between them; every wait but the first comes right after the
/// previous frame's submission; and the command buffer is reset only two
/// steps after its fence has been awaited.
pub proof fn lemma_wait_and_submit_alternate(h: Seq<FrameStep>)
    requires
        follows_protocol(h),
    ensures
        forall|i: int, k: int|
            #![trigger h[i], h[k]]
            0 <= i && k == i + 1 && k < h.len() && h[i] == FrameStep::Submit ==> h[k]
                == FrameStep::WaitForFence,
        forall|p: int, k: int|
            #![trigger h[p], h[k]]
            0 <= p && k == p + 1 && k < h.len() && h[k] == FrameStep::WaitForFence ==> h[p]
                == FrameStep::Submit,
        forall|k: int|
            0 <= k < h.len() && #[trigger] h[k] == FrameStep::ResetCommandBuffer ==> k >= 2,
        forall|w: int, k: int|
            #![trigger h[w], h[k]]
            0 <= w && k == w + 2 && k < h.len() && h[k] == FrameStep::ResetCommandBuffer ==> h[w]
                == FrameStep::WaitForFence,
{
    assert forall|i: int, k: int|
        #![trigger h[i], h[k]]
        0 <= i && k == i + 1 && k < h.len() && h[i] == FrameStep::Submit implies h[k]
        == FrameStep::WaitForFence by {
        lemma_submit_then_wait(h, i);
    }
    assert forall|p: int, k: int|
        #![trigger h[p], h[k]]
        0 <= p && k == p + 1 && k < h.len() && h[k] == FrameStep::WaitForFence implies h[p]
        == FrameStep::Submit by {
        lemma_wait_follows_submit(h, k);
    }
    assert forall|k: int|
        0 <= k < h.len() && #[trigger] h[k] == FrameStep::ResetCommandBuffer implies k >= 2 by {
        lemma_reset_follows_wait(h, k);
    }
    assert forall|w: int, k: int|
        #![trigger h[w], h[k]]
        0 <= w && k == w + 2 && k < h.len() && h[k] == FrameStep::ResetCommandBuffer implies h[w]
        == FrameStep::WaitForFence by {
        lemma_reset_follows_wait(h, k);
    }
}

/// Why a submission could not be described.
#[derive(Clone, Copy, Debug, PartialEq, Eq)]
pub enum FrameError {
    /// The wait semaphores and their wait-stage masks differ in number.
    WaitMaskMismatch,
}

/// What a frame is submitted with: the semaphores the queue waits on, each
/// with the stages that wait, and the semaphores it signals when done.
pub struct SubmitSync {
    wait_semaphores: Vec<vk::Semaphore>,
    wait_stage_masks: Vec<u32>,
    signal_semaphores: Vec<vk::Semaphore>,
}

impl SubmitSync {
    pub closed spec fn spec_wait_semaphores(&self) -> Seq<vk::Semaphore> {
        self.wait_semaphores@
    }

    pub closed spec fn spec_wait_stage_masks(&self) -> Seq<u32> {
        self.wait_stage_masks@
    }

    pub closed spec fn spec_signal_semaphores(&self) -> Seq<vk::Semaphore> {
        self.signal_semaphores@
    }

    /// Pairs each wait semaphore with its stage mask; fails when the two
    /// lists differ in length.
    pub fn new(
        wait_stage_masks: Vec<u32>,
        wait_semaphores: Vec<vk::Semaphore>,
        signal_semaphores: Vec<vk::Semaphore>,
    ) -> (r: Result<Self, FrameError>)
        ensures
            r is Err <==> wait_stage_masks@.len() != wait_semaphores@.len(),
            r is Err ==> r->Err_0 == FrameError::WaitMaskMismatch,
            r is Ok ==> {
                &&& r->Ok_0.spec_wait_stage_masks() == wait_stage_masks@
                &&& r->Ok_0.spec_wait_semaphores() == wait_semaphores@
                &&& r->Ok_0.spec_signal_semaphores() == signal_semaphores@
            },
    {
        if wait_stage_masks.len() != wait_semaphores.len() {
            return Err(FrameError::WaitMaskMismatch);
        }
        Ok(SubmitSync { wait_semaphores, wait_stage_masks, signal_semaphores })
    }

    pub fn wait_semaphores(&self) -> (r: &[vk::Semaphore])
        ensures
            r@ == self.spec_wait_semaphores(),
    {
        self.wait_semaphores.as_slice()
    }

    pub fn wait_stage_masks(&self) -> (r: &[u32])
        ensures
            r@ == self.spec_wait_stage_masks(),
    {
        self.wait_stage_masks.as_slice()
    }

    pub fn signal_semaphores(&self) -> (r: &[vk::Semaphore])
        ensures
            r@ == self.spec_signal_semaphores(),
    {
        self.signal_semaphores.as_slice()
    }
}

} // verus!
