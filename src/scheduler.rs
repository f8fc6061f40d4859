use vstd::prelude::*;

verus! {

/// What the driver answered when asked for the next presentable image.
#[derive(Clone, Copy, Debug, PartialEq, Eq, Structural)]
pub enum AcquireOutcome {
    /// Image `index` can be drawn into; `suboptimal` means the swapchain still
    /// works but no longer matches the surface.
    Acquired { index: usize, suboptimal: bool },
    /// The swapchain no longer matches the surface and must be recreated.
    OutOfDate,
    /// Any other failure.
    Failed,
}

/// What the loop does after an acquisition.
#[derive(Debug)]
pub enum AcquireStep<S> {
    /// Draw into image `index` and present it. If `wait` holds a signal, the
    /// last submission to this image is still unconfirmed: wait for the signal
    /// to fire before submitting.
    Render { index: usize, wait: Option<S> },
    /// Submit nothing this iteration; the swapchain is recreated first in the
    /// next one.
    Skip,
    /// End the session.
    Fatal,
}

/// How a submission, with its presentation, ended.
#[derive(Debug)]
pub enum FlushOutcome<S> {
    /// Submitted and queued for presentation; `S` fires when the work is done.
    Done(S),
    /// The swapchain went out of date on the way.
    OutOfDate,
    /// Any other failure.
    Failed,
}

/// What became of a frame.
#[derive(Clone, Copy, Debug, PartialEq, Eq, Structural)]
pub enum FlushStep {
    Presented,
    /// Not presented; the swapchain is recreated in the next iteration.
    Stale,
    /// Not presented; the loop goes on.
    Dropped,
}

/// What has to be rebuilt before the next acquisition.
#[derive(Clone, Copy, Debug, PartialEq, Eq, Structural)]
pub struct Recreation {
    /// Recreate the swapchain at the window's current size, with its
    /// framebuffers and command buffers.
    pub swapchain: bool,
    /// Rebuild the viewport and the pipeline too.
    pub pipeline: bool,
}

/// The abstract state of a `FrameScheduler`.
pub ghost struct SchedulerState<S> {
    /// The completion-signal ring: one slot per swapchain image, holding the
    /// signal of the last submission to that image, if it is unconfirmed.
    pub slots: Seq<Option<S>>,
    /// The image of the last submission.
    pub previous: usize,
    /// The window reported a new size.
    pub window_resized: bool,
    /// The swapchain was reported out of date or suboptimal.
    pub stale: bool,
    /// The image acquired for the frame being drawn, if any.
    pub acquired: Option<usize>,
}

pub open spec fn empty_ring<S>(n: nat) -> Seq<Option<S>> {
    Seq::new(n, |i: int| None::<S>)
}

/// The signals held in `slots`, in slot order.
pub open spec fn pending_signals<S>(slots: Seq<Option<S>>) -> Seq<S>
    decreases slots.len(),
{
    if slots.len() == 0 {
        Seq::empty()
    } else {
        let rest = pending_signals(slots.drop_first());
        match slots[0] {
            Some(s) => seq![s] + rest,
            None => rest,
        }
    }
}

impl<S> SchedulerState<S> {
    pub open spec fn fresh(image_count: nat) -> SchedulerState<S> {
        SchedulerState {
            slots: empty_ring(image_count),
            previous: 0,
            window_resized: false,
            stale: false,
            acquired: None,
        }
    }

    /// The ring is not empty, the previous image is one of its slots, and the
    /// slot of an acquired image is empty: its earlier signal was handed out to
    /// be waited on.
    pub open spec fn wf(self) -> bool {
        &&& self.slots.len() > 0
        &&& self.previous < self.slots.len()
        &&& match self.acquired {
            Some(i) => i < self.slots.len() && self.slots[i as int].is_none(),
            None => true,
        }
    }

    pub open spec fn recreation(self) -> Recreation {
        Recreation {
            swapchain: self.window_resized || self.stale,
            pipeline: self.window_resized,
        }
    }

    pub open spec fn after_acquire(self, outcome: AcquireOutcome) -> (SchedulerState<S>, AcquireStep<S>) {
        match outcome {
            AcquireOutcome::Acquired { index, suboptimal } => {
                if index < self.slots.len() {
                    (
                        SchedulerState {
                            slots: self.slots.update(index as int, None),
                            stale: self.stale || suboptimal,
                            acquired: Some(index),
                            ..self
                        },
                        AcquireStep::Render { index, wait: self.slots[index as int] },
                    )
                } else {
                    (self, AcquireStep::Fatal)
                }
            },
            AcquireOutcome::OutOfDate => (
                SchedulerState { stale: true, acquired: None, ..self },
                AcquireStep::Skip,
            ),
            AcquireOutcome::Failed => (self, AcquireStep::Fatal),
        }
    }

    pub open spec fn after_flush(self, outcome: FlushOutcome<S>) -> (SchedulerState<S>, FlushStep) {
        match self.acquired {
            None => (self, FlushStep::Dropped),
            Some(i) => match outcome {
                FlushOutcome::Done(s) => (
                    SchedulerState {
                        slots: self.slots.update(i as int, Some(s)),
                        previous: i,
                        acquired: None,
                        ..self
                    },
                    FlushStep::Presented,
                ),
                FlushOutcome::OutOfDate => (
                    SchedulerState { previous: i, stale: true, acquired: None, ..self },
                    FlushStep::Stale,
                ),
                FlushOutcome::Failed => (
                    SchedulerState { previous: i, acquired: None, ..self },
                    FlushStep::Dropped,
                ),
            },
        }
    }

    /// One iteration without recreation: acquire, and on success submit and
    /// present. Gives the new state, the image submitted to, and whether it
    /// was presented.
    pub open spec fn iterate(self, acquire: AcquireOutcome, flush: FlushOutcome<S>) -> (
        SchedulerState<S>,
        Option<usize>,
        bool,
    ) {
        let (s1, step) = self.after_acquire(acquire);
        match step {
            AcquireStep::Render { index, wait } => {
                let (s2, f) = s1.after_flush(flush);
                (s2, Some(index), f == FlushStep::Presented)
            },
            _ => (s1, None, false),
        }
    }
}

/// Runs one iteration per entry of `indices`, in which the driver hands out
/// that image and the submission succeeds with the matching entry of
/// `signals`. Gives the final state, the images submitted to, in order, and
/// the number of presentations.
pub open spec fn steady_run<S>(s: SchedulerState<S>, indices: Seq<usize>, signals: Seq<S>) -> (
    SchedulerState<S>,
    Seq<usize>,
    nat,
)
    decreases indices.len(),
{
    if indices.len() == 0 || signals.len() == 0 {
        (s, Seq::empty(), 0)
    } else {
        let (s0, submitted, presented) = steady_run(s, indices.drop_last(), signals.drop_last());
        let (s1, index, shown) = s0.iterate(
            AcquireOutcome::Acquired { index: indices.last(), suboptimal: false },
            FlushOutcome::Done(signals.last()),
        );
        let submitted1 = match index {
            Some(i) => submitted.push(i),
            None => submitted,
        };
        (s1, submitted1, if shown { presented + 1 } else { presented })
    }
}

/// The ring has one slot per swapchain image at all times: acquisitions and
/// submissions never change its size, and a recreation for `image_count`
/// images leaves exactly that many slots, all empty.
pub proof fn lemma_ring_size<S>(
    s: SchedulerState<S>,
    acquire: AcquireOutcome,
    flush: FlushOutcome<S>,
    image_count: nat,
)
    requires
        s.wf(),
    ensures
        s.after_acquire(acquire).0.slots.len() == s.slots.len(),
        s.after_flush(flush).0.slots.len() == s.slots.len(),
        SchedulerState::<S>::fresh(image_count).slots.len() == image_count,
        forall|i: int|
            0 <= i < image_count ==> (#[trigger] SchedulerState::<S>::fresh(
                image_count,
            ).slots[i]).is_none(),
{
}

/// An image is reused only after the signal of its last submission was handed
/// out to be waited on: acquiring it empties its slot and hands out what the
/// slot held, and the submission that follows touches no other slot and
/// leaves in this one only its own signal.
pub proof fn lemma_waits_before_reuse<S>(
    s: SchedulerState<S>,
    index: usize,
    suboptimal: bool,
    flush: FlushOutcome<S>,
)
    requires
        s.wf(),
        index < s.slots.len(),
    ensures
        ({
            let (s1, step) = s.after_acquire(AcquireOutcome::Acquired { index, suboptimal });
            let (s2, f) = s1.after_flush(flush);
            &&& step == AcquireStep::Render { index, wait: s.slots[index as int] }
            &&& s1.slots[index as int].is_none()
            &&& s2.slots.len() == s.slots.len()
            &&& forall|j: int|
                0 <= j < s.slots.len() && j != index ==> #[trigger] s2.slots[j] == s.slots[j]
            &&& s2.slots[index as int] == match flush {
                FlushOutcome::Done(sig) => Some(sig),
                _ => None,
            }
        }),
{
}

/// With no resize and no error, N iterations submit to exactly the N images
/// that the driver handed out, in the order it handed them out, present N
/// times, and leave nothing to recreate.
pub proof fn lemma_steady_state<S>(s: SchedulerState<S>, indices: Seq<usize>, signals: Seq<S>)
    requires
        s.wf(),
        !s.window_resized,
        !s.stale,
        indices.len() == signals.len(),
        forall|k: int| 0 <= k < indices.len() ==> #[trigger] indices[k] < s.slots.len(),
    ensures
        ({
            let (t, submitted, presented) = steady_run(s, indices, signals);
            &&& submitted == indices
            &&& presented == indices.len()
            &&& t.wf()
            &&& t.slots.len() == s.slots.len()
            &&& t.recreation() == (Recreation { swapchain: false, pipeline: false })
        }),
    decreases indices.len(),
{
    if indices.len() > 0 {
        let front = indices.drop_last();
        assert forall|k: int| 0 <= k < front.len() implies #[trigger] front[k] < s.slots.len() by {
            assert(front[k] == indices[k]);
        }
        lemma_steady_state(s, front, signals.drop_last());
        assert(front.push(indices.last()) =~= indices);
    }
}

/// The frame loop's decisions: when to recreate, which signal to wait on
/// before reusing an image, what to chain a submission on, and what to keep
/// of each submission.
pub struct FrameScheduler<S> {
    slots: Vec<Option<S>>,
    previous: usize,
    window_resized: bool,
    stale: bool,
    acquired: Option<usize>,
}

impl<S> View for FrameScheduler<S> {
    type V = SchedulerState<S>;

    closed spec fn view(&self) -> SchedulerState<S> {
        SchedulerState {
            slots: self.slots@,
            previous: self.previous,
            window_resized: self.window_resized,
            stale: self.stale,
            acquired: self.acquired,
        }
    }
}

fn empty_slots<S>(n: usize) -> (r: Vec<Option<S>>)
    ensures
        r@ == empty_ring::<S>(n as nat),
{
    let mut r: Vec<Option<S>> = Vec::new();
    let mut i: usize = 0;
    while i < n
        invariant
            i <= n,
            r@ == empty_ring::<S>(i as nat),
        decreases n - i,
    {
        r.push(None);
        i = i + 1;
        assert(r@ =~= empty_ring::<S>(i as nat));
    }
    r
}

fn take_pending<S>(slots: Vec<Option<S>>) -> (r: Vec<S>)
    ensures
        r@ == pending_signals(slots@),
{
    let ghost all = slots@;
    let mut rest = slots;
    let mut r: Vec<S> = Vec::new();
    while rest.len() > 0
        invariant
            r@ + pending_signals(rest@) == pending_signals(all),
        decreases rest@.len(),
    {
        let ghost before = rest@;
        let slot = rest.remove(0);
        assert(rest@ =~= before.drop_first());
        match slot {
            Some(s) => {
                r.push(s);
                assert(r@ + pending_signals(rest@) =~= pending_signals(all));
            },
            None => {},
        }
    }
    assert(r@ + pending_signals(rest@) =~= r@);
    r
}

impl<S> FrameScheduler<S> {
    pub open spec fn wf(&self) -> bool {
        self@.wf()
    }

    /// A scheduler for a swapchain of `image_count` images, with every slot
    /// empty.
    pub fn new(image_count: usize) -> (r: Self)
        requires
            image_count > 0,
        ensures
            r@ == SchedulerState::<S>::fresh(image_count as nat),
            r.wf(),
    {
        FrameScheduler {
            slots: empty_slots(image_count),
            previous: 0,
            window_resized: false,
            stale: false,
            acquired: None,
        }
    }

    /// The number of slots, which is the number of swapchain images.
    pub fn image_count(&self) -> (r: usize)
        ensures
            r == self@.slots.len(),
    {
        self.slots.len()
    }

    /// Whether a submission to image `index` is unconfirmed.
    pub fn is_pending(&self, index: usize) -> (r: bool)
        requires
            index < self@.slots.len(),
        ensures
            r == self@.slots[index as int].is_some(),
    {
        self.slots[index].is_some()
    }

    /// The window reported a new size.
    pub fn notify_resized(&mut self)
        ensures
            final(self)@ == (SchedulerState { window_resized: true, ..old(self)@ }),
    {
        self.window_resized = true;
    }

    /// What to rebuild before the next acquisition: the swapchain after a
    /// resize or when it was found out of date, the pipeline only after a
    /// resize.
    pub fn recreation(&self) -> (r: Recreation)
        ensures
            r == self@.recreation(),
    {
        Recreation {
            swapchain: self.window_resized || self.stale,
            pipeline: self.window_resized,
        }
    }

    /// The swapchain was recreated with `image_count` images. The ring is
    /// replaced by one empty slot per new image and the pending flags are
    /// cleared. The signals that the old ring held are handed back, so that
    /// the old resources are released only after they fire.
    pub fn recreated(&mut self, image_count: usize) -> (retired: Vec<S>)
        requires
            image_count > 0,
        ensures
            final(self)@ == SchedulerState::<S>::fresh(image_count as nat),
            retired@ == pending_signals(old(self)@.slots),
    {
        let mut slots = empty_slots(image_count);
        std::mem::swap(&mut self.slots, &mut slots);
        self.previous = 0;
        self.window_resized = false;
        self.stale = false;
        self.acquired = None;
        take_pending(slots)
    }

    /// Takes the driver's answer to an acquisition. On an image, its slot is
    /// emptied and its signal handed out to be waited on; a suboptimal
    /// swapchain is recreated in the next iteration. Out of date: nothing is
    /// submitted and the swapchain is recreated next. Any other failure, or an
    /// image that the ring does not have, ends the session.
    pub fn acquired(&mut self, outcome: AcquireOutcome) -> (r: AcquireStep<S>)
        requires
            old(self).wf(),
        ensures
            (final(self)@, r) == old(self)@.after_acquire(outcome),
            final(self).wf(),
    {
        match outcome {
            AcquireOutcome::Acquired { index, suboptimal } => {
                if index < self.slots.len() {
                    let mut wait: Option<S> = None;
                    self.slots.set_and_swap(index, &mut wait);
                    self.stale = self.stale || suboptimal;
                    self.acquired = Some(index);
                    AcquireStep::Render { index, wait }
                } else {
                    AcquireStep::Fatal
                }
            },
            AcquireOutcome::OutOfDate => {
                self.stale = true;
                self.acquired = None;
                AcquireStep::Skip
            },
            AcquireOutcome::Failed => AcquireStep::Fatal,
        }
    }

    /// The signal to chain the next submission on: that of the last
    /// submission, while it is unconfirmed. Without one the submission waits
    /// only for its image.
    pub fn chain_signal(&self) -> (r: Option<&S>)
        requires
            self.wf(),
        ensures
            match r {
                Some(s) => self@.slots[self@.previous as int] == Some(*s),
                None => self@.slots[self@.previous as int].is_none(),
            },
    {
        self.slots[self.previous].as_ref()
    }

    /// Takes the outcome of the submission for the acquired image. A
    /// completion signal is kept in that image's slot; the image becomes the
    /// one that the next submission chains on, whatever the outcome.
    pub fn submitted(&mut self, outcome: FlushOutcome<S>) -> (r: FlushStep)
        requires
            old(self).wf(),
            old(self)@.acquired.is_some(),
        ensures
            (final(self)@, r) == old(self)@.after_flush(outcome),
            final(self).wf(),
    {
        let i = match self.acquired {
            Some(i) => i,
            None => 0,
        };
        self.previous = i;
        self.acquired = None;
        match outcome {
            FlushOutcome::Done(s) => {
                self.slots.set(i, Some(s));
                FlushStep::Presented
            },
            FlushOutcome::OutOfDate => {
                self.stale = true;
                FlushStep::Stale
            },
            FlushOutcome::Failed => FlushStep::Dropped,
        }
    }
}

} // verus!
