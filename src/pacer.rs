use vstd::prelude::*;

use crate::outcome::{AcquireOutcome, RebuildOutcome, SubmitOutcome};

verus! {

/// Where the controller stands within one iteration of the render loop.
#[derive(Clone, Copy, Debug, PartialEq, Eq, Structural)]
pub enum Phase {
    /// Between iterations: ready to rebuild or to acquire an image.
    Idle,
    /// An image was acquired; its slot may still hold a live signal that
    /// must be waited on before the slot's resources are reused.
    Acquired { slot: usize },
    /// The slot's prior signal, if any, has been waited on and has resolved;
    /// it stays in the slot until a new submission replaces it. Work may be
    /// submitted.
    Drained { slot: usize },
}

impl Phase {
    /// The slot in use within the current iteration (none while idle).
    pub open spec fn slot(self) -> usize {
        match self {
            Phase::Idle => 0,
            Phase::Acquired { slot } => slot,
            Phase::Drained { slot } => slot,
        }
    }
}

/// The mathematical state of a [`FrameLoop`].
pub struct LoopState<R, S> {
    /// Set by a resize or a stale swapchain; cleared at the top of an iteration.
    pub resize_requested: bool,
    /// The slot used by the last frame that reached presentation.
    pub previous: nat,
    /// Per-slot resources of the current swapchain generation.
    pub slots: Seq<R>,
    /// Per-slot live completion signal, if any.
    pub signals: Seq<Option<S>>,
    pub phase: Phase,
}

/// `n` slots with no live signal.
pub open spec fn no_signals<S>(n: nat) -> Seq<Option<S>> {
    Seq::new(n, |i: int| None)
}

impl<R, S> LoopState<R, S> {
    /// The state right after a generation with `slots` was installed.
    pub open spec fn initial(slots: Seq<R>) -> Self {
        LoopState {
            resize_requested: false,
            previous: 0,
            slots,
            signals: no_signals(slots.len()),
            phase: Phase::Idle,
        }
    }

    /// One signal entry per slot, a valid previous slot, and the slot in use
    /// within the iteration is one of the generation's.
    pub open spec fn wf(self) -> bool {
        &&& self.slots.len() > 0
        &&& self.signals.len() == self.slots.len()
        &&& self.previous < self.slots.len()
        &&& match self.phase {
            Phase::Idle => true,
            Phase::Acquired { slot } => slot < self.slots.len(),
            Phase::Drained { slot } => slot < self.slots.len(),
        }
    }

    pub open spec fn resized(self) -> Self {
        LoopState { resize_requested: true, ..self }
    }

    pub open spec fn cleared(self) -> Self {
        LoopState { resize_requested: false, ..self }
    }

    /// A new generation replaces every slot and drops every signal.
    pub open spec fn rebuilt(self, outcome: RebuildOutcome<R>) -> Self {
        match outcome {
            RebuildOutcome::Rebuilt(v) => LoopState {
                resize_requested: self.resize_requested,
                ..Self::initial(v@)
            },
            RebuildOutcome::ExtentUnsupported => self,
        }
    }

    pub open spec fn acquired(self, outcome: AcquireOutcome) -> Self {
        match outcome {
            AcquireOutcome::Acquired { image, suboptimal } => LoopState {
                resize_requested: self.resize_requested || suboptimal,
                phase: Phase::Acquired { slot: image },
                ..self
            },
            AcquireOutcome::OutOfDate => self.resized(),
            AcquireOutcome::Failed => self,
        }
    }

    /// The acquired slot's signal has been waited on; it is kept in the slot.
    pub open spec fn waited(self) -> Self {
        match self.phase {
            Phase::Acquired { slot } => LoopState {
                phase: Phase::Drained { slot },
                ..self
            },
            _ => self,
        }
    }

    /// A signal is stored only for a frame that was presented; a failed
    /// presentation leaves the slot with none, and a failed execution
    /// submits nothing and leaves every slot as it was.
    pub open spec fn finished(self, outcome: SubmitOutcome<S>) -> Self {
        match self.phase {
            Phase::Drained { slot } => match outcome {
                SubmitOutcome::Signaled(s) => LoopState {
                    signals: self.signals.update(slot as int, Some(s)),
                    previous: slot as nat,
                    phase: Phase::Idle,
                    ..self
                },
                SubmitOutcome::ExecuteFailed => LoopState {
                    resize_requested: true,
                    phase: Phase::Idle,
                    ..self
                },
                SubmitOutcome::PresentOutOfDate => LoopState {
                    signals: self.signals.update(slot as int, None),
                    resize_requested: true,
                    previous: slot as nat,
                    phase: Phase::Idle,
                    ..self
                },
                SubmitOutcome::PresentFailed => LoopState {
                    signals: self.signals.update(slot as int, None),
                    previous: slot as nat,
                    phase: Phase::Idle,
                    ..self
                },
            },
            _ => self,
        }
    }
}

/// The frame-loop controller: resize flag, current generation's per-slot
/// resources, per-slot completion signals, and the slot of the last frame.
pub struct FrameLoop<R, S> {
    resize_requested: bool,
    previous: usize,
    slots: Vec<R>,
    signals: Vec<Option<S>>,
    phase: Phase,
}

impl<R, S> View for FrameLoop<R, S> {
    type V = LoopState<R, S>;

    closed spec fn view(&self) -> LoopState<R, S> {
        LoopState {
            resize_requested: self.resize_requested,
            previous: self.previous as nat,
            slots: self.slots@,
            signals: self.signals@,
            phase: self.phase,
        }
    }
}

fn absent_signals<S>(n: usize) -> (r: Vec<Option<S>>)
    ensures
        r@ == no_signals::<S>(n as nat),
{
    let mut r: Vec<Option<S>> = Vec::new();
    let mut i: usize = 0;
    while i < n
        invariant
            i <= n,
            r@ == no_signals::<S>(i as nat),
        decreases n - i,
    {
        r.push(None);
        i = i + 1;
        assert(r@ =~= no_signals::<S>(i as nat));
    }
    r
}

impl<R, S> FrameLoop<R, S> {
    pub open spec fn wf(&self) -> bool {
        self@.wf()
    }

    /// Starts the loop on a first generation with one entry per image.
    pub fn new(slots: Vec<R>) -> (r: Self)
        requires
            slots@.len() > 0,
        ensures
            r@ == LoopState::<R, S>::initial(slots@),
            r.wf(),
    {
        let signals = absent_signals(slots.len());
        FrameLoop { resize_requested: false, previous: 0, slots, signals, phase: Phase::Idle }
    }

    /// The window was resized: the next iteration rebuilds.
    pub fn window_resized(&mut self)
        requires
            old(self).wf(),
        ensures
            final(self)@ == old(self)@.resized(),
            final(self).wf(),
    {
        self.resize_requested = true;
    }

    /// Top of an iteration: reports whether a rebuild is due and clears the
    /// request, so that a resize arriving during the rebuild asks again.
    pub fn take_resize_request(&mut self) -> (r: bool)
        requires
            old(self).wf(),
        ensures
            r == old(self)@.resize_requested,
            final(self)@ == old(self)@.cleared(),
            final(self).wf(),
    {
        let r = self.resize_requested;
        self.resize_requested = false;
        r
    }

    /// Installs a new generation, or keeps the current one whole when the
    /// surface's extent is unsupported.
    pub fn apply_rebuild(&mut self, outcome: RebuildOutcome<R>)
        requires
            old(self).wf(),
            old(self)@.phase == Phase::Idle,
            outcome.valid(),
        ensures
            final(self)@ == old(self)@.rebuilt(outcome),
            final(self).wf(),
    {
        match outcome {
            RebuildOutcome::Rebuilt(v) => {
                self.signals = absent_signals(v.len());
                self.slots = v;
                self.previous = 0;
            },
            RebuildOutcome::ExtentUnsupported => {},
        }
    }

    /// Records what acquisition reported; returns the slot to render into,
    /// or `None` when this iteration is abandoned.
    pub fn acquire(&mut self, outcome: AcquireOutcome) -> (r: Option<usize>)
        requires
            old(self).wf(),
            old(self)@.phase == Phase::Idle,
            outcome matches AcquireOutcome::Acquired { image, .. } ==> image < old(self)@.slots.len(),
        ensures
            final(self)@ == old(self)@.acquired(outcome),
            final(self).wf(),
            r == match outcome {
                AcquireOutcome::Acquired { image, .. } => Some(image),
                _ => None::<usize>,
            },
    {
        match outcome {
            AcquireOutcome::Acquired { image, suboptimal } => {
                if suboptimal {
                    self.resize_requested = true;
                }
                self.phase = Phase::Acquired { slot: image };
                Some(image)
            },
            AcquireOutcome::OutOfDate => {
                self.resize_requested = true;
                None
            },
            AcquireOutcome::Failed => None,
        }
    }

    /// The live signal of `slot`, if any.
    pub fn signal(&self, slot: usize) -> (r: Option<&S>)
        requires
            self.wf(),
            slot < self@.slots.len(),
        ensures
            r is Some <==> self@.signals[slot as int] is Some,
            r is Some ==> self@.signals[slot as int]->0 == r->0,
    {
        self.signals[slot].as_ref()
    }

    /// The signal that must resolve before the acquired slot is reused
    /// (`None` when the slot holds no signal).
    pub fn pending_signal(&self) -> (r: Option<&S>)
        requires
            self.wf(),
            self@.phase is Acquired,
        ensures
            r is Some <==> self@.signals[self@.phase.slot() as int] is Some,
            r is Some ==> self@.signals[self@.phase.slot() as int]->0 == r->0,
    {
        match self.phase {
            Phase::Acquired { slot } => self.signal(slot),
            _ => None,
        }
    }

    /// Called once the pending signal has resolved. The signal stays in its
    /// slot, so that it can still be chained after; only a new submission
    /// replaces it.
    pub fn wait_done(&mut self)
        requires
            old(self).wf(),
            old(self)@.phase is Acquired,
        ensures
            final(self)@ == old(self)@.waited(),
            final(self)@.signals == old(self)@.signals,
            final(self)@.phase == (Phase::Drained { slot: old(self)@.phase.slot() }),
            final(self).wf(),
    {
        match self.phase {
            Phase::Acquired { slot } => {
                self.phase = Phase::Drained { slot };
            },
            _ => {},
        }
    }

    /// What this frame's submission is chained after: the signal of the
    /// last presented frame, or `None` for an already-resolved baseline.
    pub fn chain_predecessor(&self) -> (r: Option<&S>)
        requires
            self.wf(),
        ensures
            r is Some <==> self@.signals[self@.previous as int] is Some,
            r is Some ==> self@.signals[self@.previous as int]->0 == r->0,
    {
        self.signal(self.previous)
    }

    /// Number of frame slots (swapchain images) in the current generation.
    pub fn slot_count(&self) -> (r: usize)
        requires
            self.wf(),
        ensures
            r == self@.slots.len(),
    {
        self.slots.len()
    }

    /// The resources kept for `slot` in the current generation.
    pub fn slot_resources(&self, slot: usize) -> (r: &R)
        requires
            self.wf(),
            slot < self@.slots.len(),
        ensures
            *r == self@.slots[slot as int],
    {
        &self.slots[slot]
    }

    /// Whether a rebuild is due at the top of the next iteration.
    pub fn resize_requested(&self) -> (r: bool)
        ensures
            r == self@.resize_requested,
    {
        self.resize_requested
    }

    /// The slot of the last frame that reached presentation.
    pub fn previous_slot(&self) -> (r: usize)
        ensures
            r == self@.previous,
    {
        self.previous
    }

    /// Where the controller stands within the current iteration.
    pub fn phase(&self) -> (r: Phase)
        ensures
            r == self@.phase,
    {
        self.phase
    }

    /// Records what executing and presenting the drained slot reported.
    pub fn finish(&mut self, outcome: SubmitOutcome<S>)
        requires
            old(self).wf(),
            old(self)@.phase is Drained,
        ensures
            final(self)@ == old(self)@.finished(outcome),
            final(self).wf(),
    {
        match self.phase {
            Phase::Drained { slot } => {
                match outcome {
                    SubmitOutcome::Signaled(s) => {
                        self.signals[slot] = Some(s);
                        self.previous = slot;
                    },
                    SubmitOutcome::ExecuteFailed => {
                        self.resize_requested = true;
                    },
                    SubmitOutcome::PresentOutOfDate => {
                        self.signals[slot] = None;
                        self.resize_requested = true;
                        self.previous = slot;
                    },
                    SubmitOutcome::PresentFailed => {
                        self.signals[slot] = None;
                        self.previous = slot;
                    },
                }
                self.phase = Phase::Idle;
            },
            _ => {},
        }
    }
}

} // verus!
