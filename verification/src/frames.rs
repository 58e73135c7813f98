//! The per-frame synchronization protocol.
//!
//! The renderer keeps [`crate::MAX_FRAME_DRAWS`] frame slots, each with its
//! own command buffer, image-available and render-finished semaphores and
//! in-flight fence, and cycles through them round-robin.  The unverified
//! shell performs the waits, the acquire, the submission and the present;
//! this module is the state machine that decides, for each redraw tick, what
//! the shell must do and which slot it must do it with.
//!
//! One tick runs: wait on the current slot's fence; acquire an image; if the
//! swapchain is out of date, recreate it and stop — the fence is left
//! signaled, nothing is submitted or presented, and the slot is not advanced;
//! otherwise reset the fence, re-record the slot's command buffer, submit,
//! present, recreate afterwards if the acquire was suboptimal, and advance to
//! the next slot.

use vstd::arithmetic::div_mod::lemma_add_mod_noop;
use vstd::pervasive::VecAdditionalExecFns;
use vstd::prelude::*;

use crate::MAX_FRAME_DRAWS;

verus! {

/// What the acquire-next-image call reported, reduced to what the protocol
/// decides on.  Any result other than these two is fatal and never reaches
/// the state machine.
#[derive(Clone, Copy, PartialEq, Eq, Debug)]
pub enum AcquireOutcome {
    /// The swapchain no longer matches the surface; no image was acquired.
    OutOfDate,
    /// An image was acquired; `suboptimal` marks a swapchain that still
    /// works but should be recreated after this frame is presented.
    Ready { image_index: u32, suboptimal: bool },
}

/// What the shell must do for one tick: which slot's command buffer and
/// synchronization objects to use, whether to submit and present, which
/// image to present, and how many times to recreate the swapchain.
#[derive(Clone, Copy, PartialEq, Eq, Debug)]
pub struct FrameActions {
    pub slot: usize,
    pub submit: bool,
    pub present: bool,
    pub image_index: Option<u32>,
    pub recreations: u32,
}

/// The frame loop's own state: the cursor over the slot ring, and, per
/// slot, whether its fence is signaled (its previous submission fully
/// retired — true as well for a slot never submitted, since the fences are
/// created signaled).
pub struct FrameLoop {
    pub current_frame: usize,
    pub fence_signaled: Vec<bool>,
}

/// The slot cursor after one tick: an out-of-date acquire leaves it in
/// place, a completed frame advances it round-robin.
pub open spec fn tick_current(current: int, outcome: AcquireOutcome) -> int {
    match outcome {
        AcquireOutcome::OutOfDate => current,
        AcquireOutcome::Ready { .. } => (current + 1) % (MAX_FRAME_DRAWS as int),
    }
}

/// The slot cursor after a whole sequence of ticks.
pub open spec fn run_current(current: int, outcomes: Seq<AcquireOutcome>) -> int
    decreases outcomes.len(),
{
    if outcomes.len() == 0 {
        current
    } else {
        run_current(tick_current(current, outcomes[0]), outcomes.drop_first())
    }
}

/// The slot that tick `k` of a run uses: the cursor as the preceding ticks
/// left it.
pub open spec fn slot_used(current: int, outcomes: Seq<AcquireOutcome>, k: int) -> int {
    run_current(current, outcomes.take(k))
}

impl FrameLoop {
    /// The cursor stays on the ring and there is one fence per slot.
    pub open spec fn wf(self) -> bool {
        &&& self.current_frame < MAX_FRAME_DRAWS
        &&& self.fence_signaled@.len() == MAX_FRAME_DRAWS
    }

    /// A fresh loop: cursor on slot 0, every fence signaled, as the fences
    /// are created.
    pub fn new() -> (r: FrameLoop)
        ensures
            r.wf(),
            r.current_frame == 0,
            forall|i: int| 0 <= i < MAX_FRAME_DRAWS ==> r.fence_signaled@[i],
    {
        let mut fences: Vec<bool> = Vec::new();
        let mut i: usize = 0;
        while i < MAX_FRAME_DRAWS
            invariant
                i <= MAX_FRAME_DRAWS,
                fences@.len() == i,
                forall|j: int| 0 <= j < i ==> fences@[j],
            decreases MAX_FRAME_DRAWS - i,
        {
            fences.push(true);
            i = i + 1;
        }
        FrameLoop { current_frame: 0, fence_signaled: fences }
    }

    /// The blocking wait on the current slot's fence, which the shell runs
    /// with an unbounded timeout: once it returns, the slot's previous
    /// submission has retired and its fence is signaled.
    pub fn wait_current_fence(&mut self)
        requires
            old(self).wf(),
        ensures
            final(self).wf(),
            final(self).current_frame == old(self).current_frame,
            final(self).fence_signaled@ == old(self).fence_signaled@.update(
                old(self).current_frame as int,
                true,
            ),
    {
        let cur = self.current_frame;
        self.fence_signaled.set(cur, true);
    }

    /// The decisions of one tick after the acquire call has reported.
    ///
    /// The current slot's fence must be signaled: the shell may only reach
    /// this point through [`FrameLoop::wait_current_fence`], which is what
    /// keeps a slot's command buffer from being reset while the GPU may
    /// still be reading it.
    ///
    /// An out-of-date acquire costs exactly one recreation and neither a
    /// submission nor a present; the fence is left signaled and the cursor
    /// in place, so the next tick reuses the slot without deadlocking on
    /// its fence.  A completed frame submits and presents, marks the
    /// slot's fence in flight, recreates once afterwards only if the
    /// acquire was suboptimal, and advances the cursor round-robin.
    pub fn finish_frame(&mut self, outcome: &AcquireOutcome) -> (a: FrameActions)
        requires
            old(self).wf(),
            old(self).fence_signaled@[old(self).current_frame as int],
        ensures
            final(self).wf(),
            a.slot == old(self).current_frame,
            final(self).current_frame == tick_current(old(self).current_frame as int, *outcome),
            match *outcome {
                AcquireOutcome::OutOfDate => {
                    &&& !a.submit
                    &&& !a.present
                    &&& a.image_index is None
                    &&& a.recreations == 1
                    &&& final(self).fence_signaled@ == old(self).fence_signaled@
                },
                AcquireOutcome::Ready { image_index, suboptimal } => {
                    &&& a.submit
                    &&& a.present
                    &&& a.image_index == Some(image_index)
                    &&& a.recreations == if suboptimal {
                        1int
                    } else {
                        0int
                    }
                    &&& final(self).fence_signaled@ == old(self).fence_signaled@.update(
                        old(self).current_frame as int,
                        false,
                    )
                },
            },
    {
        let cur = self.current_frame;
        match *outcome {
            AcquireOutcome::OutOfDate => FrameActions {
                slot: cur,
                submit: false,
                present: false,
                image_index: None,
                recreations: 1,
            },
            AcquireOutcome::Ready { image_index, suboptimal } => {
                self.fence_signaled.set(cur, false);
                self.current_frame = (cur + 1) % MAX_FRAME_DRAWS;
                FrameActions {
                    slot: cur,
                    submit: true,
                    present: true,
                    image_index: Some(image_index),
                    recreations: if suboptimal {
                        1
                    } else {
                        0
                    },
                }
            },
        }
    }

    /// One whole redraw tick: the fence wait followed by the decisions on
    /// the acquire's report.
    pub fn draw_tick(&mut self, outcome: &AcquireOutcome) -> (a: FrameActions)
        requires
            old(self).wf(),
        ensures
            final(self).wf(),
            a.slot == old(self).current_frame,
            final(self).current_frame == tick_current(old(self).current_frame as int, *outcome),
            match *outcome {
                AcquireOutcome::OutOfDate => {
                    &&& !a.submit
                    &&& !a.present
                    &&& a.image_index is None
                    &&& a.recreations == 1
                },
                AcquireOutcome::Ready { image_index, suboptimal } => {
                    &&& a.submit
                    &&& a.present
                    &&& a.image_index == Some(image_index)
                    &&& a.recreations == if suboptimal {
                        1int
                    } else {
                        0int
                    }
                },
            },
    {
        self.wait_current_fence();
        self.finish_frame(outcome)
    }
}

/// After a run in which every acquire succeeded, the cursor has advanced
/// once per tick, modulo the ring size.
proof fn lemma_run_current_all_ready(current: int, outcomes: Seq<AcquireOutcome>)
    requires
        0 <= current < MAX_FRAME_DRAWS,
        forall|i: int|
            0 <= i < outcomes.len() ==> (#[trigger] outcomes[i]) matches AcquireOutcome::Ready {
                ..
            },
    ensures
        run_current(current, outcomes) == (current + outcomes.len()) % (MAX_FRAME_DRAWS as int),
    decreases outcomes.len(),
{
    let n = MAX_FRAME_DRAWS as int;
    if outcomes.len() == 0 {
        assert(current % n == current) by {
            vstd::arithmetic::div_mod::lemma_small_mod(current as nat, n as nat);
        }
    } else {
        assert(outcomes[0] matches AcquireOutcome::Ready { .. });
        let next = (current + 1) % n;
        lemma_run_current_all_ready(next, outcomes.drop_first());
        assert(run_current(current, outcomes) == (next + (outcomes.len() - 1)) % n);
        assert((next + (outcomes.len() - 1)) % n == (current + outcomes.len()) % n) by {
            lemma_add_mod_noop(current + 1, outcomes.len() - 1, n);
            lemma_add_mod_noop((current + 1) % n, outcomes.len() - 1, n);
            vstd::arithmetic::div_mod::lemma_mod_twice(current + 1, n);
        }
    }
}

/// Frame slots are used in strict round-robin order: in a run in which
/// every acquire succeeds (no resize, no out-of-date surface), tick `k`
/// uses slot `(start + k) mod MAX_FRAME_DRAWS` — starting from a fresh
/// loop, that is `0, 1, ..., MAX_FRAME_DRAWS - 1, 0, ...`.
pub proof fn lemma_round_robin(start: int, outcomes: Seq<AcquireOutcome>, k: int)
    requires
        0 <= start < MAX_FRAME_DRAWS,
        forall|i: int|
            0 <= i < outcomes.len() ==> (#[trigger] outcomes[i]) matches AcquireOutcome::Ready {
                ..
            },
        0 <= k <= outcomes.len(),
    ensures
        slot_used(start, outcomes, k) == (start + k) % (MAX_FRAME_DRAWS as int),
{
    let prefix = outcomes.take(k);
    assert(forall|i: int|
        0 <= i < prefix.len() ==> (#[trigger] prefix[i]) matches AcquireOutcome::Ready { .. });
    lemma_run_current_all_ready(start, prefix);
}

/// Within any window of `MAX_FRAME_DRAWS` consecutive ticks of such a run,
/// no slot is used twice: a slot is reused only after every other slot has
/// had a turn.
pub proof fn lemma_slots_distinct_in_window(
    start: int,
    outcomes: Seq<AcquireOutcome>,
    k1: int,
    k2: int,
)
    requires
        0 <= start < MAX_FRAME_DRAWS,
        forall|i: int|
            0 <= i < outcomes.len() ==> (#[trigger] outcomes[i]) matches AcquireOutcome::Ready {
                ..
            },
        0 <= k1 < k2 <= outcomes.len(),
        k2 - k1 < MAX_FRAME_DRAWS,
    ensures
        slot_used(start, outcomes, k1) != slot_used(start, outcomes, k2),
{
    let n = MAX_FRAME_DRAWS as int;
    lemma_round_robin(start, outcomes, k1);
    lemma_round_robin(start, outcomes, k2);
    assert((start + k1) % n != (start + k2) % n) by {
        lemma_add_mod_noop(start + k1, k2 - k1, n);
        vstd::arithmetic::div_mod::lemma_small_mod((k2 - k1) as nat, n as nat);
        if (start + k1) % n == (start + k2) % n {
            vstd::arithmetic::div_mod::lemma_mod_twice(start + k1, n);
            assert(((start + k1) % n + (k2 - k1)) % n == (start + k2) % n);
            vstd::arithmetic::div_mod::lemma_mod_bound(start + k1, n);
            let r = (start + k1) % n;
            assert(0 <= r < n);
            assert((r + (k2 - k1)) % n == r);
            if r + (k2 - k1) < n {
                vstd::arithmetic::div_mod::lemma_small_mod((r + (k2 - k1)) as nat, n as nat);
            } else {
                vstd::arithmetic::div_mod::lemma_mod_sub_multiples_vanish(r + (k2 - k1), n);
                vstd::arithmetic::div_mod::lemma_small_mod((r + (k2 - k1) - n) as nat, n as nat);
            }
        }
    }
}

} // verus!
