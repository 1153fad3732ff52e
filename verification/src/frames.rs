//! Frames in flight and deferred resource release.
//!
//! The engine records frame after frame into a ring of `frames_in_flight` slots. A
//! resource dropped while a slot is current may still be used by the GPU work of that
//! slot, so it is queued on the slot and destroyed only when the slot comes round
//! again (after its fence has been waited on).

use vstd::prelude::*;

verus! {

/// Engine creation options.
#[derive(Debug, Clone, Copy, PartialEq, Eq, Structural)]
pub struct RenderEngineConfig {
    pub debug: bool,
    pub frames_in_flight: usize,
}

/// The abstract state of the ring: the current slot and each slot's pending releases.
pub struct FrameRingState<R> {
    pub current: int,
    pub queues: Seq<Seq<R>>,
}

/// The current slot is one of the slots.
pub open spec fn ring_wf<R>(s: FrameRingState<R>) -> bool {
    0 <= s.current < s.queues.len()
}

/// Queues `r` for release on the current slot.
pub open spec fn ring_schedule<R>(s: FrameRingState<R>, r: R) -> FrameRingState<R> {
    FrameRingState {
        current: s.current,
        queues: s.queues.update(s.current, s.queues[s.current].push(r)),
    }
}

/// The slot that the next frame uses.
pub open spec fn ring_next_slot<R>(s: FrameRingState<R>) -> int {
    (s.current + 1) % (s.queues.len() as int)
}

/// Starts the next frame: its slot becomes current and its pending releases are handed
/// out (to be destroyed) and cleared.
pub open spec fn ring_begin<R>(s: FrameRingState<R>) -> FrameRingState<R> {
    FrameRingState {
        current: ring_next_slot(s),
        queues: s.queues.update(ring_next_slot(s), Seq::empty()),
    }
}

/// What starting the next frame hands out for destruction.
pub open spec fn ring_released<R>(s: FrameRingState<R>) -> Seq<R> {
    s.queues[ring_next_slot(s)]
}

/// The state after `k` frames have been started.
pub open spec fn ring_advance<R>(s: FrameRingState<R>, k: nat) -> FrameRingState<R>
    decreases k,
{
    if k == 0 {
        s
    } else {
        ring_begin(ring_advance(s, (k - 1) as nat))
    }
}

/// Frames in flight with their deferred-release queues; `R` stands for a resource
/// awaiting destruction.
pub struct FrameRing<R> {
    current_frame: usize,
    deletion_queues: Vec<Vec<R>>,
    started: bool,
}

impl<R> FrameRing<R> {
    /// The ring's slots as an abstract state; whether a frame has been started is
    /// `spec_started`, which every operation's contract states beside it.
    pub closed spec fn state(&self) -> FrameRingState<R> {
        FrameRingState {
            current: self.current_frame as int,
            queues: self.deletion_queues@.map_values(|q: Vec<R>| q@),
        }
    }

    /// Whether a frame has been started.
    pub closed spec fn spec_started(&self) -> bool {
        self.started
    }

    /// A ring of `config.frames_in_flight` slots, slot 0 current, nothing pending.
    pub fn new(config: &RenderEngineConfig) -> (r: FrameRing<R>)
        ensures
            r.state().current == 0,
            r.state().queues.len() == config.frames_in_flight,
            forall|i: int| 0 <= i < config.frames_in_flight ==> #[trigger] r.state().queues[i] == Seq::<R>::empty(),
            !r.spec_started(),
    {
        let mut deletion_queues: Vec<Vec<R>> = Vec::new();
        let mut i: usize = 0;
        while i < config.frames_in_flight
            invariant
                i <= config.frames_in_flight,
                deletion_queues@.len() == i,
                forall|k: int| 0 <= k < i ==> (#[trigger] deletion_queues@[k])@ == Seq::<R>::empty(),
            decreases config.frames_in_flight - i,
        {
            deletion_queues.push(Vec::new());
            i = i + 1;
        }
        let r = FrameRing { current_frame: 0, deletion_queues, started: false };
        proof {
            assert forall|i: int| 0 <= i < config.frames_in_flight implies #[trigger] r.state().queues[i]
                == Seq::<R>::empty() by {
            }
        }
        r
    }

    /// Whether a frame has been started.
    pub fn is_started(&self) -> (r: bool)
        ensures
            r == self.spec_started(),
    {
        self.started
    }

    /// The slot of the frame being recorded.
    pub fn get_current_frame_index(&self) -> (r: usize)
        ensures
            r == self.state().current,
    {
        self.current_frame
    }

    /// Returns the number of frames in flight.
    pub fn frames_in_flight(&self) -> (r: usize)
        ensures
            r == self.state().queues.len(),
    {
        self.deletion_queues.len()
    }

    /// Queues `resource` for destruction once the current slot's work is known complete.
    pub fn schedule_resource_release(&mut self, resource: R)
        requires
            ring_wf(old(self).state()),
        ensures
            final(self).state() == ring_schedule(old(self).state(), resource),
            final(self).spec_started() == old(self).spec_started(),
    {
        let frame_index = self.current_frame;
        self.enqueue_drop(frame_index, resource);
    }

    /// Queues `resource` on slot `frame`.
    pub fn enqueue_drop(&mut self, frame: usize, resource: R)
        requires
            frame < old(self).state().queues.len(),
        ensures
            final(self).state() == (FrameRingState {
                current: old(self).state().current,
                queues: old(self).state().queues.update(
                    frame as int,
                    old(self).state().queues[frame as int].push(resource),
                ),
            }),
            final(self).spec_started() == old(self).spec_started(),
    {
        let mut queue: Vec<R> = Vec::new();
        self.deletion_queues.set_and_swap(frame, &mut queue);
        queue.push(resource);
        self.deletion_queues.set_and_swap(frame, &mut queue);
        proof {
            assert(self.state().queues =~= old(self).state().queues.update(
                frame as int,
                old(self).state().queues[frame as int].push(resource),
            ));
        }
    }

    /// Takes the pending releases of slot `frame`, leaving it empty.
    pub fn cleanup_resources(&mut self, frame: usize) -> (released: Vec<R>)
        requires
            frame < old(self).state().queues.len(),
        ensures
            released@ == old(self).state().queues[frame as int],
            final(self).state() == (FrameRingState {
                current: old(self).state().current,
                queues: old(self).state().queues.update(frame as int, Seq::<R>::empty()),
            }),
            final(self).spec_started() == old(self).spec_started(),
    {
        let mut queue: Vec<R> = Vec::new();
        self.deletion_queues.set_and_swap(frame, &mut queue);
        proof {
            assert(self.state().queues =~= old(self).state().queues.update(
                frame as int,
                Seq::<R>::empty(),
            ));
        }
        queue
    }

    /// Starts the next frame: advances to the next slot and hands out the releases that
    /// were pending on it, which the caller destroys after waiting on the slot's fence.
    pub fn begin_frame(&mut self) -> (released: Vec<R>)
        requires
            ring_wf(old(self).state()),
        ensures
            final(self).state() == ring_begin(old(self).state()),
            released@ == ring_released(old(self).state()),
            ring_wf(final(self).state()),
            final(self).spec_started(),
    {
        self.started = true;
        let n = self.deletion_queues.len();
        self.current_frame = (self.current_frame + 1) % n;
        let frame = self.current_frame;
        self.cleanup_resources(frame)
    }

    /// Takes every pending release, slot by slot (on engine shutdown).
    pub fn drain_all(&mut self) -> (released: Vec<R>)
        ensures
            final(self).state().current == old(self).state().current,
            final(self).state().queues.len() == old(self).state().queues.len(),
            forall|i: int| 0 <= i < final(self).state().queues.len() ==> #[trigger] final(self).state().queues[i]
                == Seq::<R>::empty(),
            released@ == old(self).state().queues.fold_left(Seq::<R>::empty(), |acc: Seq<R>, q: Seq<R>| acc + q),
    {
        let ghost q0 = old(self).state().queues;
        let mut released: Vec<R> = Vec::new();
        let n = self.deletion_queues.len();
        let mut i: usize = 0;
        while i < n
            invariant
                i <= n,
                n == q0.len(),
                self.state().current == old(self).state().current,
                self.state().queues.len() == n,
                forall|k: int| 0 <= k < i ==> #[trigger] self.state().queues[k] == Seq::<R>::empty(),
                forall|k: int| i <= k < n ==> #[trigger] self.state().queues[k] == q0[k],
                released@ == q0.subrange(0, i as int).fold_left(Seq::<R>::empty(), |acc: Seq<R>, q: Seq<R>| acc + q),
            decreases n - i,
        {
            let mut q = self.cleanup_resources(i);
            proof {
                let f = |acc: Seq<R>, q: Seq<R>| acc + q;
                assert(q0.subrange(0, i + 1).drop_last() =~= q0.subrange(0, i as int));
                q0.subrange(0, i + 1).lemma_fold_left_alt(Seq::<R>::empty(), f);
            }
            released.append(&mut q);
            i = i + 1;
        }
        proof {
            assert(q0.subrange(0, n as int) =~= q0);
        }
        released
    }
}

} // verus!

verus! {

proof fn lemma_mod_step(c: int, j: int, n: int)
    requires
        n > 0,
        0 <= c < n,
        j >= 0,
    ensures
        ((c + j) % n + 1) % n == (c + j + 1) % n,
        0 <= (c + j) % n < n,
{
    vstd::arithmetic::div_mod::lemma_add_mod_noop(c + j, 1, n);
    if n > 1 {
        vstd::arithmetic::div_mod::lemma_small_mod(1, n as nat);
    }
    vstd::arithmetic::div_mod::lemma_mod_bound(c + j, n);
    vstd::arithmetic::div_mod::lemma_mod_bound(c + j + 1, n);
    if n == 1 {
        vstd::arithmetic::div_mod::lemma_mod_self_0(1);
    }
}

proof fn lemma_mod_other_slot(c: int, k: int, n: int)
    requires
        n > 0,
        0 <= c < n,
        0 < k < n,
    ensures
        (c + k) % n != c,
{
    if c + k < n {
        vstd::arithmetic::div_mod::lemma_small_mod((c + k) as nat, n as nat);
    } else {
        vstd::arithmetic::div_mod::lemma_fundamental_div_mod_converse(c + k, n, 1, c + k - n);
    }
}

proof fn lemma_mod_full_cycle(c: int, n: int)
    requires
        n > 0,
        0 <= c < n,
    ensures
        (c + n) % n == c,
{
    vstd::arithmetic::div_mod::lemma_fundamental_div_mod_converse(c + n, n, 1, c);
}

/// Starting a frame or queueing a release keeps the current slot among the slots
/// and never changes their number.
pub proof fn lemma_ring_wf_preserved<R>(s: FrameRingState<R>, r: R)
    requires
        ring_wf(s),
    ensures
        ring_wf(ring_begin(s)),
        ring_wf(ring_schedule(s, r)),
        ring_begin(s).queues.len() == s.queues.len(),
        ring_schedule(s, r).queues.len() == s.queues.len(),
{
    lemma_mod_step(s.current, 0, s.queues.len() as int);
}

proof fn lemma_ring_advance<R>(s: FrameRingState<R>, c: int, j: nat)
    requires
        ring_wf(s),
        c == s.current,
    ensures
        ring_advance(s, j).queues.len() == s.queues.len(),
        ring_advance(s, j).current == (c + j) % (s.queues.len() as int),
        j < s.queues.len() ==> ring_advance(s, j).queues[c] == s.queues[c],
    decreases j,
{
    let n = s.queues.len() as int;
    if j == 0 {
        vstd::arithmetic::div_mod::lemma_small_mod(c as nat, n as nat);
    } else {
        lemma_ring_advance(s, c, (j - 1) as nat);
        lemma_mod_step(c, j - 1, n);
        if j < n {
            lemma_mod_other_slot(c, j as int, n);
        }
    }
}

/// Deferred release: a resource released while slot `c` is current stays queued,
/// untouched (so no frame start hands it out), while the other slots are recorded,
/// and is handed out for destruction by the frame start that makes `c` current
/// again, one full cycle later.
pub proof fn lemma_release_deferred_one_cycle<R>(s: FrameRingState<R>, r: R)
    requires
        ring_wf(s),
    ensures
        forall|j: nat|
            j < s.queues.len() ==> #[trigger] ring_advance(ring_schedule(s, r), j).queues[s.current]
                == s.queues[s.current].push(r),
        ring_released(ring_advance(ring_schedule(s, r), (s.queues.len() - 1) as nat))
            == s.queues[s.current].push(r),
{
    let s1 = ring_schedule(s, r);
    let n = s.queues.len() as int;
    let c = s.current;
    assert forall|j: nat| j < s.queues.len() implies #[trigger] ring_advance(s1, j).queues[c]
        == s.queues[c].push(r) by {
        lemma_ring_advance(s1, c, j);
    }
    let last = (n - 1) as nat;
    lemma_ring_advance(s1, c, last);
    lemma_mod_step(c, n - 1, n);
    lemma_mod_full_cycle(c, n);
}

} // verus!
