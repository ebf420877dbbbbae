//! The two buffer slots and when they may be reused.

use vstd::prelude::*;

use crate::drm::{ETIME, WAIT_RELEASE_TIMEOUT_NS};
use crate::error::{IoError, Result, WayvekError};

verus! {

/// The slots as the contracts see them: the current one, and for each slot the
/// release point of its last presentation, if it has been presented.
pub struct SwapchainView {
    pub current: int,
    pub release_points: Seq<Option<u64>>,
}

impl SwapchainView {
    /// There are two slots, and the current one is one of them.
    pub open spec fn wf(self) -> bool {
        &&& 0 <= self.current < 2
        &&& self.release_points.len() == 2
    }

    /// The slots before anything is drawn.
    pub open spec fn fresh() -> Self {
        SwapchainView { current: 0, release_points: seq![None, None] }
    }

    /// The slot whose turn is next.
    pub open spec fn next_slot(self) -> int {
        (self.current + 1) % 2
    }

    /// The slots after the next one has been taken.
    pub open spec fn acquired(self) -> Self {
        SwapchainView { current: self.next_slot(), ..self }
    }

    /// What the compositor has to signal before the next slot may be reused.
    pub open spec fn awaited(self) -> Option<u64> {
        self.release_points[self.next_slot()]
    }

    /// The slots after `slot` has been presented.
    pub open spec fn presented(self, slot: int, release_point: u64) -> Self {
        SwapchainView {
            release_points: self.release_points.update(slot, Some(release_point)),
            ..self
        }
    }
}

/// The wait was given up because its time ran out.
pub open spec fn timed_out(error: WayvekError) -> bool {
    error == WayvekError::Io(IoError::Os(ETIME))
}

/// What taking `slot` comes to after the wait for its release came to `waited`:
/// time running out does not keep the slot from being reused.
pub open spec fn acquisition(slot: usize, waited: Result<()>) -> Result<usize> {
    match waited {
        Ok(_) => Ok(slot),
        Err(error) => if timed_out(error) {
            Ok(slot)
        } else {
            Err(error)
        },
    }
}

/// The Swapchain is responsible only for the double-buffered DMA-BUF slots: it
/// tracks which slot is current and records each slot's release point so it can
/// apply backpressure (throttling via release-point waits) before reusing a
/// slot.
///
/// It owns neither the DRM syncobj timeline nor the Vulkan renderer: the caller
/// lends it the wait on the timeline. Drawing and sync-file bridging are the
/// caller's responsibility.
pub struct Swapchain {
    /// Release point for each buffer slot, set after the first presentation.
    release_points: [Option<u64>; 2],
    /// Which buffer slot we are currently using (0 or 1).
    current_idx: usize,
    /// Whether each slot has been presented at least once.
    presented: [bool; 2],
}

impl View for Swapchain {
    type V = SwapchainView;

    closed spec fn view(&self) -> SwapchainView {
        SwapchainView {
            current: self.current_idx as int,
            release_points: Seq::new(
                2,
                |i: int|
                    if self.presented@[i] {
                        self.release_points@[i]
                    } else {
                        None
                    },
            ),
        }
    }
}

impl Swapchain {
    #[verifier::type_invariant]
    spec fn inv(self) -> bool {
        self.current_idx < 2
    }

    pub fn new() -> (swapchain: Self)
        ensures
            swapchain@ == SwapchainView::fresh(),
    {
        let swapchain = Swapchain {
            release_points: [None, None],
            current_idx: 0,
            presented: [false, false],
        };
        assert(swapchain@.release_points =~= seq![None, None]);
        swapchain
    }

    /// Acquire the next buffer slot. If the slot was previously presented it
    /// waits for the compositor to release it, by `wait_available` with the
    /// release point and how long to wait in nanoseconds (from now: see
    /// [`wait_deadline`](crate::drm::wait_deadline)), before returning the
    /// slot index. A slot that is not released in time is reused anyway.
    pub fn acquire<F: FnOnce(u64, i64) -> Result<()>>(&mut self, wait_available: F) -> (slot:
        Result<usize>)
        requires
            old(self)@.awaited() matches Some(point) ==> call_requires(
                wait_available,
                (point, WAIT_RELEASE_TIMEOUT_NS),
            ),
        ensures
            final(self)@.wf(),
            final(self)@ == old(self)@.acquired(),
            match old(self)@.awaited() {
                None => slot == Ok::<usize, WayvekError>(final(self)@.current as usize),
                Some(point) => exists|waited: Result<()>|
                    {
                        &&& #[trigger] call_ensures(
                            wait_available,
                            (point, WAIT_RELEASE_TIMEOUT_NS),
                            waited,
                        )
                        &&& slot == acquisition(final(self)@.current as usize, waited)
                    },
            },
    {
        proof {
            use_type_invariant(&*self);
        }
        // 1. Rotate buffer slot.
        self.current_idx = (self.current_idx + 1) % 2;
        assert(self@.release_points =~= old(self)@.release_points);
        let slot: usize = self.current_idx;

        // 2. Backpressure: wait on the release point of the buffer we are
        //    about to reuse. Only a buffer that has been previously presented
        //    carries a release point; the first draw into a slot has nothing
        //    to wait on.
        if self.presented[slot] {
            if let Some(release_point) = self.release_points[slot] {
                match wait_available(release_point, WAIT_RELEASE_TIMEOUT_NS) {
                    Ok(_) => {},
                    Err(WayvekError::Io(IoError::Os(code))) => {
                        if code != ETIME {
                            return Err(WayvekError::Io(IoError::Os(code)));
                        }
                    },
                    Err(error) => {
                        return Err(error);
                    },
                }
            }
        }
        Ok(slot)
    }

    /// Record the release point for a slot once it has been presented, so the
    /// next `acquire` of that slot can wait for it.
    pub fn mark_presented(&mut self, slot: usize, release_point: u64)
        requires
            slot < 2,
        ensures
            final(self)@.wf(),
            final(self)@ == old(self)@.presented(slot as int, release_point),
    {
        proof {
            use_type_invariant(&*self);
        }
        let mut release_points = self.release_points;
        release_points[slot] = Some(release_point);
        self.release_points = release_points;
        let mut presented = self.presented;
        presented[slot] = true;
        self.presented = presented;
        assert(self@.release_points =~= old(self)@.release_points.update(
            slot as int,
            Some(release_point),
        ));
    }
}

impl Default for Swapchain {
    fn default() -> (swapchain: Self)
        ensures
            swapchain@ == SwapchainView::fresh(),
    {
        Swapchain::new()
    }
}

/// The slots take turns: the next slot is the other one, and the one after that
/// is the current one again.
pub proof fn law_slots_alternate(s: SwapchainView)
    requires
        s.wf(),
    ensures
        s.acquired().wf(),
        s.acquired().current != s.current,
        s.acquired().acquired() == s,
{
}

/// Nothing is waited for before a slot has been presented: neither on the first
/// use of either slot, nor because the other slot has been presented.
pub proof fn law_first_use_waits_for_nothing(release_point: u64)
    ensures
        ({
            let fresh = SwapchainView::fresh();
            &&& fresh.awaited() is None
            &&& fresh.acquired().awaited() is None
            &&& fresh.acquired().presented(
                fresh.acquired().current,
                release_point,
            ).awaited() is None
        }),
{
}

/// A presented slot is reused only after its latest release point: whichever
/// slot has been presented, taking it again waits for exactly that point, and a
/// presentation of the other slot in between changes nothing about it.
pub proof fn law_reuse_waits_for_last_release(
    s: SwapchainView,
    slot: int,
    release_point: u64,
    other_point: u64,
)
    requires
        s.wf(),
        0 <= slot < 2,
    ensures
        ({
            let p = s.presented(slot, release_point);
            let q = p.presented(1 - slot, other_point);
            if slot == s.next_slot() {
                &&& p.awaited() == Some(release_point)
                &&& q.awaited() == Some(release_point)
            } else {
                &&& p.acquired().awaited() == Some(release_point)
                &&& q.acquired().awaited() == Some(release_point)
            }
        }),
{
}

/// A slot is taken if the wait for it went well or ran out of time (error 62); any
/// other error of the wait is passed on as it is.
pub proof fn law_only_a_timeout_is_forgiven(slot: usize, error: WayvekError)
    ensures
        acquisition(slot, Ok(())) == Ok::<usize, WayvekError>(slot),
        acquisition(slot, Err(WayvekError::Io(IoError::Os(62)))) == Ok::<usize, WayvekError>(slot),
        error != WayvekError::Io(IoError::Os(62)) ==> acquisition(slot, Err(error)) == Err::<
            usize,
            WayvekError,
        >(error),
        WAIT_RELEASE_TIMEOUT_NS == 10 * 1_000_000_000,
{
}

/// A presentation records its point for its slot and for nothing else; taking a
/// slot changes which one is current and nothing else.
pub proof fn law_other_slots_are_left_alone(s: SwapchainView, slot: int, release_point: u64)
    requires
        s.wf(),
        0 <= slot < 2,
    ensures
        s.presented(slot, release_point).release_points[slot] == Some(release_point),
        s.presented(slot, release_point).release_points[1 - slot] == s.release_points[1 - slot],
        s.presented(slot, release_point).release_points.len() == 2,
        s.presented(slot, release_point).current == s.current,
        s.acquired().release_points == s.release_points,
        s.acquired().current == 1 - s.current,
        s.awaited() == s.release_points[1 - s.current],
{
}

} // verus!
