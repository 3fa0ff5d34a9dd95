//! The per-frame synchronisation objects of the frames in flight, and which
//! of them the current frame uses.

use vstd::prelude::*;

verus! {

/// How many frames the CPU may record while the GPU still works on earlier ones.
pub const MAX_FRAMES_IN_FLIGHT: usize = 2usize;

/// Raw handles of the semaphores and fences of each frame in flight, and the
/// index of the frame being recorded.
pub struct SyncState {
    pub frame_available: [u64; MAX_FRAMES_IN_FLIGHT],
    pub frame_ready: [u64; MAX_FRAMES_IN_FLIGHT],
    pub in_flight: [u64; MAX_FRAMES_IN_FLIGHT],
    pub current_frame: usize,
}

impl SyncState {
    /// Starts at the first frame in flight.
    pub fn new(
        frame_available: [u64; MAX_FRAMES_IN_FLIGHT],
        frame_ready: [u64; MAX_FRAMES_IN_FLIGHT],
        in_flight: [u64; MAX_FRAMES_IN_FLIGHT],
    ) -> (r: Self)
        ensures
            r.frame_available@ == frame_available@,
            r.frame_ready@ == frame_ready@,
            r.in_flight@ == in_flight@,
            r.current_frame == 0,
    {
        SyncState { frame_available, frame_ready, in_flight, current_frame: 0 }
    }

    /// The semaphore signalled when the current frame's swapchain image is available.
    pub fn frame_available_semaphore(&self) -> (r: u64)
        requires
            self.current_frame < MAX_FRAMES_IN_FLIGHT,
        ensures
            r == self.frame_available@[self.current_frame as int],
    {
        self.frame_available[self.current_frame]
    }

    /// The semaphore signalled when the current frame is ready to present.
    pub fn frame_ready_semaphore(&self) -> (r: u64)
        requires
            self.current_frame < MAX_FRAMES_IN_FLIGHT,
        ensures
            r == self.frame_ready@[self.current_frame as int],
    {
        self.frame_ready[self.current_frame]
    }

    /// The fence signalled when the GPU has finished the current frame.
    pub fn in_flight_fence(&self) -> (r: u64)
        requires
            self.current_frame < MAX_FRAMES_IN_FLIGHT,
        ensures
            r == self.in_flight@[self.current_frame as int],
    {
        self.in_flight[self.current_frame]
    }

    /// The state after moving on to the next frame in flight.
    pub open spec fn spec_advanced(self) -> SyncState {
        SyncState {
            current_frame: ((self.current_frame + 1) % (MAX_FRAMES_IN_FLIGHT as int)) as usize,
            ..self
        }
    }

    /// Moves on to the next frame in flight, cycling through them.
    pub fn advance(&mut self)
        requires
            old(self).current_frame < usize::MAX,
        ensures
            *final(self) == old(self).spec_advanced(),
    {
        self.current_frame = (self.current_frame + 1) % MAX_FRAMES_IN_FLIGHT;
    }
}

/// Advancing moves to another frame in flight, keeps the current frame a
/// valid index of the per-frame objects and the objects themselves, and
/// advancing once per frame in flight comes back to the same state.
pub proof fn lemma_advance_cycles(s: SyncState)
    requires
        s.current_frame < MAX_FRAMES_IN_FLIGHT,
    ensures
        s.spec_advanced().current_frame < MAX_FRAMES_IN_FLIGHT,
        s.spec_advanced().current_frame != s.current_frame,
        s.spec_advanced().frame_available == s.frame_available,
        s.spec_advanced().frame_ready == s.frame_ready,
        s.spec_advanced().in_flight == s.in_flight,
        s.spec_advanced().spec_advanced() == s,
{
}

} // verus!
