//! The renderer's own state between frames: which pass renders, how many
//! frames have been accumulated since the view last changed, and which frame
//! in flight is being recorded.

use vstd::prelude::*;

use crate::sync_info::SyncInfo;
use crate::sync_state::{SyncState, MAX_FRAMES_IN_FLIGHT};
use crate::Error;

verus! {

/// The pass that renders the scene into the intermediate target this frame.
#[derive(PartialEq, Eq, Structural, Clone, Copy, Debug)]
pub enum Pass {
    /// The path tracer, told how many frames it has already accumulated.
    Pathtracer { frame: u32 },
    Rasterizer,
}

/// What follows the acquisition of a swapchain image in a frame.
pub enum PresentStep {
    /// The image has to be recreated: the frame's fence is not reset, and
    /// nothing is tonemapped or presented.
    Skip,
    /// Reset `fence`, run the tonemap pass into the acquired image with
    /// `sync_info`, then present the image once `ready` is signalled.
    Present { fence: u64, sync_info: SyncInfo, ready: u64 },
}

/// What the renderer keeps from one frame to the next.
pub struct RendererState {
    pub use_pathtracer: bool,
    pub frame: u32,
    pub state: SyncState,
}

impl RendererState {
    pub open spec fn wf(&self) -> bool {
        self.state.current_frame < MAX_FRAMES_IN_FLIGHT
    }

    pub open spec fn spec_pass(&self) -> Pass {
        if self.use_pathtracer {
            Pass::Pathtracer { frame: self.frame }
        } else {
            Pass::Rasterizer
        }
    }

    /// A new renderer path traces, from frame 0 and the first frame in flight.
    pub fn new(state: SyncState) -> (r: Self)
        requires
            state.current_frame == 0,
        ensures
            r.use_pathtracer,
            r.frame == 0,
            r.state == state,
            r.wf(),
    {
        RendererState { use_pathtracer: true, frame: 0, state }
    }

    /// The pass to run this frame.
    pub fn pass(&self) -> (r: Pass)
        ensures
            r == self.spec_pass(),
    {
        if self.use_pathtracer {
            Pass::Pathtracer { frame: self.frame }
        } else {
            Pass::Rasterizer
        }
    }

    /// The synchronisation of the tonemap pass that presents the frame: it
    /// waits until the swapchain image is available, signals that the frame
    /// is ready to present, and signals the frame's fence.
    pub fn present_sync_info(&self) -> (r: SyncInfo)
        requires
            self.wf(),
        ensures
            r.wait_on@ == seq![self.state.frame_available@[self.state.current_frame as int]],
            r.signal_to@ == seq![self.state.frame_ready@[self.state.current_frame as int]],
            r.fence == Some(self.state.in_flight@[self.state.current_frame as int]),
    {
        let mut wait_on: Vec<u64> = Vec::new();
        wait_on.push(self.state.frame_available_semaphore());
        let mut signal_to: Vec<u64> = Vec::new();
        signal_to.push(self.state.frame_ready_semaphore());
        SyncInfo { wait_on, signal_to, fence: Some(self.state.in_flight_fence()) }
    }

    /// Decides the rest of the frame from whether acquiring the swapchain
    /// image found that the swapchain has to be recreated: a stale image is
    /// skipped, otherwise the frame's fence is reset and the frame is
    /// tonemapped and presented with the current frame's objects.
    pub fn present_step(&self, image_needs_recreating: bool) -> (r: PresentStep)
        requires
            self.wf(),
        ensures
            image_needs_recreating <==> r is Skip,
            r matches PresentStep::Present { fence, sync_info, ready } ==> {
                &&& fence == self.state.in_flight@[self.state.current_frame as int]
                &&& ready == self.state.frame_ready@[self.state.current_frame as int]
                &&& sync_info.wait_on@ == seq![
                    self.state.frame_available@[self.state.current_frame as int],
                ]
                &&& sync_info.signal_to@ == seq![ready]
                &&& sync_info.fence == Some(fence)
            },
    {
        if image_needs_recreating {
            PresentStep::Skip
        } else {
            PresentStep::Present {
                fence: self.state.in_flight_fence(),
                sync_info: self.present_sync_info(),
                ready: self.state.frame_ready_semaphore(),
            }
        }
    }

    /// A new camera restarts the accumulation.
    pub fn update_camera(&mut self)
        ensures
            final(self).frame == 0,
            final(self).use_pathtracer == old(self).use_pathtracer,
            final(self).state == old(self).state,
    {
        self.frame = 0;
    }

    /// The state after switching passes.
    pub open spec fn spec_toggled(self) -> RendererState {
        RendererState { use_pathtracer: !self.use_pathtracer, frame: 0, ..self }
    }

    /// Switches between the path tracer and the rasterizer and restarts the
    /// accumulation.
    pub fn toggle_renderer(&mut self)
        ensures
            *final(self) == old(self).spec_toggled(),
    {
        self.use_pathtracer = !self.use_pathtracer;
        self.frame = 0;
    }

    /// Ends a frame: counts it, moves on to the next frame in flight, and
    /// reports whether the swapchain has to be recreated.
    pub fn finish_frame(&mut self, needs_recreating: bool) -> (r: Result<(), Error>)
        requires
            old(self).wf(),
            old(self).frame < u32::MAX,
        ensures
            final(self).wf(),
            final(self).frame == old(self).frame + 1,
            final(self).use_pathtracer == old(self).use_pathtracer,
            final(self).state == old(self).state.spec_advanced(),
            r == (if needs_recreating {
                Err(Error::NeedsRecreating)
            } else {
                Ok(())
            }),
    {
        self.frame = self.frame + 1;
        self.state.advance();
        if needs_recreating {
            Err(Error::NeedsRecreating)
        } else {
            Ok(())
        }
    }
}

/// Toggling the renderer twice comes back to the same pass, with the
/// accumulation restarted.
pub proof fn lemma_toggle_twice(s: RendererState)
    ensures
        s.spec_toggled().spec_toggled() == (RendererState { frame: 0, ..s }),
        s.spec_toggled().spec_toggled().spec_pass() == (if s.use_pathtracer {
            Pass::Pathtracer { frame: 0 }
        } else {
            Pass::Rasterizer
        }),
{
}

/// Every frame in flight is used in turn: after as many finished frames as
/// there are frames in flight, the same per-frame objects are current again.
pub proof fn lemma_frames_in_flight_cycle(s: RendererState)
    requires
        s.wf(),
    ensures
        s.state.spec_advanced().spec_advanced() == s.state,
{
    crate::sync_state::lemma_advance_cycles(s.state);
}

/// The pass depends only on the renderer choice: the rasterizer runs
/// whenever the path tracer is off, whatever the frame count, and the path
/// tracer is told the accumulated frame count; switching renderers switches
/// the pass.
pub proof fn lemma_pass_follows_renderer_choice(s: RendererState)
    ensures
        !s.use_pathtracer ==> s.spec_pass() == Pass::Rasterizer,
        s.use_pathtracer ==> s.spec_pass() == (Pass::Pathtracer { frame: s.frame }),
        (s.spec_pass() is Rasterizer) <==> (s.spec_toggled().spec_pass() is Pathtracer),
        forall|t: RendererState|
            t.use_pathtracer == s.use_pathtracer && !s.use_pathtracer ==> #[trigger] t.spec_pass()
                == s.spec_pass(),
{
}

} // verus!
