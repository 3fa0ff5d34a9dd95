//! What a submission waits on and signals, and how it is submitted.

use vstd::prelude::*;

verus! {

/// Raw pipeline stage bit at which waits of a submission block.
pub const STAGE_COLOR_ATTACHMENT_OUTPUT: u32 = 0x400u32;

/// Raw handles of the semaphores a submission waits on and signals, and of
/// the fence it signals, if any.
pub struct SyncInfo {
    pub wait_on: Vec<u64>,
    pub signal_to: Vec<u64>,
    pub fence: Option<u64>,
}

/// How a command buffer is submitted: the semaphores waited on with the stage
/// they block, the semaphores signalled, the fence signalled, and whether the
/// submitter then waits for the queue to go idle.
pub struct SubmitPlan {
    pub wait_semaphores: Vec<u64>,
    pub wait_stages: Vec<u32>,
    pub signal_semaphores: Vec<u64>,
    pub fence: Option<u64>,
    pub wait_idle: bool,
}

impl SyncInfo {
    /// Nothing to wait on or signal: the submitter waits for the queue.
    pub fn none() -> (r: Self)
        ensures
            r.wait_on@.len() == 0,
            r.signal_to@.len() == 0,
            r.fence is None,
    {
        SyncInfo { wait_on: Vec::new(), signal_to: Vec::new(), fence: None }
    }

    /// The submission waits on the given semaphores, blocking only colour
    /// output, signals the given semaphores and fence, and, without a fence,
    /// is waited for until the queue is idle.
    pub fn submit_plan(&self) -> (r: SubmitPlan)
        ensures
            r.wait_semaphores@ == self.wait_on@,
            r.wait_stages@ == (if self.wait_on@.len() == 0 {
                Seq::<u32>::empty()
            } else {
                seq![STAGE_COLOR_ATTACHMENT_OUTPUT]
            }),
            r.signal_semaphores@ == self.signal_to@,
            r.fence == self.fence,
            r.wait_idle == self.fence is None,
    {
        let mut wait_stages: Vec<u32> = Vec::new();
        if self.wait_on.len() != 0 {
            wait_stages.push(STAGE_COLOR_ATTACHMENT_OUTPUT);
        }
        SubmitPlan {
            wait_semaphores: self.wait_on.clone(),
            wait_stages,
            signal_semaphores: self.signal_to.clone(),
            fence: self.fence,
            wait_idle: self.fence.is_none(),
        }
    }
}

} // verus!
