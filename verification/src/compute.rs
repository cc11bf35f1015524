//! Schedule of the gravity compute pass, which ping-pongs between two
//! storage buffers of body states.
use vstd::prelude::*;

verus! {

/// Bodies that one workgroup of the compute shader integrates.
pub const BODIES_PER_GROUP: u32 = 64;

/// Workgroups that one dispatch may ask for along a dimension, the default
/// limit of a device.
pub const MAX_WORKGROUPS_PER_DIMENSION: u32 = 65535;

/// Bytes of one body state on the GPU: position and radius, velocity and
/// mass, and colour, four 32-bit floats each.
pub const BODY_STATE_SIZE: usize = 48;

/// One of the two storage buffers of body states.
#[derive(Clone, Copy, Debug, PartialEq, Eq, Structural)]
pub enum SimBuffer {
    A,
    B,
}

/// A binding of the two buffers to the compute pass: which one is read and
/// which one is written.
#[derive(Clone, Copy, Debug, PartialEq, Eq, Structural)]
pub enum BindOrder {
    /// Read A, write B.
    AB,
    /// Read B, write A.
    BA,
}

impl BindOrder {
    /// The buffer that this binding reads (and that drawing with it shows).
    pub open spec fn reads(self) -> SimBuffer {
        match self {
            BindOrder::AB => SimBuffer::A,
            BindOrder::BA => SimBuffer::B,
        }
    }

    /// The buffer that this binding writes.
    pub open spec fn writes(self) -> SimBuffer {
        match self {
            BindOrder::AB => SimBuffer::B,
            BindOrder::BA => SimBuffer::A,
        }
    }
}

/// Workgroups needed for `body_count` bodies: enough groups to cover every
/// body, with the last one possibly part full.
pub open spec fn workgroups_for(body_count: u32) -> int {
    (body_count + BODIES_PER_GROUP - 1) / (BODIES_PER_GROUP as int)
}

/// The bodies that one dispatch can integrate: the largest workgroup count
/// times the bodies per group.
pub const MAX_DISPATCHABLE_BODIES: u32 = 4194240;

/// What one step of the simulation records: the binding to use and the
/// number of workgroups to dispatch.
#[derive(Clone, Copy, Debug, PartialEq, Eq, Structural)]
pub struct Dispatch {
    pub order: BindOrder,
    pub workgroups: u32,
}

/// The mathematical state of a [`Y4AccelerationStep`].
pub struct StepModel {
    /// Whether the next step reads B (and writes A).
    pub swap_buffers: bool,
    /// Bodies in the simulation.
    pub body_count: u32,
}

impl StepModel {
    /// The binding that the next step uses, and that drawing uses.
    pub open spec fn order(self) -> BindOrder {
        if self.swap_buffers { BindOrder::BA } else { BindOrder::AB }
    }

    /// The buffer that holds the newest body states. Before the first step
    /// that is A, which is filled with the initial bodies.
    pub open spec fn latest(self) -> SimBuffer {
        if self.swap_buffers { SimBuffer::B } else { SimBuffer::A }
    }

    /// The state after one step.
    pub open spec fn after_run(self) -> StepModel {
        StepModel { swap_buffers: !self.swap_buffers, body_count: self.body_count }
    }

    /// The state after `k` steps.
    pub open spec fn after_runs(self, k: nat) -> StepModel
        decreases k,
    {
        if k == 0 {
            self
        } else {
            self.after_run().after_runs((k - 1) as nat)
        }
    }
}

/// The ping-pong schedule of the acceleration compute pass.
///
/// The GPU buffers, bind groups and pipeline stay with the caller; this type
/// decides which binding each step and each draw uses and how many
/// workgroups a step dispatches.
pub struct Y4AccelerationStep {
    swap_buffers: bool,
    body_count: u32,
}

impl View for Y4AccelerationStep {
    type V = StepModel;

    closed spec fn view(&self) -> StepModel {
        StepModel { swap_buffers: self.swap_buffers, body_count: self.body_count }
    }
}

impl Y4AccelerationStep {
    /// The schedule for `body_len` bodies, whose initial states are in A.
    /// The shader's parameter block holds the count as a 32-bit integer, so
    /// larger counts wrap.
    pub fn new(body_len: usize) -> (step: Self)
        ensures
            step@ == (StepModel { swap_buffers: false, body_count: body_len as u32 }),
    {
        Y4AccelerationStep { swap_buffers: false, body_count: body_len as u32 }
    }

    /// Bytes of each of the two storage buffers for `body_len` bodies.
    pub fn buffer_size(body_len: usize) -> (size: u64)
        requires
            body_len * BODY_STATE_SIZE <= usize::MAX,
        ensures
            size == body_len * BODY_STATE_SIZE,
    {
        (body_len * BODY_STATE_SIZE) as u64
    }

    /// Whether the next step reads B.
    pub fn swap_buffers(&self) -> (swap: bool)
        ensures
            swap == self@.swap_buffers,
    {
        self.swap_buffers
    }

    /// Bodies in the simulation.
    pub fn body_count(&self) -> (count: u32)
        ensures
            count == self@.body_count,
    {
        self.body_count
    }

    /// Workgroups for `body_count` bodies. A device refuses a dispatch of
    /// more groups than its limit along a dimension.
    pub fn workgroup_count(body_count: u32) -> (groups: u32)
        requires
            body_count <= MAX_DISPATCHABLE_BODIES,
        ensures
            groups == workgroups_for(body_count),
            groups <= MAX_WORKGROUPS_PER_DIMENSION,
    {
        let groups = body_count / BODIES_PER_GROUP;
        if body_count % BODIES_PER_GROUP == 0 {
            groups
        } else {
            groups + 1
        }
    }

    /// One step of the simulation: the binding it uses, which reads the
    /// newest states and writes the other buffer, and the workgroups it
    /// dispatches. Afterwards the written buffer is the newest.
    pub fn run(&mut self) -> (dispatch: Dispatch)
        requires
            old(self)@.body_count <= MAX_DISPATCHABLE_BODIES,
        ensures
            dispatch.order == old(self)@.order(),
            dispatch.workgroups == workgroups_for(old(self)@.body_count),
            final(self)@ == old(self)@.after_run(),
    {
        let order = if !self.swap_buffers { BindOrder::AB } else { BindOrder::BA };
        self.swap_buffers = !self.swap_buffers;
        Dispatch { order, workgroups: Self::workgroup_count(self.body_count) }
    }

    /// The binding to draw the bodies with: the one whose read buffer holds
    /// the newest states.
    pub fn draw_order(&self) -> (order: BindOrder)
        ensures
            order == self@.order(),
    {
        if !self.swap_buffers {
            BindOrder::AB
        } else {
            BindOrder::BA
        }
    }
}

/// Each step reads the newest states and leaves its output as the newest
/// states, so drawing after any number of steps shows the output of the
/// last one, and two steps bring the bindings back to where they were.
pub proof fn lemma_steps_chain(s: StepModel)
    ensures
        s.order().reads() == s.latest(),
        s.after_run().latest() == s.order().writes(),
        s.after_run().order().reads() == s.order().writes(),
        s.after_run().after_run() == s,
        s.order().reads() != s.order().writes(),
{
}

/// The bindings alternate strictly: after `k` steps the buffers are swapped
/// exactly when `k` is odd, the body count is unchanged, and drawing then
/// reads the buffer that the last step wrote (A after an even number of
/// steps from the start, B after an odd one).
pub proof fn lemma_steps_parity(s: StepModel, k: nat)
    ensures
        s.after_runs(k).swap_buffers == (s.swap_buffers != (k % 2 == 1)),
        s.after_runs(k).body_count == s.body_count,
        s.after_runs(k).order().reads() == s.after_runs(k).latest(),
        k > 0 ==> s.after_runs(k).latest() == s.after_runs((k - 1) as nat).order().writes(),
        !s.swap_buffers ==> s.after_runs(k).latest() == (if k % 2 == 0 {
            SimBuffer::A
        } else {
            SimBuffer::B
        }),
    decreases k,
{
    if k > 0 {
        lemma_steps_parity(s.after_run(), (k - 1) as nat);
        lemma_runs_last_step(s, k);
    }
}

/// Taking `k` steps is taking `k - 1` steps and then one more.
pub proof fn lemma_runs_last_step(s: StepModel, k: nat)
    requires
        k > 0,
    ensures
        s.after_runs(k) == s.after_runs((k - 1) as nat).after_run(),
    decreases k,
{
    if k > 1 {
        lemma_runs_last_step(s.after_run(), (k - 1) as nat);
        assert(s.after_runs((k - 1) as nat) == s.after_run().after_runs((k - 2) as nat));
    } else {
        assert(s.after_run().after_runs(0) == s.after_run());
    }
}

/// The workgroups of a dispatch cover every body, and no group is entirely
/// idle.
pub proof fn lemma_workgroups_cover_bodies(body_count: u32)
    ensures
        workgroups_for(body_count) * BODIES_PER_GROUP >= body_count,
        body_count > 0 ==> (workgroups_for(body_count) - 1) * BODIES_PER_GROUP < body_count,
        body_count == 0 ==> workgroups_for(body_count) == 0,
        MAX_DISPATCHABLE_BODIES == MAX_WORKGROUPS_PER_DIMENSION * BODIES_PER_GROUP,
        body_count <= MAX_DISPATCHABLE_BODIES ==> workgroups_for(body_count)
            <= MAX_WORKGROUPS_PER_DIMENSION,
{
}

} // verus!
