//! The nested clip-mask state machine and the stencil reference it selects.
use vstd::prelude::*;

verus! {

/// The stencil phase of the innermost mask level.
#[derive(Clone, Copy, Debug, PartialEq, Eq, Structural)]
pub enum MaskState {
    NoMask,
    DrawMaskStencil,
    DrawMaskedContent,
    ClearMaskStencil,
}

/// A mask command, as it moves the state machine.
#[derive(Clone, Copy, Debug, PartialEq, Eq, Structural)]
pub enum MaskOp {
    Push,
    Activate,
    Deactivate,
    Pop,
}

/// Phase of the innermost mask level together with the nesting depth.
#[derive(Clone, Copy, Debug, PartialEq, Eq, Structural)]
pub struct MaskMachine {
    pub state: MaskState,
    pub depth: u32,
}

/// The stencil reference a draw uses in `state` at nesting `depth`: none
/// without a mask, `depth - 1` while the innermost plane is being written,
/// `depth` while content is tested against it or it is cleared.
pub open spec fn stencil_reference_of(state: MaskState, depth: u32) -> Option<u32> {
    match state {
        MaskState::NoMask => None,
        MaskState::DrawMaskStencil => Some((depth - 1) as u32),
        MaskState::DrawMaskedContent => Some(depth),
        MaskState::ClearMaskStencil => Some(depth),
    }
}

/// Whether a shape draw in `state` is rasterised only to build or clear a
/// stencil plane, so that its strokes are left out.
pub open spec fn uses_mask_indices(state: MaskState) -> bool {
    state == MaskState::DrawMaskStencil || state == MaskState::ClearMaskStencil
}

/// Number of occurrences of `op` in `ops`.
pub open spec fn count_op(ops: Seq<MaskOp>, op: MaskOp) -> nat
    decreases ops.len(),
{
    if ops.len() == 0 {
        0
    } else {
        (if ops[0] == op { 1nat } else { 0nat }) + count_op(ops.drop_first(), op)
    }
}

impl MaskMachine {
    /// `NoMask` exactly at depth zero.
    pub open spec fn wf(self) -> bool {
        (self.state == MaskState::NoMask) <==> (self.depth == 0)
    }

    /// The machine after `op`, or `None` where `op` is not allowed here.
    pub open spec fn step(self, op: MaskOp) -> Option<MaskMachine> {
        match op {
            MaskOp::Push => {
                if (self.state == MaskState::NoMask || self.state == MaskState::DrawMaskedContent)
                    && self.depth < u32::MAX {
                    Some(MaskMachine { state: MaskState::DrawMaskStencil, depth: (self.depth + 1) as u32 })
                } else {
                    None
                }
            },
            MaskOp::Activate => {
                if self.state == MaskState::DrawMaskStencil && self.depth > 0 {
                    Some(MaskMachine { state: MaskState::DrawMaskedContent, depth: self.depth })
                } else {
                    None
                }
            },
            MaskOp::Deactivate => {
                if self.state == MaskState::DrawMaskedContent && self.depth > 0 {
                    Some(MaskMachine { state: MaskState::ClearMaskStencil, depth: self.depth })
                } else {
                    None
                }
            },
            MaskOp::Pop => {
                if self.state == MaskState::ClearMaskStencil && self.depth > 0 {
                    Some(
                        MaskMachine {
                            state: if self.depth == 1 {
                                MaskState::NoMask
                            } else {
                                MaskState::DrawMaskedContent
                            },
                            depth: (self.depth - 1) as u32,
                        },
                    )
                } else {
                    None
                }
            },
        }
    }

    /// The machine after every op of `ops` in turn, or `None` if one of them
    /// is not allowed where it comes.
    pub open spec fn run(self, ops: Seq<MaskOp>) -> Option<MaskMachine>
        decreases ops.len(),
    {
        if ops.len() == 0 {
            Some(self)
        } else {
            match self.step(ops[0]) {
                Some(next) => next.run(ops.drop_first()),
                None => None,
            }
        }
    }

    /// The machine of a frame that has no mask open.
    pub fn new() -> (r: MaskMachine)
        ensures
            r.state == MaskState::NoMask,
            r.depth == 0,
            r.wf(),
    {
        MaskMachine { state: MaskState::NoMask, depth: 0 }
    }

    /// Whether `op` is allowed in the current state.
    pub fn can_apply(&self, op: MaskOp) -> (r: bool)
        ensures
            r == self.step(op).is_some(),
    {
        match op {
            MaskOp::Push => (self.state == MaskState::NoMask || self.state
                == MaskState::DrawMaskedContent) && self.depth < u32::MAX,
            MaskOp::Activate => self.state == MaskState::DrawMaskStencil && self.depth > 0,
            MaskOp::Deactivate => self.state == MaskState::DrawMaskedContent && self.depth > 0,
            MaskOp::Pop => self.state == MaskState::ClearMaskStencil && self.depth > 0,
        }
    }

    /// Moves the machine by `op`; the transition table is enforced here alone.
    pub fn apply(&mut self, op: MaskOp)
        requires
            old(self).step(op).is_some(),
        ensures
            old(self).step(op) == Some(*final(self)),
    {
        match op {
            MaskOp::Push => {
                self.depth = self.depth + 1;
                self.state = MaskState::DrawMaskStencil;
            },
            MaskOp::Activate => {
                self.state = MaskState::DrawMaskedContent;
            },
            MaskOp::Deactivate => {
                self.state = MaskState::ClearMaskStencil;
            },
            MaskOp::Pop => {
                self.depth = self.depth - 1;
                self.state = if self.depth == 0 {
                    MaskState::NoMask
                } else {
                    MaskState::DrawMaskedContent
                };
            },
        }
    }

    /// The stencil reference for a draw in the current state.
    pub fn stencil_reference(&self) -> (r: Option<u32>)
        requires
            self.wf(),
        ensures
            r == stencil_reference_of(self.state, self.depth),
            self.state == MaskState::NoMask ==> r.is_none(),
            self.state == MaskState::DrawMaskStencil ==> r == Some((self.depth - 1) as u32)
                && r.unwrap() + 1 == self.depth,
            (self.state == MaskState::DrawMaskedContent || self.state
                == MaskState::ClearMaskStencil) ==> r == Some(self.depth),
    {
        match self.state {
            MaskState::NoMask => None,
            MaskState::DrawMaskStencil => Some(self.depth - 1),
            MaskState::DrawMaskedContent => Some(self.depth),
            MaskState::ClearMaskStencil => Some(self.depth),
        }
    }

    /// Whether shape draws now leave their strokes out.
    pub fn uses_mask_indices(&self) -> (r: bool)
        ensures
            r == uses_mask_indices(self.state),
    {
        self.state == MaskState::DrawMaskStencil || self.state == MaskState::ClearMaskStencil
    }
}

/// Every allowed transition keeps `NoMask` exactly at depth zero.
pub proof fn lemma_step_preserves_wf(m: MaskMachine, op: MaskOp)
    requires
        m.wf(),
        m.step(op).is_some(),
    ensures
        m.step(op).unwrap().wf(),
{
}

/// Along any allowed run of mask commands the depth moves by one up for each
/// push and one down for each pop, and `NoMask` holds exactly at depth zero.
pub proof fn lemma_run_depth(m: MaskMachine, ops: Seq<MaskOp>)
    requires
        m.wf(),
        m.run(ops).is_some(),
    ensures
        m.run(ops).unwrap().wf(),
        m.run(ops).unwrap().depth as int == m.depth as int + count_op(ops, MaskOp::Push) as int
            - count_op(ops, MaskOp::Pop) as int,
    decreases ops.len(),
{
    if ops.len() > 0 {
        let next = m.step(ops[0]).unwrap();
        lemma_step_preserves_wf(m, ops[0]);
        lemma_run_depth(next, ops.drop_first());
    }
}

/// A run of mask commands that is allowed from a frame without masks and
/// holds as many pops as pushes ends with no mask open, at depth zero.
pub proof fn lemma_balanced_masks_return_to_no_mask(ops: Seq<MaskOp>)
    requires
        (MaskMachine { state: MaskState::NoMask, depth: 0 }).run(ops).is_some(),
        count_op(ops, MaskOp::Push) == count_op(ops, MaskOp::Pop),
    ensures
        (MaskMachine { state: MaskState::NoMask, depth: 0 }).run(ops) == Some(
            MaskMachine { state: MaskState::NoMask, depth: 0 },
        ),
{
    lemma_run_depth(MaskMachine { state: MaskState::NoMask, depth: 0 }, ops);
}

} // verus!
