//! Blend modes and the stack of them that nested commands build.
use vstd::prelude::*;

verus! {

/// A compositing operation of the framebuffer.
#[derive(Clone, Copy, Debug, PartialEq, Eq, Structural)]
pub enum BlendMode {
    Normal,
    Layer,
    Multiply,
    Screen,
    Lighten,
    Darken,
    Difference,
    Add,
    Subtract,
    Invert,
    Alpha,
    Erase,
    Overlay,
    HardLight,
}

/// The blend modes pushed so far; the last one is current.
pub struct BlendStack {
    modes: Vec<BlendMode>,
}

impl View for BlendStack {
    type V = Seq<BlendMode>;

    closed spec fn view(&self) -> Seq<BlendMode> {
        self.modes@
    }
}

/// The stack after pushing `mode`.
pub open spec fn pushed(s: Seq<BlendMode>, mode: BlendMode) -> Seq<BlendMode> {
    s.push(mode)
}

/// The stack after popping its top.
pub open spec fn popped(s: Seq<BlendMode>) -> Seq<BlendMode> {
    s.drop_last()
}

impl BlendStack {
    /// Never empty, and `Normal` at the bottom.
    pub open spec fn wf(&self) -> bool {
        self@.len() > 0 && self@[0] == BlendMode::Normal
    }

    /// The current mode.
    pub open spec fn top(&self) -> BlendMode {
        self@.last()
    }

    /// A stack that holds `Normal` alone.
    pub fn new() -> (r: BlendStack)
        ensures
            r@ == seq![BlendMode::Normal],
            r.wf(),
    {
        BlendStack { modes: vec![BlendMode::Normal] }
    }

    /// The current mode.
    pub fn current(&self) -> (r: BlendMode)
        requires
            self.wf(),
        ensures
            r == self.top(),
    {
        self.modes[self.modes.len() - 1]
    }

    /// Number of modes on the stack, the default one included.
    pub fn len(&self) -> (r: usize)
        ensures
            r == self@.len(),
    {
        self.modes.len()
    }

    /// Makes `mode` current above the modes already pushed.
    pub fn push(&mut self, mode: BlendMode)
        requires
            old(self).wf(),
        ensures
            final(self)@ == pushed(old(self)@, mode),
            final(self).wf(),
            final(self).top() == mode,
    {
        self.modes.push(mode);
    }

    /// Drops the current mode; the default one at the bottom stays.
    pub fn pop(&mut self)
        requires
            old(self).wf(),
            old(self)@.len() > 1,
        ensures
            final(self)@ == popped(old(self)@),
            final(self).wf(),
    {
        self.modes.pop();
    }
}

/// Pushing a mode and popping it at once gives back the stack as it was, and
/// so its current mode, whatever the mode pushed.
pub proof fn lemma_push_pop_restores(s: Seq<BlendMode>, mode: BlendMode)
    requires
        s.len() > 0,
    ensures
        popped(pushed(s, mode)) == s,
        popped(pushed(s, mode)).last() == s.last(),
{
    assert(popped(pushed(s, mode)) =~= s);
}

} // verus!
