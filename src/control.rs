use vstd::prelude::*;

use crate::com::ComMsg;
use crate::osc::{topology_replaced, OscillatorBank, Signal};

verus! {

/// Most messages taken from the control channel in one audio block; the rest
/// wait for the next block.
pub const MESSAGES_PER_BLOCK: usize = 10;

/// What one try to receive from the control channel gave.
#[derive(Clone, Debug)]
pub enum Poll<F> {
    Message(ComMsg<F>),
    Empty,
    Disconnected,
}

/// `b` is `a` after it took message `msg`.
pub open spec fn message_applied<F>(a: OscillatorBank<F>, b: OscillatorBank<F>, msg: ComMsg<F>) -> bool {
    match msg {
        ComMsg::StateChange(s) => topology_replaced(a, b, s),
        ComMsg::ModRelationChanged(m) => b == (OscillatorBank { mod_ty: m, ..a }),
        ComMsg::GainChange(g) => b == (OscillatorBank { gain_ty: g, ..a }),
        ComMsg::ResetPhaseChanged(r) => b == (OscillatorBank { reset_phase: r, ..a }),
    }
}

impl<F: Signal> OscillatorBank<F> {
    /// Takes one message from the editor.
    pub fn apply(&mut self, msg: ComMsg<F>)
        requires
            old(self).wf(),
        ensures
            final(self).wf(),
            message_applied(*old(self), *final(self), msg),
    {
        match msg {
            ComMsg::StateChange(s) => self.on_state_change(s),
            ComMsg::ModRelationChanged(m) => self.mod_ty = m,
            ComMsg::GainChange(g) => self.gain_ty = g,
            ComMsg::ResetPhaseChanged(r) => self.reset_phase = r,
        }
    }

    /// Handles what the `drained + 1`-th try to receive in a block gave, and
    /// says whether to try once more: only after a message, and while fewer
    /// than the most for one block were taken. An empty channel ends the
    /// block's tries; so does a disconnected one, which means that no more
    /// changes come and the bank plays on as it is.
    pub fn on_poll(&mut self, poll: Poll<F>, drained: usize) -> (more: bool)
        requires
            old(self).wf(),
            drained < MESSAGES_PER_BLOCK,
        ensures
            final(self).wf(),
            match poll {
                Poll::Message(msg) => message_applied(*old(self), *final(self), msg) && more == (drained + 1 < MESSAGES_PER_BLOCK),
                _ => *final(self) == *old(self) && !more,
            },
    {
        match poll {
            Poll::Message(msg) => {
                self.apply(msg);
                drained + 1 < MESSAGES_PER_BLOCK
            },
            Poll::Empty => false,
            Poll::Disconnected => false,
        }
    }
}

} // verus!
