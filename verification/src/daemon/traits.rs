use vstd::prelude::*;

verus! {

/// What an event handler asks of the event loop after handling an event.
#[derive(Debug, Clone, Copy, PartialEq, Eq, Structural)]
pub enum LoopAction {
    Continue,
}

} // verus!
