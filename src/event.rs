use vstd::prelude::*;

verus! {

/// What the terminal's event source delivers: a key press, or a tick of the
/// redraw clock.
pub enum Event<I> {
    Input(I),
    Tick,
}

} // verus!
