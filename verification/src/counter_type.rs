use vstd::prelude::*;

verus! {

/// Whether a position response carries a multi-turn revolution count in
/// addition to the within-turn position. Chosen by the caller per request,
/// never inferred from the wire.
#[derive(Clone, Copy, Debug, PartialEq, Eq, Structural)]
pub enum CounterType {
    SingleTurn,
    MultiTurn,
}

} // verus!
