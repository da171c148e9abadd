//! The score counter.

use vstd::prelude::*;

verus! {

/// The run's score.  It grows by a coin's value on every pickup (and by
/// one for each knife that lands, where that rule is switched on) and
/// resets to zero whenever the playing state is left.
#[derive(Clone, Copy, PartialEq, Eq, Structural, Debug)]
pub struct Points {
    pub value: i64,
}

} // verus!
