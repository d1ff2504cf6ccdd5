//! The pulse-counting peripheral, as the water meter sees it.

use vstd::prelude::*;

verus! {

/// What the peripheral holds.
#[derive(Clone, Copy, Debug, PartialEq, Eq, Structural)]
pub struct Data {
    /// Edges counted since the count was last reset.
    pub edges_count: u16,
    /// The number of edges at which the peripheral wakes the device; zero
    /// while it is not to wake it at all.
    pub wakeup_edges: u16,
}

/// A peripheral that counts the edges of the flow sensor on its own.
///
/// Nothing is promised of what an implementation returns: the water meter
/// states what it does with each answer.
pub trait PulseCounter {
    /// A failure to reach the peripheral.
    type Error;

    /// Starts counting.
    fn start(&mut self) -> Result<(), Self::Error>;

    /// Reads what the peripheral holds.
    fn get_data(&mut self) -> Result<Data, Self::Error>;

    /// Stores `data` in the peripheral and returns what it held, in one step.
    fn swap_data(&mut self, data: &Data) -> Result<Data, Self::Error>;
}

} // verus!
