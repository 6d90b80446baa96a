//! The parts that a frame is made of.

use vstd::prelude::*;
use crate::plugins::rendering::RenderSchedule;

pub mod events;
pub mod rendering;
pub mod sprites;

verus! {

/// Something that adds its systems to the frame.
pub trait Plugin {
    /// Registers the plugin's systems. What was registered before stays, in
    /// its order.
    fn build(self, schedule: &mut RenderSchedule)
        ensures
            old(schedule)@.is_prefix_of(final(schedule)@),
    ;
}

} // verus!
