//! The housing interaction: clicking one's house at the end of the day
//! puts the player to sleep and lets the night run.

use vstd::prelude::*;

use crate::daycycle::DayCycle;
use crate::interface::Interface;
use crate::world::{TileType, WorldIndex};

verus! {

/// Go to sleep when the primary action is pressed over a housing tile;
/// any other click, or none, leaves the clock untouched. Returns whether
/// sleep began.
pub fn try_sleep(
    interface: &Interface,
    index: &WorldIndex,
    day: &mut DayCycle,
    primary_pressed: bool,
) -> (slept: bool)
    requires
        interface.wf(),
    ensures
        ({
            let sel = if primary_pressed {
                interface.spec_selected_tile(index@)
            } else {
                None
            };
            if sel == Some(TileType::Housing) {
                *final (day) == old(day).slept() && slept
            } else {
                *final (day) == *old(day) && !slept
            }
        }),
{
    if !primary_pressed {
        return false;
    }
    match interface.selected_tile(index) {
        Some(typ) => {
            if typ == TileType::Housing {
                day.sleep();
                true
            } else {
                false
            }
        },
        None => false,
    }
}

} // verus!
