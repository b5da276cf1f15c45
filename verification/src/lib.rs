//! Selection and viewport bookkeeping for a terminal list picker.
//!
//! The crate tracks which entry of a filtered candidate list is selected,
//! where that entry sits inside the visible window, and which row the window
//! starts at, and keeps the three coordinates consistent while the user moves
//! the selection forward or backward, wrapping around at either end of the
//! list.

pub mod picker;
