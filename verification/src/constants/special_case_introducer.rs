use vstd::prelude::*;

verus! {

/// After `ESC`, a whole sequence by itself: move the cursor up, scrolling back if
/// it is on the top row.
pub const SCROLL_UP: char = 'M';

} // verus!
