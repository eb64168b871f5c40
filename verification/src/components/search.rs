//! The search bar of the home screen.

use crate::action::{Mode, ModeView};
use vstd::prelude::*;

verus! {

/// The search bar of the home screen. It takes no input and sends nothing.
pub struct Home {}

impl Home {
    /// A search bar.
    pub fn new() -> (r: Home) {
        Home {  }
    }

    /// The mode that the search bar belongs to.
    pub fn mode(&self) -> (r: Mode)
        ensures
            r@ == ModeView::Home,
    {
        Mode::Home
    }
}

} // verus!
