use vstd::prelude::*;

verus! {

/// Messages handled by the menu bar.
#[derive(Clone, Copy, Debug, PartialEq, Eq, Hash, Structural)]
pub enum MenuBarMessage {
    /// Asks the menu bar to send its layout to the frontend.
    SendLayout,
}

} // verus!
