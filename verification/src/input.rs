use vstd::prelude::*;

verus! {

/// The input actions the game listens for.
#[derive(Debug, Clone, Copy, PartialEq, Eq, Structural)]
pub enum InputActions {
    Primary,
    _Secondary,
    RotateCw,
    RotateCcw,
}

impl InputActions {
    /// The name under which the engine's input map knows this action.
    pub fn action_name(&self) -> (r: &'static str)
        ensures
            self is Primary ==> r@ == "Primary"@,
            self is _Secondary ==> r@ == "Secondary"@,
            self is RotateCw ==> r@ == "Rotate CW"@,
            self is RotateCcw ==> r@ == "Rotate CCW"@,
    {
        match self {
            InputActions::Primary => "Primary",
            InputActions::_Secondary => "Secondary",
            InputActions::RotateCw => "Rotate CW",
            InputActions::RotateCcw => "Rotate CCW",
        }
    }
}

} // verus!
