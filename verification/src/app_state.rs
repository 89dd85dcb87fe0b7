use vstd::prelude::*;

verus! {

/// The application-level state that decides what a frame shows.
pub struct AppState {
    pub visible: bool,
}

impl AppState {
    /// A fresh state: nothing is shown until the scene is made visible.
    pub fn new() -> (state: AppState)
        ensures
            !state.visible,
    {
        AppState { visible: false }
    }
}

} // verus!
