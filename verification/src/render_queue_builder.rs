use vstd::prelude::*;

use crate::app_state::AppState;

verus! {

/// The colours a frame can clear the screen with.
#[derive(Clone, Copy, Debug, PartialEq, Eq, Structural)]
pub enum ScreenColor {
    Green,
    Blue,
    Black,
}

/// Chooses the single render pass of a frame from the application state.
pub struct RenderQueueBuilder {}

/// The clear colour for a frame: green when there is no state yet, blue when
/// the scene is visible, black when it is hidden.
pub open spec fn queue_color(app_state: Option<AppState>) -> ScreenColor {
    match app_state {
        Some(state) => if state.visible { ScreenColor::Blue } else { ScreenColor::Black },
        None => ScreenColor::Green,
    }
}

impl RenderQueueBuilder {
    /// The colour the frame's render pass clears the screen with.
    pub fn build_queue(app_state: &Option<AppState>) -> (color: ScreenColor)
        ensures
            color == queue_color(*app_state),
    {
        match app_state {
            Some(state) => create_queue_for_app_state(state),
            None => ScreenColor::Green,
        }
    }
}

/// The clear colour for an existing state: blue when visible, else black.
pub fn create_queue_for_app_state(state: &AppState) -> (color: ScreenColor)
    ensures
        color == queue_color(Some(*state)),
{
    if state.visible {
        return ScreenColor::Blue;
    }
    ScreenColor::Black
}

/// The clear colour tells the state apart: green exactly when there is no
/// state, blue exactly when the scene is visible, black exactly when it is
/// hidden; so two states get the same colour only when both are absent or
/// both have the same visibility.
pub proof fn lemma_queue_color_distinguishes(a: Option<AppState>, b: Option<AppState>)
    ensures
        (queue_color(a) == ScreenColor::Green) <==> a is None,
        (queue_color(a) == ScreenColor::Blue) <==> (a matches Some(s) && s.visible),
        (queue_color(a) == ScreenColor::Black) <==> (a matches Some(s) && !s.visible),
        (queue_color(a) == queue_color(b)) <==> (match (a, b) {
            (None, None) => true,
            (Some(x), Some(y)) => x.visible == y.visible,
            _ => false,
        }),
{
}

} // verus!
