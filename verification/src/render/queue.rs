use vstd::prelude::*;

use crate::model::Model;
use crate::render_queue_builder::ScreenColor;

verus! {

/// What the model's faces are drawn over.
#[derive(Clone, Copy, Debug, PartialEq, Eq, Structural)]
pub enum DrawBase {
    /// The target is first cleared to the model's background colour.
    ClearToBackground,
    /// The target keeps what it already holds.
    KeepTarget,
}

/// The render pass a frame records: the model's faces drawn over the given
/// base, or the screen cleared to one colour.
#[derive(Clone, Copy, Debug, PartialEq, Eq, Structural)]
pub enum PassPlan {
    DrawModel(DrawBase),
    Clear(ScreenColor),
}

/// The pass for a frame with an optional model: green when there is no
/// model, the model over its background when it is visible, black when it
/// is hidden.
pub open spec fn queue_plan<V, C>(model: Option<Model<V, C>>) -> PassPlan {
    match model {
        Some(m) => if m.visible { PassPlan::DrawModel(DrawBase::ClearToBackground) } else { PassPlan::Clear(ScreenColor::Black) },
        None => PassPlan::Clear(ScreenColor::Green),
    }
}

/// The pass that the command queue records for `model`.
pub fn add_command_queue<V, C>(model: &Option<Model<V, C>>) -> (plan: PassPlan)
    ensures
        plan == queue_plan(*model),
{
    match model {
        Some(state) => add_queue_for_app_state(state),
        None => PassPlan::Clear(ScreenColor::Green),
    }
}

/// The pass for an existing model: drawn over its background when visible,
/// else cleared black.
pub fn add_queue_for_app_state<V, C>(model: &Model<V, C>) -> (plan: PassPlan)
    ensures
        plan == queue_plan(Some(*model)),
{
    if model.visible {
        return PassPlan::DrawModel(DrawBase::ClearToBackground);
    }
    PassPlan::Clear(ScreenColor::Black)
}

} // verus!
