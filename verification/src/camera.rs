//! The decisions of the orbit camera: which input feeds which maneuver, when
//! the camera counts as upside down, and when its transform is computed anew.

use crate::keyboard::{binding_fresh, binding_held, bound_key_fresh, bound_key_held};
use bevy::input::keyboard::KeyCode;
use bevy::input::ButtonInput;
use vstd::prelude::*;

verus! {

/// The three maneuvers of the camera.
#[derive(Debug, Clone, Copy, PartialEq, Eq, Hash, Structural)]
pub enum PanOrbitAction {
    Pan,
    Orbit,
    Zoom,
}

/// The key that has to be held for each maneuver, if it has one, and the
/// maneuver that the scroll wheel drives, if it drives one.
#[derive(Clone, Copy, Debug)]
pub struct PanOrbitBindings {
    pub pan_key: Option<KeyCode>,
    pub orbit_key: Option<KeyCode>,
    pub zoom_key: Option<KeyCode>,
    pub scroll_action: Option<PanOrbitAction>,
}

/// The inputs that feed one maneuver during an update. A maneuver that
/// neither input feeds gets a zero delta.
#[derive(Clone, Copy, Debug, PartialEq, Eq, Structural)]
pub struct Feed {
    /// The pointer motion counts, because the maneuver's key is held.
    pub motion: bool,
    /// The scroll wheel counts, because it is bound to the maneuver.
    pub scroll: bool,
}

/// What one update of the camera does with its input.
#[derive(Clone, Copy, Debug, PartialEq, Eq, Structural)]
pub struct UpdatePlan {
    pub pan: Feed,
    pub orbit: Feed,
    pub zoom: Feed,
    /// The orbit key went down during this frame.
    pub orbit_started: bool,
}

/// The keys of the maneuvers as the keyboard shows them.
#[derive(Clone, Copy, Debug, PartialEq, Eq, Structural)]
pub struct ManeuverKeys {
    pub pan_held: bool,
    pub orbit_held: bool,
    pub zoom_held: bool,
    pub orbit_pressed: bool,
}

/// The plan that follows from the state of the maneuver keys and the binding
/// of the scroll wheel.
pub open spec fn plan_of(held: ManeuverKeys, scroll_action: Option<PanOrbitAction>) -> UpdatePlan {
    UpdatePlan {
        pan: Feed { motion: held.pan_held, scroll: scroll_action == Some(PanOrbitAction::Pan) },
        orbit: Feed {
            motion: held.orbit_held,
            scroll: scroll_action == Some(PanOrbitAction::Orbit),
        },
        zoom: Feed { motion: held.zoom_held, scroll: scroll_action == Some(PanOrbitAction::Zoom) },
        orbit_started: held.orbit_pressed,
    }
}

/// The state of the maneuver keys in a keyboard state. A maneuver without a
/// key counts as not held.
pub open spec fn maneuver_keys_of(
    keys: ButtonInput<KeyCode>,
    bindings: PanOrbitBindings,
) -> ManeuverKeys {
    ManeuverKeys {
        pan_held: binding_held(keys, bindings.pan_key),
        orbit_held: binding_held(keys, bindings.orbit_key),
        zoom_held: binding_held(keys, bindings.zoom_key),
        orbit_pressed: binding_fresh(keys, bindings.orbit_key),
    }
}

/// Whether the scroll wheel is bound to `action`.
pub fn scroll_drives(scroll_action: Option<PanOrbitAction>, action: PanOrbitAction) -> (drives:
    bool)
    ensures
        drives == (scroll_action == Some(action)),
{
    match scroll_action {
        Some(bound) => bound == action,
        None => false,
    }
}

/// Decides for each maneuver which inputs feed it.
pub fn plan(held: ManeuverKeys, scroll_action: Option<PanOrbitAction>) -> (plan: UpdatePlan)
    ensures
        plan == plan_of(held, scroll_action),
{
    UpdatePlan {
        pan: Feed {
            motion: held.pan_held,
            scroll: scroll_drives(scroll_action, PanOrbitAction::Pan),
        },
        orbit: Feed {
            motion: held.orbit_held,
            scroll: scroll_drives(scroll_action, PanOrbitAction::Orbit),
        },
        zoom: Feed {
            motion: held.zoom_held,
            scroll: scroll_drives(scroll_action, PanOrbitAction::Zoom),
        },
        orbit_started: held.orbit_pressed,
    }
}

/// Reads the maneuver keys from the keyboard and decides for each maneuver
/// which inputs feed it.
pub fn plan_update(keys: &ButtonInput<KeyCode>, bindings: &PanOrbitBindings) -> (plan: UpdatePlan)
    ensures
        plan == plan_of(maneuver_keys_of(*keys, *bindings), bindings.scroll_action),
{
    let held = ManeuverKeys {
        pan_held: bound_key_held(keys, bindings.pan_key),
        orbit_held: bound_key_held(keys, bindings.orbit_key),
        zoom_held: bound_key_held(keys, bindings.zoom_key),
        orbit_pressed: bound_key_fresh(keys, bindings.orbit_key),
    };
    plan(held, bindings.scroll_action)
}

/// Whether the camera counts as upside down during an update. The flag is
/// taken anew when an orbit starts, from whether the pitch lies beyond the
/// vertical; during an orbit and outside of one it stays as it was.
pub fn upside_down_after(orbit_started: bool, pitch_beyond_vertical: bool, upside_down: bool) -> (now:
    bool)
    ensures
        now == (if orbit_started {
            pitch_beyond_vertical
        } else {
            upside_down
        }),
{
    if orbit_started {
        pitch_beyond_vertical
    } else {
        upside_down
    }
}

/// Whether the camera's transform has to be computed anew: a maneuver had a
/// nonzero delta, or the camera was just created.
pub fn needs_recompute(zoomed: bool, orbited: bool, panned: bool, just_added: bool) -> (recompute:
    bool)
    ensures
        recompute == (zoomed || orbited || panned || just_added),
{
    zoomed || orbited || panned || just_added
}

} // verus!
