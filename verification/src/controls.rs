//! The discrete controls: clearing the particles, choosing the equation, and
//! changing the sub-step count and the step-size exponent.

use crate::config::{
    exponent_lowered, exponent_raised, steps_lowered, steps_raised, Equation, SimulationConfig,
};
use crate::keyboard::{fresh_keys, is_fresh};
use crate::store::ParticleStore;
use bevy::input::keyboard::KeyCode;
use bevy::input::ButtonInput;
use vstd::prelude::*;

verus! {

/// The key of each control.
#[derive(Clone, Copy, Debug)]
pub struct ControlKeys {
    pub clear: KeyCode,
    pub basic: KeyCode,
    pub lorenz: KeyCode,
    pub rossler1: KeyCode,
    pub rossler2: KeyCode,
    pub more_steps: KeyCode,
    pub fewer_steps: KeyCode,
    pub raise_exponent: KeyCode,
    pub lower_exponent: KeyCode,
}

/// Which controls were pressed during one frame.
#[derive(Clone, Copy, Debug, PartialEq, Eq, Structural)]
pub struct ControlPresses {
    pub clear: bool,
    pub basic: bool,
    pub lorenz: bool,
    pub rossler1: bool,
    pub rossler2: bool,
    pub more_steps: bool,
    pub fewer_steps: bool,
    pub raise_exponent: bool,
    pub lower_exponent: bool,
}

/// The presses that a keyboard state shows for the given keys.
pub open spec fn presses_of(keys: ButtonInput<KeyCode>, bindings: ControlKeys) -> ControlPresses {
    ControlPresses {
        clear: fresh_keys(keys).contains(bindings.clear),
        basic: fresh_keys(keys).contains(bindings.basic),
        lorenz: fresh_keys(keys).contains(bindings.lorenz),
        rossler1: fresh_keys(keys).contains(bindings.rossler1),
        rossler2: fresh_keys(keys).contains(bindings.rossler2),
        more_steps: fresh_keys(keys).contains(bindings.more_steps),
        fewer_steps: fresh_keys(keys).contains(bindings.fewer_steps),
        raise_exponent: fresh_keys(keys).contains(bindings.raise_exponent),
        lower_exponent: fresh_keys(keys).contains(bindings.lower_exponent),
    }
}

/// The settings after one frame's presses. Of the equation keys the first
/// in the order basic, Lorenz, first and second Roessler preset wins; more
/// sub-steps win over fewer, and raising the exponent over lowering it.
pub open spec fn after_presses(config: SimulationConfig, presses: ControlPresses) -> SimulationConfig {
    SimulationConfig {
        equation: if presses.basic {
            Equation::Basic
        } else if presses.lorenz {
            Equation::LorenzStandard
        } else if presses.rossler1 {
            Equation::RosslerVariant1
        } else if presses.rossler2 {
            Equation::RosslerVariant2
        } else {
            config.equation
        },
        steps: if presses.more_steps {
            steps_raised(config.steps)
        } else if presses.fewer_steps {
            steps_lowered(config.steps)
        } else {
            config.steps
        },
        exponent_tenths: if presses.raise_exponent {
            exponent_raised(config.exponent_tenths)
        } else if presses.lower_exponent {
            exponent_lowered(config.exponent_tenths)
        } else {
            config.exponent_tenths
        },
    }
}

/// Reads the state of each control's key.
pub fn read_presses(keys: &ButtonInput<KeyCode>, bindings: &ControlKeys) -> (presses:
    ControlPresses)
    ensures
        presses == presses_of(*keys, *bindings),
{
    ControlPresses {
        clear: is_fresh(keys, bindings.clear),
        basic: is_fresh(keys, bindings.basic),
        lorenz: is_fresh(keys, bindings.lorenz),
        rossler1: is_fresh(keys, bindings.rossler1),
        rossler2: is_fresh(keys, bindings.rossler2),
        more_steps: is_fresh(keys, bindings.more_steps),
        fewer_steps: is_fresh(keys, bindings.fewer_steps),
        raise_exponent: is_fresh(keys, bindings.raise_exponent),
        lower_exponent: is_fresh(keys, bindings.lower_exponent),
    }
}

/// Carries out one frame's presses: clears the particles where that was asked
/// for, and changes the settings. Returns whether the particles were cleared.
pub fn apply_presses<P>(
    presses: &ControlPresses,
    config: &mut SimulationConfig,
    store: &mut ParticleStore<P>,
) -> (cleared: bool)
    ensures
        cleared == presses.clear,
        *final(config) == after_presses(*old(config), *presses),
        final(store)@ == (if presses.clear {
            Seq::<P>::empty()
        } else {
            old(store)@
        }),
        final(store).tally() == (if presses.clear {
            0
        } else {
            old(store).tally()
        }),
        final(store).counted(),
{
    proof {
        use_type_invariant(&*store);
    }
    if presses.clear {
        store.despawn_all();
    }
    if presses.basic {
        config.select(Equation::Basic);
    } else if presses.lorenz {
        config.select(Equation::LorenzStandard);
    } else if presses.rossler1 {
        config.select(Equation::RosslerVariant1);
    } else if presses.rossler2 {
        config.select(Equation::RosslerVariant2);
    }
    if presses.more_steps {
        config.more_steps();
    } else if presses.fewer_steps {
        config.fewer_steps();
    }
    if presses.raise_exponent {
        config.raise_exponent();
    } else if presses.lower_exponent {
        config.lower_exponent();
    }
    presses.clear
}

/// Reads the controls from the keyboard and carries them out. Returns whether
/// the particles were cleared.
pub fn keybind_listener<P>(
    keys: &ButtonInput<KeyCode>,
    bindings: &ControlKeys,
    config: &mut SimulationConfig,
    store: &mut ParticleStore<P>,
) -> (cleared: bool)
    ensures
        cleared == fresh_keys(*keys).contains(bindings.clear),
        *final(config) == after_presses(*old(config), presses_of(*keys, *bindings)),
        final(store)@ == (if cleared {
            Seq::<P>::empty()
        } else {
            old(store)@
        }),
        final(store).tally() == (if cleared {
            0
        } else {
            old(store).tally()
        }),
        final(store).counted(),
{
    let presses = read_presses(keys, bindings);
    apply_presses(&presses, config, store)
}

} // verus!
