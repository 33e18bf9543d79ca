//! The simulation's settings: the active equation, the number of sub-steps
//! per tick and the step-size exponent.

use vstd::prelude::*;

verus! {

/// The vector fields that a particle can follow.
#[derive(Clone, Copy, Debug, PartialEq, Eq, Hash, Structural)]
pub enum Equation {
    /// The baseline: uniform drift, at rest when its rate is zero.
    Basic,
    /// The Lorenz system with its standard parameters.
    LorenzStandard,
    /// The Roessler system, first preset.
    RosslerVariant1,
    /// The Roessler system, second preset.
    RosslerVariant2,
}

/// What one press of an exponent key adds to or takes from the step-size
/// exponent, in tenths.
pub const EXPONENT_STEP_TENTHS: i32 = 2;

/// The settings that a tick reads. The step-size exponent is held in tenths,
/// so the step size of a tick is the base step size times
/// `2^(exponent_tenths / 10)`.
#[derive(Clone, Copy, Debug, PartialEq, Eq, Structural)]
pub struct SimulationConfig {
    pub equation: Equation,
    pub steps: u8,
    pub exponent_tenths: i32,
}

/// The sub-step count after one increment: one more, except at the largest
/// count that fits.
pub open spec fn steps_raised(steps: u8) -> u8 {
    if steps < u8::MAX {
        (steps + 1) as u8
    } else {
        steps
    }
}

/// The sub-step count after one decrement: one less, except at zero.
pub open spec fn steps_lowered(steps: u8) -> u8 {
    if steps > 0 {
        (steps - 1) as u8
    } else {
        steps
    }
}

/// The exponent after one increment, unchanged where the sum does not fit.
pub open spec fn exponent_raised(tenths: i32) -> i32 {
    if tenths + EXPONENT_STEP_TENTHS <= i32::MAX {
        (tenths + EXPONENT_STEP_TENTHS) as i32
    } else {
        tenths
    }
}

/// The exponent after one decrement, unchanged where the difference does not
/// fit.
pub open spec fn exponent_lowered(tenths: i32) -> i32 {
    if tenths - EXPONENT_STEP_TENTHS >= i32::MIN {
        (tenths - EXPONENT_STEP_TENTHS) as i32
    } else {
        tenths
    }
}

impl SimulationConfig {
    /// The settings at start: the standard Lorenz system, one sub-step per
    /// tick, exponent 2.5.
    pub fn new() -> (config: Self)
        ensures
            config == (SimulationConfig {
                equation: Equation::LorenzStandard,
                steps: 1,
                exponent_tenths: 25,
            }),
    {
        SimulationConfig { equation: Equation::LorenzStandard, steps: 1, exponent_tenths: 25 }
    }

    /// Makes `equation` the active one.
    pub fn select(&mut self, equation: Equation)
        ensures
            *final(self) == (SimulationConfig { equation, ..*old(self) }),
    {
        self.equation = equation;
    }

    /// One more sub-step per tick.
    pub fn more_steps(&mut self)
        ensures
            *final(self) == (SimulationConfig { steps: steps_raised(old(self).steps), ..*old(self) }),
    {
        if self.steps < u8::MAX {
            self.steps = self.steps + 1;
        }
    }

    /// One sub-step less per tick; at zero nothing changes.
    pub fn fewer_steps(&mut self)
        ensures
            *final(self) == (SimulationConfig {
                steps: steps_lowered(old(self).steps),
                ..*old(self)
            }),
    {
        if self.steps > 0 {
            self.steps = self.steps - 1;
        }
    }

    /// Raises the step-size exponent by one increment.
    pub fn raise_exponent(&mut self)
        ensures
            *final(self) == (SimulationConfig {
                exponent_tenths: exponent_raised(old(self).exponent_tenths),
                ..*old(self)
            }),
    {
        if self.exponent_tenths <= i32::MAX - EXPONENT_STEP_TENTHS {
            self.exponent_tenths = self.exponent_tenths + EXPONENT_STEP_TENTHS;
        }
    }

    /// Lowers the step-size exponent by one increment.
    pub fn lower_exponent(&mut self)
        ensures
            *final(self) == (SimulationConfig {
                exponent_tenths: exponent_lowered(old(self).exponent_tenths),
                ..*old(self)
            }),
    {
        if self.exponent_tenths >= i32::MIN + EXPONENT_STEP_TENTHS {
            self.exponent_tenths = self.exponent_tenths - EXPONENT_STEP_TENTHS;
        }
    }
}

} // verus!
