//! The ship's movement modes: which mode three held modifier flags select,
//! and what each mode enables.

use vstd::prelude::*;

verus! {

/// Movement mode of the ship, derived each tick from the modifier flags.
#[derive(Debug, Clone, Copy, PartialEq, Eq, Structural)]
pub enum MovementMode {
    /// Thrusters and main engine, finite top speed.
    Normal,
    /// Thrusters only, low top speed, nose follows the mouse.
    Control,
    /// Main engine only, high top speed.
    Boost,
    /// No resistance, unbounded speed.
    Alt,
    /// Control and boost held together: no propulsion at all.
    Disabled,
}

/// What the ship's nose turns toward.
#[derive(Debug, Clone, Copy, PartialEq, Eq, Structural)]
pub enum RotationSource {
    /// The world-space angle of the mouse target.
    MouseAim,
    /// The direction of the movement input.
    InputDirection,
    /// The current facing: the ship does not turn.
    Hold,
}

/// Top speed of a mode, in world units per second.
#[derive(Debug, Clone, Copy, PartialEq, Eq, Structural)]
pub enum SpeedLimit {
    Limited(u32),
    Unlimited,
}

pub const NORMAL_TOP_SPEED: u32 = 400;

pub const CONTROL_TOP_SPEED: u32 = 200;

pub const BOOST_TOP_SPEED: u32 = 1200;

/// Mode precedence: control with boost disables the ship; otherwise alt wins,
/// then control, then boost; with no flag the mode is normal.
pub open spec fn mode_of(control: bool, boost: bool, alt: bool) -> MovementMode {
    if control && boost {
        MovementMode::Disabled
    } else if alt {
        MovementMode::Alt
    } else if control {
        MovementMode::Control
    } else if boost {
        MovementMode::Boost
    } else {
        MovementMode::Normal
    }
}

impl MovementMode {
    pub open spec fn spec_top_speed(self) -> SpeedLimit {
        match self {
            MovementMode::Normal => SpeedLimit::Limited(NORMAL_TOP_SPEED),
            MovementMode::Control => SpeedLimit::Limited(CONTROL_TOP_SPEED),
            MovementMode::Boost => SpeedLimit::Limited(BOOST_TOP_SPEED),
            MovementMode::Alt => SpeedLimit::Unlimited,
            MovementMode::Disabled => SpeedLimit::Limited(0),
        }
    }

    pub open spec fn spec_rotation_source(self) -> RotationSource {
        match self {
            MovementMode::Control => RotationSource::MouseAim,
            MovementMode::Disabled => RotationSource::Hold,
            _ => RotationSource::InputDirection,
        }
    }

    pub fn top_speed(self) -> (r: SpeedLimit)
        ensures
            r == self.spec_top_speed(),
    {
        match self {
            MovementMode::Normal => SpeedLimit::Limited(NORMAL_TOP_SPEED),
            MovementMode::Control => SpeedLimit::Limited(CONTROL_TOP_SPEED),
            MovementMode::Boost => SpeedLimit::Limited(BOOST_TOP_SPEED),
            MovementMode::Alt => SpeedLimit::Unlimited,
            MovementMode::Disabled => SpeedLimit::Limited(0),
        }
    }

    pub fn rotation_source(self) -> (r: RotationSource)
        ensures
            r == self.spec_rotation_source(),
    {
        match self {
            MovementMode::Control => RotationSource::MouseAim,
            MovementMode::Disabled => RotationSource::Hold,
            _ => RotationSource::InputDirection,
        }
    }
}

impl SpeedLimit {
    /// Speed-dependent resistance only acts against a finite, nonzero top speed.
    pub fn allows_resistance(self) -> (r: bool)
        ensures
            r == (self matches SpeedLimit::Limited(v) && v > 0),
    {
        match self {
            SpeedLimit::Limited(v) => v > 0,
            SpeedLimit::Unlimited => false,
        }
    }
}

/// The three modifier keys, which may be held in any combination.
#[derive(Debug, Clone, Copy, PartialEq, Eq, Structural)]
pub struct ModeFlags {
    pub control: bool,
    pub boost: bool,
    pub alt: bool,
}

impl ModeFlags {
    pub open spec fn spec_mode(self) -> MovementMode {
        mode_of(self.control, self.boost, self.alt)
    }

    pub fn new() -> (r: ModeFlags)
        ensures
            !r.control && !r.boost && !r.alt,
            r.spec_mode() == MovementMode::Normal,
    {
        ModeFlags { control: false, boost: false, alt: false }
    }

    pub fn current_mode(&self) -> (r: MovementMode)
        ensures
            r == self.spec_mode(),
    {
        if self.control && self.boost {
            MovementMode::Disabled
        } else if self.alt {
            MovementMode::Alt
        } else if self.control {
            MovementMode::Control
        } else if self.boost {
            MovementMode::Boost
        } else {
            MovementMode::Normal
        }
    }

    /// Thrusters run in normal and control mode, and in alt mode unless boost
    /// is held too.
    pub fn thrusters_enabled(&self) -> (r: bool)
        ensures
            r == match self.spec_mode() {
                MovementMode::Normal | MovementMode::Control => true,
                MovementMode::Alt => !self.boost,
                MovementMode::Boost | MovementMode::Disabled => false,
            },
    {
        match self.current_mode() {
            MovementMode::Normal => true,
            MovementMode::Control => true,
            MovementMode::Boost => false,
            MovementMode::Alt => !self.boost,
            MovementMode::Disabled => false,
        }
    }

    /// The main engine runs in normal and boost mode, and in alt mode unless
    /// control is held too.
    pub fn main_engine_enabled(&self) -> (r: bool)
        ensures
            r == match self.spec_mode() {
                MovementMode::Normal | MovementMode::Boost => true,
                MovementMode::Alt => !self.control,
                MovementMode::Control | MovementMode::Disabled => false,
            },
    {
        match self.current_mode() {
            MovementMode::Normal => true,
            MovementMode::Control => false,
            MovementMode::Boost => true,
            MovementMode::Alt => !self.control,
            MovementMode::Disabled => false,
        }
    }

    /// Alt turns resistance off.
    pub fn resistance_enabled(&self) -> (r: bool)
        ensures
            r == !self.alt,
    {
        !self.alt
    }

    /// The main engine pushes with its boost acceleration whenever boost is held.
    pub fn boost_engine_selected(&self) -> (r: bool)
        ensures
            r == self.boost,
    {
        self.boost
    }
}

} // verus!
