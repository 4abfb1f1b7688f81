//! The discrete part of command handling: movement keys, modifier flags,
//! target selection and the fire buttons.

use vstd::prelude::*;
use vstd::string::StringSliceAdditionalSpecFns;
use crate::movement::ModeFlags;

verus! {

/// A command from the host, other than the mouse position (whose handling
/// needs world coordinates).
#[derive(Debug, Clone, Copy, PartialEq, Eq, Structural)]
pub enum ControlCommand {
    MoveUp,
    MoveDown,
    MoveLeft,
    MoveRight,
    ToggleAltMode(bool),
    ToggleBoostMode(bool),
    ToggleControlMode(bool),
    SetTargetEntity(Option<usize>),
    StartShootingTracking,
    StopShootingTracking,
    StartAutoFire,
    StopAutoFire,
}

/// Whether two byte strings are equal.
fn bytes_equal(a: &[u8], b: &[u8]) -> (r: bool)
    ensures
        r == (a@ == b@),
{
    if a.len() != b.len() {
        return false;
    }
    let mut i: usize = 0;
    while i < a.len()
        invariant
            a@.len() == b@.len(),
            i <= a@.len(),
            forall|k: int| 0 <= k < i ==> a@[k] == b@[k],
        decreases a@.len() - i,
    {
        if a[i] != b[i] {
            return false;
        }
        i = i + 1;
    }
    proof {
        assert(a@ =~= b@);
    }
    true
}

/// The movement command that the host calls by `name` (in UTF-8 bytes).
pub open spec fn movement_command_named(name: Seq<u8>) -> Option<ControlCommand> {
    if name == "move_up".spec_bytes() {
        Some(ControlCommand::MoveUp)
    } else if name == "move_down".spec_bytes() {
        Some(ControlCommand::MoveDown)
    } else if name == "move_left".spec_bytes() {
        Some(ControlCommand::MoveLeft)
    } else if name == "move_right".spec_bytes() {
        Some(ControlCommand::MoveRight)
    } else {
        None
    }
}

/// Reads a movement command by name; any other name is ignored (`None`).
pub fn movement_command(name: &str) -> (r: Option<ControlCommand>)
    ensures
        r == movement_command_named(name.spec_bytes()),
{
    let b = name.as_bytes();
    if bytes_equal(b, "move_up".as_bytes()) {
        Some(ControlCommand::MoveUp)
    } else if bytes_equal(b, "move_down".as_bytes()) {
        Some(ControlCommand::MoveDown)
    } else if bytes_equal(b, "move_left".as_bytes()) {
        Some(ControlCommand::MoveLeft)
    } else if bytes_equal(b, "move_right".as_bytes()) {
        Some(ControlCommand::MoveRight)
    } else {
        None
    }
}

/// Pilot input gathered over one tick.
///
/// The movement axes hold -1, 0 or 1 before the direction is normalised:
/// `input_x` grows to the right and `input_y` downward.
#[derive(Debug, Clone, Copy, PartialEq, Eq, Structural)]
pub struct ControlState {
    pub flags: ModeFlags,
    pub input_x: i8,
    pub input_y: i8,
    pub autofiring: bool,
    pub target_entity: Option<usize>,
    /// A tracking shot was asked for during this tick.
    pub tracking_shot_requested: bool,
    /// Autofire has been started since the fire button was last released.
    pub autofired_since_release: bool,
}

impl ControlState {
    pub open spec fn wf(self) -> bool {
        &&& -1 <= self.input_x <= 1
        &&& -1 <= self.input_y <= 1
    }

    pub fn new() -> (r: ControlState)
        ensures
            r.wf(),
            !r.flags.control && !r.flags.boost && !r.flags.alt,
            r.input_x == 0 && r.input_y == 0,
            !r.autofiring,
            r.target_entity is None,
            !r.tracking_shot_requested,
            !r.autofired_since_release,
    {
        ControlState {
            flags: ModeFlags::new(),
            input_x: 0,
            input_y: 0,
            autofiring: false,
            target_entity: None,
            tracking_shot_requested: false,
            autofired_since_release: false,
        }
    }

    /// Clears what lasts one tick only: the movement axes and the tracking
    /// shot request.
    pub fn begin_tick(&mut self)
        ensures
            *final(self) == (ControlState {
                input_x: 0,
                input_y: 0,
                tracking_shot_requested: false,
                ..*old(self)
            }),
    {
        self.input_x = 0;
        self.input_y = 0;
        self.tracking_shot_requested = false;
    }

    /// Applies one command. A movement key sets its axis; a later key on the
    /// same axis overrides an earlier one. A tracking shot is not requested
    /// while autofire has run since the last release of the fire button, so
    /// that the click which ends a burst does not fire again.
    pub fn apply(&mut self, command: ControlCommand)
        requires
            old(self).wf(),
        ensures
            final(self).wf(),
            *final(self) == match command {
                ControlCommand::MoveUp => ControlState { input_y: -1i8, ..*old(self) },
                ControlCommand::MoveDown => ControlState { input_y: 1, ..*old(self) },
                ControlCommand::MoveLeft => ControlState { input_x: -1i8, ..*old(self) },
                ControlCommand::MoveRight => ControlState { input_x: 1, ..*old(self) },
                ControlCommand::ToggleAltMode(on) => ControlState {
                    flags: ModeFlags { alt: on, ..old(self).flags },
                    ..*old(self)
                },
                ControlCommand::ToggleBoostMode(on) => ControlState {
                    flags: ModeFlags { boost: on, ..old(self).flags },
                    ..*old(self)
                },
                ControlCommand::ToggleControlMode(on) => ControlState {
                    flags: ModeFlags { control: on, ..old(self).flags },
                    ..*old(self)
                },
                ControlCommand::SetTargetEntity(id) => ControlState { target_entity: id, ..*old(self) },
                ControlCommand::StartShootingTracking => ControlState {
                    tracking_shot_requested: old(self).tracking_shot_requested
                        || !old(self).autofired_since_release,
                    ..*old(self)
                },
                ControlCommand::StopShootingTracking => ControlState {
                    autofired_since_release: false,
                    ..*old(self)
                },
                ControlCommand::StartAutoFire => ControlState {
                    autofiring: true,
                    autofired_since_release: true,
                    ..*old(self)
                },
                ControlCommand::StopAutoFire => ControlState { autofiring: false, ..*old(self) },
            },
    {
        match command {
            ControlCommand::MoveUp => self.input_y = -1,
            ControlCommand::MoveDown => self.input_y = 1,
            ControlCommand::MoveLeft => self.input_x = -1,
            ControlCommand::MoveRight => self.input_x = 1,
            ControlCommand::ToggleAltMode(on) => self.flags.alt = on,
            ControlCommand::ToggleBoostMode(on) => self.flags.boost = on,
            ControlCommand::ToggleControlMode(on) => self.flags.control = on,
            ControlCommand::SetTargetEntity(id) => self.target_entity = id,
            ControlCommand::StartShootingTracking => {
                if !self.autofired_since_release {
                    self.tracking_shot_requested = true;
                }
            },
            ControlCommand::StopShootingTracking => self.autofired_since_release = false,
            ControlCommand::StartAutoFire => {
                self.autofiring = true;
                self.autofired_since_release = true;
            },
            ControlCommand::StopAutoFire => self.autofiring = false,
        }
    }
}

} // verus!
