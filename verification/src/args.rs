//! The commands of the program and what each of them asks for.

use crate::targets::DefaultScope;
use crate::transform::{
    brightness, brightness_transform, color, color_transform, parse_brightness, power,
    power_transform, BrightnessError, Chromaticity, ColorError, PowerState, StateTransform,
};
use vstd::prelude::*;

verus! {

/// A command as the operator gave it.
#[derive(Clone, Debug, PartialEq, Eq)]
pub enum Subcommand {
    /// Pair with the bridge on the network.
    Init { username: String },
    /// Turn the given lights on; without a list, all lights.
    On { lights: Vec<String> },
    /// Turn the given lights off; without a list, all lights.
    Off { lights: Vec<String> },
    /// Set the brightness of the given lights; without a list, of the lights that
    /// are on, or of all lights where `all` is set. A sign in front of the value
    /// makes the change relative.
    Brightness { brightness: String, lights: Vec<String>, all: bool },
    /// Set the color of the given lights; without a list, of the lights that are
    /// on, or of all lights where `all` is set.
    Color { color: String, lights: Vec<String>, all: bool },
    /// Recall a scene.
    Scene { name: String },
}

impl Subcommand {
    /// The command names lights and asks for all lights at once.
    pub open spec fn spec_conflicts(self) -> bool {
        match self {
            Subcommand::Brightness { brightness, lights, all } => all && lights@.len() > 0,
            Subcommand::Color { color, lights, all } => all && lights@.len() > 0,
            _ => false,
        }
    }

    /// True where the command names lights and asks for all lights at once, which
    /// the command line does not allow.
    pub fn conflicts(&self) -> (c: bool)
        ensures
            c == self.spec_conflicts(),
    {
        match self {
            Subcommand::Brightness { brightness, lights, all } => *all && lights.len() > 0,
            Subcommand::Color { color, lights, all } => *all && lights.len() > 0,
            _ => false,
        }
    }
}

/// What remains to be done for a command once its arguments are read.
#[derive(Clone, Debug, PartialEq, Eq)]
pub enum Plan {
    /// Run the pairing handshake for this user.
    Pair { username: String },
    /// Ask `transform` of the lights that `lights` names or, where it names none,
    /// of the lights in `scope`.
    Lights { transform: StateTransform, lights: Vec<String>, scope: DefaultScope },
    /// Recall the scene of this name on its group.
    Scene { name: String },
}

/// Why a command's arguments were refused.
#[derive(Clone, Copy, Debug, PartialEq, Eq, Structural)]
pub enum CommandError {
    Brightness(BrightnessError),
    Color(ColorError),
}

impl CommandError {
    /// The line shown to the operator.
    pub fn message(&self) -> (m: &'static str)
        ensures
            m@ == match *self {
                CommandError::Brightness(BrightnessError::OutOfRange) =>
                    "The brightness value must be between 0 and 100."@,
                CommandError::Brightness(BrightnessError::Malformed) =>
                    "The brightness value must be of the form `[+-]<int>`."@,
                CommandError::Color(_) => "Color couldn't be parsed."@,
            },
    {
        match *self {
            CommandError::Brightness(e) => e.message(),
            CommandError::Color(e) => e.message(),
        }
    }
}

/// The scope of a brightness or color command without a light list.
pub open spec fn scope_of_flag(all: bool) -> DefaultScope {
    if all {
        DefaultScope::All
    } else {
        DefaultScope::ActiveOnly
    }
}

/// What a command asks for. Plain on and off reach every light by default;
/// brightness and color reach the lights that are on unless all are asked for.
/// `parsed_color` is read only for a color command and holds the chromaticity
/// of the color its argument names, if it names one.
pub open spec fn compile_spec(command: Subcommand, parsed_color: Option<Chromaticity>) -> Result<
    Plan,
    CommandError,
> {
    match command {
        Subcommand::Init { username } => Ok(Plan::Pair { username }),
        Subcommand::On { lights } => Ok(
            Plan::Lights { transform: power_transform(true), lights, scope: DefaultScope::All },
        ),
        Subcommand::Off { lights } => Ok(
            Plan::Lights { transform: power_transform(false), lights, scope: DefaultScope::All },
        ),
        Subcommand::Brightness { brightness, lights, all } => match parse_brightness(brightness@) {
            Ok(a) => Ok(
                Plan::Lights { transform: brightness_transform(a), lights, scope: scope_of_flag(all) },
            ),
            Err(e) => Err(CommandError::Brightness(e)),
        },
        Subcommand::Color { color, lights, all } => match parsed_color {
            Some(c) => Ok(
                Plan::Lights { transform: color_transform(c), lights, scope: scope_of_flag(all) },
            ),
            None => Err(CommandError::Color(ColorError::NotRecognized)),
        },
        Subcommand::Scene { name } => Ok(Plan::Scene { name }),
    }
}

/// Reads a command's arguments and says what remains to be done. Nothing has
/// been asked of the bridge when an argument is refused.
pub fn compile(command: Subcommand, parsed_color: Option<Chromaticity>) -> (r: Result<
    Plan,
    CommandError,
>)
    ensures
        r == compile_spec(command, parsed_color),
{
    match command {
        Subcommand::Init { username } => Ok(Plan::Pair { username }),
        Subcommand::On { lights } => Ok(
            Plan::Lights { transform: power(PowerState::On), lights, scope: DefaultScope::All },
        ),
        Subcommand::Off { lights } => Ok(
            Plan::Lights { transform: power(PowerState::Off), lights, scope: DefaultScope::All },
        ),
        Subcommand::Brightness { brightness: value, lights, all } => match brightness(
            value.as_str(),
        ) {
            Ok(transform) => Ok(
                Plan::Lights { transform, lights, scope: DefaultScope::from_all_flag(all) },
            ),
            Err(e) => Err(CommandError::Brightness(e)),
        },
        Subcommand::Color { color: _, lights, all } => match color(parsed_color) {
            Ok(transform) => Ok(
                Plan::Lights { transform, lights, scope: DefaultScope::from_all_flag(all) },
            ),
            Err(e) => Err(CommandError::Color(e)),
        },
        Subcommand::Scene { name } => Ok(Plan::Scene { name }),
    }
}

/// Every transform that changes brightness, color or scene also switches the
/// target on, and a plain power command changes nothing but the power.
pub proof fn lemma_compiled_transform_switches_on(
    command: Subcommand,
    parsed_color: Option<Chromaticity>,
)
    ensures
        compile_spec(command, parsed_color) matches Ok(Plan::Lights { transform, lights, scope })
            ==> {
            &&& transform.power is Some
            &&& transform.scene is None
            &&& (transform.brightness is Some || transform.chromaticity is Some)
                ==> transform.power == Some(true)
            &&& (command is On || command is Off) ==> transform.brightness is None
                && transform.chromaticity is None && scope == DefaultScope::All
            &&& !(transform.brightness is Some && transform.chromaticity is Some)
        },
{
}

} // verus!
