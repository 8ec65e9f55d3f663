//! Decision logic of a command-line controller for a networked lighting bridge:
//! compiling commands into state changes, choosing the lights they apply to,
//! resolving the bridge's address and credential, and the pairing handshake.

pub mod apply;
pub mod args;
pub mod bridge;
pub mod credentials;
pub mod pairing;
pub mod scene;
pub mod targets;
pub mod transform;

pub use args::{compile, CommandError, Plan, Subcommand};
pub use apply::{summarize, ApplyError, UpdateOutcome};
pub use bridge::{BridgeAddress, BridgeFailure};
pub use credentials::{check_probe, AddressInput, ConfigError, LoginError, Origin};
pub use pairing::{init, step, PairError, PairingAction, PairingEvent, PairingState};
pub use scene::{scene, SceneEntry, SceneError, SceneRecall};
pub use targets::{DefaultScope, Device, TargetError};
pub use transform::{
    brightness, color, power, Adjustment, BrightnessError, Chromaticity, ColorError, Direction,
    PowerState, StateTransform,
};
