//! Where the bridge's address and the credential come from: the environment
//! first, the data directory second.

use crate::bridge::{BridgeAddress, BridgeFailure};
use vstd::prelude::*;

verus! {

/// The environment variable that overrides the stored bridge address.
pub const ENV_IP: &'static str = "HUE_IP";

/// The environment variable that overrides the stored credential.
pub const ENV_USER: &'static str = "HUE_USER";

/// The directory of this program below the per-user data directory.
pub const DATA_PREFIX: &'static str = "hue";

/// The data file that holds the bridge address.
pub const ADDRESS_FILE: &'static str = "bridge";

/// The data file that holds the credential.
pub const CREDENTIAL_FILE: &'static str = "username";

/// One of the two places a setting is looked up in.
#[derive(Clone, Copy, Debug, PartialEq, Eq, Structural)]
pub enum Origin {
    Environment,
    DataFile,
}

/// What one place holds for the bridge address.
#[derive(Clone, Copy, Debug, PartialEq, Eq, Structural)]
pub enum AddressInput {
    /// The variable is not set, or the file does not exist.
    Absent,
    /// There is a value and it is no network address.
    Malformed,
    /// There is a value and it reads as this address.
    Parsed(BridgeAddress),
}

/// Why address and credential could not be resolved.
#[derive(Clone, Copy, Debug, PartialEq, Eq, Structural)]
pub enum ConfigError {
    /// Neither place holds an address.
    MissingAddress,
    /// The place that decides holds a value that is no address.
    MalformedAddress(Origin),
    /// Neither place holds a credential.
    MissingCredential,
}

impl ConfigError {
    /// The text of the line shown to the operator.
    pub open spec fn spec_message(self) -> Seq<char> {
        match self {
            ConfigError::MissingAddress =>
                "Cannot find IP address of bridge in environment variable `HUE_IP` and the bridge file does not exist either."@,
            ConfigError::MalformedAddress(Origin::Environment) =>
                "Failed to parse IP address in `HUE_IP` environment variable."@,
            ConfigError::MalformedAddress(Origin::DataFile) =>
                "Failed to parse IP address in bridge data file."@,
            ConfigError::MissingCredential =>
                "Cannot find username in environment variable `HUE_USER` and the username file does not exist either."@,
        }
    }

    /// The line shown to the operator.
    pub fn message(&self) -> (m: &'static str)
        ensures
            m@ == self.spec_message(),
    {
        match *self {
            ConfigError::MissingAddress =>
                "Cannot find IP address of bridge in environment variable `HUE_IP` and the bridge file does not exist either.",
            ConfigError::MalformedAddress(Origin::Environment) =>
                "Failed to parse IP address in `HUE_IP` environment variable.",
            ConfigError::MalformedAddress(Origin::DataFile) =>
                "Failed to parse IP address in bridge data file.",
            ConfigError::MissingCredential =>
                "Cannot find username in environment variable `HUE_USER` and the username file does not exist either.",
        }
    }
}

/// The text that `str::trim` leaves of `s`.
pub uninterp spec fn trimmed(s: Seq<char>) -> Seq<char>;

/// Calls `str::trim`, which returns the text without the white space at its
/// start and at its end. The contract gives that text a name and says no more
/// of it.
#[verifier::external_body]
fn trim(s: &str) -> (r: &str)
    ensures
        r@ == trimmed(s@),
{
    s.trim()
}

/// The address that the two places give: the environment decides wherever the
/// variable is set, the data file otherwise.
pub open spec fn resolve_address(env: AddressInput, file: AddressInput) -> Result<
    BridgeAddress,
    ConfigError,
> {
    match env {
        AddressInput::Parsed(a) => Ok(a),
        AddressInput::Malformed => Err(ConfigError::MalformedAddress(Origin::Environment)),
        AddressInput::Absent => match file {
            AddressInput::Parsed(a) => Ok(a),
            AddressInput::Malformed => Err(ConfigError::MalformedAddress(Origin::DataFile)),
            AddressInput::Absent => Err(ConfigError::MissingAddress),
        },
    }
}

/// The credential that the two places give: the variable's value as it stands
/// wherever it is set, otherwise the data file's content without the white space
/// around it.
pub open spec fn resolve_credential(env: Option<Seq<char>>, file: Option<Seq<char>>) -> Result<
    Seq<char>,
    ConfigError,
> {
    match env {
        Some(value) => Ok(value),
        None => match file {
            Some(content) => Ok(trimmed(content)),
            None => Err(ConfigError::MissingCredential),
        },
    }
}

/// The view of an optional string.
pub open spec fn text_of(s: Option<String>) -> Option<Seq<char>> {
    match s {
        Some(text) => Some(text@),
        None => None,
    }
}

/// Resolves the bridge address and the credential from what the environment and
/// the data directory hold. The address is settled first, so where both are
/// wanting the error speaks of the address.
pub fn resolve(
    env_address: AddressInput,
    file_address: AddressInput,
    env_credential: Option<String>,
    file_credential: Option<String>,
) -> (r: Result<(BridgeAddress, String), ConfigError>)
    ensures
        match resolve_address(env_address, file_address) {
            Err(e) => r == Err::<(BridgeAddress, String), ConfigError>(e),
            Ok(address) => match resolve_credential(
                text_of(env_credential),
                text_of(file_credential),
            ) {
                Err(e) => r == Err::<(BridgeAddress, String), ConfigError>(e),
                Ok(credential) => r matches Ok(pair) && pair.0 == address && pair.1@ == credential,
            },
        },
{
    let address = match env_address {
        AddressInput::Parsed(a) => a,
        AddressInput::Malformed => {
            return Err(ConfigError::MalformedAddress(Origin::Environment));
        },
        AddressInput::Absent => match file_address {
            AddressInput::Parsed(a) => a,
            AddressInput::Malformed => {
                return Err(ConfigError::MalformedAddress(Origin::DataFile));
            },
            AddressInput::Absent => {
                return Err(ConfigError::MissingAddress);
            },
        },
    };
    let credential = match env_credential {
        Some(value) => value,
        None => match file_credential {
            Some(content) => trim(content.as_str()).to_owned(),
            None => {
                return Err(ConfigError::MissingCredential);
            },
        },
    };
    Ok((address, credential))
}

/// Why no session with the bridge could be opened.
#[derive(Clone, Copy, Debug, PartialEq, Eq, Structural)]
pub enum LoginError {
    /// Address or credential could not be resolved.
    NotConfigured(ConfigError),
    /// The bridge does not answer.
    Unreachable,
    /// The bridge rejects the credential.
    Unauthorized,
    /// The bridge answered the first request with a failure of another kind.
    Unexpected,
}

impl LoginError {
    /// The line shown to the operator.
    pub fn message(&self) -> (m: &'static str)
        ensures
            m@ == match *self {
                LoginError::NotConfigured(e) => e.spec_message(),
                LoginError::Unreachable => "Are you and the bridge connected to the network?"@,
                LoginError::Unauthorized => "User is not authorized."@,
                LoginError::Unexpected => "Something unexpected went wrong."@,
            },
    {
        match *self {
            LoginError::NotConfigured(e) => e.message(),
            LoginError::Unreachable => "Are you and the bridge connected to the network?",
            LoginError::Unauthorized => "User is not authorized.",
            LoginError::Unexpected => "Something unexpected went wrong.",
        }
    }
}

/// What the first request of a session shows: the bridge is used only once it
/// has answered that request, and a failure is told to the operator by its kind.
pub open spec fn probe_verdict(probe: Result<(), BridgeFailure>) -> Result<(), LoginError> {
    match probe {
        Ok(()) => Ok(()),
        Err(BridgeFailure::Transport) => Err(LoginError::Unreachable),
        Err(BridgeFailure::Unauthorized) => Err(LoginError::Unauthorized),
        Err(_) => Err(LoginError::Unexpected),
    }
}

/// Judges the outcome of the first request that is sent with a resolved address
/// and credential.
pub fn check_probe(probe: Result<(), BridgeFailure>) -> (r: Result<(), LoginError>)
    ensures
        r == probe_verdict(probe),
{
    match probe {
        Ok(()) => Ok(()),
        Err(BridgeFailure::Transport) => Err(LoginError::Unreachable),
        Err(BridgeFailure::Unauthorized) => Err(LoginError::Unauthorized),
        Err(_) => Err(LoginError::Unexpected),
    }
}

/// The environment has precedence: where both variables are set to usable values,
/// those are the address and the credential, whatever the data files hold.
pub proof fn lemma_environment_wins(
    address: BridgeAddress,
    credential: Seq<char>,
    file_address: AddressInput,
    file_credential: Option<Seq<char>>,
)
    ensures
        resolve_address(AddressInput::Parsed(address), file_address) == Ok::<
            BridgeAddress,
            ConfigError,
        >(address),
        resolve_credential(Some(credential), file_credential) == Ok::<Seq<char>, ConfigError>(
            credential,
        ),
{
}

/// A setting is reported missing exactly when neither place holds it, and the
/// data file's address counts only where the environment leaves the address
/// unset.
pub proof fn lemma_missing_only_if_absent_everywhere(
    env_address: AddressInput,
    file_address: AddressInput,
    env_credential: Option<Seq<char>>,
    file_credential: Option<Seq<char>>,
)
    ensures
        resolve_address(env_address, file_address) == Err::<BridgeAddress, ConfigError>(
            ConfigError::MissingAddress,
        ) <==> env_address == AddressInput::Absent && file_address == AddressInput::Absent,
        resolve_credential(env_credential, file_credential) == Err::<Seq<char>, ConfigError>(
            ConfigError::MissingCredential,
        ) <==> env_credential is None && file_credential is None,
        resolve_address(AddressInput::Absent, file_address) is Ok <==> file_address is Parsed,
        resolve_address(env_address, file_address) == Err::<BridgeAddress, ConfigError>(
            ConfigError::MalformedAddress(Origin::DataFile),
        ) <==> env_address == AddressInput::Absent && file_address == AddressInput::Malformed,
{
}

} // verus!
