use hue_control::credentials::{
    check_probe, resolve, ADDRESS_FILE, CREDENTIAL_FILE, DATA_PREFIX, ENV_IP, ENV_USER,
};
use hue_control::{AddressInput, BridgeAddress, BridgeFailure, ConfigError, LoginError, Origin};

const ENV_ADDRESS: BridgeAddress = BridgeAddress::V4(0xc0a8_0102);
const FILE_ADDRESS: BridgeAddress = BridgeAddress::V4(0x0a00_0005);

fn text(s: &str) -> Option<String> {
    Some(s.to_string())
}

#[test]
fn environment_values_take_precedence_over_the_data_files() {
    let resolved = resolve(
        AddressInput::Parsed(ENV_ADDRESS),
        AddressInput::Parsed(FILE_ADDRESS),
        text("env-user"),
        text("file-user"),
    );
    assert_eq!(resolved, Ok((ENV_ADDRESS, "env-user".to_string())));
}

#[test]
fn data_files_are_used_where_the_environment_is_silent() {
    let resolved =
        resolve(AddressInput::Absent, AddressInput::Parsed(FILE_ADDRESS), None, text("file-user"));
    assert_eq!(resolved, Ok((FILE_ADDRESS, "file-user".to_string())));
}

#[test]
fn each_setting_is_resolved_on_its_own() {
    let resolved = resolve(
        AddressInput::Parsed(ENV_ADDRESS),
        AddressInput::Absent,
        None,
        text("file-user"),
    );
    assert_eq!(resolved, Ok((ENV_ADDRESS, "file-user".to_string())));
    let resolved = resolve(
        AddressInput::Absent,
        AddressInput::Parsed(FILE_ADDRESS),
        text("env-user"),
        None,
    );
    assert_eq!(resolved, Ok((FILE_ADDRESS, "env-user".to_string())));
}

#[test]
fn the_stored_credential_is_trimmed() {
    let resolved =
        resolve(AddressInput::Parsed(ENV_ADDRESS), AddressInput::Absent, None, text("  abc123\n"));
    assert_eq!(resolved, Ok((ENV_ADDRESS, "abc123".to_string())));
    let resolved = resolve(
        AddressInput::Parsed(ENV_ADDRESS),
        AddressInput::Absent,
        None,
        text("\t a b \r\n"),
    );
    assert_eq!(resolved, Ok((ENV_ADDRESS, "a b".to_string())));
}

#[test]
fn the_credential_of_the_environment_is_taken_as_it_stands() {
    let resolved =
        resolve(AddressInput::Parsed(ENV_ADDRESS), AddressInput::Absent, text(" abc "), None);
    assert_eq!(resolved, Ok((ENV_ADDRESS, " abc ".to_string())));
}

#[test]
fn an_address_of_the_sixth_version_is_passed_on() {
    let address = BridgeAddress::V6(0xfe80_0000_0000_0000_0000_0000_0000_0001);
    let resolved = resolve(AddressInput::Absent, AddressInput::Parsed(address), text("u"), None);
    assert_eq!(resolved, Ok((address, "u".to_string())));
}

#[test]
fn a_missing_address_is_reported() {
    let resolved = resolve(AddressInput::Absent, AddressInput::Absent, text("u"), text("v"));
    assert_eq!(resolved, Err(ConfigError::MissingAddress));
}

#[test]
fn a_missing_credential_is_reported() {
    let resolved = resolve(AddressInput::Parsed(ENV_ADDRESS), AddressInput::Absent, None, None);
    assert_eq!(resolved, Err(ConfigError::MissingCredential));
}

#[test]
fn a_malformed_address_is_not_a_missing_one() {
    let resolved =
        resolve(AddressInput::Malformed, AddressInput::Parsed(FILE_ADDRESS), text("u"), None);
    assert_eq!(resolved, Err(ConfigError::MalformedAddress(Origin::Environment)));
    let resolved = resolve(AddressInput::Absent, AddressInput::Malformed, text("u"), None);
    assert_eq!(resolved, Err(ConfigError::MalformedAddress(Origin::DataFile)));
}

#[test]
fn a_malformed_data_file_does_not_matter_when_the_environment_decides() {
    let resolved =
        resolve(AddressInput::Parsed(ENV_ADDRESS), AddressInput::Malformed, text("u"), None);
    assert_eq!(resolved, Ok((ENV_ADDRESS, "u".to_string())));
}

#[test]
fn the_address_is_settled_before_the_credential() {
    let resolved = resolve(AddressInput::Absent, AddressInput::Absent, None, None);
    assert_eq!(resolved, Err(ConfigError::MissingAddress));
    let resolved = resolve(AddressInput::Malformed, AddressInput::Absent, None, None);
    assert_eq!(resolved, Err(ConfigError::MalformedAddress(Origin::Environment)));
}

#[test]
fn configuration_errors_say_what_is_wanting() {
    assert_eq!(
        ConfigError::MissingAddress.message(),
        "Cannot find IP address of bridge in environment variable `HUE_IP` and the bridge file does not exist either."
    );
    assert_eq!(
        ConfigError::MissingCredential.message(),
        "Cannot find username in environment variable `HUE_USER` and the username file does not exist either."
    );
    assert_eq!(
        ConfigError::MalformedAddress(Origin::Environment).message(),
        "Failed to parse IP address in `HUE_IP` environment variable."
    );
    assert_eq!(
        ConfigError::MalformedAddress(Origin::DataFile).message(),
        "Failed to parse IP address in bridge data file."
    );
}

#[test]
fn names_of_variables_and_files() {
    assert_eq!(ENV_IP, "HUE_IP");
    assert_eq!(ENV_USER, "HUE_USER");
    assert_eq!(DATA_PREFIX, "hue");
    assert_eq!(ADDRESS_FILE, "bridge");
    assert_eq!(CREDENTIAL_FILE, "username");
}

#[test]
fn the_first_request_decides_the_login() {
    assert_eq!(check_probe(Ok(())), Ok(()));
    assert_eq!(check_probe(Err(BridgeFailure::Transport)), Err(LoginError::Unreachable));
    assert_eq!(check_probe(Err(BridgeFailure::Unauthorized)), Err(LoginError::Unauthorized));
    assert_eq!(check_probe(Err(BridgeFailure::LinkButtonNotPressed)), Err(LoginError::Unexpected));
    assert_eq!(check_probe(Err(BridgeFailure::Other)), Err(LoginError::Unexpected));
}

#[test]
fn login_errors_suggest_a_remedy() {
    assert_eq!(
        LoginError::Unreachable.message(),
        "Are you and the bridge connected to the network?"
    );
    assert_eq!(LoginError::Unauthorized.message(), "User is not authorized.");
    assert_eq!(LoginError::Unexpected.message(), "Something unexpected went wrong.");
    assert_eq!(
        LoginError::NotConfigured(ConfigError::MissingAddress).message(),
        ConfigError::MissingAddress.message()
    );
}
