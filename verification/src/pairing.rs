//! The pairing handshake as a state machine. The caller performs each action
//! and hands back what came of it; the machine decides what to do next.

use crate::bridge::{BridgeAddress, BridgeFailure};
use crate::credentials::AddressInput;
use vstd::prelude::*;

verus! {

/// The seconds to wait before registration is tried again.
pub const RETRY_INTERVAL_SECS: u64 = 2;

/// The instruction shown when the bridge first asks for its link button.
pub const LINK_BUTTON_PROMPT: &'static str = "Press the bridge's link button!";

/// The notice shown once the credential is stored.
pub const PAIRED_NOTICE: &'static str = "Successfully paired with the bridge.";

/// Why pairing ended without a stored credential.
#[derive(Clone, Copy, Debug, PartialEq, Eq, Structural)]
pub enum PairError {
    /// The environment holds a value for the address that is no address.
    MalformedAddress,
    /// Discovery found no bridge.
    NoBridgeFound,
    /// Discovery or registration failed for a reason that waiting does not mend.
    Bridge(BridgeFailure),
    /// The credential was issued but could not be stored with the address.
    NotPersisted,
    /// An event arrived that answers no action the machine had asked for.
    OutOfTurn,
}

/// Where the handshake stands.
#[derive(Clone, Debug, PartialEq, Eq)]
pub enum PairingState {
    /// Discovery was asked for and has not answered.
    Discovering { username: String },
    /// Registration of `username` was asked for at `address`; `prompted` once the
    /// operator has been told to press the link button.
    AwaitingButton { address: BridgeAddress, username: String, prompted: bool },
    /// The bridge issued `credential`, which is being stored with `address`.
    Registered { address: BridgeAddress, credential: String },
    /// The handshake is over.
    Closed,
}

/// What came of the action that the machine asked for last.
#[derive(Clone, Debug, PartialEq, Eq)]
pub enum PairingEvent {
    /// Discovery answered with the bridges it found.
    Discovered(Vec<BridgeAddress>),
    /// Discovery failed.
    DiscoveryFailed(BridgeFailure),
    /// The bridge registered the user and issued this credential.
    Registered(String),
    /// The bridge refused to register the user.
    RegistrationFailed(BridgeFailure),
    /// Address and credential are both stored.
    Persisted,
    /// Address and credential are not both stored.
    PersistFailed,
}

/// What the caller is to do next.
#[derive(Clone, Debug, PartialEq, Eq)]
pub enum PairingAction {
    /// Look for bridges on the network.
    Discover,
    /// Ask the bridge at `address` to register `username`.
    Register { address: BridgeAddress, username: String },
    /// Show the instruction if `announce` is set, wait `seconds`, then ask the
    /// bridge at `address` again to register `username`.
    RetryAfter { address: BridgeAddress, username: String, seconds: u64, announce: bool },
    /// Store `address` and `credential`, both or neither.
    Persist { address: BridgeAddress, credential: String },
    /// Stop: the handshake succeeded and `credential` is stored.
    Done { credential: String },
    /// Stop: the handshake failed for this reason.
    Abort(PairError),
}

/// How the handshake opens: with an address from the environment registration
/// starts at once, without one discovery comes first.
pub open spec fn init_spec(username: String, env_address: AddressInput) -> (
    PairingState,
    PairingAction,
) {
    match env_address {
        AddressInput::Parsed(address) => (
            PairingState::AwaitingButton { address, username, prompted: false },
            PairingAction::Register { address, username },
        ),
        AddressInput::Absent => (PairingState::Discovering { username }, PairingAction::Discover),
        AddressInput::Malformed => (
            PairingState::Closed,
            PairingAction::Abort(PairError::MalformedAddress),
        ),
    }
}

/// The handshake's rule: the state and action that follow `event` in `state`.
///
/// Discovery settles the address: the bridge that it lists last. Every attempt
/// registers the user the handshake was opened for. A refusal for want of the
/// link button is answered by waiting and asking again, and only the first such
/// wait shows the instruction; any other refusal ends the handshake. An issued
/// credential is stored before the handshake reports it.
pub open spec fn step_spec(state: PairingState, event: PairingEvent) -> (
    PairingState,
    PairingAction,
) {
    match (state, event) {
        (PairingState::Discovering { username }, PairingEvent::Discovered(found)) => if found@.len()
            == 0 {
            (PairingState::Closed, PairingAction::Abort(PairError::NoBridgeFound))
        } else {
            (
                PairingState::AwaitingButton { address: found@.last(), username, prompted: false },
                PairingAction::Register { address: found@.last(), username },
            )
        },
        (PairingState::Discovering { username }, PairingEvent::DiscoveryFailed(failure)) => (
            PairingState::Closed,
            PairingAction::Abort(PairError::Bridge(failure)),
        ),
        (
            PairingState::AwaitingButton { address, username, prompted },
            PairingEvent::Registered(credential),
        ) => (
            PairingState::Registered { address, credential },
            PairingAction::Persist { address, credential },
        ),
        (
            PairingState::AwaitingButton { address, username, prompted },
            PairingEvent::RegistrationFailed(failure),
        ) => if failure == BridgeFailure::LinkButtonNotPressed {
            (
                PairingState::AwaitingButton { address, username, prompted: true },
                PairingAction::RetryAfter {
                    address,
                    username,
                    seconds: RETRY_INTERVAL_SECS,
                    announce: !prompted,
                },
            )
        } else {
            (PairingState::Closed, PairingAction::Abort(PairError::Bridge(failure)))
        },
        (PairingState::Registered { address, credential }, PairingEvent::Persisted) => (
            PairingState::Closed,
            PairingAction::Done { credential },
        ),
        (PairingState::Registered { address, credential }, PairingEvent::PersistFailed) => (
            PairingState::Closed,
            PairingAction::Abort(PairError::NotPersisted),
        ),
        _ => (PairingState::Closed, PairingAction::Abort(PairError::OutOfTurn)),
    }
}

/// Opens the handshake for `username`, with what the environment holds for the
/// bridge address.
pub fn init(username: String, env_address: AddressInput) -> (r: (PairingState, PairingAction))
    ensures
        r == init_spec(username, env_address),
{
    match env_address {
        AddressInput::Parsed(address) => {
            let asked = username.clone();
            (
                PairingState::AwaitingButton { address, username, prompted: false },
                PairingAction::Register { address, username: asked },
            )
        },
        AddressInput::Absent => (PairingState::Discovering { username }, PairingAction::Discover),
        AddressInput::Malformed => (
            PairingState::Closed,
            PairingAction::Abort(PairError::MalformedAddress),
        ),
    }
}

/// The state and action for an event that answers no action asked for.
fn out_of_turn() -> (r: (PairingState, PairingAction))
    ensures
        r == (PairingState::Closed, PairingAction::Abort(PairError::OutOfTurn)),
{
    (PairingState::Closed, PairingAction::Abort(PairError::OutOfTurn))
}

/// Advances the handshake by one event.
pub fn step(state: PairingState, event: PairingEvent) -> (r: (PairingState, PairingAction))
    ensures
        r == step_spec(state, event),
{
    match state {
        PairingState::Discovering { username } => match event {
            PairingEvent::Discovered(found) => {
                if found.len() == 0 {
                    (PairingState::Closed, PairingAction::Abort(PairError::NoBridgeFound))
                } else {
                    let address = found[found.len() - 1];
                    let asked = username.clone();
                    (
                        PairingState::AwaitingButton { address, username, prompted: false },
                        PairingAction::Register { address, username: asked },
                    )
                }
            },
            PairingEvent::DiscoveryFailed(failure) => (
                PairingState::Closed,
                PairingAction::Abort(PairError::Bridge(failure)),
            ),
            _ => out_of_turn(),
        },
        PairingState::AwaitingButton { address, username, prompted } => match event {
            PairingEvent::Registered(credential) => {
                let stored = credential.clone();
                (
                    PairingState::Registered { address, credential },
                    PairingAction::Persist { address, credential: stored },
                )
            },
            PairingEvent::RegistrationFailed(failure) => match failure {
                BridgeFailure::LinkButtonNotPressed => {
                    let asked = username.clone();
                    (
                        PairingState::AwaitingButton { address, username, prompted: true },
                        PairingAction::RetryAfter {
                            address,
                            username: asked,
                            seconds: RETRY_INTERVAL_SECS,
                            announce: !prompted,
                        },
                    )
                },
                _ => (PairingState::Closed, PairingAction::Abort(PairError::Bridge(failure))),
            },
            _ => out_of_turn(),
        },
        PairingState::Registered { address, credential } => match event {
            PairingEvent::Persisted => (PairingState::Closed, PairingAction::Done { credential }),
            PairingEvent::PersistFailed => (
                PairingState::Closed,
                PairingAction::Abort(PairError::NotPersisted),
            ),
            _ => out_of_turn(),
        },
        PairingState::Closed => out_of_turn(),
    }
}

/// The state reached from `state` by a train of events, and the actions asked
/// for on the way, one for each event.
pub open spec fn run(state: PairingState, events: Seq<PairingEvent>) -> (
    PairingState,
    Seq<PairingAction>,
)
    decreases events.len(),
{
    if events.len() == 0 {
        (state, Seq::empty())
    } else {
        let before = run(state, events.drop_last());
        let last = step_spec(before.0, events.last());
        (last.0, before.1.push(last.1))
    }
}

/// `n` refusals for want of the link button.
pub open spec fn refusals(n: nat) -> Seq<PairingEvent> {
    Seq::new(n, |i: int| PairingEvent::RegistrationFailed(BridgeFailure::LinkButtonNotPressed))
}

/// While the bridge refuses for want of its link button the handshake keeps
/// waiting: each refusal is answered by one wait before the next attempt for the
/// same user at the same address, and only the first wait shows the instruction.
pub proof fn lemma_refusals_wait(address: BridgeAddress, username: String, n: nat)
    ensures
        run(PairingState::AwaitingButton { address, username, prompted: false }, refusals(n)).0
            == (PairingState::AwaitingButton { address, username, prompted: n > 0 }),
        run(PairingState::AwaitingButton { address, username, prompted: false }, refusals(n)).1.len()
            == n,
        forall|i: int|
            0 <= i < n ==> #[trigger] run(
                PairingState::AwaitingButton { address, username, prompted: false },
                refusals(n),
            ).1[i] == (PairingAction::RetryAfter {
                address,
                username,
                seconds: RETRY_INTERVAL_SECS,
                announce: i == 0,
            }),
    decreases n,
{
    if n > 0 {
        let shorter = (n - 1) as nat;
        lemma_refusals_wait(address, username, shorter);
        assert(refusals(n).drop_last() =~= refusals(shorter));
        let start = PairingState::AwaitingButton { address, username, prompted: false };
        let before = run(start, refusals(shorter));
        let whole = run(start, refusals(n));
        assert forall|i: int| 0 <= i < n implies #[trigger] whole.1[i] == (PairingAction::RetryAfter {
            address,
            username,
            seconds: RETRY_INTERVAL_SECS,
            announce: i == 0,
        }) by {
            if i < shorter {
                assert(whole.1[i] == before.1[i]);
            }
        }
    }
}

/// A handshake that is refused `n` times for want of the link button and then
/// registered waits exactly `n` times, stores address and credential once, after
/// the last wait, and ends with the credential that the bridge issued.
pub proof fn lemma_pairing_after_refusals(
    address: BridgeAddress,
    username: String,
    n: nat,
    credential: String,
)
    ensures
        ({
            let events = refusals(n).push(PairingEvent::Registered(credential)).push(
                PairingEvent::Persisted,
            );
            let outcome = run(
                PairingState::AwaitingButton { address, username, prompted: false },
                events,
            );
            &&& outcome.0 == PairingState::Closed
            &&& outcome.1.len() == n + 2
            &&& forall|i: int|
                0 <= i < n ==> #[trigger] outcome.1[i] == (PairingAction::RetryAfter {
                    address,
                    username,
                    seconds: RETRY_INTERVAL_SECS,
                    announce: i == 0,
                })
            &&& outcome.1[n as int] == (PairingAction::Persist { address, credential })
            &&& outcome.1[n as int + 1] == (PairingAction::Done { credential })
        }),
{
    lemma_refusals_wait(address, username, n);
    let start = PairingState::AwaitingButton { address, username, prompted: false };
    let registered = refusals(n).push(PairingEvent::Registered(credential));
    let events = registered.push(PairingEvent::Persisted);
    assert(registered.drop_last() =~= refusals(n));
    assert(events.drop_last() =~= registered);
    let waited = run(start, refusals(n));
    let issued = run(start, registered);
    let outcome = run(start, events);
    assert(issued.1 == waited.1.push(PairingAction::Persist { address, credential }));
    assert(outcome.1 == issued.1.push(PairingAction::Done { credential }));
    assert forall|i: int| 0 <= i < n implies #[trigger] outcome.1[i] == (PairingAction::RetryAfter {
        address,
        username,
        seconds: RETRY_INTERVAL_SECS,
        announce: i == 0,
    }) by {
        assert(outcome.1[i] == waited.1[i]);
    }
}

/// Once the handshake is closed it stays closed, whatever arrives.
pub proof fn lemma_closed_is_final(event: PairingEvent)
    ensures
        step_spec(PairingState::Closed, event) == (
            PairingState::Closed,
            PairingAction::Abort(PairError::OutOfTurn),
        ),
{
}

} // verus!
