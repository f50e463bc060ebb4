use vstd::prelude::*;
use crate::config::{level_name, Config};
use crate::error::Error;

verus! {

/// The null-terminated texts that the native initialization call reads.
#[derive(Debug)]
pub struct ConfigApi {
    pub instance_dir: Vec<u8>,
    pub log_level: Vec<u8>,
}

impl Config {
    /// The native initialization attributes of this configuration.
    pub fn to_api(&self) -> (r: ConfigApi)
        ensures
            r.instance_dir@ == self.dir().push(0u8),
            r.log_level@ == level_name(self.level()).push(0u8),
    {
        let instance_dir = self.instance_dir().to_bytes_with_nul();
        let mut log_level = self.log_level().as_bytes();
        log_level.push(0u8);
        ConfigApi { instance_dir, log_level }
    }
}

/// Where an enclave stands in its lifecycle. `Destroyed` and `Failed` are
/// terminal: one enclave object goes through one initialization at most and
/// one teardown at most.
#[derive(Debug, Clone, Copy, PartialEq, Eq, Structural)]
pub enum EnclaveState {
    /// Nothing was asked of the native library yet.
    Uninitialized,
    /// The version probe passed and initialization was requested.
    Initializing,
    /// Initialization succeeded; the enclave is usable.
    Initialized,
    /// Teardown was requested after the last reference was released.
    Destroyed,
    /// The version probe or the initialization failed.
    Failed,
}

/// What the native library reported, or what happened to the enclave's owners.
#[derive(Debug, Clone, Copy, PartialEq, Eq, Structural)]
pub enum EnclaveEvent {
    /// The version probe returned this value.
    VersionProbed(i32),
    /// The initialization call returned this value.
    InitReturned(i32),
    /// The last shared reference to the enclave was released.
    Released,
}

/// What the caller has to do next.
#[derive(Debug, Clone, Copy, PartialEq, Eq, Structural)]
pub enum EnclaveAction {
    /// Call native initialization with the configuration's attributes.
    CallInit,
    /// Hand the initialized enclave to the caller.
    Ready,
    /// Report this error to the caller; no further native call is owed.
    Fail(Error),
    /// Call native teardown; its result is not surfaced.
    CallDestroy,
    /// The event does not apply in this state: do nothing.
    Ignore,
}

/// The lifecycle transition on `event` from `state`: the next state and the
/// action to take.
pub fn step(state: EnclaveState, event: EnclaveEvent) -> (r: (EnclaveState, EnclaveAction))
    ensures
        state == EnclaveState::Uninitialized ==> match event {
            EnclaveEvent::VersionProbed(v) => if v > 0 {
                r == (EnclaveState::Initializing, EnclaveAction::CallInit)
            } else {
                r == (EnclaveState::Failed, EnclaveAction::Fail(Error::VersionError))
            },
            _ => r == (state, EnclaveAction::Ignore),
        },
        state == EnclaveState::Initializing ==> match event {
            EnclaveEvent::InitReturned(c) => if c == 0 {
                r == (EnclaveState::Initialized, EnclaveAction::Ready)
            } else {
                r == (EnclaveState::Failed, EnclaveAction::Fail(Error::InitError))
            },
            _ => r == (state, EnclaveAction::Ignore),
        },
        state == EnclaveState::Initialized ==> match event {
            EnclaveEvent::Released => r == (EnclaveState::Destroyed, EnclaveAction::CallDestroy),
            _ => r == (state, EnclaveAction::Ignore),
        },
        state == EnclaveState::Destroyed || state == EnclaveState::Failed ==> r == (
            state,
            EnclaveAction::Ignore,
        ),
{
    match (state, event) {
        (EnclaveState::Uninitialized, EnclaveEvent::VersionProbed(v)) => {
            if v > 0 {
                (EnclaveState::Initializing, EnclaveAction::CallInit)
            } else {
                (EnclaveState::Failed, EnclaveAction::Fail(Error::VersionError))
            }
        },
        (EnclaveState::Initializing, EnclaveEvent::InitReturned(c)) => {
            if c == 0 {
                (EnclaveState::Initialized, EnclaveAction::Ready)
            } else {
                (EnclaveState::Failed, EnclaveAction::Fail(Error::InitError))
            }
        },
        (EnclaveState::Initialized, EnclaveEvent::Released) => {
            (EnclaveState::Destroyed, EnclaveAction::CallDestroy)
        },
        _ => (state, EnclaveAction::Ignore),
    }
}

} // verus!
