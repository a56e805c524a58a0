use vstd::prelude::*;

verus! {

/// The host system integration; this build has none to offer.
#[derive(Clone, Copy, Debug)]
pub struct System;

/// The host system integration could not be set up.
#[derive(Clone, Copy, Debug, PartialEq, Eq, Structural)]
pub struct SystemError;

impl System {
    /// Whether the system is running: always, without a host integration.
    pub fn is_running(&self) -> (r: bool)
        ensures
            r,
    {
        true
    }

    /// Waits for the system integration to finish: nothing to wait for.
    pub fn join(&self) -> (r: Result<(), SystemError>)
        ensures
            r is Ok,
    {
        Ok(())
    }
}

/// Sets up the system integration.
pub fn setup() -> (r: Result<System, SystemError>)
    ensures
        r is Ok,
{
    Ok(System)
}

} // verus!
