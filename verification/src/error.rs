//! Errors reported by the advertising controller.

use vstd::prelude::*;

verus! {

/// Why bringing up the radio controller failed.
#[derive(Clone, Copy, Debug, PartialEq, Eq, Structural)]
pub enum InitError {
    /// The CPU clock is too slow to operate the radio.
    WrongClockConfig,
    /// The radio stack refused to come up and gave this status.
    General(i32),
}

/// Why the controller did not carry out a host-controller-interface command.
#[derive(Clone, Copy, Debug, PartialEq, Eq, Structural)]
pub enum HciError {
    /// No answer arrived in time.
    Timeout,
    /// The controller answered with this non-zero status.
    Rejected(u8),
}

/// Everything that can go wrong in an operation of the advertising controller.
#[derive(Clone, Copy, Debug, PartialEq, Eq, Structural)]
pub enum RadioError {
    /// Radio bring-up failed.
    Init(InitError),
    /// A command was rejected or timed out.
    Hci(HciError),
    /// The payload encodes to more bytes than one advertising packet carries.
    PayloadTooLarge,
    /// The operation is not allowed in the controller's current state.
    InvalidState,
}

} // verus!
