//! The ways an arrangement can fail.

use vstd::prelude::*;
use vstd::string::StringExecFns;

verus! {

/// The part an output plays in an arrangement.
#[derive(Copy, Clone, PartialEq, Eq, Structural, Debug)]
pub enum Role {
    /// The output that the arrangement is described against.
    Primary,
    /// The output that is put next to the primary one.
    Secondary,
}

/// Why two outputs could not be arranged.
#[derive(Copy, Clone, PartialEq, Eq, Structural, Debug)]
pub enum ArrangeError {
    /// An output has no current mode, so its size is unknown.
    NoActiveMode,
    /// No active output can play the given role.
    OutputNotFound(Role),
}

impl ArrangeError {
    /// The text of [`ArrangeError::message`].
    pub open spec fn message_spec(self) -> Seq<char> {
        match self {
            ArrangeError::NoActiveMode => "Output has no active mode!"@,
            ArrangeError::OutputNotFound(Role::Primary) => "No main output found!"@,
            ArrangeError::OutputNotFound(Role::Secondary) => "No secondary output found!"@,
        }
    }

    /// A sentence that tells a user what went wrong.
    pub fn message(&self) -> (text: String)
        ensures
            text@ == self.message_spec(),
    {
        match self {
            ArrangeError::NoActiveMode => String::from_str("Output has no active mode!"),
            ArrangeError::OutputNotFound(Role::Primary) => String::from_str(
                "No main output found!",
            ),
            ArrangeError::OutputNotFound(Role::Secondary) => String::from_str(
                "No secondary output found!",
            ),
        }
    }
}

} // verus!
