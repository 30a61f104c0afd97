//! What can go wrong in a call.

use crate::auth::SASLError;
use crate::machine::MachineError;
use vstd::prelude::*;

verus! {

/// Why a call failed.
#[derive(Clone, Debug, PartialEq, Eq)]
pub enum Error {
    /// The login exchange was malformed or could not be decided.
    SASL(SASLError),
    /// The policy engine itself failed; this is no denial. Holds the
    /// engine's own words.
    Policy(String),
    /// The machine is not in a state that allows the operation.
    Machine(MachineError),
    /// The policy does not allow the identity to do this.
    Denied,
    /// The mechanism asked for is not implemented; holds its name.
    Unimplemented(String),
}

/// A failure as a plain value.
pub enum ErrorView {
    SASL(SASLError),
    Policy(Seq<char>),
    Machine(MachineError),
    Denied,
    Unimplemented(Seq<char>),
}

impl View for Error {
    type V = ErrorView;

    open spec fn view(&self) -> ErrorView {
        match self {
            Error::SASL(e) => ErrorView::SASL(*e),
            Error::Policy(words) => ErrorView::Policy(words@),
            Error::Machine(e) => ErrorView::Machine(*e),
            Error::Denied => ErrorView::Denied,
            Error::Unimplemented(mechanism) => ErrorView::Unimplemented(mechanism@),
        }
    }
}

} // verus!
