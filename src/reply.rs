use vstd::prelude::*;

use crate::conversion::{failure_reason, ConversionError};

verus! {

/// The status half of the reply that a host receives.
#[derive(Clone, Copy, Debug, PartialEq, Eq, Structural)]
pub enum Status {
    /// The text of the reply is the rendered SVG.
    Success,
    /// The text of the reply is the reason of the failure.
    Failure,
}

/// Turns the result of a conversion into the host's two-part reply: a status and
/// a text, which is the SVG on success and the failure's reason otherwise.
pub fn reply(result: Result<String, ConversionError>) -> (r: (Status, String))
    ensures
        match result {
            Ok(svg) => r.0 == Status::Success && r.1 == svg,
            Err(_) => r.0 == Status::Failure && r.1@ == failure_reason(),
        },
{
    match result {
        Ok(svg) => (Status::Success, svg),
        Err(error) => (Status::Failure, error.reason()),
    }
}

} // verus!
