//! The JSON reply envelope every admin endpoint answers with.

use vstd::prelude::*;

verus! {

/// Body of a JSON reply: a success flag and a user-facing message.
#[derive(Clone, Debug)]
pub struct Envelope {
    pub success: bool,
    pub message: String,
}

/// Builds the envelope of a successful operation.
pub fn success_envelope(message: &str) -> (r: Envelope)
    ensures
        r.success,
        r.message@ == message@,
{
    Envelope { success: true, message: String::from_str(message) }
}

/// Builds the envelope of a failed operation.
pub fn error_envelope(message: &str) -> (r: Envelope)
    ensures
        !r.success,
        r.message@ == message@,
{
    Envelope { success: false, message: String::from_str(message) }
}

} // verus!
