//! Why a payload could not be decoded.

use vstd::prelude::*;

verus! {

/// The ways in which decoding a payload fails. A code or a bit that has no
/// name here is no failure.
#[derive(Clone, Copy, Debug, PartialEq, Eq, Structural)]
pub enum DecodeError {
    /// A value has none of the shapes that its field accepts.
    WrongShape,
    /// A field that has no default is absent.
    MissingRequiredField,
}

impl DecodeError {
    /// A sentence that says what went wrong.
    pub fn message(&self) -> (text: &'static str)
        ensures
            text@ == match *self {
                DecodeError::WrongShape => "value has none of the accepted shapes"@,
                DecodeError::MissingRequiredField => "required field is absent"@,
            },
    {
        match self {
            DecodeError::WrongShape => "value has none of the accepted shapes",
            DecodeError::MissingRequiredField => "required field is absent",
        }
    }
}

} // verus!
