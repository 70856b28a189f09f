//! Firmware result codes.

use vstd::prelude::*;

verus! {

/// A result code of the firmware interface, as the raw machine word.
///
/// Zero is success. A word with its top bit set is an error; any other
/// non-zero word is a warning.
#[derive(Clone, Copy, Debug, PartialEq, Eq, Structural)]
pub struct Status(pub usize);

/// The code of a completed request.
pub const SUCCESS: usize = 0;

/// The top bit of the word, which marks an error.
pub const ERROR_BIT: usize = usize::MAX / 2 + 1;

/// The code of the error "invalid parameter".
pub const INVALID_PARAMETER: usize = ERROR_BIT + 2;

impl Status {
    /// The request completed.
    pub fn success() -> (s: Status)
        ensures
            s == Status(SUCCESS),
    {
        Status(SUCCESS)
    }

    /// A parameter of the request was not acceptable.
    pub fn invalid_parameter() -> (s: Status)
        ensures
            s == Status(INVALID_PARAMETER),
    {
        Status(INVALID_PARAMETER)
    }

    /// Whether this is the success code.
    pub open spec fn spec_is_success(&self) -> bool {
        self.0 == SUCCESS
    }

    /// Whether the error flag is set.
    pub open spec fn spec_is_error(&self) -> bool {
        self.0 >= ERROR_BIT
    }

    /// Whether this is the success code.
    #[verifier::when_used_as_spec(spec_is_success)]
    pub fn is_success(&self) -> (r: bool)
        ensures
            r == self.spec_is_success(),
    {
        self.0 == SUCCESS
    }

    /// Whether the error flag is set.
    #[verifier::when_used_as_spec(spec_is_error)]
    pub fn is_error(&self) -> (r: bool)
        ensures
            r == self.spec_is_error(),
    {
        self.0 >= ERROR_BIT
    }
}

} // verus!
