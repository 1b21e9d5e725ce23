//! Status codes returned by every boot-services entry point.
//!
//! A status is one machine-word-sized discriminated value: zero is the single
//! success value, every nonzero value is a firmware-defined failure or warning
//! category. The binding never renumbers or reinterprets a code; it is handed
//! back to the caller verbatim.

use vstd::prelude::*;

verus! {

/// The single distinguished success code.
pub const STATUS_SUCCESS: u64 = 0;

/// High bit of a machine word: set on every error (as opposed to warning) code.
pub const ERROR_BIT: u64 = 0x8000_0000_0000_0000;

/// A parameter was invalid (for the pool: freeing an address it never handed out).
pub const STATUS_INVALID_PARAMETER: u64 = 0x8000_0000_0000_0002;

/// The pool could not satisfy the request.
pub const STATUS_OUT_OF_RESOURCES: u64 = 0x8000_0000_0000_0009;

/// One discriminated status code, as every table entry point returns it.
#[derive(Clone, Copy, PartialEq, Eq, Structural, Debug)]
pub struct Status(pub u64);

impl Status {
    /// Success is exactly the zero code.
    pub open spec fn spec_is_success(&self) -> bool {
        self.0 == STATUS_SUCCESS
    }

    /// Every nonzero code is a failure or warning category.
    #[verifier::when_used_as_spec(spec_is_success)]
    pub fn is_success(&self) -> (r: bool)
        ensures
            r == self.spec_is_success(),
    {
        self.0 == STATUS_SUCCESS
    }

    /// A code with the high bit set denotes an error (a warning keeps it clear).
    pub open spec fn spec_is_error(&self) -> bool {
        self.0 & ERROR_BIT == ERROR_BIT
    }

    #[verifier::when_used_as_spec(spec_is_error)]
    pub fn is_error(&self) -> (r: bool)
        ensures
            r == self.spec_is_error(),
    {
        self.0 & ERROR_BIT == ERROR_BIT
    }
}

/// An error code is never the success code.
pub proof fn lemma_error_not_success(s: Status)
    requires
        s.spec_is_error(),
    ensures
        !s.spec_is_success(),
{
    let c = s.0;
    assert(c & ERROR_BIT == ERROR_BIT ==> c != 0) by (bit_vector);
}

} // verus!
