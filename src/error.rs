use vstd::prelude::*;

verus! {

/// Numeric error code; every 16-bit value is a code.
#[derive(Clone, Copy, Debug, PartialEq, Eq, Structural)]
pub struct ErrorCode(pub u16);

impl ErrorCode {
    pub fn from_u16(code: u16) -> (r: ErrorCode)
        ensures
            r.0 == code,
    {
        ErrorCode(code)
    }

    pub fn to_u16(self) -> (r: u16)
        ensures
            r == self.0,
    {
        self.0
    }
}

} // verus!
