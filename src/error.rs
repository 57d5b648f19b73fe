use vstd::prelude::*;

verus! {

/// The failures that decoding reports.
#[derive(Clone, Copy, Debug, PartialEq, Eq, Structural)]
pub enum Error {
    /// A read needed the bytes up to the first value (exclusive), but the
    /// buffer holds only the second value's worth.
    ReadOutOfBounds(usize, usize),
    /// The bytes were present but do not encode a valid value of the
    /// requested type.
    InvalidValue,
}

} // verus!
