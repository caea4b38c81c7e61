//! Why an instruction is refused.

use vstd::prelude::*;

verus! {

/// The ways an instruction can fail. The first four come from reaching the
/// records; `Program` carries a refusal by the rules of the program itself.
#[derive(Clone, Copy, Debug, PartialEq, Eq)]
pub enum Failure<E> {
    /// A text is longer than its record allows, or no address can be derived
    /// from the key.
    InvalidInput,
    /// A record that the instruction refers to is not there.
    NotFound,
    /// The address of a record to create is already taken.
    AlreadyExists,
    /// The cluster clock could not be read.
    ClockUnavailable,
    /// The program's own rules refuse the instruction.
    Program(E),
}

} // verus!
