//! Errors of a host program driving the core.

use vstd::prelude::*;

verus! {

/// Errors a host program reports around the core: a missing ROM file
/// argument, an unreadable opcode, or operands running past the data.
#[derive(Debug, Clone, Copy, PartialEq, Eq, Structural)]
pub enum Error {
    MissingCliArgument,
    ReadError(u8),
    NotEnoughArguments,
}

} // verus!
