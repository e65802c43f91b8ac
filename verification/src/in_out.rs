//! The I/O port capability the core drives on IN and OUT instructions. The
//! device behind the ports (shift register, input latches, sound triggers)
//! lives entirely in the host's implementation of the trait.

use vstd::prelude::*;

verus! {

/// An output port number of the Space Invaders board.
#[derive(Debug, Clone, Copy)]
pub enum OutPort {
    One,
    Two,
    Three,
    Four,
    Five,
    Six,
    Seven,
    Eight,
}

/// An input port number of the Space Invaders board.
#[derive(Debug, Clone, Copy)]
pub enum InPort {
    One,
    Two,
    Three,
    Four,
    Five,
    Six,
    Seven,
    Eight,
}

/// The two operations a port peripheral offers. Nothing is assumed of what a
/// device returns: the core states what holds of every reply.
pub trait InOut {
    /// Delivers a byte to a port (the OUT instruction).
    fn write(&self, port: u8, value: u8);

    /// Fetches a byte from a port (the IN instruction).
    fn read(&self, port: u8) -> u8;
}

/// A port peripheral that ignores writes and answers every read with zero,
/// for programs that never touch the ports.
pub struct DummyInOut;

impl InOut for DummyInOut {
    fn write(&self, _port: u8, _value: u8) {
    }

    fn read(&self, _port: u8) -> u8 {
        0
    }
}

} // verus!
