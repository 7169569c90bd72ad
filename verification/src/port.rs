//! Typed I/O ports. A port of this library does not touch the hardware: its
//! reads and writes are values that say which access is to be made, for the
//! code that owns the machine to carry out in the order given.

use vstd::prelude::*;
use core::marker::PhantomData;

verus! {

/// Width of one access to an I/O port.
#[derive(Debug, Copy, Clone, PartialEq, Eq, Structural)]
pub enum PortWidth {
    /// 8 bits.
    Byte,
    /// 16 bits.
    Word,
    /// 32 bits.
    Long,
}

/// A read that is to be made from an I/O port.
#[derive(Debug, Copy, Clone, PartialEq, Eq, Structural)]
pub struct PortRead {
    pub port: u16,
    pub width: PortWidth,
}

/// A write that is to be made to an I/O port. `value` holds the datum in its
/// low bits, as wide as `width` says.
#[derive(Debug, Copy, Clone, PartialEq, Eq, Structural)]
pub struct PortWrite {
    pub port: u16,
    pub width: PortWidth,
    pub value: u32,
}

/// A type of values that an I/O port can take and give.
pub trait InOut: Sized {
    /// Width of the port accesses that move a value of this type.
    spec fn width() -> PortWidth;

    /// The value as the write carries it.
    spec fn datum(self) -> u32;

    /// The read of one value of this type from `port`.
    fn port_in(port: u16) -> (read: PortRead)
        ensures
            read == (PortRead { port, width: Self::width() }),
    ;

    /// The write of `value` to `port`.
    fn port_out(port: u16, value: Self) -> (write: PortWrite)
        ensures
            write == (PortWrite { port, width: Self::width(), value: value.datum() }),
    ;
}

impl InOut for u8 {
    open spec fn width() -> PortWidth {
        PortWidth::Byte
    }

    open spec fn datum(self) -> u32 {
        self as u32
    }

    fn port_in(port: u16) -> (read: PortRead) {
        PortRead { port, width: PortWidth::Byte }
    }

    fn port_out(port: u16, value: Self) -> (write: PortWrite) {
        PortWrite { port, width: PortWidth::Byte, value: value as u32 }
    }
}

impl InOut for u16 {
    open spec fn width() -> PortWidth {
        PortWidth::Word
    }

    open spec fn datum(self) -> u32 {
        self as u32
    }

    fn port_in(port: u16) -> (read: PortRead) {
        PortRead { port, width: PortWidth::Word }
    }

    fn port_out(port: u16, value: Self) -> (write: PortWrite) {
        PortWrite { port, width: PortWidth::Word, value: value as u32 }
    }
}

impl InOut for u32 {
    open spec fn width() -> PortWidth {
        PortWidth::Long
    }

    open spec fn datum(self) -> u32 {
        self
    }

    fn port_in(port: u16) -> (read: PortRead) {
        PortRead { port, width: PortWidth::Long }
    }

    fn port_out(port: u16, value: Self) -> (write: PortWrite) {
        PortWrite { port, width: PortWidth::Long, value }
    }
}

/// An I/O port that moves values of type `T`.
#[derive(Debug)]
pub struct UnsafePort<T: InOut> {
    port: u16,
    phantom: PhantomData<T>,
}

impl<T: InOut> UnsafePort<T> {
    /// Number of the port.
    pub closed spec fn number(&self) -> u16 {
        self.port
    }

    pub fn new(port: u16) -> (made: UnsafePort<T>)
        ensures
            made.number() == port,
    {
        UnsafePort { port, phantom: PhantomData }
    }

    /// The read of one value from this port.
    pub fn read(&self) -> (read: PortRead)
        ensures
            read == (PortRead { port: self.number(), width: T::width() }),
    {
        T::port_in(self.port)
    }

    /// The write of `value` to this port.
    pub fn write(&self, value: T) -> (write: PortWrite)
        ensures
            write == (PortWrite { port: self.number(), width: T::width(), value: value.datum() }),
    {
        T::port_out(self.port, value)
    }
}

} // verus!
