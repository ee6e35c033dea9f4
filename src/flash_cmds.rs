//! Flash operations and how one of them is framed on the SPI bus.
use vstd::prelude::*;
use ftdi_mpsse::{ClockDataIn, ClockDataOut, MpsseCmdBuilder};
use crate::mpsse::{builder_bytes, clock_in_byte, clock_out_byte, transfer_header, SET_GPIO_LOWER};
use crate::spi::{MAX_LENGTH, SPI_CS_DISABLE, SPI_CS_ENABLE, SPI_DIRECTION};

pub mod common;

verus! {

/// The instructions that frame one operation: chip select asserted, the
/// command clocked out MSB first on the falling edge, `n` bytes clocked in
/// MSB first on the rising edge when `n > 0`, chip select released.
pub open spec fn frame_bytes(command: Seq<u8>, n: nat) -> Seq<u8> {
    seq![SET_GPIO_LOWER, SPI_CS_ENABLE, SPI_DIRECTION]
        + transfer_header(clock_out_byte(ClockDataOut::MsbNeg), command.len())
        + command
        + transfer_header(clock_in_byte(ClockDataIn::MsbPos), n)
        + seq![SET_GPIO_LOWER, SPI_CS_DISABLE, SPI_DIRECTION]
}

/// Whether an operation's outbound and inbound bytes fit in one bridge
/// transfer.
pub open spec fn fits_transfer(command: Seq<u8>, n: nat) -> bool {
    command.len() + n <= MAX_LENGTH
}

/// A flash operation: the bytes it sends and how many it reads back.
pub trait SpiSession {
    /// The command bytes of the operation.
    spec fn spec_command(&self) -> Seq<u8>;

    /// The number of bytes the operation reads back.
    spec fn spec_read_length(&self) -> usize;

    fn command(&self) -> (r: Vec<u8>)
        ensures
            r@ == self.spec_command(),
    ;

    fn read_length(&self) -> (r: usize)
        ensures
            r == self.spec_read_length(),
    ;

    /// Appends the framed operation to `cmds`.
    fn issue(&self, cmds: MpsseCmdBuilder) -> (r: MpsseCmdBuilder)
        requires
            fits_transfer(self.spec_command(), self.spec_read_length() as nat),
        ensures
            builder_bytes(r) == builder_bytes(cmds) + frame_bytes(
                self.spec_command(),
                self.spec_read_length() as nat,
            ),
    {
        let buffer = self.command();
        let mut new_cmds = cmds.set_gpio_lower(SPI_CS_ENABLE, SPI_DIRECTION).clock_data_out(
            ClockDataOut::MsbNeg,
            buffer.as_slice(),
        );
        let n = self.read_length();
        if n > 0 {
            new_cmds = new_cmds.clock_data_in(ClockDataIn::MsbPos, n);
        }
        let r = new_cmds.set_gpio_lower(SPI_CS_DISABLE, SPI_DIRECTION);
        assert(builder_bytes(r) =~= builder_bytes(cmds) + frame_bytes(buffer@, n as nat));
        r
    }
}

/// An operation identified by its one-byte code.
pub trait OpCode<Op> {
    /// The operation code.
    spec fn spec_op(&self) -> Op;

    fn op(&self) -> (r: Op)
        ensures
            r == self.spec_op(),
    ;
}

} // verus!
