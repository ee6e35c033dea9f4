//! What this library assumes of the `ftdi_mpsse` instruction builder.
use vstd::prelude::*;
use ftdi_mpsse::{ClockData, ClockDataIn, ClockDataOut, MpsseCmdBuilder};

verus! {

#[verifier::external_type_specification]
#[verifier::external_body]
pub struct ExMpsseCmdBuilder(MpsseCmdBuilder);

#[verifier::external_type_specification]
pub struct ExClockDataOut(ClockDataOut);

#[verifier::external_type_specification]
pub struct ExClockDataIn(ClockDataIn);

#[verifier::external_type_specification]
pub struct ExClockData(ClockData);

/// The bytes that an instruction builder holds, in the order they were pushed.
pub uninterp spec fn builder_bytes(b: MpsseCmdBuilder) -> Seq<u8>;

/// Instruction byte of a set-low-GPIO command.
pub const SET_GPIO_LOWER: u8 = 0x80;

/// Instruction byte of a send-immediate command.
pub const SEND_IMMEDIATE: u8 = 0x87;

/// Instruction byte of each mode of clocking bytes out.
pub open spec fn clock_out_byte(mode: ClockDataOut) -> u8 {
    match mode {
        ClockDataOut::MsbPos => 0x10u8,
        ClockDataOut::MsbNeg => 0x11u8,
        ClockDataOut::LsbPos => 0x18u8,
        ClockDataOut::LsbNeg => 0x19u8,
    }
}

/// Instruction byte of each mode of clocking bytes in.
pub open spec fn clock_in_byte(mode: ClockDataIn) -> u8 {
    match mode {
        ClockDataIn::MsbPos => 0x20u8,
        ClockDataIn::MsbNeg => 0x24u8,
        ClockDataIn::LsbPos => 0x28u8,
        ClockDataIn::LsbNeg => 0x2Cu8,
    }
}

/// Instruction byte of each mode of clocking bytes in and out at once.
pub open spec fn clock_inout_byte(mode: ClockData) -> u8 {
    match mode {
        ClockData::MsbPosIn => 0x31u8,
        ClockData::MsbNegIn => 0x34u8,
        ClockData::LsbPosIn => 0x39u8,
        ClockData::LsbNegIn => 0x3Cu8,
    }
}

/// The two little-endian bytes of a transfer length `n >= 1`, as the bridge
/// expects it: `n - 1`.
pub open spec fn length_bytes(n: nat) -> Seq<u8> {
    seq![((n - 1) % 256) as u8, (((n - 1) / 256) % 256) as u8]
}

/// A data-transfer instruction of `n` bytes: nothing when `n` is zero, else
/// the mode byte followed by the encoded length.
pub open spec fn transfer_header(mode: u8, n: nat) -> Seq<u8> {
    if n == 0 {
        Seq::empty()
    } else {
        seq![mode] + length_bytes(n)
    }
}

/// Relies on `MpsseCmdBuilder::new`: the builder starts empty.
pub assume_specification[ MpsseCmdBuilder::new ]() -> (r: MpsseCmdBuilder)
    ensures
        builder_bytes(r) == Seq::<u8>::empty(),
;

/// Relies on `MpsseCmdBuilder::set_gpio_lower`: it appends `0x80`, the state
/// and the direction mask.
pub assume_specification[ MpsseCmdBuilder::set_gpio_lower ](
    b: MpsseCmdBuilder,
    state: u8,
    direction: u8,
) -> (r: MpsseCmdBuilder)
    ensures
        builder_bytes(r) == builder_bytes(b) + seq![SET_GPIO_LOWER, state, direction],
;

/// Relies on `MpsseCmdBuilder::send_immediate`: it appends `0x87`.
pub assume_specification[ MpsseCmdBuilder::send_immediate ](b: MpsseCmdBuilder) -> (r: MpsseCmdBuilder)
    ensures
        builder_bytes(r) == builder_bytes(b).push(SEND_IMMEDIATE),
;

/// Relies on `MpsseCmdBuilder::clock_data_out`: for empty data it appends
/// nothing, else the mode byte, `len - 1` in two little-endian bytes and the
/// data. It panics above 65536 bytes.
pub assume_specification[ MpsseCmdBuilder::clock_data_out ](
    b: MpsseCmdBuilder,
    mode: ClockDataOut,
    data: &[u8],
) -> (r: MpsseCmdBuilder)
    requires
        data@.len() <= 65536,
    ensures
        builder_bytes(r) == builder_bytes(b) + transfer_header(clock_out_byte(mode), data@.len())
            + data@,
;

/// Relies on `MpsseCmdBuilder::clock_data_in`: for a zero length it appends
/// nothing, else the mode byte and `len - 1` in two little-endian bytes. It
/// panics above 65536 bytes.
pub assume_specification[ MpsseCmdBuilder::clock_data_in ](
    b: MpsseCmdBuilder,
    mode: ClockDataIn,
    len: usize,
) -> (r: MpsseCmdBuilder)
    requires
        len <= 65536,
    ensures
        builder_bytes(r) == builder_bytes(b) + transfer_header(clock_in_byte(mode), len as nat),
;

/// Relies on `MpsseCmdBuilder::clock_data`: for empty data it appends
/// nothing, else the mode byte, `len - 1` in two little-endian bytes and the
/// data. It panics above 65536 bytes.
pub assume_specification[ MpsseCmdBuilder::clock_data ](
    b: MpsseCmdBuilder,
    mode: ClockData,
    data: &[u8],
) -> (r: MpsseCmdBuilder)
    requires
        data@.len() <= 65536,
    ensures
        builder_bytes(r) == builder_bytes(b) + transfer_header(clock_inout_byte(mode), data@.len())
            + data@,
;

} // verus!
