//! Batching flash operations into one bridge transaction.
use vstd::prelude::*;
use ftdi_mpsse::{ClockData, MpsseCmdBuilder};
use crate::flash_cmds::{fits_transfer, frame_bytes, SpiSession};
use crate::mpsse::{
    builder_bytes, clock_inout_byte, transfer_header, SEND_IMMEDIATE, SET_GPIO_LOWER,
};

verus! {

/// The most bytes one bridge transfer can move.
pub const MAX_LENGTH: usize = 65536;

/// GPIO state with chip select asserted (low).
pub const SPI_CS_ENABLE: u8 = 0x00;

/// GPIO state with chip select released (high).
pub const SPI_CS_DISABLE: u8 = 0x08;

/// GPIO direction mask: every low pin an output but the data input.
pub const SPI_DIRECTION: u8 = 0xFB;

/// Why a session failed.
#[derive(Clone, Copy, Debug, PartialEq, Eq, Structural)]
pub enum Error {
    /// The USB or bridge-protocol call failed, or moved fewer bytes than asked.
    FDTIErr,
    /// The host-side I/O primitive failed.
    IOError,
    /// The bridge did not enter its serial mode.
    MpsseInitErr,
    /// A transfer would exceed the bridge's capacity.
    BufferLengthExceeded,
}

/// The operations of a session, compiled into one instruction list.
pub struct CompiledSession {
    /// The framed operations, in order.
    pub cmds: MpsseCmdBuilder,
    /// The number of bytes the session reads back in all.
    pub read_length: usize,
}

/// Whether one operation fits in a bridge transfer.
pub open spec fn op_fits<T: SpiSession>(op: T) -> bool {
    fits_transfer(op.spec_command(), op.spec_read_length() as nat)
}

/// Whether every operation fits in a bridge transfer.
pub open spec fn all_fit<T: SpiSession>(ops: Seq<T>) -> bool {
    forall|i: int| 0 <= i < ops.len() ==> op_fits(#[trigger] ops[i])
}

/// The instruction list of a session: each operation framed, in order.
pub open spec fn session_bytes<T: SpiSession>(ops: Seq<T>) -> Seq<u8>
    decreases ops.len(),
{
    if ops.len() == 0 {
        Seq::empty()
    } else {
        session_bytes(ops.drop_last()) + frame_bytes(
            ops.last().spec_command(),
            ops.last().spec_read_length() as nat,
        )
    }
}

/// The sum of the operations' read lengths.
pub open spec fn total_read_length<T: SpiSession>(ops: Seq<T>) -> nat
    decreases ops.len(),
{
    if ops.len() == 0 {
        0
    } else {
        total_read_length(ops.drop_last()) + ops.last().spec_read_length() as nat
    }
}

proof fn lemma_total_bounded<T: SpiSession>(ops: Seq<T>)
    requires
        all_fit(ops),
    ensures
        total_read_length(ops) <= ops.len() * MAX_LENGTH,
    decreases ops.len(),
{
    if ops.len() > 0 {
        let init = ops.drop_last();
        assert forall|i: int| 0 <= i < init.len() implies op_fits(#[trigger] init[i]) by {
            assert(init[i] == ops[i]);
        }
        lemma_total_bounded(init);
        assert(op_fits(ops[ops.len() - 1]));
        assert((ops.len() - 1) * MAX_LENGTH + MAX_LENGTH == ops.len() * MAX_LENGTH)
            by (nonlinear_arith);
    }
}

/// Compiles `ops` into one instruction list and the number of bytes the
/// bridge will send back. Fails, before building anything, when one
/// operation would not fit in a bridge transfer.
pub fn compile_session<T: SpiSession>(ops: &[T]) -> (r: Result<CompiledSession, Error>)
    requires
        ops@.len() * MAX_LENGTH <= usize::MAX,
    ensures
        r is Ok <==> all_fit(ops@),
        r matches Ok(s) ==> builder_bytes(s.cmds) == session_bytes(ops@) && s.read_length
            == total_read_length(ops@),
        r matches Err(e) ==> e == Error::BufferLengthExceeded,
{
    let mut i: usize = 0;
    while i < ops.len()
        invariant
            i <= ops@.len(),
            forall|j: int| 0 <= j < i ==> op_fits(#[trigger] ops@[j]),
        decreases ops@.len() - i,
    {
        let c = ops[i].command();
        let n = ops[i].read_length();
        if n > MAX_LENGTH || c.len() > MAX_LENGTH - n {
            assert(!op_fits(ops@[i as int]));
            return Err(Error::BufferLengthExceeded);
        }
        i = i + 1;
    }
    let mut cmds = MpsseCmdBuilder::new();
    let mut len: usize = 0;
    let mut k: usize = 0;
    while k < ops.len()
        invariant
            k <= ops@.len(),
            all_fit(ops@),
            ops@.len() * MAX_LENGTH <= usize::MAX,
            builder_bytes(cmds) == session_bytes(ops@.subrange(0, k as int)),
            len == total_read_length(ops@.subrange(0, k as int)),
        decreases ops@.len() - k,
    {
        let ghost pre = ops@.subrange(0, k as int);
        let ghost next = ops@.subrange(0, k + 1);
        assert(next.drop_last() =~= pre);
        assert(next.last() == ops@[k as int]);
        assert(op_fits(ops@[k as int]));
        proof {
            lemma_total_bounded(next);
            assert(next.len() * MAX_LENGTH <= ops@.len() * MAX_LENGTH) by (nonlinear_arith)
                requires
                    next.len() <= ops@.len(),
            ;
        }
        cmds = ops[k].issue(cmds);
        len = len + ops[k].read_length();
        k = k + 1;
    }
    assert(ops@.subrange(0, ops@.len() as int) =~= ops@);
    Ok(CompiledSession { cmds, read_length: len })
}

impl CompiledSession {
    /// The instruction list to submit: the framed operations, then the
    /// instruction that makes the bridge answer at once.
    pub fn submission(self) -> (r: MpsseCmdBuilder)
        ensures
            builder_bytes(r) == builder_bytes(self.cmds).push(SEND_IMMEDIATE),
    {
        self.cmds.send_immediate()
    }
}

/// Accepts the bridge's answer to a session that reads back `read_length`
/// bytes: it must hold exactly that many, else the transfer fell short.
pub fn take_response(read_length: usize, response: Vec<u8>) -> (r: Result<Vec<u8>, Error>)
    ensures
        r is Ok <==> response@.len() == read_length,
        r matches Ok(v) ==> v@ == response@,
        r matches Err(e) ==> e == Error::FDTIErr,
{
    if response.len() == read_length {
        Ok(response)
    } else {
        Err(Error::FDTIErr)
    }
}

/// The instructions that bring the bus to rest when the bridge is opened:
/// chip select released, then an immediate flush.
pub fn init_command() -> (r: MpsseCmdBuilder)
    ensures
        builder_bytes(r) == seq![SET_GPIO_LOWER, SPI_CS_DISABLE, SPI_DIRECTION, SEND_IMMEDIATE],
{
    let r = MpsseCmdBuilder::new().set_gpio_lower(SPI_CS_DISABLE, SPI_DIRECTION).send_immediate();
    assert(builder_bytes(r) =~= seq![SET_GPIO_LOWER, SPI_CS_DISABLE, SPI_DIRECTION, SEND_IMMEDIATE]);
    r
}

/// The instructions of a full-duplex transfer of `data`: clocked out and in
/// at once, MSB first, sampling on the rising edge, then an immediate flush.
/// Fails when `data` is longer than one bridge transfer.
pub fn read_write_command(data: &[u8]) -> (r: Result<MpsseCmdBuilder, Error>)
    ensures
        r is Ok <==> data@.len() <= MAX_LENGTH,
        r matches Ok(b) ==> builder_bytes(b) == transfer_header(
            clock_inout_byte(ClockData::MsbPosIn),
            data@.len(),
        ) + data@ + seq![SEND_IMMEDIATE],
        r matches Err(e) ==> e == Error::BufferLengthExceeded,
{
    if data.len() > MAX_LENGTH {
        return Err(Error::BufferLengthExceeded);
    }
    let r = MpsseCmdBuilder::new().clock_data(ClockData::MsbPosIn, data).send_immediate();
    assert(builder_bytes(r) =~= transfer_header(clock_inout_byte(ClockData::MsbPosIn), data@.len())
        + data@ + seq![SEND_IMMEDIATE]);
    Ok(r)
}

/// An empty session has an empty instruction list and reads nothing back.
pub proof fn lemma_empty_session<T: SpiSession>(ops: Seq<T>)
    requires
        ops.len() == 0,
    ensures
        session_bytes(ops) == Seq::<u8>::empty(),
        total_read_length(ops) == 0,
{
}

/// The bytes a session reads back are the sum of what its parts read back,
/// so that two sessions run one after the other read what one session of
/// both would.
pub proof fn lemma_session_append<T: SpiSession>(a: Seq<T>, b: Seq<T>)
    ensures
        total_read_length(a + b) == total_read_length(a) + total_read_length(b),
        session_bytes(a + b) == session_bytes(a) + session_bytes(b),
    decreases b.len(),
{
    if b.len() == 0 {
        assert(a + b =~= a);
        assert(session_bytes(a) + session_bytes(b) =~= session_bytes(a));
    } else {
        assert((a + b).drop_last() =~= a + b.drop_last());
        assert((a + b).last() == b.last());
        lemma_session_append(a, b.drop_last());
        assert(session_bytes(a + b) =~= session_bytes(a) + session_bytes(b));
    }
}

/// A session of one operation compiles exactly when the operation's
/// outbound and inbound bytes together are at most the bridge's capacity.
pub proof fn lemma_single_op_boundary<T: SpiSession>(op: T)
    ensures
        all_fit(seq![op]) <==> op.spec_command().len() + op.spec_read_length() <= MAX_LENGTH,
{
    assert(seq![op][0] == op);
}

} // verus!
