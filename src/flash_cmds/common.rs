//! The operations of a common serial-flash command set.
use vstd::prelude::*;
use super::{OpCode, SpiSession};

verus! {

/// A 3-byte flash address, most significant byte first.
pub type Addr = [u8; 3];

/// An operation code followed by an address.
fn addressed(op: u8, addr: &Addr) -> (r: Vec<u8>)
    ensures
        r@ == seq![op] + addr@,
{
    let mut v: Vec<u8> = Vec::new();
    v.push(op);
    v.push(addr[0]);
    v.push(addr[1]);
    v.push(addr[2]);
    assert(v@ =~= seq![op] + addr@);
    v
}

/// An operation code alone.
fn bare(op: u8) -> (r: Vec<u8>)
    ensures
        r@ == seq![op],
{
    let mut v: Vec<u8> = Vec::new();
    v.push(op);
    assert(v@ =~= seq![op]);
    v
}

/// Reads `read_length` bytes from `addr`.
pub struct Read {
    pub addr: Addr,
    pub read_length: usize,
}

impl OpCode<u8> for Read {
    open spec fn spec_op(&self) -> u8 {
        0x03u8
    }

    fn op(&self) -> (r: u8) {
        assert(self.spec_op() == 0x03u8);
        0x03u8
    }
}

impl SpiSession for Read {
    open spec fn spec_command(&self) -> Seq<u8> {
        seq![0x03u8] + self.addr@
    }

    open spec fn spec_read_length(&self) -> usize {
        self.read_length
    }

    fn command(&self) -> (r: Vec<u8>) {
        addressed(self.op(), &self.addr)
    }

    fn read_length(&self) -> (r: usize) {
        self.read_length
    }
}

/// Reads `read_length` bytes from `addr`, after one dummy byte.
pub struct FastRead {
    pub addr: Addr,
    pub read_length: usize,
}

impl OpCode<u8> for FastRead {
    open spec fn spec_op(&self) -> u8 {
        0x0Bu8
    }

    fn op(&self) -> (r: u8) {
        assert(self.spec_op() == 0x0Bu8);
        0x0Bu8
    }
}

impl SpiSession for FastRead {
    open spec fn spec_command(&self) -> Seq<u8> {
        seq![0x0Bu8] + self.addr@ + seq![0x00u8]
    }

    open spec fn spec_read_length(&self) -> usize {
        self.read_length
    }

    fn command(&self) -> (r: Vec<u8>) {
        let mut v = addressed(self.op(), &self.addr);
        v.push(0x00);
        v
    }

    fn read_length(&self) -> (r: usize) {
        self.read_length
    }
}

/// Erases the 4 KiB sector that holds `addr`.
pub struct SectorErase {
    pub addr: Addr,
}

impl OpCode<u8> for SectorErase {
    open spec fn spec_op(&self) -> u8 {
        0x20u8
    }

    fn op(&self) -> (r: u8) {
        assert(self.spec_op() == 0x20u8);
        0x20u8
    }
}

impl SpiSession for SectorErase {
    open spec fn spec_command(&self) -> Seq<u8> {
        seq![0x20u8] + self.addr@
    }

    open spec fn spec_read_length(&self) -> usize {
        0usize
    }

    fn command(&self) -> (r: Vec<u8>) {
        addressed(self.op(), &self.addr)
    }

    fn read_length(&self) -> (r: usize) {
        0
    }
}

/// Erases the 32 KiB block that holds `addr`.
pub struct BlockErase32K {
    pub addr: Addr,
}

impl OpCode<u8> for BlockErase32K {
    open spec fn spec_op(&self) -> u8 {
        0x52u8
    }

    fn op(&self) -> (r: u8) {
        assert(self.spec_op() == 0x52u8);
        0x52u8
    }
}

impl SpiSession for BlockErase32K {
    open spec fn spec_command(&self) -> Seq<u8> {
        seq![0x52u8] + self.addr@
    }

    open spec fn spec_read_length(&self) -> usize {
        0usize
    }

    fn command(&self) -> (r: Vec<u8>) {
        addressed(self.op(), &self.addr)
    }

    fn read_length(&self) -> (r: usize) {
        0
    }
}

/// Erases the whole chip.
pub struct ChipErase;

impl OpCode<u8> for ChipErase {
    open spec fn spec_op(&self) -> u8 {
        0x60u8
    }

    fn op(&self) -> (r: u8) {
        assert(self.spec_op() == 0x60u8);
        0x60u8
    }
}

impl SpiSession for ChipErase {
    open spec fn spec_command(&self) -> Seq<u8> {
        seq![0x60u8]
    }

    open spec fn spec_read_length(&self) -> usize {
        0usize
    }

    fn command(&self) -> (r: Vec<u8>) {
        bare(self.op())
    }

    fn read_length(&self) -> (r: usize) {
        0
    }
}

/// Reads the status register.
pub struct ReadStatus;

impl OpCode<u8> for ReadStatus {
    open spec fn spec_op(&self) -> u8 {
        0x05u8
    }

    fn op(&self) -> (r: u8) {
        assert(self.spec_op() == 0x05u8);
        0x05u8
    }
}

impl SpiSession for ReadStatus {
    open spec fn spec_command(&self) -> Seq<u8> {
        seq![0x05u8]
    }

    open spec fn spec_read_length(&self) -> usize {
        1usize
    }

    fn command(&self) -> (r: Vec<u8>) {
        bare(self.op())
    }

    fn read_length(&self) -> (r: usize) {
        1
    }
}

/// Sets the write-enable latch.
pub struct WriteEnable;

impl OpCode<u8> for WriteEnable {
    open spec fn spec_op(&self) -> u8 {
        0x06u8
    }

    fn op(&self) -> (r: u8) {
        assert(self.spec_op() == 0x06u8);
        0x06u8
    }
}

impl SpiSession for WriteEnable {
    open spec fn spec_command(&self) -> Seq<u8> {
        seq![0x06u8]
    }

    open spec fn spec_read_length(&self) -> usize {
        0usize
    }

    fn command(&self) -> (r: Vec<u8>) {
        bare(self.op())
    }

    fn read_length(&self) -> (r: usize) {
        0
    }
}

/// Clears the write-enable latch.
pub struct WriteDisable;

impl OpCode<u8> for WriteDisable {
    open spec fn spec_op(&self) -> u8 {
        0x04u8
    }

    fn op(&self) -> (r: u8) {
        assert(self.spec_op() == 0x04u8);
        0x04u8
    }
}

impl SpiSession for WriteDisable {
    open spec fn spec_command(&self) -> Seq<u8> {
        seq![0x04u8]
    }

    open spec fn spec_read_length(&self) -> usize {
        0usize
    }

    fn command(&self) -> (r: Vec<u8>) {
        bare(self.op())
    }

    fn read_length(&self) -> (r: usize) {
        0
    }
}

/// Programs the byte `data` at `addr`.
pub struct ByteProgram {
    pub addr: Addr,
    pub data: u8,
}

impl OpCode<u8> for ByteProgram {
    open spec fn spec_op(&self) -> u8 {
        0x02u8
    }

    fn op(&self) -> (r: u8) {
        assert(self.spec_op() == 0x02u8);
        0x02u8
    }
}

impl SpiSession for ByteProgram {
    open spec fn spec_command(&self) -> Seq<u8> {
        seq![0x02u8] + self.addr@ + seq![self.data]
    }

    open spec fn spec_read_length(&self) -> usize {
        0usize
    }

    fn command(&self) -> (r: Vec<u8>) {
        let mut v = addressed(self.op(), &self.addr);
        v.push(self.data);
        v
    }

    fn read_length(&self) -> (r: usize) {
        0
    }
}

/// The order in which a read-ID operation returns the two identifiers.
#[derive(Clone, Copy, Debug, PartialEq, Eq, Structural)]
pub enum ReadIDMode {
    ManufacturerDevice,
    DeviceManufacturer,
}

impl ReadIDMode {
    /// The byte that selects the mode in the command.
    pub open spec fn spec_byte(self) -> u8 {
        match self {
            ReadIDMode::ManufacturerDevice => 0x00u8,
            ReadIDMode::DeviceManufacturer => 0x01u8,
        }
    }

    pub fn byte(self) -> (r: u8)
        ensures
            r == self.spec_byte(),
    {
        match self {
            ReadIDMode::ManufacturerDevice => 0x00,
            ReadIDMode::DeviceManufacturer => 0x01,
        }
    }
}

/// Reads the manufacturer and device identifiers.
pub struct ReadID {
    pub mode: ReadIDMode,
}

impl OpCode<u8> for ReadID {
    open spec fn spec_op(&self) -> u8 {
        0x90u8
    }

    fn op(&self) -> (r: u8) {
        assert(self.spec_op() == 0x90u8);
        0x90u8
    }
}

impl SpiSession for ReadID {
    open spec fn spec_command(&self) -> Seq<u8> {
        seq![0x90u8, 0x00u8, 0x00u8, self.mode.spec_byte()]
    }

    open spec fn spec_read_length(&self) -> usize {
        2usize
    }

    fn command(&self) -> (r: Vec<u8>) {
        let mut v = bare(self.op());
        v.push(0x00);
        v.push(0x00);
        v.push(self.mode.byte());
        v
    }

    fn read_length(&self) -> (r: usize) {
        2
    }
}

impl ReadID {
    /// Splits the two response bytes into the manufacturer and the device
    /// identifier, in the order the mode asked for.
    pub fn ids(&self, response: &[u8]) -> (r: (u8, u8))
        requires
            response@.len() == 2,
        ensures
            self.mode == ReadIDMode::ManufacturerDevice ==> r == (response@[0], response@[1]),
            self.mode == ReadIDMode::DeviceManufacturer ==> r == (response@[1], response@[0]),
    {
        match self.mode {
            ReadIDMode::ManufacturerDevice => (response[0], response[1]),
            ReadIDMode::DeviceManufacturer => (response[1], response[0]),
        }
    }
}

/// Any one of the operations, so that a session can mix kinds.
pub enum FlashOp {
    Read(Read),
    FastRead(FastRead),
    SectorErase(SectorErase),
    BlockErase32K(BlockErase32K),
    ChipErase(ChipErase),
    ReadStatus(ReadStatus),
    WriteEnable(WriteEnable),
    WriteDisable(WriteDisable),
    ByteProgram(ByteProgram),
    ReadID(ReadID),
}

impl SpiSession for FlashOp {
    open spec fn spec_command(&self) -> Seq<u8> {
        match self {
            FlashOp::Read(o) => o.spec_command(),
            FlashOp::FastRead(o) => o.spec_command(),
            FlashOp::SectorErase(o) => o.spec_command(),
            FlashOp::BlockErase32K(o) => o.spec_command(),
            FlashOp::ChipErase(o) => o.spec_command(),
            FlashOp::ReadStatus(o) => o.spec_command(),
            FlashOp::WriteEnable(o) => o.spec_command(),
            FlashOp::WriteDisable(o) => o.spec_command(),
            FlashOp::ByteProgram(o) => o.spec_command(),
            FlashOp::ReadID(o) => o.spec_command(),
        }
    }

    open spec fn spec_read_length(&self) -> usize {
        match self {
            FlashOp::Read(o) => o.spec_read_length(),
            FlashOp::FastRead(o) => o.spec_read_length(),
            FlashOp::SectorErase(o) => o.spec_read_length(),
            FlashOp::BlockErase32K(o) => o.spec_read_length(),
            FlashOp::ChipErase(o) => o.spec_read_length(),
            FlashOp::ReadStatus(o) => o.spec_read_length(),
            FlashOp::WriteEnable(o) => o.spec_read_length(),
            FlashOp::WriteDisable(o) => o.spec_read_length(),
            FlashOp::ByteProgram(o) => o.spec_read_length(),
            FlashOp::ReadID(o) => o.spec_read_length(),
        }
    }

    fn command(&self) -> (r: Vec<u8>) {
        match self {
            FlashOp::Read(o) => o.command(),
            FlashOp::FastRead(o) => o.command(),
            FlashOp::SectorErase(o) => o.command(),
            FlashOp::BlockErase32K(o) => o.command(),
            FlashOp::ChipErase(o) => o.command(),
            FlashOp::ReadStatus(o) => o.command(),
            FlashOp::WriteEnable(o) => o.command(),
            FlashOp::WriteDisable(o) => o.command(),
            FlashOp::ByteProgram(o) => o.command(),
            FlashOp::ReadID(o) => o.command(),
        }
    }

    fn read_length(&self) -> (r: usize) {
        match self {
            FlashOp::Read(o) => o.read_length(),
            FlashOp::FastRead(o) => o.read_length(),
            FlashOp::SectorErase(o) => o.read_length(),
            FlashOp::BlockErase32K(o) => o.read_length(),
            FlashOp::ChipErase(o) => o.read_length(),
            FlashOp::ReadStatus(o) => o.read_length(),
            FlashOp::WriteEnable(o) => o.read_length(),
            FlashOp::WriteDisable(o) => o.read_length(),
            FlashOp::ByteProgram(o) => o.read_length(),
            FlashOp::ReadID(o) => o.read_length(),
        }
    }
}

impl OpCode<u8> for FlashOp {
    open spec fn spec_op(&self) -> u8 {
        match self {
            FlashOp::Read(o) => o.spec_op(),
            FlashOp::FastRead(o) => o.spec_op(),
            FlashOp::SectorErase(o) => o.spec_op(),
            FlashOp::BlockErase32K(o) => o.spec_op(),
            FlashOp::ChipErase(o) => o.spec_op(),
            FlashOp::ReadStatus(o) => o.spec_op(),
            FlashOp::WriteEnable(o) => o.spec_op(),
            FlashOp::WriteDisable(o) => o.spec_op(),
            FlashOp::ByteProgram(o) => o.spec_op(),
            FlashOp::ReadID(o) => o.spec_op(),
        }
    }

    fn op(&self) -> (r: u8) {
        match self {
            FlashOp::Read(o) => o.op(),
            FlashOp::FastRead(o) => o.op(),
            FlashOp::SectorErase(o) => o.op(),
            FlashOp::BlockErase32K(o) => o.op(),
            FlashOp::ChipErase(o) => o.op(),
            FlashOp::ReadStatus(o) => o.op(),
            FlashOp::WriteEnable(o) => o.op(),
            FlashOp::WriteDisable(o) => o.op(),
            FlashOp::ByteProgram(o) => o.op(),
            FlashOp::ReadID(o) => o.op(),
        }
    }
}

/// The address bytes of an operation that targets a location; empty for
/// the others.
pub open spec fn address_field(op: FlashOp) -> Seq<u8> {
    match op {
        FlashOp::Read(o) => o.addr@,
        FlashOp::FastRead(o) => o.addr@,
        FlashOp::SectorErase(o) => o.addr@,
        FlashOp::BlockErase32K(o) => o.addr@,
        FlashOp::ByteProgram(o) => o.addr@,
        _ => Seq::empty(),
    }
}

/// The bytes that follow the address: the dummy byte of a fast read, the
/// payload of a byte program, the two zero bytes and the mode of a read-ID.
pub open spec fn trailing_field(op: FlashOp) -> Seq<u8> {
    match op {
        FlashOp::FastRead(_) => seq![0x00u8],
        FlashOp::ByteProgram(o) => seq![o.data],
        FlashOp::ReadID(o) => seq![0x00u8, 0x00u8, o.mode.spec_byte()],
        _ => Seq::empty(),
    }
}

/// The operation code of each kind.
pub open spec fn opcode_of(op: FlashOp) -> u8 {
    match op {
        FlashOp::Read(_) => 0x03u8,
        FlashOp::FastRead(_) => 0x0Bu8,
        FlashOp::SectorErase(_) => 0x20u8,
        FlashOp::BlockErase32K(_) => 0x52u8,
        FlashOp::ChipErase(_) => 0x60u8,
        FlashOp::ReadStatus(_) => 0x05u8,
        FlashOp::WriteEnable(_) => 0x06u8,
        FlashOp::WriteDisable(_) => 0x04u8,
        FlashOp::ByteProgram(_) => 0x02u8,
        FlashOp::ReadID(_) => 0x90u8,
    }
}

/// Every command is the kind's operation code, then the address for the
/// kinds that target a location, then the kind's trailing bytes; so it is
/// one byte long plus three for an address plus up to three more.
pub proof fn lemma_command_layout(op: FlashOp)
    ensures
        op.spec_op() == opcode_of(op),
        op.spec_command() == seq![opcode_of(op)] + address_field(op) + trailing_field(op),
        op.spec_command().len() == 1 + address_field(op).len() + trailing_field(op).len(),
        address_field(op).len() == 0 || address_field(op).len() == 3,
        trailing_field(op).len() <= 3,
{
    assert(op.spec_command() =~= seq![opcode_of(op)] + address_field(op) + trailing_field(op));
}

/// A read or fast read reads back the length it was given; a status read
/// one byte, a read-ID two, every other kind nothing.
pub proof fn lemma_read_length_table(op: FlashOp)
    ensures
        op.spec_read_length() == match op {
            FlashOp::Read(o) => o.read_length,
            FlashOp::FastRead(o) => o.read_length,
            FlashOp::ReadStatus(_) => 1usize,
            FlashOp::ReadID(_) => 2usize,
            _ => 0usize,
        },
{
}

} // verus!
