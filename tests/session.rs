use ftdi_mpsse::MpsseCmdBuilder;
use ftdi_spi::flash_cmds::common::{
    ByteProgram, FastRead, FlashOp, Read, ReadID, ReadIDMode, ReadStatus, SectorErase,
    WriteEnable,
};
use ftdi_spi::flash_cmds::SpiSession;
use ftdi_spi::spi::{
    compile_session, init_command, read_write_command, take_response, Error, MAX_LENGTH,
};

#[test]
fn issue_frames_one_operation() {
    let op = ReadStatus;
    let b = op.issue(MpsseCmdBuilder::new());
    assert_eq!(
        b.as_slice(),
        &[0x80, 0x00, 0xFB, 0x11, 0x00, 0x00, 0x05, 0x20, 0x00, 0x00, 0x80, 0x08, 0xFB]
    );
}

#[test]
fn empty_session_is_empty() {
    let ops: Vec<FlashOp> = Vec::new();
    let s = compile_session(&ops).unwrap();
    assert!(s.cmds.as_slice().is_empty());
    assert_eq!(s.read_length, 0);
}

#[test]
fn read_id_session() {
    let ops = [ReadID { mode: ReadIDMode::ManufacturerDevice }];
    let s = compile_session(&ops).unwrap();
    assert_eq!(s.read_length, 2);
    assert_eq!(
        s.cmds.as_slice(),
        &[
            0x80, 0x00, 0xFB, 0x11, 0x03, 0x00, 0x90, 0x00, 0x00, 0x00, 0x20, 0x01, 0x00, 0x80,
            0x08, 0xFB
        ]
    );
    let response = take_response(s.read_length, vec![0xEF, 0x40]).unwrap();
    assert_eq!(response, vec![0xEF, 0x40]);
    assert_eq!(ops[0].ids(&response), (0xEF, 0x40));
}

#[test]
fn sector_erase_session_has_no_read_phase() {
    let ops = [SectorErase { addr: [0x00, 0x10, 0x00] }];
    let s = compile_session(&ops).unwrap();
    assert_eq!(s.read_length, 0);
    assert_eq!(
        s.cmds.as_slice(),
        &[0x80, 0x00, 0xFB, 0x11, 0x03, 0x00, 0x20, 0x00, 0x10, 0x00, 0x80, 0x08, 0xFB]
    );
}

#[test]
fn write_enable_then_byte_program_session() {
    let ops = [
        FlashOp::WriteEnable(WriteEnable),
        FlashOp::ByteProgram(ByteProgram { addr: [0x00, 0x00, 0x10], data: 0xAB }),
    ];
    let s = compile_session(&ops).unwrap();
    assert_eq!(s.read_length, 0);
    assert_eq!(
        s.cmds.as_slice(),
        &[
            0x80, 0x00, 0xFB, 0x11, 0x00, 0x00, 0x06, 0x80, 0x08, 0xFB, 0x80, 0x00, 0xFB, 0x11,
            0x04, 0x00, 0x02, 0x00, 0x00, 0x10, 0xAB, 0x80, 0x08, 0xFB
        ]
    );
}

#[test]
fn total_read_length_is_the_sum() {
    let ops = [
        FlashOp::ReadStatus(ReadStatus),
        FlashOp::Read(Read { addr: [0, 0, 0], read_length: 256 }),
        FlashOp::FastRead(FastRead { addr: [0, 1, 0], read_length: 10 }),
        FlashOp::ReadID(ReadID { mode: ReadIDMode::DeviceManufacturer }),
        FlashOp::WriteEnable(WriteEnable),
    ];
    let s = compile_session(&ops).unwrap();
    assert_eq!(s.read_length, 1 + 256 + 10 + 2);
}

#[test]
fn read_length_encoding_in_session() {
    let ops = [Read { addr: [0x00, 0x00, 0x00], read_length: 256 }];
    let s = compile_session(&ops).unwrap();
    assert_eq!(
        s.cmds.as_slice(),
        &[
            0x80, 0x00, 0xFB, 0x11, 0x03, 0x00, 0x03, 0x00, 0x00, 0x00, 0x20, 0xFF, 0x00, 0x80,
            0x08, 0xFB
        ]
    );
}

#[test]
fn operation_at_capacity_compiles() {
    let ops = [Read { addr: [0, 0, 0], read_length: MAX_LENGTH - 4 }];
    let s = compile_session(&ops).unwrap();
    assert_eq!(s.read_length, 65532);
    let ops = [FastRead { addr: [0, 0, 0], read_length: MAX_LENGTH - 5 }];
    assert!(compile_session(&ops).is_ok());
}

#[test]
fn operation_over_capacity_is_refused() {
    let ops = [Read { addr: [0, 0, 0], read_length: MAX_LENGTH - 3 }];
    assert_eq!(compile_session(&ops).err(), Some(Error::BufferLengthExceeded));
    let ops = [
        FlashOp::WriteEnable(WriteEnable),
        FlashOp::FastRead(FastRead { addr: [0, 0, 0], read_length: MAX_LENGTH - 4 }),
    ];
    assert_eq!(compile_session(&ops).err(), Some(Error::BufferLengthExceeded));
    let ops = [Read { addr: [0, 0, 0], read_length: usize::MAX }];
    assert_eq!(compile_session(&ops).err(), Some(Error::BufferLengthExceeded));
}

#[test]
fn echoed_response_keeps_its_length() {
    let ops = [FlashOp::Read(Read { addr: [0, 0, 0], read_length: 5 })];
    let s = compile_session(&ops).unwrap();
    let echo = vec![1u8, 2, 3, 4, 5];
    assert_eq!(take_response(s.read_length, echo.clone()).unwrap(), echo);
}

#[test]
fn short_response_is_a_device_error() {
    let ops = [ReadStatus];
    let s = compile_session(&ops).unwrap();
    assert_eq!(take_response(s.read_length, Vec::new()).err(), Some(Error::FDTIErr));
    assert_eq!(take_response(s.read_length, vec![1, 2]).err(), Some(Error::FDTIErr));
}

#[test]
fn submission_ends_with_send_immediate() {
    let ops = [WriteEnable];
    let s = compile_session(&ops).unwrap();
    let b = s.submission();
    assert_eq!(
        b.as_slice(),
        &[0x80, 0x00, 0xFB, 0x11, 0x00, 0x00, 0x06, 0x80, 0x08, 0xFB, 0x87]
    );
}

#[test]
fn init_command_releases_chip_select() {
    assert_eq!(init_command().as_slice(), &[0x80, 0x08, 0xFB, 0x87]);
}

#[test]
fn read_write_command_frames_data() {
    let b = read_write_command(&[0xDE, 0xAD]).unwrap();
    assert_eq!(b.as_slice(), &[0x31, 0x01, 0x00, 0xDE, 0xAD, 0x87]);
    assert_eq!(read_write_command(&[]).unwrap().as_slice(), &[0x87]);
}

#[test]
fn read_write_command_refuses_oversized_data() {
    let data = vec![0u8; MAX_LENGTH + 1];
    assert_eq!(read_write_command(&data).err(), Some(Error::BufferLengthExceeded));
    let data = vec![0u8; MAX_LENGTH];
    let b = read_write_command(&data).unwrap();
    assert_eq!(&b.as_slice()[..3], &[0x31, 0xFF, 0xFF]);
    assert_eq!(b.as_slice().len(), 3 + MAX_LENGTH + 1);
}
