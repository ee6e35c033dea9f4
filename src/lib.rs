//! Encoding of serial-flash operations into the instruction stream of an
//! MPSSE USB-to-SPI bridge, and the batching of such operations into one
//! bridge transaction.
pub mod flash_cmds;
pub mod mpsse;
pub mod spi;
