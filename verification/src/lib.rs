//! CANIOT controller library: protocol frames, device identifiers, payload
//! encodings of the board classes, attribute tables, device emulation and
//! the bookkeeping of CAN interfaces.
pub mod bus;
pub mod caniot;
