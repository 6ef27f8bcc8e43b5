//! DCC packets: wire helpers, checksum, I/O points, packets and the device
//! connection state.
pub mod wire;
pub mod checksum;
pub mod io;
pub mod packet;
pub mod dcc;
pub mod laws;

pub use self::dcc::Dcc;
pub use self::io::{IO, IoType, IoData, DI, DO, AI, AO, VIA, VIR, VO};
pub use self::packet::{Header, Protocol, DccCmd, DccPacket, DccPacketBody};
