//! Messages between the user interface and the backend.
use vstd::prelude::*;
use crate::model::packet::{DccCmd, DccPacket};

verus! {

/// A request of the user interface to the backend.
#[derive(Debug)]
pub enum ToBackend {
    Refresh,
    SetInterval(u32),
    StockAdd(String),
    StockDel(String),
    DccCmd(String, DccCmd),
}

/// A report of the backend to the user interface: a packet received from
/// the device at the given address.
#[derive(Debug)]
pub enum ToFrontend {
    DccPacket(String, DccPacket),
}

} // verus!
