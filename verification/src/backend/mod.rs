//! The backend's decision on each request of the user interface. Listening
//! for devices, the channels and the loop that carries out the decision live
//! with the program.
pub mod message;

use vstd::prelude::*;
use crate::model::packet::DccCmd;
use self::message::ToBackend;

verus! {

/// What the backend does for a request.
#[derive(Debug)]
pub enum BackendAction {
    /// Nothing.
    Idle,
    /// Write the probe bytes `test` to the first device of the backend's own
    /// list.
    ProbeFirst,
    /// Hand the command to the connection of the device at the address.
    Forward(String, DccCmd),
}

/// The backend's decision on a request: a command is forwarded to the device
/// it names, adding a stock probes the first device, the other requests
/// change nothing.
pub fn route(msg: ToBackend) -> (r: BackendAction)
    ensures
        msg matches ToBackend::DccCmd(addr, cmd) ==> r matches BackendAction::Forward(a, c) && a == addr
            && c == cmd,
        msg is StockAdd ==> r is ProbeFirst,
        (msg is Refresh || msg is SetInterval || msg is StockDel) ==> r is Idle,
{
    match msg {
        ToBackend::Refresh => BackendAction::Idle,
        ToBackend::SetInterval(_) => BackendAction::Idle,
        ToBackend::StockAdd(_) => BackendAction::ProbeFirst,
        ToBackend::StockDel(_) => BackendAction::Idle,
        ToBackend::DccCmd(addr, cmd) => BackendAction::Forward(addr, cmd),
    }
}

} // verus!
