//! DCC packets: header, body, and their encoding into frames.
//!
//! A frame is the magic `0xfe 0xfe`, the length of the frame without its
//! checksum (header and body), the 24 header bytes after the length, the
//! body, and the CRC-16/MODBUS checksum of all that, most significant byte
//! first.
use vstd::prelude::*;
use std::time::{SystemTime, UNIX_EPOCH};
use crate::model::wire::{be16_bytes, be64_bytes, be64_value, read_be64, put_u8, put_u16, put_u64, put};
use crate::model::checksum::{modbus_crc, modbus_checksum};
use crate::model::io::{IO, IoType, IoData, DO, AO, VO};

verus! {

/// The size of the frame before the body: magic, length and header fields.
pub const HEADER_LEN: usize = 26;

/// The header of a packet.
#[derive(Debug, Clone, Copy)]
pub struct Header {
    pub version: u8,
    pub device_type: u8,
    pub device_id: u64,
    pub module: u8,
    pub module_id: u8,
    pub protocol: u8,
    pub sub_protocol: u8,
    pub msg_id: u64,
}

impl Header {
    /// The header that the bytes `h` describe, read as `try_from` reads them:
    /// `h` starts at the length field of a frame, so the version is `h[2]`;
    /// the message id is read from `h[15..23]`, one byte before where
    /// `encode` writes it.
    pub open spec fn spec_from_bytes(h: Seq<u8>) -> Header {
        Header {
            version: h[2],
            device_type: h[3],
            device_id: be64_value(h.subrange(4, 12)),
            module: h[12],
            module_id: h[13],
            protocol: h[14],
            sub_protocol: h[15],
            msg_id: be64_value(h.subrange(15, 23)),
        }
    }

    /// Reads a header from the frame bytes that follow the magic.
    pub fn try_from(header: &[u8]) -> (r: Result<Header, ()>)
        requires
            header@.len() >= 23,
        ensures
            r == Ok::<Header, ()>(Header::spec_from_bytes(header@)),
    {
        Ok(
            Header {
                version: header[2],
                device_type: header[3],
                device_id: read_be64(header, 4),
                module: header[12],
                module_id: header[13],
                protocol: header[14],
                sub_protocol: header[15],
                msg_id: read_be64(header, 15),
            },
        )
    }
}

/// The protocol codes of packets.
#[derive(Debug, Clone, Copy)]
pub enum Protocol {
    Boardcast,
    HeartBeat,
    Cmd,
    Data,
}

impl Protocol {
    /// The code of this protocol in a header.
    pub open spec fn spec_code(self) -> u8 {
        match self {
            Protocol::Boardcast => 0,
            Protocol::HeartBeat => 1,
            Protocol::Cmd => 2,
            Protocol::Data => 3,
        }
    }

    /// The code of this protocol in a header.
    pub fn code(&self) -> (r: u8)
        ensures
            r == self.spec_code(),
    {
        match self {
            Protocol::Boardcast => 0,
            Protocol::HeartBeat => 1,
            Protocol::Cmd => 2,
            Protocol::Data => 3,
        }
    }
}

/// A command for a device's output.
#[derive(Debug, Clone, Copy)]
pub enum DccCmd {
    DO(DO),
    AO(AO),
    VO(VO),
    T485,
}

/// A packet: header and body.
#[derive(Debug, Clone)]
pub struct DccPacket {
    pub header: Header,
    pub body: DccPacketBody,
}

/// The body of a packet.
#[derive(Debug, Clone)]
pub enum DccPacketBody {
    HeartBeat(IoData),
    HeartBeatRepl(u64),
    DoCtr(DO),
    AoCtr(AO),
    VoCtr(VO),
    UnKnow(String),
}

impl DccPacketBody {
    /// The bytes of the body in a frame: a heartbeat reply carries its time,
    /// a command the raw value of its point; heartbeats and unknown bodies
    /// are sent empty.
    pub open spec fn spec_encode(&self) -> Seq<u8> {
        match self {
            DccPacketBody::HeartBeatRepl(time) => be64_bytes(*time),
            DccPacketBody::DoCtr(io) => be16_bytes(io.spec_origin()),
            DccPacketBody::AoCtr(io) => be16_bytes(io.spec_origin()),
            DccPacketBody::VoCtr(io) => be16_bytes(io.spec_origin()),
            _ => Seq::empty(),
        }
    }

    /// The bytes of the body in a frame.
    pub fn encode(&self) -> (r: Vec<u8>)
        ensures
            r@ == self.spec_encode(),
            r@.len() <= 8,
    {
        let mut buf = vec![];
        match self {
            DccPacketBody::HeartBeat(_) => {},
            DccPacketBody::HeartBeatRepl(time) => {
                put_u64(&mut buf, *time);
            },
            DccPacketBody::DoCtr(io) => {
                put_u16(&mut buf, io.origin());
            },
            DccPacketBody::AoCtr(io) => {
                put_u16(&mut buf, io.origin());
            },
            DccPacketBody::VoCtr(io) => {
                put_u16(&mut buf, io.origin());
            },
            DccPacketBody::UnKnow(_) => {},
        }
        assert(buf@ =~= self.spec_encode());
        buf
    }
}

impl DccPacket {
    /// The frame without its checksum.
    pub open spec fn spec_frame(&self) -> Seq<u8> {
        let h = self.header;
        let body = self.body.spec_encode();
        be16_bytes(0xfefe) + be16_bytes((body.len() + HEADER_LEN) as u16) + seq![
            h.version,
            h.device_type,
        ] + be64_bytes(h.device_id) + seq![h.module, h.module_id, h.protocol, h.sub_protocol]
            + be64_bytes(h.msg_id) + body
    }

    /// The frame of this packet: the frame without checksum, then its
    /// checksum.
    pub open spec fn spec_encode(&self) -> Seq<u8> {
        self.spec_frame() + be16_bytes(modbus_crc(self.spec_frame()))
    }

    /// Seconds since the Unix epoch, used as message id and reply time; an
    /// error when the system clock is set before the epoch.
    pub(crate) fn msg_id() -> Result<u64, ClockError> {
        match seconds_since_epoch() {
            Some(secs) => Ok(secs),
            None => Err(ClockError),
        }
    }

    /// Encodes the packet into a frame. The packet is left as it was.
    pub fn encode(&mut self) -> (r: Vec<u8>)
        ensures
            *final(self) == *old(self),
            r@ == old(self).spec_encode(),
    {
        let body_data = self.body.encode();
        let l = body_data.len() + HEADER_LEN;
        let mut buf = vec![];
        put_u16(&mut buf, 0xfefeu16);
        put_u16(&mut buf, l as u16);
        put_u8(&mut buf, self.header.version);
        put_u8(&mut buf, self.header.device_type);
        put_u64(&mut buf, self.header.device_id);
        put_u8(&mut buf, self.header.module);
        put_u8(&mut buf, self.header.module_id);
        put_u8(&mut buf, self.header.protocol);
        put_u8(&mut buf, self.header.sub_protocol);
        put_u64(&mut buf, self.header.msg_id);
        put(&mut buf, body_data.as_slice());
        assert(buf@ =~= self.spec_frame());
        let crc = modbus_checksum(buf.as_slice());
        put_u16(&mut buf, crc);
        buf
    }

    /// The command packet for the point with type `module` and index
    /// `module_id`, carrying `body`.
    pub open spec fn spec_command(
        module: IoType,
        module_id: u8,
        body: DccPacketBody,
        device_id: u64,
        version: u8,
        msg_id: u64,
    ) -> DccPacket {
        DccPacket {
            header: Header {
                version: version,
                device_type: 0,
                device_id: device_id,
                module: module.spec_code(),
                module_id: module_id,
                protocol: Protocol::Cmd.spec_code(),
                sub_protocol: 2,
                msg_id: msg_id,
            },
            body: body,
        }
    }

    /// The command setting digital output `io`, with message id `msg_id`.
    pub fn do_ctr_at(io: DO, device_id: &u64, version: &u8, msg_id: u64) -> (r: Self)
        ensures
            r == Self::spec_command(IoType::DO, io.index, DccPacketBody::DoCtr(io), *device_id, *version, msg_id),
    {
        Self {
            header: Header {
                version: *version,
                device_type: 0,
                device_id: *device_id,
                module: IoType::DO.code(),
                module_id: io.index,
                protocol: Protocol::Cmd.code(),
                sub_protocol: 2u8,
                msg_id: msg_id,
            },
            body: DccPacketBody::DoCtr(io),
        }
    }

    /// The command setting analog output `io`, with message id `msg_id`.
    pub fn ao_ctr_at(io: AO, device_id: &u64, version: &u8, msg_id: u64) -> (r: Self)
        ensures
            r == Self::spec_command(IoType::AO, io.index, DccPacketBody::AoCtr(io), *device_id, *version, msg_id),
    {
        Self {
            header: Header {
                version: *version,
                device_type: 0,
                device_id: *device_id,
                module: IoType::AO.code(),
                module_id: io.index,
                protocol: Protocol::Cmd.code(),
                sub_protocol: 2u8,
                msg_id: msg_id,
            },
            body: DccPacketBody::AoCtr(io),
        }
    }

    /// The command setting voltage output `io`, with message id `msg_id`.
    pub fn vo_ctr_at(io: VO, device_id: &u64, version: &u8, msg_id: u64) -> (r: Self)
        ensures
            r == Self::spec_command(IoType::VO, io.index, DccPacketBody::VoCtr(io), *device_id, *version, msg_id),
    {
        Self {
            header: Header {
                version: *version,
                device_type: 0,
                device_id: *device_id,
                module: IoType::VO.code(),
                module_id: io.index,
                protocol: Protocol::Cmd.code(),
                sub_protocol: 2u8,
                msg_id: msg_id,
            },
            body: DccPacketBody::VoCtr(io),
        }
    }

    /// The command setting digital output `io`; its message id is the
    /// current time in seconds; an error when the system clock is set before the epoch.
    pub fn do_ctr(io: DO, device_id: &u64, version: &u8) -> (r: Result<Self, ClockError>)
        ensures
            r matches Ok(p) ==> p == Self::spec_command(IoType::DO, io.index, DccPacketBody::DoCtr(io), *device_id, *version, p.header.msg_id),
    {
        let msg_id = Self::msg_id()?;
        Ok(Self::do_ctr_at(io, device_id, version, msg_id))
    }

    /// The command setting analog output `io`; its message id is the current
    /// time in seconds; an error when the system clock is set before the epoch.
    pub fn ao_ctr(io: AO, device_id: &u64, version: &u8) -> (r: Result<Self, ClockError>)
        ensures
            r matches Ok(p) ==> p == Self::spec_command(IoType::AO, io.index, DccPacketBody::AoCtr(io), *device_id, *version, p.header.msg_id),
    {
        let msg_id = Self::msg_id()?;
        Ok(Self::ao_ctr_at(io, device_id, version, msg_id))
    }

    /// The command setting voltage output `io`; its message id is the current
    /// time in seconds; an error when the system clock is set before the epoch.
    pub fn vo_ctr(io: VO, device_id: &u64, version: &u8) -> (r: Result<Self, ClockError>)
        ensures
            r matches Ok(p) ==> p == Self::spec_command(IoType::VO, io.index, DccPacketBody::VoCtr(io), *device_id, *version, p.header.msg_id),
    {
        let msg_id = Self::msg_id()?;
        Ok(Self::vo_ctr_at(io, device_id, version, msg_id))
    }
}

/// The system clock is set before the Unix epoch.
#[derive(Debug, Clone, Copy)]
pub struct ClockError;

/// `SystemTime::now()` measured from `UNIX_EPOCH` by `duration_since`, in
/// whole seconds (`Duration::as_secs`); `None` where `duration_since` fails,
/// which it does when the clock is set before the epoch. The value depends
/// on the clock, so nothing is stated of it.
#[verifier::external_body]
fn seconds_since_epoch() -> Option<u64> {
    match SystemTime::now().duration_since(UNIX_EPOCH) {
        Ok(elapsed) => Some(elapsed.as_secs()),
        Err(_) => None,
    }
}

} // verus!
