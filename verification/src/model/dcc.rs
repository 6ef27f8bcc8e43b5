//! The state the tool keeps of a connected device, and the decisions it makes
//! on the frames it receives and the commands it sends.
use vstd::prelude::*;
use std::collections::HashMap;
use crate::model::wire::be16_value;
use crate::model::checksum::{modbus_crc, modbus_checksum};
use crate::model::io::{IoData, IoType};
use crate::model::packet::{ClockError, Header, HEADER_LEN, Protocol, DccCmd, DccPacket, DccPacketBody};

verus! {

/// The text that `{:?}` gives for a byte slice.
pub uninterp spec fn debug_text(bytes: Seq<u8>) -> Seq<char>;

/// `format!("{:?}", bytes)` for a byte slice. The contract only says that the
/// text is a function of the bytes; its form (`[1, 2, 3]`) is left to std's
/// `Debug`.
#[verifier::external_body]
fn format_debug(bytes: &[u8]) -> (r: String)
    ensures
        r@ == debug_text(bytes@),
{
    format!("{:?}", bytes)
}

/// A connected device, as far as the frames tell of it.
#[derive(Debug)]
pub struct Dcc {
    pub addr: String,
    pub device_type: u8,
    pub device_id: u64,
    pub version: u8,
    pub io_data: IoData,
}

impl Default for Dcc {
    fn default() -> (r: Self)
        ensures
            r.addr@ == Seq::<char>::empty(),
            r.device_type == 0,
            r.device_id == 0,
            r.version == 0,
            r.io_data.is_empty(),
    {
        Self {
            addr: String::new(),
            version: 0,
            device_type: 0,
            device_id: 0,
            io_data: IoData::default(),
        }
    }
}

/// The message of the error that `decode` returns.
pub open spec fn crc_error_text() -> Seq<char> {
    "crc check error"@
}

impl Dcc {
    /// A device newly seen at `addr`: no points yet.
    pub fn connected(addr: String) -> (r: Self)
        ensures
            r.addr == addr,
            r.device_type == 0,
            r.device_id == 0,
            r.version == 0,
            r.io_data.is_empty(),
    {
        Dcc { addr: addr, ..Dcc::default() }
    }

    /// Takes in a packet received from the device: a heartbeat replaces the
    /// device's I/O points; other packets change nothing.
    pub fn update_from(&mut self, packet: DccPacket)
        ensures
            packet.body matches DccPacketBody::HeartBeat(io) ==> *final(self) == (Dcc {
                io_data: io,
                ..*old(self)
            }),
            !(packet.body is HeartBeat) ==> *final(self) == *old(self),
    {
        match packet.body {
            DccPacketBody::HeartBeat(io_data) => {
                self.io_data = io_data;
            },
            _ => {},
        }
    }

    /// The device after taking in `packet` (see `update_from`).
    pub open spec fn spec_updated(d: Dcc, packet: DccPacket) -> Dcc {
        match packet.body {
            DccPacketBody::HeartBeat(io) => Dcc { io_data: io, ..d },
            _ => d,
        }
    }

    /// `d` is a device first seen at `addr` that has taken in `packet`: its
    /// address, zero ids and version, and the points of `packet` if it is a
    /// heartbeat, none otherwise.
    pub open spec fn first_seen(d: Dcc, addr: String, packet: DccPacket) -> bool {
        &&& d.addr == addr
        &&& d.device_type == 0
        &&& d.device_id == 0
        &&& d.version == 0
        &&& packet.body matches DccPacketBody::HeartBeat(io) ==> d.io_data == io
        &&& !(packet.body is HeartBeat) ==> d.io_data.is_empty()
    }

    /// Files a packet received from the device at `addr` under its device
    /// id: a device not seen before is added, then the packet is taken in
    /// (see `update_from`). Other devices are left as they were.
    pub fn record_packet(devices: &mut HashMap<u64, Dcc>, addr: String, packet: DccPacket)
        ensures
            final(devices)@.dom() == old(devices)@.dom().insert(packet.header.device_id),
            forall|k: u64|
                k != packet.header.device_id && #[trigger] old(devices)@.contains_key(k)
                    ==> final(devices)@[k] == old(devices)@[k],
            old(devices)@.contains_key(packet.header.device_id) ==> final(devices)@[packet.header.device_id]
                == Self::spec_updated(old(devices)@[packet.header.device_id], packet),
            old(devices)@.contains_key(packet.header.device_id) ==> (packet.body matches DccPacketBody::HeartBeat(io)
                ==> final(devices)@[packet.header.device_id] == (Dcc {
                io_data: io,
                ..old(devices)@[packet.header.device_id]
            })),
            old(devices)@.contains_key(packet.header.device_id) && !(packet.body is HeartBeat)
                ==> final(devices)@[packet.header.device_id] == old(devices)@[packet.header.device_id],
            !old(devices)@.contains_key(packet.header.device_id) ==> Self::first_seen(
                final(devices)@[packet.header.device_id],
                addr,
                packet,
            ),
    {
        broadcast use vstd::std_specs::hash::group_hash_axioms;

        let dev_id = packet.header.device_id;
        let mut dcc = match devices.remove(&dev_id) {
            Some(known) => known,
            None => Dcc::connected(addr),
        };
        dcc.update_from(packet);
        devices.insert(dev_id, dcc);
    }

    /// `d` is a frame: at least three bytes, the magic `0xfe 0xfe`, and its
    /// last two bytes are the checksum of the others, most significant first.
    pub open spec fn frame_valid(d: Seq<u8>) -> bool {
        &&& d.len() >= 3
        &&& d[0] == 0xfe
        &&& d[1] == 0xfe
        &&& modbus_crc(d.subrange(0, d.len() - 2)) == be16_value(d[d.len() - 2], d[d.len() - 1])
    }

    /// The header that `decode` reads from the frame `d`.
    pub open spec fn header_of(d: Seq<u8>) -> Header {
        Header::spec_from_bytes(d.subrange(2, HEADER_LEN as int))
    }

    /// The body bytes of the frame `d`: after the header, before the checksum.
    pub open spec fn payload_of(d: Seq<u8>) -> Seq<u8> {
        d.subrange(HEADER_LEN as int, d.len() - 2)
    }

    /// The inputs on which `decode` returns rather than panics: it panics on
    /// exactly two bytes, on a frame too short for a header, and on a
    /// heartbeat frame whose I/O list is empty, counts 64 points or more, or
    /// is shorter than its count says.
    pub open spec fn decodable(d: Seq<u8>) -> bool {
        &&& d.len() != 2
        &&& Self::frame_valid(d) ==> {
            &&& d.len() >= HEADER_LEN + 2
            &&& Self::header_of(d).protocol == Protocol::HeartBeat.spec_code() ==> {
                let v = Self::payload_of(d);
                &&& v.len() >= 1
                &&& v[0] < 64
                &&& IoData::complete(v)
            }
        }
    }

    /// `p` is the packet that `decode` builds from the frame `d`: the header
    /// read from it, and for a heartbeat the I/O points of its body, for any
    /// other protocol the `{:?}` text of its body bytes.
    pub open spec fn decoded_from(p: DccPacket, d: Seq<u8>) -> bool {
        &&& p.header == Self::header_of(d)
        &&& if p.header.protocol == Protocol::HeartBeat.spec_code() {
            p.body matches DccPacketBody::HeartBeat(io) && io.describes(Self::payload_of(d))
        } else {
            p.body matches DccPacketBody::UnKnow(text) && text@ == debug_text(Self::payload_of(d))
        }
    }

    /// Checks the magic and the checksum of a frame, as `decode` does: the
    /// checksum is computed only when the magic is there.
    fn check_frame(data: &[u8]) -> (r: bool)
        requires
            data@.len() >= 3,
        ensures
            r == Self::frame_valid(data@),
    {
        let n = data.len();
        let body = &data[0..n - 2];
        let crc_h = data[n - 2];
        let crc_low = data[n - 1];
        body[0] == 0xfe && data[1] == 0xfe && modbus_checksum(body) == ((crc_h as u16) << 8u16)
            | crc_low as u16
    }

    /// Decodes a received frame. Fails with "crc check error" when `data` is
    /// not a frame (see `frame_valid`).
    pub fn decode(data: &[u8]) -> (r: Result<DccPacket, &'static str>)
        requires
            Self::decodable(data@),
        ensures
            r is Ok <==> Self::frame_valid(data@),
            r matches Err(e) ==> e@ == crc_error_text(),
            r matches Ok(p) ==> Self::decoded_from(p, data@),
    {
        let n = data.len();
        if n < 2 || !Self::check_frame(data) {
            return Err("crc check error");
        }
        let body = &data[0..n - 2];
        let header = &body[2..HEADER_LEN];
        let h: Header = Header::try_from(header).expect("dcc header decode error");
        let rest = &body[HEADER_LEN..body.len()];
        proof {
            assert(header@ =~= data@.subrange(2, HEADER_LEN as int));
            assert(rest@ =~= Self::payload_of(data@));
        }
        let b = if h.protocol == Protocol::HeartBeat.code() {
            let io_data: IoData = IoData::try_from(rest).unwrap();
            DccPacketBody::HeartBeat(io_data)
        } else {
            DccPacketBody::UnKnow(format_debug(rest))
        };
        Ok(DccPacket { header: h, body: b })
    }

    /// Decodes a received frame where `decode` would return, and gives `None`
    /// on the inputs on which `decode` panics (see `decodable`).
    pub fn try_decode(data: &[u8]) -> (r: Option<Result<DccPacket, &'static str>>)
        ensures
            r is None <==> !Self::decodable(data@),
            r matches Some(Err(e)) ==> !Self::frame_valid(data@) && e@ == crc_error_text(),
            r matches Some(Ok(p)) ==> Self::frame_valid(data@) && Self::decoded_from(p, data@),
    {
        let n = data.len();
        if n == 2 {
            return None;
        }
        if n > 2 && Self::check_frame(data) {
            if n < HEADER_LEN + 2 {
                return None;
            }
            if data[16] == Protocol::HeartBeat.code() {
                proof {
                    assert(Self::header_of(data@).protocol == data@[16]);
                }
                if n < HEADER_LEN + 3 {
                    return None;
                }
                let count = data[HEADER_LEN];
                proof {
                    assert(Self::payload_of(data@)[0] == data@[HEADER_LEN as int]);
                }
                if count >= 64 || n - 2 - HEADER_LEN < 4 * (count as usize) + 1 {
                    return None;
                }
            }
        }
        Some(Self::decode(data))
    }

    /// The heartbeat reply with header `header` and time `now`.
    pub open spec fn spec_reply(header: Header, now: u64) -> DccPacket {
        DccPacket { header: header, body: DccPacketBody::HeartBeatRepl(now) }
    }

    /// The reply to a received packet at time `now`: a heartbeat is answered
    /// with a heartbeat reply carrying the same header and `now`; other
    /// packets get no reply.
    pub fn heartbeat_reply_at(packet: &DccPacket, now: u64) -> (r: Option<Vec<u8>>)
        ensures
            r is Some <==> packet.body is HeartBeat,
            r matches Some(bytes) ==> bytes@ == Self::spec_reply(packet.header, now).spec_encode(),
    {
        match &packet.body {
            DccPacketBody::HeartBeat(_) => {
                let mut reply = DccPacket {
                    header: packet.header,
                    body: DccPacketBody::HeartBeatRepl(now),
                };
                Some(reply.encode())
            },
            _ => None,
        }
    }

    /// The reply to a received packet, stamped with the current time in
    /// seconds: a heartbeat is answered, other packets are not. The clock is
    /// read only for a heartbeat; an error when it is set before the epoch.
    pub fn heartbeat_reply(packet: &DccPacket) -> (r: Result<Option<Vec<u8>>, ClockError>)
        ensures
            !(packet.body is HeartBeat) ==> r matches Ok(None),
            packet.body is HeartBeat ==> !(r matches Ok(None)),
            r matches Ok(Some(bytes)) ==> exists|now: u64|
                bytes@ == (#[trigger] Self::spec_reply(packet.header, now)).spec_encode(),
    {
        match &packet.body {
            DccPacketBody::HeartBeat(_) => {
                let now = DccPacket::msg_id()?;
                let r = Self::heartbeat_reply_at(packet, now);
                proof {
                    assert(r->0@ == Self::spec_reply(packet.header, now).spec_encode());
                }
                Ok(r)
            },
            _ => Ok(None),
        }
    }

    /// The frame that carries a user's command to a device, with device id
    /// and version 0; `T485` is not sent.
    pub open spec fn spec_command_packet(cmd: DccCmd, msg_id: u64) -> Option<DccPacket> {
        match cmd {
            DccCmd::DO(io) => Some(DccPacket::spec_command(IoType::DO, io.index, DccPacketBody::DoCtr(io), 0, 0, msg_id)),
            DccCmd::AO(io) => Some(DccPacket::spec_command(IoType::AO, io.index, DccPacketBody::AoCtr(io), 0, 0, msg_id)),
            DccCmd::VO(io) => Some(DccPacket::spec_command(IoType::VO, io.index, DccPacketBody::VoCtr(io), 0, 0, msg_id)),
            DccCmd::T485 => None,
        }
    }

    /// The frame to write for a user's command; its message id is the
    /// current time in seconds. `T485` gives no frame, and does not read the
    /// clock; an error when the clock is set before the epoch.
    pub fn command_frame(cmd: DccCmd) -> (r: Result<Option<Vec<u8>>, ClockError>)
        ensures
            cmd is T485 ==> r matches Ok(None),
            !(cmd is T485) ==> !(r matches Ok(None)),
            r matches Ok(Some(bytes)) ==> exists|msg_id: u64|
                #[trigger] Self::spec_command_packet(cmd, msg_id) matches Some(p) && bytes@ == p.spec_encode(),
    {
        let zero_id: u64 = 0;
        let zero_version: u8 = 0;
        match cmd {
            DccCmd::DO(do_ctr) => {
                let mut pkt = DccPacket::do_ctr(do_ctr, &zero_id, &zero_version)?;
                let data = pkt.encode();
                assert(Self::spec_command_packet(cmd, pkt.header.msg_id) == Some(pkt));
                Ok(Some(data))
            },
            DccCmd::AO(io) => {
                let mut pkt = DccPacket::ao_ctr(io, &zero_id, &zero_version)?;
                let data = pkt.encode();
                assert(Self::spec_command_packet(cmd, pkt.header.msg_id) == Some(pkt));
                Ok(Some(data))
            },
            DccCmd::VO(io) => {
                let mut pkt = DccPacket::vo_ctr(io, &zero_id, &zero_version)?;
                let data = pkt.encode();
                assert(Self::spec_command_packet(cmd, pkt.header.msg_id) == Some(pkt));
                Ok(Some(data))
            },
            DccCmd::T485 => Ok(None),
        }
    }
}

} // verus!
