//! What decoding gives back of an encoded packet, and how the points of an
//! I/O list are sorted.
use vstd::prelude::*;
use crate::model::wire::{be16_bytes, be16_value, be64_bytes, lemma_be16_roundtrip, lemma_be64_roundtrip, lemma_be64_read_one_early, lemma_magic_bytes};
use crate::model::checksum::modbus_crc;
use crate::model::packet::{Header, HEADER_LEN, Protocol, DccPacket, DccPacketBody};
use crate::model::dcc::Dcc;
use crate::model::io::{chunk_slot, io_chunk, points_in, IoSlot, IoType, IO, DI, DO, AI, AO, VIA, VIR, VO};

verus! {

/// The message id that `decode` reads from a frame with header `h`: the
/// reader starts one byte early, so the sub-protocol lands in the top byte
/// and the last byte of the message id is lost.
pub open spec fn misread_msg_id(h: Header) -> u64 {
    ((h.sub_protocol as u64) << 56u64) | (h.msg_id >> 8u64)
}

/// The header that `decode` reads from the frame of a packet with header `h`.
pub open spec fn header_read_back(h: Header) -> Header {
    Header { msg_id: misread_msg_id(h), ..h }
}

/// The layout of an encoded frame: magic, length, header fields, body,
/// checksum.
proof fn lemma_frame_layout(p: DccPacket)
    ensures
        ({
            let e = p.spec_encode();
            let f = p.spec_frame();
            let body = p.body.spec_encode();
            let h = p.header;
            &&& f.len() == HEADER_LEN + body.len()
            &&& e.len() == f.len() + 2
            &&& e.subrange(0, e.len() - 2) == f
            &&& e.subrange(0, 2) == be16_bytes(0xfefe)
            &&& e.subrange(2, 4) == be16_bytes((body.len() + HEADER_LEN) as u16)
            &&& e.subrange(2, HEADER_LEN as int) == be16_bytes((body.len() + HEADER_LEN) as u16)
                + seq![h.version, h.device_type] + be64_bytes(h.device_id) + seq![
                h.module,
                h.module_id,
                h.protocol,
                h.sub_protocol,
            ] + be64_bytes(h.msg_id)
            &&& e.subrange(HEADER_LEN as int, e.len() - 2) == body
            &&& e.subrange(e.len() - 2, e.len() as int) == be16_bytes(modbus_crc(f))
        }),
{
    let e = p.spec_encode();
    let f = p.spec_frame();
    let body = p.body.spec_encode();
    let h = p.header;
    assert(e.subrange(0, e.len() - 2) =~= f);
    assert(e.subrange(0, 2) =~= be16_bytes(0xfefe));
    assert(e.subrange(2, 4) =~= be16_bytes((body.len() + HEADER_LEN) as u16));
    assert(e.subrange(2, HEADER_LEN as int) =~= be16_bytes((body.len() + HEADER_LEN) as u16)
        + seq![h.version, h.device_type] + be64_bytes(h.device_id) + seq![
        h.module,
        h.module_id,
        h.protocol,
        h.sub_protocol,
    ] + be64_bytes(h.msg_id));
    assert(e.subrange(HEADER_LEN as int, e.len() - 2) =~= body);
    assert(e.subrange(e.len() - 2, e.len() as int) =~= be16_bytes(modbus_crc(f)));
}

/// Every encoded packet is a frame that `decode` accepts: magic, and the
/// checksum of the rest in its last two bytes; its length field counts the
/// frame without the checksum.
pub proof fn law_encoded_frame_is_valid(p: DccPacket)
    ensures
        Dcc::frame_valid(p.spec_encode()),
        p.spec_encode().len() >= HEADER_LEN + 2,
        be16_value(p.spec_encode()[2], p.spec_encode()[3]) == p.spec_encode().len() - 2,
{
    let e = p.spec_encode();
    let f = p.spec_frame();
    lemma_frame_layout(p);
    lemma_magic_bytes();
    assert(e[0] == e.subrange(0, 2)[0]);
    assert(e[1] == e.subrange(0, 2)[1]);
    let c = modbus_crc(f);
    lemma_be16_roundtrip(c);
    assert(e[e.len() - 2] == e.subrange(e.len() - 2, e.len() as int)[0]);
    assert(e[e.len() - 1] == e.subrange(e.len() - 2, e.len() as int)[1]);
    let l = (p.body.spec_encode().len() + HEADER_LEN) as u16;
    lemma_be16_roundtrip(l);
    assert(e[2] == e.subrange(2, 4)[0]);
    assert(e[3] == e.subrange(2, 4)[1]);
    assert(p.body.spec_encode().len() <= 8);
}

/// Decoding the frame of a packet reads back its header, but for the message
/// id (see `misread_msg_id`), and its body bytes.
pub proof fn law_decode_reads_back_encoding(p: DccPacket)
    ensures
        Dcc::header_of(p.spec_encode()) == header_read_back(p.header),
        Dcc::payload_of(p.spec_encode()) == p.body.spec_encode(),
{
    let e = p.spec_encode();
    let h = p.header;
    lemma_frame_layout(p);
    let hb = e.subrange(2, HEADER_LEN as int);
    assert(hb.subrange(4, 12) =~= be64_bytes(h.device_id));
    lemma_be64_roundtrip(h.device_id);
    assert(hb.subrange(15, 23) =~= seq![h.sub_protocol] + be64_bytes(h.msg_id).subrange(0, 7));
    lemma_be64_read_one_early(h.sub_protocol, h.msg_id);
    assert(Dcc::header_of(e) == header_read_back(h));
}

/// The frame of a packet that is not a heartbeat is always decoded: `decode`
/// returns on it, with the header read back and the body as text.
pub proof fn law_non_heartbeat_frames_decode(p: DccPacket)
    requires
        p.header.protocol != Protocol::HeartBeat.spec_code(),
    ensures
        Dcc::decodable(p.spec_encode()),
        Dcc::frame_valid(p.spec_encode()),
        Dcc::header_of(p.spec_encode()).protocol != Protocol::HeartBeat.spec_code(),
{
    law_encoded_frame_is_valid(p);
    law_decode_reads_back_encoding(p);
}

} // verus!

verus! {

/// The number of the first `n` chunks of `value` whose type is known.
pub open spec fn known_chunks(value: Seq<u8>, n: nat) -> nat
    decreases n,
{
    if n == 0 {
        0
    } else {
        known_chunks(value, (n - 1) as nat) + if chunk_slot(io_chunk(value, n - 1)) is Ignored {
            0nat
        } else {
            1nat
        }
    }
}

/// The total number of points in the seven lists built from the first `n`
/// chunks of `value`.
pub open spec fn listed_points(value: Seq<u8>, n: nat) -> nat {
    points_in::<DI>(value, n, IoSlot::Di).len() + points_in::<DO>(value, n, IoSlot::Do).len()
        + points_in::<AI>(value, n, IoSlot::Ai).len() + points_in::<AO>(value, n, IoSlot::Ao).len()
        + points_in::<VIA>(value, n, IoSlot::Via).len() + points_in::<VIR>(
        value,
        n,
        IoSlot::Vir,
    ).len() + points_in::<VO>(value, n, IoSlot::Vo).len()
}

/// Parsing an I/O list loses no point of a known type and lists none twice:
/// every chunk of a known type is in exactly one of the seven lists.
pub proof fn law_each_known_point_listed_once(value: Seq<u8>, n: nat)
    ensures
        listed_points(value, n) == known_chunks(value, n),
    decreases n,
{
    if n > 0 {
        law_each_known_point_listed_once(value, (n - 1) as nat);
    }
}

} // verus!

verus! {

/// A point read from a four-byte chunk has the chunk's second byte as its
/// index and the chunk's last two bytes, most significant first, as its raw
/// value; digital points show that raw value as their value too.
pub proof fn law_points_read_chunk_bytes(c: Seq<u8>)
    ensures
        DI::spec_parse(c).index == c[1] && DI::spec_parse(c).origin_value == be16_value(c[2], c[3])
            && DI::spec_parse(c).parse_value == be16_value(c[2], c[3]),
        DO::spec_parse(c).index == c[1] && DO::spec_parse(c).origin_value == be16_value(c[2], c[3])
            && DO::spec_parse(c).parse_value == be16_value(c[2], c[3]),
        AI::spec_parse(c).index == c[1] && AI::spec_parse(c).origin_value == be16_value(c[2], c[3]),
        AO::spec_parse(c).index == c[1] && AO::spec_parse(c).origin_value == be16_value(c[2], c[3]),
        VIA::spec_parse(c).index == c[1] && VIA::spec_parse(c).origin_value == be16_value(c[2], c[3]),
        VIR::spec_parse(c).index == c[1] && VIR::spec_parse(c).origin_value == be16_value(c[2], c[3]),
        VO::spec_parse(c).index == c[1] && VO::spec_parse(c).origin_value == be16_value(c[2], c[3]),
{
}

/// Every point in a list built from an I/O list is the point read from one
/// of its chunks, a chunk that goes to that list.
pub proof fn law_listed_points_come_from_chunks<T: IO>(value: Seq<u8>, n: nat, slot: IoSlot, j: int)
    requires
        0 <= j < points_in::<T>(value, n, slot).len(),
    ensures
        exists|k: int|
            0 <= k < n && chunk_slot(#[trigger] io_chunk(value, k)) == slot && points_in::<T>(value, n, slot)[j]
                == T::spec_parse(io_chunk(value, k)),
    decreases n,
{
    let before = points_in::<T>(value, (n - 1) as nat, slot);
    if j < before.len() {
        law_listed_points_come_from_chunks::<T>(value, (n - 1) as nat, slot, j);
        let k = choose|k: int|
            0 <= k < n - 1 && chunk_slot(#[trigger] io_chunk(value, k)) == slot && before[j]
                == T::spec_parse(io_chunk(value, k));
        assert(points_in::<T>(value, n, slot)[j] == before[j]);
    } else {
        assert(chunk_slot(io_chunk(value, n - 1)) == slot);
    }
}

/// A command carries the raw value of its point, most significant byte
/// first: the parse value of a digital output, the raw value of an analog
/// or voltage output. In the frame, these are the bytes after the header.
pub proof fn law_commands_carry_raw_value(
    d: DO,
    a: AO,
    v: VO,
    device_id: u64,
    version: u8,
    msg_id: u64,
)
    ensures
        DccPacketBody::DoCtr(d).spec_encode() == be16_bytes(d.parse_value),
        DccPacketBody::AoCtr(a).spec_encode() == be16_bytes(a.origin_value),
        DccPacketBody::VoCtr(v).spec_encode() == be16_bytes(v.origin_value),
        Dcc::payload_of(
            DccPacket::spec_command(IoType::DO, d.index, DccPacketBody::DoCtr(d), device_id, version, msg_id).spec_encode(),
        ) == be16_bytes(d.parse_value),
        Dcc::payload_of(
            DccPacket::spec_command(IoType::AO, a.index, DccPacketBody::AoCtr(a), device_id, version, msg_id).spec_encode(),
        ) == be16_bytes(a.origin_value),
        Dcc::payload_of(
            DccPacket::spec_command(IoType::VO, v.index, DccPacketBody::VoCtr(v), device_id, version, msg_id).spec_encode(),
        ) == be16_bytes(v.origin_value),
{
    law_decode_reads_back_encoding(
        DccPacket::spec_command(IoType::DO, d.index, DccPacketBody::DoCtr(d), device_id, version, msg_id),
    );
    law_decode_reads_back_encoding(
        DccPacket::spec_command(IoType::AO, a.index, DccPacketBody::AoCtr(a), device_id, version, msg_id),
    );
    law_decode_reads_back_encoding(
        DccPacket::spec_command(IoType::VO, v.index, DccPacketBody::VoCtr(v), device_id, version, msg_id),
    );
}

/// Taking in a heartbeat replaces a device's points with the heartbeat's,
/// and keeps its address, ids and version; any other packet leaves the
/// device as it was.
pub proof fn law_heartbeat_refreshes_points(d: Dcc, p: DccPacket)
    ensures
        p.body matches DccPacketBody::HeartBeat(io) ==> {
            let u = Dcc::spec_updated(d, p);
            &&& u.io_data == io
            &&& u.addr == d.addr
            &&& u.device_type == d.device_type
            &&& u.device_id == d.device_id
            &&& u.version == d.version
        },
        !(p.body is HeartBeat) ==> Dcc::spec_updated(d, p) == d,
{
}

/// `decode` returns on every input but two bytes, a frame too short for a
/// header, and a heartbeat frame whose point list is empty, counts 64 points
/// or more, or holds fewer bytes than its count needs: a heartbeat list
/// longer than its count needs is decoded.
pub proof fn law_decodable_inputs(d: Seq<u8>)
    ensures
        d.len() != 2 && !Dcc::frame_valid(d) ==> Dcc::decodable(d),
        ({
            let v = d.subrange(HEADER_LEN as int, d.len() - 2);
            Dcc::frame_valid(d) && d.len() >= HEADER_LEN + 2 && (d[16] == 1 ==> v.len() >= 1 && v[0] < 64
                && v.len() >= 4 * (v[0] as int) + 1) ==> Dcc::decodable(d)
        }),
        Dcc::decodable(d) ==> d.len() != 2,
        Dcc::decodable(d) && Dcc::frame_valid(d) ==> d.len() >= HEADER_LEN + 2,
{
    if Dcc::frame_valid(d) && d.len() >= HEADER_LEN + 2 {
        assert(Dcc::header_of(d).protocol == d[16]);
    }
}

} // verus!

verus! {

/// A heartbeat reply made at time `now` carries `now`, most significant byte
/// first, right after its header, and the header it answers is read back
/// from it (but for the message id, see `misread_msg_id`).
pub proof fn law_reply_carries_its_time(h: Header, now: u64)
    ensures
        Dcc::payload_of(Dcc::spec_reply(h, now).spec_encode()) == be64_bytes(now),
        Dcc::header_of(Dcc::spec_reply(h, now).spec_encode()) == header_read_back(h),
{
    law_decode_reads_back_encoding(Dcc::spec_reply(h, now));
}

} // verus!
