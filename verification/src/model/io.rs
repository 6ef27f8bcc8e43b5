//! I/O points a device reports in its heartbeat, and the parser of the
//! heartbeat's I/O list.
//!
//! Each point travels as a four-byte chunk: type code, point index, and the
//! raw 16-bit value, most significant byte first. Analog points are shown to
//! users as scaled floating-point values; the library keeps the raw register
//! value, from which the scaled value is computed where it is displayed.
//! For analog points `origin` gives that raw value as held: a value set by a
//! user is scaled back to a raw value, with floating-point rounding, before
//! it is put into a point, so the library never sees the float.
use vstd::prelude::*;
use crate::model::wire::be16_value;

verus! {

/// The type codes of I/O points.
#[derive(Debug, Clone, Copy)]
pub enum IoType {
    DI,
    DO,
    AI,
    AO,
    T485,
    VI,
    VO,
}

impl IoType {
    /// The code of this type on the wire.
    pub open spec fn spec_code(self) -> u8 {
        match self {
            IoType::DI => 1,
            IoType::DO => 2,
            IoType::AI => 3,
            IoType::AO => 4,
            IoType::T485 => 5,
            IoType::VI => 7,
            IoType::VO => 8,
        }
    }

    /// The code of this type on the wire.
    pub fn code(&self) -> (r: u8)
        ensures
            r == self.spec_code(),
    {
        match self {
            IoType::DI => 1,
            IoType::DO => 2,
            IoType::AI => 3,
            IoType::AO => 4,
            IoType::T485 => 5,
            IoType::VI => 7,
            IoType::VO => 8,
        }
    }
}

/// The raw value of a point chunk: bytes 2 and 3, most significant first.
pub open spec fn chunk_raw(value: Seq<u8>) -> u16 {
    be16_value(value[2], value[3])
}

/// An I/O point: built from its four-byte chunk, and giving back the raw
/// value that a command for it carries.
pub trait IO: Sized {
    /// The point that the chunk `value` describes.
    spec fn spec_parse(value: Seq<u8>) -> Self;

    /// The raw value that a command for this point carries.
    spec fn spec_origin(&self) -> u16;

    /// Builds the point from its chunk.
    fn parse(value: &[u8]) -> (r: Self)
        requires
            value@.len() >= 4,
        ensures
            r == Self::spec_parse(value@),
    ;

    /// The raw value that a command for this point carries.
    fn origin(&self) -> (r: u16)
        ensures
            r == self.spec_origin(),
    ;

    /// The unit in which the point's value is shown; none unless the point
    /// says otherwise.
    fn unit() -> (r: &'static str)
        default_ensures
            r@ == ""@,
    {
        ""
    }

    fn encode() {
    }

    fn decode() {
    }
}

/// A digital input.
#[derive(Debug, Clone, Copy)]
pub struct DI {
    pub index: u8,
    pub origin_value: u16,
    pub parse_value: u16,
}

/// A digital output.
#[derive(Debug, Clone, Copy)]
pub struct DO {
    pub index: u8,
    pub origin_value: u16,
    pub parse_value: u16,
}

/// An analog current input (shown in mA as raw / 684).
#[derive(Debug, Clone, Copy)]
pub struct AI {
    pub index: u8,
    pub origin_value: u16,
}

/// An analog current output (shown in mA as raw / 1000).
#[derive(Debug, Clone, Copy)]
pub struct AO {
    pub index: u8,
    pub origin_value: u16,
}

/// A voltage input on one of the first three channels (shown in V as raw / 1000).
#[derive(Debug, Clone, Copy)]
pub struct VIA {
    pub index: u8,
    pub origin_value: u16,
}

/// A resistance input, on the channels from the fourth on (shown in Ω as
/// 10000 · raw / (3000 − raw)).
#[derive(Debug, Clone, Copy)]
pub struct VIR {
    pub index: u8,
    pub origin_value: u16,
}

/// A voltage output (shown in V as raw / 1000).
#[derive(Debug, Clone, Copy)]
pub struct VO {
    pub index: u8,
    pub origin_value: u16,
}

impl IO for DI {
    open spec fn spec_parse(value: Seq<u8>) -> Self {
        DI { index: value[1], origin_value: chunk_raw(value), parse_value: chunk_raw(value) }
    }

    open spec fn spec_origin(&self) -> u16 {
        self.parse_value
    }

    fn parse(value: &[u8]) -> (r: Self)
        ensures
            r.index == value@[1],
            r.origin_value == be16_value(value@[2], value@[3]),
            r.parse_value == be16_value(value@[2], value@[3]),
    {
        let v = ((value[2] as u16) << 8u16) | value[3] as u16;
        DI { index: value[1], origin_value: v, parse_value: v }
    }

    fn origin(&self) -> (r: u16)
        ensures
            r == self.parse_value,
    {
        self.parse_value
    }
}

impl IO for DO {
    open spec fn spec_parse(value: Seq<u8>) -> Self {
        DO { index: value[1], origin_value: chunk_raw(value), parse_value: chunk_raw(value) }
    }

    open spec fn spec_origin(&self) -> u16 {
        self.parse_value
    }

    fn parse(value: &[u8]) -> (r: Self)
        ensures
            r.index == value@[1],
            r.origin_value == be16_value(value@[2], value@[3]),
            r.parse_value == be16_value(value@[2], value@[3]),
    {
        let v = ((value[2] as u16) << 8u16) | value[3] as u16;
        DO { index: value[1], origin_value: v, parse_value: v }
    }

    fn origin(&self) -> (r: u16)
        ensures
            r == self.parse_value,
    {
        self.parse_value
    }
}

impl DO {
    /// The same output with its value switched: 0 becomes 1, 1 becomes 0
    /// (in general the parity of the value plus one).
    pub fn toggled(&self) -> (r: DO)
        requires
            self.parse_value < u16::MAX,
        ensures
            r == (DO { parse_value: ((self.parse_value + 1) % 2) as u16, ..*self }),
    {
        let mut clone = *self;
        clone.parse_value = (self.parse_value + 1) & 0x01;
        proof {
            let v = (self.parse_value + 1) as u16;
            assert(v & 0x01 == v % 2) by (bit_vector);
        }
        clone
    }
}

impl IO for AI {
    open spec fn spec_parse(value: Seq<u8>) -> Self {
        AI { index: value[1], origin_value: chunk_raw(value) }
    }

    open spec fn spec_origin(&self) -> u16 {
        self.origin_value
    }

    fn unit() -> (r: &'static str)
        ensures
            r@ == "mA"@,
    {
        "mA"
    }

    fn parse(value: &[u8]) -> (r: Self)
        ensures
            r.index == value@[1],
            r.origin_value == be16_value(value@[2], value@[3]),
    {
        let v = ((value[2] as u16) << 8u16) | value[3] as u16;
        AI { index: value[1], origin_value: v }
    }

    fn origin(&self) -> (r: u16)
        ensures
            r == self.origin_value,
    {
        self.origin_value
    }
}

impl IO for AO {
    open spec fn spec_parse(value: Seq<u8>) -> Self {
        AO { index: value[1], origin_value: chunk_raw(value) }
    }

    open spec fn spec_origin(&self) -> u16 {
        self.origin_value
    }

    fn unit() -> (r: &'static str)
        ensures
            r@ == "mA"@,
    {
        "mA"
    }

    fn parse(value: &[u8]) -> (r: Self)
        ensures
            r.index == value@[1],
            r.origin_value == be16_value(value@[2], value@[3]),
    {
        let v = ((value[2] as u16) << 8u16) | value[3] as u16;
        AO { index: value[1], origin_value: v }
    }

    fn origin(&self) -> (r: u16)
        ensures
            r == self.origin_value,
    {
        self.origin_value
    }
}

impl IO for VIA {
    open spec fn spec_parse(value: Seq<u8>) -> Self {
        VIA { index: value[1], origin_value: chunk_raw(value) }
    }

    open spec fn spec_origin(&self) -> u16 {
        self.origin_value
    }

    fn unit() -> (r: &'static str)
        ensures
            r@ == "V"@,
    {
        "V"
    }

    fn parse(value: &[u8]) -> (r: Self)
        ensures
            r.index == value@[1],
            r.origin_value == be16_value(value@[2], value@[3]),
    {
        let v = ((value[2] as u16) << 8u16) | value[3] as u16;
        VIA { index: value[1], origin_value: v }
    }

    fn origin(&self) -> (r: u16)
        ensures
            r == self.origin_value,
    {
        self.origin_value
    }
}

impl IO for VIR {
    open spec fn spec_parse(value: Seq<u8>) -> Self {
        VIR { index: value[1], origin_value: chunk_raw(value) }
    }

    open spec fn spec_origin(&self) -> u16 {
        self.origin_value
    }

    fn unit() -> (r: &'static str)
        ensures
            r@ == "Ω"@,
    {
        "Ω"
    }

    fn parse(value: &[u8]) -> (r: Self)
        ensures
            r.index == value@[1],
            r.origin_value == be16_value(value@[2], value@[3]),
    {
        let v = ((value[2] as u16) << 8u16) | value[3] as u16;
        VIR { index: value[1], origin_value: v }
    }

    fn origin(&self) -> (r: u16)
        ensures
            r == self.origin_value,
    {
        self.origin_value
    }
}

impl IO for VO {
    open spec fn spec_parse(value: Seq<u8>) -> Self {
        VO { index: value[1], origin_value: chunk_raw(value) }
    }

    open spec fn spec_origin(&self) -> u16 {
        self.origin_value
    }

    fn unit() -> (r: &'static str)
        ensures
            r@ == "V"@,
    {
        "V"
    }

    fn parse(value: &[u8]) -> (r: Self)
        ensures
            r.index == value@[1],
            r.origin_value == be16_value(value@[2], value@[3]),
    {
        let v = ((value[2] as u16) << 8u16) | value[3] as u16;
        VO { index: value[1], origin_value: v }
    }

    fn origin(&self) -> (r: u16)
        ensures
            r == self.origin_value,
    {
        self.origin_value
    }
}

} // verus!

verus! {

/// The list of an `IoData` that a point chunk goes to.
#[derive(Debug, Clone, Copy)]
pub enum IoSlot {
    Di,
    Do,
    Ai,
    Ao,
    Via,
    Vir,
    Vo,
    Ignored,
}

/// Where the point chunk `c` goes: by its type code, and, for voltage inputs,
/// by its index (channels 0 to 2 measure voltage, the others resistance).
pub open spec fn chunk_slot(c: Seq<u8>) -> IoSlot {
    if c[0] == 1 {
        IoSlot::Di
    } else if c[0] == 2 {
        IoSlot::Do
    } else if c[0] == 3 {
        IoSlot::Ai
    } else if c[0] == 4 {
        IoSlot::Ao
    } else if c[0] == 7 && c[1] < 3 {
        IoSlot::Via
    } else if c[0] == 7 {
        IoSlot::Vir
    } else if c[0] == 8 {
        IoSlot::Vo
    } else {
        IoSlot::Ignored
    }
}

/// The `k`-th point chunk of an I/O list (the list starts with its count byte).
pub open spec fn io_chunk(value: Seq<u8>, k: int) -> Seq<u8> {
    value.subrange(1 + 4 * k, 5 + 4 * k)
}

/// The points, in order, of the first `n` chunks of `value` that go to `slot`.
pub open spec fn points_in<T: IO>(value: Seq<u8>, n: nat, slot: IoSlot) -> Seq<T>
    decreases n,
{
    if n == 0 {
        Seq::empty()
    } else {
        let before = points_in::<T>(value, (n - 1) as nat, slot);
        let c = io_chunk(value, n - 1);
        if chunk_slot(c) == slot {
            before.push(T::spec_parse(c))
        } else {
            before
        }
    }
}

/// The I/O points a device reports, sorted by kind.
#[derive(Debug, Clone)]
pub struct IoData {
    pub di_list: Vec<DI>,
    pub do_list: Vec<DO>,
    pub ai_list: Vec<AI>,
    pub ao_list: Vec<AO>,
    pub via_list: Vec<VIA>,
    pub vir_list: Vec<VIR>,
    pub vo_list: Vec<VO>,
    pub hardware_ver: u16,
    pub software_ver: u16,
}

impl Default for IoData {
    fn default() -> (r: Self)
        ensures
            r.is_empty(),
    {
        IoData {
            di_list: Vec::new(),
            do_list: Vec::new(),
            ai_list: Vec::new(),
            ao_list: Vec::new(),
            via_list: Vec::new(),
            vir_list: Vec::new(),
            vo_list: Vec::new(),
            hardware_ver: 0,
            software_ver: 0,
        }
    }
}

impl IoData {
    /// No points, and both versions zero.
    pub open spec fn is_empty(&self) -> bool {
        &&& self.di_list@.len() == 0
        &&& self.do_list@.len() == 0
        &&& self.ai_list@.len() == 0
        &&& self.ao_list@.len() == 0
        &&& self.via_list@.len() == 0
        &&& self.vir_list@.len() == 0
        &&& self.vo_list@.len() == 0
        &&& self.hardware_ver == 0
        &&& self.software_ver == 0
    }

    /// The lists hold the points of the first `n` chunks of `value`, each in
    /// the list its chunk goes to, in the order of the chunks; both versions
    /// are zero.
    pub open spec fn holds_chunks(&self, value: Seq<u8>, n: nat) -> bool {
        &&& self.di_list@ == points_in::<DI>(value, n, IoSlot::Di)
        &&& self.do_list@ == points_in::<DO>(value, n, IoSlot::Do)
        &&& self.ai_list@ == points_in::<AI>(value, n, IoSlot::Ai)
        &&& self.ao_list@ == points_in::<AO>(value, n, IoSlot::Ao)
        &&& self.via_list@ == points_in::<VIA>(value, n, IoSlot::Via)
        &&& self.vir_list@ == points_in::<VIR>(value, n, IoSlot::Vir)
        &&& self.vo_list@ == points_in::<VO>(value, n, IoSlot::Vo)
        &&& self.hardware_ver == 0
        &&& self.software_ver == 0
    }

    /// The I/O list `value` holds as many chunks as its count byte says.
    pub open spec fn complete(value: Seq<u8>) -> bool {
        value.len() >= 4 * (value[0] as int) + 1
    }

    /// The points that the I/O list `value` describes.
    pub open spec fn describes(&self, value: Seq<u8>) -> bool {
        self.holds_chunks(value, value[0] as nat)
    }

    /// Parses an I/O list: a count byte, then that many four-byte point
    /// chunks. Chunks of an unknown type are skipped. Fails when the list is
    /// shorter than its count says. The list must not be empty, and its count
    /// must be below 64: the length it needs is computed in a byte.
    pub fn try_from(value: &[u8]) -> (r: Result<Self, ()>)
        requires
            value@.len() >= 1,
            value@[0] < 64,
        ensures
            r is Ok <==> Self::complete(value@),
            r matches Ok(io) ==> io.describes(value@),
    {
        let io_count = value[0];
        let needed: u8 = io_count * 4 + 1;
        if value.len() < needed as usize {
            return Err(());
        }
        let mut io_data = IoData::default();
        let count = io_count as usize;
        let mut k: usize = 0;
        proof {
            reveal_with_fuel(points_in, 1);
            assert(io_data.di_list@ =~= points_in::<DI>(value@, 0, IoSlot::Di));
            assert(io_data.do_list@ =~= points_in::<DO>(value@, 0, IoSlot::Do));
            assert(io_data.ai_list@ =~= points_in::<AI>(value@, 0, IoSlot::Ai));
            assert(io_data.ao_list@ =~= points_in::<AO>(value@, 0, IoSlot::Ao));
            assert(io_data.via_list@ =~= points_in::<VIA>(value@, 0, IoSlot::Via));
            assert(io_data.vir_list@ =~= points_in::<VIR>(value@, 0, IoSlot::Vir));
            assert(io_data.vo_list@ =~= points_in::<VO>(value@, 0, IoSlot::Vo));
        }
        while k < count
            invariant
                count == value@[0] as nat,
                value@.len() >= 4 * count + 1,
                k <= count,
                io_data.holds_chunks(value@, k as nat),
            decreases count - k,
        {
            let x = &value[1 + 4 * k..5 + 4 * k];
            assert(x@ == io_chunk(value@, k as int));
            let io_type = x[0];
            let io_index = x[1];
            if io_type == IoType::DI.code() {
                io_data.di_list.push(DI::parse(x));
            } else if io_type == IoType::DO.code() {
                io_data.do_list.push(DO::parse(x));
            } else if io_type == IoType::AI.code() {
                io_data.ai_list.push(AI::parse(x));
            } else if io_type == IoType::AO.code() {
                io_data.ao_list.push(AO::parse(x));
            } else if io_type == IoType::VI.code() && io_index < 3 {
                io_data.via_list.push(VIA::parse(x));
            } else if io_type == IoType::VI.code() {
                io_data.vir_list.push(VIR::parse(x));
            } else if io_type == IoType::VO.code() {
                io_data.vo_list.push(VO::parse(x));
            }
            k = k + 1;
        }
        Ok(io_data)
    }
}

} // verus!
