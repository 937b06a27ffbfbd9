//! Encoding and decoding of property commands into the fixed-size wire
//! records used by the batched get/set operations.
//!
//! Every record is a 32-bit discriminant tag followed by a constant-size
//! payload area; whatever the kind, the payload is laid out per that kind's
//! fixed shape and zero-padded to [`DATA_SIZE`] bytes. Decoding a record as
//! its own kind is the exact inverse of encoding, which
//! [`lemma_codec_round_trip`] states and proves.

use vstd::prelude::*;
use vstd::bytes::{
    lemma_auto_spec_u16_to_from_le_bytes, lemma_auto_spec_u32_to_from_le_bytes,
    lemma_auto_spec_u64_to_from_le_bytes, spec_u16_from_le_bytes, spec_u16_to_le_bytes,
    spec_u32_from_le_bytes, spec_u32_to_le_bytes, spec_u64_from_le_bytes, spec_u64_to_le_bytes,
    u16_from_le_bytes, u16_to_le_bytes, u32_from_le_bytes, u32_to_le_bytes, u64_from_le_bytes,
    u64_to_le_bytes,
};
use vstd::slice::{slice_subrange, slice_to_vec};
use crate::enums::{
    fe_code_rate, fe_delivery_system, fe_guard_interval, fe_hierarchy, fe_interleaving, fe_lna,
    fe_modulation, fe_pilot, fe_rolloff, fe_sec_tone_mode, fe_sec_voltage,
    fe_spectral_inversion, fe_transmit_mode,
};
use crate::enums::{
    lemma_fe_code_rate_code_rt, lemma_fe_delivery_system_code_rt,
    lemma_fe_guard_interval_code_rt, lemma_fe_hierarchy_code_rt, lemma_fe_interleaving_code_rt,
    lemma_fe_lna_code_rt, lemma_fe_modulation_code_rt, lemma_fe_pilot_code_rt,
    lemma_fe_rolloff_code_rt, lemma_fe_sec_tone_mode_code_rt, lemma_fe_sec_voltage_code_rt,
    lemma_fe_spectral_inversion_code_rt, lemma_fe_transmit_mode_code_rt,
};
use crate::stats::{DtvFrontendStats, DtvStat, NoScale, ScaleCounter, ScaleDecibel, ScaleRelative};

verus! {

/// Size in bytes of the fixed payload area of every wire record; sized to
/// the largest payload shape, the four-entry statistics array.
pub const DATA_SIZE: usize = 56;

/// Byte capacity of the delivery-system list payload.
pub const DELSYS_CAPACITY: usize = 32;

/// A batched property call never carries more than this many records.
pub const DTV_IOCTL_MAX_MSGS: usize = 64;

/// Wire discriminant of the delivery-system list kind, the one kind whose
/// payload carries owned storage.
pub const DTV_ENUM_DELSYS_CODE: u32 = 44;

/// Wire discriminant of the modulation kind.
pub const DTV_MODULATION_CODE: u32 = 4;

/// Wire discriminant of the current-delivery-system kind.
pub const DTV_DELIVERY_SYSTEM_CODE: u32 = 17;

/// Wire discriminant of the signal-strength statistics kind.
pub const DTV_STAT_SIGNAL_STRENGTH_CODE: u32 = 62;

/// Wire discriminant of the carrier-to-noise statistics kind.
pub const DTV_STAT_CNR_CODE: u32 = 63;

/// Wire discriminant of the pre-error-bit-count statistics kind.
pub const DTV_STAT_PRE_ERROR_BIT_COUNT_CODE: u32 = 64;

/// Wire discriminant of the error-block-count statistics kind.
pub const DTV_STAT_ERROR_BLOCK_COUNT_CODE: u32 = 68;

/// A codec or ABI version mismatch, discovered while decoding; fatal for
/// the session, never retried.
#[derive(Debug, Clone, Copy, PartialEq, Eq, Structural)]
pub enum ProtocolError {
    /// The record is tagged with a different kind than the caller asked
    /// to decode, or with no known kind at all.
    TagMismatch,
    /// A list payload declares more entries than its fixed capacity.
    Truncated,
    /// An enumerated payload lies outside its closed set.
    InvalidValue,
}

/// One fixed-size wire record: the kind's discriminant tag and the
/// constant-size payload area. The reserved header words and the trailing
/// result word of the platform layout are always zero and are supplied by
/// the transport.
#[derive(Debug, Clone, PartialEq)]
pub struct WireRecord {
    /// Discriminant tag naming the property kind.
    pub cmd: u32,
    /// Fixed payload area, always [`DATA_SIZE`] bytes.
    pub data: Vec<u8>,
}

impl WireRecord {
    /// The payload area has its one fixed size.
    pub open spec fn wf(self) -> bool {
        self.data@.len() == DATA_SIZE
    }
}

/// Carries one property payload; the stored value is exactly the payload
/// the property was built from.
#[derive(Debug, Clone, Copy, PartialEq, Eq)]
pub struct DtvPropertyRequest<T> {
    pub data: T,
}

impl<T> DtvPropertyRequest<T> {
    /// Wraps a payload value.
    pub fn new(data: T) -> (r: DtvPropertyRequest<T>)
        ensures
            r == (DtvPropertyRequest { data }),
    {
        DtvPropertyRequest { data }
    }
}

/// Payload of the kinds that carry no data: the tune and clear triggers.
#[derive(Debug, Clone, Copy, PartialEq, Eq, Structural)]
pub struct VoidPayload {}

/// Payload of a property kind this crate does not interpret; its wire
/// payload area is reserved and encodes as zero.
#[derive(Debug, Clone, Copy, PartialEq, Eq, Structural)]
pub struct DtvPropertyNotImplementedLinux {}

/// The delivery-system list payload: up to [`DELSYS_CAPACITY`] one-byte
/// delivery-system ids, in driver-declared order.
#[derive(Debug, Clone, PartialEq)]
pub struct DtvPropertyBuffer {
    /// The carried delivery-system ids, one byte each.
    pub data: Vec<u8>,
}

impl DtvPropertyBuffer {
    /// The list fits its fixed capacity and every byte is a delivery-system
    /// id from the closed set.
    pub open spec fn wf(self) -> bool {
        &&& self.data@.len() <= DELSYS_CAPACITY
        &&& forall|i: int|
            0 <= i < self.data@.len() ==> fe_delivery_system::from_repr_spec(
                #[trigger] self.data@[i] as u32,
            ) is Some
    }

    /// Builds a list payload from delivery-system values; fails when the
    /// list exceeds the fixed capacity.
    pub fn from_systems(v: &Vec<fe_delivery_system>) -> (r: Option<DtvPropertyBuffer>)
        ensures
            (v@.len() <= DELSYS_CAPACITY) <==> r is Some,
            r is Some ==> {
                &&& r->0.wf()
                &&& r->0.data@.len() == v@.len()
                &&& forall|i: int|
                    0 <= i < v@.len() ==> fe_delivery_system::from_repr_spec(
                        #[trigger] r->0.data@[i] as u32,
                    ) == Some(v@[i])
            },
    {
        if v.len() > DELSYS_CAPACITY {
            return None;
        }
        let mut data: Vec<u8> = Vec::new();
        let mut i: usize = 0;
        while i < v.len()
            invariant
                i <= v@.len(),
                v@.len() <= DELSYS_CAPACITY,
                data@.len() == i,
                forall|j: int|
                    0 <= j < i ==> fe_delivery_system::from_repr_spec(
                        #[trigger] data@[j] as u32,
                    ) == Some(v@[j]),
            decreases v@.len() - i,
        {
            let s = v[i];
            let code = s.code();
            proof {
                lemma_fe_delivery_system_code_rt(s);
                assert(s.code_spec() <= 255) by {
                    match s {
                        _ => {}
                    }
                };
            }
            data.push(code as u8);
            i += 1;
        }
        Some(DtvPropertyBuffer { data })
    }

    /// Returns whether the list fits its capacity and every byte is a
    /// delivery-system id from the closed set.
    pub fn is_well_formed(&self) -> (r: bool)
        ensures
            r == self.wf(),
    {
        if self.data.len() > DELSYS_CAPACITY {
            return false;
        }
        let mut i: usize = 0;
        while i < self.data.len()
            invariant
                i <= self.data@.len(),
                forall|j: int|
                    0 <= j < i ==> fe_delivery_system::from_repr_spec(
                        #[trigger] self.data@[j] as u32,
                    ) is Some,
            decreases self.data@.len() - i,
        {
            if fe_delivery_system::from_repr(self.data[i] as u32).is_none() {
                proof {
                    assert(!(fe_delivery_system::from_repr_spec(
                        self.data@[i as int] as u32,
                    ) is Some));
                }
                return false;
            }
            i += 1;
        }
        true
    }

    /// Returns the carried delivery-system values, in order; fails with
    /// `InvalidValue` when a byte lies outside the closed set.
    pub fn systems(&self) -> (r: Result<Vec<fe_delivery_system>, ProtocolError>)
        ensures
            r is Ok <==> (forall|i: int|
                0 <= i < self.data@.len() ==> fe_delivery_system::from_repr_spec(
                    #[trigger] self.data@[i] as u32,
                ) is Some),
            r is Ok ==> {
                &&& r->Ok_0@.len() == self.data@.len()
                &&& forall|i: int|
                    0 <= i < self.data@.len() ==> Some(#[trigger] r->Ok_0@[i])
                        == fe_delivery_system::from_repr_spec(self.data@[i] as u32)
            },
            r is Err ==> r->Err_0 == ProtocolError::InvalidValue,
    {
        let mut out: Vec<fe_delivery_system> = Vec::new();
        let mut i: usize = 0;
        while i < self.data.len()
            invariant
                i <= self.data@.len(),
                out@.len() == i,
                forall|j: int|
                    0 <= j < i ==> Some(#[trigger] out@[j]) == fe_delivery_system::from_repr_spec(
                        self.data@[j] as u32,
                    ),
                forall|j: int|
                    0 <= j < i ==> fe_delivery_system::from_repr_spec(
                        #[trigger] self.data@[j] as u32,
                    ) is Some,
            decreases self.data@.len() - i,
        {
            match fe_delivery_system::from_repr(self.data[i] as u32) {
                Some(s) => {
                    out.push(s);
                },
                None => {
                    proof {
                        assert(!(fe_delivery_system::from_repr_spec(
                            self.data@[i as int] as u32,
                        ) is Some));
                    }
                    return Err(ProtocolError::InvalidValue);
                },
            }
            i += 1;
        }
        Ok(out)
    }
}

/// A sequence of `n` zero bytes.
pub open spec fn zeros(n: int) -> Seq<u8> {
    Seq::new(n as nat, |i: int| 0u8)
}

/// The all-zero payload of void and uninterpreted kinds.
pub open spec fn spec_void_payload() -> Seq<u8> {
    zeros(56)
}

/// A 32-bit scalar payload: the value in little-endian order, zero-padded.
pub open spec fn spec_u32_payload(v: u32) -> Seq<u8> {
    spec_u32_to_le_bytes(v) + zeros(52)
}

/// One statistics slot on the wire: a scale tag byte and eight value bytes.
pub open spec fn spec_stat_bytes(s: DtvStat) -> Seq<u8> {
    match s {
        DtvStat::FE_SCALE_NOT_AVAILABLE(_) => seq![0u8] + zeros(8),
        DtvStat::FE_SCALE_DECIBEL(d) => seq![1u8] + spec_u64_to_le_bytes(d.scale as u64),
        DtvStat::FE_SCALE_RELATIVE(r) => seq![2u8] + spec_u16_to_le_bytes(r.scale) + zeros(6),
        DtvStat::FE_SCALE_COUNTER(c) => seq![3u8] + spec_u64_to_le_bytes(c.scale),
    }
}

/// The statistics payload: the declared count, four fixed slots, padding.
pub open spec fn spec_stats_payload(s: DtvFrontendStats) -> Seq<u8> {
    seq![s.len] + spec_stat_bytes(s.stat0) + spec_stat_bytes(s.stat1) + spec_stat_bytes(s.stat2)
        + spec_stat_bytes(s.stat3) + zeros(19)
}

/// The delivery-system list payload: the id bytes zero-padded to the fixed
/// capacity, then the declared count in little-endian order, then padding.
pub open spec fn spec_delsys_payload(b: DtvPropertyBuffer) -> Seq<u8> {
    b.data@ + zeros(32 - b.data@.len()) + spec_u32_to_le_bytes(b.data@.len() as u32) + zeros(20)
}

/// The 32-bit scalar a payload area starts with.
pub open spec fn spec_parse_u32(data: Seq<u8>) -> u32 {
    spec_u32_from_le_bytes(data.subrange(0, 4))
}

/// What one nine-byte statistics slot decodes to.
pub open spec fn spec_parse_stat(s: Seq<u8>) -> Result<DtvStat, ProtocolError> {
    if s[0] == 0 {
        Ok(DtvStat::FE_SCALE_NOT_AVAILABLE(NoScale {}))
    } else if s[0] == 1 {
        Ok(DtvStat::FE_SCALE_DECIBEL(ScaleDecibel { scale: spec_u64_from_le_bytes(s.subrange(1, 9)) as i64 }))
    } else if s[0] == 2 {
        Ok(DtvStat::FE_SCALE_RELATIVE(ScaleRelative { scale: spec_u16_from_le_bytes(s.subrange(1, 3)) }))
    } else if s[0] == 3 {
        Ok(DtvStat::FE_SCALE_COUNTER(ScaleCounter { scale: spec_u64_from_le_bytes(s.subrange(1, 9)) }))
    } else {
        Err(ProtocolError::InvalidValue)
    }
}

/// What a statistics payload area decodes to: the declared count, checked
/// against the fixed capacity, and the four slots.
pub open spec fn spec_parse_stats(data: Seq<u8>) -> Result<DtvFrontendStats, ProtocolError> {
    if data[0] > 4 {
        Err(ProtocolError::Truncated)
    } else {
        match (
            spec_parse_stat(data.subrange(1, 10)),
            spec_parse_stat(data.subrange(10, 19)),
            spec_parse_stat(data.subrange(19, 28)),
            spec_parse_stat(data.subrange(28, 37)),
        ) {
            (Ok(s0), Ok(s1), Ok(s2), Ok(s3)) => Ok(
                DtvFrontendStats { len: data[0], stat0: s0, stat1: s1, stat2: s2, stat3: s3 },
            ),
            (Err(e), _, _, _) => Err(e),
            (_, Err(e), _, _) => Err(e),
            (_, _, Err(e), _) => Err(e),
            (_, _, _, Err(e)) => Err(e),
        }
    }
}

/// What decoding a record as the delivery-system list kind yields. The
/// result's list payload is pinned by its carried bytes: a specification
/// cannot build the owned storage itself.
pub open spec fn delsys_decode_post(
    cmd: u32,
    data: Seq<u8>,
    r: Result<DtvProperty, ProtocolError>,
) -> bool {
    let n = spec_u32_from_le_bytes(data.subrange(32, 36)) as int;
    if cmd != DTV_ENUM_DELSYS_CODE {
        r == Err::<DtvProperty, ProtocolError>(ProtocolError::TagMismatch)
    } else if n > 32 {
        r == Err::<DtvProperty, ProtocolError>(ProtocolError::Truncated)
    } else if exists|i: int|
        0 <= i < n && !(fe_delivery_system::from_repr_spec(#[trigger] data[i] as u32) is Some) {
        r == Err::<DtvProperty, ProtocolError>(ProtocolError::InvalidValue)
    } else {
        &&& r is Ok
        &&& r->Ok_0 is DTV_ENUM_DELSYS
        &&& r->Ok_0->DTV_ENUM_DELSYS_0.data.data@ == data.subrange(0, n)
        &&& r->Ok_0.wf()
    }
}

/// Everything `decode` promises: the fixed-shape kinds are the exact value
/// `spec_decode_fixed` gives; the delivery-system list kind is described by
/// `delsys_decode_post`.
pub open spec fn decode_post(
    code: u32,
    cmd: u32,
    data: Seq<u8>,
    r: Result<DtvProperty, ProtocolError>,
) -> bool {
    if code == DTV_ENUM_DELSYS_CODE {
        delsys_decode_post(cmd, data, r)
    } else {
        r == spec_decode_fixed(code, cmd, data)
    }
}

/// Equality of two properties, with the one owned-storage payload, the
/// delivery-system list, compared by its carried bytes.
pub open spec fn prop_equiv(a: DtvProperty, b: DtvProperty) -> bool {
    match (a, b) {
        (DtvProperty::DTV_ENUM_DELSYS(x), DtvProperty::DTV_ENUM_DELSYS(y)) => x.data.data@
            == y.data.data@,
        _ => a == b,
    }
}

fn push_zeros(d: &mut Vec<u8>, n: usize)
    ensures
        final(d)@ == old(d)@ + zeros(n as int),
{
    let mut i: usize = 0;
    while i < n
        invariant
            i <= n,
            d@ =~= old(d)@ + zeros(i as int),
        decreases n - i,
    {
        d.push(0u8);
        i += 1;
        proof {
            assert(d@ =~= old(d)@ + zeros(i as int));
        }
    }
    proof {
        assert(d@ =~= old(d)@ + zeros(n as int));
    }
}

fn payload_void() -> (r: Vec<u8>)
    ensures
        r@ == spec_void_payload(),
        r@.len() == 56,
{
    let mut d: Vec<u8> = Vec::new();
    push_zeros(&mut d, 56);
    proof {
        assert(d@ =~= spec_void_payload());
    }
    d
}

fn payload_u32(v: u32) -> (r: Vec<u8>)
    ensures
        r@ == spec_u32_payload(v),
        r@.len() == 56,
{
    let mut d = u32_to_le_bytes(v);
    push_zeros(&mut d, 52);
    proof {
        lemma_auto_spec_u32_to_from_le_bytes();
        assert(d@ =~= spec_u32_payload(v));
    }
    d
}

fn push_stat(d: &mut Vec<u8>, s: &DtvStat)
    ensures
        final(d)@ == old(d)@ + spec_stat_bytes(*s),
{
    match s {
        DtvStat::FE_SCALE_NOT_AVAILABLE(_) => {
            d.push(0u8);
            push_zeros(d, 8);
            proof {
                assert(d@ =~= old(d)@ + spec_stat_bytes(*s));
            }
        },
        DtvStat::FE_SCALE_DECIBEL(x) => {
            d.push(1u8);
            let mut b = u64_to_le_bytes(x.scale as u64);
            d.append(&mut b);
            proof {
                lemma_auto_spec_u64_to_from_le_bytes();
                assert(d@ =~= old(d)@ + spec_stat_bytes(*s));
            }
        },
        DtvStat::FE_SCALE_RELATIVE(x) => {
            d.push(2u8);
            let mut b = u16_to_le_bytes(x.scale);
            d.append(&mut b);
            push_zeros(d, 6);
            proof {
                lemma_auto_spec_u16_to_from_le_bytes();
                assert(d@ =~= old(d)@ + spec_stat_bytes(*s));
            }
        },
        DtvStat::FE_SCALE_COUNTER(x) => {
            d.push(3u8);
            let mut b = u64_to_le_bytes(x.scale);
            d.append(&mut b);
            proof {
                lemma_auto_spec_u64_to_from_le_bytes();
                assert(d@ =~= old(d)@ + spec_stat_bytes(*s));
            }
        },
    }
}

/// Every statistics slot occupies exactly nine bytes on the wire.
proof fn lemma_stat_bytes_len(s: DtvStat)
    ensures
        spec_stat_bytes(s).len() == 9,
{
    lemma_auto_spec_u16_to_from_le_bytes();
    lemma_auto_spec_u64_to_from_le_bytes();
    match s {
        DtvStat::FE_SCALE_NOT_AVAILABLE(_) => {},
        DtvStat::FE_SCALE_DECIBEL(_) => {},
        DtvStat::FE_SCALE_RELATIVE(_) => {},
        DtvStat::FE_SCALE_COUNTER(_) => {},
    }
}

fn payload_stats(s: &DtvFrontendStats) -> (r: Vec<u8>)
    ensures
        r@ == spec_stats_payload(*s),
        r@.len() == 56,
{
    let mut d: Vec<u8> = Vec::new();
    d.push(s.len);
    push_stat(&mut d, &s.stat0);
    push_stat(&mut d, &s.stat1);
    push_stat(&mut d, &s.stat2);
    push_stat(&mut d, &s.stat3);
    push_zeros(&mut d, 19);
    proof {
        lemma_stat_bytes_len(s.stat0);
        lemma_stat_bytes_len(s.stat1);
        lemma_stat_bytes_len(s.stat2);
        lemma_stat_bytes_len(s.stat3);
        assert(d@ =~= spec_stats_payload(*s));
    }
    d
}

fn payload_delsys(b: &DtvPropertyBuffer) -> (r: Vec<u8>)
    requires
        b.wf(),
    ensures
        r@ == spec_delsys_payload(*b),
        r@.len() == 56,
{
    let n = b.data.len();
    let mut d = slice_to_vec(b.data.as_slice());
    push_zeros(&mut d, 32 - n);
    let mut lenb = u32_to_le_bytes(n as u32);
    d.append(&mut lenb);
    push_zeros(&mut d, 20);
    proof {
        lemma_auto_spec_u32_to_from_le_bytes();
        assert(d@ =~= spec_delsys_payload(*b));
    }
    d
}

fn read_u32_at(data: &Vec<u8>, off: usize) -> (r: u32)
    requires
        data@.len() == 56,
        off <= 52,
    ensures
        r == spec_u32_from_le_bytes(data@.subrange(off as int, off as int + 4)),
{
    u32_from_le_bytes(slice_subrange(data.as_slice(), off, off + 4))
}

fn read_u16_at(data: &Vec<u8>, off: usize) -> (r: u16)
    requires
        data@.len() == 56,
        off <= 54,
    ensures
        r == spec_u16_from_le_bytes(data@.subrange(off as int, off as int + 2)),
{
    u16_from_le_bytes(slice_subrange(data.as_slice(), off, off + 2))
}

fn read_u64_at(data: &Vec<u8>, off: usize) -> (r: u64)
    requires
        data@.len() == 56,
        off <= 48,
    ensures
        r == spec_u64_from_le_bytes(data@.subrange(off as int, off as int + 8)),
{
    u64_from_le_bytes(slice_subrange(data.as_slice(), off, off + 8))
}

fn parse_stat_at(data: &Vec<u8>, off: usize) -> (r: Result<DtvStat, ProtocolError>)
    requires
        data@.len() == 56,
        off <= 47,
    ensures
        r == spec_parse_stat(data@.subrange(off as int, off as int + 9)),
{
    let ghost s = data@.subrange(off as int, off as int + 9);
    let tag = data[off];
    proof {
        assert(tag == s[0]);
    }
    if tag == 0 {
        Ok(DtvStat::not_available())
    } else if tag == 1 {
        let v = read_u64_at(data, off + 1);
        proof {
            assert(data@.subrange(off as int + 1, off as int + 9) =~= s.subrange(1, 9));
        }
        Ok(DtvStat::decibel(v as i64))
    } else if tag == 2 {
        let v = read_u16_at(data, off + 1);
        proof {
            assert(data@.subrange(off as int + 1, off as int + 3) =~= s.subrange(1, 3));
        }
        Ok(DtvStat::relative(v))
    } else if tag == 3 {
        let v = read_u64_at(data, off + 1);
        proof {
            assert(data@.subrange(off as int + 1, off as int + 9) =~= s.subrange(1, 9));
        }
        Ok(DtvStat::counter(v))
    } else {
        Err(ProtocolError::InvalidValue)
    }
}

fn parse_stats(data: &Vec<u8>) -> (r: Result<DtvFrontendStats, ProtocolError>)
    requires
        data@.len() == 56,
    ensures
        r == spec_parse_stats(data@),
{
    let n = data[0];
    if n > 4 {
        return Err(ProtocolError::Truncated);
    }
    let r0 = parse_stat_at(data, 1);
    let r1 = parse_stat_at(data, 10);
    let r2 = parse_stat_at(data, 19);
    let r3 = parse_stat_at(data, 28);
    match (r0, r1, r2, r3) {
        (Ok(s0), Ok(s1), Ok(s2), Ok(s3)) => Ok(
            DtvFrontendStats { len: n, stat0: s0, stat1: s1, stat2: s2, stat3: s3 },
        ),
        (Err(e), _, _, _) => Err(e),
        (_, Err(e), _, _) => Err(e),
        (_, _, Err(e), _) => Err(e),
        (_, _, _, Err(e)) => Err(e),
    }
}

fn decode_delsys(data: &Vec<u8>) -> (r: Result<DtvProperty, ProtocolError>)
    requires
        data@.len() == 56,
    ensures
        delsys_decode_post(DTV_ENUM_DELSYS_CODE, data@, r),
{
    let n32 = read_u32_at(data, 32);
    if n32 > 32 {
        return Err(ProtocolError::Truncated);
    }
    let n = n32 as usize;
    let mut out: Vec<u8> = Vec::new();
    let mut i: usize = 0;
    while i < n
        invariant
            i <= n,
            n <= 32,
            n == spec_u32_from_le_bytes(data@.subrange(32, 36)) as usize,
            data@.len() == 56,
            out@ =~= data@.subrange(0, i as int),
            forall|j: int|
                0 <= j < i ==> fe_delivery_system::from_repr_spec(
                    #[trigger] data@[j] as u32,
                ) is Some,
        decreases n - i,
    {
        let b = data[i];
        if fe_delivery_system::from_repr(b as u32).is_none() {
            proof {
                let j = i as int;
                assert(0 <= j < spec_u32_from_le_bytes(data@.subrange(32, 36)) as int
                    && !(fe_delivery_system::from_repr_spec(data@[j] as u32) is Some));
            }
            return Err(ProtocolError::InvalidValue);
        }
        out.push(b);
        i += 1;
        proof {
            assert(out@ =~= data@.subrange(0, i as int));
        }
    }
    let rec = DtvProperty::DTV_ENUM_DELSYS(
        DtvPropertyRequest::new(DtvPropertyBuffer { data: out }),
    );
    proof {
        assert(forall|j: int|
            0 <= j < n ==> data@.subrange(0, n as int)[j] == data@[j]);
        assert(forall|j: int|
            0 <= j < out@.len() ==> fe_delivery_system::from_repr_spec(
                #[trigger] out@[j] as u32,
            ) is Some);
    }
    Ok(rec)
}

/// A zero-payload request record for a batched get of the kind tagged
/// `code`; the driver fills the payload area in place.
pub fn query_record(code: u32) -> (r: WireRecord)
    ensures
        r.wf(),
        r.cmd == code,
        r.data@ == spec_void_payload(),
{
    WireRecord { cmd: code, data: payload_void() }
}

/// A 32-bit scalar payload parses back to the value it encodes.
proof fn lemma_u32_payload_rt(v: u32)
    ensures
        spec_parse_u32(spec_u32_payload(v)) == v,
{
    lemma_auto_spec_u32_to_from_le_bytes();
    assert(spec_u32_payload(v).subrange(0, 4) =~= spec_u32_to_le_bytes(v));
}

/// A statistics slot parses back to the value it encodes.
proof fn lemma_parse_stat_rt(s: DtvStat)
    ensures
        spec_parse_stat(spec_stat_bytes(s)) == Ok::<DtvStat, ProtocolError>(s),
{
    lemma_auto_spec_u16_to_from_le_bytes();
    lemma_auto_spec_u64_to_from_le_bytes();
    match s {
        DtvStat::FE_SCALE_NOT_AVAILABLE(x) => {
            assert(spec_stat_bytes(s)[0] == 0);
            assert(x == (NoScale {}));
        },
        DtvStat::FE_SCALE_DECIBEL(x) => {
            let bytes = spec_stat_bytes(s);
            assert(bytes[0] == 1);
            assert(bytes.subrange(1, 9) =~= spec_u64_to_le_bytes(x.scale as u64));
            let sc = x.scale;
            assert(sc as u64 as i64 == sc) by (bit_vector);
        },
        DtvStat::FE_SCALE_RELATIVE(x) => {
            let bytes = spec_stat_bytes(s);
            assert(bytes[0] == 2);
            assert(bytes.subrange(1, 3) =~= spec_u16_to_le_bytes(x.scale));
        },
        DtvStat::FE_SCALE_COUNTER(x) => {
            let bytes = spec_stat_bytes(s);
            assert(bytes[0] == 3);
            assert(bytes.subrange(1, 9) =~= spec_u64_to_le_bytes(x.scale));
        },
    }
}

/// A statistics payload parses back to the value it encodes, for every
/// count within the fixed capacity.
proof fn lemma_stats_payload_rt(s: DtvFrontendStats)
    requires
        s.wf(),
    ensures
        spec_parse_stats(spec_stats_payload(s)) == Ok::<DtvFrontendStats, ProtocolError>(s),
{
    let data = spec_stats_payload(s);
    lemma_stat_bytes_len(s.stat0);
    lemma_stat_bytes_len(s.stat1);
    lemma_stat_bytes_len(s.stat2);
    lemma_stat_bytes_len(s.stat3);
    assert(data[0] == s.len);
    assert(data.subrange(1, 10) =~= spec_stat_bytes(s.stat0));
    assert(data.subrange(10, 19) =~= spec_stat_bytes(s.stat1));
    assert(data.subrange(19, 28) =~= spec_stat_bytes(s.stat2));
    assert(data.subrange(28, 37) =~= spec_stat_bytes(s.stat3));
    lemma_parse_stat_rt(s.stat0);
    lemma_parse_stat_rt(s.stat1);
    lemma_parse_stat_rt(s.stat2);
    lemma_parse_stat_rt(s.stat3);
}

/// A delivery-system list payload parses back to the bytes it encodes, for
/// every well-formed list.
proof fn lemma_delsys_payload_rt(b: DtvPropertyBuffer, r: Result<DtvProperty, ProtocolError>)
    requires
        b.wf(),
        delsys_decode_post(DTV_ENUM_DELSYS_CODE, spec_delsys_payload(b), r),
    ensures
        r is Ok,
        r->Ok_0 is DTV_ENUM_DELSYS,
        r->Ok_0->DTV_ENUM_DELSYS_0.data.data@ == b.data@,
{
    let data = spec_delsys_payload(b);
    let len = b.data@.len() as int;
    lemma_auto_spec_u32_to_from_le_bytes();
    assert(data.subrange(32, 36) =~= spec_u32_to_le_bytes(b.data@.len() as u32));
    let n = spec_u32_from_le_bytes(data.subrange(32, 36)) as int;
    assert(n == len);
    assert(forall|i: int| 0 <= i < len ==> data[i] == b.data@[i]);
    assert(!(exists|i: int|
        0 <= i < n && !(fe_delivery_system::from_repr_spec(#[trigger] data[i] as u32) is Some)));
    assert(data.subrange(0, n) =~= b.data@);
}

/// A property command: one named, tunable or readable attribute together
/// with its payload. Every kind has exactly one payload shape; the payload
/// area on the wire has one fixed size whatever the kind.
#[allow(non_camel_case_types)]
#[derive(Debug, Clone, PartialEq)]
pub enum DtvProperty {
    DTV_UNDEFINED(DtvPropertyNotImplementedLinux),
    DTV_TUNE(DtvPropertyRequest<VoidPayload>),
    DTV_CLEAR(DtvPropertyRequest<VoidPayload>),
    DTV_FREQUENCY(DtvPropertyRequest<u32>),
    DTV_MODULATION(DtvPropertyRequest<fe_modulation>),
    DTV_BANDWIDTH_HZ(DtvPropertyRequest<u32>),
    DTV_INVERSION(DtvPropertyRequest<fe_spectral_inversion>),
    DTV_DISEQC_MASTER(DtvPropertyNotImplementedLinux),
    DTV_SYMBOL_RATE(DtvPropertyRequest<u32>),
    DTV_INNER_FEC(DtvPropertyRequest<fe_code_rate>),
    DTV_VOLTAGE(DtvPropertyRequest<fe_sec_voltage>),
    DTV_TONE(DtvPropertyRequest<fe_sec_tone_mode>),
    DTV_PILOT(DtvPropertyRequest<fe_pilot>),
    DTV_ROLLOFF(DtvPropertyRequest<fe_rolloff>),
    DTV_DISEQC_SLAVE_REPLY(DtvPropertyNotImplementedLinux),
    DTV_FE_CAPABILITY_COUNT(DtvPropertyNotImplementedLinux),
    DTV_FE_CAPABILITY(DtvPropertyNotImplementedLinux),
    DTV_DELIVERY_SYSTEM(DtvPropertyRequest<fe_delivery_system>),
    DTV_ISDBT_PARTIAL_RECEPTION(DtvPropertyRequest<i32>),
    DTV_ISDBT_SOUND_BROADCASTING(DtvPropertyRequest<i32>),
    DTV_ISDBT_SB_SUBCHANNEL_ID(DtvPropertyRequest<i32>),
    DTV_ISDBT_SB_SEGMENT_IDX(DtvPropertyRequest<i32>),
    DTV_ISDBT_SB_SEGMENT_COUNT(DtvPropertyRequest<u32>),
    DTV_ISDBT_LAYERA_FEC(DtvPropertyRequest<fe_code_rate>),
    DTV_ISDBT_LAYERA_MODULATION(DtvPropertyRequest<fe_modulation>),
    DTV_ISDBT_LAYERA_SEGMENT_COUNT(DtvPropertyRequest<i32>),
    DTV_ISDBT_LAYERA_TIME_INTERLEAVING(DtvPropertyRequest<i32>),
    DTV_ISDBT_LAYERB_FEC(DtvPropertyRequest<fe_code_rate>),
    DTV_ISDBT_LAYERB_MODULATION(DtvPropertyRequest<fe_modulation>),
    DTV_ISDBT_LAYERB_SEGMENT_COUNT(DtvPropertyRequest<i32>),
    DTV_ISDBT_LAYERB_TIME_INTERLEAVING(DtvPropertyRequest<i32>),
    DTV_ISDBT_LAYERC_FEC(DtvPropertyRequest<fe_code_rate>),
    DTV_ISDBT_LAYERC_MODULATION(DtvPropertyRequest<fe_modulation>),
    DTV_ISDBT_LAYERC_SEGMENT_COUNT(DtvPropertyRequest<i32>),
    DTV_ISDBT_LAYERC_TIME_INTERLEAVING(DtvPropertyRequest<i32>),
    DTV_API_VERSION(DtvPropertyRequest<u32>),
    DTV_CODE_RATE_HP(DtvPropertyRequest<fe_code_rate>),
    DTV_CODE_RATE_LP(DtvPropertyRequest<fe_code_rate>),
    DTV_GUARD_INTERVAL(DtvPropertyRequest<fe_guard_interval>),
    DTV_TRANSMISSION_MODE(DtvPropertyRequest<fe_transmit_mode>),
    DTV_HIERARCHY(DtvPropertyRequest<fe_hierarchy>),
    DTV_ISDBT_LAYER_ENABLED(DtvPropertyRequest<u32>),
    DTV_STREAM_ID(DtvPropertyRequest<u32>),
    DTV_DVBT2_PLP_ID_LEGACY(DtvPropertyNotImplementedLinux),
    DTV_ENUM_DELSYS(DtvPropertyRequest<DtvPropertyBuffer>),
    DTV_ATSCMH_FIC_VER(DtvPropertyRequest<u32>),
    DTV_ATSCMH_PARADE_ID(DtvPropertyRequest<u32>),
    DTV_ATSCMH_NOG(DtvPropertyRequest<u32>),
    DTV_ATSCMH_TNOG(DtvPropertyRequest<u32>),
    DTV_ATSCMH_SGN(DtvPropertyRequest<u32>),
    DTV_ATSCMH_PRC(DtvPropertyRequest<u32>),
    DTV_ATSCMH_RS_FRAME_MODE(DtvPropertyNotImplementedLinux),
    DTV_ATSCMH_RS_FRAME_ENSEMBLE(DtvPropertyNotImplementedLinux),
    DTV_ATSCMH_RS_CODE_MODE_PRI(DtvPropertyNotImplementedLinux),
    DTV_ATSCMH_RS_CODE_MODE_SEC(DtvPropertyNotImplementedLinux),
    DTV_ATSCMH_SCCC_BLOCK_MODE(DtvPropertyNotImplementedLinux),
    DTV_ATSCMH_SCCC_CODE_MODE_A(DtvPropertyNotImplementedLinux),
    DTV_ATSCMH_SCCC_CODE_MODE_B(DtvPropertyNotImplementedLinux),
    DTV_ATSCMH_SCCC_CODE_MODE_C(DtvPropertyNotImplementedLinux),
    DTV_ATSCMH_SCCC_CODE_MODE_D(DtvPropertyNotImplementedLinux),
    DTV_INTERLEAVING(DtvPropertyRequest<fe_interleaving>),
    DTV_LNA(DtvPropertyRequest<fe_lna>),
    DTV_STAT_SIGNAL_STRENGTH(DtvPropertyRequest<DtvFrontendStats>),
    DTV_STAT_CNR(DtvPropertyRequest<DtvFrontendStats>),
    DTV_STAT_PRE_ERROR_BIT_COUNT(DtvPropertyRequest<DtvFrontendStats>),
    DTV_STAT_PRE_TOTAL_BIT_COUNT(DtvPropertyRequest<DtvFrontendStats>),
    DTV_STAT_POST_ERROR_BIT_COUNT(DtvPropertyRequest<DtvFrontendStats>),
    DTV_STAT_POST_TOTAL_BIT_COUNT(DtvPropertyRequest<DtvFrontendStats>),
    DTV_STAT_ERROR_BLOCK_COUNT(DtvPropertyRequest<DtvFrontendStats>),
    DTV_STAT_TOTAL_BLOCK_COUNT(DtvPropertyRequest<DtvFrontendStats>),
    DTV_SCRAMBLING_SEQUENCE_INDEX(DtvPropertyRequest<u32>),
}

impl DtvProperty {
    /// A list payload never exceeds its fixed wire capacity, and its
    /// entries lie in their closed sets.
    pub open spec fn wf(self) -> bool {
        match self {
            DtvProperty::DTV_UNDEFINED(_) => true,
            DtvProperty::DTV_TUNE(_) => true,
            DtvProperty::DTV_CLEAR(_) => true,
            DtvProperty::DTV_FREQUENCY(_) => true,
            DtvProperty::DTV_MODULATION(_) => true,
            DtvProperty::DTV_BANDWIDTH_HZ(_) => true,
            DtvProperty::DTV_INVERSION(_) => true,
            DtvProperty::DTV_DISEQC_MASTER(_) => true,
            DtvProperty::DTV_SYMBOL_RATE(_) => true,
            DtvProperty::DTV_INNER_FEC(_) => true,
            DtvProperty::DTV_VOLTAGE(_) => true,
            DtvProperty::DTV_TONE(_) => true,
            DtvProperty::DTV_PILOT(_) => true,
            DtvProperty::DTV_ROLLOFF(_) => true,
            DtvProperty::DTV_DISEQC_SLAVE_REPLY(_) => true,
            DtvProperty::DTV_FE_CAPABILITY_COUNT(_) => true,
            DtvProperty::DTV_FE_CAPABILITY(_) => true,
            DtvProperty::DTV_DELIVERY_SYSTEM(_) => true,
            DtvProperty::DTV_ISDBT_PARTIAL_RECEPTION(_) => true,
            DtvProperty::DTV_ISDBT_SOUND_BROADCASTING(_) => true,
            DtvProperty::DTV_ISDBT_SB_SUBCHANNEL_ID(_) => true,
            DtvProperty::DTV_ISDBT_SB_SEGMENT_IDX(_) => true,
            DtvProperty::DTV_ISDBT_SB_SEGMENT_COUNT(_) => true,
            DtvProperty::DTV_ISDBT_LAYERA_FEC(_) => true,
            DtvProperty::DTV_ISDBT_LAYERA_MODULATION(_) => true,
            DtvProperty::DTV_ISDBT_LAYERA_SEGMENT_COUNT(_) => true,
            DtvProperty::DTV_ISDBT_LAYERA_TIME_INTERLEAVING(_) => true,
            DtvProperty::DTV_ISDBT_LAYERB_FEC(_) => true,
            DtvProperty::DTV_ISDBT_LAYERB_MODULATION(_) => true,
            DtvProperty::DTV_ISDBT_LAYERB_SEGMENT_COUNT(_) => true,
            DtvProperty::DTV_ISDBT_LAYERB_TIME_INTERLEAVING(_) => true,
            DtvProperty::DTV_ISDBT_LAYERC_FEC(_) => true,
            DtvProperty::DTV_ISDBT_LAYERC_MODULATION(_) => true,
            DtvProperty::DTV_ISDBT_LAYERC_SEGMENT_COUNT(_) => true,
            DtvProperty::DTV_ISDBT_LAYERC_TIME_INTERLEAVING(_) => true,
            DtvProperty::DTV_API_VERSION(_) => true,
            DtvProperty::DTV_CODE_RATE_HP(_) => true,
            DtvProperty::DTV_CODE_RATE_LP(_) => true,
            DtvProperty::DTV_GUARD_INTERVAL(_) => true,
            DtvProperty::DTV_TRANSMISSION_MODE(_) => true,
            DtvProperty::DTV_HIERARCHY(_) => true,
            DtvProperty::DTV_ISDBT_LAYER_ENABLED(_) => true,
            DtvProperty::DTV_STREAM_ID(_) => true,
            DtvProperty::DTV_DVBT2_PLP_ID_LEGACY(_) => true,
            DtvProperty::DTV_ENUM_DELSYS(d) => d.data.wf(),
            DtvProperty::DTV_ATSCMH_FIC_VER(_) => true,
            DtvProperty::DTV_ATSCMH_PARADE_ID(_) => true,
            DtvProperty::DTV_ATSCMH_NOG(_) => true,
            DtvProperty::DTV_ATSCMH_TNOG(_) => true,
            DtvProperty::DTV_ATSCMH_SGN(_) => true,
            DtvProperty::DTV_ATSCMH_PRC(_) => true,
            DtvProperty::DTV_ATSCMH_RS_FRAME_MODE(_) => true,
            DtvProperty::DTV_ATSCMH_RS_FRAME_ENSEMBLE(_) => true,
            DtvProperty::DTV_ATSCMH_RS_CODE_MODE_PRI(_) => true,
            DtvProperty::DTV_ATSCMH_RS_CODE_MODE_SEC(_) => true,
            DtvProperty::DTV_ATSCMH_SCCC_BLOCK_MODE(_) => true,
            DtvProperty::DTV_ATSCMH_SCCC_CODE_MODE_A(_) => true,
            DtvProperty::DTV_ATSCMH_SCCC_CODE_MODE_B(_) => true,
            DtvProperty::DTV_ATSCMH_SCCC_CODE_MODE_C(_) => true,
            DtvProperty::DTV_ATSCMH_SCCC_CODE_MODE_D(_) => true,
            DtvProperty::DTV_INTERLEAVING(_) => true,
            DtvProperty::DTV_LNA(_) => true,
            DtvProperty::DTV_STAT_SIGNAL_STRENGTH(d) => d.data.wf(),
            DtvProperty::DTV_STAT_CNR(d) => d.data.wf(),
            DtvProperty::DTV_STAT_PRE_ERROR_BIT_COUNT(d) => d.data.wf(),
            DtvProperty::DTV_STAT_PRE_TOTAL_BIT_COUNT(d) => d.data.wf(),
            DtvProperty::DTV_STAT_POST_ERROR_BIT_COUNT(d) => d.data.wf(),
            DtvProperty::DTV_STAT_POST_TOTAL_BIT_COUNT(d) => d.data.wf(),
            DtvProperty::DTV_STAT_ERROR_BLOCK_COUNT(d) => d.data.wf(),
            DtvProperty::DTV_STAT_TOTAL_BLOCK_COUNT(d) => d.data.wf(),
            DtvProperty::DTV_SCRAMBLING_SEQUENCE_INDEX(_) => true,
        }
    }

    /// The wire discriminant that tags this kind of property.
    pub open spec fn code_spec(self) -> u32 {
        match self {
            DtvProperty::DTV_UNDEFINED(_) => 0,
            DtvProperty::DTV_TUNE(_) => 1,
            DtvProperty::DTV_CLEAR(_) => 2,
            DtvProperty::DTV_FREQUENCY(_) => 3,
            DtvProperty::DTV_MODULATION(_) => 4,
            DtvProperty::DTV_BANDWIDTH_HZ(_) => 5,
            DtvProperty::DTV_INVERSION(_) => 6,
            DtvProperty::DTV_DISEQC_MASTER(_) => 7,
            DtvProperty::DTV_SYMBOL_RATE(_) => 8,
            DtvProperty::DTV_INNER_FEC(_) => 9,
            DtvProperty::DTV_VOLTAGE(_) => 10,
            DtvProperty::DTV_TONE(_) => 11,
            DtvProperty::DTV_PILOT(_) => 12,
            DtvProperty::DTV_ROLLOFF(_) => 13,
            DtvProperty::DTV_DISEQC_SLAVE_REPLY(_) => 14,
            DtvProperty::DTV_FE_CAPABILITY_COUNT(_) => 15,
            DtvProperty::DTV_FE_CAPABILITY(_) => 16,
            DtvProperty::DTV_DELIVERY_SYSTEM(_) => 17,
            DtvProperty::DTV_ISDBT_PARTIAL_RECEPTION(_) => 18,
            DtvProperty::DTV_ISDBT_SOUND_BROADCASTING(_) => 19,
            DtvProperty::DTV_ISDBT_SB_SUBCHANNEL_ID(_) => 20,
            DtvProperty::DTV_ISDBT_SB_SEGMENT_IDX(_) => 21,
            DtvProperty::DTV_ISDBT_SB_SEGMENT_COUNT(_) => 22,
            DtvProperty::DTV_ISDBT_LAYERA_FEC(_) => 23,
            DtvProperty::DTV_ISDBT_LAYERA_MODULATION(_) => 24,
            DtvProperty::DTV_ISDBT_LAYERA_SEGMENT_COUNT(_) => 25,
            DtvProperty::DTV_ISDBT_LAYERA_TIME_INTERLEAVING(_) => 26,
            DtvProperty::DTV_ISDBT_LAYERB_FEC(_) => 27,
            DtvProperty::DTV_ISDBT_LAYERB_MODULATION(_) => 28,
            DtvProperty::DTV_ISDBT_LAYERB_SEGMENT_COUNT(_) => 29,
            DtvProperty::DTV_ISDBT_LAYERB_TIME_INTERLEAVING(_) => 30,
            DtvProperty::DTV_ISDBT_LAYERC_FEC(_) => 31,
            DtvProperty::DTV_ISDBT_LAYERC_MODULATION(_) => 32,
            DtvProperty::DTV_ISDBT_LAYERC_SEGMENT_COUNT(_) => 33,
            DtvProperty::DTV_ISDBT_LAYERC_TIME_INTERLEAVING(_) => 34,
            DtvProperty::DTV_API_VERSION(_) => 35,
            DtvProperty::DTV_CODE_RATE_HP(_) => 36,
            DtvProperty::DTV_CODE_RATE_LP(_) => 37,
            DtvProperty::DTV_GUARD_INTERVAL(_) => 38,
            DtvProperty::DTV_TRANSMISSION_MODE(_) => 39,
            DtvProperty::DTV_HIERARCHY(_) => 40,
            DtvProperty::DTV_ISDBT_LAYER_ENABLED(_) => 41,
            DtvProperty::DTV_STREAM_ID(_) => 42,
            DtvProperty::DTV_DVBT2_PLP_ID_LEGACY(_) => 43,
            DtvProperty::DTV_ENUM_DELSYS(_) => 44,
            DtvProperty::DTV_ATSCMH_FIC_VER(_) => 45,
            DtvProperty::DTV_ATSCMH_PARADE_ID(_) => 46,
            DtvProperty::DTV_ATSCMH_NOG(_) => 47,
            DtvProperty::DTV_ATSCMH_TNOG(_) => 48,
            DtvProperty::DTV_ATSCMH_SGN(_) => 49,
            DtvProperty::DTV_ATSCMH_PRC(_) => 50,
            DtvProperty::DTV_ATSCMH_RS_FRAME_MODE(_) => 51,
            DtvProperty::DTV_ATSCMH_RS_FRAME_ENSEMBLE(_) => 52,
            DtvProperty::DTV_ATSCMH_RS_CODE_MODE_PRI(_) => 53,
            DtvProperty::DTV_ATSCMH_RS_CODE_MODE_SEC(_) => 54,
            DtvProperty::DTV_ATSCMH_SCCC_BLOCK_MODE(_) => 55,
            DtvProperty::DTV_ATSCMH_SCCC_CODE_MODE_A(_) => 56,
            DtvProperty::DTV_ATSCMH_SCCC_CODE_MODE_B(_) => 57,
            DtvProperty::DTV_ATSCMH_SCCC_CODE_MODE_C(_) => 58,
            DtvProperty::DTV_ATSCMH_SCCC_CODE_MODE_D(_) => 59,
            DtvProperty::DTV_INTERLEAVING(_) => 60,
            DtvProperty::DTV_LNA(_) => 61,
            DtvProperty::DTV_STAT_SIGNAL_STRENGTH(_) => 62,
            DtvProperty::DTV_STAT_CNR(_) => 63,
            DtvProperty::DTV_STAT_PRE_ERROR_BIT_COUNT(_) => 64,
            DtvProperty::DTV_STAT_PRE_TOTAL_BIT_COUNT(_) => 65,
            DtvProperty::DTV_STAT_POST_ERROR_BIT_COUNT(_) => 66,
            DtvProperty::DTV_STAT_POST_TOTAL_BIT_COUNT(_) => 67,
            DtvProperty::DTV_STAT_ERROR_BLOCK_COUNT(_) => 68,
            DtvProperty::DTV_STAT_TOTAL_BLOCK_COUNT(_) => 69,
            DtvProperty::DTV_SCRAMBLING_SEQUENCE_INDEX(_) => 70,
        }
    }

    /// Returns whether the property's payload is well-formed: a list
    /// payload fits its fixed capacity and its entries lie in their
    /// closed sets.
    pub fn is_well_formed(&self) -> (r: bool)
        ensures
            r == self.wf(),
    {
        match self {
            DtvProperty::DTV_STAT_SIGNAL_STRENGTH(d) => d.data.len <= 4,
            DtvProperty::DTV_STAT_CNR(d) => d.data.len <= 4,
            DtvProperty::DTV_STAT_PRE_ERROR_BIT_COUNT(d) => d.data.len <= 4,
            DtvProperty::DTV_STAT_PRE_TOTAL_BIT_COUNT(d) => d.data.len <= 4,
            DtvProperty::DTV_STAT_POST_ERROR_BIT_COUNT(d) => d.data.len <= 4,
            DtvProperty::DTV_STAT_POST_TOTAL_BIT_COUNT(d) => d.data.len <= 4,
            DtvProperty::DTV_STAT_ERROR_BLOCK_COUNT(d) => d.data.len <= 4,
            DtvProperty::DTV_STAT_TOTAL_BLOCK_COUNT(d) => d.data.len <= 4,
            DtvProperty::DTV_ENUM_DELSYS(d) => d.data.is_well_formed(),
            _ => true,
        }
    }

    /// Returns the wire discriminant that tags this kind of property.
    pub fn code(&self) -> (r: u32)
        ensures
            r == self.code_spec(),
    {
        match self {
            DtvProperty::DTV_UNDEFINED(_) => 0,
            DtvProperty::DTV_TUNE(_) => 1,
            DtvProperty::DTV_CLEAR(_) => 2,
            DtvProperty::DTV_FREQUENCY(_) => 3,
            DtvProperty::DTV_MODULATION(_) => 4,
            DtvProperty::DTV_BANDWIDTH_HZ(_) => 5,
            DtvProperty::DTV_INVERSION(_) => 6,
            DtvProperty::DTV_DISEQC_MASTER(_) => 7,
            DtvProperty::DTV_SYMBOL_RATE(_) => 8,
            DtvProperty::DTV_INNER_FEC(_) => 9,
            DtvProperty::DTV_VOLTAGE(_) => 10,
            DtvProperty::DTV_TONE(_) => 11,
            DtvProperty::DTV_PILOT(_) => 12,
            DtvProperty::DTV_ROLLOFF(_) => 13,
            DtvProperty::DTV_DISEQC_SLAVE_REPLY(_) => 14,
            DtvProperty::DTV_FE_CAPABILITY_COUNT(_) => 15,
            DtvProperty::DTV_FE_CAPABILITY(_) => 16,
            DtvProperty::DTV_DELIVERY_SYSTEM(_) => 17,
            DtvProperty::DTV_ISDBT_PARTIAL_RECEPTION(_) => 18,
            DtvProperty::DTV_ISDBT_SOUND_BROADCASTING(_) => 19,
            DtvProperty::DTV_ISDBT_SB_SUBCHANNEL_ID(_) => 20,
            DtvProperty::DTV_ISDBT_SB_SEGMENT_IDX(_) => 21,
            DtvProperty::DTV_ISDBT_SB_SEGMENT_COUNT(_) => 22,
            DtvProperty::DTV_ISDBT_LAYERA_FEC(_) => 23,
            DtvProperty::DTV_ISDBT_LAYERA_MODULATION(_) => 24,
            DtvProperty::DTV_ISDBT_LAYERA_SEGMENT_COUNT(_) => 25,
            DtvProperty::DTV_ISDBT_LAYERA_TIME_INTERLEAVING(_) => 26,
            DtvProperty::DTV_ISDBT_LAYERB_FEC(_) => 27,
            DtvProperty::DTV_ISDBT_LAYERB_MODULATION(_) => 28,
            DtvProperty::DTV_ISDBT_LAYERB_SEGMENT_COUNT(_) => 29,
            DtvProperty::DTV_ISDBT_LAYERB_TIME_INTERLEAVING(_) => 30,
            DtvProperty::DTV_ISDBT_LAYERC_FEC(_) => 31,
            DtvProperty::DTV_ISDBT_LAYERC_MODULATION(_) => 32,
            DtvProperty::DTV_ISDBT_LAYERC_SEGMENT_COUNT(_) => 33,
            DtvProperty::DTV_ISDBT_LAYERC_TIME_INTERLEAVING(_) => 34,
            DtvProperty::DTV_API_VERSION(_) => 35,
            DtvProperty::DTV_CODE_RATE_HP(_) => 36,
            DtvProperty::DTV_CODE_RATE_LP(_) => 37,
            DtvProperty::DTV_GUARD_INTERVAL(_) => 38,
            DtvProperty::DTV_TRANSMISSION_MODE(_) => 39,
            DtvProperty::DTV_HIERARCHY(_) => 40,
            DtvProperty::DTV_ISDBT_LAYER_ENABLED(_) => 41,
            DtvProperty::DTV_STREAM_ID(_) => 42,
            DtvProperty::DTV_DVBT2_PLP_ID_LEGACY(_) => 43,
            DtvProperty::DTV_ENUM_DELSYS(_) => 44,
            DtvProperty::DTV_ATSCMH_FIC_VER(_) => 45,
            DtvProperty::DTV_ATSCMH_PARADE_ID(_) => 46,
            DtvProperty::DTV_ATSCMH_NOG(_) => 47,
            DtvProperty::DTV_ATSCMH_TNOG(_) => 48,
            DtvProperty::DTV_ATSCMH_SGN(_) => 49,
            DtvProperty::DTV_ATSCMH_PRC(_) => 50,
            DtvProperty::DTV_ATSCMH_RS_FRAME_MODE(_) => 51,
            DtvProperty::DTV_ATSCMH_RS_FRAME_ENSEMBLE(_) => 52,
            DtvProperty::DTV_ATSCMH_RS_CODE_MODE_PRI(_) => 53,
            DtvProperty::DTV_ATSCMH_RS_CODE_MODE_SEC(_) => 54,
            DtvProperty::DTV_ATSCMH_SCCC_BLOCK_MODE(_) => 55,
            DtvProperty::DTV_ATSCMH_SCCC_CODE_MODE_A(_) => 56,
            DtvProperty::DTV_ATSCMH_SCCC_CODE_MODE_B(_) => 57,
            DtvProperty::DTV_ATSCMH_SCCC_CODE_MODE_C(_) => 58,
            DtvProperty::DTV_ATSCMH_SCCC_CODE_MODE_D(_) => 59,
            DtvProperty::DTV_INTERLEAVING(_) => 60,
            DtvProperty::DTV_LNA(_) => 61,
            DtvProperty::DTV_STAT_SIGNAL_STRENGTH(_) => 62,
            DtvProperty::DTV_STAT_CNR(_) => 63,
            DtvProperty::DTV_STAT_PRE_ERROR_BIT_COUNT(_) => 64,
            DtvProperty::DTV_STAT_PRE_TOTAL_BIT_COUNT(_) => 65,
            DtvProperty::DTV_STAT_POST_ERROR_BIT_COUNT(_) => 66,
            DtvProperty::DTV_STAT_POST_TOTAL_BIT_COUNT(_) => 67,
            DtvProperty::DTV_STAT_ERROR_BLOCK_COUNT(_) => 68,
            DtvProperty::DTV_STAT_TOTAL_BLOCK_COUNT(_) => 69,
            DtvProperty::DTV_SCRAMBLING_SEQUENCE_INDEX(_) => 70,
        }
    }
}

/// The payload area that encoding a property produces: the value laid out
/// per the kind's fixed shape, zero-padded to the constant payload size.
pub open spec fn spec_encode_payload(p: DtvProperty) -> Seq<u8> {
    match p {
        DtvProperty::DTV_UNDEFINED(_) => spec_void_payload(),
        DtvProperty::DTV_TUNE(_) => spec_void_payload(),
        DtvProperty::DTV_CLEAR(_) => spec_void_payload(),
        DtvProperty::DTV_FREQUENCY(d) => spec_u32_payload(d.data),
        DtvProperty::DTV_MODULATION(d) => spec_u32_payload(d.data.code_spec()),
        DtvProperty::DTV_BANDWIDTH_HZ(d) => spec_u32_payload(d.data),
        DtvProperty::DTV_INVERSION(d) => spec_u32_payload(d.data.code_spec()),
        DtvProperty::DTV_DISEQC_MASTER(_) => spec_void_payload(),
        DtvProperty::DTV_SYMBOL_RATE(d) => spec_u32_payload(d.data),
        DtvProperty::DTV_INNER_FEC(d) => spec_u32_payload(d.data.code_spec()),
        DtvProperty::DTV_VOLTAGE(d) => spec_u32_payload(d.data.code_spec()),
        DtvProperty::DTV_TONE(d) => spec_u32_payload(d.data.code_spec()),
        DtvProperty::DTV_PILOT(d) => spec_u32_payload(d.data.code_spec()),
        DtvProperty::DTV_ROLLOFF(d) => spec_u32_payload(d.data.code_spec()),
        DtvProperty::DTV_DISEQC_SLAVE_REPLY(_) => spec_void_payload(),
        DtvProperty::DTV_FE_CAPABILITY_COUNT(_) => spec_void_payload(),
        DtvProperty::DTV_FE_CAPABILITY(_) => spec_void_payload(),
        DtvProperty::DTV_DELIVERY_SYSTEM(d) => spec_u32_payload(d.data.code_spec()),
        DtvProperty::DTV_ISDBT_PARTIAL_RECEPTION(d) => spec_u32_payload(d.data as u32),
        DtvProperty::DTV_ISDBT_SOUND_BROADCASTING(d) => spec_u32_payload(d.data as u32),
        DtvProperty::DTV_ISDBT_SB_SUBCHANNEL_ID(d) => spec_u32_payload(d.data as u32),
        DtvProperty::DTV_ISDBT_SB_SEGMENT_IDX(d) => spec_u32_payload(d.data as u32),
        DtvProperty::DTV_ISDBT_SB_SEGMENT_COUNT(d) => spec_u32_payload(d.data),
        DtvProperty::DTV_ISDBT_LAYERA_FEC(d) => spec_u32_payload(d.data.code_spec()),
        DtvProperty::DTV_ISDBT_LAYERA_MODULATION(d) => spec_u32_payload(d.data.code_spec()),
        DtvProperty::DTV_ISDBT_LAYERA_SEGMENT_COUNT(d) => spec_u32_payload(d.data as u32),
        DtvProperty::DTV_ISDBT_LAYERA_TIME_INTERLEAVING(d) => spec_u32_payload(d.data as u32),
        DtvProperty::DTV_ISDBT_LAYERB_FEC(d) => spec_u32_payload(d.data.code_spec()),
        DtvProperty::DTV_ISDBT_LAYERB_MODULATION(d) => spec_u32_payload(d.data.code_spec()),
        DtvProperty::DTV_ISDBT_LAYERB_SEGMENT_COUNT(d) => spec_u32_payload(d.data as u32),
        DtvProperty::DTV_ISDBT_LAYERB_TIME_INTERLEAVING(d) => spec_u32_payload(d.data as u32),
        DtvProperty::DTV_ISDBT_LAYERC_FEC(d) => spec_u32_payload(d.data.code_spec()),
        DtvProperty::DTV_ISDBT_LAYERC_MODULATION(d) => spec_u32_payload(d.data.code_spec()),
        DtvProperty::DTV_ISDBT_LAYERC_SEGMENT_COUNT(d) => spec_u32_payload(d.data as u32),
        DtvProperty::DTV_ISDBT_LAYERC_TIME_INTERLEAVING(d) => spec_u32_payload(d.data as u32),
        DtvProperty::DTV_API_VERSION(d) => spec_u32_payload(d.data),
        DtvProperty::DTV_CODE_RATE_HP(d) => spec_u32_payload(d.data.code_spec()),
        DtvProperty::DTV_CODE_RATE_LP(d) => spec_u32_payload(d.data.code_spec()),
        DtvProperty::DTV_GUARD_INTERVAL(d) => spec_u32_payload(d.data.code_spec()),
        DtvProperty::DTV_TRANSMISSION_MODE(d) => spec_u32_payload(d.data.code_spec()),
        DtvProperty::DTV_HIERARCHY(d) => spec_u32_payload(d.data.code_spec()),
        DtvProperty::DTV_ISDBT_LAYER_ENABLED(d) => spec_u32_payload(d.data),
        DtvProperty::DTV_STREAM_ID(d) => spec_u32_payload(d.data),
        DtvProperty::DTV_DVBT2_PLP_ID_LEGACY(_) => spec_void_payload(),
        DtvProperty::DTV_ENUM_DELSYS(d) => spec_delsys_payload(d.data),
        DtvProperty::DTV_ATSCMH_FIC_VER(d) => spec_u32_payload(d.data),
        DtvProperty::DTV_ATSCMH_PARADE_ID(d) => spec_u32_payload(d.data),
        DtvProperty::DTV_ATSCMH_NOG(d) => spec_u32_payload(d.data),
        DtvProperty::DTV_ATSCMH_TNOG(d) => spec_u32_payload(d.data),
        DtvProperty::DTV_ATSCMH_SGN(d) => spec_u32_payload(d.data),
        DtvProperty::DTV_ATSCMH_PRC(d) => spec_u32_payload(d.data),
        DtvProperty::DTV_ATSCMH_RS_FRAME_MODE(_) => spec_void_payload(),
        DtvProperty::DTV_ATSCMH_RS_FRAME_ENSEMBLE(_) => spec_void_payload(),
        DtvProperty::DTV_ATSCMH_RS_CODE_MODE_PRI(_) => spec_void_payload(),
        DtvProperty::DTV_ATSCMH_RS_CODE_MODE_SEC(_) => spec_void_payload(),
        DtvProperty::DTV_ATSCMH_SCCC_BLOCK_MODE(_) => spec_void_payload(),
        DtvProperty::DTV_ATSCMH_SCCC_CODE_MODE_A(_) => spec_void_payload(),
        DtvProperty::DTV_ATSCMH_SCCC_CODE_MODE_B(_) => spec_void_payload(),
        DtvProperty::DTV_ATSCMH_SCCC_CODE_MODE_C(_) => spec_void_payload(),
        DtvProperty::DTV_ATSCMH_SCCC_CODE_MODE_D(_) => spec_void_payload(),
        DtvProperty::DTV_INTERLEAVING(d) => spec_u32_payload(d.data.code_spec()),
        DtvProperty::DTV_LNA(d) => spec_u32_payload(d.data.code_spec()),
        DtvProperty::DTV_STAT_SIGNAL_STRENGTH(d) => spec_stats_payload(d.data),
        DtvProperty::DTV_STAT_CNR(d) => spec_stats_payload(d.data),
        DtvProperty::DTV_STAT_PRE_ERROR_BIT_COUNT(d) => spec_stats_payload(d.data),
        DtvProperty::DTV_STAT_PRE_TOTAL_BIT_COUNT(d) => spec_stats_payload(d.data),
        DtvProperty::DTV_STAT_POST_ERROR_BIT_COUNT(d) => spec_stats_payload(d.data),
        DtvProperty::DTV_STAT_POST_TOTAL_BIT_COUNT(d) => spec_stats_payload(d.data),
        DtvProperty::DTV_STAT_ERROR_BLOCK_COUNT(d) => spec_stats_payload(d.data),
        DtvProperty::DTV_STAT_TOTAL_BLOCK_COUNT(d) => spec_stats_payload(d.data),
        DtvProperty::DTV_SCRAMBLING_SEQUENCE_INDEX(d) => spec_u32_payload(d.data),
    }
}

/// Encodes a property into the fixed-size wire record: the record's
/// discriminant is the kind's tag, its payload area holds the value laid
/// out per the kind's fixed shape, zero-padded to the constant size.
pub fn encode(p: &DtvProperty) -> (r: WireRecord)
    requires
        p.wf(),
    ensures
        r.wf(),
        r.cmd == p.code_spec(),
        r.data@ == spec_encode_payload(*p),
{
    match p {
        DtvProperty::DTV_UNDEFINED(_) => WireRecord { cmd: 0, data: payload_void() },
        DtvProperty::DTV_TUNE(_) => WireRecord { cmd: 1, data: payload_void() },
        DtvProperty::DTV_CLEAR(_) => WireRecord { cmd: 2, data: payload_void() },
        DtvProperty::DTV_FREQUENCY(d) => WireRecord { cmd: 3, data: payload_u32(d.data) },
        DtvProperty::DTV_MODULATION(d) => WireRecord { cmd: 4, data: payload_u32(d.data.code()) },
        DtvProperty::DTV_BANDWIDTH_HZ(d) => WireRecord { cmd: 5, data: payload_u32(d.data) },
        DtvProperty::DTV_INVERSION(d) => WireRecord { cmd: 6, data: payload_u32(d.data.code()) },
        DtvProperty::DTV_DISEQC_MASTER(_) => WireRecord { cmd: 7, data: payload_void() },
        DtvProperty::DTV_SYMBOL_RATE(d) => WireRecord { cmd: 8, data: payload_u32(d.data) },
        DtvProperty::DTV_INNER_FEC(d) => WireRecord { cmd: 9, data: payload_u32(d.data.code()) },
        DtvProperty::DTV_VOLTAGE(d) => WireRecord { cmd: 10, data: payload_u32(d.data.code()) },
        DtvProperty::DTV_TONE(d) => WireRecord { cmd: 11, data: payload_u32(d.data.code()) },
        DtvProperty::DTV_PILOT(d) => WireRecord { cmd: 12, data: payload_u32(d.data.code()) },
        DtvProperty::DTV_ROLLOFF(d) => WireRecord { cmd: 13, data: payload_u32(d.data.code()) },
        DtvProperty::DTV_DISEQC_SLAVE_REPLY(_) => WireRecord { cmd: 14, data: payload_void() },
        DtvProperty::DTV_FE_CAPABILITY_COUNT(_) => WireRecord { cmd: 15, data: payload_void() },
        DtvProperty::DTV_FE_CAPABILITY(_) => WireRecord { cmd: 16, data: payload_void() },
        DtvProperty::DTV_DELIVERY_SYSTEM(d) => WireRecord { cmd: 17, data: payload_u32(d.data.code()) },
        DtvProperty::DTV_ISDBT_PARTIAL_RECEPTION(d) => WireRecord { cmd: 18, data: payload_u32(d.data as u32) },
        DtvProperty::DTV_ISDBT_SOUND_BROADCASTING(d) => WireRecord { cmd: 19, data: payload_u32(d.data as u32) },
        DtvProperty::DTV_ISDBT_SB_SUBCHANNEL_ID(d) => WireRecord { cmd: 20, data: payload_u32(d.data as u32) },
        DtvProperty::DTV_ISDBT_SB_SEGMENT_IDX(d) => WireRecord { cmd: 21, data: payload_u32(d.data as u32) },
        DtvProperty::DTV_ISDBT_SB_SEGMENT_COUNT(d) => WireRecord { cmd: 22, data: payload_u32(d.data) },
        DtvProperty::DTV_ISDBT_LAYERA_FEC(d) => WireRecord { cmd: 23, data: payload_u32(d.data.code()) },
        DtvProperty::DTV_ISDBT_LAYERA_MODULATION(d) => WireRecord { cmd: 24, data: payload_u32(d.data.code()) },
        DtvProperty::DTV_ISDBT_LAYERA_SEGMENT_COUNT(d) => WireRecord { cmd: 25, data: payload_u32(d.data as u32) },
        DtvProperty::DTV_ISDBT_LAYERA_TIME_INTERLEAVING(d) => WireRecord { cmd: 26, data: payload_u32(d.data as u32) },
        DtvProperty::DTV_ISDBT_LAYERB_FEC(d) => WireRecord { cmd: 27, data: payload_u32(d.data.code()) },
        DtvProperty::DTV_ISDBT_LAYERB_MODULATION(d) => WireRecord { cmd: 28, data: payload_u32(d.data.code()) },
        DtvProperty::DTV_ISDBT_LAYERB_SEGMENT_COUNT(d) => WireRecord { cmd: 29, data: payload_u32(d.data as u32) },
        DtvProperty::DTV_ISDBT_LAYERB_TIME_INTERLEAVING(d) => WireRecord { cmd: 30, data: payload_u32(d.data as u32) },
        DtvProperty::DTV_ISDBT_LAYERC_FEC(d) => WireRecord { cmd: 31, data: payload_u32(d.data.code()) },
        DtvProperty::DTV_ISDBT_LAYERC_MODULATION(d) => WireRecord { cmd: 32, data: payload_u32(d.data.code()) },
        DtvProperty::DTV_ISDBT_LAYERC_SEGMENT_COUNT(d) => WireRecord { cmd: 33, data: payload_u32(d.data as u32) },
        DtvProperty::DTV_ISDBT_LAYERC_TIME_INTERLEAVING(d) => WireRecord { cmd: 34, data: payload_u32(d.data as u32) },
        DtvProperty::DTV_API_VERSION(d) => WireRecord { cmd: 35, data: payload_u32(d.data) },
        DtvProperty::DTV_CODE_RATE_HP(d) => WireRecord { cmd: 36, data: payload_u32(d.data.code()) },
        DtvProperty::DTV_CODE_RATE_LP(d) => WireRecord { cmd: 37, data: payload_u32(d.data.code()) },
        DtvProperty::DTV_GUARD_INTERVAL(d) => WireRecord { cmd: 38, data: payload_u32(d.data.code()) },
        DtvProperty::DTV_TRANSMISSION_MODE(d) => WireRecord { cmd: 39, data: payload_u32(d.data.code()) },
        DtvProperty::DTV_HIERARCHY(d) => WireRecord { cmd: 40, data: payload_u32(d.data.code()) },
        DtvProperty::DTV_ISDBT_LAYER_ENABLED(d) => WireRecord { cmd: 41, data: payload_u32(d.data) },
        DtvProperty::DTV_STREAM_ID(d) => WireRecord { cmd: 42, data: payload_u32(d.data) },
        DtvProperty::DTV_DVBT2_PLP_ID_LEGACY(_) => WireRecord { cmd: 43, data: payload_void() },
        DtvProperty::DTV_ENUM_DELSYS(d) => WireRecord { cmd: 44, data: payload_delsys(&d.data) },
        DtvProperty::DTV_ATSCMH_FIC_VER(d) => WireRecord { cmd: 45, data: payload_u32(d.data) },
        DtvProperty::DTV_ATSCMH_PARADE_ID(d) => WireRecord { cmd: 46, data: payload_u32(d.data) },
        DtvProperty::DTV_ATSCMH_NOG(d) => WireRecord { cmd: 47, data: payload_u32(d.data) },
        DtvProperty::DTV_ATSCMH_TNOG(d) => WireRecord { cmd: 48, data: payload_u32(d.data) },
        DtvProperty::DTV_ATSCMH_SGN(d) => WireRecord { cmd: 49, data: payload_u32(d.data) },
        DtvProperty::DTV_ATSCMH_PRC(d) => WireRecord { cmd: 50, data: payload_u32(d.data) },
        DtvProperty::DTV_ATSCMH_RS_FRAME_MODE(_) => WireRecord { cmd: 51, data: payload_void() },
        DtvProperty::DTV_ATSCMH_RS_FRAME_ENSEMBLE(_) => WireRecord { cmd: 52, data: payload_void() },
        DtvProperty::DTV_ATSCMH_RS_CODE_MODE_PRI(_) => WireRecord { cmd: 53, data: payload_void() },
        DtvProperty::DTV_ATSCMH_RS_CODE_MODE_SEC(_) => WireRecord { cmd: 54, data: payload_void() },
        DtvProperty::DTV_ATSCMH_SCCC_BLOCK_MODE(_) => WireRecord { cmd: 55, data: payload_void() },
        DtvProperty::DTV_ATSCMH_SCCC_CODE_MODE_A(_) => WireRecord { cmd: 56, data: payload_void() },
        DtvProperty::DTV_ATSCMH_SCCC_CODE_MODE_B(_) => WireRecord { cmd: 57, data: payload_void() },
        DtvProperty::DTV_ATSCMH_SCCC_CODE_MODE_C(_) => WireRecord { cmd: 58, data: payload_void() },
        DtvProperty::DTV_ATSCMH_SCCC_CODE_MODE_D(_) => WireRecord { cmd: 59, data: payload_void() },
        DtvProperty::DTV_INTERLEAVING(d) => WireRecord { cmd: 60, data: payload_u32(d.data.code()) },
        DtvProperty::DTV_LNA(d) => WireRecord { cmd: 61, data: payload_u32(d.data.code()) },
        DtvProperty::DTV_STAT_SIGNAL_STRENGTH(d) => WireRecord { cmd: 62, data: payload_stats(&d.data) },
        DtvProperty::DTV_STAT_CNR(d) => WireRecord { cmd: 63, data: payload_stats(&d.data) },
        DtvProperty::DTV_STAT_PRE_ERROR_BIT_COUNT(d) => WireRecord { cmd: 64, data: payload_stats(&d.data) },
        DtvProperty::DTV_STAT_PRE_TOTAL_BIT_COUNT(d) => WireRecord { cmd: 65, data: payload_stats(&d.data) },
        DtvProperty::DTV_STAT_POST_ERROR_BIT_COUNT(d) => WireRecord { cmd: 66, data: payload_stats(&d.data) },
        DtvProperty::DTV_STAT_POST_TOTAL_BIT_COUNT(d) => WireRecord { cmd: 67, data: payload_stats(&d.data) },
        DtvProperty::DTV_STAT_ERROR_BLOCK_COUNT(d) => WireRecord { cmd: 68, data: payload_stats(&d.data) },
        DtvProperty::DTV_STAT_TOTAL_BLOCK_COUNT(d) => WireRecord { cmd: 69, data: payload_stats(&d.data) },
        DtvProperty::DTV_SCRAMBLING_SEQUENCE_INDEX(d) => WireRecord { cmd: 70, data: payload_u32(d.data) },
    }
}

/// What decoding a record as the kind tagged `code` yields, for every
/// fixed-shape kind. The one variable-length kind, the delivery-system
/// list, is described by `delsys_decode_post` instead, since its payload
/// carries owned storage that a specification cannot construct.
pub open spec fn spec_decode_fixed(code: u32, cmd: u32, data: Seq<u8>) -> Result<
    DtvProperty,
    ProtocolError,
> {
    if cmd != code {
        Err(ProtocolError::TagMismatch)
    } else if code == 0 {
        Ok(DtvProperty::DTV_UNDEFINED(DtvPropertyNotImplementedLinux {}))
    } else if code == 1 {
        Ok(DtvProperty::DTV_TUNE(DtvPropertyRequest { data: VoidPayload {} }))
    } else if code == 2 {
        Ok(DtvProperty::DTV_CLEAR(DtvPropertyRequest { data: VoidPayload {} }))
    } else if code == 3 {
        Ok(DtvProperty::DTV_FREQUENCY(DtvPropertyRequest { data: spec_parse_u32(data) }))
    } else if code == 4 {
        match fe_modulation::from_repr_spec(spec_parse_u32(data)) {
            Some(m) => Ok(DtvProperty::DTV_MODULATION(DtvPropertyRequest { data: m })),
            None => Err(ProtocolError::InvalidValue),
        }
    } else if code == 5 {
        Ok(DtvProperty::DTV_BANDWIDTH_HZ(DtvPropertyRequest { data: spec_parse_u32(data) }))
    } else if code == 6 {
        match fe_spectral_inversion::from_repr_spec(spec_parse_u32(data)) {
            Some(m) => Ok(DtvProperty::DTV_INVERSION(DtvPropertyRequest { data: m })),
            None => Err(ProtocolError::InvalidValue),
        }
    } else if code == 7 {
        Ok(DtvProperty::DTV_DISEQC_MASTER(DtvPropertyNotImplementedLinux {}))
    } else if code == 8 {
        Ok(DtvProperty::DTV_SYMBOL_RATE(DtvPropertyRequest { data: spec_parse_u32(data) }))
    } else if code == 9 {
        match fe_code_rate::from_repr_spec(spec_parse_u32(data)) {
            Some(m) => Ok(DtvProperty::DTV_INNER_FEC(DtvPropertyRequest { data: m })),
            None => Err(ProtocolError::InvalidValue),
        }
    } else if code == 10 {
        match fe_sec_voltage::from_repr_spec(spec_parse_u32(data)) {
            Some(m) => Ok(DtvProperty::DTV_VOLTAGE(DtvPropertyRequest { data: m })),
            None => Err(ProtocolError::InvalidValue),
        }
    } else if code == 11 {
        match fe_sec_tone_mode::from_repr_spec(spec_parse_u32(data)) {
            Some(m) => Ok(DtvProperty::DTV_TONE(DtvPropertyRequest { data: m })),
            None => Err(ProtocolError::InvalidValue),
        }
    } else if code == 12 {
        match fe_pilot::from_repr_spec(spec_parse_u32(data)) {
            Some(m) => Ok(DtvProperty::DTV_PILOT(DtvPropertyRequest { data: m })),
            None => Err(ProtocolError::InvalidValue),
        }
    } else if code == 13 {
        match fe_rolloff::from_repr_spec(spec_parse_u32(data)) {
            Some(m) => Ok(DtvProperty::DTV_ROLLOFF(DtvPropertyRequest { data: m })),
            None => Err(ProtocolError::InvalidValue),
        }
    } else if code == 14 {
        Ok(DtvProperty::DTV_DISEQC_SLAVE_REPLY(DtvPropertyNotImplementedLinux {}))
    } else if code == 15 {
        Ok(DtvProperty::DTV_FE_CAPABILITY_COUNT(DtvPropertyNotImplementedLinux {}))
    } else if code == 16 {
        Ok(DtvProperty::DTV_FE_CAPABILITY(DtvPropertyNotImplementedLinux {}))
    } else if code == 17 {
        match fe_delivery_system::from_repr_spec(spec_parse_u32(data)) {
            Some(m) => Ok(DtvProperty::DTV_DELIVERY_SYSTEM(DtvPropertyRequest { data: m })),
            None => Err(ProtocolError::InvalidValue),
        }
    } else if code == 18 {
        Ok(DtvProperty::DTV_ISDBT_PARTIAL_RECEPTION(DtvPropertyRequest { data: spec_parse_u32(data) as i32 }))
    } else if code == 19 {
        Ok(DtvProperty::DTV_ISDBT_SOUND_BROADCASTING(DtvPropertyRequest { data: spec_parse_u32(data) as i32 }))
    } else if code == 20 {
        Ok(DtvProperty::DTV_ISDBT_SB_SUBCHANNEL_ID(DtvPropertyRequest { data: spec_parse_u32(data) as i32 }))
    } else if code == 21 {
        Ok(DtvProperty::DTV_ISDBT_SB_SEGMENT_IDX(DtvPropertyRequest { data: spec_parse_u32(data) as i32 }))
    } else if code == 22 {
        Ok(DtvProperty::DTV_ISDBT_SB_SEGMENT_COUNT(DtvPropertyRequest { data: spec_parse_u32(data) }))
    } else if code == 23 {
        match fe_code_rate::from_repr_spec(spec_parse_u32(data)) {
            Some(m) => Ok(DtvProperty::DTV_ISDBT_LAYERA_FEC(DtvPropertyRequest { data: m })),
            None => Err(ProtocolError::InvalidValue),
        }
    } else if code == 24 {
        match fe_modulation::from_repr_spec(spec_parse_u32(data)) {
            Some(m) => Ok(DtvProperty::DTV_ISDBT_LAYERA_MODULATION(DtvPropertyRequest { data: m })),
            None => Err(ProtocolError::InvalidValue),
        }
    } else if code == 25 {
        Ok(DtvProperty::DTV_ISDBT_LAYERA_SEGMENT_COUNT(DtvPropertyRequest { data: spec_parse_u32(data) as i32 }))
    } else if code == 26 {
        Ok(DtvProperty::DTV_ISDBT_LAYERA_TIME_INTERLEAVING(DtvPropertyRequest { data: spec_parse_u32(data) as i32 }))
    } else if code == 27 {
        match fe_code_rate::from_repr_spec(spec_parse_u32(data)) {
            Some(m) => Ok(DtvProperty::DTV_ISDBT_LAYERB_FEC(DtvPropertyRequest { data: m })),
            None => Err(ProtocolError::InvalidValue),
        }
    } else if code == 28 {
        match fe_modulation::from_repr_spec(spec_parse_u32(data)) {
            Some(m) => Ok(DtvProperty::DTV_ISDBT_LAYERB_MODULATION(DtvPropertyRequest { data: m })),
            None => Err(ProtocolError::InvalidValue),
        }
    } else if code == 29 {
        Ok(DtvProperty::DTV_ISDBT_LAYERB_SEGMENT_COUNT(DtvPropertyRequest { data: spec_parse_u32(data) as i32 }))
    } else if code == 30 {
        Ok(DtvProperty::DTV_ISDBT_LAYERB_TIME_INTERLEAVING(DtvPropertyRequest { data: spec_parse_u32(data) as i32 }))
    } else if code == 31 {
        match fe_code_rate::from_repr_spec(spec_parse_u32(data)) {
            Some(m) => Ok(DtvProperty::DTV_ISDBT_LAYERC_FEC(DtvPropertyRequest { data: m })),
            None => Err(ProtocolError::InvalidValue),
        }
    } else if code == 32 {
        match fe_modulation::from_repr_spec(spec_parse_u32(data)) {
            Some(m) => Ok(DtvProperty::DTV_ISDBT_LAYERC_MODULATION(DtvPropertyRequest { data: m })),
            None => Err(ProtocolError::InvalidValue),
        }
    } else if code == 33 {
        Ok(DtvProperty::DTV_ISDBT_LAYERC_SEGMENT_COUNT(DtvPropertyRequest { data: spec_parse_u32(data) as i32 }))
    } else if code == 34 {
        Ok(DtvProperty::DTV_ISDBT_LAYERC_TIME_INTERLEAVING(DtvPropertyRequest { data: spec_parse_u32(data) as i32 }))
    } else if code == 35 {
        Ok(DtvProperty::DTV_API_VERSION(DtvPropertyRequest { data: spec_parse_u32(data) }))
    } else if code == 36 {
        match fe_code_rate::from_repr_spec(spec_parse_u32(data)) {
            Some(m) => Ok(DtvProperty::DTV_CODE_RATE_HP(DtvPropertyRequest { data: m })),
            None => Err(ProtocolError::InvalidValue),
        }
    } else if code == 37 {
        match fe_code_rate::from_repr_spec(spec_parse_u32(data)) {
            Some(m) => Ok(DtvProperty::DTV_CODE_RATE_LP(DtvPropertyRequest { data: m })),
            None => Err(ProtocolError::InvalidValue),
        }
    } else if code == 38 {
        match fe_guard_interval::from_repr_spec(spec_parse_u32(data)) {
            Some(m) => Ok(DtvProperty::DTV_GUARD_INTERVAL(DtvPropertyRequest { data: m })),
            None => Err(ProtocolError::InvalidValue),
        }
    } else if code == 39 {
        match fe_transmit_mode::from_repr_spec(spec_parse_u32(data)) {
            Some(m) => Ok(DtvProperty::DTV_TRANSMISSION_MODE(DtvPropertyRequest { data: m })),
            None => Err(ProtocolError::InvalidValue),
        }
    } else if code == 40 {
        match fe_hierarchy::from_repr_spec(spec_parse_u32(data)) {
            Some(m) => Ok(DtvProperty::DTV_HIERARCHY(DtvPropertyRequest { data: m })),
            None => Err(ProtocolError::InvalidValue),
        }
    } else if code == 41 {
        Ok(DtvProperty::DTV_ISDBT_LAYER_ENABLED(DtvPropertyRequest { data: spec_parse_u32(data) }))
    } else if code == 42 {
        Ok(DtvProperty::DTV_STREAM_ID(DtvPropertyRequest { data: spec_parse_u32(data) }))
    } else if code == 43 {
        Ok(DtvProperty::DTV_DVBT2_PLP_ID_LEGACY(DtvPropertyNotImplementedLinux {}))
    } else if code == 45 {
        Ok(DtvProperty::DTV_ATSCMH_FIC_VER(DtvPropertyRequest { data: spec_parse_u32(data) }))
    } else if code == 46 {
        Ok(DtvProperty::DTV_ATSCMH_PARADE_ID(DtvPropertyRequest { data: spec_parse_u32(data) }))
    } else if code == 47 {
        Ok(DtvProperty::DTV_ATSCMH_NOG(DtvPropertyRequest { data: spec_parse_u32(data) }))
    } else if code == 48 {
        Ok(DtvProperty::DTV_ATSCMH_TNOG(DtvPropertyRequest { data: spec_parse_u32(data) }))
    } else if code == 49 {
        Ok(DtvProperty::DTV_ATSCMH_SGN(DtvPropertyRequest { data: spec_parse_u32(data) }))
    } else if code == 50 {
        Ok(DtvProperty::DTV_ATSCMH_PRC(DtvPropertyRequest { data: spec_parse_u32(data) }))
    } else if code == 51 {
        Ok(DtvProperty::DTV_ATSCMH_RS_FRAME_MODE(DtvPropertyNotImplementedLinux {}))
    } else if code == 52 {
        Ok(DtvProperty::DTV_ATSCMH_RS_FRAME_ENSEMBLE(DtvPropertyNotImplementedLinux {}))
    } else if code == 53 {
        Ok(DtvProperty::DTV_ATSCMH_RS_CODE_MODE_PRI(DtvPropertyNotImplementedLinux {}))
    } else if code == 54 {
        Ok(DtvProperty::DTV_ATSCMH_RS_CODE_MODE_SEC(DtvPropertyNotImplementedLinux {}))
    } else if code == 55 {
        Ok(DtvProperty::DTV_ATSCMH_SCCC_BLOCK_MODE(DtvPropertyNotImplementedLinux {}))
    } else if code == 56 {
        Ok(DtvProperty::DTV_ATSCMH_SCCC_CODE_MODE_A(DtvPropertyNotImplementedLinux {}))
    } else if code == 57 {
        Ok(DtvProperty::DTV_ATSCMH_SCCC_CODE_MODE_B(DtvPropertyNotImplementedLinux {}))
    } else if code == 58 {
        Ok(DtvProperty::DTV_ATSCMH_SCCC_CODE_MODE_C(DtvPropertyNotImplementedLinux {}))
    } else if code == 59 {
        Ok(DtvProperty::DTV_ATSCMH_SCCC_CODE_MODE_D(DtvPropertyNotImplementedLinux {}))
    } else if code == 60 {
        match fe_interleaving::from_repr_spec(spec_parse_u32(data)) {
            Some(m) => Ok(DtvProperty::DTV_INTERLEAVING(DtvPropertyRequest { data: m })),
            None => Err(ProtocolError::InvalidValue),
        }
    } else if code == 61 {
        match fe_lna::from_repr_spec(spec_parse_u32(data)) {
            Some(m) => Ok(DtvProperty::DTV_LNA(DtvPropertyRequest { data: m })),
            None => Err(ProtocolError::InvalidValue),
        }
    } else if code == 62 {
        match spec_parse_stats(data) {
            Ok(st) => Ok(DtvProperty::DTV_STAT_SIGNAL_STRENGTH(DtvPropertyRequest { data: st })),
            Err(e) => Err(e),
        }
    } else if code == 63 {
        match spec_parse_stats(data) {
            Ok(st) => Ok(DtvProperty::DTV_STAT_CNR(DtvPropertyRequest { data: st })),
            Err(e) => Err(e),
        }
    } else if code == 64 {
        match spec_parse_stats(data) {
            Ok(st) => Ok(DtvProperty::DTV_STAT_PRE_ERROR_BIT_COUNT(DtvPropertyRequest { data: st })),
            Err(e) => Err(e),
        }
    } else if code == 65 {
        match spec_parse_stats(data) {
            Ok(st) => Ok(DtvProperty::DTV_STAT_PRE_TOTAL_BIT_COUNT(DtvPropertyRequest { data: st })),
            Err(e) => Err(e),
        }
    } else if code == 66 {
        match spec_parse_stats(data) {
            Ok(st) => Ok(DtvProperty::DTV_STAT_POST_ERROR_BIT_COUNT(DtvPropertyRequest { data: st })),
            Err(e) => Err(e),
        }
    } else if code == 67 {
        match spec_parse_stats(data) {
            Ok(st) => Ok(DtvProperty::DTV_STAT_POST_TOTAL_BIT_COUNT(DtvPropertyRequest { data: st })),
            Err(e) => Err(e),
        }
    } else if code == 68 {
        match spec_parse_stats(data) {
            Ok(st) => Ok(DtvProperty::DTV_STAT_ERROR_BLOCK_COUNT(DtvPropertyRequest { data: st })),
            Err(e) => Err(e),
        }
    } else if code == 69 {
        match spec_parse_stats(data) {
            Ok(st) => Ok(DtvProperty::DTV_STAT_TOTAL_BLOCK_COUNT(DtvPropertyRequest { data: st })),
            Err(e) => Err(e),
        }
    } else if code == 70 {
        Ok(DtvProperty::DTV_SCRAMBLING_SEQUENCE_INDEX(DtvPropertyRequest { data: spec_parse_u32(data) }))
    } else {
        Err(ProtocolError::TagMismatch)
    }
}

/// Decodes a record as the kind tagged `code`: the exact inverse of
/// `encode`. Fails with `TagMismatch` when the record is tagged with a
/// different kind (or `code` names no kind at all), with `Truncated` when
/// a list payload's declared length exceeds its fixed capacity, and with
/// `InvalidValue` when an enumerated payload lies outside its closed set.
#[verifier::rlimit(100)]
pub fn decode(code: u32, rec: &WireRecord) -> (r: Result<DtvProperty, ProtocolError>)
    requires
        rec.wf(),
    ensures
        decode_post(code, rec.cmd, rec.data@, r),
{
    if rec.cmd != code {
        return Err(ProtocolError::TagMismatch);
    }
    match code {
        0u32 => Ok(DtvProperty::DTV_UNDEFINED(DtvPropertyNotImplementedLinux {})),
        1u32 => Ok(DtvProperty::DTV_TUNE(DtvPropertyRequest::new(VoidPayload {}))),
        2u32 => Ok(DtvProperty::DTV_CLEAR(DtvPropertyRequest::new(VoidPayload {}))),
        3u32 => Ok(DtvProperty::DTV_FREQUENCY(DtvPropertyRequest::new(read_u32_at(&rec.data, 0)))),
        4u32 => match fe_modulation::from_repr(read_u32_at(&rec.data, 0)) {
            Some(m) => Ok(DtvProperty::DTV_MODULATION(DtvPropertyRequest::new(m))),
            None => Err(ProtocolError::InvalidValue),
        },
        5u32 => Ok(DtvProperty::DTV_BANDWIDTH_HZ(DtvPropertyRequest::new(read_u32_at(&rec.data, 0)))),
        6u32 => match fe_spectral_inversion::from_repr(read_u32_at(&rec.data, 0)) {
            Some(m) => Ok(DtvProperty::DTV_INVERSION(DtvPropertyRequest::new(m))),
            None => Err(ProtocolError::InvalidValue),
        },
        7u32 => Ok(DtvProperty::DTV_DISEQC_MASTER(DtvPropertyNotImplementedLinux {})),
        8u32 => Ok(DtvProperty::DTV_SYMBOL_RATE(DtvPropertyRequest::new(read_u32_at(&rec.data, 0)))),
        9u32 => match fe_code_rate::from_repr(read_u32_at(&rec.data, 0)) {
            Some(m) => Ok(DtvProperty::DTV_INNER_FEC(DtvPropertyRequest::new(m))),
            None => Err(ProtocolError::InvalidValue),
        },
        10u32 => match fe_sec_voltage::from_repr(read_u32_at(&rec.data, 0)) {
            Some(m) => Ok(DtvProperty::DTV_VOLTAGE(DtvPropertyRequest::new(m))),
            None => Err(ProtocolError::InvalidValue),
        },
        11u32 => match fe_sec_tone_mode::from_repr(read_u32_at(&rec.data, 0)) {
            Some(m) => Ok(DtvProperty::DTV_TONE(DtvPropertyRequest::new(m))),
            None => Err(ProtocolError::InvalidValue),
        },
        12u32 => match fe_pilot::from_repr(read_u32_at(&rec.data, 0)) {
            Some(m) => Ok(DtvProperty::DTV_PILOT(DtvPropertyRequest::new(m))),
            None => Err(ProtocolError::InvalidValue),
        },
        13u32 => match fe_rolloff::from_repr(read_u32_at(&rec.data, 0)) {
            Some(m) => Ok(DtvProperty::DTV_ROLLOFF(DtvPropertyRequest::new(m))),
            None => Err(ProtocolError::InvalidValue),
        },
        14u32 => Ok(DtvProperty::DTV_DISEQC_SLAVE_REPLY(DtvPropertyNotImplementedLinux {})),
        15u32 => Ok(DtvProperty::DTV_FE_CAPABILITY_COUNT(DtvPropertyNotImplementedLinux {})),
        16u32 => Ok(DtvProperty::DTV_FE_CAPABILITY(DtvPropertyNotImplementedLinux {})),
        17u32 => match fe_delivery_system::from_repr(read_u32_at(&rec.data, 0)) {
            Some(m) => Ok(DtvProperty::DTV_DELIVERY_SYSTEM(DtvPropertyRequest::new(m))),
            None => Err(ProtocolError::InvalidValue),
        },
        18u32 => Ok(DtvProperty::DTV_ISDBT_PARTIAL_RECEPTION(DtvPropertyRequest::new(read_u32_at(&rec.data, 0) as i32))),
        19u32 => Ok(DtvProperty::DTV_ISDBT_SOUND_BROADCASTING(DtvPropertyRequest::new(read_u32_at(&rec.data, 0) as i32))),
        20u32 => Ok(DtvProperty::DTV_ISDBT_SB_SUBCHANNEL_ID(DtvPropertyRequest::new(read_u32_at(&rec.data, 0) as i32))),
        21u32 => Ok(DtvProperty::DTV_ISDBT_SB_SEGMENT_IDX(DtvPropertyRequest::new(read_u32_at(&rec.data, 0) as i32))),
        22u32 => Ok(DtvProperty::DTV_ISDBT_SB_SEGMENT_COUNT(DtvPropertyRequest::new(read_u32_at(&rec.data, 0)))),
        23u32 => match fe_code_rate::from_repr(read_u32_at(&rec.data, 0)) {
            Some(m) => Ok(DtvProperty::DTV_ISDBT_LAYERA_FEC(DtvPropertyRequest::new(m))),
            None => Err(ProtocolError::InvalidValue),
        },
        24u32 => match fe_modulation::from_repr(read_u32_at(&rec.data, 0)) {
            Some(m) => Ok(DtvProperty::DTV_ISDBT_LAYERA_MODULATION(DtvPropertyRequest::new(m))),
            None => Err(ProtocolError::InvalidValue),
        },
        25u32 => Ok(DtvProperty::DTV_ISDBT_LAYERA_SEGMENT_COUNT(DtvPropertyRequest::new(read_u32_at(&rec.data, 0) as i32))),
        26u32 => Ok(DtvProperty::DTV_ISDBT_LAYERA_TIME_INTERLEAVING(DtvPropertyRequest::new(read_u32_at(&rec.data, 0) as i32))),
        27u32 => match fe_code_rate::from_repr(read_u32_at(&rec.data, 0)) {
            Some(m) => Ok(DtvProperty::DTV_ISDBT_LAYERB_FEC(DtvPropertyRequest::new(m))),
            None => Err(ProtocolError::InvalidValue),
        },
        28u32 => match fe_modulation::from_repr(read_u32_at(&rec.data, 0)) {
            Some(m) => Ok(DtvProperty::DTV_ISDBT_LAYERB_MODULATION(DtvPropertyRequest::new(m))),
            None => Err(ProtocolError::InvalidValue),
        },
        29u32 => Ok(DtvProperty::DTV_ISDBT_LAYERB_SEGMENT_COUNT(DtvPropertyRequest::new(read_u32_at(&rec.data, 0) as i32))),
        30u32 => Ok(DtvProperty::DTV_ISDBT_LAYERB_TIME_INTERLEAVING(DtvPropertyRequest::new(read_u32_at(&rec.data, 0) as i32))),
        31u32 => match fe_code_rate::from_repr(read_u32_at(&rec.data, 0)) {
            Some(m) => Ok(DtvProperty::DTV_ISDBT_LAYERC_FEC(DtvPropertyRequest::new(m))),
            None => Err(ProtocolError::InvalidValue),
        },
        32u32 => match fe_modulation::from_repr(read_u32_at(&rec.data, 0)) {
            Some(m) => Ok(DtvProperty::DTV_ISDBT_LAYERC_MODULATION(DtvPropertyRequest::new(m))),
            None => Err(ProtocolError::InvalidValue),
        },
        33u32 => Ok(DtvProperty::DTV_ISDBT_LAYERC_SEGMENT_COUNT(DtvPropertyRequest::new(read_u32_at(&rec.data, 0) as i32))),
        34u32 => Ok(DtvProperty::DTV_ISDBT_LAYERC_TIME_INTERLEAVING(DtvPropertyRequest::new(read_u32_at(&rec.data, 0) as i32))),
        35u32 => Ok(DtvProperty::DTV_API_VERSION(DtvPropertyRequest::new(read_u32_at(&rec.data, 0)))),
        36u32 => match fe_code_rate::from_repr(read_u32_at(&rec.data, 0)) {
            Some(m) => Ok(DtvProperty::DTV_CODE_RATE_HP(DtvPropertyRequest::new(m))),
            None => Err(ProtocolError::InvalidValue),
        },
        37u32 => match fe_code_rate::from_repr(read_u32_at(&rec.data, 0)) {
            Some(m) => Ok(DtvProperty::DTV_CODE_RATE_LP(DtvPropertyRequest::new(m))),
            None => Err(ProtocolError::InvalidValue),
        },
        38u32 => match fe_guard_interval::from_repr(read_u32_at(&rec.data, 0)) {
            Some(m) => Ok(DtvProperty::DTV_GUARD_INTERVAL(DtvPropertyRequest::new(m))),
            None => Err(ProtocolError::InvalidValue),
        },
        39u32 => match fe_transmit_mode::from_repr(read_u32_at(&rec.data, 0)) {
            Some(m) => Ok(DtvProperty::DTV_TRANSMISSION_MODE(DtvPropertyRequest::new(m))),
            None => Err(ProtocolError::InvalidValue),
        },
        40u32 => match fe_hierarchy::from_repr(read_u32_at(&rec.data, 0)) {
            Some(m) => Ok(DtvProperty::DTV_HIERARCHY(DtvPropertyRequest::new(m))),
            None => Err(ProtocolError::InvalidValue),
        },
        41u32 => Ok(DtvProperty::DTV_ISDBT_LAYER_ENABLED(DtvPropertyRequest::new(read_u32_at(&rec.data, 0)))),
        42u32 => Ok(DtvProperty::DTV_STREAM_ID(DtvPropertyRequest::new(read_u32_at(&rec.data, 0)))),
        43u32 => Ok(DtvProperty::DTV_DVBT2_PLP_ID_LEGACY(DtvPropertyNotImplementedLinux {})),
        44u32 => decode_delsys(&rec.data),
        45u32 => Ok(DtvProperty::DTV_ATSCMH_FIC_VER(DtvPropertyRequest::new(read_u32_at(&rec.data, 0)))),
        46u32 => Ok(DtvProperty::DTV_ATSCMH_PARADE_ID(DtvPropertyRequest::new(read_u32_at(&rec.data, 0)))),
        47u32 => Ok(DtvProperty::DTV_ATSCMH_NOG(DtvPropertyRequest::new(read_u32_at(&rec.data, 0)))),
        48u32 => Ok(DtvProperty::DTV_ATSCMH_TNOG(DtvPropertyRequest::new(read_u32_at(&rec.data, 0)))),
        49u32 => Ok(DtvProperty::DTV_ATSCMH_SGN(DtvPropertyRequest::new(read_u32_at(&rec.data, 0)))),
        50u32 => Ok(DtvProperty::DTV_ATSCMH_PRC(DtvPropertyRequest::new(read_u32_at(&rec.data, 0)))),
        51u32 => Ok(DtvProperty::DTV_ATSCMH_RS_FRAME_MODE(DtvPropertyNotImplementedLinux {})),
        52u32 => Ok(DtvProperty::DTV_ATSCMH_RS_FRAME_ENSEMBLE(DtvPropertyNotImplementedLinux {})),
        53u32 => Ok(DtvProperty::DTV_ATSCMH_RS_CODE_MODE_PRI(DtvPropertyNotImplementedLinux {})),
        54u32 => Ok(DtvProperty::DTV_ATSCMH_RS_CODE_MODE_SEC(DtvPropertyNotImplementedLinux {})),
        55u32 => Ok(DtvProperty::DTV_ATSCMH_SCCC_BLOCK_MODE(DtvPropertyNotImplementedLinux {})),
        56u32 => Ok(DtvProperty::DTV_ATSCMH_SCCC_CODE_MODE_A(DtvPropertyNotImplementedLinux {})),
        57u32 => Ok(DtvProperty::DTV_ATSCMH_SCCC_CODE_MODE_B(DtvPropertyNotImplementedLinux {})),
        58u32 => Ok(DtvProperty::DTV_ATSCMH_SCCC_CODE_MODE_C(DtvPropertyNotImplementedLinux {})),
        59u32 => Ok(DtvProperty::DTV_ATSCMH_SCCC_CODE_MODE_D(DtvPropertyNotImplementedLinux {})),
        60u32 => match fe_interleaving::from_repr(read_u32_at(&rec.data, 0)) {
            Some(m) => Ok(DtvProperty::DTV_INTERLEAVING(DtvPropertyRequest::new(m))),
            None => Err(ProtocolError::InvalidValue),
        },
        61u32 => match fe_lna::from_repr(read_u32_at(&rec.data, 0)) {
            Some(m) => Ok(DtvProperty::DTV_LNA(DtvPropertyRequest::new(m))),
            None => Err(ProtocolError::InvalidValue),
        },
        62u32 => match parse_stats(&rec.data) {
            Ok(st) => Ok(DtvProperty::DTV_STAT_SIGNAL_STRENGTH(DtvPropertyRequest::new(st))),
            Err(e) => Err(e),
        },
        63u32 => match parse_stats(&rec.data) {
            Ok(st) => Ok(DtvProperty::DTV_STAT_CNR(DtvPropertyRequest::new(st))),
            Err(e) => Err(e),
        },
        64u32 => match parse_stats(&rec.data) {
            Ok(st) => Ok(DtvProperty::DTV_STAT_PRE_ERROR_BIT_COUNT(DtvPropertyRequest::new(st))),
            Err(e) => Err(e),
        },
        65u32 => match parse_stats(&rec.data) {
            Ok(st) => Ok(DtvProperty::DTV_STAT_PRE_TOTAL_BIT_COUNT(DtvPropertyRequest::new(st))),
            Err(e) => Err(e),
        },
        66u32 => match parse_stats(&rec.data) {
            Ok(st) => Ok(DtvProperty::DTV_STAT_POST_ERROR_BIT_COUNT(DtvPropertyRequest::new(st))),
            Err(e) => Err(e),
        },
        67u32 => match parse_stats(&rec.data) {
            Ok(st) => Ok(DtvProperty::DTV_STAT_POST_TOTAL_BIT_COUNT(DtvPropertyRequest::new(st))),
            Err(e) => Err(e),
        },
        68u32 => match parse_stats(&rec.data) {
            Ok(st) => Ok(DtvProperty::DTV_STAT_ERROR_BLOCK_COUNT(DtvPropertyRequest::new(st))),
            Err(e) => Err(e),
        },
        69u32 => match parse_stats(&rec.data) {
            Ok(st) => Ok(DtvProperty::DTV_STAT_TOTAL_BLOCK_COUNT(DtvPropertyRequest::new(st))),
            Err(e) => Err(e),
        },
        70u32 => Ok(DtvProperty::DTV_SCRAMBLING_SEQUENCE_INDEX(DtvPropertyRequest::new(read_u32_at(&rec.data, 0)))),
        _ => Err(ProtocolError::TagMismatch),
    }
}

/// Round-trip law: decoding an encoded property, as its own kind, yields
/// that property back, for every well-formed property. The decoded value
/// equals the encoded one; the one payload that carries owned storage, the
/// delivery-system list, is compared by its carried bytes.
#[verifier::spinoff_prover]
#[verifier::rlimit(100)]
pub proof fn lemma_codec_round_trip(p: DtvProperty, r: Result<DtvProperty, ProtocolError>)
    requires
        p.wf(),
        decode_post(p.code_spec(), p.code_spec(), spec_encode_payload(p), r),
    ensures
        r is Ok,
        prop_equiv(r->Ok_0, p),
{
    match p {
        DtvProperty::DTV_UNDEFINED(x) => {
            assert(x == (DtvPropertyNotImplementedLinux {}));
        }
        DtvProperty::DTV_TUNE(d) => {
            assert(d.data == (VoidPayload {}));
        }
        DtvProperty::DTV_CLEAR(d) => {
            assert(d.data == (VoidPayload {}));
        }
        DtvProperty::DTV_FREQUENCY(d) => {
            lemma_u32_payload_rt(d.data);
        }
        DtvProperty::DTV_MODULATION(d) => {
            lemma_u32_payload_rt(d.data.code_spec());
            lemma_fe_modulation_code_rt(d.data);
        }
        DtvProperty::DTV_BANDWIDTH_HZ(d) => {
            lemma_u32_payload_rt(d.data);
        }
        DtvProperty::DTV_INVERSION(d) => {
            lemma_u32_payload_rt(d.data.code_spec());
            lemma_fe_spectral_inversion_code_rt(d.data);
        }
        DtvProperty::DTV_DISEQC_MASTER(x) => {
            assert(x == (DtvPropertyNotImplementedLinux {}));
        }
        DtvProperty::DTV_SYMBOL_RATE(d) => {
            lemma_u32_payload_rt(d.data);
        }
        DtvProperty::DTV_INNER_FEC(d) => {
            lemma_u32_payload_rt(d.data.code_spec());
            lemma_fe_code_rate_code_rt(d.data);
        }
        DtvProperty::DTV_VOLTAGE(d) => {
            lemma_u32_payload_rt(d.data.code_spec());
            lemma_fe_sec_voltage_code_rt(d.data);
        }
        DtvProperty::DTV_TONE(d) => {
            lemma_u32_payload_rt(d.data.code_spec());
            lemma_fe_sec_tone_mode_code_rt(d.data);
        }
        DtvProperty::DTV_PILOT(d) => {
            lemma_u32_payload_rt(d.data.code_spec());
            lemma_fe_pilot_code_rt(d.data);
        }
        DtvProperty::DTV_ROLLOFF(d) => {
            lemma_u32_payload_rt(d.data.code_spec());
            lemma_fe_rolloff_code_rt(d.data);
        }
        DtvProperty::DTV_DISEQC_SLAVE_REPLY(x) => {
            assert(x == (DtvPropertyNotImplementedLinux {}));
        }
        DtvProperty::DTV_FE_CAPABILITY_COUNT(x) => {
            assert(x == (DtvPropertyNotImplementedLinux {}));
        }
        DtvProperty::DTV_FE_CAPABILITY(x) => {
            assert(x == (DtvPropertyNotImplementedLinux {}));
        }
        DtvProperty::DTV_DELIVERY_SYSTEM(d) => {
            lemma_u32_payload_rt(d.data.code_spec());
            lemma_fe_delivery_system_code_rt(d.data);
        }
        DtvProperty::DTV_ISDBT_PARTIAL_RECEPTION(d) => {
            lemma_u32_payload_rt(d.data as u32);
            let v = d.data;
            assert(v as u32 as i32 == v) by (bit_vector);
        }
        DtvProperty::DTV_ISDBT_SOUND_BROADCASTING(d) => {
            lemma_u32_payload_rt(d.data as u32);
            let v = d.data;
            assert(v as u32 as i32 == v) by (bit_vector);
        }
        DtvProperty::DTV_ISDBT_SB_SUBCHANNEL_ID(d) => {
            lemma_u32_payload_rt(d.data as u32);
            let v = d.data;
            assert(v as u32 as i32 == v) by (bit_vector);
        }
        DtvProperty::DTV_ISDBT_SB_SEGMENT_IDX(d) => {
            lemma_u32_payload_rt(d.data as u32);
            let v = d.data;
            assert(v as u32 as i32 == v) by (bit_vector);
        }
        DtvProperty::DTV_ISDBT_SB_SEGMENT_COUNT(d) => {
            lemma_u32_payload_rt(d.data);
        }
        DtvProperty::DTV_ISDBT_LAYERA_FEC(d) => {
            lemma_u32_payload_rt(d.data.code_spec());
            lemma_fe_code_rate_code_rt(d.data);
        }
        DtvProperty::DTV_ISDBT_LAYERA_MODULATION(d) => {
            lemma_u32_payload_rt(d.data.code_spec());
            lemma_fe_modulation_code_rt(d.data);
        }
        DtvProperty::DTV_ISDBT_LAYERA_SEGMENT_COUNT(d) => {
            lemma_u32_payload_rt(d.data as u32);
            let v = d.data;
            assert(v as u32 as i32 == v) by (bit_vector);
        }
        DtvProperty::DTV_ISDBT_LAYERA_TIME_INTERLEAVING(d) => {
            lemma_u32_payload_rt(d.data as u32);
            let v = d.data;
            assert(v as u32 as i32 == v) by (bit_vector);
        }
        DtvProperty::DTV_ISDBT_LAYERB_FEC(d) => {
            lemma_u32_payload_rt(d.data.code_spec());
            lemma_fe_code_rate_code_rt(d.data);
        }
        DtvProperty::DTV_ISDBT_LAYERB_MODULATION(d) => {
            lemma_u32_payload_rt(d.data.code_spec());
            lemma_fe_modulation_code_rt(d.data);
        }
        DtvProperty::DTV_ISDBT_LAYERB_SEGMENT_COUNT(d) => {
            lemma_u32_payload_rt(d.data as u32);
            let v = d.data;
            assert(v as u32 as i32 == v) by (bit_vector);
        }
        DtvProperty::DTV_ISDBT_LAYERB_TIME_INTERLEAVING(d) => {
            lemma_u32_payload_rt(d.data as u32);
            let v = d.data;
            assert(v as u32 as i32 == v) by (bit_vector);
        }
        DtvProperty::DTV_ISDBT_LAYERC_FEC(d) => {
            lemma_u32_payload_rt(d.data.code_spec());
            lemma_fe_code_rate_code_rt(d.data);
        }
        DtvProperty::DTV_ISDBT_LAYERC_MODULATION(d) => {
            lemma_u32_payload_rt(d.data.code_spec());
            lemma_fe_modulation_code_rt(d.data);
        }
        DtvProperty::DTV_ISDBT_LAYERC_SEGMENT_COUNT(d) => {
            lemma_u32_payload_rt(d.data as u32);
            let v = d.data;
            assert(v as u32 as i32 == v) by (bit_vector);
        }
        DtvProperty::DTV_ISDBT_LAYERC_TIME_INTERLEAVING(d) => {
            lemma_u32_payload_rt(d.data as u32);
            let v = d.data;
            assert(v as u32 as i32 == v) by (bit_vector);
        }
        DtvProperty::DTV_API_VERSION(d) => {
            lemma_u32_payload_rt(d.data);
        }
        DtvProperty::DTV_CODE_RATE_HP(d) => {
            lemma_u32_payload_rt(d.data.code_spec());
            lemma_fe_code_rate_code_rt(d.data);
        }
        DtvProperty::DTV_CODE_RATE_LP(d) => {
            lemma_u32_payload_rt(d.data.code_spec());
            lemma_fe_code_rate_code_rt(d.data);
        }
        DtvProperty::DTV_GUARD_INTERVAL(d) => {
            lemma_u32_payload_rt(d.data.code_spec());
            lemma_fe_guard_interval_code_rt(d.data);
        }
        DtvProperty::DTV_TRANSMISSION_MODE(d) => {
            lemma_u32_payload_rt(d.data.code_spec());
            lemma_fe_transmit_mode_code_rt(d.data);
        }
        DtvProperty::DTV_HIERARCHY(d) => {
            lemma_u32_payload_rt(d.data.code_spec());
            lemma_fe_hierarchy_code_rt(d.data);
        }
        DtvProperty::DTV_ISDBT_LAYER_ENABLED(d) => {
            lemma_u32_payload_rt(d.data);
        }
        DtvProperty::DTV_STREAM_ID(d) => {
            lemma_u32_payload_rt(d.data);
        }
        DtvProperty::DTV_DVBT2_PLP_ID_LEGACY(x) => {
            assert(x == (DtvPropertyNotImplementedLinux {}));
        }
        DtvProperty::DTV_ENUM_DELSYS(d) => {
            lemma_delsys_payload_rt(d.data, r);
        }
        DtvProperty::DTV_ATSCMH_FIC_VER(d) => {
            lemma_u32_payload_rt(d.data);
        }
        DtvProperty::DTV_ATSCMH_PARADE_ID(d) => {
            lemma_u32_payload_rt(d.data);
        }
        DtvProperty::DTV_ATSCMH_NOG(d) => {
            lemma_u32_payload_rt(d.data);
        }
        DtvProperty::DTV_ATSCMH_TNOG(d) => {
            lemma_u32_payload_rt(d.data);
        }
        DtvProperty::DTV_ATSCMH_SGN(d) => {
            lemma_u32_payload_rt(d.data);
        }
        DtvProperty::DTV_ATSCMH_PRC(d) => {
            lemma_u32_payload_rt(d.data);
        }
        DtvProperty::DTV_ATSCMH_RS_FRAME_MODE(x) => {
            assert(x == (DtvPropertyNotImplementedLinux {}));
        }
        DtvProperty::DTV_ATSCMH_RS_FRAME_ENSEMBLE(x) => {
            assert(x == (DtvPropertyNotImplementedLinux {}));
        }
        DtvProperty::DTV_ATSCMH_RS_CODE_MODE_PRI(x) => {
            assert(x == (DtvPropertyNotImplementedLinux {}));
        }
        DtvProperty::DTV_ATSCMH_RS_CODE_MODE_SEC(x) => {
            assert(x == (DtvPropertyNotImplementedLinux {}));
        }
        DtvProperty::DTV_ATSCMH_SCCC_BLOCK_MODE(x) => {
            assert(x == (DtvPropertyNotImplementedLinux {}));
        }
        DtvProperty::DTV_ATSCMH_SCCC_CODE_MODE_A(x) => {
            assert(x == (DtvPropertyNotImplementedLinux {}));
        }
        DtvProperty::DTV_ATSCMH_SCCC_CODE_MODE_B(x) => {
            assert(x == (DtvPropertyNotImplementedLinux {}));
        }
        DtvProperty::DTV_ATSCMH_SCCC_CODE_MODE_C(x) => {
            assert(x == (DtvPropertyNotImplementedLinux {}));
        }
        DtvProperty::DTV_ATSCMH_SCCC_CODE_MODE_D(x) => {
            assert(x == (DtvPropertyNotImplementedLinux {}));
        }
        DtvProperty::DTV_INTERLEAVING(d) => {
            lemma_u32_payload_rt(d.data.code_spec());
            lemma_fe_interleaving_code_rt(d.data);
        }
        DtvProperty::DTV_LNA(d) => {
            lemma_u32_payload_rt(d.data.code_spec());
            lemma_fe_lna_code_rt(d.data);
        }
        DtvProperty::DTV_STAT_SIGNAL_STRENGTH(d) => {
            lemma_stats_payload_rt(d.data);
        }
        DtvProperty::DTV_STAT_CNR(d) => {
            lemma_stats_payload_rt(d.data);
        }
        DtvProperty::DTV_STAT_PRE_ERROR_BIT_COUNT(d) => {
            lemma_stats_payload_rt(d.data);
        }
        DtvProperty::DTV_STAT_PRE_TOTAL_BIT_COUNT(d) => {
            lemma_stats_payload_rt(d.data);
        }
        DtvProperty::DTV_STAT_POST_ERROR_BIT_COUNT(d) => {
            lemma_stats_payload_rt(d.data);
        }
        DtvProperty::DTV_STAT_POST_TOTAL_BIT_COUNT(d) => {
            lemma_stats_payload_rt(d.data);
        }
        DtvProperty::DTV_STAT_ERROR_BLOCK_COUNT(d) => {
            lemma_stats_payload_rt(d.data);
        }
        DtvProperty::DTV_STAT_TOTAL_BLOCK_COUNT(d) => {
            lemma_stats_payload_rt(d.data);
        }
        DtvProperty::DTV_SCRAMBLING_SEQUENCE_INDEX(d) => {
            lemma_u32_payload_rt(d.data);
        }
    }
}

} // verus!
