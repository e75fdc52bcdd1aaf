//! Fixed-capacity packing of a light list into wire records, and the byte
//! layout of those records.
//!
//! Per slot the wire holds, little-endian, 32 bytes:
//! `[u32 x3 position][u32 enabled][u32 x3 color][u32 brightness]`, so that the
//! `position`+`enabled` group and the `color`+`brightness` group each sit on a
//! 16-byte boundary, as uniform-buffer alignment rules ask.

use vstd::prelude::*;

use crate::light::CAPACITY;
use crate::light::Light;
use crate::light::RawLight;
use crate::light::spec_raw_of;
use crate::light::spec_zero_raw;

verus! {

/// The record that slot `i` of the packed buffer holds: the projection of the
/// `i`-th light while one exists, the zero record from there on.
pub open spec fn spec_slot(lights: Seq<Light>, i: int) -> RawLight {
    if 0 <= i < lights.len() && i < CAPACITY {
        spec_raw_of(lights[i])
    } else {
        spec_zero_raw()
    }
}

/// The packed buffer as a sequence of records: always exactly [`CAPACITY`]
/// of them, whatever the length of the input list.
pub open spec fn spec_packed(lights: Seq<Light>) -> Seq<RawLight> {
    Seq::new(CAPACITY as nat, |i: int| spec_slot(lights, i))
}

/// The four little-endian bytes of a 32-bit wire value.
pub open spec fn spec_u32_le(x: u32) -> Seq<u8> {
    seq![
        (x & 0xff) as u8,
        ((x >> 8) & 0xff) as u8,
        ((x >> 16) & 0xff) as u8,
        ((x >> 24) & 0xff) as u8,
    ]
}

/// The 32 bytes of one wire record, in shader layout order.
pub open spec fn spec_raw_bytes(r: RawLight) -> Seq<u8> {
    spec_u32_le(r.position[0]) + spec_u32_le(r.position[1]) + spec_u32_le(r.position[2])
        + spec_u32_le(r.enabled as u32) + spec_u32_le(r.color[0]) + spec_u32_le(r.color[1])
        + spec_u32_le(r.color[2]) + spec_u32_le(r.brightness)
}

/// The bytes of a sequence of wire records, concatenated in order.
pub open spec fn spec_records_bytes(rs: Seq<RawLight>) -> Seq<u8>
    decreases rs.len(),
{
    if rs.len() == 0 {
        Seq::empty()
    } else {
        spec_records_bytes(rs.drop_last()) + spec_raw_bytes(rs.last())
    }
}

/// The full wire image of a light list: the bytes of its packed records.
pub open spec fn spec_packed_bytes(lights: Seq<Light>) -> Seq<u8> {
    spec_records_bytes(spec_packed(lights))
}

pub proof fn lemma_records_bytes_len(rs: Seq<RawLight>)
    ensures
        spec_records_bytes(rs).len() == 32 * rs.len(),
    decreases rs.len(),
{
    if rs.len() != 0 {
        lemma_records_bytes_len(rs.drop_last());
    }
}

pub proof fn lemma_record_offsets(rs: Seq<RawLight>, i: int, j: int)
    requires
        0 <= i < rs.len(),
        0 <= j < 32,
    ensures
        spec_records_bytes(rs)[32 * i + j] == spec_raw_bytes(rs[i])[j],
    decreases rs.len(),
{
    lemma_records_bytes_len(rs.drop_last());
    if i == rs.len() - 1 {
    } else {
        lemma_record_offsets(rs.drop_last(), i, j);
    }
}

/// Layout law: record `i` of the wire image sits at byte offset `32 * i`,
/// byte for byte, for every slot index.
pub proof fn lemma_packed_byte_layout(lights: Seq<Light>, i: int, j: int)
    requires
        0 <= i < CAPACITY,
        0 <= j < 32,
    ensures
        spec_packed_bytes(lights)[32 * i + j] == spec_raw_bytes(spec_slot(lights, i))[j],
{
    lemma_record_offsets(spec_packed(lights), i, j);
}

/// Slot-flag law: slot `i` of a packed buffer is marked live exactly when
/// the list holds an `i`-th light, and a slot that holds none is the all-zero
/// record.
pub proof fn lemma_enabled_marks_live_slots(lights: Seq<Light>, i: int)
    requires
        0 <= i < CAPACITY,
    ensures
        (spec_packed(lights)[i].enabled == 1) <==> i < lights.len(),
        i >= lights.len() ==> spec_packed(lights)[i] == spec_zero_raw(),
{
}

/// Truncation law: a list longer than the capacity packs exactly as its first
/// [`CAPACITY`] lights do, record for record and byte for byte.
pub proof fn lemma_pack_truncation(lights: Seq<Light>)
    requires
        lights.len() > CAPACITY,
    ensures
        spec_packed(lights) == spec_packed(lights.take(CAPACITY as int)),
        spec_packed_bytes(lights) == spec_packed_bytes(lights.take(CAPACITY as int)),
{
    assert(spec_packed(lights) =~= spec_packed(lights.take(CAPACITY as int)));
}

/// Determinism law: the wire image is a function of the light list alone, so
/// equal lists pack to identical bytes.
pub proof fn lemma_pack_deterministic(a: Seq<Light>, b: Seq<Light>)
    requires
        a == b,
    ensures
        spec_packed_bytes(a) == spec_packed_bytes(b),
{
}

/// Packs the light list into exactly [`CAPACITY`] wire records: slot `i`
/// carries the `i`-th light with `enabled = 1` while one exists, and the
/// all-zero record from there on.  Lights beyond the capacity are dropped,
/// never reported as an error.
pub fn pack(lights: &Vec<Light>) -> (r: Vec<RawLight>)
    ensures
        r@ == spec_packed(lights@),
        r@.len() == CAPACITY,
        forall|i: int| 0 <= i < lights@.len() && i < CAPACITY ==> r@[i] == spec_raw_of(lights@[i]),
        forall|i: int| lights@.len() <= i < CAPACITY ==> r@[i] == spec_zero_raw(),
{
    let mut out: Vec<RawLight> = Vec::new();
    let mut i: usize = 0;
    while i < CAPACITY
        invariant
            i <= CAPACITY,
            out@.len() == i,
            forall|k: int| 0 <= k < i ==> out@[k] == spec_slot(lights@, k),
        decreases CAPACITY - i,
    {
        if i < lights.len() {
            out.push(lights[i].to_raw());
        } else {
            out.push(RawLight::zero());
        }
        i = i + 1;
    }
    proof {
        assert(out@ =~= spec_packed(lights@));
    }
    out
}

/// Appends the four little-endian bytes of one 32-bit wire value.
fn push_u32_le(out: &mut Vec<u8>, x: u32)
    ensures
        final(out)@ == old(out)@ + spec_u32_le(x),
{
    out.push((x & 0xff) as u8);
    out.push(((x >> 8) & 0xff) as u8);
    out.push(((x >> 16) & 0xff) as u8);
    out.push(((x >> 24) & 0xff) as u8);
    assert(out@ =~= old(out)@ + spec_u32_le(x));
}

/// Appends the 32 bytes of one wire record.
fn push_raw_light(out: &mut Vec<u8>, r: &RawLight)
    ensures
        final(out)@ == old(out)@ + spec_raw_bytes(*r),
{
    push_u32_le(out, r.position[0]);
    push_u32_le(out, r.position[1]);
    push_u32_le(out, r.position[2]);
    push_u32_le(out, r.enabled as u32);
    push_u32_le(out, r.color[0]);
    push_u32_le(out, r.color[1]);
    push_u32_le(out, r.color[2]);
    push_u32_le(out, r.brightness);
    assert(out@ =~= old(out)@ + spec_raw_bytes(*r));
}

/// Packs the light list straight to its wire image: `32 * CAPACITY` bytes,
/// record `i` at offset `32 * i`.  This is the span a frame writes to the
/// GPU-resident buffer, always in full, never partially.
pub fn pack_bytes(lights: &Vec<Light>) -> (r: Vec<u8>)
    ensures
        r@ == spec_packed_bytes(lights@),
        r@.len() == 32 * CAPACITY,
{
    let raw = pack(lights);
    let mut out: Vec<u8> = Vec::new();
    let mut i: usize = 0;
    while i < raw.len()
        invariant
            i <= raw@.len(),
            raw@ == spec_packed(lights@),
            raw@.len() == CAPACITY,
            out@ == spec_records_bytes(raw@.take(i as int)),
        decreases raw@.len() - i,
    {
        push_raw_light(&mut out, &raw[i]);
        proof {
            assert(raw@.take(i + 1).drop_last() =~= raw@.take(i as int));
            assert(raw@.take(i + 1).last() == raw@[i as int]);
        }
        i = i + 1;
    }
    proof {
        assert(raw@.take(raw@.len() as int) =~= raw@);
        lemma_records_bytes_len(raw@);
    }
    out
}

} // verus!
