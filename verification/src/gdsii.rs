//! GDSII v6.0 stream writer for the 8x8 InP/InGaAs SHBT collector array:
//! 50 um pitch, 1.5 x 5.0 um airbridge spans, 300 nm Nb traces, 1 pm
//! database unit. Records are big-endian: a 2-byte length, a record type
//! and a data type, then the payload.

use vstd::prelude::*;
use vstd::string::StringSliceAdditionalSpecFns;

verus! {

/// Array dimension (8 x 8 emitters).
pub const ARRAY_DIM: usize = 8;
/// Substrate/InP layer square dimension (pm), 350 um.
pub const SUBSTRATE_SIZE_PM: i32 = 350_000_000;
/// Pitch between adjacent emitters (pm), 50 um.
pub const EMITTER_PITCH_PM: i32 = 50_000_000;
/// Half airbridge span width (pm), 1.5 um / 2.
pub const AIRBRIDGE_HALF_WIDTH_PM: i32 = 750_000;
/// Half airbridge span height (pm), 5.0 um / 2.
pub const AIRBRIDGE_HALF_HEIGHT_PM: i32 = 2_500_000;
/// Half Nb trace width (pm), 300 nm / 2.
pub const TRACE_HALF_WIDTH_PM: i32 = 150_000;

/// Big-endian bytes of a 16-bit word.
pub open spec fn be16(v: u16) -> Seq<u8> {
    seq![(v >> 8u16) as u8, (v & 0xffu16) as u8]
}

/// Big-endian bytes of a 32-bit word.
pub open spec fn be32(v: u32) -> Seq<u8> {
    seq![(v >> 24u32) as u8, ((v >> 16u32) & 0xffu32) as u8, ((v >> 8u32) & 0xffu32) as u8, (v & 0xffu32) as u8]
}

/// Record header: total length, record type, data type.
pub open spec fn record_header(length: u16, record_type: u8, data_type: u8) -> Seq<u8> {
    be16(length) + seq![record_type, data_type]
}

/// A record without payload.
pub open spec fn no_data_record(record_type: u8) -> Seq<u8> {
    record_header(4, record_type, 0x00)
}

/// A record carrying one 2-byte signed integer.
pub open spec fn i16_record(record_type: u8, value: i16) -> Seq<u8> {
    record_header(6, record_type, 0x02) + be16(value as u16)
}

/// A string followed by zero bytes up to the payload length that its record
/// header announces (`string_payload_len`): two when its length is even,
/// one when odd.
pub open spec fn padded(s: Seq<u8>) -> Seq<u8> {
    if s.len() % 2 == 0 {
        s.push(0u8).push(0u8)
    } else {
        s.push(0u8)
    }
}

/// Payload length announced for a string of `n` bytes.
pub open spec fn string_payload_len(n: nat) -> nat {
    if n % 2 == 0 {
        n + 2
    } else {
        n + 1
    }
}

/// An ASCII string record (data type 0x06).
pub open spec fn string_record(record_type: u8, s: Seq<u8>) -> Seq<u8> {
    record_header((4 + string_payload_len(s.len())) as u16, record_type, 0x06) + padded(s)
}

/// A record carrying two 8-byte reals, given as their GDSII encodings.
pub open spec fn real_pair_record(record_type: u8, a: Seq<u8>, b: Seq<u8>) -> Seq<u8> {
    record_header(20, record_type, 0x05) + a + b
}

/// One XY point.
pub open spec fn xy(x: i32, y: i32) -> Seq<u8> {
    be32(x as u32) + be32(y as u32)
}

/// A closed rectangular BOUNDARY element on `layer`/`datatype`.
pub open spec fn boundary_record(layer: i16, datatype: i16, x0: i32, y0: i32, x1: i32, y1: i32) -> Seq<u8> {
    no_data_record(0x08) + i16_record(0x0D, layer) + i16_record(0x0E, datatype) + record_header(44, 0x10, 0x03)
        + xy(x0, y0) + xy(x1, y0) + xy(x1, y1) + xy(x0, y1) + xy(x0, y0) + no_data_record(0x11)
}

pub fn write_u16_be(out: &mut Vec<u8>, v: u16)
    ensures
        final(out)@ == old(out)@ + be16(v),
{
    out.push((v >> 8u16) as u8);
    out.push((v & 0xffu16) as u8);
}

pub fn write_i16_be(out: &mut Vec<u8>, v: i16)
    ensures
        final(out)@ == old(out)@ + be16(v as u16),
{
    write_u16_be(out, v as u16);
}

pub fn write_i32_be(out: &mut Vec<u8>, v: i32)
    ensures
        final(out)@ == old(out)@ + be32(v as u32),
{
    let w = v as u32;
    out.push((w >> 24u32) as u8);
    out.push(((w >> 16u32) & 0xffu32) as u8);
    out.push(((w >> 8u32) & 0xffu32) as u8);
    out.push((w & 0xffu32) as u8);
}

pub fn write_padded_string(out: &mut Vec<u8>, s: &str)
    ensures
        final(out)@ == old(out)@ + padded(s.spec_bytes()),
{
    let bytes = s.as_bytes();
    let mut i: usize = 0;
    while i < bytes.len()
        invariant
            i <= bytes@.len(),
            out@ == old(out)@ + bytes@.take(i as int),
        decreases bytes@.len() - i,
    {
        out.push(bytes[i]);
        assert(bytes@.take((i + 1) as int) =~= bytes@.take(i as int).push(bytes@[i as int]));
        i = i + 1;
    }
    assert(bytes@.take(bytes@.len() as int) =~= bytes@);
    if bytes.len() % 2 == 0 {
        out.push(0);
        out.push(0);
    } else {
        out.push(0);
    }
}

pub fn write_record_header(out: &mut Vec<u8>, length: u16, record_type: u8, data_type: u8)
    ensures
        final(out)@ == old(out)@ + record_header(length, record_type, data_type),
{
    write_u16_be(out, length);
    out.push(record_type);
    out.push(data_type);
}

pub fn write_no_data_record(out: &mut Vec<u8>, record_type: u8)
    ensures
        final(out)@ == old(out)@ + no_data_record(record_type),
{
    write_record_header(out, 4, record_type, 0x00);
}

pub fn write_i16_record(out: &mut Vec<u8>, record_type: u8, value: i16)
    ensures
        final(out)@ == old(out)@ + i16_record(record_type, value),
{
    write_record_header(out, 6, record_type, 0x02);
    write_i16_be(out, value);
}

pub fn write_string_record(out: &mut Vec<u8>, record_type: u8, s: &str)
    requires
        s.spec_bytes().len() + 6 <= usize::MAX,
    ensures
        final(out)@ == old(out)@ + string_record(record_type, s.spec_bytes()),
{
    let n = s.as_bytes().len();
    let payload = if n % 2 == 0 {
        n + 2
    } else {
        n + 1
    };
    write_record_header(out, (4 + payload) as u16, record_type, 0x06);
    write_padded_string(out, s);
}

pub fn write_real_pair_record(out: &mut Vec<u8>, record_type: u8, a: &[u8; 8], b: &[u8; 8])
    ensures
        final(out)@ == old(out)@ + real_pair_record(record_type, a@, b@),
{
    write_record_header(out, 20, record_type, 0x05);
    let mut i: usize = 0;
    while i < 8
        invariant
            i <= 8,
            out@ == old(out)@ + record_header(20, record_type, 0x05) + a@.take(i as int),
        decreases 8 - i,
    {
        out.push(a[i]);
        assert(a@.take((i + 1) as int) =~= a@.take(i as int).push(a@[i as int]));
        i = i + 1;
    }
    assert(a@.take(8) =~= a@);
    let mut j: usize = 0;
    while j < 8
        invariant
            j <= 8,
            out@ == old(out)@ + record_header(20, record_type, 0x05) + a@ + b@.take(j as int),
        decreases 8 - j,
    {
        out.push(b[j]);
        assert(b@.take((j + 1) as int) =~= b@.take(j as int).push(b@[j as int]));
        j = j + 1;
    }
    assert(b@.take(8) =~= b@);
}

pub fn write_boundary(
    out: &mut Vec<u8>,
    layer: i16,
    datatype: i16,
    lower_left: (i32, i32),
    upper_right: (i32, i32),
)
    ensures
        final(out)@ == old(out)@ + boundary_record(
            layer,
            datatype,
            lower_left.0,
            lower_left.1,
            upper_right.0,
            upper_right.1,
        ),
{
    let (x0, y0) = lower_left;
    let (x1, y1) = upper_right;
    write_no_data_record(out, 0x08);
    write_i16_record(out, 0x0D, layer);
    write_i16_record(out, 0x0E, datatype);
    write_record_header(out, 4 + 4 * 2 * 5, 0x10, 0x03);
    write_i32_be(out, x0);
    write_i32_be(out, y0);
    write_i32_be(out, x1);
    write_i32_be(out, y0);
    write_i32_be(out, x1);
    write_i32_be(out, y1);
    write_i32_be(out, x0);
    write_i32_be(out, y1);
    write_i32_be(out, x0);
    write_i32_be(out, y0);
    write_no_data_record(out, 0x11);
    assert(out@ =~= old(out)@ + boundary_record(layer, datatype, x0, y0, x1, y1));
}

} // verus!

verus! {

/// Center coordinate (pm) of the `k`-th emitter column or row.
pub open spec fn cell_center(k: int) -> int {
    k * EMITTER_PITCH_PM + EMITTER_PITCH_PM / 2
}

/// The airbridge span (layer 20) and Nb trace (layer 25) of emitter `(u, v)`.
pub open spec fn cell_records(u: int, v: int) -> Seq<u8> {
    let cx = cell_center(u);
    let cy = cell_center(v);
    boundary_record(
        20,
        0,
        (cx - AIRBRIDGE_HALF_WIDTH_PM) as i32,
        (cy - AIRBRIDGE_HALF_HEIGHT_PM) as i32,
        (cx + AIRBRIDGE_HALF_WIDTH_PM) as i32,
        (cy + AIRBRIDGE_HALF_HEIGHT_PM) as i32,
    ) + boundary_record(
        25,
        0,
        (cx - TRACE_HALF_WIDTH_PM) as i32,
        (cy - AIRBRIDGE_HALF_HEIGHT_PM) as i32,
        (cx + TRACE_HALF_WIDTH_PM) as i32,
        (cy + AIRBRIDGE_HALF_HEIGHT_PM) as i32,
    )
}

/// Law: emitter `(u, v)` of the 8 x 8 array is centred in cell `(u, v)` of
/// the 50 um grid, at the midpoint `(m(u), m(v))` of the cell. Its
/// airbridge (layer 20) is the 1.5 x 5.0 um rectangle and its Nb trace
/// (layer 25) the 0.3 x 5.0 um rectangle around that midpoint, both strictly
/// inside the cell, so no two emitters overlap.
pub proof fn lemma_emitter_geometry(u: int, v: int)
    requires
        0 <= u < 8,
        0 <= v < 8,
    ensures
        ({
            let mx = (u * EMITTER_PITCH_PM + (u + 1) * EMITTER_PITCH_PM) / 2;
            let my = (v * EMITTER_PITCH_PM + (v + 1) * EMITTER_PITCH_PM) / 2;
            &&& cell_records(u, v) == boundary_record(
                20,
                0,
                (mx - 750_000) as i32,
                (my - 2_500_000) as i32,
                (mx + 750_000) as i32,
                (my + 2_500_000) as i32,
            ) + boundary_record(
                25,
                0,
                (mx - 150_000) as i32,
                (my - 2_500_000) as i32,
                (mx + 150_000) as i32,
                (my + 2_500_000) as i32,
            )
            &&& u * EMITTER_PITCH_PM < mx - 750_000 && mx + 750_000 < (u + 1) * EMITTER_PITCH_PM
            &&& v * EMITTER_PITCH_PM < my - 2_500_000 && my + 2_500_000 < (v + 1) * EMITTER_PITCH_PM
            &&& 0 < mx - 750_000 && mx + 750_000 < 0x7fff_ffff
            &&& 0 < my - 2_500_000 && my + 2_500_000 < 0x7fff_ffff
        }),
{
    assert(cell_center(u) == (u * EMITTER_PITCH_PM + (u + 1) * EMITTER_PITCH_PM) / 2);
    assert(cell_center(v) == (v * EMITTER_PITCH_PM + (v + 1) * EMITTER_PITCH_PM) / 2);
}

/// Records of the first `n` emitters, column-major (`u` outer, `v` inner).
pub open spec fn array_cells(n: nat) -> Seq<u8>
    decreases n,
{
    if n == 0 {
        seq![]
    } else {
        array_cells((n - 1) as nat) + cell_records((n - 1) / 8, (n - 1) % 8)
    }
}

/// `n` zero bytes.
pub open spec fn zeros(n: nat) -> Seq<u8> {
    Seq::new(n, |i: int| 0u8)
}

/// Everything between the HEADER record and the ENDLIB record of the mask
/// stream: library and structure records, the substrate boundary, the
/// emitter cells and ENDSTR.
pub open spec fn mask_body(user_unit: Seq<u8>, meters_per_unit: Seq<u8>) -> Seq<u8> {
    record_header(28, 0x01, 0x02) + zeros(24)
        + string_record(0x02, "shbt_mask.gds".spec_bytes())
        + real_pair_record(0x03, user_unit, meters_per_unit)
        + record_header(28, 0x05, 0x02) + zeros(24)
        + string_record(0x06, "shbt_array".spec_bytes())
        + boundary_record(10, 0, 0, 0, SUBSTRATE_SIZE_PM, SUBSTRATE_SIZE_PM)
        + array_cells(64) + no_data_record(0x07)
}

/// The complete mask stream, given the GDSII encodings of the user unit
/// and of the database unit in meters: HEADER (version 600), the body,
/// ENDLIB.
pub open spec fn mask_stream(user_unit: Seq<u8>, meters_per_unit: Seq<u8>) -> Seq<u8> {
    i16_record(0x00, 600) + mask_body(user_unit, meters_per_unit) + no_data_record(0x04)
}

fn write_zero_words(out: &mut Vec<u8>)
    ensures
        final(out)@ == old(out)@ + zeros(24),
{
    let mut i: usize = 0;
    while i < 12
        invariant
            i <= 12,
            out@ == old(out)@ + zeros(2 * i as nat),
        decreases 12 - i,
    {
        write_i16_be(out, 0);
        assert((0u16 >> 8u16) as u8 == 0u8 && (0u16 & 0xffu16) as u8 == 0u8) by (bit_vector);
        assert(zeros(2 * (i + 1) as nat) =~= zeros(2 * i as nat) + be16(0i16 as u16));
        i = i + 1;
    }
}

/// GDSII mask exporter.
#[derive(Clone, Debug, Default)]
pub struct GdsiiMaskExporter;

impl GdsiiMaskExporter {
    pub fn new() -> Self {
        GdsiiMaskExporter
    }

    /// The 8x8 InP/InGaAs SHBT array as a GDSII v6.0 stream: header,
    /// library and structure records, the 350 um substrate on layer 10,
    /// then per emitter an airbridge (layer 20) and a Nb trace (layer 25).
    #[verifier::rlimit(50)]
    pub fn mask_stream(&self, user_unit: &[u8; 8], meters_per_unit: &[u8; 8]) -> (out: Vec<u8>)
        ensures
            out@ == mask_stream(user_unit@, meters_per_unit@),
    {
        let mut out: Vec<u8> = Vec::new();
        proof {
            reveal_strlit("shbt_mask.gds");
            reveal_strlit("shbt_array");
            broadcast use vstd::string::group_string_axioms;
            assert(vstd::string::is_ascii("shbt_mask.gds"));
            assert(vstd::string::is_ascii("shbt_array"));
        }
        write_i16_record(&mut out, 0x00, 600);
        write_record_header(&mut out, 28, 0x01, 0x02);
        write_zero_words(&mut out);
        write_string_record(&mut out, 0x02, "shbt_mask.gds");
        write_real_pair_record(&mut out, 0x03, user_unit, meters_per_unit);
        write_record_header(&mut out, 28, 0x05, 0x02);
        write_zero_words(&mut out);
        write_string_record(&mut out, 0x06, "shbt_array");
        write_boundary(&mut out, 10, 0, (0, 0), (SUBSTRATE_SIZE_PM, SUBSTRATE_SIZE_PM));
        let ghost base = out@;
        let mut u: usize = 0;
        while u < ARRAY_DIM
            invariant
                u <= ARRAY_DIM,
                out@ == base + array_cells(8 * u as nat),
            decreases ARRAY_DIM - u,
        {
            let mut v: usize = 0;
            while v < ARRAY_DIM
                invariant
                    u < ARRAY_DIM,
                    v <= ARRAY_DIM,
                    out@ == base + array_cells((8 * u + v) as nat),
                decreases ARRAY_DIM - v,
            {
                let cx = u as i32 * EMITTER_PITCH_PM + EMITTER_PITCH_PM / 2;
                let cy = v as i32 * EMITTER_PITCH_PM + EMITTER_PITCH_PM / 2;
                write_boundary(
                    &mut out,
                    20,
                    0,
                    (cx - AIRBRIDGE_HALF_WIDTH_PM, cy - AIRBRIDGE_HALF_HEIGHT_PM),
                    (cx + AIRBRIDGE_HALF_WIDTH_PM, cy + AIRBRIDGE_HALF_HEIGHT_PM),
                );
                write_boundary(
                    &mut out,
                    25,
                    0,
                    (cx - TRACE_HALF_WIDTH_PM, cy - AIRBRIDGE_HALF_HEIGHT_PM),
                    (cx + TRACE_HALF_WIDTH_PM, cy + AIRBRIDGE_HALF_HEIGHT_PM),
                );
                proof {
                    let k = (8 * u + v) as nat;
                    assert((k as int) / 8 == u as int && (k as int) % 8 == v as int);
                    assert(array_cells(k + 1) == array_cells(k) + cell_records(u as int, v as int));
                    assert(out@ =~= base + array_cells(k + 1));
                }
                v = v + 1;
            }
            u = u + 1;
        }
        write_no_data_record(&mut out, 0x07);
        assert(out@ =~= i16_record(0x00, 600) + mask_body(user_unit@, meters_per_unit@));
        write_no_data_record(&mut out, 0x04);
        out
    }
}

/// Law: every mask stream opens with the HEADER record (version 600) and
/// closes with the ENDLIB record.
pub proof fn lemma_mask_stream_framing(user_unit: Seq<u8>, meters_per_unit: Seq<u8>)
    ensures
        mask_stream(user_unit, meters_per_unit).take(6) == seq![0x00u8, 0x06u8, 0x00u8, 0x02u8, 0x02u8, 0x58u8],
        mask_stream(user_unit, meters_per_unit).skip(
            mask_stream(user_unit, meters_per_unit).len() - 4,
        ) == seq![0x00u8, 0x04u8, 0x04u8, 0x00u8],
{
    assert((6u16 >> 8u16) as u8 == 0u8 && (6u16 & 0xffu16) as u8 == 6u8 && (600u16 >> 8u16) as u8 == 2u8
        && (600u16 & 0xffu16) as u8 == 0x58u8 && (4u16 >> 8u16) as u8 == 0u8 && (4u16 & 0xffu16) as u8
        == 4u8) by (bit_vector);
    let head = i16_record(0x00, 600);
    let body = mask_body(user_unit, meters_per_unit);
    let tail = no_data_record(0x04);
    let s = mask_stream(user_unit, meters_per_unit);
    assert(600i16 as u16 == 600u16);
    assert(head =~= seq![0x00u8, 0x06u8, 0x00u8, 0x02u8, 0x02u8, 0x58u8]);
    assert(tail =~= seq![0x00u8, 0x04u8, 0x04u8, 0x00u8]);
    assert(s == (head + body) + tail);
    assert((head + body).take(6) =~= head);
    assert(s.take(6) =~= (head + body).take(6));
    assert(s.skip(s.len() - 4) =~= tail);
}

/// Length field of the record that starts `s`: its first two bytes, big-endian.
pub open spec fn record_length(s: Seq<u8>) -> nat {
    (s[0] as nat) * 256 + s[1] as nat
}

/// Record types along the chain of records that fills `s` exactly, or
/// `None` where the chain breaks. Each record starts with an even
/// big-endian length of at least 4 bytes, the next record starts that many
/// bytes later, and the last one ends exactly at the end of `s`.
#[verifier::opaque]
pub open spec fn record_chain(s: Seq<u8>) -> Option<Seq<u8>>
    decreases s.len(),
{
    if s.len() == 0 {
        Some(seq![])
    } else if s.len() < 4 || record_length(s) < 4 || record_length(s) % 2 != 0 || record_length(s) > s.len() {
        None
    } else {
        match record_chain(s.skip(record_length(s) as int)) {
            Some(t) => Some(seq![s[2]] + t),
            None => None,
        }
    }
}

/// Record types of one BOUNDARY element: BOUNDARY, LAYER, DATATYPE, XY, ENDEL.
pub open spec fn boundary_types() -> Seq<u8> {
    seq![0x08u8, 0x0Du8, 0x0Eu8, 0x10u8, 0x11u8]
}

/// Record types of `n` BOUNDARY elements in a row.
pub open spec fn boundary_run(n: nat) -> Seq<u8>
    decreases n,
{
    if n == 0 {
        seq![]
    } else {
        boundary_run((n - 1) as nat) + boundary_types()
    }
}

/// Record types of the mask stream, in order: HEADER, BGNLIB, LIBNAME,
/// UNITS, BGNSTR, STRNAME, 129 BOUNDARY elements (the substrate and two per
/// emitter), ENDSTR, ENDLIB.
pub open spec fn mask_record_types() -> Seq<u8> {
    seq![0x00u8, 0x01u8, 0x02u8, 0x03u8, 0x05u8, 0x06u8] + boundary_run(129) + seq![0x07u8, 0x04u8]
}

proof fn lemma_chain_concat(a: Seq<u8>, b: Seq<u8>)
    requires
        record_chain(a) is Some,
        record_chain(b) is Some,
    ensures
        record_chain(a + b) == Some(record_chain(a).unwrap() + record_chain(b).unwrap()),
    decreases a.len(),
{
    reveal(record_chain);
    if a.len() == 0 {
        assert(a + b =~= b);
        assert(Seq::<u8>::empty() + record_chain(b).unwrap() =~= record_chain(b).unwrap());
    } else {
        let l = record_length(a);
        let ab = a + b;
        assert(ab[0] == a[0] && ab[1] == a[1] && ab[2] == a[2]);
        assert(ab.skip(l as int) =~= a.skip(l as int) + b);
        lemma_chain_concat(a.skip(l as int), b);
        let ta = record_chain(a.skip(l as int)).unwrap();
        let tb = record_chain(b).unwrap();
        assert((seq![a[2]] + ta) + tb =~= seq![a[2]] + (ta + tb));
    }
}

proof fn lemma_be16_value(v: u16)
    ensures
        ((v >> 8u16) as u8) as nat * 256 + ((v & 0xffu16) as u8) as nat == v as nat,
{
    assert(((v >> 8u16) as u8) as u32 * 256u32 + ((v & 0xffu16) as u8) as u32 == v as u32) by (bit_vector);
}

/// A record whose header announces `length` bytes, followed by a payload
/// that brings it to exactly that length, is a one-record chain.
proof fn lemma_header_record(length: u16, record_type: u8, data_type: u8, payload: Seq<u8>)
    requires
        length >= 4,
        length % 2 == 0,
        payload.len() + 4 == length,
    ensures
        record_chain(record_header(length, record_type, data_type) + payload) == Some(seq![record_type]),
{
    reveal_with_fuel(record_chain, 2);
    let r = record_header(length, record_type, data_type) + payload;
    lemma_be16_value(length);
    assert(r[0] == (length >> 8u16) as u8 && r[1] == (length & 0xffu16) as u8 && r[2] == record_type);
    assert(record_length(r) == length);
    assert(r.skip(length as int) =~= Seq::<u8>::empty());
    assert(seq![record_type] + Seq::<u8>::empty() =~= seq![record_type]);
}

proof fn lemma_no_data_chain(record_type: u8)
    ensures
        record_chain(no_data_record(record_type)) == Some(seq![record_type]),
{
    lemma_header_record(4, record_type, 0x00, seq![]);
    assert(record_header(4, record_type, 0x00) + Seq::<u8>::empty() =~= no_data_record(record_type));
}

proof fn lemma_i16_chain(record_type: u8, value: i16)
    ensures
        record_chain(i16_record(record_type, value)) == Some(seq![record_type]),
{
    lemma_header_record(6, record_type, 0x02, be16(value as u16));
}

proof fn lemma_string_chain(record_type: u8, s: Seq<u8>)
    requires
        s.len() + 6 <= 0xffff,
    ensures
        record_chain(string_record(record_type, s)) == Some(seq![record_type]),
{
    lemma_header_record((4 + string_payload_len(s.len())) as u16, record_type, 0x06, padded(s));
}

proof fn lemma_boundary_chain(layer: i16, datatype: i16, x0: i32, y0: i32, x1: i32, y1: i32)
    ensures
        record_chain(boundary_record(layer, datatype, x0, y0, x1, y1)) == Some(boundary_types()),
{
    let a = no_data_record(0x08);
    let b = i16_record(0x0D, layer);
    let c = i16_record(0x0E, datatype);
    let pts = xy(x0, y0) + xy(x1, y0) + xy(x1, y1) + xy(x0, y1) + xy(x0, y0);
    let d = record_header(44, 0x10, 0x03) + pts;
    let e = no_data_record(0x11);
    lemma_no_data_chain(0x08);
    lemma_i16_chain(0x0D, layer);
    lemma_i16_chain(0x0E, datatype);
    lemma_header_record(44, 0x10, 0x03, pts);
    lemma_no_data_chain(0x11);
    lemma_chain_concat(a, b);
    lemma_chain_concat(a + b, c);
    lemma_chain_concat(a + b + c, d);
    lemma_chain_concat(a + b + c + d, e);
    assert(boundary_record(layer, datatype, x0, y0, x1, y1) =~= a + b + c + d + e);
    assert(seq![0x08u8] + seq![0x0Du8] + seq![0x0Eu8] + seq![0x10u8] + seq![0x11u8] =~= boundary_types());
}

proof fn lemma_cell_chain(u: int, v: int)
    ensures
        record_chain(cell_records(u, v)) == Some(boundary_types() + boundary_types()),
{
    let cx = cell_center(u);
    let cy = cell_center(v);
    let p = boundary_record(
        20,
        0,
        (cx - AIRBRIDGE_HALF_WIDTH_PM) as i32,
        (cy - AIRBRIDGE_HALF_HEIGHT_PM) as i32,
        (cx + AIRBRIDGE_HALF_WIDTH_PM) as i32,
        (cy + AIRBRIDGE_HALF_HEIGHT_PM) as i32,
    );
    let q = boundary_record(
        25,
        0,
        (cx - TRACE_HALF_WIDTH_PM) as i32,
        (cy - AIRBRIDGE_HALF_HEIGHT_PM) as i32,
        (cx + TRACE_HALF_WIDTH_PM) as i32,
        (cy + AIRBRIDGE_HALF_HEIGHT_PM) as i32,
    );
    lemma_boundary_chain(
        20,
        0,
        (cx - AIRBRIDGE_HALF_WIDTH_PM) as i32,
        (cy - AIRBRIDGE_HALF_HEIGHT_PM) as i32,
        (cx + AIRBRIDGE_HALF_WIDTH_PM) as i32,
        (cy + AIRBRIDGE_HALF_HEIGHT_PM) as i32,
    );
    lemma_boundary_chain(
        25,
        0,
        (cx - TRACE_HALF_WIDTH_PM) as i32,
        (cy - AIRBRIDGE_HALF_HEIGHT_PM) as i32,
        (cx + TRACE_HALF_WIDTH_PM) as i32,
        (cy + AIRBRIDGE_HALF_HEIGHT_PM) as i32,
    );
    lemma_chain_concat(p, q);
}

#[verifier::rlimit(40)]
proof fn lemma_cells_chain(n: nat)
    ensures
        record_chain(array_cells(n)) == Some(boundary_run(2 * n)),
    decreases n,
{
    if n == 0 {
        assert(boundary_run(0) =~= Seq::<u8>::empty());
        assert(array_cells(0) =~= Seq::<u8>::empty());
        reveal(record_chain);
    } else {
        let m = (n - 1) as nat;
        lemma_cells_chain(m);
        let c = cell_records(m as int / 8, m as int % 8);
        lemma_cell_chain(m as int / 8, m as int % 8);
        lemma_chain_concat(array_cells(m), c);
        assert(array_cells(n) == array_cells(m) + c);
        assert(boundary_run(2 * n) == boundary_run((2 * m + 1) as nat) + boundary_types());
        assert(boundary_run((2 * m + 1) as nat) == boundary_run(2 * m) + boundary_types());
        assert(boundary_run(2 * m) + (boundary_types() + boundary_types()) =~= boundary_run(2 * n));
    }
}

proof fn lemma_run_shift(n: nat)
    ensures
        boundary_types() + boundary_run(n) == boundary_run(n + 1),
    decreases n,
{
    if n == 0 {
        assert(boundary_run(0) =~= Seq::<u8>::empty());
        assert(boundary_run(1) == boundary_run(0) + boundary_types());
        assert(boundary_types() + boundary_run(0) =~= boundary_run(1));
    } else {
        let m = (n - 1) as nat;
        lemma_run_shift(m);
        assert(boundary_run(n) == boundary_run(m) + boundary_types());
        assert(boundary_run(n + 1) == boundary_run(n) + boundary_types());
        assert(boundary_types() + (boundary_run(m) + boundary_types()) =~= (boundary_types() + boundary_run(m))
            + boundary_types());
    }
}

proof fn lemma_literal_len(s: &str, n: nat)
    requires
        vstd::string::is_ascii(s),
        s@.len() == n,
    ensures
        s.spec_bytes().len() == n,
{
    broadcast use vstd::string::group_string_axioms;
}

/// The records of the mask stream before the substrate boundary: HEADER,
/// BGNLIB, LIBNAME, UNITS, BGNSTR, STRNAME.
spec fn mask_head(user_unit: Seq<u8>, meters_per_unit: Seq<u8>) -> Seq<u8> {
    i16_record(0x00, 600) + (record_header(28, 0x01, 0x02) + zeros(24)) + string_record(0x02, "shbt_mask.gds".spec_bytes())
        + real_pair_record(0x03, user_unit, meters_per_unit) + (record_header(28, 0x05, 0x02) + zeros(24))
        + string_record(0x06, "shbt_array".spec_bytes())
}

#[verifier::rlimit(40)]
proof fn lemma_mask_head_chain(user_unit: Seq<u8>, meters_per_unit: Seq<u8>)
    requires
        user_unit.len() == 8,
        meters_per_unit.len() == 8,
    ensures
        record_chain(mask_head(user_unit, meters_per_unit)) == Some(
            seq![0x00u8, 0x01u8, 0x02u8, 0x03u8, 0x05u8, 0x06u8],
        ),
{
    reveal_strlit("shbt_mask.gds");
    reveal_strlit("shbt_array");
    lemma_literal_len("shbt_mask.gds", 13);
    lemma_literal_len("shbt_array", 10);
    let p0 = i16_record(0x00, 600);
    let p1 = record_header(28, 0x01, 0x02) + zeros(24);
    let p2 = string_record(0x02, "shbt_mask.gds".spec_bytes());
    let p3 = real_pair_record(0x03, user_unit, meters_per_unit);
    let p4 = record_header(28, 0x05, 0x02) + zeros(24);
    let p5 = string_record(0x06, "shbt_array".spec_bytes());
    lemma_i16_chain(0x00, 600);
    lemma_header_record(28, 0x01, 0x02, zeros(24));
    lemma_string_chain(0x02, "shbt_mask.gds".spec_bytes());
    lemma_header_record(20, 0x03, 0x05, user_unit + meters_per_unit);
    assert(p3 =~= record_header(20, 0x03, 0x05) + (user_unit + meters_per_unit));
    lemma_header_record(28, 0x05, 0x02, zeros(24));
    lemma_string_chain(0x06, "shbt_array".spec_bytes());
    lemma_chain_concat(p0, p1);
    lemma_chain_concat(p0 + p1, p2);
    lemma_chain_concat(p0 + p1 + p2, p3);
    lemma_chain_concat(p0 + p1 + p2 + p3, p4);
    lemma_chain_concat(p0 + p1 + p2 + p3 + p4, p5);
    assert(seq![0x00u8] + seq![0x01u8] + seq![0x02u8] + seq![0x03u8] + seq![0x05u8] + seq![0x06u8] =~= seq![
        0x00u8,
        0x01u8,
        0x02u8,
        0x03u8,
        0x05u8,
        0x06u8,
    ]);
}

/// Law: the mask stream is an unbroken chain of GDSII records. Each record
/// starts with an even big-endian length of at least 4, the next record
/// starts that many bytes later, the chain ends exactly at the end of the
/// stream, and the record types come in the order of `mask_record_types`.
#[verifier::rlimit(40)]
pub proof fn lemma_mask_stream_records(user_unit: Seq<u8>, meters_per_unit: Seq<u8>)
    requires
        user_unit.len() == 8,
        meters_per_unit.len() == 8,
    ensures
        record_chain(mask_stream(user_unit, meters_per_unit)) == Some(mask_record_types()),
{
    let head = mask_head(user_unit, meters_per_unit);
    let p6 = boundary_record(10, 0, 0, 0, SUBSTRATE_SIZE_PM, SUBSTRATE_SIZE_PM);
    let p7 = array_cells(64);
    let p8 = no_data_record(0x07);
    let p9 = no_data_record(0x04);
    lemma_mask_head_chain(user_unit, meters_per_unit);
    lemma_boundary_chain(10, 0, 0, 0, SUBSTRATE_SIZE_PM, SUBSTRATE_SIZE_PM);
    lemma_cells_chain(64);
    lemma_no_data_chain(0x07);
    lemma_no_data_chain(0x04);
    lemma_chain_concat(head, p6);
    lemma_chain_concat(head + p6, p7);
    lemma_chain_concat(head + p6 + p7, p8);
    lemma_chain_concat(head + p6 + p7 + p8, p9);
    assert(mask_stream(user_unit, meters_per_unit) =~= head + p6 + p7 + p8 + p9);
    lemma_run_shift(128);
    assert(seq![0x00u8, 0x01u8, 0x02u8, 0x03u8, 0x05u8, 0x06u8] + boundary_types() + boundary_run(128) + seq![0x07u8]
        + seq![0x04u8] =~= mask_record_types());
}

/// Substrate/InP layer square dimension (nm).
pub const SUBSTRATE_SIZE_NM: u64 = 350_000;
/// Airbridge span width (nm).
pub const AIRBRIDGE_WIDTH_NM: u64 = 1_500;
/// Airbridge span height (nm).
pub const AIRBRIDGE_HEIGHT_NM: u64 = 5_000;
/// Nb trace width (nm).
pub const TRACE_WIDTH_NM: u64 = 300;
/// Minimum resolvable e-beam feature (nm).
pub const MIN_EBEAM_RESOLUTION_NM: u64 = 50;

/// A drawn feature checked by the e-beam design rules.
#[derive(Clone, Copy, Debug)]
pub struct DrcFeature {
    pub name: &'static str,
    pub width_nm: u64,
    pub height_nm: u64,
}

/// Decimal digits of `n`.
pub open spec fn decimal(n: nat) -> Seq<char>
    decreases n,
{
    if n < 10 {
        seq![(n + 48) as char]
    } else {
        decimal(n / 10).push(((n % 10) + 48) as char)
    }
}

/// Message reporting a `dimension` ("width" or "height") of `value_nm`
/// below the resolution `limit_nm`, both printed with three zero decimals.
pub open spec fn drc_message(name: Seq<char>, dimension: Seq<char>, value_nm: nat, limit_nm: nat) -> Seq<char> {
    "DRC violation: "@ + name + " "@ + dimension + " "@ + decimal(value_nm) + ".000 nm below "@ + decimal(limit_nm)
        + ".000 nm"@
}

/// Violations of one feature: width first, then height.
pub open spec fn feature_violations(f: DrcFeature) -> Seq<Seq<char>> {
    (if f.width_nm < MIN_EBEAM_RESOLUTION_NM {
        seq![drc_message(f.name@, "width"@, f.width_nm as nat, MIN_EBEAM_RESOLUTION_NM as nat)]
    } else {
        seq![]
    }) + (if f.height_nm < MIN_EBEAM_RESOLUTION_NM {
        seq![drc_message(f.name@, "height"@, f.height_nm as nat, MIN_EBEAM_RESOLUTION_NM as nat)]
    } else {
        seq![]
    })
}

/// Law: width and height are checked independently. A feature contributes
/// one violation per dimension below the 50 nm resolution, none otherwise;
/// a width below it is always reported first, and a height below it is
/// always reported, whatever the width.
pub proof fn lemma_feature_checks_independent(f: DrcFeature)
    ensures
        feature_violations(f).len() == (if f.width_nm < 50 { 1int } else { 0 }) + (if f.height_nm < 50 { 1int } else { 0 }),
        f.width_nm < 50 ==> feature_violations(f)[0] == drc_message(f.name@, "width"@, f.width_nm as nat, 50),
        f.height_nm < 50 ==> feature_violations(f).last() == drc_message(f.name@, "height"@, f.height_nm as nat, 50),
        f.height_nm < 50 ==> feature_violations(f).contains(drc_message(f.name@, "height"@, f.height_nm as nat, 50)),
{
    let v = feature_violations(f);
    if f.height_nm < 50 {
        assert(v[v.len() - 1] == drc_message(f.name@, "height"@, f.height_nm as nat, 50));
    }
}

/// Law: the violations of a list of features are those of each feature in
/// turn, so their number is the number of undersized dimensions.
pub proof fn lemma_drc_violation_count(fs: Seq<DrcFeature>)
    ensures
        drc_violations(fs).len() == undersized_dimensions(fs),
    decreases fs.len(),
{
    if fs.len() > 0 {
        lemma_drc_violation_count(fs.drop_last());
        lemma_feature_checks_independent(fs.last());
    }
}

/// Number of feature dimensions below the 50 nm resolution.
pub open spec fn undersized_dimensions(fs: Seq<DrcFeature>) -> int
    decreases fs.len(),
{
    if fs.len() == 0 {
        0
    } else {
        undersized_dimensions(fs.drop_last()) + (if fs.last().width_nm < 50 { 1int } else { 0 }) + (if fs.last().height_nm
            < 50 { 1int } else { 0 })
    }
}

/// Violations of a list of features, in order.
pub open spec fn drc_violations(fs: Seq<DrcFeature>) -> Seq<Seq<char>>
    decreases fs.len(),
{
    if fs.len() == 0 {
        seq![]
    } else {
        drc_violations(fs.drop_last()) + feature_violations(fs.last())
    }
}

/// `format!` of the violation message: the text, the name, the dimension,
/// and the value and the limit, each printed by `u64`'s `Display` (decimal
/// digits, no sign, no leading zeros) followed by three zero decimals.
#[verifier::external_body]
fn drc_violation_message(name: &str, dimension: &str, value_nm: u64, limit_nm: u64) -> (r: String)
    ensures
        r@ == drc_message(name@, dimension@, value_nm as nat, limit_nm as nat),
{
    format!("DRC violation: {name} {dimension} {value_nm}.000 nm below {limit_nm}.000 nm")
}

/// Check features against the e-beam resolution; the flag is true when no
/// violation was found.
pub fn drc_check(features: &[DrcFeature]) -> (r: (bool, Vec<String>))
    ensures
        r.1@.map_values(|m: String| m@) == drc_violations(features@),
        r.0 == (r.1@.len() == 0),
{
    let mut violations: Vec<String> = Vec::new();
    let mut i: usize = 0;
    while i < features.len()
        invariant
            i <= features@.len(),
            violations@.map_values(|m: String| m@) == drc_violations(features@.take(i as int)),
        decreases features@.len() - i,
    {
        let f = features[i];
        let ghost before = violations@.map_values(|m: String| m@);
        if f.width_nm < MIN_EBEAM_RESOLUTION_NM {
            violations.push(drc_violation_message(f.name, "width", f.width_nm, MIN_EBEAM_RESOLUTION_NM));
        }
        let ghost mid = violations@.map_values(|m: String| m@);
        if f.height_nm < MIN_EBEAM_RESOLUTION_NM {
            violations.push(drc_violation_message(f.name, "height", f.height_nm, MIN_EBEAM_RESOLUTION_NM));
        }
        proof {
            assert(features@.take((i + 1) as int).drop_last() =~= features@.take(i as int));
            assert(mid =~= before + (if f.width_nm < MIN_EBEAM_RESOLUTION_NM {
                seq![drc_message(f.name@, "width"@, f.width_nm as nat, MIN_EBEAM_RESOLUTION_NM as nat)]
            } else {
                seq![]
            }));
            assert(violations@.map_values(|m: String| m@) =~= before + feature_violations(f));
        }
        i = i + 1;
    }
    assert(features@.take(features@.len() as int) =~= features@);
    let ok = violations.len() == 0;
    (ok, violations)
}

impl GdsiiMaskExporter {
    /// Electron-beam DRC: all drawn features >= 50 nm.
    pub fn validate_drc(&self) -> (r: (bool, Vec<String>))
        ensures
            r.0,
            r.1@.len() == 0,
    {
        let features = [
            DrcFeature { name: "SUBSTRATE_INP", width_nm: SUBSTRATE_SIZE_NM, height_nm: SUBSTRATE_SIZE_NM },
            DrcFeature { name: "AIRBRIDGE_SPAN", width_nm: AIRBRIDGE_WIDTH_NM, height_nm: AIRBRIDGE_HEIGHT_NM },
            DrcFeature { name: "MET_NB_TRACE", width_nm: TRACE_WIDTH_NM, height_nm: AIRBRIDGE_HEIGHT_NM },
        ];
        let r = drc_check(&features);
        proof {
            let fs = features@;
            reveal_with_fuel(drc_violations, 4);
            assert(fs.drop_last().drop_last().drop_last() =~= Seq::<DrcFeature>::empty());
            assert(feature_violations(fs[0]) =~= Seq::<Seq<char>>::empty());
            assert(feature_violations(fs[1]) =~= Seq::<Seq<char>>::empty());
            assert(feature_violations(fs[2]) =~= Seq::<Seq<char>>::empty());
            assert(drc_violations(fs) =~= Seq::<Seq<char>>::empty());
            assert(r.1@.map_values(|m: String| m@).len() == r.1@.len());
        }
        r
    }
}

} // verus!
