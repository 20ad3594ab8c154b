//! Telemetry frames and the single-producer/single-consumer frame ring.
//!
//! A frame is one 64-byte cache line; its last covered byte is at offset 56,
//! where the CRC-32 (IEEE) of bytes `0..56` is stored. The ring keeps a
//! header with free-running `u32` head/tail counters; slot `p % capacity`
//! holds the frame at counter `p`.

use vstd::prelude::*;
use crate::bytes::{le_bytes, push_le};
use vstd::string::StringSliceAdditionalSpecFns;
use vstd::arithmetic::div_mod::{
    lemma_fundamental_div_mod, lemma_mod_add_multiples_vanish, lemma_mod_equivalence, lemma_mod_mod,
    lemma_small_mod,
};

verus! {

/// Ring magic identifying an initialized telemetry segment ("SHBT").
pub const RING_MAGIC: u32 = 0x5348_4254;
/// Cache line / frame alignment and size in bytes.
pub const CACHE_LINE: usize = 64;
/// Bytes of a frame covered by its CRC (everything before `frame_crc32`).
pub const CRC_COVERED_BYTES: usize = 56;
/// Reflected CRC-32 (IEEE 802.3) polynomial.
pub const CRC32_POLY: u32 = 0xEDB8_8320;

/// Zero-copy telemetry frame, one cache line. Floating-point readings are
/// carried as their IEEE-754 bit patterns.
#[derive(Clone, Copy, Debug, PartialEq, Eq)]
pub struct TelemetryFrame {
    pub sequence_id: u64,
    pub timestamp_fs: u64,
    /// Bits of the `f64` metric determinant.
    pub metric_det: u64,
    /// Bits of the `f64` smallest Gram eigenvalue.
    pub gram_lambda_min: u64,
    /// Bits of the `f32` Kapitza boundary temperature (mK).
    pub kapitza_temp_mk: u32,
    /// Bits of the `f32` power output (kW).
    pub power_output_kw: u32,
    pub status_flags: u32,
    pub reserved_padding: [u8; 12],
    pub frame_crc32: u32,
}

/// The all-zero frame.
pub open spec fn is_zero_frame(f: TelemetryFrame) -> bool {
    &&& f.sequence_id == 0
    &&& f.timestamp_fs == 0
    &&& f.metric_det == 0
    &&& f.gram_lambda_min == 0
    &&& f.kapitza_temp_mk == 0
    &&& f.power_output_kw == 0
    &&& f.status_flags == 0
    &&& f.reserved_padding@ == Seq::new(12, |i: int| 0u8)
    &&& f.frame_crc32 == 0
}

impl Default for TelemetryFrame {
    fn default() -> (r: Self)
        ensures
            is_zero_frame(r),
    {
        let r = TelemetryFrame {
            sequence_id: 0,
            timestamp_fs: 0,
            metric_det: 0,
            gram_lambda_min: 0,
            kapitza_temp_mk: 0,
            power_output_kw: 0,
            status_flags: 0,
            reserved_padding: [0u8; 12],
            frame_crc32: 0,
        };
        assert(r.reserved_padding@ =~= Seq::new(12, |i: int| 0u8));
        r
    }
}

/// In-memory image of the CRC-covered part of a frame (bytes `0..56`,
/// little-endian, fields in declaration order).
pub open spec fn frame_bytes(f: TelemetryFrame) -> Seq<u8> {
    le_bytes(f.sequence_id, 8) + le_bytes(f.timestamp_fs, 8) + le_bytes(f.metric_det, 8)
        + le_bytes(f.gram_lambda_min, 8) + le_bytes(f.kapitza_temp_mk as u64, 4)
        + le_bytes(f.power_output_kw as u64, 4) + le_bytes(f.status_flags as u64, 4)
        + f.reserved_padding@
}

/// Law: the frame image is the `repr(C)` memory layout of the frame's first
/// 56 bytes. Each field sits little-endian at its C offset: `sequence_id`
/// at 0, `timestamp_fs` at 8, `metric_det` at 16, `gram_lambda_min` at 24,
/// `kapitza_temp_mk` at 32, `power_output_kw` at 36, `status_flags` at 40,
/// the padding at 44..56; byte `i` of an `n`-byte field holds bits
/// `8i..8i+8` of its value.
pub proof fn lemma_frame_layout(f: TelemetryFrame)
    ensures
        frame_bytes(f).len() == 56,
        frame_bytes(f).subrange(0, 8) == le_bytes(f.sequence_id, 8),
        frame_bytes(f).subrange(8, 16) == le_bytes(f.timestamp_fs, 8),
        frame_bytes(f).subrange(16, 24) == le_bytes(f.metric_det, 8),
        frame_bytes(f).subrange(24, 32) == le_bytes(f.gram_lambda_min, 8),
        frame_bytes(f).subrange(32, 36) == le_bytes(f.kapitza_temp_mk as u64, 4),
        frame_bytes(f).subrange(36, 40) == le_bytes(f.power_output_kw as u64, 4),
        frame_bytes(f).subrange(40, 44) == le_bytes(f.status_flags as u64, 4),
        frame_bytes(f).subrange(44, 56) == f.reserved_padding@,
        forall|i: int| 0 <= i < 8 ==> #[trigger] frame_bytes(f)[16 + i] == ((f.metric_det >> ((8 * i) as u64)) & 0xffu64) as u8,
        forall|i: int| 0 <= i < 8 ==> #[trigger] frame_bytes(f)[24 + i] == ((f.gram_lambda_min >> ((8 * i) as u64)) & 0xffu64) as u8,
{
    let b = frame_bytes(f);
    assert(f.reserved_padding@.len() == 12);
    assert(b.subrange(0, 8) =~= le_bytes(f.sequence_id, 8));
    assert(b.subrange(8, 16) =~= le_bytes(f.timestamp_fs, 8));
    assert(b.subrange(16, 24) =~= le_bytes(f.metric_det, 8));
    assert(b.subrange(24, 32) =~= le_bytes(f.gram_lambda_min, 8));
    assert(b.subrange(32, 36) =~= le_bytes(f.kapitza_temp_mk as u64, 4));
    assert(b.subrange(36, 40) =~= le_bytes(f.power_output_kw as u64, 4));
    assert(b.subrange(40, 44) =~= le_bytes(f.status_flags as u64, 4));
    assert(b.subrange(44, 56) =~= f.reserved_padding@);
    assert forall|i: int| 0 <= i < 8 implies #[trigger] b[16 + i] == ((f.metric_det >> ((8 * i) as u64)) & 0xffu64) as u8 by {
        assert(b[16 + i] == b.subrange(16, 24)[i]);
    }
    assert forall|i: int| 0 <= i < 8 implies #[trigger] b[24 + i] == ((f.gram_lambda_min >> ((8 * i) as u64)) & 0xffu64) as u8 by {
        assert(b[24 + i] == b.subrange(24, 32)[i]);
    }
}

/// One shift of the reflected CRC register.
pub open spec fn crc_shift(c: u32) -> u32 {
    if c & 1 == 1 {
        (c >> 1u32) ^ CRC32_POLY
    } else {
        c >> 1u32
    }
}

/// `n` shifts of the CRC register.
pub open spec fn crc_shifts(c: u32, n: nat) -> u32
    decreases n,
{
    if n == 0 {
        c
    } else {
        crc_shift(crc_shifts(c, (n - 1) as nat))
    }
}

/// CRC register after absorbing `bytes`, starting from `init`.
pub open spec fn crc_register(init: u32, bytes: Seq<u8>) -> u32
    decreases bytes.len(),
{
    if bytes.len() == 0 {
        init
    } else {
        crc_shifts(crc_register(init, bytes.drop_last()) ^ (bytes.last() as u32), 8)
    }
}

/// CRC-32 (IEEE): register preset to all ones, result complemented.
pub open spec fn spec_crc32(bytes: Seq<u8>) -> u32 {
    !crc_register(0xFFFF_FFFFu32, bytes)
}

/// The CRC-covered bytes of a frame, as laid out in memory.
pub fn frame_to_bytes(f: &TelemetryFrame) -> (out: Vec<u8>)
    ensures
        out@ == frame_bytes(*f),
        out@.len() == CRC_COVERED_BYTES,
{
    let mut out: Vec<u8> = Vec::new();
    push_le(&mut out, f.sequence_id, 8);
    push_le(&mut out, f.timestamp_fs, 8);
    push_le(&mut out, f.metric_det, 8);
    push_le(&mut out, f.gram_lambda_min, 8);
    push_le(&mut out, f.kapitza_temp_mk as u64, 4);
    push_le(&mut out, f.power_output_kw as u64, 4);
    push_le(&mut out, f.status_flags as u64, 4);
    let mut k: usize = 0;
    let ghost before = out@;
    while k < 12
        invariant
            k <= 12,
            out@ == before + f.reserved_padding@.take(k as int),
        decreases 12 - k,
    {
        out.push(f.reserved_padding[k]);
        assert(f.reserved_padding@.take((k + 1) as int) =~= f.reserved_padding@.take(k as int).push(
            f.reserved_padding@[k as int]));
        k = k + 1;
    }
    assert(f.reserved_padding@.take(12) =~= f.reserved_padding@);
    out
}

/// CRC-32 (IEEE) of a byte string.
pub fn crc32_ieee(bytes: &[u8]) -> (r: u32)
    ensures
        r == spec_crc32(bytes@),
{
    let mut crc: u32 = 0xFFFF_FFFF;
    let mut i: usize = 0;
    while i < bytes.len()
        invariant
            i <= bytes@.len(),
            crc == crc_register(0xFFFF_FFFFu32, bytes@.take(i as int)),
        decreases bytes@.len() - i,
    {
        let ghost start = crc ^ (bytes@[i as int] as u32);
        crc = crc ^ (bytes[i] as u32);
        let mut j: usize = 0;
        while j < 8
            invariant
                j <= 8,
                crc == crc_shifts(start, j as nat),
            decreases 8 - j,
        {
            if crc & 1 == 1 {
                crc = (crc >> 1u32) ^ CRC32_POLY;
            } else {
                crc = crc >> 1u32;
            }
            j = j + 1;
        }
        assert(bytes@.take((i + 1) as int).drop_last() =~= bytes@.take(i as int));
        i = i + 1;
    }
    assert(bytes@.take(bytes@.len() as int) =~= bytes@);
    !crc
}

/// CRC-32 of a frame's covered bytes, the value stored in `frame_crc32`.
pub fn frame_crc32(frame: &TelemetryFrame) -> (r: u32)
    ensures
        r == spec_crc32(frame_bytes(*frame)),
{
    let bytes = frame_to_bytes(frame);
    crc32_ieee(bytes.as_slice())
}

/// POSIX shared-memory object name for `name`: its bytes, with a leading
/// `/` added when it does not start with one.
pub open spec fn shm_name_bytes(name: Seq<u8>) -> Seq<u8> {
    if name.len() > 0 && name[0] == 47u8 {
        name
    } else {
        seq![47u8] + name
    }
}

/// The shared-memory object name for `name`, or `None` when `name` holds a
/// NUL byte, which no C string can carry.
pub fn shm_object_name(name: &str) -> (r: Option<Vec<u8>>)
    ensures
        r is Some <==> !name.spec_bytes().contains(0u8),
        r matches Some(v) ==> v@ == shm_name_bytes(name.spec_bytes()),
{
    let bytes = name.as_bytes();
    let mut out: Vec<u8> = Vec::new();
    let slash = bytes.len() > 0 && bytes[0] == 47u8;
    if !slash {
        out.push(47u8);
    }
    let ghost start = out@;
    let mut i: usize = 0;
    while i < bytes.len()
        invariant
            i <= bytes@.len(),
            bytes@ == name.spec_bytes(),
            out@ == start + bytes@.take(i as int),
            forall|j: int| 0 <= j < i ==> bytes@[j] != 0u8,
        decreases bytes@.len() - i,
    {
        if bytes[i] == 0u8 {
            assert(name.spec_bytes()[i as int] == 0u8);
            assert(name.spec_bytes().contains(0u8));
            return None;
        }
        out.push(bytes[i]);
        assert(bytes@.take((i + 1) as int) =~= bytes@.take(i as int).push(bytes@[i as int]));
        i = i + 1;
    }
    assert(bytes@.take(bytes@.len() as int) =~= bytes@);
    assert(out@ =~= shm_name_bytes(bytes@));
    assert(!bytes@.contains(0u8));
    Some(out)
}

/// Total byte length of a shared region with `capacity` frames: one header
/// line followed by the frames.
pub fn region_len(capacity: usize) -> (r: usize)
    requires
        CACHE_LINE + capacity * CACHE_LINE <= usize::MAX,
    ensures
        r == CACHE_LINE + capacity * CACHE_LINE,
{
    CACHE_LINE + capacity * CACHE_LINE
}

} // verus!

verus! {

/// SPSC ring header on the first cache line of the shared region.
#[derive(Clone, Copy, Debug, PartialEq, Eq)]
pub struct RingHeader {
    pub magic: u32,
    pub capacity: u32,
    /// Producer counter: frames ever pushed (mod 2^32).
    pub head: u32,
    /// Consumer counter: frames ever popped (mod 2^32).
    pub tail: u32,
    /// Pushes refused because the ring was full (mod 2^32).
    pub dropped: u32,
}

/// Why an existing region cannot be attached as a ring.
#[derive(Clone, Copy, Debug, PartialEq, Eq)]
pub enum RingError {
    /// The header does not carry `RING_MAGIC`.
    BadMagic,
    /// The frame slots do not number `header.capacity`.
    SlotCountMismatch,
}

/// 2^32: the period of the free-running counters.
pub open spec fn counter_period() -> int {
    0x1_0000_0000
}

/// Frames between `tail` and `head` (`head - tail` mod 2^32).
pub open spec fn ring_count(head: u32, tail: u32) -> int {
    if head >= tail {
        head - tail
    } else {
        head - tail + counter_period()
    }
}

/// Successor of a free-running counter (wraps at 2^32).
pub open spec fn counter_next(x: u32) -> u32 {
    if x == u32::MAX {
        0
    } else {
        (x + 1) as u32
    }
}

/// Two pending counters `tail + i` and `tail + c` (`i < c < cap`) land in
/// different slots when the slot count divides 2^32 or nothing wrapped.
proof fn lemma_pending_slots_distinct(t: int, i: int, c: int, cap: int)
    requires
        0 <= t < counter_period(),
        0 <= i < c < cap,
        cap <= u32::MAX,
        counter_period() % cap == 0 || t + c < counter_period(),
    ensures
        ((t + i) % counter_period()) % cap != ((t + c) % counter_period()) % cap,
{
    let p = counter_period();
    if p % cap == 0 {
        let q = p / cap;
        lemma_fundamental_div_mod(p, cap);
        assert(cap * q == p);
        assert(q > 0) by (nonlinear_arith)
            requires cap * q == p, cap > 0, p > 0;
        lemma_mod_mod(t + i, cap, q);
        lemma_mod_mod(t + c, cap, q);
    } else {
        lemma_small_mod((t + i) as nat, p as nat);
        lemma_small_mod((t + c) as nat, p as nat);
    }
    lemma_mod_equivalence(t + c, t + i, cap);
    lemma_small_mod((c - i) as nat, cap as nat);
}

/// The counter just past the pending frames is `head`.
proof fn lemma_pending_end(head: u32, tail: u32)
    ensures
        (tail + ring_count(head, tail)) % counter_period() == head,
{
    if head >= tail {
        lemma_small_mod(head as nat, counter_period() as nat);
    } else {
        lemma_mod_add_multiples_vanish(head as int, counter_period());
        lemma_small_mod(head as nat, counter_period() as nat);
    }
}

/// Advancing the tail shifts the pending counters by one.
proof fn lemma_tail_advance(tail: u32, i: int)
    requires
        i >= 0,
    ensures
        (counter_next(tail) + i) % counter_period() == (tail + (i + 1)) % counter_period(),
{
    if tail == u32::MAX {
        lemma_mod_add_multiples_vanish(i, counter_period());
    }
}

/// The frame `f` with its CRC field stamped.
pub open spec fn stamped(f: TelemetryFrame) -> TelemetryFrame {
    TelemetryFrame { frame_crc32: spec_crc32(frame_bytes(f)), ..f }
}

/// Number of frames available to the consumer: `head - tail` mod 2^32.
pub fn ring_len(head: u32, tail: u32) -> (r: u32)
    ensures
        r == ring_count(head, tail),
{
    head.wrapping_sub(tail)
}

/// Slot that holds the frame at free-running counter `pos`.
pub fn ring_slot(pos: u32, capacity: usize) -> (r: usize)
    requires
        capacity > 0,
    ensures
        r == pos as int % capacity as int,
        r < capacity,
{
    pos as usize % capacity
}

/// Producer step on a ring header: with room, the frame goes to slot
/// `head % capacity` and `head` advances; when full, `dropped` advances and
/// no slot is written.
pub fn ring_push_step(h: RingHeader) -> (r: (RingHeader, Option<usize>))
    ensures
        ring_count(h.head, h.tail) < h.capacity ==> r == (
            RingHeader { head: counter_next(h.head), ..h },
            Some((h.head as int % h.capacity as int) as usize),
        ),
        ring_count(h.head, h.tail) >= h.capacity ==> r == (
            RingHeader { dropped: counter_next(h.dropped), ..h },
            None::<usize>,
        ),
{
    if ring_len(h.head, h.tail) < h.capacity {
        let slot = ring_slot(h.head, h.capacity as usize);
        (RingHeader { head: h.head.wrapping_add(1), ..h }, Some(slot))
    } else {
        (RingHeader { dropped: h.dropped.wrapping_add(1), ..h }, None)
    }
}

/// Consumer step on a ring header: when frames are pending, the oldest one
/// is in slot `tail % capacity` and `tail` advances; otherwise nothing
/// changes.
pub fn ring_pop_step(h: RingHeader) -> (r: (RingHeader, Option<usize>))
    requires
        ring_count(h.head, h.tail) > 0 ==> h.capacity > 0,
    ensures
        ring_count(h.head, h.tail) == 0 ==> r == (h, None::<usize>),
        ring_count(h.head, h.tail) > 0 ==> r == (
            RingHeader { tail: counter_next(h.tail), ..h },
            Some((h.tail as int % h.capacity as int) as usize),
        ),
{
    if ring_len(h.head, h.tail) == 0 {
        (h, None)
    } else {
        let slot = ring_slot(h.tail, h.capacity as usize);
        (RingHeader { tail: h.tail.wrapping_add(1), ..h }, Some(slot))
    }
}

/// Polls made for a shared segment's header before giving up.
pub const ATTACH_POLL_LIMIT: u32 = 1000;
/// Smallest segment that holds a ring header (one cache line).
pub const MIN_SEGMENT_BYTES: u64 = 64;

/// Outcome of one poll for an attachable shared segment.
#[derive(Clone, Copy, Debug, PartialEq, Eq)]
pub enum PollStep {
    /// The segment is large enough to hold the header: map it.
    Ready,
    /// Not yet: yield and poll again.
    Retry,
    /// The last poll failed: the segment was never initialised.
    GiveUp,
}

/// Decision after poll number `attempt` (from 0): ready exactly when the
/// segment could be inspected and holds at least one header line; otherwise
/// retry until `ATTACH_POLL_LIMIT` polls have been made.
pub fn attach_poll_step(attempt: u32, stat_ok: bool, size: u64) -> (r: PollStep)
    ensures
        stat_ok && size >= MIN_SEGMENT_BYTES ==> r == PollStep::Ready,
        !(stat_ok && size >= MIN_SEGMENT_BYTES) && attempt + 1 < ATTACH_POLL_LIMIT ==> r == PollStep::Retry,
        !(stat_ok && size >= MIN_SEGMENT_BYTES) && attempt + 1 >= ATTACH_POLL_LIMIT ==> r == PollStep::GiveUp,
{
    if stat_ok && size >= MIN_SEGMENT_BYTES {
        PollStep::Ready
    } else if attempt < ATTACH_POLL_LIMIT - 1 {
        PollStep::Retry
    } else {
        PollStep::GiveUp
    }
}

/// Bounds-checked SPSC ring over an owned header and frame slots.
pub struct SpscRing {
    header: RingHeader,
    frames: Vec<TelemetryFrame>,
    capacity: usize,
}

impl SpscRing {
    /// Well-formedness: one slot per unit of capacity and a valid header.
    pub closed spec fn wf(&self) -> bool {
        &&& self.frames@.len() == self.capacity
        &&& self.capacity == self.header.capacity
        &&& self.header.magic == RING_MAGIC
    }

    /// A well-formed ring has one slot per unit of capacity and carries
    /// `RING_MAGIC`.
    pub proof fn lemma_wf_slots(&self)
        requires
            self.wf(),
        ensures
            self.slots().len() == self.slot_count(),
            self.ring_header().magic == RING_MAGIC,
    {
    }

    /// The ring header.
    pub closed spec fn ring_header(&self) -> RingHeader {
        self.header
    }

    /// The frame slots, indexed by `counter % capacity`.
    pub closed spec fn slots(&self) -> Seq<TelemetryFrame> {
        self.frames@
    }

    /// Frames available to the consumer.
    pub open spec fn count(&self) -> int {
        ring_count(self.ring_header().head, self.ring_header().tail)
    }

    /// Number of slots.
    pub open spec fn slot_count(&self) -> int {
        self.ring_header().capacity as int
    }

    /// Slot of the `i`-th pending frame, counted from the consumer side.
    pub open spec fn pending_slot(&self, i: int) -> int {
        ((self.ring_header().tail + i) % counter_period()) % self.slot_count()
    }

    /// The pending frames, oldest first.
    pub open spec fn queue(&self) -> Seq<TelemetryFrame> {
        Seq::new(self.count() as nat, |i: int| self.slots()[self.pending_slot(i)])
    }

    /// Counters and slot count under which distinct pending counters never
    /// share a slot: the slot count divides 2^32, or the pending counters
    /// have not wrapped.
    pub open spec fn slots_coherent(&self) -> bool {
        ||| counter_period() % self.slot_count() == 0
        ||| self.ring_header().tail + self.count() < counter_period()
    }

    /// Initialize a fresh ring with `capacity` zeroed slots.
    pub fn init(capacity: usize) -> (r: SpscRing)
        requires
            capacity <= u32::MAX,
        ensures
            r.wf(),
            r.ring_header() == (RingHeader { magic: RING_MAGIC, capacity: capacity as u32, head: 0, tail: 0, dropped: 0 }),
            r.slots().len() == capacity,
            forall|i: int| 0 <= i < capacity ==> is_zero_frame(#[trigger] r.slots()[i]),
    {
        let mut frames: Vec<TelemetryFrame> = Vec::new();
        let mut i: usize = 0;
        while i < capacity
            invariant
                i <= capacity,
                frames@.len() == i,
                forall|j: int| 0 <= j < i ==> is_zero_frame(#[trigger] frames@[j]),
            decreases capacity - i,
        {
            frames.push(TelemetryFrame::default());
            i = i + 1;
        }
        let header = RingHeader { magic: RING_MAGIC, capacity: capacity as u32, head: 0, tail: 0, dropped: 0 };
        SpscRing { header, frames, capacity }
    }

    /// Attach to an already-initialized header and its frame slots.
    pub fn attach(header: RingHeader, frames: Vec<TelemetryFrame>) -> (r: Result<SpscRing, RingError>)
        ensures
            header.magic != RING_MAGIC ==> r == Err::<SpscRing, RingError>(RingError::BadMagic),
            header.magic == RING_MAGIC && frames@.len() != header.capacity
                ==> r == Err::<SpscRing, RingError>(RingError::SlotCountMismatch),
            r is Ok <==> (header.magic == RING_MAGIC && frames@.len() == header.capacity),
            r matches Ok(ring) ==> ring.wf() && ring.ring_header() == header && ring.slots() == frames@,
    {
        if header.magic != RING_MAGIC {
            return Err(RingError::BadMagic);
        }
        if frames.len() != header.capacity as usize {
            return Err(RingError::SlotCountMismatch);
        }
        let capacity = header.capacity as usize;
        Ok(SpscRing { header, frames, capacity })
    }

    /// Number of frames available to the consumer.
    pub fn len(&self) -> (r: usize)
        ensures
            r == self.count(),
    {
        ring_len(self.header.head, self.header.tail) as usize
    }

    pub fn is_empty(&self) -> (r: bool)
        ensures
            r == (self.count() == 0),
    {
        self.len() == 0
    }

    pub fn capacity(&self) -> (r: usize)
        requires
            self.wf(),
        ensures
            r == self.slot_count(),
    {
        self.capacity
    }

    /// Producer: stamp the frame's CRC and append it; `false` (and one more
    /// dropped frame) when the ring is full.
    pub fn push(&mut self, frame: TelemetryFrame) -> (r: bool)
        requires
            old(self).wf(),
        ensures
            final(self).wf(),
            final(self).slots().len() == final(self).slot_count(),
            r == (old(self).count() < old(self).slot_count()),
            !r ==> final(self).slots() == old(self).slots() && final(self).ring_header() == (RingHeader {
                dropped: counter_next(old(self).ring_header().dropped),
                ..old(self).ring_header()
            }),
            r ==> final(self).slots() == old(self).slots().update(
                old(self).ring_header().head as int % old(self).slot_count(),
                stamped(frame),
            ) && final(self).ring_header() == (RingHeader {
                head: counter_next(old(self).ring_header().head),
                ..old(self).ring_header()
            }),
            r ==> final(self).count() == old(self).count() + 1,
            r && old(self).slots_coherent() ==> final(self).queue() == old(self).queue().push(stamped(frame)),
    {
        let head = self.header.head;
        let tail = self.header.tail;
        let (next, step) = ring_push_step(self.header);
        let slot = match step {
            Some(slot) => slot,
            None => {
                self.header = next;
                return false;
            },
        };
        let mut stamped_frame = frame;
        stamped_frame.frame_crc32 = frame_crc32(&frame);
        self.frames.set(slot, stamped_frame);
        self.header = next;
        proof {
            let ghost o = *old(self);
            let cap = o.slot_count();
            assert(self.count() == o.count() + 1);
            if o.slots_coherent() {
                assert forall|i: int| 0 <= i < o.count() implies #[trigger] self.pending_slot(i) == o.pending_slot(i)
                    && o.pending_slot(i) != head as int % cap by {
                    lemma_pending_slots_distinct(tail as int, i, o.count(), cap);
                    lemma_pending_end(head, tail);
                }
                lemma_pending_end(head, tail);
                assert(self.queue() =~= o.queue().push(stamped(frame)));
            }
        }
        true
    }

    /// Consumer: take the oldest pending frame; `None` when empty.
    pub fn pop(&mut self) -> (r: Option<TelemetryFrame>)
        requires
            old(self).wf(),
            old(self).count() > 0 ==> old(self).slot_count() > 0,
        ensures
            final(self).wf(),
            final(self).slots().len() == final(self).slot_count(),
            old(self).count() == 0 ==> r is None && *final(self) == *old(self),
            old(self).count() > 0 ==> r == Some(old(self).queue()[0])
                && final(self).slots() == old(self).slots()
                && final(self).ring_header() == (RingHeader {
                    tail: counter_next(old(self).ring_header().tail),
                    ..old(self).ring_header()
                })
                && final(self).queue() == old(self).queue().drop_first(),
    {
        let tail = self.header.tail;
        let (next, step) = ring_pop_step(self.header);
        let slot = match step {
            Some(slot) => slot,
            None => {
                return None;
            },
        };
        let frame = self.frames[slot];
        self.header = next;
        proof {
            let ghost o = *old(self);
            assert(o.pending_slot(0) == slot) by {
                lemma_small_mod(tail as nat, counter_period() as nat);
            }
            assert forall|i: int| 0 <= i < self.count() implies #[trigger] self.pending_slot(i) == o.pending_slot(i + 1) by {
                lemma_tail_advance(tail, i);
            }
            assert(self.queue() =~= o.queue().drop_first());
        }
        Some(frame)
    }

    /// The header as it stands.
    pub fn header(&self) -> (r: RingHeader)
        ensures
            r == self.ring_header(),
    {
        self.header
    }
}

} // verus!
