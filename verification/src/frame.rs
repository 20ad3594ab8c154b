//! The 1,472-byte dark-ledger SRAM TQEC frame: 124 eight-byte braid
//! descriptors (992 B) followed by 480 B of SECDED/checkpoint metadata,
//! little-endian, fields in declaration order.

use vstd::prelude::*;
use crate::bytes::{le_bytes, push_le};
use vstd::arithmetic::power2::{lemma2_to64, pow2};

verus! {

/// Number of braid descriptors in the frame.
pub const BRAID_COUNT: usize = 124;
/// Bytes of one braid descriptor.
pub const BRAID_DESCRIPTOR_BYTES: usize = 8;
/// Dark ledger frame size (bytes).
pub const FRAME_BYTES: usize = 1472;
/// Braid descriptor payload (124 x 8 B = 992 B).
pub const BRAID_PAYLOAD_BYTES: usize = 992;
/// SECDED/checkpoint metadata (bytes).
pub const METADATA_BYTES: usize = 480;
/// Dark-ledger capacity partition numerator (eta_D = 23/33).
pub const ETA_D_NUM: u64 = 23;
/// Dark-ledger capacity partition denominator.
pub const CAPACITY_DENOM: u64 = 33;
/// Surface code distance.
pub const CODE_DISTANCE: u32 = 17;

/// One Fibonacci braid descriptor (8 bytes).
#[derive(Clone, Copy, Debug, Default, PartialEq, Eq)]
pub struct BraidDescriptor {
    /// Braid worldline identifier.
    pub id: u16,
    /// Fusion channel flags (1 or tau).
    pub channel: u8,
    /// SECDED syndrome bits.
    pub syndrome: u8,
    /// Braid phase (radians, fixed-point x 2^-32).
    pub phase: u32,
}

/// Dark ledger frame as laid out in SRAM.
#[derive(Clone, Copy)]
pub struct DarkLedgerFrame {
    /// 992 B braid descriptor array.
    pub braids: [BraidDescriptor; BRAID_COUNT],
    /// 480 B SECDED parity + checkpoint metadata.
    pub metadata: [u8; METADATA_BYTES],
}

/// The eight bytes of a descriptor.
pub open spec fn descriptor_bytes(b: BraidDescriptor) -> Seq<u8> {
    le_bytes(b.id as u64, 2) + seq![b.channel, b.syndrome] + le_bytes(b.phase as u64, 4)
}

/// Byte `n` of a frame's memory image.
pub open spec fn frame_byte(f: DarkLedgerFrame, n: int) -> u8 {
    if n < BRAID_PAYLOAD_BYTES {
        descriptor_bytes(f.braids@[n / 8])[n % 8]
    } else {
        f.metadata@[n - BRAID_PAYLOAD_BYTES]
    }
}

/// The frame's 1,472-byte memory image.
pub open spec fn frame_image(f: DarkLedgerFrame) -> Seq<u8> {
    Seq::new(FRAME_BYTES as nat, |n: int| frame_byte(f, n))
}

/// Number of descriptors in `s` carrying a nonzero syndrome.
pub open spec fn syndrome_count(s: Seq<BraidDescriptor>) -> nat
    decreases s.len(),
{
    if s.len() == 0 {
        0
    } else {
        syndrome_count(s.drop_last()) + if s.last().syndrome != 0 {
            1nat
        } else {
            0nat
        }
    }
}

proof fn lemma_u16_bytes(b0: u8, b1: u8, x: u16, y: u16)
    by (bit_vector)
    ensures
        ((((b0 as u16) | ((b1 as u16) << 8u16)) as u64 >> 0u64) & 0xffu64) as u8 == b0,
        ((((b0 as u16) | ((b1 as u16) << 8u16)) as u64 >> 8u64) & 0xffu64) as u8 == b1,
        (((x as u64 >> 0u64) & 0xffu64) as u8 == ((y as u64 >> 0u64) & 0xffu64) as u8
            && ((x as u64 >> 8u64) & 0xffu64) as u8 == ((y as u64 >> 8u64) & 0xffu64) as u8) ==> x == y,
{
}

proof fn lemma_u32_bytes(b0: u8, b1: u8, b2: u8, b3: u8, x: u32, y: u32)
    by (bit_vector)
    ensures
        ((((b0 as u32) | ((b1 as u32) << 8u32) | ((b2 as u32) << 16u32) | ((b3 as u32) << 24u32)) as u64
            >> 0u64) & 0xffu64) as u8 == b0,
        ((((b0 as u32) | ((b1 as u32) << 8u32) | ((b2 as u32) << 16u32) | ((b3 as u32) << 24u32)) as u64
            >> 8u64) & 0xffu64) as u8 == b1,
        ((((b0 as u32) | ((b1 as u32) << 8u32) | ((b2 as u32) << 16u32) | ((b3 as u32) << 24u32)) as u64
            >> 16u64) & 0xffu64) as u8 == b2,
        ((((b0 as u32) | ((b1 as u32) << 8u32) | ((b2 as u32) << 16u32) | ((b3 as u32) << 24u32)) as u64
            >> 24u64) & 0xffu64) as u8 == b3,
        (((x as u64 >> 0u64) & 0xffu64) as u8 == ((y as u64 >> 0u64) & 0xffu64) as u8
            && ((x as u64 >> 8u64) & 0xffu64) as u8 == ((y as u64 >> 8u64) & 0xffu64) as u8
            && ((x as u64 >> 16u64) & 0xffu64) as u8 == ((y as u64 >> 16u64) & 0xffu64) as u8
            && ((x as u64 >> 24u64) & 0xffu64) as u8 == ((y as u64 >> 24u64) & 0xffu64) as u8) ==> x == y,
{
}

/// Distinct descriptors have distinct byte images.
proof fn lemma_descriptor_bytes_injective(a: BraidDescriptor, b: BraidDescriptor)
    requires
        descriptor_bytes(a) == descriptor_bytes(b),
    ensures
        a == b,
{
    let da = descriptor_bytes(a);
    let db = descriptor_bytes(b);
    assert(da[0] == db[0] && da[1] == db[1] && da[2] == db[2] && da[3] == db[3]);
    assert(da[4] == db[4] && da[5] == db[5] && da[6] == db[6] && da[7] == db[7]);
    lemma_u16_bytes(0, 0, a.id, b.id);
    lemma_u32_bytes(0, 0, 0, 0, a.phase, b.phase);
}

/// Law: a frame is determined by its memory image.
pub proof fn lemma_frame_image_injective(f: DarkLedgerFrame, g: DarkLedgerFrame)
    requires
        frame_image(f) == frame_image(g),
    ensures
        f == g,
{
    assert forall|k: int| 0 <= k < BRAID_COUNT implies f.braids@[k] == g.braids@[k] by {
        assert forall|j: int| 0 <= j < 8 implies descriptor_bytes(f.braids@[k])[j] == descriptor_bytes(
            g.braids@[k],
        )[j] by {
            let n = 8 * k + j;
            assert(n / 8 == k && n % 8 == j) by (nonlinear_arith)
                requires n == 8 * k + j, 0 <= j < 8, 0 <= k;
            assert(frame_image(f)[n] == frame_byte(f, n));
            assert(frame_image(g)[n] == frame_byte(g, n));
        }
        assert(descriptor_bytes(f.braids@[k]) =~= descriptor_bytes(g.braids@[k]));
        lemma_descriptor_bytes_injective(f.braids@[k], g.braids@[k]);
    }
    assert forall|j: int| 0 <= j < METADATA_BYTES implies f.metadata@[j] == g.metadata@[j] by {
        let n = BRAID_PAYLOAD_BYTES + j;
        assert(frame_image(f)[n] == frame_byte(f, n));
        assert(frame_image(g)[n] == frame_byte(g, n));
    }
    assert(f.braids =~= g.braids);
    assert(f.metadata =~= g.metadata);
}

impl DarkLedgerFrame {
    /// The frame's memory image, byte for byte.
    pub fn to_bytes(&self) -> (out: Vec<u8>)
        ensures
            out@ == frame_image(*self),
    {
        let mut out: Vec<u8> = Vec::new();
        let mut k: usize = 0;
        while k < BRAID_COUNT
            invariant
                k <= BRAID_COUNT,
                out@ == frame_image(*self).take(8 * k),
            decreases BRAID_COUNT - k,
        {
            let b = self.braids[k];
            let ghost before = out@;
            push_le(&mut out, b.id as u64, 2);
            out.push(b.channel);
            out.push(b.syndrome);
            push_le(&mut out, b.phase as u64, 4);
            assert(out@ == before + descriptor_bytes(b));
            assert(frame_image(*self).take(8 * (k + 1)) =~= frame_image(*self).take(8 * k) + descriptor_bytes(b));
            k = k + 1;
        }
        let mut j: usize = 0;
        while j < METADATA_BYTES
            invariant
                j <= METADATA_BYTES,
                out@ == frame_image(*self).take(BRAID_PAYLOAD_BYTES + j),
            decreases METADATA_BYTES - j,
        {
            out.push(self.metadata[j]);
            assert(frame_image(*self).take(BRAID_PAYLOAD_BYTES + j + 1) =~= frame_image(*self).take(
                BRAID_PAYLOAD_BYTES + j,
            ).push(self.metadata@[j as int]));
            j = j + 1;
        }
        assert(frame_image(*self).take(FRAME_BYTES as int) =~= frame_image(*self));
        out
    }

    /// Decode a raw 1,472-byte buffer into a frame; `None` on bad length.
    pub fn parse(buf: &[u8]) -> (r: Option<DarkLedgerFrame>)
        ensures
            r is Some <==> buf@.len() == FRAME_BYTES,
            r matches Some(f) ==> frame_image(f) == buf@,
    {
        if buf.len() != FRAME_BYTES {
            return None;
        }
        let mut braids = [BraidDescriptor { id: 0, channel: 0, syndrome: 0, phase: 0 }; 124];
        let mut k: usize = 0;
        while k < BRAID_COUNT
            invariant
                k <= BRAID_COUNT,
                buf@.len() == FRAME_BYTES,
                forall|i: int| 0 <= i < k ==> #[trigger] descriptor_bytes(braids@[i]) == buf@.subrange(8 * i, 8 * i + 8),
            decreases BRAID_COUNT - k,
        {
            let o = 8 * k;
            let id = (buf[o] as u16) | ((buf[o + 1] as u16) << 8u16);
            let phase = (buf[o + 4] as u32) | ((buf[o + 5] as u32) << 8u32) | ((buf[o + 6] as u32) << 16u32)
                | ((buf[o + 7] as u32) << 24u32);
            let b = BraidDescriptor { id, channel: buf[o + 2], syndrome: buf[o + 3], phase };
            proof {
                lemma_u16_bytes(buf@[o as int], buf@[o + 1], 0, 0);
                lemma_u32_bytes(buf@[o + 4], buf@[o + 5], buf@[o + 6], buf@[o + 7], 0, 0);
                assert(descriptor_bytes(b) =~= buf@.subrange(8 * k, 8 * k + 8));
            }
            braids[k] = b;
            k = k + 1;
        }
        let mut metadata = [0u8; 480];
        let mut j: usize = 0;
        while j < METADATA_BYTES
            invariant
                j <= METADATA_BYTES,
                buf@.len() == FRAME_BYTES,
                forall|i: int| 0 <= i < j ==> #[trigger] metadata@[i] == buf@[BRAID_PAYLOAD_BYTES + i],
            decreases METADATA_BYTES - j,
        {
            metadata[j] = buf[BRAID_PAYLOAD_BYTES + j];
            j = j + 1;
        }
        let f = DarkLedgerFrame { braids, metadata };
        proof {
            assert forall|n: int| 0 <= n < FRAME_BYTES implies #[trigger] frame_byte(f, n) == buf@[n] by {
                if n < BRAID_PAYLOAD_BYTES {
                    let i = n / 8;
                    assert(descriptor_bytes(braids@[i]) == buf@.subrange(8 * i, 8 * i + 8));
                }
            }
            assert(frame_image(f) =~= buf@);
        }
        Some(f)
    }

    /// Count of descriptors carrying a nonzero syndrome.
    pub fn syndrome_population(&self) -> (r: usize)
        ensures
            r == syndrome_count(self.braids@),
            r <= BRAID_COUNT,
    {
        let mut count: usize = 0;
        let mut k: usize = 0;
        while k < BRAID_COUNT
            invariant
                k <= BRAID_COUNT,
                count == syndrome_count(self.braids@.take(k as int)),
                count <= k,
            decreases BRAID_COUNT - k,
        {
            assert(self.braids@.take((k + 1) as int).drop_last() =~= self.braids@.take(k as int));
            if self.braids[k].syndrome != 0 {
                count = count + 1;
            }
            k = k + 1;
        }
        assert(self.braids@.take(BRAID_COUNT as int) =~= self.braids@);
        count
    }
}

/// Syndromes absorbed by Union-Find: at most half the braid count; the
/// rest escalate to the Blossom matching graph.
pub open spec fn uf_share(syndromes: int) -> int {
    if syndromes < (BRAID_COUNT / 2) as int {
        syndromes
    } else {
        (BRAID_COUNT / 2) as int
    }
}

/// Law: Union-Find absorbs `min(syndromes, 62)` syndromes (half the braid
/// count): all of them up to the cap, exactly the cap above it; only the
/// excess over the cap escalates to Blossom.
pub proof fn lemma_union_find_share(syndromes: int)
    requires
        syndromes >= 0,
    ensures
        uf_share(syndromes) <= syndromes,
        uf_share(syndromes) <= BRAID_COUNT / 2,
        uf_share(syndromes) == syndromes || uf_share(syndromes) == BRAID_COUNT / 2,
        syndromes <= BRAID_COUNT / 2 ==> uf_share(syndromes) == syndromes && syndromes - uf_share(syndromes) == 0,
        syndromes > BRAID_COUNT / 2 ==> syndromes - uf_share(syndromes) == syndromes - 62,
{
}

/// Hybrid decoder routing for a frame: `(uf_edges, blossom_edges)`.
pub fn route_syndromes(frame: &DarkLedgerFrame) -> (r: (usize, usize))
    ensures
        r.0 == uf_share(syndrome_count(frame.braids@) as int),
        r.0 + r.1 == syndrome_count(frame.braids@),
        r.0 <= BRAID_COUNT / 2,
        r.1 > 0 <==> syndrome_count(frame.braids@) > BRAID_COUNT / 2,
{
    proof {
        lemma_union_find_share(syndrome_count(frame.braids@) as int);
    }
    let syndromes = frame.syndrome_population();
    let uf = if syndromes < BRAID_COUNT / 2 {
        syndromes
    } else {
        BRAID_COUNT / 2
    };
    (uf, syndromes - uf)
}

/// Depth of the binary fusion tree over the 124 braids: the least `d` with
/// `2^d >= 124`.
pub fn tree_depth() -> (d: u32)
    ensures
        pow2((d - 1) as nat) < BRAID_COUNT <= pow2(d as nat),
        d == 7,
{
    proof {
        lemma2_to64();
    }
    let mut d: u32 = 0;
    let mut span: u64 = 1;
    while span < BRAID_COUNT as u64
        invariant
            d <= 7,
            span == pow2(d as nat),
            d > 0 ==> pow2((d - 1) as nat) < BRAID_COUNT,
            pow2(0) == 1 && pow2(1) == 2 && pow2(2) == 4 && pow2(3) == 8 && pow2(4) == 16,
            pow2(5) == 32 && pow2(6) == 64 && pow2(7) == 128,
        decreases 7 - d,
    {
        proof {
            vstd::arithmetic::power2::lemma_pow2_unfold((d + 1) as nat);
        }
        span = span * 2;
        d = d + 1;
    }
    d
}

} // verus!
