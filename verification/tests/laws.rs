use shbt_recon::causal::{authorization_verdict, Authorization};
use shbt_recon::ecc::{ecc_decode, ecc_encode, EccDecode};
use shbt_recon::frame::{route_syndromes, tree_depth, BraidDescriptor, DarkLedgerFrame, BRAID_COUNT, METADATA_BYTES};
use shbt_recon::gates::{gates_to_json, json_number, GateResult};
use shbt_recon::gdsii::{drc_check, write_string_record, DrcFeature, GdsiiMaskExporter};
use shbt_recon::gst::{pack_pulse_gen, trigger_gst_self_healing_pulse, GstChannel, GstPhase, HEALED_MS_PER_M};
use shbt_recon::gum::XorShift64;
use shbt_recon::interposer::stackup;
use shbt_recon::lanr::{LanrPlant, LanrPowerLedger, K_MAX_SURVIVABLE, MODULE_COUNT};
use shbt_recon::step::StepSolidModelExporter;
use shbt_recon::stinespring::partition_is_exact;
use shbt_recon::telemetry::{
    attach_poll_step, shm_object_name, crc32_ieee, frame_to_bytes, region_len, ring_len, ring_pop_step, ring_push_step, ring_slot,
    PollStep, RingError, RingHeader, SpscRing, TelemetryFrame, RING_MAGIC,
};
use shbt_recon::vis::cell_index;

#[test]
fn ecc_corrects_each_check_bit() {
    let data = 0x8000_0000_0000_0001u64;
    let check = ecc_encode(data);
    for k in 0..8 {
        let d = ecc_decode(data, check ^ (1u8 << k));
        assert_eq!(d, EccDecode { data, corrected: true, uncorrectable: false }, "check bit {k}");
    }
}

#[test]
fn ecc_detects_data_plus_check_error() {
    let data = 0x5555_AAAA_5555_AAAAu64;
    let check = ecc_encode(data);
    for bit in 0..64 {
        for k in 0..8 {
            let d = ecc_decode(data ^ (1u64 << bit), check ^ (1u8 << k));
            assert!(d.uncorrectable, "bit {bit} check {k}");
            assert!(!d.corrected);
        }
    }
}

#[test]
fn ecc_detects_every_double_data_error() {
    let data = 0x0123_4567_89AB_CDEFu64;
    let check = ecc_encode(data);
    for i in 0..64 {
        for j in (i + 1)..64 {
            assert!(ecc_decode(data ^ (1u64 << i) ^ (1u64 << j), check).uncorrectable, "bits {i} {j}");
        }
    }
}

#[test]
fn ecc_zero_word_has_zero_check() {
    assert_eq!(ecc_encode(0), 0);
}

#[test]
fn crc32_check_value() {
    assert_eq!(crc32_ieee(b"123456789"), 0xCBF4_3926);
    assert_eq!(crc32_ieee(b""), 0);
}

#[test]
fn telemetry_frame_byte_layout() {
    let f = TelemetryFrame {
        sequence_id: 0x0807_0605_0403_0201,
        timestamp_fs: 0x11,
        kapitza_temp_mk: 0xAABB_CCDD,
        status_flags: 0x0102_0304,
        reserved_padding: [9; 12],
        ..TelemetryFrame::default()
    };
    let b = frame_to_bytes(&f);
    assert_eq!(b.len(), 56);
    assert_eq!(&b[0..8], &[1, 2, 3, 4, 5, 6, 7, 8]);
    assert_eq!(b[8], 0x11);
    assert_eq!(&b[32..36], &[0xDD, 0xCC, 0xBB, 0xAA]);
    assert_eq!(&b[40..44], &[4, 3, 2, 1]);
    assert_eq!(&b[44..56], &[9; 12]);
}

#[test]
fn ring_wraps_counters_in_order() {
    let start = u32::MAX - 1;
    let header = RingHeader { magic: RING_MAGIC, capacity: 4, head: start, tail: start, dropped: 0 };
    let frames = vec![TelemetryFrame::default(); 4];
    let mut ring = SpscRing::attach(header, frames).unwrap();
    for i in 0..3u64 {
        assert!(ring.push(TelemetryFrame { sequence_id: 100 + i, ..TelemetryFrame::default() }));
    }
    assert_eq!(ring.len(), 3);
    assert_eq!(ring.header().head, 1);
    for i in 0..3u64 {
        assert_eq!(ring.pop().unwrap().sequence_id, 100 + i);
    }
    assert!(ring.is_empty());
    assert_eq!(ring.capacity(), 4);
}

#[test]
fn ring_counts_dropped_frames() {
    let mut ring = SpscRing::init(2);
    assert!(ring.push(TelemetryFrame::default()));
    assert!(ring.push(TelemetryFrame::default()));
    assert!(!ring.push(TelemetryFrame::default()));
    assert!(!ring.push(TelemetryFrame::default()));
    assert_eq!(ring.header().dropped, 2);
    assert_eq!(ring.len(), 2);
}

#[test]
fn ring_stamps_crc_on_push() {
    let mut ring = SpscRing::init(1);
    let f = TelemetryFrame { sequence_id: 7, frame_crc32: 0xDEAD, ..TelemetryFrame::default() };
    assert!(ring.push(f));
    let got = ring.pop().unwrap();
    assert_eq!(got.frame_crc32, crc32_ieee(&frame_to_bytes(&f)));
    assert_ne!(got.frame_crc32, 0xDEAD);
}

#[test]
fn ring_attach_rejections() {
    let good = RingHeader { magic: RING_MAGIC, capacity: 2, head: 0, tail: 0, dropped: 0 };
    let bad_magic = RingHeader { magic: 0, ..good };
    assert_eq!(SpscRing::attach(bad_magic, vec![TelemetryFrame::default(); 2]).err(), Some(RingError::BadMagic));
    assert_eq!(SpscRing::attach(good, vec![TelemetryFrame::default(); 3]).err(), Some(RingError::SlotCountMismatch));
    let undrained = RingHeader { capacity: 0, head: 1, ..good };
    let mut empty = SpscRing::attach(undrained, Vec::new()).unwrap();
    assert_eq!(empty.len(), 1);
    assert!(!empty.push(TelemetryFrame::default()));
    assert_eq!(empty.header().dropped, 1);
    assert!(SpscRing::attach(good, vec![TelemetryFrame::default(); 2]).is_ok());
}

#[test]
fn zero_capacity_ring_is_always_full_and_empty() {
    let mut ring = SpscRing::init(0);
    assert!(!ring.push(TelemetryFrame::default()));
    assert!(ring.pop().is_none());
    assert_eq!(region_len(0), 64);
}

#[test]
fn ring_counter_helpers() {
    assert_eq!(ring_len(2, u32::MAX), 3);
    assert_eq!(ring_slot(10, 4), 2);
}

#[test]
fn ring_header_steps() {
    let h = RingHeader { magic: RING_MAGIC, capacity: 3, head: 7, tail: 5, dropped: 0 };
    let (after, slot) = ring_push_step(h);
    assert_eq!(slot, Some(1));
    assert_eq!(after, RingHeader { head: 8, ..h });
    let (full, none) = ring_push_step(RingHeader { head: 8, ..h });
    assert_eq!(none, None);
    assert_eq!(full, RingHeader { head: 8, dropped: 1, ..h });
    let (popped, from) = ring_pop_step(h);
    assert_eq!(from, Some(2));
    assert_eq!(popped, RingHeader { tail: 6, ..h });
    let drained = RingHeader { tail: 7, ..h };
    assert_eq!(ring_pop_step(drained), (drained, None));
    let wrapped = RingHeader { capacity: 4, head: u32::MAX, tail: u32::MAX, ..h };
    assert_eq!(ring_push_step(wrapped), (RingHeader { head: 0, ..wrapped }, Some(3)));
}

#[test]
fn attach_poll_decisions() {
    assert_eq!(attach_poll_step(0, true, 64), PollStep::Ready);
    assert_eq!(attach_poll_step(999, true, 4096), PollStep::Ready);
    assert_eq!(attach_poll_step(0, true, 63), PollStep::Retry);
    assert_eq!(attach_poll_step(998, false, 4096), PollStep::Retry);
    assert_eq!(attach_poll_step(999, false, 4096), PollStep::GiveUp);
    assert_eq!(attach_poll_step(999, true, 0), PollStep::GiveUp);
}

#[test]
fn braid_descriptor_byte_layout_and_parse() {
    let mut braids = [BraidDescriptor::default(); BRAID_COUNT];
    braids[0] = BraidDescriptor { id: 0x1234, channel: 5, syndrome: 6, phase: 0xAABB_CCDD };
    braids[123].syndrome = 1;
    let mut metadata = [0u8; METADATA_BYTES];
    metadata[0] = 0xEE;
    metadata[479] = 0x77;
    let frame = DarkLedgerFrame { braids, metadata };
    let bytes = frame.to_bytes();
    assert_eq!(&bytes[0..8], &[0x34, 0x12, 5, 6, 0xDD, 0xCC, 0xBB, 0xAA]);
    assert_eq!(bytes[992], 0xEE);
    assert_eq!(bytes[1471], 0x77);
    let parsed = DarkLedgerFrame::parse(&bytes).unwrap();
    assert_eq!(parsed.braids[0], braids[0]);
    assert_eq!(parsed.braids[123], braids[123]);
    assert_eq!(parsed.metadata, metadata);
    assert_eq!(parsed.syndrome_population(), 2);
    let mut longer = bytes.clone();
    longer.push(0);
    assert!(DarkLedgerFrame::parse(&longer).is_none());
}

#[test]
fn decoder_routing_split() {
    let mut braids = [BraidDescriptor::default(); BRAID_COUNT];
    for b in braids.iter_mut().take(80) {
        b.syndrome = 0xA5;
    }
    let frame = DarkLedgerFrame { braids, metadata: [0u8; METADATA_BYTES] };
    assert_eq!(route_syndromes(&frame), (62, 18));
    let clean = DarkLedgerFrame { braids: [BraidDescriptor::default(); BRAID_COUNT], metadata: [0u8; METADATA_BYTES] };
    assert_eq!(route_syndromes(&clean), (0, 0));
}

#[test]
fn fusion_tree_depth_is_seven() {
    assert_eq!(tree_depth(), 7);
}

#[test]
fn lanr_demand_floor() {
    assert!(LanrPlant::new().meets_demand());
    assert!(LanrPlant { active_modules: 1786 }.meets_demand());
    assert!(!LanrPlant { active_modules: 1785 }.meets_demand());
    let mut l = LanrPowerLedger::new();
    assert_eq!(l.reserve_modules(), 14);
    l.inject_failures(14);
    assert!(l.meets_demand());
    assert_eq!(l.reserve_modules(), 0);
    l.inject_failures(15);
    assert!(!l.meets_demand());
    assert_eq!(l.reserve_modules(), -1);
    l.inject_failures(K_MAX_SURVIVABLE);
    assert_eq!(MODULE_COUNT - l.failed_modules, 193);
    l.inject_failures(5000);
    assert_eq!(l.failed_modules, MODULE_COUNT);
    assert_eq!(l.reserve_modules(), -1786);
}

#[test]
fn healing_is_idempotent_on_healthy_channel() {
    let mut ch = GstChannel::new(9);
    ch.conductivity_ms_per_m = 34_965_000; // exactly 99.9 %
    assert!(!ch.degraded());
    let r = trigger_gst_self_healing_pulse(&mut ch);
    assert_eq!(r, 999_000);
    assert_eq!(ch.heal_count, 0);
    ch.conductivity_ms_per_m = 34_964_999;
    ch.phase = GstPhase::Amorphous;
    assert_eq!(trigger_gst_self_healing_pulse(&mut ch), 999_400);
    assert_eq!(ch.conductivity_ms_per_m, HEALED_MS_PER_M);
    assert_eq!(trigger_gst_self_healing_pulse(&mut ch), 999_400);
    assert_eq!(ch.heal_count, 1);
}

#[test]
fn pulse_gen_drops_overflowing_bits() {
    let v = pack_pulse_gen(0x1FFF, 0x1F_FFFF);
    assert_eq!(v & 0xFFF, 0xFFF);
    assert_eq!(v >> 12, 0xF_FFFF);
}

#[test]
fn xorshift_sequence() {
    let mut r = XorShift64::new(99);
    assert_eq!(r.next_bits(), 2675483752982983);
    assert_eq!(r.next_bits(), 8849402482262033);
    assert_eq!(r.next_bits(), 8428124354103071);
    let mut z = XorShift64::new(0);
    let mut one = XorShift64::new(1);
    assert_eq!(z.next_bits(), one.next_bits());
}

#[test]
fn authorization_precedence() {
    assert_eq!(authorization_verdict(false, false), Authorization::Granted);
    assert_eq!(authorization_verdict(false, true), Authorization::DeniedSpacelike);
    assert_eq!(authorization_verdict(true, true), Authorization::DeniedPast);
    assert_eq!(authorization_verdict(true, false), Authorization::DeniedPast);
}

#[test]
fn drc_reports_undersized_feature() {
    let features = [
        DrcFeature { name: "TINY", width_nm: 20, height_nm: 5000 },
        DrcFeature { name: "FLAT", width_nm: 60, height_nm: 49 },
    ];
    let (ok, v) = drc_check(&features);
    assert!(!ok);
    assert_eq!(
        v,
        vec![
            "DRC violation: TINY width 20.000 nm below 50.000 nm".to_string(),
            "DRC violation: FLAT height 49.000 nm below 50.000 nm".to_string(),
        ]
    );
    let (ok, v) = GdsiiMaskExporter::new().validate_drc();
    assert!(ok && v.is_empty());
}

#[test]
fn gds_string_record_padding() {
    let mut out = Vec::new();
    write_string_record(&mut out, 0x06, "abc");
    assert_eq!(out, vec![0x00, 0x08, 0x06, 0x06, b'a', b'b', b'c', 0]);
    let mut even = Vec::new();
    write_string_record(&mut even, 0x02, "ab");
    assert_eq!(even, vec![0x00, 0x08, 0x02, 0x06, b'a', b'b', 0, 0]);
}

#[test]
fn gds_stream_length_and_substrate() {
    let s = GdsiiMaskExporter::new().mask_stream(&[0; 8], &[1; 8]);
    assert_eq!(s.len(), 8380);
    // UNITS record payload carries the two encodings verbatim.
    let units = 6 + 28 + 18;
    assert_eq!(&s[units..units + 4], &[0x00, 0x14, 0x03, 0x05]);
    assert_eq!(&s[units + 4..units + 12], &[0; 8]);
    assert_eq!(&s[units + 12..units + 20], &[1; 8]);
}

#[test]
fn gds_stream_record_chain() {
    let s = GdsiiMaskExporter::new().mask_stream(&[0x41, 0x10, 0, 0, 0, 0, 0, 0], &[1; 8]);
    let mut types = Vec::new();
    let mut at = 0;
    while at < s.len() {
        let len = ((s[at] as usize) << 8) | s[at + 1] as usize;
        assert!(len >= 4 && len % 2 == 0);
        types.push(s[at + 2]);
        at += len;
    }
    assert_eq!(at, s.len());
    let mut expected = vec![0x00, 0x01, 0x02, 0x03, 0x05, 0x06];
    for _ in 0..129 {
        expected.extend_from_slice(&[0x08, 0x0D, 0x0E, 0x10, 0x11]);
    }
    expected.extend_from_slice(&[0x07, 0x04]);
    assert_eq!(types, expected);
    // LIBNAME "shbt_mask.gds" (13 bytes) + one NUL; STRNAME "shbt_array" + two NULs.
    assert_eq!(&s[34..38], &[0x00, 0x12, 0x02, 0x06]);
    assert_eq!(&s[38 + 13..38 + 14], &[0]);
}

#[test]
fn gates_json_rendering() {
    let gates = [
        GateResult { id: "G07", domain: "core::stinespring", metric: "10/33 + 23/33", limit: "== 1", measured: "0", passed: true },
        GateResult { id: "G19", domain: "eda::gdsii", metric: "e-beam DRC", limit: "0 violations", measured: "1", passed: false },
    ];
    let json = String::from_utf8(gates_to_json(&gates)).unwrap();
    assert_eq!(
        json,
        "[{\"id\":\"G07\",\"domain\":\"core::stinespring\",\"metric\":\"10/33 + 23/33\",\"limit\":\"== 1\",\"measured\":0,\"passed\":true},{\"id\":\"G19\",\"domain\":\"eda::gdsii\",\"metric\":\"e-beam DRC\",\"limit\":\"0 violations\",\"measured\":1,\"passed\":false}]"
    );
    assert_eq!(String::from_utf8(gates_to_json(&[])).unwrap(), "[]");
}

#[test]
fn step_entity_numbering() {
    let doc = StepSolidModelExporter::new().waveguide_document("L", "W", "H");
    let s = String::from_utf8(doc).unwrap();
    let z = "0.000000000000000";
    assert_eq!(s.lines().count(), 123);
    assert!(s.contains(&format!("#1 = CARTESIAN_POINT('v0', ({z}, {z}, {z}));\n")));
    assert!(s.contains("#7 = CARTESIAN_POINT('v6', (L, W, H));\n"));
    assert!(s.contains("#9 = VERTEX_POINT('V0', #1);\n"));
    assert!(s.contains(&format!("#18 = DIRECTION('e0d', (1.000000000000000, {z}, {z}));\n")));
    assert!(s.contains("#19 = VECTOR('e0v', #18, 1.0);\n"));
    assert!(s.contains("#20 = EDGE_CURVE('', #9, #10, #19, .T.);\n"));
    assert!(s.contains("#64 = EDGE_CURVE('', #16, #13, #63, .T.);\n"));
    assert!(s.contains(&format!("#67 = DIRECTION('f0n', ({z}, {z}, -1.000000000000000));\n")));
    assert!(s.contains("#69 = AXIS2_PLACEMENT_3D('f0a', #66, #67, #68);\n"));
    assert!(s.contains("#72 = ADVANCED_FACE('f0', (#71), #70, .T.);\n"));
    assert!(s.contains("#65 = EDGE_LOOP('f0', (#32, #28, #24, #20));\n"));
    assert!(s.contains("#81 = EDGE_LOOP('f2', (#20, #40, #52, #36));\n"));
    assert!(s.contains("#105 = EDGE_LOOP('f5', (#32, #36, #64, #48));\n"));
    assert!(s.contains("#113 = CLOSED_SHELL('waveguide', (#72, #80, #88, #96, #104, #112));\n"));
    assert!(s.ends_with("#114 = MANIFOLD_SOLID_BREP('sapphire_waveguide', #113);\nENDSEC;\nEND-ISO-10303-21;\n"));
}

#[test]
fn interposer_stackup_groups() {
    let s = stackup();
    for (i, layer) in s.iter().enumerate() {
        let (role, thickness) = [("signal", 35), ("plane", 18), ("power", 25), ("core", 100)][i % 4];
        assert_eq!(layer.role, role);
        assert_eq!(layer.thickness_um, thickness);
    }
    assert_eq!(s.iter().map(|l| l.thickness_um).sum::<u32>(), 534);
}

#[test]
fn cell_index_far_corner() {
    assert_eq!(cell_index(4095, 4095), 4096 * 4095 + 4095);
}

#[test]
fn capacity_partition_exact() {
    assert!(partition_is_exact());
}

#[test]
fn gates_json_non_finite_measured_is_null() {
    let gates = [
        GateResult { id: "G04", domain: "core::translocate", metric: "lambda_min(Gram)", limit: "> 0", measured: "NaN", passed: false },
        GateResult { id: "G05", domain: "d", metric: "m", limit: "l", measured: "-inf", passed: false },
        GateResult { id: "G06", domain: "d", metric: "m", limit: "l", measured: "-0.0000125", passed: true },
    ];
    let json = String::from_utf8(gates_to_json(&gates)).unwrap();
    assert_eq!(
        json,
        "[{\"id\":\"G04\",\"domain\":\"core::translocate\",\"metric\":\"lambda_min(Gram)\",\"limit\":\"> 0\",\"measured\":null,\"passed\":false},{\"id\":\"G05\",\"domain\":\"d\",\"metric\":\"m\",\"limit\":\"l\",\"measured\":null,\"passed\":false},{\"id\":\"G06\",\"domain\":\"d\",\"metric\":\"m\",\"limit\":\"l\",\"measured\":-0.0000125,\"passed\":true}]"
    );
}

#[test]
fn json_number_grammar() {
    for ok in ["0", "-0", "913.18", "1e-12", "2.5E+3", "1500", format!("{}", 4.12e-15f64).as_str(), format!("{}", 1e300f64).as_str()] {
        assert!(json_number(ok.as_bytes()), "{ok}");
    }
    for bad in ["", "-", "NaN", "inf", "-inf", "01", "1.", ".5", "1e", "1e+", "+1", "1 ", "0x10"] {
        assert!(!json_number(bad.as_bytes()), "{bad}");
    }
}

#[test]
fn gst_threshold_is_exact_ratio() {
    let mut ch = GstChannel::new(1);
    ch.conductivity_ms_per_m = 34_965_000; // exactly 99.9 %
    assert!(!ch.degraded());
    ch.conductivity_ms_per_m = 34_964_999;
    assert!(ch.degraded());
}

#[test]
fn xorshift_seed_zero_runs_as_seed_one() {
    let mut a = XorShift64::new(0);
    let mut b = XorShift64::new(1);
    let mut last = None;
    for _ in 0..16 {
        let x = a.next_bits();
        assert_eq!(x, b.next_bits());
        assert!(x < 1u64 << 53);
        assert_ne!(Some(x), last);
        last = Some(x);
    }
}

#[test]
fn shm_names() {
    assert_eq!(shm_object_name("sglt_frame_buffer").unwrap(), b"/sglt_frame_buffer".to_vec());
    assert_eq!(shm_object_name("/ring").unwrap(), b"/ring".to_vec());
    assert_eq!(shm_object_name("").unwrap(), b"/".to_vec());
    assert!(shm_object_name("a\0b").is_none());
}
