use shbt_recon::ecc::{ecc_decode, ecc_encode};
use shbt_recon::frame::{
    BraidDescriptor, DarkLedgerFrame, BRAID_COUNT, BRAID_PAYLOAD_BYTES, FRAME_BYTES, METADATA_BYTES,
};
use shbt_recon::gdsii::GdsiiMaskExporter;
use shbt_recon::gst::{
    pack_pulse_gen, trigger_gst_self_healing_pulse, GstChannel, GstPhase, DEGRADATION_THRESHOLD_PPM,
    SIGMA_0_MS_PER_M, T_CRYST_K, T_MELT_K,
};
use shbt_recon::interposer::stackup;
use shbt_recon::step::StepSolidModelExporter;
use shbt_recon::telemetry::{frame_crc32, region_len, SpscRing, TelemetryFrame};
use shbt_recon::vis::{cell_index, RENDER_GRID, WEB_DEPENDENCIES, WORKGROUP_SIZE};

#[test]
fn pulse_gen_packing() {
    let v = pack_pulse_gen(150, 279);
    assert_eq!(v & 0xFFF, 150);
    assert_eq!(v >> 12, 279);
}

#[test]
fn nominal_channel_not_degraded() {
    let ch = GstChannel::new(0);
    assert!(!ch.degraded());
    assert_eq!(ch.phase, GstPhase::Crystalline);
}

#[test]
fn degraded_channel_flagged() {
    let mut ch = GstChannel::new(1);
    ch.conductivity_ms_per_m = SIGMA_0_MS_PER_M / 100 * 99;
    assert!(ch.degraded());
}

#[test]
fn self_healing_restores_above_threshold() {
    let mut ch = GstChannel::new(3);
    ch.conductivity_ms_per_m = SIGMA_0_MS_PER_M / 10 * 9;
    ch.phase = GstPhase::Amorphous;
    assert!(ch.degraded());
    let r = trigger_gst_self_healing_pulse(&mut ch);
    assert!(r > DEGRADATION_THRESHOLD_PPM);
    assert_eq!(ch.phase, GstPhase::Crystalline);
    assert_eq!(ch.heal_count, 1);
}

#[test]
fn frame_geometry() {
    assert_eq!(std::mem::size_of::<DarkLedgerFrame>(), 1472);
    assert_eq!(std::mem::size_of::<BraidDescriptor>(), 8);
    assert_eq!(BRAID_PAYLOAD_BYTES, 992);
}

#[test]
fn parse_roundtrip() {
    let frame = DarkLedgerFrame {
        braids: [BraidDescriptor::default(); BRAID_COUNT],
        metadata: [0u8; METADATA_BYTES],
    };
    let bytes = frame.to_bytes();
    assert_eq!(bytes.len(), FRAME_BYTES);
    let parsed = DarkLedgerFrame::parse(&bytes).unwrap();
    assert_eq!(parsed.syndrome_population(), 0);
    assert!(DarkLedgerFrame::parse(&bytes[..100]).is_none());
}

#[test]
fn cell_index_row_major() {
    assert_eq!(cell_index(1, 0), 1);
    assert_eq!(cell_index(0, 1), 4096);
}

#[test]
fn zero_dependency_manifest() {
    assert_eq!(WEB_DEPENDENCIES, 0);
    assert_eq!(WORKGROUP_SIZE, 16);
    assert_eq!(RENDER_GRID, 4096);
}

#[test]
fn drc_passes_nominal_layout() {
    let (ok, v) = GdsiiMaskExporter::new().validate_drc();
    assert!(ok, "{v:?}");
}

#[test]
fn gds_stream_has_valid_header() {
    let user_unit = [0x41, 0x10, 0, 0, 0, 0, 0, 0];
    let meters = [0x37, 0x11, 0x97, 0x99, 0x81, 0x2d, 0xea, 0x11];
    let bytes = GdsiiMaskExporter::new().mask_stream(&user_unit, &meters);
    // HEADER record: len 6, type 0x00, i16 version 600.
    assert_eq!(&bytes[..6], &[0x00, 0x06, 0x00, 0x02, 0x02, 0x58]);
    // ENDLIB trailer present.
    assert_eq!(&bytes[bytes.len() - 4..], &[0x00, 0x04, 0x04, 0x00]);
}

#[test]
fn step_file_has_iso_header_and_solid() {
    let doc = StepSolidModelExporter::new().waveguide_document(
        &format!("{:.15}", 25.4e-3f64),
        &format!("{:.15}", 2.0e-3f64),
        &format!("{:.15}", 0.5e-3f64),
    );
    let s = String::from_utf8(doc).unwrap();
    assert!(s.starts_with("ISO-10303-21;"));
    assert!(s.contains("MANIFOLD_SOLID_BREP('sapphire_waveguide'"));
    assert!(s.contains("CLOSED_SHELL"));
    assert!(s.trim_end().ends_with("END-ISO-10303-21;"));
}

#[test]
fn stackup_has_twelve_layers() {
    assert_eq!(stackup().len(), 12);
}

#[test]
fn ecc_roundtrip_clean() {
    let data = 0xDEAD_BEEF_CAFE_F00Du64;
    let check = ecc_encode(data);
    let d = ecc_decode(data, check);
    assert_eq!(d.data, data);
    assert!(!d.corrected && !d.uncorrectable);
}

#[test]
fn ecc_corrects_every_single_bit() {
    for bit in 0..64 {
        let data = 0x0123_4567_89AB_CDEFu64 ^ (1u64 << bit);
        let orig = 0x0123_4567_89AB_CDEFu64;
        let check = ecc_encode(orig);
        let d = ecc_decode(data, check);
        assert_eq!(d.data, orig, "bit {bit}");
        assert!(d.corrected, "bit {bit}");
    }
}

#[test]
fn ecc_detects_double_bit() {
    let orig = 0x0F0F_0F0F_0F0F_0F0Fu64;
    let check = ecc_encode(orig);
    let d = ecc_decode(orig ^ 0b101, check);
    assert!(d.uncorrectable);
}

#[test]
fn anneal_within_thermal_window() {
    assert!(T_CRYST_K < T_MELT_K);
    assert!((400..=500).contains(&T_CRYST_K));
}

#[test]
fn spsc_ring_roundtrip() {
    let capacity = 8;
    assert_eq!(region_len(capacity), 64 + 8 * 64);
    let mut ring = SpscRing::init(capacity);
    for i in 0..capacity as u64 {
        let f = TelemetryFrame {
            sequence_id: i,
            metric_det: (-1.0f64).to_bits(),
            gram_lambda_min: 0.5f64.to_bits(),
            ..TelemetryFrame::default()
        };
        assert!(ring.push(f), "push {i}");
    }
    assert!(!ring.push(TelemetryFrame::default())); // full
    for i in 0..capacity as u64 {
        let f = ring.pop().unwrap();
        assert_eq!(f.sequence_id, i);
        assert_eq!(f.frame_crc32, frame_crc32(&f));
    }
    assert!(ring.pop().is_none());
}

#[test]
fn mmio1_register_map_layout() {
    assert_eq!(std::mem::size_of::<shbt_recon::kernel::ShbtMmio1>(), 56);
    assert_eq!(shbt_recon::kernel::SHBT_MMIO_BASE, 0x7000_0000);
}
