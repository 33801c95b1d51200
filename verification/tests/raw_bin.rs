use pcd_tool::error::ConvertError;
use pcd_tool::raw_bin::{decode_raw_bin, encode_raw_bin, encode_record};
use pcd_tool::types::BinPoint;

fn sample_points() -> Vec<BinPoint> {
    vec![
        BinPoint {
            x_bits: 1.0f32.to_bits(),
            y_bits: (-2.5f32).to_bits(),
            z_bits: 0.0f32.to_bits(),
            intensity_bits: 17.25f32.to_bits(),
        },
        BinPoint {
            x_bits: 0,
            y_bits: u32::MAX,
            z_bits: 0x8000_0000,
            intensity_bits: 1,
        },
    ]
}

#[test]
fn record_layout_is_little_endian_x_y_z_intensity() {
    let p = BinPoint {
        x_bits: 1.0f32.to_bits(),
        y_bits: 2.0f32.to_bits(),
        z_bits: 3.0f32.to_bits(),
        intensity_bits: 4.0f32.to_bits(),
    };
    let bytes = encode_record(&p);
    assert_eq!(bytes.len(), 16);
    assert_eq!(&bytes[0..4], &1.0f32.to_le_bytes());
    assert_eq!(&bytes[4..8], &2.0f32.to_le_bytes());
    assert_eq!(&bytes[8..12], &3.0f32.to_le_bytes());
    assert_eq!(&bytes[12..16], &4.0f32.to_le_bytes());
}

#[test]
fn encode_then_decode_round_trips() {
    let points = sample_points();
    let bytes = encode_raw_bin(&points);
    assert_eq!(bytes.len(), 32);
    let decoded = decode_raw_bin(&bytes).unwrap();
    assert_eq!(decoded, points);
}

#[test]
fn decode_then_encode_round_trips() {
    let mut bytes = Vec::new();
    for b in 0u8..32 {
        bytes.push(b);
    }
    let points = decode_raw_bin(&bytes).unwrap();
    assert_eq!(encode_raw_bin(&points), bytes);
}

#[test]
fn decode_empty_file_is_ok_and_empty() {
    let points = decode_raw_bin(&[]).unwrap();
    assert!(points.is_empty());
}

#[test]
fn decode_rejects_partial_trailing_record() {
    // Any length that is not a multiple of 16 is a corruption error, never
    // a silently dropped partial record.
    for extra in 1usize..16 {
        let bytes = vec![0u8; 16 + extra];
        assert_eq!(
            decode_raw_bin(&bytes),
            Err(ConvertError::TruncatedRecord),
            "length {} must be rejected",
            16 + extra
        );
    }
}

#[test]
fn decode_rejects_short_file() {
    assert_eq!(decode_raw_bin(&[0u8; 15]), Err(ConvertError::TruncatedRecord));
    assert_eq!(decode_raw_bin(&[0u8; 1]), Err(ConvertError::TruncatedRecord));
}

#[test]
fn decode_reads_little_endian_words() {
    let mut bytes = vec![0u8; 16];
    bytes[0] = 0x01;
    bytes[1] = 0x02;
    bytes[2] = 0x03;
    bytes[3] = 0x04;
    bytes[12] = 0xff;
    let points = decode_raw_bin(&bytes).unwrap();
    assert_eq!(points.len(), 1);
    assert_eq!(points[0].x_bits, 0x0403_0201);
    assert_eq!(points[0].y_bits, 0);
    assert_eq!(points[0].z_bits, 0);
    assert_eq!(points[0].intensity_bits, 0x0000_00ff);
}
