use shader_viewer::uniforms::{decode_resolution, dim_from_f32_bits, f32_bits_from_dim, Uniforms};

#[test]
fn bit_patterns_match_hardware_floats() {
    let dims: [u32; 12] = [1, 2, 3, 5, 600, 800, 1023, 1024, 4095, 8192, 16383, 16384];
    for &n in dims.iter() {
        assert_eq!(f32_bits_from_dim(n), (n as f32).to_bits());
    }
}

#[test]
fn uniform_bytes_are_two_floats_in_sequence() {
    let u = Uniforms::new(800, 600);
    let bytes = u.to_bytes();
    assert_eq!(bytes.len(), 8);
    let expected: Vec<u8> = [800f32, 600f32]
        .iter()
        .flat_map(|f| f.to_le_bytes())
        .collect();
    assert_eq!(bytes, expected);
}

#[test]
fn uniform_bytes_match_bytemuck_layout() {
    let u = Uniforms::new(1280, 720);
    let floats: [f32; 2] = [1280.0, 720.0];
    let raw: &[u8] = bytemuck::cast_slice(&floats);
    assert_eq!(u.to_bytes().as_slice(), raw);
}

#[test]
fn round_trip_is_exact() {
    let cases: [(u32, u32); 6] =
        [(1, 1), (800, 600), (1920, 1080), (16384, 16384), (1, 16384), (123, 4567)];
    for &(w, h) in cases.iter() {
        let bytes = Uniforms::new(w, h).to_bytes();
        assert_eq!(decode_resolution(&bytes), Some((w, h)));
    }
}

#[test]
fn decode_rejects_wrong_length() {
    assert_eq!(decode_resolution(&vec![0u8; 7]), None);
    assert_eq!(decode_resolution(&vec![0u8; 9]), None);
    assert_eq!(decode_resolution(&Vec::new()), None);
}

#[test]
fn decode_rejects_non_encodings() {
    // All zeros: the pattern of 0.0, not of any dimension in range.
    assert_eq!(decode_resolution(&vec![0u8; 8]), None);
    // 0.5 paired with a real dimension: the first float is no integer.
    let mut bytes: Vec<u8> = 0.5f32.to_bits().to_le_bytes().to_vec();
    bytes.extend(600f32.to_bits().to_le_bytes());
    assert_eq!(decode_resolution(&bytes), None);
}

#[test]
fn dim_decode_is_exact_inverse() {
    assert_eq!(dim_from_f32_bits(800f32.to_bits()), Some(800));
    assert_eq!(dim_from_f32_bits(1f32.to_bits()), Some(1));
    assert_eq!(dim_from_f32_bits(16384f32.to_bits()), Some(16384));
    // A fraction is no dimension.
    assert_eq!(dim_from_f32_bits(2.5f32.to_bits()), None);
    // Exactly representable, but above the stated range.
    assert_eq!(dim_from_f32_bits(20000f32.to_bits()), None);
    // Below the range.
    assert_eq!(dim_from_f32_bits(0f32.to_bits()), None);
}
