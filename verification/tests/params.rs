use field_viewer::binary32::{INFINITY_WORD, ONE_WORD, SIGN_BIT};
use field_viewer::params::{
    Parameters, INITIAL_BOTTOM, INITIAL_LEFT, INITIAL_SIZE, PARAMETER_BYTES,
};

fn image(values: &[f32]) -> Vec<u8> {
    let mut bytes = Vec::new();
    for v in values {
        bytes.extend_from_slice(&v.to_ne_bytes());
    }
    bytes
}

#[test]
fn initial_words_encode_the_startup_region() {
    assert_eq!(INITIAL_LEFT, (-2.0f32).to_bits());
    assert_eq!(INITIAL_BOTTOM, (-1.5f32).to_bits());
    assert_eq!(INITIAL_SIZE, 3.0f32.to_bits());
}

#[test]
fn encoding_constants() {
    assert_eq!(INFINITY_WORD, f32::INFINITY.to_bits());
    assert_eq!(ONE_WORD, 1.0f32.to_bits());
    assert_eq!(SIGN_BIT, (-0.0f32).to_bits());
}

#[test]
fn default_is_the_startup_region() {
    let p = Parameters::default();
    assert_eq!(f32::from_bits(p.left()), -2.0);
    assert_eq!(f32::from_bits(p.bottom()), -1.5);
    assert_eq!(f32::from_bits(p.size()), 3.0);
}

#[test]
fn new_keeps_the_words_it_is_given() {
    let p = Parameters::new(0.25f32.to_bits(), (-7.5f32).to_bits(), 1.0e-3f32.to_bits())
        .expect("positive size");
    assert_eq!(p.left(), 0.25f32.to_bits());
    assert_eq!(p.bottom(), (-7.5f32).to_bits());
    assert_eq!(p.size(), 1.0e-3f32.to_bits());
}

#[test]
fn new_refuses_a_size_that_is_not_positive() {
    let l = 0.0f32.to_bits();
    assert_eq!(Parameters::new(l, l, 0.0f32.to_bits()), None);
    assert_eq!(Parameters::new(l, l, (-0.0f32).to_bits()), None);
    assert_eq!(Parameters::new(l, l, (-3.0f32).to_bits()), None);
    assert_eq!(Parameters::new(l, l, f32::NEG_INFINITY.to_bits()), None);
    assert_eq!(Parameters::new(l, l, f32::NAN.to_bits()), None);
    assert_eq!(Parameters::new(l, l, 0x7F80_0001), None);
    assert_eq!(Parameters::new(l, l, 0xFFFF_FFFF), None);
}

#[test]
fn new_accepts_every_positive_size() {
    let l = 0.0f32.to_bits();
    assert!(Parameters::new(l, l, 1).is_some());
    assert!(Parameters::new(l, l, f32::MIN_POSITIVE.to_bits()).is_some());
    assert!(Parameters::new(l, l, f32::MAX.to_bits()).is_some());
    assert!(Parameters::new(l, l, f32::INFINITY.to_bits()).is_some());
}

#[test]
fn new_agrees_with_the_comparison_on_numbers() {
    let samples: [f32; 10] =
        [0.0, -0.0, 1.0, -1.0, 1.0e-45, -1.0e-45, 3.0, f32::INFINITY, f32::NEG_INFINITY, f32::NAN];
    for s in samples {
        assert_eq!(Parameters::new(0, 0, s.to_bits()).is_some(), s > 0.0);
    }
}

#[test]
fn bytes_are_three_numbers_back_to_back() {
    let bytes = Parameters::default().to_bytes();
    assert_eq!(bytes.len(), PARAMETER_BYTES);
    assert_eq!(bytes.len(), 12);
    assert_eq!(bytes, image(&[-2.0, -1.5, 3.0]));
}

#[test]
fn bytes_keep_the_order_left_bottom_size() {
    let p = Parameters::new(1.0f32.to_bits(), 2.0f32.to_bits(), 4.0f32.to_bits()).unwrap();
    let bytes = p.to_bytes();
    assert_eq!(&bytes[0..4], &1.0f32.to_ne_bytes());
    assert_eq!(&bytes[4..8], &2.0f32.to_ne_bytes());
    assert_eq!(&bytes[8..12], &4.0f32.to_ne_bytes());
}
