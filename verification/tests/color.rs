use field_viewer::color::{level, pixel, ColorBuffer, DARK_BELOW, MAX_LEVEL};
use field_viewer::field::FieldBuffer;

/// The level as single-precision arithmetic gives it.
fn reference(word: u32) -> u32 {
    ((f32::from_bits(word) * 255.0) as i64).clamp(0, 255) as u32
}

fn color(v: f32) -> u32 {
    pixel(v.to_bits())
}

fn field_of(dim: u32, values: &[f32]) -> FieldBuffer {
    FieldBuffer::from_cells(dim, values.iter().map(|v| v.to_bits()).collect()).unwrap()
}

#[test]
fn zero_is_black() {
    assert_eq!(color(0.0), 0x000000);
    assert_eq!(color(-0.0), 0x000000);
}

#[test]
fn one_is_white() {
    assert_eq!(color(1.0), 0xFFFFFF);
}

#[test]
fn one_half_is_mid_gray() {
    assert_eq!(level(0.5f32.to_bits()), 127);
    assert_eq!(color(0.5), 0x7F7F7F);
}

#[test]
fn negative_values_are_black() {
    assert_eq!(color(-0.5), 0);
    assert_eq!(color(-1.0), 0);
    assert_eq!(color(-1.0e30), 0);
    assert_eq!(color(f32::NEG_INFINITY), 0);
    assert_eq!(color(-f32::MIN_POSITIVE), 0);
}

#[test]
fn values_above_one_are_white() {
    assert_eq!(color(1.0000001), 0xFFFFFF);
    assert_eq!(color(1.5), 0xFFFFFF);
    assert_eq!(color(256.0), 0xFFFFFF);
    assert_eq!(color(1.0e30), 0xFFFFFF);
    assert_eq!(color(f32::MAX), 0xFFFFFF);
    assert_eq!(color(f32::INFINITY), 0xFFFFFF);
}

#[test]
fn not_a_number_is_black() {
    assert_eq!(color(f32::NAN), 0);
    assert_eq!(pixel(0x7F80_0001), 0);
    assert_eq!(pixel(0x7FFF_FFFF), 0);
    assert_eq!(pixel(0xFF80_0001), 0);
    assert_eq!(pixel(0xFFFF_FFFF), 0);
}

#[test]
fn tiny_values_are_black() {
    assert_eq!(DARK_BELOW, (1.0f32 / 256.0).to_bits());
    assert_eq!(pixel(1), 0);
    assert_eq!(color(f32::MIN_POSITIVE), 0);
    assert_eq!(color(1.0 / 512.0), 0);
    assert_eq!(pixel(DARK_BELOW - 1), 0);
    assert_eq!(level(DARK_BELOW), 0);
}

#[test]
fn exact_levels() {
    assert_eq!(MAX_LEVEL, 255);
    assert_eq!(level((1.0f32 / 255.0).to_bits()), 1);
    assert_eq!(level(0.25f32.to_bits()), 63);
    assert_eq!(level(0.75f32.to_bits()), 191);
    assert_eq!(level(0.1f32.to_bits()), 25);
    assert_eq!(level(0.999f32.to_bits()), 254);
    assert_eq!(color(0.25), 0x3F3F3F);
    assert_eq!(color(0.75), 0xBFBFBF);
}

/// The level with the product taken exactly: 255 times a single-precision
/// number fits a double-precision one without rounding.
fn exact(word: u32) -> u32 {
    ((f32::from_bits(word) as f64 * 255.0) as i64).clamp(0, 255) as u32
}

#[test]
fn rounding_the_product_never_changes_the_level() {
    for target in 1..=255u32 {
        let near = (target as f32 / 255.0).to_bits();
        for word in near - 64..=near + 64 {
            assert_eq!(reference(word), exact(word), "word {:#010x}", word);
            assert_eq!(level(word), exact(word), "word {:#010x}", word);
        }
    }
    let mut word: u32 = 0x3B00_0000;
    while word < 0x3F90_0000 {
        assert_eq!(reference(word), exact(word), "word {:#010x}", word);
        assert_eq!(level(word), exact(word), "word {:#010x}", word);
        word += 1_013;
    }
}

#[test]
fn just_below_one_is_not_yet_white() {
    let word = 1.0f32.to_bits() - 1;
    assert_eq!(level(word), reference(word));
    assert_eq!(level(word), 254);
    assert_eq!(pixel(word), 0xFEFEFE);
}

#[test]
fn level_agrees_with_the_arithmetic_around_every_step() {
    // For each level, the words around the least value that reaches it.
    for target in 1..=255u32 {
        let near = (target as f32 / 255.0).to_bits();
        for word in near - 64..=near + 64 {
            assert_eq!(level(word), reference(word), "word {:#010x}", word);
        }
    }
}

#[test]
fn level_agrees_with_the_arithmetic_across_the_encoding() {
    let mut word: u32 = 0;
    loop {
        assert_eq!(level(word), reference(word), "word {:#010x}", word);
        match word.checked_add(40_503) {
            Some(next) => word = next,
            None => break,
        }
    }
}

#[test]
fn level_agrees_with_the_arithmetic_at_every_exponent() {
    for field in 0..=255u32 {
        for sign in [0u32, 0x8000_0000] {
            for fraction in [0u32, 1, 2, 0x3F_FFFF, 0x40_0000, 0x40_0001, 0x7F_FFFE, 0x7F_FFFF] {
                let word = sign | (field << 23) | fraction;
                assert_eq!(level(word), reference(word), "word {:#010x}", word);
            }
        }
    }
}

#[test]
fn every_pixel_is_a_neutral_gray() {
    let mut word: u32 = 0x3B00_0000;
    while word < 0x3F90_0000 {
        let l = level(word);
        let p = pixel(word);
        assert!(l <= 255);
        assert_eq!(p >> 24, 0);
        assert_eq!((p >> 16) & 0xFF, l);
        assert_eq!((p >> 8) & 0xFF, l);
        assert_eq!(p & 0xFF, l);
        word += 9_973;
    }
}

#[test]
fn new_buffer_is_black() {
    let buffer = ColorBuffer::new(1000).unwrap();
    assert_eq!(buffer.dim(), 1000);
    assert_eq!(buffer.len(), 1_000_000);
    assert!(buffer.pixels().iter().all(|&p| p == 0));
}

#[test]
fn repaint_overwrites_every_pixel() {
    let mut buffer = ColorBuffer::new(2).unwrap();
    assert!(buffer.repaint(&field_of(2, &[0.0, 0.5, 1.0, 2.0])));
    assert_eq!(buffer.pixels(), &vec![0x000000, 0x7F7F7F, 0xFFFFFF, 0xFFFFFF]);
    assert!(buffer.repaint(&field_of(2, &[-5.0, 0.25, f32::NAN, 0.75])));
    assert_eq!(buffer.pixels(), &vec![0x000000, 0x3F3F3F, 0x000000, 0xBFBFBF]);
    assert_eq!(buffer.len(), 4);
    assert_eq!(buffer.dim(), 2);
}

#[test]
fn repaint_of_the_window_grid() {
    let mut buffer = ColorBuffer::new(1000).unwrap();
    let field = FieldBuffer::new(1000, 1.0f32.to_bits()).unwrap();
    assert!(buffer.repaint(&field));
    assert_eq!(buffer.len(), 1_000_000);
    assert!(buffer.pixels().iter().all(|&p| p == 0xFFFFFF));
}

#[test]
fn repaint_refuses_a_field_of_another_size() {
    let mut buffer = ColorBuffer::new(2).unwrap();
    assert!(buffer.repaint(&field_of(2, &[0.1, 0.2, 0.3, 0.4])));
    let before = buffer.pixels().clone();
    assert!(!buffer.repaint(&field_of(1, &[1.0])));
    assert!(!buffer.repaint(&field_of(3, &[1.0; 9])));
    assert!(!buffer.repaint(&field_of(0, &[])));
    assert_eq!(buffer.pixels(), &before);
}

#[test]
fn same_field_same_pixels() {
    let mut a = ColorBuffer::new(3).unwrap();
    let mut b = ColorBuffer::new(3).unwrap();
    let field = field_of(3, &[0.0, 0.07, 1.2, -4.0, 1.0, 0.5, 0.3, 0.6, 0.9]);
    assert!(a.repaint(&field));
    assert!(b.repaint(&field));
    assert!(b.repaint(&field));
    assert_eq!(a, b);
}
