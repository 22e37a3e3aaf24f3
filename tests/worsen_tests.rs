use rand::rngs::StdRng;
use rand::SeedableRng;
use worsen::buffer::PixelBuffer;
use worsen::ops::{apply_operation, parse_operation, parse_operations, Operation, UnknownOperation};
use worsen::stats::{frequencies, least_most, ImageStats};
use worsen::transform::{
    apply_brightness, apply_noise, random_brightness, random_noise, scale_sample, MULT_HIGH, MULT_LOW,
};

fn buffer(width: u32, height: u32, samples: Vec<u8>) -> PixelBuffer {
    PixelBuffer::new(width, height, samples).expect("sample count matches")
}

fn gradient(width: u32, height: u32) -> PixelBuffer {
    let n = (width * height * 3) as usize;
    buffer(width, height, (0..n).map(|i| (i * 37 % 256) as u8).collect())
}

#[test]
fn new_rejects_wrong_sample_count() {
    assert!(PixelBuffer::new(2, 2, vec![0u8; 11]).is_none());
    assert!(PixelBuffer::new(2, 2, vec![0u8; 13]).is_none());
    let b = PixelBuffer::new(2, 2, vec![0u8; 12]).unwrap();
    assert_eq!((b.width(), b.height()), (2, 2));
    assert!(PixelBuffer::new(0, 5, vec![]).is_some());
}

#[test]
fn pixel_reads_row_major() {
    let b = buffer(2, 2, (0u8..12).collect());
    assert_eq!(b.pixel(0, 0), [0, 1, 2]);
    assert_eq!(b.pixel(1, 0), [3, 4, 5]);
    assert_eq!(b.pixel(0, 1), [6, 7, 8]);
    assert_eq!(b.pixel(1, 1), [9, 10, 11]);
}

#[test]
fn filled_repeats_colour() {
    let b = PixelBuffer::filled(3, 2, [10, 20, 30]).unwrap();
    assert_eq!(b.samples().len(), 18);
    for y in 0..2 {
        for x in 0..3 {
            assert_eq!(b.pixel(x, y), [10, 20, 30]);
        }
    }
}

#[test]
fn histogram_sums_to_sample_count() {
    for (w, h) in [(1u32, 1u32), (3, 2), (17, 9), (64, 64)] {
        let b = gradient(w, h);
        let freqs = frequencies(b.samples());
        assert_eq!(freqs.len(), 256);
        assert_eq!(freqs.iter().sum::<u64>(), (w * h * 3) as u64);
    }
}

#[test]
fn frequencies_count_each_value() {
    let freqs = frequencies(&[7, 7, 0, 255, 7, 0]);
    assert_eq!(freqs[7], 3);
    assert_eq!(freqs[0], 2);
    assert_eq!(freqs[255], 1);
    assert_eq!(freqs.iter().sum::<u64>(), 6);
    assert!(frequencies(&[]).iter().all(|c| *c == 0));
}

#[test]
fn least_most_tie_break() {
    assert_eq!(least_most(&[5, 0, 3, 3, 5]), (2, 0));
}

#[test]
fn least_most_skips_zero_bins() {
    assert_eq!(least_most(&[0, 0, 4, 0, 9, 1, 0]), (5, 4));
    assert_eq!(least_most(&[0, 0, 0]), (0, 0));
    assert_eq!(least_most(&[]), (0, 0));
}

#[test]
fn stats_of_small_image() {
    let b = buffer(2, 1, vec![10, 20, 20, 30, 20, 10]);
    let st = ImageStats::from_image(&b);
    assert_eq!(st.min, 10);
    assert_eq!(st.max, 30);
    assert_eq!(st.most, 20);
    assert_eq!(st.least, 30);
    assert_eq!(st.frequencies[10], 2);
    assert_eq!(st.frequencies[20], 3);
    assert_eq!(st.frequencies[30], 1);
}

#[test]
fn stats_of_empty_image_are_zero() {
    let b = buffer(0, 0, vec![]);
    let st = ImageStats::from_image(&b);
    assert_eq!(st.frequencies.len(), 256);
    assert!(st.frequencies.iter().all(|c| *c == 0));
    assert_eq!((st.min, st.max, st.most, st.least), (0, 0, 0, 0));
    let b = buffer(7, 0, vec![]);
    assert_eq!(ImageStats::from_image(&b).frequencies.iter().sum::<u64>(), 0);
}

#[test]
fn stats_histogram_sums_to_sample_count() {
    let b = gradient(13, 7);
    let st = ImageStats::from_image(&b);
    assert_eq!(st.frequencies.iter().sum::<u64>(), 13 * 7 * 3);
}

#[test]
fn stats_of_solid_image() {
    let b = PixelBuffer::filled(4, 4, [9, 9, 9]).unwrap();
    let st = ImageStats::from_image(&b);
    assert_eq!((st.min, st.max, st.most, st.least), (9, 9, 9, 9));
    assert_eq!(st.frequencies[9], 48);
}

#[test]
fn scale_sample_values() {
    assert_eq!(scale_sample(100, 1_000_000), 100);
    assert_eq!(scale_sample(100, 800_000), 125);
    assert_eq!(scale_sample(3, 1_200_000), 3);
    assert_eq!(scale_sample(13, 1_250_000), 10);
    assert_eq!(scale_sample(0, MULT_LOW), 0);
    assert_eq!(scale_sample(255, MULT_LOW), 255);
    assert_eq!(scale_sample(200, 700_000), 255);
    assert_eq!(scale_sample(255, MULT_HIGH - 1), 196);
}

#[test]
fn noise_stays_within_multiplier_range() {
    let before = gradient(16, 16);
    let mut after = gradient(16, 16);
    let mut rng = StdRng::seed_from_u64(7);
    random_noise(&mut after, &mut rng);
    assert_eq!(after.samples().len(), before.samples().len());
    for (old, new) in before.samples().iter().zip(after.samples().iter()) {
        let lo = scale_sample(*old, MULT_HIGH - 1);
        let hi = scale_sample(*old, MULT_LOW);
        assert!(lo <= *new && *new <= hi, "old {} new {}", old, new);
    }
}

#[test]
fn brightness_stays_within_multiplier_range() {
    let before = gradient(16, 16);
    let mut after = gradient(16, 16);
    let mut rng = StdRng::seed_from_u64(11);
    random_brightness(&mut after, &mut rng);
    for (old, new) in before.samples().iter().zip(after.samples().iter()) {
        assert!(scale_sample(*old, MULT_HIGH - 1) <= *new && *new <= scale_sample(*old, MULT_LOW));
    }
}

#[test]
fn brightness_shares_one_multiplier_per_pixel() {
    let mut b = PixelBuffer::filled(20, 20, [120, 120, 120]).unwrap();
    let mut rng = StdRng::seed_from_u64(3);
    random_brightness(&mut b, &mut rng);
    let mut changed = false;
    for y in 0..20 {
        for x in 0..20 {
            let p = b.pixel(x, y);
            assert_eq!(p[0], p[1]);
            assert_eq!(p[1], p[2]);
            changed |= p[0] != 120;
        }
    }
    assert!(changed);
}

#[test]
fn noise_draws_per_sample() {
    let mut b = PixelBuffer::filled(20, 20, [120, 120, 120]).unwrap();
    let mut rng = StdRng::seed_from_u64(3);
    random_noise(&mut b, &mut rng);
    let mut differs = false;
    for y in 0..20 {
        for x in 0..20 {
            let p = b.pixel(x, y);
            differs |= p[0] != p[1] || p[1] != p[2];
        }
    }
    assert!(differs);
}

#[test]
fn none_and_stats_leave_samples_alone() {
    let mut rng = StdRng::seed_from_u64(1);
    let original = gradient(8, 5);
    for op in [Operation::NoOp, Operation::Stats] {
        let mut b = gradient(8, 5);
        apply_operation(&mut b, op, &mut rng);
        assert_eq!(b.samples(), original.samples());
        assert_eq!((b.width(), b.height()), (8, 5));
    }
}

#[test]
fn apply_operation_scales_for_random_ops() {
    let mut rng = StdRng::seed_from_u64(5);
    let mut b = PixelBuffer::filled(10, 10, [200, 100, 50]).unwrap();
    apply_operation(&mut b, Operation::RandomBrightness, &mut rng);
    assert!(b.samples().iter().any(|v| *v != 200 && *v != 100 && *v != 50));
    let mut c = PixelBuffer::filled(10, 10, [200, 100, 50]).unwrap();
    apply_operation(&mut c, Operation::RandomNoise, &mut rng);
    assert!(c.samples().iter().any(|v| *v != 200 && *v != 100 && *v != 50));
}

#[test]
fn parse_known_operations() {
    assert_eq!(parse_operation("none"), Some(Operation::NoOp));
    assert_eq!(parse_operation("random-noise"), Some(Operation::RandomNoise));
    assert_eq!(parse_operation("random-brightness"), Some(Operation::RandomBrightness));
    assert_eq!(parse_operation("stats"), Some(Operation::Stats));
    assert_eq!(parse_operation("Stats"), None);
    assert_eq!(parse_operation(""), None);
    assert_eq!(parse_operation("none "), None);
}

#[test]
fn unknown_operation_is_rejected() {
    let names = vec!["none".to_string(), "bogus-op".to_string(), "stats".to_string()];
    assert_eq!(parse_operations(&names), Err(UnknownOperation { index: 1 }));
    let names = vec!["bogus-op".to_string(), "also-bogus".to_string()];
    assert_eq!(parse_operations(&names), Err(UnknownOperation { index: 0 }));
}

#[test]
fn known_operations_parse_in_order() {
    let names = vec!["stats".to_string(), "random-noise".to_string(), "none".to_string()];
    assert_eq!(
        parse_operations(&names),
        Ok(vec![Operation::Stats, Operation::RandomNoise, Operation::NoOp])
    );
    assert_eq!(parse_operations(&vec![]), Ok(vec![]));
}

#[test]
fn apply_noise_uses_one_multiplier_per_sample() {
    let mut b = PixelBuffer::filled(2, 1, [100, 100, 100]).unwrap();
    let ms = vec![1_000_000, 800_000, 1_250_000, 700_000, 1_000_000, 1_200_000];
    apply_noise(&mut b, &ms);
    assert_eq!(b.samples(), &vec![100, 125, 80, 143, 100, 83]);
}

#[test]
fn apply_brightness_uses_one_multiplier_per_pixel() {
    let mut b = buffer(2, 1, vec![100, 50, 200, 100, 50, 200]);
    apply_brightness(&mut b, &vec![800_000, 1_250_000]);
    assert_eq!(b.samples(), &vec![125, 63, 250, 80, 40, 160]);
    let mut c = PixelBuffer::filled(1, 1, [240, 10, 0]).unwrap();
    apply_brightness(&mut c, &vec![700_000]);
    assert_eq!(c.samples(), &vec![255, 14, 0]);
}

#[test]
fn random_noise_reports_one_draw_per_sample() {
    let before = gradient(5, 4);
    let mut after = gradient(5, 4);
    let mut rng = StdRng::seed_from_u64(21);
    let ms = random_noise(&mut after, &mut rng);
    assert_eq!(ms.len(), 5 * 4 * 3);
    for k in 0..ms.len() {
        assert!(MULT_LOW <= ms[k] && ms[k] < MULT_HIGH);
        assert_eq!(after.samples()[k], scale_sample(before.samples()[k], ms[k]));
    }
}

#[test]
fn random_brightness_reports_one_draw_per_pixel() {
    let before = gradient(5, 4);
    let mut after = gradient(5, 4);
    let mut rng = StdRng::seed_from_u64(22);
    let ms = random_brightness(&mut after, &mut rng);
    assert_eq!(ms.len(), 5 * 4);
    for p in 0..ms.len() {
        assert!(MULT_LOW <= ms[p] && ms[p] < MULT_HIGH);
        for c in 0..3 {
            let k = 3 * p + c;
            assert_eq!(after.samples()[k], scale_sample(before.samples()[k], ms[p]));
        }
    }
}

#[test]
fn apply_operation_returns_draws() {
    let mut rng = StdRng::seed_from_u64(9);
    let mut b = gradient(3, 3);
    assert!(apply_operation(&mut b, Operation::NoOp, &mut rng).is_empty());
    assert!(apply_operation(&mut b, Operation::Stats, &mut rng).is_empty());
    assert_eq!(apply_operation(&mut b, Operation::RandomNoise, &mut rng).len(), 27);
    assert_eq!(apply_operation(&mut b, Operation::RandomBrightness, &mut rng).len(), 9);
}
