use distributions::{XorShiftSource, BitSource, Distribution, IntoDistribution, UniformPrimitiveIntegerRange};
use rand::{Rng, SeedableRng, XorShiftRng};

fn create_rng() -> XorShiftSource {
    XorShiftSource::new(rand::thread_rng().gen())
}

fn seeded_rng() -> XorShiftSource {
    XorShiftSource::new(XorShiftRng::from_seed([0x193a_6754, 0xa8a7_d469, 0x9783_0e05, 0x113b_a7bb]))
}

fn sample<D: Distribution, R: BitSource>(d: &D, rng: &mut R) -> D::Output {
    loop {
        if let Some(v) = d.try_sample(rng) {
            return v;
        }
    }
}

#[test]
fn test_range_bad_limits_equal() {
    let d = UniformPrimitiveIntegerRange::new(10, 10);
    assert!(d.is_none());
}

#[test]
fn test_range_bad_limits_flipped() {
    let d = UniformPrimitiveIntegerRange::new(10, 5);
    assert!(d.is_none());
}

#[test]
fn test_range_into_distribution() {
    let mut rng = create_rng();
    let d = (1..10).into_distribution();
    let v: u8 = sample(&d, &mut rng);
    assert!(1 <= v && v < 10);
}

#[test]
fn range_rejects_empty_and_inverted_on_every_width() {
    assert!(UniformPrimitiveIntegerRange::new(u8::MIN, u8::MIN).is_none());
    assert!(UniformPrimitiveIntegerRange::new(u8::MAX, u8::MIN).is_none());
    assert!(UniformPrimitiveIntegerRange::new(i8::MIN, i8::MIN).is_none());
    assert!(UniformPrimitiveIntegerRange::new(i8::MAX, i8::MIN).is_none());
    assert!(UniformPrimitiveIntegerRange::new(u16::MIN, u16::MIN).is_none());
    assert!(UniformPrimitiveIntegerRange::new(u16::MAX, u16::MIN).is_none());
    assert!(UniformPrimitiveIntegerRange::new(i16::MIN, i16::MIN).is_none());
    assert!(UniformPrimitiveIntegerRange::new(i16::MAX, i16::MIN).is_none());
    assert!(UniformPrimitiveIntegerRange::new(u32::MIN, u32::MIN).is_none());
    assert!(UniformPrimitiveIntegerRange::new(u32::MAX, u32::MIN).is_none());
    assert!(UniformPrimitiveIntegerRange::new(i32::MIN, i32::MIN).is_none());
    assert!(UniformPrimitiveIntegerRange::new(i32::MAX, i32::MIN).is_none());
    assert!(UniformPrimitiveIntegerRange::new(u64::MIN, u64::MIN).is_none());
    assert!(UniformPrimitiveIntegerRange::new(u64::MAX, u64::MIN).is_none());
    assert!(UniformPrimitiveIntegerRange::new(i64::MIN, i64::MIN).is_none());
    assert!(UniformPrimitiveIntegerRange::new(i64::MAX, i64::MIN).is_none());
    assert!(UniformPrimitiveIntegerRange::new(usize::MIN, usize::MIN).is_none());
    assert!(UniformPrimitiveIntegerRange::new(usize::MAX, usize::MIN).is_none());
    assert!(UniformPrimitiveIntegerRange::new(isize::MIN, isize::MIN).is_none());
    assert!(UniformPrimitiveIntegerRange::new(isize::MAX, isize::MIN).is_none());
}

#[test]
fn range_samples_stay_in_range_on_every_width() {
    let mut rng = seeded_rng();
    let d = UniformPrimitiveIntegerRange::new(3u8, 200u8).unwrap();
    let e = UniformPrimitiveIntegerRange::new(-100i16, 7i16).unwrap();
    let f = UniformPrimitiveIntegerRange::new(u32::MAX - 5, u32::MAX).unwrap();
    let g = UniformPrimitiveIntegerRange::new(i32::MIN, i32::MIN + 3).unwrap();
    let h = UniformPrimitiveIntegerRange::new(i64::MIN, i64::MAX).unwrap();
    let k = UniformPrimitiveIntegerRange::new(1u64, u64::MAX).unwrap();
    let m = UniformPrimitiveIntegerRange::new(0usize, 7usize).unwrap();
    let n = UniformPrimitiveIntegerRange::new(-2isize, 2isize).unwrap();
    let p = UniformPrimitiveIntegerRange::new(u16::MIN, u16::MAX).unwrap();
    for _ in 0..2000 {
        let v = sample(&d, &mut rng);
        assert!(3 <= v && v < 200);
        let v = sample(&e, &mut rng);
        assert!(-100 <= v && v < 7);
        let v = sample(&f, &mut rng);
        assert!(u32::MAX - 5 <= v && v < u32::MAX);
        let v = sample(&g, &mut rng);
        assert!(i32::MIN <= v && v < i32::MIN + 3);
        let v = sample(&h, &mut rng);
        assert!(v < i64::MAX);
        let v = sample(&k, &mut rng);
        assert!(1 <= v && v < u64::MAX);
        let v = sample(&m, &mut rng);
        assert!(v < 7);
        let v = sample(&n, &mut rng);
        assert!(-2 <= v && v < 2);
        let v = sample(&p, &mut rng);
        assert!(v < u16::MAX);
    }
}

#[test]
fn range_small_u8_scenario_never_leaves_one_to_nine() {
    let mut rng = seeded_rng();
    let d = UniformPrimitiveIntegerRange::new(1u8, 10u8).unwrap();
    for _ in 0..10000 {
        let v = sample(&d, &mut rng);
        assert!(v >= 1 && v <= 9);
    }
}

#[test]
fn range_equal_bounds_scenario_fails() {
    assert!(UniformPrimitiveIntegerRange::new(10, 10).is_none());
}

#[test]
fn range_full_signed_byte_scenario() {
    let mut rng = seeded_rng();
    let d = UniformPrimitiveIntegerRange::new(i8::MIN, i8::MAX).unwrap();
    assert_eq!(d.range_width_unsigned(), 255);
    assert_eq!(d.acceptance_bound_unsigned(), 255);
    let mut seen_min = false;
    for _ in 0..10000 {
        let v = sample(&d, &mut rng);
        assert!(v >= -128 && v < 127);
        if v == -128 {
            seen_min = true;
        }
    }
    assert!(seen_min);
}

#[test]
fn range_parameters_are_exact() {
    let d = UniformPrimitiveIntegerRange::new(3u8, 17u8).unwrap();
    assert_eq!(d.low(), 3);
    assert_eq!(d.range_width_unsigned(), 14);
    assert_eq!(d.acceptance_bound_unsigned(), 252);
    let s = UniformPrimitiveIntegerRange::new(-1i8, 1i8).unwrap();
    assert_eq!(s.range_width_unsigned(), 2);
    assert_eq!(s.acceptance_bound_unsigned(), 254);
    let w = UniformPrimitiveIntegerRange::new(0u64, 3u64).unwrap();
    assert_eq!(w.acceptance_bound_unsigned(), u64::MAX);
}

#[test]
fn range_conversion_is_deterministic() {
    let a = (5i32..1000i32).into_distribution();
    let b = (5i32..1000i32).into_distribution();
    assert_eq!(a.low(), b.low());
    assert_eq!(a.range_width_unsigned(), b.range_width_unsigned());
    assert_eq!(a.acceptance_bound_unsigned(), b.acceptance_bound_unsigned());
    assert_eq!(a.range_width_unsigned(), 995);
    assert_eq!(a.acceptance_bound_unsigned(), 0xffff_ffff - 0xffff_ffff % 995);
}

#[test]
fn range_draws_map_by_offset_and_reject_the_excess() {
    let d = UniformPrimitiveIntegerRange::new(-5i8, 5i8).unwrap();
    assert_eq!(d.sample_from_draw(0), Some(-5));
    assert_eq!(d.sample_from_draw(9), Some(4));
    assert_eq!(d.sample_from_draw(10), Some(-5));
    assert_eq!(d.sample_from_draw(-7), Some(4));
    // bit pattern 250 is the acceptance bound
    assert_eq!(d.sample_from_draw(-6), None);
    assert_eq!(d.sample_from_draw(-1), None);
}

#[test]
fn range_accepted_draws_hit_each_value_equally() {
    let d = UniformPrimitiveIntegerRange::new(0u8, 3u8).unwrap();
    let mut counts = [0u32; 3];
    let mut rejected = 0u32;
    for x in 0..=255u8 {
        match d.sample_from_draw(x) {
            Some(v) => counts[v as usize] += 1,
            None => rejected += 1,
        }
    }
    assert_eq!(counts, [85, 85, 85]);
    assert_eq!(rejected, 1);
}

#[test]
fn range_three_values_are_uniform() {
    let mut rng = seeded_rng();
    let d = UniformPrimitiveIntegerRange::new(0u32, 3u32).unwrap();
    let mut counts = [0u64; 3];
    let draws = 100000u64;
    for _ in 0..draws {
        counts[sample(&d, &mut rng) as usize] += 1;
    }
    let expected = draws as f64 / 3.0;
    let chi2: f64 = counts.iter().map(|&c| (c as f64 - expected).powi(2) / expected).sum();
    // 2 degrees of freedom: the 0.001 critical value is about 13.8
    assert!(chi2 < 13.8, "chi-square {}", chi2);
}
