use distributions::{XorShiftSource, BitSource, DefaultDistribution, Distribution, IntoDistribution, Uniform};
use rand::{Rng, SeedableRng, XorShiftRng};
use std::ops::RangeFull;

fn create_rng() -> XorShiftSource {
    XorShiftSource::new(rand::thread_rng().gen())
}

fn seeded_rng() -> XorShiftSource {
    XorShiftSource::new(XorShiftRng::from_seed([0x0bad_5eed, 0x1234_5678, 0x9abc_def0, 0x0fed_cba9]))
}

fn sample<D: Distribution, R: BitSource>(d: &D, rng: &mut R) -> D::Output {
    loop {
        if let Some(v) = d.try_sample(rng) {
            return v;
        }
    }
}

fn foo<D: IntoDistribution<T>, T, R: BitSource>(d: D, rng: &mut R) -> T {
    sample(&d.into_distribution(), rng)
}

#[test]
fn uniform_test_generate_u8() {
    let mut rng = create_rng();
    let _: u8 = foo(RangeFull, &mut rng);
}

#[test]
fn test_generate_u8_with_type_annotation() {
    let mut rng = create_rng();
    let d = IntoDistribution::<u8>::into_distribution(RangeFull);
    let _: u8 = sample(&d, &mut rng);
}

#[test]
fn test_range_full_into_distribution() {
    let mut rng = create_rng();
    let d: Uniform<u8> = (..).into_distribution();
    let _: u8 = sample(&d, &mut rng);
}

#[test]
fn test_u8_default_distribution() {
    u8::default_distribution();
}

#[test]
fn uniform_keeps_the_low_bits_of_the_word() {
    assert_eq!(Uniform::<u8>::new().from_u32(0x1234), 0x34);
    assert_eq!(Uniform::<i8>::new().from_u32(0xff), -1);
    assert_eq!(Uniform::<i8>::new().from_u32(0x180), -128);
    assert_eq!(Uniform::<u16>::new().from_u32(0xdead_beef), 0xbeef);
    assert_eq!(Uniform::<i32>::new().from_u32(0xffff_fffe), -2);
    assert_eq!(Uniform::<u64>::new().from_u64(u64::MAX), u64::MAX);
    assert_eq!(Uniform::<i64>::new().from_u64(u64::MAX), -1);
    assert_eq!(Uniform::<i64>::new().from_u64(0x8000_0000_0000_0000), i64::MIN);
    assert_eq!(Uniform::<u64>::new().from_u32(7), 7);
}

#[test]
fn uniform_bool_takes_the_lowest_bit() {
    let d = Uniform::<bool>::new();
    assert!(!d.bool_from_u32(0));
    assert!(d.bool_from_u32(1));
    assert!(!d.bool_from_u32(0x100));
    assert!(d.bool_from_u32(0xffff_ffff));
    let trues = (0..1024u32).filter(|&w| d.bool_from_u32(w)).count();
    assert_eq!(trues, 512);
}

#[test]
fn uniform_bool_is_balanced() {
    let mut rng = seeded_rng();
    let d = Uniform::<bool>::new();
    let draws = 100000u32;
    let trues = (0..draws).filter(|_| sample(&d, &mut rng)).count() as f64;
    let share = trues / draws as f64;
    assert!(share > 0.49 && share < 0.51, "share of true {}", share);
}

#[test]
fn uniform_byte_reaches_every_value() {
    let d = Uniform::<u8>::new();
    let mut seen = [false; 256];
    for w in 0..256u32 {
        seen[d.from_u32(w) as usize] = true;
    }
    assert!(seen.iter().all(|&s| s));

    let mut rng = seeded_rng();
    let mut hits = [false; 256];
    for _ in 0..20000 {
        hits[d.sample(&mut rng) as usize] = true;
    }
    assert!(hits.iter().all(|&s| s));
}

#[test]
fn uniform_never_rejects() {
    let mut rng = create_rng();
    for _ in 0..100 {
        assert!(Uniform::<i64>::new().try_sample(&mut rng).is_some());
        assert!(Uniform::<usize>::new().try_sample(&mut rng).is_some());
        assert!(Uniform::<bool>::new().try_sample(&mut rng).is_some());
    }
}

#[test]
fn uniform_signed_byte_words_per_value_are_equal() {
    let d = Uniform::<i8>::new();
    let mut counts = [0u32; 256];
    for w in 0..0x1_0000u32 {
        counts[(d.from_u32(w) as u8) as usize] += 1;
    }
    assert!(counts.iter().all(|&c| c == 256));
    assert_eq!(d.from_u32((-77i8 as u8) as u32), -77);
}
