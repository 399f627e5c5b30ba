use distributions::{XorShiftSource, RngExt, Uniform};
use rand::Rng;

fn create_rng() -> XorShiftSource {
    XorShiftSource::new(rand::thread_rng().gen())
}

#[test]
fn rng_ext_test_generate_u8() {
    let mut rng = create_rng();
    let mut v: Option<u8> = None;
    while v.is_none() {
        v = rng.generate(1..10);
    }
    let x = v.unwrap();
    assert!(1 <= x && x < 10);
    let _: Option<u8> = rng.generate(..);
}

#[test]
fn test_generate_from_distribution() {
    let mut rng = create_rng();
    let d = Uniform::<u8>::new();
    let a: Option<u8> = rng.generate(&d);
    let b: Option<u8> = rng.generate(&d);
    assert!(a.is_some() && b.is_some());
}
