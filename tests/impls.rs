use distributions::{XorShiftSource, 
    Alphanum, BitSource, Constant, Distribution, IntoDistribution, RandomElement, RngExt,
    WeightedBool,
};
use rand::Rng;

fn create_rng() -> XorShiftSource {
    XorShiftSource::new(rand::thread_rng().gen())
}

fn sample<D: Distribution, R: BitSource>(d: &D, rng: &mut R) -> D::Output {
    loop {
        if let Some(v) = d.try_sample(rng) {
            return v;
        }
    }
}

#[test]
fn impls_test_generate_u8() {
    let mut rng = create_rng();
    let v: u8 = sample(&Constant(42), &mut rng);
    assert_eq!(v, 42);
}

#[test]
fn test_into_distribution() {
    let mut rng = create_rng();
    let v: u8 = sample(&42u8.into_distribution(), &mut rng);
    assert_eq!(v, 42);
}

#[test]
fn test_vec_into_distribution() {
    let mut rng = create_rng();
    let v: Vec<u8> = sample(&vec![42u8].into_distribution(), &mut rng);
    assert_eq!(v, vec![42u8]);
}

#[test]
fn test_weighted_bool_trivial() {
    let mut rng = create_rng();
    let d = WeightedBool::new(1);
    let v = sample(&d, &mut rng);
    assert_eq!(v, true);
}

#[test]
fn test_random_element_on_empty_vec() {
    let v: Vec<usize> = vec![];
    let d = RandomElement::from(&v);
    assert!(d.is_none());
}

#[test]
fn test_alphanum() {
    let mut rng = create_rng();
    let d = Alphanum::new();
    let mut it = rng.generate_iter(&d);
    let mut s = String::new();
    while s.len() < 100 {
        if let Some(c) = it.next_attempt() {
            s.push(c);
        }
    }
    assert_eq!(s.len(), 100);
    assert!(s.chars().all(|c| c.is_ascii_alphanumeric()));
}

#[test]
fn weighted_bool_is_one_in_n() {
    assert!(matches!(WeightedBool::new(0), WeightedBool::AlwaysTrue));
    let d = WeightedBool::new(5);
    assert!(matches!(d, WeightedBool::OneIn(_)));
    assert_eq!(d.sample_from_draw(0), Some(true));
    assert_eq!(d.sample_from_draw(1), Some(false));
    assert_eq!(d.sample_from_draw(5), Some(true));
    // 0xffff_ffff is the acceptance bound for a width of 5
    assert_eq!(d.sample_from_draw(u32::MAX), None);
    assert_eq!(WeightedBool::AlwaysTrue.sample_from_draw(3), Some(true));
}

#[test]
fn random_element_picks_by_offset() {
    let values = [10u32, 20, 30];
    let d = RandomElement::from(&values[..]).unwrap();
    assert_eq!(d.sample_from_draw(0), Some(&10));
    assert_eq!(d.sample_from_draw(4), Some(&20));
    assert_eq!(d.sample_from_draw(8), Some(&30));
    let mut rng = create_rng();
    for _ in 0..100 {
        let v = *sample(&d, &mut rng);
        assert!(v == 10 || v == 20 || v == 30);
    }
}

#[test]
fn alphanum_maps_indices_to_characters() {
    let d = Alphanum::new();
    assert_eq!(d.sample_from_draw(0), Some('A'));
    assert_eq!(d.sample_from_draw(25), Some('Z'));
    assert_eq!(d.sample_from_draw(26), Some('a'));
    assert_eq!(d.sample_from_draw(51), Some('z'));
    assert_eq!(d.sample_from_draw(52), Some('0'));
    assert_eq!(d.sample_from_draw(61), Some('9'));
    assert_eq!(d.sample_from_draw(62), Some('A'));
    assert_eq!(d.sample_from_draw(248), None);
}
