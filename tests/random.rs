use distributions::{XorShiftSource, 
    BitSource, DefaultDistribution, Distribution, Random, RandomSimple, RandomSimpleDistribution,
};
use rand::Rng;

fn create_rng() -> XorShiftSource {
    XorShiftSource::new(rand::thread_rng().gen())
}

struct MyType(u8);

impl RandomSimple for MyType {
    fn random<R: BitSource>(_: &mut R) -> Self {
        MyType(0)
    }
}

impl DefaultDistribution for MyType {
    type Distribution = RandomSimpleDistribution<MyType>;

    fn default_distribution() -> RandomSimpleDistribution<MyType> {
        RandomSimpleDistribution::new()
    }
}

#[test]
fn random_test_generate_u8() {
    let mut rng = create_rng();
    let d = MyType::default_distribution();
    let v: MyType = d.try_sample(&mut rng).unwrap();
    assert_eq!(v.0, 0);
}

#[test]
fn random_uses_the_default_distribution() {
    let mut rng = create_rng();
    let _: u16 = <u16 as Random>::random(&mut rng);
    let _: bool = <bool as Random>::random(&mut rng);
    let v: MyType = <MyType as Random>::random(&mut rng);
    assert_eq!(v.0, 0);
}
