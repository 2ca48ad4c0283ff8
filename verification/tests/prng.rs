use fsrs::alea;
use fsrs::Alea;
use fsrs::Binary64;
use fsrs::Mash;
use fsrs::Prng;
use rand::Rng;

fn number(x: Binary64) -> f64 {
    f64::from_bits(x.to_bits())
}

fn parts(state: Alea) -> [f64; 4] {
    let [c, s0, s1, s2] = state.to_binary64();
    [number(c), number(s0), number(s1), number(s2)]
}

#[test]
fn alea_test_prng_get_state() {
    let prng_1 = alea("1");
    let prng_2 = alea("2");
    let prng_3 = alea("1");

    let alea_state_1 = prng_1.state();
    let alea_state_2 = prng_2.state();
    let alea_state_3 = prng_3.state();

    assert_eq!(alea_state_1, alea_state_3);
    assert_ne!(alea_state_1, alea_state_2);
}

#[test]
fn alea_test_alea_get_next() {
    let mut generator = alea("12345");
    assert_eq!(number(generator.gen_next()), 0.27138191112317145);
    assert_eq!(number(generator.gen_next()), 0.19615925149992108);
    assert_eq!(number(generator.gen_next()), 0.6810678059700876);
}

#[test]
fn alea_test_alea_int32() {
    let mut generator = alea("12345");
    assert_eq!(generator.int32(), 1165576433);
    assert_eq!(generator.int32(), 842497570);
    assert_eq!(generator.int32(), -1369803343);
}

#[test]
fn alea_test_alea_import_state() {
    let mut rng = rand::thread_rng();
    let seed = format!("{}", rng.gen::<i32>());
    let mut prng_1 = alea(&seed);
    prng_1.gen_next();
    prng_1.gen_next();
    prng_1.gen_next();
    let prng_1_state = prng_1.state();
    let mut prng_2 = alea("");
    prng_2.set_state(prng_1_state);

    assert_eq!(prng_1.state(), prng_2.state());

    for _ in 1..10000 {
        let a = number(prng_1.gen_next());
        let b = number(prng_2.gen_next());

        assert_eq!(a, b);
        assert!((0.0..1.0).contains(&a));
        assert!((0.0..1.0).contains(&b));
    }
}

#[test]
fn alea_test_seed_example_1() {
    let mut generator = alea("1727015666066");
    let results = number(generator.gen_next());
    let state = generator.state();

    assert_eq!(results, 0.6320083506871015);
    assert_eq!(
        parts(state),
        [
            1828249.0,
            0.5888567129150033,
            0.5074866858776659,
            0.6320083506871015
        ]
    );
}

#[test]
fn alea_test_seed_example_2() {
    let mut generator = alea("Seedp5fxh9kf4r0");
    let results = number(generator.gen_next());
    let state = generator.state();

    assert_eq!(results, 0.14867847645655274);
    assert_eq!(
        parts(state),
        [
            1776946.0,
            0.6778371171094477,
            0.0770602801349014,
            0.14867847645655274
        ]
    );
}

#[test]
fn alea_test_seed_example_3() {
    let mut generator = alea("NegativeS2Seed");
    let results = number(generator.gen_next());
    let state = generator.state();

    assert_eq!(results, 0.830770346801728);
    assert_eq!(
        parts(state),
        [
            952982.0,
            0.25224833423271775,
            0.9213257452938706,
            0.830770346801728
        ]
    );
}

#[test]
fn mod_test_prng_get_state() {
    let prng_1 = Prng::new("1");
    let prng_2 = Prng::new("2");
    let prng_3 = Prng::new("1");

    let alea_state_1 = prng_1.xg;
    let alea_state_2 = prng_2.xg;
    let alea_state_3 = prng_3.xg;

    assert_eq!(alea_state_1, alea_state_3);
    assert_ne!(alea_state_1, alea_state_2);
}

#[test]
fn mod_test_alea_get_next() {
    let mut generator = Prng::new("12345");
    assert_eq!(number(generator.gen_next()), 0.27138191112317145);
    assert_eq!(number(generator.gen_next()), 0.19615925149992108);
    assert_eq!(number(generator.gen_next()), 0.6810678059700876);
}

#[test]
fn mod_test_alea_int32() {
    let mut generator = Prng::new("12345");
    assert_eq!(generator.int32(), 1165576433);
    assert_eq!(generator.int32(), 842497570);
    assert_eq!(generator.int32(), -1369803343);
}

#[test]
fn mod_test_alea_import_state() {
    let mut prng_1 = Prng::new("Whatever");
    prng_1.gen_next();
    prng_1.gen_next();
    prng_1.gen_next();
    let prng_1_state = prng_1.xg;
    let mut prng_2 = Prng::new("ASDF");
    prng_2.xg = prng_1_state;

    assert_eq!(prng_1.xg, prng_2.xg);

    for _ in 1..10000 {
        let a = number(prng_1.gen_next());
        let b = number(prng_2.gen_next());

        assert_eq!(a, b);
        assert!((0.0..1.0).contains(&a));
        assert!((0.0..1.0).contains(&b));
    }
}

#[test]
fn mod_test_seed_example_1() {
    let mut generator = Prng::new("1727015666066");
    let results = number(generator.gen_next());
    let state = generator.xg;

    assert_eq!(results, 0.6320083506871015);
    assert_eq!(
        parts(state),
        [
            1828249.0,
            0.5888567129150033,
            0.5074866858776659,
            0.6320083506871015
        ]
    );
}

#[test]
fn mod_test_seed_example_2() {
    let mut generator = Prng::new("Seedp5fxh9kf4r0");
    let results = number(generator.gen_next());
    let state = generator.xg;

    assert_eq!(results, 0.14867847645655274);
    assert_eq!(
        parts(state),
        [
            1776946.0,
            0.6778371171094477,
            0.0770602801349014,
            0.14867847645655274
        ]
    );
}

#[test]
fn mod_test_seed_example_3() {
    let mut generator = Prng::new("NegativeS2Seed");
    let results = number(generator.gen_next());
    let state = generator.xg;

    assert_eq!(results, 0.830770346801728);
    assert_eq!(
        parts(state),
        [
            952982.0,
            0.25224833423271775,
            0.9213257452938706,
            0.830770346801728
        ]
    );
}

#[test]
fn same_seed_gives_same_draws_in_unit_interval() {
    let mut first = Prng::new("determinism");
    let mut second = Prng::new("determinism");
    for _ in 0..10000 {
        let a = first.next_units();
        let b = second.next_units();
        assert_eq!(a, b);
        assert!(a < (1u64 << 52));
    }
    assert_eq!(first.state(), second.state());
}

#[test]
fn mash_returns_the_register_scaled() {
    let mut mash = Mash::new();
    assert_eq!(number(mash.mash(" ")), 0.8633289230056107);
    assert_eq!(number(mash.mash("abc")), 0.6856265156529844);
    assert_eq!(mash.n, 2944743462u64 << 20);

    let mut units = Mash::new();
    assert_eq!(units.stir(" "), 3888087815946240);
    assert_eq!(units.stir("abc"), 3087787320410112);
}

#[test]
fn mash_of_the_empty_seed_keeps_the_register() {
    let mut mash = Mash::new();
    let before = mash.n;
    assert_eq!(mash.stir(""), before);
    assert_eq!(mash.n, 0xefc8249du64 << 20);
}

#[test]
fn seeds_beyond_ascii_are_stirred_by_code_point() {
    let mut a = Prng::new("é中");
    let mut b = Prng::new("é中");
    let mut c = Prng::new("e中");
    let x = a.next_units();
    assert_eq!(x, b.next_units());
    assert_ne!(x, c.next_units());
}

#[test]
fn double_combines_two_draws() {
    let mut generator = Prng::new("12345");
    assert_eq!(number(generator.double()), 0.1961592515631071);
    assert_eq!(number(generator.double()), 0.9894359015582752);

    let mut units = Prng::new("RNG");
    assert_eq!(units.double_units(), 2625964051812353);
    let mut same = Prng::new("RNG");
    assert_eq!(number(same.double()), 0.2915405752160042);
}

#[test]
fn double_takes_two_steps() {
    let mut stepped = Prng::new("steps");
    stepped.next_units();
    stepped.next_units();
    let mut doubled = Prng::new("steps");
    doubled.double_units();
    assert_eq!(stepped.state(), doubled.state());
}

#[test]
fn from_fixed_encodes_exact_numbers() {
    assert_eq!(number(Binary64::from_fixed(false, 0, 52)), 0.0);
    assert_eq!(number(Binary64::from_fixed(false, 1, 0)), 1.0);
    assert_eq!(number(Binary64::from_fixed(false, 1, 1)), 0.5);
    assert_eq!(number(Binary64::from_fixed(true, 3, 2)), -0.75);
    assert_eq!(number(Binary64::from_fixed(false, 1828249, 0)), 1828249.0);
    assert_eq!(number(Binary64::from_fixed(false, (1u64 << 53) - 1, 53)), 1.0 - f64::EPSILON / 2.0);
    assert_eq!(Binary64::from_fixed(true, 0, 0).to_bits(), (-0.0f64).to_bits());
    assert_eq!(Binary64::from_fixed(false, 1, 1022).to_bits(), f64::MIN_POSITIVE.to_bits());
}

// The generator in floating point, to hold the library against.

const TWO_TO_THE_POWER_OF_32: u64 = 1 << 32;
const TWO_TO_THE_POWER_OF_21: u64 = 1 << 21;
const TWO_TO_THE_POWER_OF_MINUS_32: f64 = 1.0 / (TWO_TO_THE_POWER_OF_32 as f64);
const TWO_TO_THE_POWER_OF_MINUS_53: f64 = 1.0 / ((1u64 << 53) as f64);

struct FloatMash {
    n: f64,
}

impl FloatMash {
    fn new() -> Self {
        Self { n: 0xefc8249du64 as f64 }
    }

    fn mash(&mut self, seed: &str) -> f64 {
        let mut n: f64 = self.n;
        for c in seed.chars() {
            n += c as u32 as f64;
            let mut h = 0.02519603282416938 * n;
            n = (h as u32) as f64;
            h -= n;
            h *= n;
            n = (h as u32) as f64;
            h -= n;
            n += h * TWO_TO_THE_POWER_OF_32 as f64;
        }
        self.n = n;
        self.n * TWO_TO_THE_POWER_OF_MINUS_32
    }
}

struct FloatAlea {
    c: f64,
    s0: f64,
    s1: f64,
    s2: f64,
}

impl FloatAlea {
    fn new(seed: &str) -> Self {
        let mut mash = FloatMash::new();
        let mut alea = Self { c: 1.0, s0: mash.mash(" "), s1: mash.mash(" "), s2: mash.mash(" ") };
        alea.s0 -= mash.mash(seed);
        if alea.s0 < 0.0 {
            alea.s0 += 1.0;
        }
        alea.s1 -= mash.mash(seed);
        if alea.s1 < 0.0 {
            alea.s1 += 1.0;
        }
        alea.s2 -= mash.mash(seed);
        if alea.s2 < 0.0 {
            alea.s2 += 1.0;
        }
        alea
    }

    fn gen_next(&mut self) -> f64 {
        let t = 2091639.0f64.mul_add(self.s0, self.c * TWO_TO_THE_POWER_OF_MINUS_32);
        self.s0 = self.s1;
        self.s1 = self.s2;
        self.c = t.floor();
        self.s2 = t - self.c;
        self.s2
    }

    fn int32(&mut self) -> i32 {
        let input = self.gen_next() * TWO_TO_THE_POWER_OF_32 as f64;
        input.rem_euclid((u32::MAX as f64) + 1.0) as u32 as i32
    }

    fn double(&mut self) -> f64 {
        ((self.gen_next() * TWO_TO_THE_POWER_OF_21 as f64) as u64 as f64)
            .mul_add(TWO_TO_THE_POWER_OF_MINUS_53, self.gen_next())
    }
}

fn agrees_with_binary64(seed: &str) {
    let mut float_mash = FloatMash::new();
    let mut mash = Mash::new();
    assert_eq!(number(mash.mash(seed)), float_mash.mash(seed), "{seed:?}");
    assert_eq!(number(mash.mash(seed)), float_mash.mash(seed), "{seed:?}");

    let mut float = FloatAlea::new(seed);
    let mut prng = Prng::new(seed);
    assert_eq!(parts(prng.state()), [float.c, float.s0, float.s1, float.s2], "{seed:?}");
    for round in 0..40 {
        match round % 3 {
            0 => assert_eq!(number(prng.gen_next()), float.gen_next(), "{seed:?}"),
            1 => assert_eq!(prng.int32(), float.int32(), "{seed:?}"),
            _ => assert_eq!(number(prng.double()), float.double(), "{seed:?}"),
        }
        assert_eq!(parts(prng.state()), [float.c, float.s0, float.s1, float.s2], "{seed:?}");
    }
}

#[test]
fn the_generator_agrees_with_binary64_arithmetic() {
    for seed in [
        "",
        " ",
        "\0",
        "a",
        "RNG",
        "12345",
        "1727015666066",
        "Seedp5fxh9kf4r0",
        "NegativeS2Seed",
        "é中\u{1F600}\u{10FFFF}",
        "a much longer seed, with spaces and punctuation; and then some more of it",
    ] {
        agrees_with_binary64(seed);
    }
    let mut rng = rand::thread_rng();
    for _ in 0..3000 {
        let length = rng.gen_range(0..24);
        let seed: String = (0..length).map(|_| rng.gen::<char>()).collect();
        agrees_with_binary64(&seed);
        agrees_with_binary64(&format!("{}", rng.gen::<i64>()));
    }
}
