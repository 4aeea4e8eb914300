use extprim::u128::u128;
use fasthash::Seed;
use fasthash::SeedError;
use fasthash::SeedGenerator;
use rand::Rng;
use rand::SeedableRng;
use xoroshiro128::Xoroshiro128Rng;

fn rotl(x: u64, k: u32) -> u64 {
    (x << k) | (x >> (64 - k))
}

fn output(s: (u64, u64)) -> u64 {
    s.0.wrapping_add(s.1)
}

fn advance(s: (u64, u64)) -> (u64, u64) {
    let t = s.1 ^ s.0;
    (rotl(s.0, 55) ^ t ^ (t << 14), rotl(t, 36))
}

#[test]
fn test_seed() {
    let mut s = Seed::new().unwrap();
    let mut u0: u32 = s.into();
    let mut u1: u64 = s.into();
    let mut u2: u128 = u128::from_built_in(s.into());

    assert!(u0 != 0);
    assert!(u1 != 0);
    assert!(u2 != u128::zero());
    assert_eq!(u0, u1 as u32);
    assert_eq!(u1, u2.high64());

    let mut generator = SeedGenerator::new();

    s = Seed::gen(&mut generator).unwrap();

    u1 = s.into();

    s = Seed::gen(&mut generator).unwrap();

    u2 = u128::from_built_in(s.into());

    assert!(u0 != 0);
    assert!(u1 != 0);
    assert!(u2 != u128::zero());
    assert!(u0 as u64 != u1);
    assert!(u1 != u2.low64());
    assert!(u1 != u2.high64());

    u0 = Seed::gen(&mut generator).unwrap().into();
    u1 = Seed::gen(&mut generator).unwrap().into();
    u2 = u128::from_built_in(Seed::gen(&mut generator).unwrap().into());

    assert!(u0 != 0);
    assert!(u1 != 0);
    assert!(u2 != u128::zero());
    assert!(u0 as u64 != u1);
    assert!(u1 != u2.low64());
    assert!(u1 != u2.high64());
}

#[test]
fn a_seed_turns_into_what_its_generator_gives() {
    let states = [
        (5650102928090295972u64, 17420836048801662228u64),
        (1, 0),
        (0, 1),
        (u64::MAX, u64::MAX),
        (0x8000_0000_0000_0000, 0x8000_0000_0000_0000),
    ];
    for (s0, s1) in states {
        let seed = Seed::with_state(s0, s1).unwrap();
        let rng = Xoroshiro128Rng::from_seed([s0, s1]);

        let narrow: u32 = seed.into();
        assert_eq!(narrow, { rng }.gen::<u32>());
        let scalar: u64 = seed.into();
        assert_eq!(scalar, { rng }.gen::<u64>());
        let pair: (u64, u64) = seed.into();
        assert_eq!(pair, { rng }.gen::<(u64, u64)>());
        let four: (u64, u64, u64, u64) = seed.into();
        assert_eq!(four, { rng }.gen::<(u64, u64, u64, u64)>());
        let wide: std::primitive::u128 = seed.into();
        assert_eq!(u128::from_built_in(wide), u128::from_parts(pair.0, pair.1));

        assert_eq!(scalar, output((s0, s1)));
        assert_eq!(pair.1, output(advance((s0, s1))));
    }
}

#[test]
fn seeds_are_drawn_as_from_a_cached_generator() {
    let start = [1351711881508350358u64, 5363735051879948310u64];
    let mut generator = SeedGenerator::seeded(Seed::with_state(start[0], start[1]).unwrap());
    let mut cache = Xoroshiro128Rng::from_seed(start);
    for _ in 0..1000 {
        let as_it_was = cache;
        let mut copy = cache;
        cache = Xoroshiro128Rng::from_seed(copy.gen::<[u64; 2]>());
        let mut handed_out = as_it_was;
        let expected: (u64, u64) = handed_out.gen();
        let drawn: (u64, u64) = Seed::gen(&mut generator).unwrap().into();
        assert_eq!(drawn, expected);
    }
}

#[test]
fn seed_gives_the_numbers_of_the_generator() {
    let s = Seed::with_state(5650102928090295972, 17420836048801662228).unwrap();
    let first: u64 = s.into();
    assert_eq!(first, 4624194903182406584);
    let pair: (u64, u64) = s.into();
    assert_eq!(pair, (4624194903182406584, 5756346560873380795));
    let four: (u64, u64, u64, u64) = s.into();
    assert_eq!(
        four,
        (4624194903182406584, 5756346560873380795, 7376054627823608796, 3996356942178629003)
    );
    let wide: std::primitive::u128 = s.into();
    assert_eq!(wide, (4624194903182406584 << 64) | 5756346560873380795);
    assert_eq!(u128::from_built_in(wide).high64(), 4624194903182406584);
    assert_eq!(u128::from_built_in(wide).low64(), 5756346560873380795);
    let narrow: u32 = s.into();
    assert_eq!(narrow, 4624194903182406584u64 as u32);
}

#[test]
fn next_moves_the_seed_on() {
    let start = (8263089075428235975u64, 10558719894691730741u64);
    let mut s = Seed::with_state(start.0, start.1).unwrap();
    assert_eq!(s.next_u64(), 375064896410415100);
    assert_eq!(s.next_u64(), 8741029882853060434);
    assert_eq!(s.next_u32(), 6810037425717292853u64 as u32);
    let after: u64 = s.into();
    assert_eq!(after, output(advance(advance(advance(start)))));
    assert_eq!(after, 10678844165112007855);
}

#[test]
fn zero_state_is_refused() {
    assert_eq!(Seed::with_state(0, 0).err(), Some(SeedError::ZeroState));
    assert!(Seed::with_state(0, 1).is_ok());
    assert!(Seed::with_state(1, 0).is_ok());
}

#[test]
fn draw_reseeds_the_cache_and_hands_out_what_it_was() {
    let start = (10153033294827982782u64, 13920680118409910798u64);
    let mut cached = Seed::with_state(start.0, start.1).unwrap();
    let seed = cached.draw().unwrap();
    let a = output(start);
    let b = output(advance(start));
    assert_eq!(a, 5626969339528341964);
    assert_eq!(b, 6861565644141147463);
    let from_cache: u64 = cached.into();
    assert_eq!(from_cache, a.wrapping_add(b));
    let from_seed: (u64, u64) = seed.into();
    assert_eq!(from_seed, (a, b));
    let again: (u64, u64) = Seed::with_state(start.0, start.1).unwrap().into();
    assert_eq!(from_seed, again);
}

#[test]
fn gen_on_a_seeded_generator_is_determined() {
    let start = (9059248767018880702u64, 13765745993972280827u64);
    let mut one = SeedGenerator::seeded(Seed::with_state(start.0, start.1).unwrap());
    let mut other = SeedGenerator::seeded(Seed::with_state(start.0, start.1).unwrap());
    assert!(one.is_seeded());
    for _ in 0..100 {
        let a: u64 = Seed::gen(&mut one).unwrap().into();
        let b: u64 = Seed::gen(&mut other).unwrap().into();
        assert_eq!(a, b);
    }
    let first: u64 = Seed::gen(&mut SeedGenerator::seeded(
        Seed::with_state(start.0, start.1).unwrap(),
    ))
    .unwrap()
    .into();
    assert_eq!(first, 4378250687281609913);
}

#[test]
fn gen_fills_an_empty_generator_once() {
    let mut generator = SeedGenerator::new();
    assert!(!generator.is_seeded());
    assert!(Seed::gen(&mut generator).is_ok());
    assert!(generator.is_seeded());
}

#[test]
fn ten_thousand_seeds_without_a_duplicate() {
    let mut generator = SeedGenerator::new();
    let mut seen = std::collections::HashSet::new();
    for _ in 0..10_000 {
        let scalar: u64 = Seed::gen(&mut generator).unwrap().into();
        assert!(seen.insert(scalar));
    }
    assert_eq!(seen.len(), 10_000);
}

#[test]
fn a_cache_that_cannot_be_reseeded_stays_as_it_is() {
    let state = [0x007f_e001_fff8_0200u64, 0xff80_1ffe_0007_fe00u64];
    assert_eq!(Xoroshiro128Rng::from_seed(state).gen::<[u64; 2]>(), [0, 0]);

    let mut cached = Seed::with_state(state[0], state[1]).unwrap();
    assert_eq!(cached.draw().err(), Some(SeedError::ZeroState));
    let next: (u64, u64) = cached.into();
    assert_eq!(next, (0, 0));
    assert_eq!(cached.draw().err(), Some(SeedError::ZeroState));

    let mut generator = SeedGenerator::seeded(cached);
    assert_eq!(Seed::gen(&mut generator).err(), Some(SeedError::ZeroState));
    assert!(generator.is_seeded());
    assert_eq!(Seed::gen(&mut generator).err(), Some(SeedError::ZeroState));
}

#[test]
fn the_next_seed_repeats_a_scalar_only_after_a_zero() {
    let start = (0xade9_90f0_abf7_cb12u64, 1u64);
    assert_eq!(output(start), 0xade9_90f0_abf7_cb13);
    assert_eq!(output(advance(start)), 0);
    let mut generator = SeedGenerator::seeded(Seed::with_state(start.0, start.1).unwrap());
    let first: u64 = Seed::gen(&mut generator).unwrap().into();
    let second: u64 = Seed::gen(&mut generator).unwrap().into();
    assert_eq!(first, 0xade9_90f0_abf7_cb13);
    assert_eq!(second, first);

    let usual = (5650102928090295972u64, 17420836048801662228u64);
    let mut generator = SeedGenerator::seeded(Seed::with_state(usual.0, usual.1).unwrap());
    let first: u64 = Seed::gen(&mut generator).unwrap().into();
    let second: u64 = Seed::gen(&mut generator).unwrap().into();
    assert_eq!(first, 4624194903182406584);
    assert_eq!(second, 4624194903182406584u64.wrapping_add(5756346560873380795));
    assert_ne!(first, second);
}
