use pumpkin_core::generation::{get_world_gen, GlobalRandomConfig, Seed, VanillaGenerator};
use pumpkin_core::dimension::Dimension;
use pumpkin_core::random::{LegacyRand, RandomDeriver, RandomSource};

fn stream(mut source: RandomSource, n: usize) -> Vec<u64> {
    let mut out = Vec::new();
    for _ in 0..n {
        out.push(source.next_u64());
    }
    out
}

#[test]
fn split_string_is_path_independent() {
    // Deriving "minecraft:ore" before "minecraft:aquifer" must not change the
    // aquifer stream.
    let config = GlobalRandomConfig::new(12345, false);
    let base = config.base_random_deriver();
    let with_ore_first = {
        let _ore = base.split_string("minecraft:ore");
        base.split_string("minecraft:aquifer")
    };
    let alone = base.split_string("minecraft:aquifer");
    assert_eq!(stream(with_ore_first, 16), stream(alone, 16));
}

#[test]
fn split_string_differs_by_path() {
    let config = GlobalRandomConfig::new(7, false);
    let base = config.base_random_deriver();
    let a = stream(base.split_string("minecraft:aquifer"), 4);
    let b = stream(base.split_string("minecraft:ore"), 4);
    assert_ne!(a, b);
}

#[test]
fn global_config_same_seed_same_derivers() {
    let a = GlobalRandomConfig::new(42, true);
    let b = GlobalRandomConfig::new(42, true);
    assert_eq!(a.base_random_deriver(), b.base_random_deriver());
    assert_eq!(a.aquifer_random_deriver(), b.aquifer_random_deriver());
    assert_eq!(a.ore_random_deriver(), b.ore_random_deriver());
    let c = GlobalRandomConfig::new(43, true);
    assert_ne!(a.base_random_deriver(), c.base_random_deriver());
}

#[test]
fn legacy_and_modern_algorithms_differ() {
    let legacy = GlobalRandomConfig::new(9, true);
    let modern = GlobalRandomConfig::new(9, false);
    assert_ne!(legacy.base_random_deriver(), modern.base_random_deriver());
}

fn xoroshiro_output(lo: u64, hi: u64) -> u64 {
    let sum = lo.wrapping_add(hi);
    ((sum << 17) | (sum >> 47)).wrapping_add(lo)
}

#[test]
fn split_string_uses_the_digest_of_the_path() {
    // The digest of the empty string is d41d8cd98f00b204e9800998ecf8427e, so a
    // zero-seeded splitter must seed the derived stream with exactly those two
    // halves. This fails if the digest wrapper hands anything else back.
    let deriver = RandomDeriver::Xoroshiro { lo: 0, hi: 0 };
    let mut derived = deriver.split_string("");
    let expected = xoroshiro_output(0xd41d8cd98f00b204, 0xe9800998ecf8427e);
    assert_eq!(derived.next_u64(), expected);
}

#[test]
fn legacy_split_string_uses_the_string_hash() {
    // Java-style hash of "a" is 97; the derived legacy state is the scramble
    // of 97 ^ seed.
    let deriver = RandomDeriver::Legacy { seed: 0 };
    let derived = deriver.split_string("a");
    let expected = LegacyRand::from_seed(97);
    match derived {
        RandomSource::Legacy(l) => assert_eq!(l.state, expected.state),
        _ => panic!("legacy deriver must yield a legacy stream"),
    }
}

#[test]
fn split_by_position_is_deterministic() {
    let deriver = RandomDeriver::Xoroshiro { lo: 11, hi: 22 };
    let a = stream(deriver.split(1, 2, 3), 8);
    let b = stream(deriver.split(1, 2, 3), 8);
    let c = stream(deriver.split(1, 2, 4), 8);
    assert_eq!(a, b);
    assert_ne!(a, c);
}

#[test]
fn bounded_draw_is_below_the_bound() {
    let deriver = RandomDeriver::Legacy { seed: 5 };
    let mut source = deriver.split(0, 0, 0);
    for _ in 0..50 {
        assert!(source.next_bounded_u32(7) < 7);
    }
}

#[test]
fn world_gen_is_a_pure_function_of_seed_and_dimension() {
    let a: VanillaGenerator = get_world_gen(Seed(3), Dimension::Overworld);
    let b: VanillaGenerator = get_world_gen(Seed(3), Dimension::Overworld);
    assert_eq!(a.random_config.seed(), b.random_config.seed());
    assert_eq!(a.random_config.base_random_deriver(), b.random_config.base_random_deriver());
    assert_eq!(a.settings.sea_level, 63);
    assert!(a.settings.aquifers_enabled);
    assert!(a.settings.ore_veins_enabled);
    assert_eq!(a.settings.shape.min_y, -64);
    assert_eq!(a.settings.shape.height, 384);
}
