use z_buffer_game::generator::{classify, generate_map, GeneratedWorld};
use z_buffer_game::location::Location;
use z_buffer_game::noise;
use z_buffer_game::object::VisibleObject;
use z_buffer_game::probability::{ProbabilityTable, ProbabilityTableError};
use z_buffer_game::rectangle::Rectangle;
use z_buffer_game::rng::{sub_seed_of, SeedChain};

#[test]
fn seed_chain_derivation_is_deterministic_and_ordered() {
    let first = SeedChain::derive(987_654);
    let second = SeedChain::derive(987_654);
    assert_eq!(first, second);

    let other = SeedChain::derive(987_655);
    assert_ne!(first, other);

    let distinct = [
        first.ground_noise,
        first.placement,
        first.size,
        first.selection,
    ];
    for i in 0..distinct.len() {
        for j in (i + 1)..distinct.len() {
            assert_ne!(distinct[i], distinct[j]);
        }
    }
}

#[test]
fn generator_steps_follow_the_congruential_formula() {
    let mut prng = z_buffer_game::rng::Prng::new(0);
    assert_eq!(1_013_904_223, prng.next_u32());

    let mut seeded = z_buffer_game::rng::Prng::new(987_654);
    assert_eq!(16_204_205, seeded.next_u32());

    let chain = SeedChain::derive(987_654);
    assert_eq!(16_204_205, chain.ground_noise);
    assert_eq!(923_612_968, chain.placement);
    assert_eq!(2_935_795_815, chain.size);
    assert_eq!(127_660_698, chain.selection);
}

#[test]
fn noise_samples_match_the_lattice_blend() {
    assert_eq!(267_188, noise::sample(1, Location::new(0, 0)));
    assert_eq!(214_561, noise::sample(1, Location::new(3, -5)));
    assert_eq!(487_784, noise::sample(42, Location::new(100, 200)));
}

#[test]
fn probability_table_rejects_an_empty_distribution() {
    let empty: Vec<(u32, u8)> = Vec::new();
    assert_eq!(
        Err(ProbabilityTableError::WeightsDoNotSumToOne),
        ProbabilityTable::new(empty).map(|_| ())
    );
}

#[test]
fn sub_seed_mapping_is_total_at_the_boundaries() {
    assert_eq!(0, sub_seed_of(i32::MIN));
    assert_eq!(u32::MAX, sub_seed_of(i32::MAX));
    assert_eq!(0x8000_0000, sub_seed_of(0));
    assert_eq!(0x7FFF_FFFF, sub_seed_of(-1));
}

#[test]
fn noise_samples_are_deterministic_and_in_range() {
    let seed = 1_234_567;
    for x in -20..20i32 {
        for y in -20..20i32 {
            let loc = Location::new(x * 97, y * 31);
            let a = noise::sample(seed, loc);
            let b = noise::sample(seed, loc);
            assert_eq!(a, b);
            assert!(a <= noise::NOISE_ONE);
        }
    }
}

#[test]
fn probability_table_rejects_half_and_excess_sums() {
    // Weights summing to one half.
    let half = vec![(200_000u32, 'a'), (300_000, 'b')];
    assert_eq!(
        Err(ProbabilityTableError::WeightsDoNotSumToOne),
        ProbabilityTable::new(half).map(|_| ())
    );
    // Weights summing to one and a half.
    let excess = vec![(700_000u32, 'a'), (800_000, 'b')];
    assert_eq!(
        Err(ProbabilityTableError::WeightsDoNotSumToOne),
        ProbabilityTable::new(excess).map(|_| ())
    );
}

#[test]
fn probability_table_rejects_a_weight_above_one() {
    let bad = vec![(1_000_001u32, 'a')];
    assert_eq!(
        Err(ProbabilityTableError::WeightOutOfRange),
        ProbabilityTable::new(bad).map(|_| ())
    );
}

#[test]
fn probability_table_picks_by_cumulative_weight() {
    // Weights of one fifth, seven twentieths and nine twentieths sum to
    // exactly one.
    let table =
        ProbabilityTable::new(vec![(200_000u32, 1u8), (350_000, 2), (450_000, 3)]).unwrap();
    // A draw of one tenth falls in the first bracket.
    assert_eq!(1, table.pick(100_000));
    // A draw just short of one falls in the last bracket.
    assert_eq!(3, table.pick(999_000));
    assert_eq!(2, table.pick(300_000));
}

#[test]
fn classification_threshold_splits_soil_from_grass() {
    // A noise stub reading of six tenths classifies every cell of a four
    // by four rectangle as soil.
    let rect = Rectangle::centered_around(Location::origin(), 4, 4);
    for loc in rect.locations() {
        assert!(rect.contains(loc));
        assert_eq!(VisibleObject::Soil, classify(600_000));
    }
    // A reading of four tenths classifies every cell as grass.
    for _loc in rect.locations() {
        assert_eq!(VisibleObject::Grass, classify(400_000));
    }
    // The threshold itself is not above the threshold.
    assert_eq!(VisibleObject::Grass, classify(500_000));
    assert_eq!(VisibleObject::Soil, classify(500_001));
}

#[test]
fn generation_runs_are_bit_identical() {
    let boundaries = Rectangle::centered_around(Location::origin(), 48, 32);
    let first: GeneratedWorld = generate_map(24_601, boundaries);
    let second: GeneratedWorld = generate_map(24_601, boundaries);
    assert_eq!(first.boundaries, second.boundaries);
    assert_eq!(first.ground, second.ground);
    assert_eq!(first.objects, second.objects);
}

#[test]
fn end_to_end_generation_of_the_standard_world() {
    let boundaries = Rectangle::centered_around(Location::origin(), 64, 64);
    let world = generate_map(987_654, boundaries);

    // Exactly one ground classification per cell, in row-major order,
    // each one of the two ground kinds.
    assert_eq!(4096, world.ground.len());
    let locations = boundaries.locations();
    for (i, (loc, kind)) in world.ground.iter().enumerate() {
        assert_eq!(locations[i], *loc);
        assert!(*kind == VisibleObject::Grass || *kind == VisibleObject::Soil);
    }
    let soil = world
        .ground
        .iter()
        .filter(|(_, k)| *k == VisibleObject::Soil)
        .count();
    assert!(soil > 0 && soil < 4096);

    // A non-empty but bounded set of objects, all inside the rectangle,
    // pairwise separated by more than twice the object radius.
    assert!(!world.objects.is_empty());
    assert!(world.objects.len() <= 100);
    let min_separation_sq = 100i64;
    for (i, object) in world.objects.iter().enumerate() {
        assert!(boundaries.contains(object.location));
        assert!(
            object.object == VisibleObject::Rock || object.object == VisibleObject::TreeTrunk
        );
        if object.object == VisibleObject::TreeTrunk {
            assert!(2 <= object.size && object.size <= 5);
        } else {
            assert_eq!(1, object.size);
        }
        assert_eq!(1, object.z_index);
        for other in &world.objects[(i + 1)..] {
            let dx = i64::from(object.location.x) - i64::from(other.location.x);
            let dy = i64::from(object.location.y) - i64::from(other.location.y);
            assert!(dx * dx + dy * dy > min_separation_sq);
        }
    }

    // Bit-identical across two runs with the same seed.
    let again = generate_map(987_654, boundaries);
    assert_eq!(world.ground, again.ground);
    assert_eq!(world.objects, again.objects);
}

#[test]
fn visible_objects_parse_from_their_names() {
    assert_eq!(VisibleObject::Grass, "Grass".parse().unwrap());
    assert_eq!(VisibleObject::Rock, "Rock".parse().unwrap());
    assert_eq!(VisibleObject::Soil, "Soil".parse().unwrap());
    assert_eq!(VisibleObject::TreeTrunk, "TreeTrunk".parse().unwrap());
    assert_eq!(VisibleObject::TreeFoilage, "TreeFoilage".parse().unwrap());
    let unknown = "Lava".parse::<VisibleObject>();
    match unknown {
        Ok(_) => panic!("an unknown name must not parse"),
        Err(e) => assert_eq!("Lava", e.0),
    }
}
