use earth::{AddCity, AddForest, Biome, EarthRng, GridVec, LastGenerationSeed, TileRequest, WorldGenerator};

fn cube(v: GridVec) -> (i32, i32, i32) {
    (v.cube_x(), v.cube_y(), v.cube_z())
}

const ANCHORS: [(i32, i32, i32); 7] = [(0, 0, 0), (2, -3, 1), (3, -1, -2), (1, 2, -3), (-1, -2, 3), (-2, 3, -1), (-3, 1, 2)];

#[test]
fn no_request_no_work() {
    let mut gen = WorldGenerator::new();
    let mut rng = EarthRng::with_seed(77);
    assert!(!gen.is_requested());
    assert!(gen.generate(&mut rng).is_none());
    assert_eq!(rng.get_seed(), 77);
}

#[test]
fn one_request_one_world() {
    let mut gen = WorldGenerator::new();
    let mut rng = EarthRng::with_seed(77);
    gen.request();
    assert!(gen.is_requested());
    let world = gen.generate(&mut rng).expect("requested");
    assert_eq!(world.seed, LastGenerationSeed(77));
    assert!(!gen.is_requested());
    let after = rng.get_seed();
    assert!(gen.generate(&mut rng).is_none());
    assert_eq!(rng.get_seed(), after);
}

#[test]
fn clusters_follow_anchor_order_and_draws() {
    let seed = 424242;
    let mut gen = WorldGenerator::new();
    let mut rng = EarthRng::with_seed(seed);
    gen.request();
    let world = gen.generate(&mut rng).unwrap();
    let reference = fastrand::Rng::with_seed(seed);
    assert_eq!(world.clusters.len(), 7);
    for (k, cluster) in world.clusters.iter().enumerate() {
        assert_eq!(cube(cluster.anchor), ANCHORS[k]);
        let expected = match reference.usize(1..=3) {
            1 => Biome::City,
            2 => Biome::Ocean,
            _ => Biome::Forest,
        };
        assert_eq!(cluster.biome, expected);
        let mut cells = vec![cluster.anchor];
        cells.extend(cluster.anchor.neighbors());
        assert_eq!(cluster.requests.len(), 7);
        let layouts = [1, 0, 0, 5, 5, 5, 5];
        for (j, request) in cluster.requests.iter().enumerate() {
            assert_eq!(request.grid_position(), cells[j]);
            let want = match cluster.biome {
                Biome::City => TileRequest::City(AddCity { layout: layouts[j], grid_position: cells[j] }),
                Biome::Ocean => TileRequest::Ocean { grid_position: cells[j] },
                Biome::Forest => TileRequest::Forest(AddForest { grid_position: cells[j] }),
            };
            assert_eq!(*request, want);
        }
    }
    assert_eq!(rng.get_seed(), reference.get_seed());
}

#[test]
fn fixed_seed_gives_identical_worlds() {
    for seed in [0u64, 1, 99, 123456789, u64::MAX] {
        let mut runs = Vec::new();
        for _ in 0..2 {
            let mut gen = WorldGenerator::new();
            let mut rng = EarthRng::with_seed(seed);
            gen.request();
            let world = gen.generate(&mut rng).unwrap();
            let plan: Vec<(GridVec, Biome, Vec<TileRequest>)> =
                world.clusters.iter().map(|c| (c.anchor, c.biome, c.requests.clone())).collect();
            runs.push((world.seed, plan, rng.get_seed()));
        }
        assert_eq!(runs[0], runs[1]);
    }
}

#[test]
fn seeds_vary_the_biomes() {
    let mut seen = Vec::new();
    for seed in 0..20u64 {
        let mut gen = WorldGenerator::new();
        let mut rng = EarthRng::with_seed(seed);
        gen.request();
        let world = gen.generate(&mut rng).unwrap();
        for c in world.clusters.iter() {
            if !seen.contains(&c.biome) {
                seen.push(c.biome);
            }
        }
    }
    assert_eq!(seen.len(), 3);
}
