use meadowland::biomes::{Biome, Biomes, UNMATCHED};
use meadowland::game_world::{GameState, GameWorld};
use meadowland::map_generation::{
    check_map_generation_finished, classify_cell, start_map_generation, start_with_fields,
    start_with_seeds, CellSamples, GenerationError, MapGenerationCell, MapGenerationJob,
    MapGenerationTask, NoiseFields, StartError, TaskStatus,
};
use meadowland::noise_field::MapGenerationWave;
use meadowland::tileset::{TextureChoice, Tile, TilesetError};
use noise::{NoiseFn, OpenSimplex};
use rand::rngs::StdRng;
use rand::SeedableRng;

fn biome(name: &str, min_height: i32, min_moisture: i32, min_heat: i32) -> Biome {
    Biome {
        name: name.to_string(),
        movement_modifier: 1_000_000,
        min_height,
        min_moisture,
        min_heat,
    }
}

fn catalog(biomes: Vec<Biome>) -> Biomes {
    Biomes { biomes }
}

fn samples(height: [i32; 2], moisture: [i32; 1], heat: [i32; 2]) -> CellSamples {
    CellSamples {
        height: height.to_vec(),
        moisture: moisture.to_vec(),
        heat: heat.to_vec(),
    }
}

fn world(width: u32, height: u32) -> GameWorld {
    GameWorld::with_rng(width, height, StdRng::seed_from_u64(2024))
}

fn started(biomes: &Biomes, width: u32, height: u32) -> (MapGenerationTask, MapGenerationJob) {
    let mut task = MapGenerationTask::new();
    let job = start_with_seeds(&mut task, Some(biomes), width, height, [1, 2, 3, 4, 5]).unwrap();
    (task, job)
}

fn sample_world(job: &MapGenerationJob) -> Vec<CellSamples> {
    let sample = |waves: &Vec<MapGenerationWave>, x: u32, y: u32| -> Vec<i32> {
        waves
            .iter()
            .map(|wave| {
                let (px, py) = wave.sample_point(x, y);
                let value = OpenSimplex::new(wave.seed)
                    .get([px as f64 / 1_000_000.0, py as f64 / 1_000_000.0]);
                (value * 1_000_000.0).round() as i32
            })
            .collect()
    };
    let mut all = Vec::new();
    for index in 0..job.cell_count() {
        let (x, y) = job.position_of(index).unwrap();
        all.push(CellSamples {
            height: sample(&job.fields().height, x, y),
            moisture: sample(&job.fields().moisture, x, y),
            heat: sample(&job.fields().heat, x, y),
        });
    }
    all
}

#[test]
fn cell_guard_tells_matched_from_unmatched() {
    assert_eq!(MapGenerationCell { height: 5, biome_index: 3 }.biome(), Some(3));
    assert_eq!(MapGenerationCell { height: 5, biome_index: 0 }.biome(), Some(0));
    assert_eq!(MapGenerationCell { height: 5, biome_index: UNMATCHED }.biome(), None);
    assert_eq!(MapGenerationCell { height: 5, biome_index: i32::MIN }.biome(), None);
    assert_eq!(
        MapGenerationCell { height: 5, biome_index: i32::MAX }.biome(),
        Some(i32::MAX as usize)
    );
}

#[test]
fn game_fields_follow_the_wave_table() {
    let fields = NoiseFields::with_seeds([11, 12, 13, 14, 15]);
    assert_eq!(
        fields.height,
        vec![
            MapGenerationWave { frequency: 4_000, amplitude: 1_000_000, seed: 11 },
            MapGenerationWave { frequency: 20_000, amplitude: 500_000, seed: 12 },
        ]
    );
    assert_eq!(
        fields.moisture,
        vec![MapGenerationWave { frequency: 20_000, amplitude: 1_000_000, seed: 13 }]
    );
    assert_eq!(
        fields.heat,
        vec![
            MapGenerationWave { frequency: 20_000, amplitude: 1_000_000, seed: 14 },
            MapGenerationWave { frequency: 10_000, amplitude: 500_000, seed: 15 },
        ]
    );
    assert!(fields.is_audible());
}

#[test]
fn fields_without_amplitude_are_not_audible() {
    let mut fields = NoiseFields::with_seeds([1, 2, 3, 4, 5]);
    fields.moisture[0].amplitude = 0;
    assert!(!fields.is_audible());
    let mut fields = NoiseFields::with_seeds([1, 2, 3, 4, 5]);
    fields.heat.clear();
    assert!(!fields.is_audible());
}

#[test]
fn cell_is_classified_from_its_three_composites() {
    let biomes = vec![
        biome("B1", 400_000, 400_000, 400_000),
        biome("B2", 100_000, 100_000, 100_000),
    ];
    let fields = NoiseFields::with_seeds([1, 2, 3, 4, 5]);
    // height (0.6 * 1.0 + 0.3 * 0.5) / 1.5 = 0.5, moisture 0.5, heat (0.4 + 0.35) / 1.5 = 0.5
    let cell = classify_cell(
        &biomes,
        &fields,
        &samples([600_000, 300_000], [500_000], [400_000, 700_000]),
    );
    assert_eq!(cell, Some(MapGenerationCell { height: 500_000, biome_index: 0 }));
    // moisture 0.3 rules B1 out
    let cell = classify_cell(
        &biomes,
        &fields,
        &samples([600_000, 300_000], [300_000], [400_000, 700_000]),
    );
    assert_eq!(cell, Some(MapGenerationCell { height: 500_000, biome_index: 1 }));
    // heat below every minimum
    let cell = classify_cell(
        &biomes,
        &fields,
        &samples([600_000, 300_000], [300_000], [-400_000, 0]),
    );
    assert_eq!(cell, Some(MapGenerationCell { height: 500_000, biome_index: UNMATCHED }));
}

#[test]
fn cell_needs_one_output_per_wave() {
    let biomes = vec![biome("B", 0, 0, 0)];
    let fields = NoiseFields::with_seeds([1, 2, 3, 4, 5]);
    let short = CellSamples { height: vec![1], moisture: vec![1], heat: vec![1, 2] };
    assert_eq!(classify_cell(&biomes, &fields, &short), None);
    let long = CellSamples { height: vec![1, 2], moisture: vec![1, 2], heat: vec![1, 2] };
    assert_eq!(classify_cell(&biomes, &fields, &long), None);
    let short = CellSamples { height: vec![1, 2], moisture: vec![1], heat: Vec::new() };
    assert_eq!(classify_cell(&biomes, &fields, &short), None);
}

#[test]
fn start_captures_dimensions_catalog_and_fields() {
    let mut biomes = catalog(vec![biome("a", 0, 0, 0), biome("b", 1, 2, 3)]);
    let (task, job) = started(&biomes, 7, 3);
    assert_eq!(task.status(), TaskStatus::Running);
    assert_eq!(job.width(), 7);
    assert_eq!(job.height(), 3);
    assert_eq!(job.cell_count(), 21);
    assert_eq!(job.biomes().len(), 2);
    assert_eq!(job.biomes()[1].name, "b");
    assert_eq!(job.biomes()[1].min_heat, 3);
    assert_eq!(job.fields().height[0].seed, 1);
    assert_eq!(job.fields().heat[1].seed, 5);
    // later changes to the catalog do not reach the job
    biomes.biomes[1].min_heat = 999;
    biomes.biomes.clear();
    assert_eq!(job.biomes().len(), 2);
    assert_eq!(job.biomes()[1].min_heat, 3);
}

#[test]
fn start_map_generation_uses_the_world_dimensions() {
    let biomes = catalog(vec![biome("a", 0, 0, 0)]);
    let mut game_world = world(5, 4);
    let mut task = MapGenerationTask::new();
    let job = start_map_generation(&mut task, Some(&biomes), &game_world).unwrap();
    assert_eq!(task.status(), TaskStatus::Running);
    assert_eq!((job.width(), job.height()), (5, 4));
    assert_eq!(job.fields().height.len(), 2);
    assert_eq!(job.fields().moisture.len(), 1);
    assert_eq!(job.fields().heat.len(), 2);
    assert_eq!(job.fields().height[0].frequency, 4_000);
    assert_eq!(job.fields().heat[1].amplitude, 500_000);
    // the job keeps the dimensions it was started with
    game_world = world(50, 40);
    assert_eq!(game_world.width(), 50);
    assert_eq!((job.width(), job.height()), (5, 4));
}

#[test]
fn start_draws_fresh_seeds() {
    let biomes = catalog(vec![biome("a", 0, 0, 0)]);
    let game_world = world(1, 1);
    let mut seeds = std::collections::BTreeSet::new();
    for _ in 0..4 {
        let mut task = MapGenerationTask::new();
        let job = start_map_generation(&mut task, Some(&biomes), &game_world).unwrap();
        for wave in job.fields().height.iter().chain(job.fields().moisture.iter()) {
            seeds.insert(wave.seed);
        }
        for wave in job.fields().heat.iter() {
            seeds.insert(wave.seed);
        }
    }
    assert!(seeds.len() > 10);
}

#[test]
fn start_without_catalog_is_refused() {
    let mut task = MapGenerationTask::new();
    assert_eq!(
        start_with_seeds(&mut task, None, 2, 2, [0; 5]).err(),
        Some(StartError::BiomesNotLoaded)
    );
    assert_eq!(task.status(), TaskStatus::Idle);
    assert_eq!(
        start_map_generation(&mut task, None, &world(2, 2)).err(),
        Some(StartError::BiomesNotLoaded)
    );
    assert_eq!(task.status(), TaskStatus::Idle);
}

#[test]
fn start_with_empty_catalog_is_refused() {
    let mut task = MapGenerationTask::new();
    let empty = catalog(Vec::new());
    assert_eq!(
        start_with_seeds(&mut task, Some(&empty), 2, 2, [0; 5]).err(),
        Some(StartError::EmptyCatalog)
    );
    assert_eq!(task.status(), TaskStatus::Idle);
}

#[test]
fn second_start_is_refused() {
    let biomes = catalog(vec![biome("a", 0, 0, 0)]);
    let (mut task, _job) = started(&biomes, 2, 2);
    assert_eq!(
        start_with_seeds(&mut task, Some(&biomes), 2, 2, [0; 5]).err(),
        Some(StartError::TaskNotIdle)
    );
    assert_eq!(task.status(), TaskStatus::Running);
    // the task's state is looked at first
    assert_eq!(
        start_with_seeds(&mut task, None, 2, 2, [0; 5]).err(),
        Some(StartError::TaskNotIdle)
    );
    assert!(task.complete(vec![MapGenerationCell { height: 0, biome_index: 0 }; 4]));
    assert_eq!(
        start_with_seeds(&mut task, Some(&biomes), 2, 2, [0; 5]).err(),
        Some(StartError::TaskNotIdle)
    );
    assert_eq!(task.status(), TaskStatus::Completed);
    assert!(task.try_take().is_some());
    assert_eq!(
        start_with_seeds(&mut task, Some(&biomes), 2, 2, [0; 5]).err(),
        Some(StartError::TaskNotIdle)
    );
    assert_eq!(task.status(), TaskStatus::Consumed);
}

#[test]
fn start_with_silent_field_is_refused() {
    let biomes = catalog(vec![biome("a", 0, 0, 0)]);
    let mut task = MapGenerationTask::new();
    let mut fields = NoiseFields::with_seeds([1, 2, 3, 4, 5]);
    fields.heat[0].amplitude = 0;
    fields.heat[1].amplitude = 0;
    assert_eq!(
        start_with_fields(&mut task, Some(&biomes), 2, 2, fields).err(),
        Some(StartError::SilentField)
    );
    assert_eq!(task.status(), TaskStatus::Idle);
    // the catalog is looked at before the fields
    let fields = NoiseFields { height: Vec::new(), moisture: Vec::new(), heat: Vec::new() };
    assert_eq!(
        start_with_fields(&mut task, None, 2, 2, fields).err(),
        Some(StartError::BiomesNotLoaded)
    );
}

#[test]
fn start_with_own_fields_keeps_them() {
    let biomes = catalog(vec![biome("a", 0, 0, 0)]);
    let mut task = MapGenerationTask::new();
    let one = |seed: u32| vec![MapGenerationWave { frequency: 50_000, amplitude: 7, seed }];
    let fields = NoiseFields { height: one(1), moisture: one(2), heat: one(3) };
    let job = start_with_fields(&mut task, Some(&biomes), 3, 1, fields).unwrap();
    assert_eq!(job.fields().height, one(1));
    assert_eq!(job.fields().moisture, one(2));
    assert_eq!(job.fields().heat, one(3));
    assert_eq!(job.cell_count(), 3);
}

#[test]
fn positions_run_row_by_row() {
    let biomes = catalog(vec![biome("a", 0, 0, 0)]);
    let (_task, job) = started(&biomes, 3, 2);
    let positions: Vec<Option<(u32, u32)>> = (0..7).map(|i| job.position_of(i)).collect();
    assert_eq!(
        positions,
        vec![
            Some((0, 0)),
            Some((1, 0)),
            Some((2, 0)),
            Some((0, 1)),
            Some((1, 1)),
            Some((2, 1)),
            None,
        ]
    );
    let (_task, empty) = started(&biomes, 0, 9);
    assert_eq!(empty.cell_count(), 0);
    assert_eq!(empty.position_of(0), None);
}

#[test]
fn run_computes_every_cell() {
    let biomes = catalog(vec![
        biome("B1", 400_000, 400_000, 400_000),
        biome("B2", 100_000, 100_000, 100_000),
    ]);
    let (_task, job) = started(&biomes, 2, 2);
    let grid = job
        .run(&vec![
            samples([600_000, 300_000], [500_000], [400_000, 700_000]),
            samples([600_000, 300_000], [300_000], [400_000, 700_000]),
            samples([0, 0], [0], [0, 0]),
            samples([900_000, 900_000], [450_000], [450_000, 450_000]),
        ])
        .unwrap();
    assert_eq!(
        grid,
        vec![
            MapGenerationCell { height: 500_000, biome_index: 0 },
            MapGenerationCell { height: 500_000, biome_index: 1 },
            MapGenerationCell { height: 0, biome_index: UNMATCHED },
            MapGenerationCell { height: 900_000, biome_index: 0 },
        ]
    );
}

#[test]
fn run_rejects_samples_of_the_wrong_shape() {
    let biomes = catalog(vec![biome("a", 0, 0, 0)]);
    let (_task, job) = started(&biomes, 2, 1);
    let good = || samples([1, 2], [3], [4, 5]);
    assert_eq!(job.run(&vec![good()]).err(), Some(GenerationError::CellCount));
    assert_eq!(
        job.run(&vec![good(), good(), good()]).err(),
        Some(GenerationError::CellCount)
    );
    let bad = CellSamples { height: vec![1, 2], moisture: Vec::new(), heat: vec![4, 5] };
    assert_eq!(job.run(&vec![good(), bad]).err(), Some(GenerationError::WaveCount));
    assert!(job.run(&vec![good(), good()]).is_ok());
}

#[test]
fn task_moves_through_its_life_cycle_once() {
    let mut task = MapGenerationTask::new();
    assert_eq!(task.status(), TaskStatus::Idle);
    assert_eq!(task.try_take(), None);
    // nothing is running yet: a delivery is turned down
    assert!(!task.complete(Vec::new()));
    assert_eq!(task.status(), TaskStatus::Idle);

    let biomes = catalog(vec![biome("a", 0, 0, 0)]);
    let job = start_with_seeds(&mut task, Some(&biomes), 2, 1, [1, 2, 3, 4, 5]).unwrap();
    assert_eq!(task.status(), TaskStatus::Running);
    for _ in 0..3 {
        assert_eq!(task.try_take(), None);
        assert_eq!(task.status(), TaskStatus::Running);
    }
    // a grid of the wrong size is turned down
    assert!(!task.complete(vec![MapGenerationCell { height: 1, biome_index: 0 }]));
    assert_eq!(task.status(), TaskStatus::Running);

    let grid = job
        .run(&vec![samples([1, 2], [3], [4, 5]), samples([6, 7], [8], [9, 10])])
        .unwrap();
    assert!(task.complete(grid.clone()));
    assert_eq!(task.status(), TaskStatus::Completed);
    // a second delivery is turned down
    assert!(!task.complete(grid.clone()));
    assert_eq!(task.status(), TaskStatus::Completed);

    assert_eq!(task.try_take(), Some(grid.clone()));
    assert_eq!(task.status(), TaskStatus::Consumed);
    for _ in 0..3 {
        assert_eq!(task.try_take(), None);
        assert_eq!(task.status(), TaskStatus::Consumed);
    }
    assert!(!task.complete(grid));
    assert_eq!(task.status(), TaskStatus::Consumed);
}

#[test]
fn check_does_nothing_until_the_grid_is_there() {
    let biomes = catalog(vec![biome("a", 0, 0, 0)]);
    let textures = vec![vec![TextureChoice { texture: 3, weight: 1 }]];
    let mut game_world = world(2, 2);
    let mut state = GameState::MapGeneration;
    let mut task = MapGenerationTask::new();
    assert!(check_map_generation_finished(&mut task, &mut game_world, &textures, &mut state)
        .is_none());
    assert_eq!(task.status(), TaskStatus::Idle);
    let _job = start_with_seeds(&mut task, Some(&biomes), 2, 2, [1, 2, 3, 4, 5]).unwrap();
    for _ in 0..5 {
        assert!(check_map_generation_finished(
            &mut task,
            &mut game_world,
            &textures,
            &mut state
        )
        .is_none());
        assert_eq!(task.status(), TaskStatus::Running);
        assert_eq!(state, GameState::MapGeneration);
    }
}

#[test]
fn two_by_two_world_end_to_end() {
    let biomes = catalog(vec![biome("plain", 0, 0, 0)]);
    let textures = vec![vec![TextureChoice { texture: 3, weight: 1 }]];
    let mut game_world = world(2, 2);
    let mut state = GameState::MapGeneration;
    let mut task = MapGenerationTask::new();
    let job = start_with_seeds(&mut task, Some(&biomes), 2, 2, [1, 2, 3, 4, 5]).unwrap();
    let grid = job
        .run(&vec![
            samples([0, 0], [0], [0, 0]),
            samples([250_000, 100_000], [10], [900_000, 1]),
            samples([1, 0], [999_999], [0, 3]),
            samples([700_000, 700_000], [700_000], [700_000, 700_000]),
        ])
        .unwrap();
    assert_eq!(grid.len(), 4);
    for cell in &grid {
        assert_eq!(cell.biome_index, 0);
    }
    assert!(task.complete(grid));
    let map = check_map_generation_finished(&mut task, &mut game_world, &textures, &mut state)
        .unwrap()
        .unwrap();
    assert_eq!(map.tiles().len(), 4);
    assert_eq!(
        map.tiles(),
        &vec![
            Tile { x: 0, y: 0, texture: 3 },
            Tile { x: 1, y: 0, texture: 3 },
            Tile { x: 0, y: 1, texture: 3 },
            Tile { x: 1, y: 1, texture: 3 },
        ]
    );
    assert_eq!(map.width(), 2);
    assert_eq!(map.height(), 2);
    assert_eq!(map.tile_size(), 32);
    assert_eq!(state, GameState::Main);
    assert_eq!(task.status(), TaskStatus::Consumed);
    // the grid is handed out once
    assert!(check_map_generation_finished(&mut task, &mut game_world, &textures, &mut state)
        .is_none());
    assert_eq!(task.status(), TaskStatus::Consumed);
}

#[test]
fn rejected_grid_leaves_the_game_state() {
    let biomes = catalog(vec![biome("high", 500_000, 0, 0)]);
    let textures = vec![vec![TextureChoice { texture: 3, weight: 1 }]];
    let mut game_world = world(2, 1);
    let mut state = GameState::MapGeneration;
    let (mut task, job) = started(&biomes, 2, 1);
    let grid = job
        .run(&vec![samples([600_000, 600_000], [0], [0, 0]), samples([0, 0], [0], [0, 0])])
        .unwrap();
    assert_eq!(grid[1].biome_index, UNMATCHED);
    assert!(task.complete(grid));
    let outcome =
        check_map_generation_finished(&mut task, &mut game_world, &textures, &mut state).unwrap();
    assert_eq!(outcome.err(), Some(TilesetError::UnmatchedCell { x: 1, y: 0 }));
    assert_eq!(state, GameState::MapGeneration);
    assert_eq!(task.status(), TaskStatus::Consumed);
}

#[test]
fn world_resized_during_the_run_is_noticed() {
    let biomes = catalog(vec![biome("plain", 0, 0, 0)]);
    let textures = vec![vec![TextureChoice { texture: 3, weight: 1 }]];
    let mut state = GameState::MapGeneration;
    let (mut task, job) = started(&biomes, 1, 1);
    assert!(task.complete(job.run(&vec![samples([0, 0], [0], [0, 0])]).unwrap()));
    let mut resized = world(2, 2);
    let outcome =
        check_map_generation_finished(&mut task, &mut resized, &textures, &mut state).unwrap();
    assert_eq!(outcome.err(), Some(TilesetError::GridSizeMismatch));
    assert_eq!(state, GameState::MapGeneration);
}

#[test]
fn real_noise_runs_through_the_whole_pipeline() {
    let biomes = catalog(vec![
        biome("anything", -2_000_000, -2_000_000, -2_000_000),
        biome("upland", 0, -2_000_000, -2_000_000),
    ]);
    let textures = vec![
        vec![TextureChoice { texture: 0, weight: 1 }],
        vec![TextureChoice { texture: 1, weight: 2 }, TextureChoice { texture: 2, weight: 1 }],
    ];
    let mut game_world = world(12, 9);
    let mut state = GameState::MapGeneration;
    let mut task = MapGenerationTask::new();
    let job = start_map_generation(&mut task, Some(&biomes), &game_world).unwrap();
    let sampled = sample_world(&job);
    assert_eq!(sampled.len(), 108);
    let grid = job.run(&sampled).unwrap();
    assert_eq!(grid, job.run(&sample_world(&job)).unwrap());
    for cell in &grid {
        assert!(cell.height.abs() <= 1_000_000);
        assert_eq!(cell.biome_index, if cell.height >= 0 { 1 } else { 0 });
    }
    assert!(task.complete(grid.clone()));
    let map = check_map_generation_finished(&mut task, &mut game_world, &textures, &mut state)
        .unwrap()
        .unwrap();
    assert_eq!(state, GameState::Main);
    for (i, tile) in map.tiles().iter().enumerate() {
        assert_eq!((tile.x as usize, tile.y as usize), (i % 12, i / 12));
        if grid[i].biome_index == 0 {
            assert_eq!(tile.texture, 0);
        } else {
            assert!(tile.texture == 1 || tile.texture == 2);
        }
    }
}
