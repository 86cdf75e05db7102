//! The generation task: what is captured when a run starts, the per-cell
//! computation the worker performs, and the life cycle of the run as seen by
//! the code that polls for its result.

use crate::biomes::{best_match, classify, Biome, Biomes};
use crate::noise_field::{
    amplitude_total, composite, generate_noise_value, total_amplitude, MapGenerationWave,
};
use crate::game_world::{GameState, GameWorld};
use crate::random::random_seed;
use crate::tileset::{materializes, setup_tileset, TextureChoice, Tilemap, TilesetError};
use vstd::prelude::*;

verus! {

/// One cell of the generated grid: its height and the index of its biome in
/// the catalog, or [`crate::biomes::UNMATCHED`].
#[derive(Clone, Copy, Debug, PartialEq, Eq, Structural)]
pub struct MapGenerationCell {
    pub height: i32,
    pub biome_index: i32,
}

impl MapGenerationCell {
    /// The cell's catalog index, or `None` for a cell that no biome admitted.
    /// This is the check to make before the index is used.
    pub fn biome(&self) -> (index: Option<usize>)
        ensures
            index is Some <==> self.biome_index >= 0,
            index matches Some(i) ==> i == self.biome_index,
    {
        if self.biome_index >= 0 {
            Some(self.biome_index as usize)
        } else {
            None
        }
    }
}

/// The raw noise outputs at one cell: for each axis one output per wave of
/// that axis, in the order of the waves.
#[derive(Debug)]
pub struct CellSamples {
    pub height: Vec<i32>,
    pub moisture: Vec<i32>,
    pub heat: Vec<i32>,
}

/// The waves of the three axes.
#[derive(Debug)]
pub struct NoiseFields {
    pub height: Vec<MapGenerationWave>,
    pub moisture: Vec<MapGenerationWave>,
    pub heat: Vec<MapGenerationWave>,
}

impl NoiseFields {
    /// Whether every axis has a positive total amplitude, so that its
    /// composite value is defined.
    pub open spec fn audible(&self) -> bool {
        &&& total_amplitude(self.height@) > 0
        &&& total_amplitude(self.moisture@) > 0
        &&& total_amplitude(self.heat@) > 0
    }

    /// Whether the samples hold one output for each wave of each axis.
    pub open spec fn fit(&self, samples: CellSamples) -> bool {
        &&& samples.height@.len() == self.height@.len()
        &&& samples.moisture@.len() == self.moisture@.len()
        &&& samples.heat@.len() == self.heat@.len()
    }

    /// Whether every axis has a positive total amplitude.
    pub fn is_audible(&self) -> (audible: bool)
        ensures
            audible == self.audible(),
    {
        amplitude_total(&self.height) > 0 && amplitude_total(&self.moisture) > 0
            && amplitude_total(&self.heat) > 0
    }
}

/// The cell that the given catalog and fields produce from the raw outputs:
/// its height is the height composite, its biome the best match for the three
/// composites.
pub open spec fn cell_for(
    biomes: Seq<Biome>,
    fields: NoiseFields,
    samples: CellSamples,
) -> MapGenerationCell {
    let height = composite(fields.height@, samples.height@)->0;
    let moisture = composite(fields.moisture@, samples.moisture@)->0;
    let heat = composite(fields.heat@, samples.heat@)->0;
    MapGenerationCell {
        height: height as i32,
        biome_index: best_match(biomes, height, moisture, heat) as i32,
    }
}

/// Computes one cell from its raw noise outputs. Returns `None` when the
/// samples do not fit the fields or an axis has no amplitude.
pub fn classify_cell(
    biomes: &Vec<Biome>,
    fields: &NoiseFields,
    samples: &CellSamples,
) -> (cell: Option<MapGenerationCell>)
    requires
        biomes.len() <= i32::MAX,
    ensures
        cell is Some <==> fields.fit(*samples) && fields.audible(),
        cell matches Some(c) ==> c == cell_for(biomes@, *fields, *samples),
{
    let height_value = match generate_noise_value(&fields.height, &samples.height) {
        Some(value) => value,
        None => { return None; },
    };
    let moisture_value = match generate_noise_value(&fields.moisture, &samples.moisture) {
        Some(value) => value,
        None => { return None; },
    };
    let heat_value = match generate_noise_value(&fields.heat, &samples.heat) {
        Some(value) => value,
        None => { return None; },
    };
    let best_biome_index = classify(biomes, height_value, moisture_value, heat_value);
    Some(MapGenerationCell { height: height_value, biome_index: best_biome_index })
}

/// What a generation run was started with, as plain values.
pub struct JobModel {
    pub width: u32,
    pub height: u32,
    pub biomes: Seq<Biome>,
    pub fields: NoiseFields,
}

impl JobModel {
    /// The number of cells of the grid.
    pub open spec fn cells(&self) -> int {
        self.width * self.height
    }

    /// What every job satisfies: a catalog that is not empty and whose
    /// indices fit the cells' index field, a grid whose size fits the
    /// machine, and fields with positive amplitudes.
    pub open spec fn valid(&self) -> bool {
        &&& 1 <= self.biomes.len() <= i32::MAX
        &&& self.cells() <= usize::MAX
        &&& self.fields.audible()
    }
}

/// Why a worker's samples were turned down.
#[derive(Clone, Copy, Debug, PartialEq, Eq, Structural)]
pub enum GenerationError {
    /// The number of sampled cells is not width times height.
    CellCount,
    /// Some cell's samples do not hold one output per wave.
    WaveCount,
}

/// The snapshot a worker computes the grid from: the world's dimensions, a
/// copy of the biome catalog and the noise fields, all taken when the run
/// started. Nothing that happens to the world or the catalog later reaches it.
#[derive(Debug)]
pub struct MapGenerationJob {
    width: u32,
    height: u32,
    biomes: Vec<Biome>,
    fields: NoiseFields,
}

impl View for MapGenerationJob {
    type V = JobModel;

    closed spec fn view(&self) -> JobModel {
        JobModel {
            width: self.width,
            height: self.height,
            biomes: self.biomes@,
            fields: self.fields,
        }
    }
}

impl MapGenerationJob {
    #[verifier::type_invariant]
    spec fn well_formed(&self) -> bool {
        self@.valid()
    }

    /// The width of the grid in cells.
    pub fn width(&self) -> (width: u32)
        ensures
            width == self@.width,
    {
        self.width
    }

    /// The height of the grid in cells.
    pub fn height(&self) -> (height: u32)
        ensures
            height == self@.height,
    {
        self.height
    }

    /// The number of cells of the grid.
    pub fn cell_count(&self) -> (count: usize)
        ensures
            count == self@.cells(),
    {
        proof {
            use_type_invariant(self);
        }
        let width = self.width;
        let height = self.height;
        assert(width * height <= u64::MAX) by (nonlinear_arith)
            requires
                width <= u32::MAX,
                height <= u32::MAX,
        ;
        (width as u64 * height as u64) as usize
    }

    /// The captured catalog. It is never empty.
    pub fn biomes(&self) -> (biomes: &Vec<Biome>)
        ensures
            biomes@ == self@.biomes,
            self@.valid(),
    {
        proof {
            use_type_invariant(self);
        }
        &self.biomes
    }

    /// The captured fields. Each axis has a positive total amplitude.
    pub fn fields(&self) -> (fields: &NoiseFields)
        ensures
            *fields == self@.fields,
            self@.valid(),
    {
        proof {
            use_type_invariant(self);
        }
        &self.fields
    }

    /// The column and row of the cell stored at `index` of the row-major
    /// grid, where `index` is the row times the width plus the column.
    /// Returns `None` for an index outside the grid.
    pub fn position_of(&self, index: usize) -> (position: Option<(u32, u32)>)
        ensures
            position is Some <==> index < self@.cells(),
            position matches Some((x, y)) ==> {
                &&& x < self@.width
                &&& y < self@.height
                &&& y * self@.width + x == index
                &&& x == index as int % self@.width as int
                &&& y == index as int / self@.width as int
            },
    {
        if index >= self.cell_count() {
            return None;
        }
        let width = self.width as u64;
        let height = self.height;
        proof {
            let i = index as int;
            let w = width as int;
            assert(w > 0 && height > 0) by (nonlinear_arith)
                requires
                    0 <= i < w * height,
                    w >= 0,
                    height >= 0,
            ;
            vstd::arithmetic::div_mod::lemma_fundamental_div_mod(i, w);
            assert(i / w < height) by (nonlinear_arith)
                requires
                    i == w * (i / w) + i % w,
                    0 <= i % w < w,
                    i < w * height,
            ;
            assert(i / w >= 0) by (nonlinear_arith)
                requires
                    i == w * (i / w) + i % w,
                    0 <= i % w < w,
                    i >= 0,
            ;
            assert((i / w) * w == w * (i / w)) by (nonlinear_arith);
        }
        Some(((index as u64 % width) as u32, (index as u64 / width) as u32))
    }

    /// The task body: computes every cell of the grid from its raw noise
    /// outputs. `samples[i]` belongs to cell `i` of the row-major grid. The
    /// result has one cell per sample, each the cell that the captured
    /// catalog and fields produce from it.
    pub fn run(
        &self,
        samples: &Vec<CellSamples>,
    ) -> (outcome: Result<Vec<MapGenerationCell>, GenerationError>)
        ensures
            outcome is Ok <==> samples.len() == self@.cells() && forall|i: int|
                0 <= i < samples.len() ==> self@.fields.fit(#[trigger] samples[i]),
            outcome == Err::<Vec<MapGenerationCell>, GenerationError>(GenerationError::CellCount)
                <==> samples.len() != self@.cells(),
            outcome matches Ok(grid) ==> {
                &&& grid.len() == self@.cells()
                &&& forall|i: int|
                    0 <= i < grid.len() ==> #[trigger] grid[i] == cell_for(
                        self@.biomes,
                        self@.fields,
                        samples[i],
                    )
            },
    {
        proof {
            use_type_invariant(self);
        }
        if samples.len() != self.cell_count() {
            return Err(GenerationError::CellCount);
        }
        let mut result: Vec<MapGenerationCell> = Vec::new();
        let mut i: usize = 0;
        while i < samples.len()
            invariant
                i <= samples.len(),
                samples.len() == self@.cells(),
                self@.valid(),
                result.len() == i,
                forall|k: int| 0 <= k < i ==> self@.fields.fit(#[trigger] samples[k]),
                forall|k: int|
                    0 <= k < i ==> #[trigger] result[k] == cell_for(
                        self@.biomes,
                        self@.fields,
                        samples[k],
                    ),
            decreases samples.len() - i,
        {
            match classify_cell(&self.biomes, &self.fields, &samples[i]) {
                Some(cell) => {
                    result.push(cell);
                },
                None => {
                    return Err(GenerationError::WaveCount);
                },
            }
            i += 1;
        }
        Ok(result)
    }
}

/// The waves the game shapes its world with, seeded with the five given
/// seeds: two height waves, one moisture wave and two heat waves.
pub open spec fn game_fields(
    seeds: [u32; 5],
) -> (Seq<MapGenerationWave>, Seq<MapGenerationWave>, Seq<MapGenerationWave>) {
    (
        seq![
            MapGenerationWave { frequency: 4_000, amplitude: 1_000_000, seed: seeds[0] },
            MapGenerationWave { frequency: 20_000, amplitude: 500_000, seed: seeds[1] },
        ],
        seq![MapGenerationWave { frequency: 20_000, amplitude: 1_000_000, seed: seeds[2] }],
        seq![
            MapGenerationWave { frequency: 20_000, amplitude: 1_000_000, seed: seeds[3] },
            MapGenerationWave { frequency: 10_000, amplitude: 500_000, seed: seeds[4] },
        ],
    )
}

impl NoiseFields {
    /// Whether these are the game's fields for the given seeds.
    pub open spec fn is_game_fields(&self, seeds: [u32; 5]) -> bool {
        &&& self.height@ == game_fields(seeds).0
        &&& self.moisture@ == game_fields(seeds).1
        &&& self.heat@ == game_fields(seeds).2
    }

    /// The game's fields: height blends a slow wave at full amplitude with a
    /// faster one at half amplitude, moisture is a single wave, heat blends
    /// two waves as height does.
    pub fn with_seeds(seeds: [u32; 5]) -> (fields: NoiseFields)
        ensures
            fields.is_game_fields(seeds),
            fields.audible(),
    {
        let mut height: Vec<MapGenerationWave> = Vec::new();
        height.push(MapGenerationWave { frequency: 4_000, amplitude: 1_000_000, seed: seeds[0] });
        height.push(MapGenerationWave { frequency: 20_000, amplitude: 500_000, seed: seeds[1] });
        let mut moisture: Vec<MapGenerationWave> = Vec::new();
        moisture.push(
            MapGenerationWave { frequency: 20_000, amplitude: 1_000_000, seed: seeds[2] },
        );
        let mut heat: Vec<MapGenerationWave> = Vec::new();
        heat.push(MapGenerationWave { frequency: 20_000, amplitude: 1_000_000, seed: seeds[3] });
        heat.push(MapGenerationWave { frequency: 10_000, amplitude: 500_000, seed: seeds[4] });
        proof {
            assert(height@ =~= game_fields(seeds).0);
            assert(moisture@ =~= game_fields(seeds).1);
            assert(heat@ =~= game_fields(seeds).2);
            last_wave_counts(height@);
            last_wave_counts(moisture@);
            last_wave_counts(heat@);
        }
        NoiseFields { height, moisture, heat }
    }
}

/// The total amplitude is at least the last wave's amplitude.
proof fn last_wave_counts(waves: Seq<MapGenerationWave>)
    requires
        waves.len() > 0,
    ensures
        total_amplitude(waves) >= waves.last().amplitude,
{
    crate::noise_field::total_amplitude_bounds(waves.drop_last());
}

/// Where a generation run stands.
#[derive(Clone, Copy, Debug, PartialEq, Eq, Structural)]
pub enum TaskStatus {
    /// Nothing has been started.
    Idle,
    /// A worker is computing the grid.
    Running,
    /// The worker has delivered the grid; nobody has taken it yet.
    Completed,
    /// The grid has been taken.
    Consumed,
}

/// A task as plain values: its status, the number of cells the run was
/// started for, and the delivered grid while it waits to be taken.
pub struct TaskModel {
    pub status: TaskStatus,
    pub expected: nat,
    pub grid: Seq<MapGenerationCell>,
}

impl TaskModel {
    /// The task after a run for `cells` cells has started.
    pub open spec fn started(cells: nat) -> TaskModel {
        TaskModel { status: TaskStatus::Running, expected: cells, grid: Seq::empty() }
    }

    /// Whether a delivered grid is accepted: a run is under way and the grid
    /// has the size the run was started for.
    pub open spec fn accepts(self, grid: Seq<MapGenerationCell>) -> bool {
        self.status == TaskStatus::Running && grid.len() == self.expected
    }

    /// The task after the worker has delivered `grid`.
    pub open spec fn delivered(self, grid: Seq<MapGenerationCell>) -> TaskModel {
        if self.accepts(grid) {
            TaskModel { status: TaskStatus::Completed, expected: self.expected, grid }
        } else {
            self
        }
    }

    /// The task after one poll.
    pub open spec fn polled(self) -> TaskModel {
        if self.status == TaskStatus::Completed {
            TaskModel { status: TaskStatus::Consumed, expected: self.expected, grid: Seq::empty() }
        } else {
            self
        }
    }

    /// What one poll hands out: the grid when it is there, nothing otherwise.
    pub open spec fn yields(self) -> Option<Seq<MapGenerationCell>> {
        if self.status == TaskStatus::Completed {
            Some(self.grid)
        } else {
            None
        }
    }

    /// What holds of every task: a grid is held only while the task is
    /// completed, and then it has the size the run was started for.
    pub open spec fn consistent(self) -> bool {
        if self.status == TaskStatus::Completed {
            self.grid.len() == self.expected
        } else {
            self.grid.len() == 0
        }
    }
}

/// A grid is handed out at most once: the poll after the one that yielded
/// the grid yields nothing, and so does every later one.
pub proof fn grid_is_taken_once(task: TaskModel)
    ensures
        task.polled().yields() is None,
        task.polled().polled() == task.polled(),
{
}

/// Polling a task that holds no grid changes nothing.
pub proof fn idle_poll_is_silent(task: TaskModel)
    requires
        task.status != TaskStatus::Completed,
    ensures
        task.polled() == task,
        task.yields() is None,
{
}

/// A task only moves forward: started, then completed by a delivery of the
/// right size, then consumed by the first poll after it.
pub proof fn life_cycle(cells: nat, grid: Seq<MapGenerationCell>)
    requires
        grid.len() == cells,
    ensures
        TaskModel::started(cells).yields() is None,
        TaskModel::started(cells).delivered(grid).status == TaskStatus::Completed,
        TaskModel::started(cells).delivered(grid).yields() == Some(grid),
        TaskModel::started(cells).delivered(grid).polled().status == TaskStatus::Consumed,
        TaskModel::started(cells).delivered(grid).polled().delivered(grid)
            == TaskModel::started(cells).delivered(grid).polled(),
{
}

/// The handle of a generation run on the polling side. It is created idle,
/// started once, completed by the worker's delivery and consumed by the poll
/// that takes the grid.
#[derive(Debug)]
pub struct MapGenerationTask {
    status: TaskStatus,
    expected: usize,
    grid: Vec<MapGenerationCell>,
}

impl View for MapGenerationTask {
    type V = TaskModel;

    closed spec fn view(&self) -> TaskModel {
        TaskModel { status: self.status, expected: self.expected as nat, grid: self.grid@ }
    }
}

impl MapGenerationTask {
    #[verifier::type_invariant]
    spec fn well_formed(&self) -> bool {
        self@.consistent()
    }

    /// An idle task.
    pub fn new() -> (task: Self)
        ensures
            task@.status == TaskStatus::Idle,
            task@.expected == 0,
            task@.grid.len() == 0,
    {
        MapGenerationTask { status: TaskStatus::Idle, expected: 0, grid: Vec::new() }
    }

    /// Where the run stands.
    pub fn status(&self) -> (status: TaskStatus)
        ensures
            status == self@.status,
            self@.consistent(),
    {
        proof {
            use_type_invariant(self);
        }
        self.status
    }

    /// The worker's delivery. The grid is accepted when a run is under way
    /// and the grid has the size the run was started for; otherwise the task
    /// stays as it is and the grid is dropped.
    pub fn complete(&mut self, grid: Vec<MapGenerationCell>) -> (accepted: bool)
        ensures
            accepted == old(self)@.accepts(grid@),
            final(self)@ == old(self)@.delivered(grid@),
    {
        match self.status {
            TaskStatus::Running => {
                if grid.len() == self.expected {
                    *self = MapGenerationTask {
                        status: TaskStatus::Completed,
                        expected: self.expected,
                        grid,
                    };
                    true
                } else {
                    false
                }
            },
            _ => false,
        }
    }

    /// The poll: hands out the grid if the worker has delivered it and
    /// nobody has taken it yet, and marks the task consumed. In every other
    /// state it returns `None` and leaves the task as it is.
    pub fn try_take(&mut self) -> (grid: Option<Vec<MapGenerationCell>>)
        ensures
            final(self)@ == old(self)@.polled(),
            grid is Some <==> old(self)@.status == TaskStatus::Completed,
            grid matches Some(cells) ==> Some(cells@) == old(self)@.yields() && cells.len()
                == old(self)@.expected,
    {
        proof {
            use_type_invariant(&*self);
        }
        match self.status {
            TaskStatus::Completed => {
                let mut taken = MapGenerationTask {
                    status: TaskStatus::Consumed,
                    expected: self.expected,
                    grid: Vec::new(),
                };
                core::mem::swap(self, &mut taken);
                Some(taken.grid)
            },
            _ => None,
        }
    }
}

/// Why a generation run was not started.
#[derive(Clone, Copy, Debug, PartialEq, Eq, Structural)]
pub enum StartError {
    /// The task has been started before. A task runs once; a second start,
    /// while the first run is under way or after it, is turned down.
    TaskNotIdle,
    /// No biome catalog has been loaded.
    BiomesNotLoaded,
    /// The biome catalog holds no biome.
    EmptyCatalog,
    /// The catalog holds more biomes than a cell's index field can name.
    TooManyBiomes,
    /// Width times height does not fit the machine's index type.
    WorldTooLarge,
    /// The amplitudes of an axis sum to zero.
    SilentField,
}

/// The reason for which a start is turned down whatever the fields are, if
/// there is one. Where several reasons hold, the first in this order counts:
/// the task's state, then the catalog, then the world's size.
pub open spec fn start_refusal(
    status: TaskStatus,
    biomes: Option<&Biomes>,
    width: u32,
    height: u32,
) -> Option<StartError> {
    if status != TaskStatus::Idle {
        Some(StartError::TaskNotIdle)
    } else if biomes is None {
        Some(StartError::BiomesNotLoaded)
    } else if biomes->0.biomes@.len() == 0 {
        Some(StartError::EmptyCatalog)
    } else if biomes->0.biomes@.len() > i32::MAX {
        Some(StartError::TooManyBiomes)
    } else if width * height > usize::MAX {
        Some(StartError::WorldTooLarge)
    } else {
        None
    }
}

/// The reason for which a start with these fields is turned down, if there
/// is one: what `start_refusal` names, or else a field without amplitude.
pub open spec fn start_error(
    status: TaskStatus,
    biomes: Option<&Biomes>,
    width: u32,
    height: u32,
    fields: NoiseFields,
) -> Option<StartError> {
    if start_refusal(status, biomes, width, height) is Some {
        start_refusal(status, biomes, width, height)
    } else if !fields.audible() {
        Some(StartError::SilentField)
    } else {
        None
    }
}

/// Starts a generation run with the given fields. On success the task is
/// running and the returned job holds the dimensions, a copy of the catalog
/// and the fields; on failure the task is left as it was.
pub fn start_with_fields(
    task: &mut MapGenerationTask,
    biomes: Option<&Biomes>,
    width: u32,
    height: u32,
    fields: NoiseFields,
) -> (started: Result<MapGenerationJob, StartError>)
    ensures
        start_error(old(task)@.status, biomes, width, height, fields) matches Some(reason) ==> {
            &&& started matches Err(e)
            &&& e == reason
            &&& final(task)@ == old(task)@
        },
        start_error(old(task)@.status, biomes, width, height, fields) is None ==> {
            &&& started matches Ok(job)
            &&& job@ == (JobModel { width, height, biomes: biomes->0.biomes@, fields })
            &&& job@.valid()
            &&& final(task)@ == TaskModel::started((width * height) as nat)
        },
{
    match task.status() {
        TaskStatus::Idle => {},
        _ => {
            return Err(StartError::TaskNotIdle);
        },
    }
    let catalog = match biomes {
        Some(loaded) => &loaded.biomes,
        None => {
            return Err(StartError::BiomesNotLoaded);
        },
    };
    if catalog.len() == 0 {
        return Err(StartError::EmptyCatalog);
    }
    if catalog.len() > i32::MAX as usize {
        return Err(StartError::TooManyBiomes);
    }
    assert(width * height <= u64::MAX) by (nonlinear_arith)
        requires
            width <= u32::MAX,
            height <= u32::MAX,
    ;
    let cells: u64 = width as u64 * height as u64;
    if cells > usize::MAX as u64 {
        return Err(StartError::WorldTooLarge);
    }
    if !fields.is_audible() {
        return Err(StartError::SilentField);
    }
    let snapshot = catalog.clone();
    assert(snapshot@ =~= catalog@);
    *task = MapGenerationTask {
        status: TaskStatus::Running,
        expected: cells as usize,
        grid: Vec::new(),
    };
    Ok(MapGenerationJob { width, height, biomes: snapshot, fields })
}

/// Starts a generation run of the game's fields with the given seeds.
pub fn start_with_seeds(
    task: &mut MapGenerationTask,
    biomes: Option<&Biomes>,
    width: u32,
    height: u32,
    seeds: [u32; 5],
) -> (started: Result<MapGenerationJob, StartError>)
    ensures
        start_refusal(old(task)@.status, biomes, width, height) matches Some(reason) ==> {
            &&& started matches Err(e)
            &&& e == reason
            &&& final(task)@ == old(task)@
        },
        start_refusal(old(task)@.status, biomes, width, height) is None ==> {
            &&& started matches Ok(job)
            &&& job@.width == width
            &&& job@.height == height
            &&& job@.biomes == biomes->0.biomes@
            &&& job@.fields.is_game_fields(seeds)
            &&& job@.valid()
            &&& final(task)@ == TaskModel::started((width * height) as nat)
        },
{
    start_with_fields(task, biomes, width, height, NoiseFields::with_seeds(seeds))
}

/// Starts a generation run for the world's current dimensions, with the
/// game's fields and five seeds drawn afresh from the thread's random
/// generator. The job captures the dimensions and a copy of the catalog, so
/// that nothing done to the world or the catalog afterwards reaches the run.
pub fn start_map_generation(
    task: &mut MapGenerationTask,
    biomes: Option<&Biomes>,
    game_world: &GameWorld,
) -> (started: Result<MapGenerationJob, StartError>)
    ensures
        start_refusal(old(task)@.status, biomes, game_world.width(), game_world.height())
            matches Some(reason) ==> {
            &&& started matches Err(e)
            &&& e == reason
            &&& final(task)@ == old(task)@
        },
        start_refusal(old(task)@.status, biomes, game_world.width(), game_world.height())
            is None ==> {
            &&& started matches Ok(job)
            &&& job@.width == game_world.width()
            &&& job@.height == game_world.height()
            &&& job@.biomes == biomes->0.biomes@
            &&& exists|seeds: [u32; 5]| job@.fields.is_game_fields(seeds)
            &&& job@.valid()
            &&& final(task)@ == TaskModel::started(
                (game_world.width() * game_world.height()) as nat,
            )
        },
{
    let seeds: [u32; 5] = [
        random_seed(),
        random_seed(),
        random_seed(),
        random_seed(),
        random_seed(),
    ];
    start_with_seeds(task, biomes, game_world.width(), game_world.height(), seeds)
}

/// The per-tick check for a finished run. While the task holds no grid this
/// does nothing and returns `None`. Once the worker has delivered the grid,
/// the first check takes it, marks the task consumed and turns the grid into
/// tiles; if that succeeds the next game state is set to the main phase, and
/// if the grid is rejected the world and the game state stay as they were.
pub fn check_map_generation_finished(
    task: &mut MapGenerationTask,
    game_world: &mut GameWorld,
    textures: &Vec<Vec<TextureChoice>>,
    app_next_state: &mut GameState,
) -> (finished: Option<Result<Tilemap, TilesetError>>)
    ensures
        final(task)@ == old(task)@.polled(),
        finished is Some <==> old(task)@.status == TaskStatus::Completed,
        finished matches Some(outcome) ==> materializes(
            textures@,
            old(task)@.grid,
            old(game_world).width(),
            old(game_world).height(),
            old(game_world).cell_size(),
            outcome,
        ),
        finished matches Some(Ok(_)) ==> *final(app_next_state) == GameState::Main,
        !(finished matches Some(Ok(_))) ==> *final(app_next_state) == *old(app_next_state)
            && *final(game_world) == *old(game_world),
        final(game_world).width() == old(game_world).width(),
        final(game_world).height() == old(game_world).height(),
{
    match task.try_take() {
        Some(result) => {
            let outcome = setup_tileset(textures, &result, game_world);
            if outcome.is_ok() {
                *app_next_state = GameState::Main;
            }
            Some(outcome)
        },
        None => None,
    }
}

} // verus!
