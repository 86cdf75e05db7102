//! Tile materialization: from a classified grid to placed, textured tiles.

use crate::game_world::GameWorld;
use crate::map_generation::MapGenerationCell;
use vstd::prelude::*;

verus! {

/// One texture a biome may be drawn with, and how many tickets it holds in
/// the weighted draw.
#[derive(Clone, Copy, Debug, PartialEq, Eq, Structural)]
pub struct TextureChoice {
    pub texture: u32,
    pub weight: u32,
}

/// The summed weight of the first `n` choices.
pub open spec fn weight_before(options: Seq<TextureChoice>, n: int) -> int
    decreases n,
{
    if n <= 0 {
        0
    } else {
        weight_before(options, n - 1) + options[n - 1].weight
    }
}

/// The number of tickets in the draw: the summed weight of all choices.
pub open spec fn total_weight(options: Seq<TextureChoice>) -> int {
    weight_before(options, options.len() as int)
}

/// Whether `ticket` belongs to choice `i`. Tickets are handed out in list
/// order: choice `i` holds the `weight` tickets that follow those of the
/// choices before it.
pub open spec fn ticket_picks(options: Seq<TextureChoice>, ticket: int, i: int) -> bool {
    &&& 0 <= i < options.len()
    &&& weight_before(options, i) <= ticket < weight_before(options, i + 1)
}

/// Whether the draw can come out as `texture`: some choice with a positive
/// weight carries it.
pub open spec fn can_pick(options: Seq<TextureChoice>, texture: u32) -> bool {
    exists|i: int|
        0 <= i < options.len() && (#[trigger] options[i]).weight > 0 && options[i].texture
            == texture
}

/// The summed weight grows with the number of choices counted, by at most
/// the largest weight per choice.
pub proof fn weight_before_grows(options: Seq<TextureChoice>, m: int, n: int)
    requires
        0 <= m <= n <= options.len(),
    ensures
        weight_before(options, m) <= weight_before(options, n),
        weight_before(options, n) <= weight_before(options, m) + (n - m) * u32::MAX,
    decreases n - m,
{
    if m < n {
        weight_before_grows(options, m, n - 1);
        assert((n - 1 - m) * u32::MAX + u32::MAX == (n - m) * u32::MAX) by (nonlinear_arith);
    }
}

/// Each ticket belongs to at most one choice.
pub proof fn ticket_picks_one(options: Seq<TextureChoice>, ticket: int, i: int, j: int)
    requires
        ticket_picks(options, ticket, i),
        ticket_picks(options, ticket, j),
    ensures
        i == j,
{
    if i < j {
        weight_before_grows(options, i + 1, j);
    } else if j < i {
        weight_before_grows(options, j + 1, i);
    }
}

/// The choice a ticket belongs to has a positive weight, and it holds exactly
/// `weight` tickets.
pub proof fn ticket_share(options: Seq<TextureChoice>, i: int)
    requires
        0 <= i < options.len(),
    ensures
        weight_before(options, i + 1) - weight_before(options, i) == options[i].weight,
        forall|ticket: int| ticket_picks(options, ticket, i) ==> options[i].weight > 0,
        weight_before(options, i + 1) <= total_weight(options),
{
    weight_before_grows(options, i + 1, options.len() as int);
}

/// The number of tickets in the draw.
pub fn total_weight_of(options: &Vec<TextureChoice>) -> (total: u128)
    ensures
        total == total_weight(options@),
{
    let mut total: u128 = 0;
    let mut i: usize = 0;
    while i < options.len()
        invariant
            i <= options.len(),
            total == weight_before(options@, i as int),
            total <= i * u32::MAX,
        decreases options.len() - i,
    {
        proof {
            assert((i + 1) * u32::MAX == i * u32::MAX + u32::MAX) by (nonlinear_arith);
            assert(i * u32::MAX <= 0xffff_ffff_ffff_ffff * 0xffff_ffff) by (nonlinear_arith)
                requires
                    i <= 0xffff_ffff_ffff_ffff,
            ;
        }
        total = total + options[i].weight as u128;
        i += 1;
    }
    total
}

/// The choice that holds `ticket`.
pub fn pick_weighted(options: &Vec<TextureChoice>, ticket: u128) -> (index: usize)
    requires
        ticket < total_weight(options@),
    ensures
        ticket_picks(options@, ticket as int, index as int),
        options@[index as int].weight > 0,
{
    let mut passed: u128 = 0;
    let mut i: usize = 0;
    loop
        invariant
            i < options.len(),
            passed == weight_before(options@, i as int),
            passed <= ticket < total_weight(options@),
        decreases options.len() - i,
    {
        proof {
            weight_before_grows(options@, i as int, i + 1);
            weight_before_grows(options@, i + 1, options.len() as int);
            weight_before_grows(options@, 0, options.len() as int);
            assert(options.len() * u32::MAX <= 0xffff_ffff_ffff_ffff * 0xffff_ffff)
                by (nonlinear_arith)
                requires
                    options.len() <= 0xffff_ffff_ffff_ffff,
            ;
        }
        let next: u128 = passed + options[i].weight as u128;
        if ticket < next {
            return i;
        }
        passed = next;
        i += 1;
    }
}

/// Draws one of the textures at random, each with a chance in proportion to
/// its weight: a ticket is drawn from the world's generator and the texture
/// of the choice that holds it is returned. Returns `None`, without drawing,
/// when no choice has a positive weight.
pub fn choose_texture(
    options: &Vec<TextureChoice>,
    game_world: &mut GameWorld,
) -> (chosen: Option<u32>)
    ensures
        chosen is Some <==> total_weight(options@) > 0,
        chosen matches Some(texture) ==> can_pick(options@, texture),
        chosen is None ==> *final(game_world) == *old(game_world),
        final(game_world).width() == old(game_world).width(),
        final(game_world).height() == old(game_world).height(),
{
    let total = total_weight_of(options);
    if total == 0 {
        return None;
    }
    let ticket = game_world.draw(total);
    Some(options[pick_weighted(options, ticket)].texture)
}

/// A placed tile: its column and row in the grid and its texture.
#[derive(Clone, Copy, Debug, PartialEq, Eq, Structural)]
pub struct Tile {
    pub x: u32,
    pub y: u32,
    pub texture: u32,
}

/// Why a grid was not turned into tiles. Each cell error names the column
/// and row of the first cell, in row-major order, that cannot be drawn.
#[derive(Clone, Copy, Debug, PartialEq, Eq, Structural)]
pub enum TilesetError {
    /// The grid does not hold width times height cells.
    GridSizeMismatch,
    /// The cell has no biome.
    UnmatchedCell { x: u32, y: u32 },
    /// The cell's biome index names no entry of the texture table.
    UnknownBiome { x: u32, y: u32 },
    /// The cell's biome has no texture with a positive weight.
    NoTexture { x: u32, y: u32 },
}

/// What is wrong with the cell at column `x` and row `y`, if anything.
pub open spec fn cell_defect(
    textures: Seq<Vec<TextureChoice>>,
    cell: MapGenerationCell,
    x: int,
    y: int,
) -> Option<TilesetError> {
    if cell.biome_index < 0 {
        Some(TilesetError::UnmatchedCell { x: x as u32, y: y as u32 })
    } else if cell.biome_index >= textures.len() {
        Some(TilesetError::UnknownBiome { x: x as u32, y: y as u32 })
    } else if total_weight(textures[cell.biome_index as int]@) == 0 {
        Some(TilesetError::NoTexture { x: x as u32, y: y as u32 })
    } else {
        None
    }
}

/// Whether each of the first `n` cells can be drawn.
pub open spec fn drawable_before(
    textures: Seq<Vec<TextureChoice>>,
    cells: Seq<MapGenerationCell>,
    width: int,
    n: int,
) -> bool {
    forall|k: int|
        0 <= k < n ==> cell_defect(textures, #[trigger] cells[k], k % width, k / width) is None
}

/// Whether `error` is the defect of the first cell that cannot be drawn.
pub open spec fn first_defect_is(
    textures: Seq<Vec<TextureChoice>>,
    cells: Seq<MapGenerationCell>,
    width: int,
    error: TilesetError,
) -> bool {
    exists|i: int|
        0 <= i < cells.len() && drawable_before(textures, cells, width, i) && cell_defect(
            textures,
            #[trigger] cells[i],
            i % width,
            i / width,
        ) == Some(error)
}

/// A grid has at most one first defect, and a grid with a defect is not
/// drawable throughout: a rejected grid is rejected for one reason only.
pub proof fn first_defect_is_unique(
    textures: Seq<Vec<TextureChoice>>,
    cells: Seq<MapGenerationCell>,
    width: int,
    first: TilesetError,
    second: TilesetError,
)
    requires
        first_defect_is(textures, cells, width, first),
        first_defect_is(textures, cells, width, second),
    ensures
        first == second,
        !drawable_before(textures, cells, width, cells.len() as int),
{
    let i = choose|i: int|
        0 <= i < cells.len() && drawable_before(textures, cells, width, i) && cell_defect(
            textures,
            #[trigger] cells[i],
            i % width,
            i / width,
        ) == Some(first);
    let j = choose|j: int|
        0 <= j < cells.len() && drawable_before(textures, cells, width, j) && cell_defect(
            textures,
            #[trigger] cells[j],
            j % width,
            j / width,
        ) == Some(second);
    if i < j {
        assert(cell_defect(textures, cells[i], i % width, i / width) is None);
    } else if j < i {
        assert(cell_defect(textures, cells[j], j % width, j / width) is None);
    }
    if drawable_before(textures, cells, width, cells.len() as int) {
        assert(cell_defect(textures, cells[i], i % width, i / width) is None);
    }
}

/// A tilemap as plain values.
pub struct TilemapModel {
    pub width: u32,
    pub height: u32,
    pub tile_size: u32,
    pub tiles: Seq<Tile>,
}

impl TilemapModel {
    /// What holds of every tilemap: it has one tile per cell, stored row by
    /// row, and each tile knows its own column and row.
    pub open spec fn valid(self) -> bool {
        &&& self.tiles.len() == self.width * self.height
        &&& forall|i: int|
            0 <= i < self.tiles.len() ==> (#[trigger] self.tiles[i]).x == i % (self.width as int)
                && self.tiles[i].y == i / (self.width as int)
    }

    /// Whether this tilemap draws the grid `cells`: it has the given
    /// dimensions and tile size, and the tile of each cell carries a texture
    /// that the weighted draw among the textures of the cell's biome can
    /// come out as.
    pub open spec fn draws(
        self,
        textures: Seq<Vec<TextureChoice>>,
        cells: Seq<MapGenerationCell>,
        width: u32,
        height: u32,
        tile_size: u32,
    ) -> bool {
        &&& self.valid()
        &&& self.width == width
        &&& self.height == height
        &&& self.tile_size == tile_size
        &&& self.tiles.len() == cells.len()
        &&& forall|i: int|
            0 <= i < cells.len() ==> 0 <= cells[i].biome_index < textures.len() && can_pick(
                textures[cells[i].biome_index as int]@,
                (#[trigger] self.tiles[i]).texture,
            )
    }
}

/// The tiles of a generated world: one tile per cell, stored row by row,
/// with the edge of a tile in pixels.
#[derive(Debug)]
pub struct Tilemap {
    width: u32,
    height: u32,
    tile_size: u32,
    tiles: Vec<Tile>,
}

impl View for Tilemap {
    type V = TilemapModel;

    closed spec fn view(&self) -> TilemapModel {
        TilemapModel {
            width: self.width,
            height: self.height,
            tile_size: self.tile_size,
            tiles: self.tiles@,
        }
    }
}

impl Tilemap {
    #[verifier::type_invariant]
    spec fn well_formed(&self) -> bool {
        self@.valid()
    }

    /// The width of the map in tiles.
    pub fn width(&self) -> (width: u32)
        ensures
            width == self@.width,
    {
        self.width
    }

    /// The height of the map in tiles.
    pub fn height(&self) -> (height: u32)
        ensures
            height == self@.height,
    {
        self.height
    }

    /// The edge of one tile in pixels.
    pub fn tile_size(&self) -> (tile_size: u32)
        ensures
            tile_size == self@.tile_size,
    {
        self.tile_size
    }

    /// All tiles, row by row.
    pub fn tiles(&self) -> (tiles: &Vec<Tile>)
        ensures
            tiles@ == self@.tiles,
            self@.valid(),
    {
        proof {
            use_type_invariant(self);
        }
        &self.tiles
    }

    /// The tile at column `x` and row `y`, or `None` outside the map.
    pub fn tile_at(&self, x: u32, y: u32) -> (tile: Option<Tile>)
        ensures
            tile is Some <==> x < self@.width && y < self@.height,
            tile matches Some(t) ==> t == self@.tiles[y * self@.width + x] && t.x == x && t.y
                == y,
    {
        proof {
            use_type_invariant(self);
        }
        if x >= self.width || y >= self.height {
            return None;
        }
        let width = self.width;
        let height = self.height;
        proof {
            row_major_index(x as int, y as int, width as int, height as int);
            assert(y * width <= u32::MAX * u32::MAX) by (nonlinear_arith)
                requires
                    0 <= y <= u32::MAX,
                    0 <= width <= u32::MAX,
            ;
        }
        let flat: u64 = y as u64 * width as u64 + x as u64;
        assert(flat < self.tiles.len());
        Some(self.tiles[flat as usize])
    }
}

/// In a grid of the given size, the cell at column `x` and row `y` has the
/// row-major index `y * width + x`, from which column and row are recovered
/// by remainder and quotient.
pub proof fn row_major_index(x: int, y: int, width: int, height: int)
    requires
        0 <= x < width,
        0 <= y < height,
    ensures
        0 <= y * width + x < width * height,
        (y * width + x) % width == x,
        (y * width + x) / width == y,
{
    assert(0 <= y * width && y * width + width <= width * height) by (nonlinear_arith)
        requires
            0 <= y < height,
            0 < width,
    ;
    vstd::arithmetic::div_mod::lemma_fundamental_div_mod_converse(y * width + x, width, y, x);
}

/// Whether `outcome` is what materializing the grid `cells` may give for a
/// world of the given size: the size mismatch if the grid has the wrong
/// number of cells; else the defect of the first cell that cannot be drawn;
/// else a tilemap that draws the grid.
pub open spec fn materializes(
    textures: Seq<Vec<TextureChoice>>,
    cells: Seq<MapGenerationCell>,
    width: u32,
    height: u32,
    tile_size: u32,
    outcome: Result<Tilemap, TilesetError>,
) -> bool {
    match outcome {
        Err(TilesetError::GridSizeMismatch) => cells.len() != width * height,
        Err(error) => cells.len() == width * height && first_defect_is(
            textures,
            cells,
            width as int,
            error,
        ),
        Ok(map) => cells.len() == width * height && drawable_before(
            textures,
            cells,
            width as int,
            cells.len() as int,
        ) && map@.draws(textures, cells, width, height, tile_size),
    }
}

/// Looks for the first cell, row by row, that cannot be drawn.
fn find_defect(
    textures: &Vec<Vec<TextureChoice>>,
    cells: &Vec<MapGenerationCell>,
    width: u32,
    height: u32,
) -> (defect: Option<TilesetError>)
    requires
        cells.len() == width * height,
    ensures
        defect is None ==> drawable_before(
            textures@,
            cells@,
            width as int,
            cells.len() as int,
        ),
        defect matches Some(error) ==> error != TilesetError::GridSizeMismatch && first_defect_is(
            textures@,
            cells@,
            width as int,
            error,
        ),
{
    assert(width * height > 0 ==> width > 0) by (nonlinear_arith)
        requires
            width >= 0,
            height >= 0,
    ;
    let mut i: usize = 0;
    let mut x: u32 = 0;
    let mut y: u32 = 0;
    while i < cells.len()
        invariant
            i <= cells.len() == width * height,
            i == y * width + x,
            i < cells.len() ==> x < width,
            drawable_before(textures@, cells@, width as int, i as int),
        decreases cells.len() - i,
    {
        proof {
            assert(y < height) by (nonlinear_arith)
                requires
                    y * width + x < width * height,
                    0 <= x,
                    0 <= width,
                    0 <= y,
            ;
            row_major_index(x as int, y as int, width as int, height as int);
        }
        let cell = cells[i];
        if cell.biome_index < 0 {
            return Some(TilesetError::UnmatchedCell { x, y });
        }
        let biome = cell.biome_index as usize;
        if biome >= textures.len() {
            return Some(TilesetError::UnknownBiome { x, y });
        }
        if total_weight_of(&textures[biome]) == 0 {
            return Some(TilesetError::NoTexture { x, y });
        }
        i += 1;
        if x + 1 < width {
            x += 1;
        } else {
            proof {
                assert((y + 1) * width == y * width + width) by (nonlinear_arith);
            }
            x = 0;
            y += 1;
        }
    }
    None
}

/// Turns the classified grid into the tiles of the world. The grid is
/// checked first: if it has the wrong size, or some cell has no biome, a
/// biome outside the texture table or a biome without a texture to draw, the
/// whole grid is rejected, nothing is drawn and the world is left as it was.
/// Otherwise each cell, row by row, gets one tile at its position with a
/// texture drawn among the textures of its biome, each texture's chance in
/// proportion to its weight. `textures[b]` lists the textures of biome `b`.
pub fn setup_tileset(
    textures: &Vec<Vec<TextureChoice>>,
    result: &Vec<MapGenerationCell>,
    game_world: &mut GameWorld,
) -> (outcome: Result<Tilemap, TilesetError>)
    ensures
        materializes(
            textures@,
            result@,
            old(game_world).width(),
            old(game_world).height(),
            old(game_world).cell_size(),
            outcome,
        ),
        outcome is Err ==> *final(game_world) == *old(game_world),
        final(game_world).width() == old(game_world).width(),
        final(game_world).height() == old(game_world).height(),
{
    let width = game_world.width();
    let height = game_world.height();
    let tile_size = game_world.cell_size();
    assert(width * height <= u64::MAX) by (nonlinear_arith)
        requires
            width <= u32::MAX,
            height <= u32::MAX,
    ;
    if result.len() as u64 != width as u64 * height as u64 {
        return Err(TilesetError::GridSizeMismatch);
    }
    if let Some(error) = find_defect(textures, result, width, height) {
        return Err(error);
    }
    let mut tiles: Vec<Tile> = Vec::new();
    assert(width * height > 0 ==> width > 0) by (nonlinear_arith)
        requires
            width >= 0,
            height >= 0,
    ;
    let mut i: usize = 0;
    let mut x: u32 = 0;
    let mut y: u32 = 0;
    while i < result.len()
        invariant
            i <= result.len() == width * height,
            i == y * width + x,
            i < result.len() ==> x < width,
            drawable_before(textures@, result@, width as int, result.len() as int),
            tiles.len() == i,
            game_world.width() == width,
            game_world.height() == height,
            forall|k: int|
                0 <= k < i ==> (#[trigger] tiles[k]).x == k % (width as int) && tiles[k].y == k / (
                width as int),
            forall|k: int|
                0 <= k < i ==> 0 <= result[k].biome_index < textures.len() && can_pick(
                    textures[result[k].biome_index as int]@,
                    (#[trigger] tiles[k]).texture,
                ),
        decreases result.len() - i,
    {
        proof {
            assert(y < height) by (nonlinear_arith)
                requires
                    y * width + x < width * height,
                    0 <= x,
                    0 <= width,
                    0 <= y,
            ;
            row_major_index(x as int, y as int, width as int, height as int);
        }
        let cell = result[i];
        assert(cell_defect(textures@, result@[i as int], i as int % (width as int), i as int / (
        width as int)) is None);
        proof {
            let options = textures@[cell.biome_index as int]@;
            weight_before_grows(options, 0, options.len() as int);
        }
        let texture = match choose_texture(&textures[cell.biome_index as usize], game_world) {
            Some(texture) => texture,
            // the scan above has found a texture to draw for every cell
            None => {
                return Err(TilesetError::NoTexture { x, y });
            },
        };
        tiles.push(Tile { x, y, texture });
        i += 1;
        if x + 1 < width {
            x += 1;
        } else {
            proof {
                assert((y + 1) * width == y * width + width) by (nonlinear_arith);
            }
            x = 0;
            y += 1;
        }
    }
    Ok(Tilemap { width, height, tile_size, tiles })
}

} // verus!
