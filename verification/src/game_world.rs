//! The world object that owns the dimensions and the random generator, and
//! the phases the game moves through.

use crate::random::{draw_below, entropy_rng};
use rand::rngs::StdRng;
use vstd::prelude::*;

verus! {

/// The phase of the game: assets are loading, the map is being generated, or
/// the game proper runs.
#[derive(Debug, Clone, Copy, PartialEq, Eq, Structural, Hash)]
pub enum GameState {
    Loading,
    MapGeneration,
    Main,
}

impl Default for GameState {
    fn default() -> (state: Self)
        ensures
            state == GameState::Loading,
    {
        GameState::Loading
    }
}

/// World dimensions in cells and the random generator that tile
/// materialization draws from.
#[derive(Debug)]
pub struct GameWorld {
    height: u32,
    width: u32,
    rng: StdRng,
}

impl Default for GameWorld {
    /// A world without cells, with a generator seeded from the operating
    /// system.
    fn default() -> (world: Self)
        ensures
            world.width() == 0,
            world.height() == 0,
    {
        Self { height: 0, width: 0, rng: entropy_rng() }
    }
}

impl GameWorld {
    /// The world's height in cells.
    pub closed spec fn spec_height(&self) -> u32 {
        self.height
    }

    /// The world's width in cells.
    pub closed spec fn spec_width(&self) -> u32 {
        self.width
    }

    /// The edge of one cell in pixels.
    pub closed spec fn spec_cell_size(&self) -> u32 {
        32
    }

    /// The generator the world owns, as a value.
    pub closed spec fn generator(&self) -> StdRng {
        self.rng
    }

    /// The world's height in cells.
    #[verifier::when_used_as_spec(spec_height)]
    pub fn height(&self) -> (height: u32)
        ensures
            height == self.spec_height(),
    {
        self.height
    }

    /// The world's width in cells.
    #[verifier::when_used_as_spec(spec_width)]
    pub fn width(&self) -> (width: u32)
        ensures
            width == self.spec_width(),
    {
        self.width
    }

    /// The edge of one cell in pixels.
    #[verifier::when_used_as_spec(spec_cell_size)]
    pub fn cell_size(&self) -> (size: u32)
        ensures
            size == self.spec_cell_size(),
            size == 32,
    {
        32
    }

    /// The file name of the font that labels are drawn with.
    pub fn font_name(&self) -> (name: String)
        ensures
            name@ == "OpenSans-Regular.ttf"@,
    {
        "OpenSans-Regular.ttf".to_owned()
    }

    /// The world's generator, for the caller to draw from.
    pub fn rng(&mut self) -> (rng: &mut StdRng)
        ensures
            *rng == old(self).generator(),
            final(self).generator() == *final(rng),
            final(self).width() == old(self).width(),
            final(self).height() == old(self).height(),
    {
        &mut self.rng
    }

    /// Draws a ticket below `bound` from the world's generator. The world's
    /// dimensions stay as they are.
    pub fn draw(&mut self, bound: u128) -> (ticket: u128)
        requires
            bound > 0,
        ensures
            ticket < bound,
            final(self).width() == old(self).width(),
            final(self).height() == old(self).height(),
    {
        draw_below(&mut self.rng, bound)
    }

    /// A world of the given size with a generator seeded from the operating
    /// system.
    pub fn new(width: u32, height: u32) -> (world: Self)
        ensures
            world.width() == width,
            world.height() == height,
    {
        GameWorld { width, height, rng: entropy_rng() }
    }

    /// A world of the given size that draws from `rng`.
    pub fn with_rng(width: u32, height: u32, rng: StdRng) -> (world: Self)
        ensures
            world.width() == width,
            world.height() == height,
            world.generator() == rng,
    {
        GameWorld { width, height, rng }
    }
}

} // verus!
