//! The floor: a row of tiles that stand still.

use vstd::prelude::*;
use crate::atlas::{Atlas, DrawCommand, Sprite};
use crate::config::{FLOOR_LEVEL, NUMBER_OF_TILES};
use crate::fixed::saturate;
use crate::geometry::Point2;
use crate::pipe::repeat;

verus! {

/// One tile of the floor.
#[derive(Debug, PartialEq, Eq, Clone, Copy, Structural)]
pub struct TileEntity {
    pub sprite: Sprite,
    pub position: Point2,
}

/// The `i`-th tile of a floor laid from `sprite`: the tiles stand side by
/// side from the left edge of the screen, at `FLOOR_LEVEL`.
pub open spec fn floor_tile(sprite: Sprite, i: int) -> TileEntity {
    TileEntity {
        sprite,
        position: Point2 { x: saturate(i * sprite.width) as i64, y: FLOOR_LEVEL },
    }
}

/// The floor laid from `sprite`.
pub open spec fn floor(sprite: Sprite) -> Seq<Box<TileEntity>> {
    Seq::new(NUMBER_OF_TILES as nat, |i: int| Box::new(floor_tile(sprite, i)))
}

impl TileEntity {
    /// The command that draws the tile.
    pub fn draw(&mut self) -> (command: DrawCommand)
        ensures
            command == old(self).sprite.command_at(old(self).position),
            *final(self) == *old(self),
    {
        self.sprite.add_draw_param(self.position)
    }

    /// A tile at `position`.
    pub fn new(sprite: Sprite, position: (i64, i64)) -> (tile: Self)
        ensures
            tile == (TileEntity { sprite, position: Point2 { x: position.0, y: position.1 } }),
    {
        TileEntity { sprite, position: Point2::new(position.0, position.1) }
    }
}

/// A floor tile at `x`. Floor tiles do not scroll.
pub fn create_tile_scroll(sprite: Sprite, x: i64) -> (tile: Box<TileEntity>)
    ensures
        *tile == (TileEntity { sprite, position: Point2 { x, y: FLOOR_LEVEL } }),
{
    let tile = TileEntity::new(sprite, (x, FLOOR_LEVEL));
    Box::new(tile)
}

/// The floor, cut from the atlas.
pub fn create_tiles(sprites: &Atlas) -> (tiles: Vec<Box<TileEntity>>)
    requires
        sprites.lookup("floor_tile.png"@) is Some,
    ensures
        tiles@ == floor(sprites.lookup("floor_tile.png"@).unwrap()),
{
    let floor_tile = sprites.create_sprite("floor_tile.png");
    let width: i64 = floor_tile.width;
    let mut tiles: Vec<Box<TileEntity>> = Vec::new();
    let mut i: u8 = 0;
    while i < NUMBER_OF_TILES
        invariant
            i <= NUMBER_OF_TILES,
            width == floor_tile.width,
            tiles@.len() == i,
            forall|k: int| 0 <= k < i ==> *tiles@[k] == self::floor_tile(floor_tile, k),
        decreases NUMBER_OF_TILES - i,
    {
        assert(i * width == width * i) by (nonlinear_arith);
        tiles.push(create_tile_scroll(floor_tile, repeat(width, i as i64)));
        i += 1;
    }
    assert(tiles@ =~= floor(floor_tile));
    tiles
}

} // verus!
