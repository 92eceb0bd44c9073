//! The texture atlas: named frames of one sprite sheet, and the sprites cut
//! from them.

use vstd::prelude::*;
use crate::fixed::UNIT;
use crate::geometry::{Point2, Rect, Vector2};

verus! {

/// Size of the sprite sheet, in pixels.
#[derive(Clone, Copy, Debug, PartialEq, Eq, Structural)]
pub struct AtlasSize {
    pub w: i32,
    pub h: i32,
}

/// What the sheet says of itself.
#[derive(Clone, Copy, Debug, PartialEq, Eq, Structural)]
pub struct Meta {
    pub size: AtlasSize,
}

/// A frame's place on the sprite sheet, in pixels.
#[derive(Clone, Copy, Debug, PartialEq, Eq, Structural)]
pub struct JsonRect {
    pub x: i32,
    pub y: i32,
    pub w: i32,
    pub h: i32,
}

/// One named frame of the sprite sheet.
#[derive(Clone, Debug)]
pub struct SpriteData {
    pub filename: String,
    pub frame: JsonRect,
}

/// All frames of one sprite sheet, in the order in which the sheet lists them.
#[derive(Clone, Debug)]
pub struct Atlas {
    pub frames: Vec<SpriteData>,
    pub meta: Meta,
}

/// What the renderer needs to put one sprite on the screen.
#[derive(Clone, Copy, Debug, PartialEq, Eq, Structural)]
pub struct DrawCommand {
    /// The part of the sprite sheet to draw.
    pub src: Rect,
    /// Where on the screen it goes.
    pub dest: Point2,
    /// Stretch along each axis; a negative factor flips the image.
    pub scale: Vector2,
    /// The point of the image that lands on `dest` and that it turns about,
    /// as a fraction of its size.
    pub offset: Point2,
    /// Turn in thousandths of a radian.
    pub rotation: i64,
}

/// A frame of the sprite sheet together with the size and the scale at which
/// it is shown.
#[derive(Clone, Copy, Debug, PartialEq, Eq, Structural)]
pub struct Sprite {
    /// The frame's place on the sprite sheet.
    pub rect: Rect,
    pub scale: Vector2,
    pub width: i64,
    pub height: i64,
}

/// The sprite of the first frame at or after index `from` whose name is `name`.
pub open spec fn lookup_from(frames: Seq<SpriteData>, name: Seq<char>, from: int) -> Option<Sprite>
    decreases frames.len() - from,
{
    if from < 0 || from >= frames.len() {
        None
    } else if frames[from].filename@ == name {
        Some(Sprite::of_frame(frames[from].frame))
    } else {
        lookup_from(frames, name, from + 1)
    }
}

impl Atlas {
    /// The sprite of the first frame named `name`, if there is one.
    pub open spec fn lookup(&self, name: Seq<char>) -> Option<Sprite> {
        lookup_from(self.frames@, name, 0)
    }

    /// An atlas of these frames, on a sheet `width` by `height` pixels large.
    pub fn new(frames: Vec<SpriteData>, width: i32, height: i32) -> (atlas: Self)
        ensures
            atlas.frames == frames,
            atlas.meta == (Meta { size: AtlasSize { w: width, h: height } }),
    {
        Atlas { frames, meta: Meta { size: AtlasSize { w: width, h: height } } }
    }

    /// Looks a sprite up by the name of its frame.
    pub fn find_sprite(&self, sprite_name: &str) -> (found: Option<Sprite>)
        ensures
            found == self.lookup(sprite_name@),
    {
        let wanted: String = sprite_name.to_owned();
        let mut i: usize = 0;
        while i < self.frames.len()
            invariant
                i <= self.frames.len(),
                wanted@ == sprite_name@,
                self.lookup(sprite_name@) == lookup_from(self.frames@, sprite_name@, i as int),
            decreases self.frames.len() - i,
        {
            if self.frames[i].filename == wanted {
                return Some(Sprite::from_frame(&self.frames[i].frame));
            }
            i += 1;
        }
        None
    }

    /// Returns a sprite from the atlas. The frame has to be there.
    pub fn create_sprite(&self, sprite_name: &str) -> (sprite: Sprite)
        requires
            self.lookup(sprite_name@) is Some,
        ensures
            Some(sprite) == self.lookup(sprite_name@),
    {
        match self.find_sprite(sprite_name) {
            Some(sprite) => sprite,
            None => vstd::pervasive::unreached(),
        }
    }
}

impl Sprite {
    /// The sprite that shows `frame` at its own size.
    pub open spec fn of_frame(frame: JsonRect) -> Sprite {
        Sprite {
            rect: Rect {
                x: (frame.x * UNIT) as i64,
                y: (frame.y * UNIT) as i64,
                w: (frame.w * UNIT) as i64,
                h: (frame.h * UNIT) as i64,
            },
            scale: Vector2 { x: UNIT, y: UNIT },
            width: (frame.w * UNIT) as i64,
            height: (frame.h * UNIT) as i64,
        }
    }

    /// The rectangle that the sprite covers when it stands at the origin.
    pub open spec fn bound_box(self) -> Rect {
        (Rect { x: 0, y: 0, w: self.width, h: self.height }).scaled(self.scale.x, self.scale.y)
    }

    /// The command that draws the sprite at `pos`, upright.
    pub open spec fn command_at(self, pos: Point2) -> DrawCommand {
        DrawCommand {
            src: self.rect,
            dest: pos,
            scale: self.scale,
            offset: Point2 { x: 0, y: 0 },
            rotation: 0,
        }
    }

    /// A sprite that shows the part `rect` of the sheet, upright and at its own size.
    pub fn new(rect: Rect, width: i64, height: i64) -> (sprite: Self)
        ensures
            sprite == (Sprite { rect, scale: Vector2 { x: UNIT, y: UNIT }, width, height }),
    {
        Sprite { rect, scale: Vector2::new(UNIT, UNIT), width, height }
    }

    /// The sprite that shows `frame`: a pixel becomes one unit of the game world.
    pub fn from_frame(frame: &JsonRect) -> (sprite: Self)
        ensures
            sprite == Sprite::of_frame(*frame),
    {
        let w: i64 = frame.w as i64 * UNIT;
        let h: i64 = frame.h as i64 * UNIT;
        Sprite::new(Rect::new(frame.x as i64 * UNIT, frame.y as i64 * UNIT, w, h), w, h)
    }

    /// Adds a draw command to the sprite batch.
    pub fn add_draw_param(&mut self, pos: Point2) -> (command: DrawCommand)
        ensures
            command == old(self).command_at(pos),
            *final(self) == *old(self),
    {
        self.draw_params(pos)
    }

    /// The command that draws the sprite at `pos`.
    pub fn draw_params(&self, pos: Point2) -> (command: DrawCommand)
        ensures
            command == self.command_at(pos),
    {
        DrawCommand {
            src: self.rect,
            dest: pos,
            scale: self.scale,
            offset: Point2::new(0, 0),
            rotation: 0,
        }
    }

    /// Returns the bounding box for this sprite.
    pub fn get_bound_box(&self) -> (r: Rect)
        ensures
            r == self.bound_box(),
    {
        let mut r = Rect::new(0, 0, self.width, self.height);
        r.scale(self.scale.x, self.scale.y);
        r
    }
}

} // verus!
