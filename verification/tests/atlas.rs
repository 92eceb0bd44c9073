use flappy_crab::atlas::{Atlas, DrawCommand, JsonRect, Sprite, SpriteData};
use flappy_crab::geometry::{Point2, Rect, Vector2};

fn frame(name: &str, x: i32, y: i32, w: i32, h: i32) -> SpriteData {
    SpriteData { filename: name.to_string(), frame: JsonRect { x, y, w, h } }
}

fn sheet() -> Atlas {
    Atlas::new(
        vec![
            frame("crab0.png", 0, 0, 17, 12),
            frame("crab1.png", 17, 0, 17, 12),
            frame("crab0.png", 40, 40, 1, 1),
        ],
        64,
        32,
    )
}

#[test]
fn atlas_keeps_frames_and_size() {
    let atlas = sheet();
    assert_eq!(atlas.frames.len(), 3);
    assert_eq!(atlas.meta.size.w, 64);
    assert_eq!(atlas.meta.size.h, 32);
}

#[test]
fn create_sprite_cuts_the_named_frame() {
    let sprite = sheet().create_sprite("crab1.png");
    assert_eq!(
        sprite,
        Sprite {
            rect: Rect { x: 17_000, y: 0, w: 17_000, h: 12_000 },
            scale: Vector2 { x: 1_000, y: 1_000 },
            width: 17_000,
            height: 12_000,
        }
    );
}

#[test]
fn the_first_frame_of_a_name_wins() {
    let sprite = sheet().create_sprite("crab0.png");
    assert_eq!(sprite.rect, Rect { x: 0, y: 0, w: 17_000, h: 12_000 });
}

#[test]
fn find_sprite_tells_when_a_name_is_missing() {
    let atlas = sheet();
    assert_eq!(atlas.find_sprite("crab2.png"), None);
    assert_eq!(atlas.find_sprite(""), None);
    assert_eq!(atlas.find_sprite("crab1.png"), Some(atlas.create_sprite("crab1.png")));
    assert_eq!(Atlas::new(Vec::new(), 1, 1).find_sprite("crab0.png"), None);
}

#[test]
fn from_frame_takes_the_largest_pixels() {
    let sprite = Sprite::from_frame(&JsonRect { x: i32::MAX, y: i32::MIN, w: -1, h: 0 });
    assert_eq!(sprite.rect.x, 2_147_483_647_000);
    assert_eq!(sprite.rect.y, -2_147_483_648_000);
    assert_eq!(sprite.width, -1_000);
    assert_eq!(sprite.height, 0);
}

#[test]
fn new_sprite_is_upright() {
    let sprite = Sprite::new(Rect::new(1, 2, 3, 4), 5, 6);
    assert_eq!(sprite.scale, Vector2 { x: 1_000, y: 1_000 });
    assert_eq!(sprite.rect, Rect::new(1, 2, 3, 4));
    assert_eq!((sprite.width, sprite.height), (5, 6));
}

#[test]
fn bound_box_follows_the_scale() {
    let mut sprite = Sprite::new(Rect::new(0, 0, 0, 0), 26_000, 12_000);
    assert_eq!(sprite.get_bound_box(), Rect::new(0, 0, 26_000, 12_000));
    sprite.scale.y = -1_000;
    assert_eq!(sprite.get_bound_box(), Rect::new(0, 0, 26_000, -12_000));
}

#[test]
fn draw_params_place_the_sprite() {
    let mut sprite = Sprite::new(Rect::new(1_000, 2_000, 3_000, 4_000), 3_000, 4_000);
    sprite.scale.y = -1_000;
    let expected = DrawCommand {
        src: Rect::new(1_000, 2_000, 3_000, 4_000),
        dest: Point2 { x: 40_000, y: -16_000 },
        scale: Vector2 { x: 1_000, y: -1_000 },
        offset: Point2 { x: 0, y: 0 },
        rotation: 0,
    };
    assert_eq!(sprite.draw_params(Point2::new(40_000, -16_000)), expected);
    assert_eq!(sprite.add_draw_param(Point2::new(40_000, -16_000)), expected);
}
