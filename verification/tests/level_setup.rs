use slingshot_settle::game::game_setup;
use slingshot_settle::geom::Vec2i;
use slingshot_settle::level::EntityData;
use slingshot_settle::level::LevelData;
use slingshot_settle::level::LevelError;
use slingshot_settle::level::Pixel;
use slingshot_settle::level::generate_level;
use slingshot_settle::level::validate_level;
use slingshot_settle::systems::draw_grid;

const BLACK: Pixel = Pixel { r: 0, g: 0, b: 0, a: 255 };
const RED: Pixel = Pixel { r: 255, g: 0, b: 0, a: 255 };
const BLANK: Pixel = Pixel { r: 255, g: 255, b: 255, a: 255 };

fn entity(entity_type: &str, x: i32, y: i32) -> EntityData {
    EntityData { entity_type: entity_type.to_string(), position: [x, y] }
}

fn level(world_bound: [i32; 4], entities: Vec<EntityData>) -> LevelData {
    LevelData { world_bound, ground_y: world_bound[3] - 1, entities }
}

#[test]
fn image_pixels_become_entities_in_order() {
    // 3 x 2 image, row-major: a box, a gap, the bird / a gap, a box, a gap.
    let pixels = vec![BLACK, BLANK, RED, BLANK, BLACK, BLANK];
    let l = generate_level(3, 2, &pixels);
    assert_eq!(l.world_bound, [0, 0, 3, 2]);
    assert_eq!(l.ground_y, 1);
    assert_eq!(l.entities.len(), 3);
    assert_eq!(l.entities[0].entity_type, "box");
    assert_eq!(l.entities[0].position, [0, 0]);
    assert_eq!(l.entities[1].entity_type, "bird");
    assert_eq!(l.entities[1].position, [2, 0]);
    assert_eq!(l.entities[2].entity_type, "box");
    assert_eq!(l.entities[2].position, [1, 1]);
}

#[test]
fn translucent_or_other_pixels_are_ignored() {
    let almost_black = Pixel { r: 0, g: 0, b: 0, a: 254 };
    let dark_red = Pixel { r: 254, g: 0, b: 0, a: 255 };
    let pixels = vec![almost_black, dark_red, BLANK, BLANK];
    let l = generate_level(2, 2, &pixels);
    assert_eq!(l.entities.len(), 0);
}

#[test]
fn validation_accepts_one_bird() {
    let l = level([0, 0, 10, 8], vec![entity("box", 1, 2), entity("bird", 3, 4)]);
    assert_eq!(validate_level(&l), Ok(()));
}

#[test]
fn validation_rejects_missing_bird() {
    let l = level([0, 0, 10, 8], vec![entity("box", 1, 2)]);
    assert_eq!(validate_level(&l), Err(LevelError::NoBird));
}

#[test]
fn validation_rejects_two_birds() {
    let l = level([0, 0, 10, 8], vec![entity("bird", 1, 2), entity("bird", 3, 4)]);
    assert_eq!(validate_level(&l), Err(LevelError::MultipleBirds));
}

#[test]
fn validation_rejects_disordered_bounds() {
    let l = level([5, 0, 2, 8], vec![entity("bird", 1, 2)]);
    assert_eq!(validate_level(&l), Err(LevelError::BadBounds));
}

#[test]
fn validation_rejects_entity_outside_grid() {
    let l = level([0, 0, 10, 8], vec![entity("bird", -1, 2)]);
    assert_eq!(validate_level(&l), Err(LevelError::BadEntityPosition));
}

#[test]
fn generated_level_passes_validation() {
    let pixels = vec![BLACK, BLANK, RED, BLANK, BLACK, BLANK];
    let l = generate_level(3, 2, &pixels);
    assert_eq!(validate_level(&l), Ok(()));
}

#[test]
fn setup_places_world_and_entities() {
    // A 4 x 3 level: one box at (1, 1), the bird at (2, 0).
    let l = level([0, 0, 4, 3], vec![entity("box", 1, 1), entity("bird", 2, 0)]);
    let plan = game_setup(&l);
    // World: 4 * 24000 wide, 3 * 24000 tall.
    assert_eq!(plan.camera_horizontal_extent, 96_000 + 50_000);
    assert_eq!(plan.camera_center, Vec2i { x: 48_000, y: 72_000 });
    assert_eq!(plan.ground.center, Vec2i { x: 48_000, y: 25_000 });
    assert_eq!(plan.ground.half_extents, Vec2i { x: 48_000, y: 25_000 });
    assert_eq!(plan.left_wall.center, Vec2i { x: -25_000, y: 72_000 });
    assert_eq!(plan.left_wall.half_extents, Vec2i { x: 25_000, y: 72_000 });
    assert_eq!(plan.right_wall.center, Vec2i { x: 96_000 + 25_000, y: 72_000 });
    // Box at column 1, row 1 of a 3-row image: x = 36000, y = 50000 + 24000 + 12000.
    assert_eq!(plan.boxes, vec![Vec2i { x: 36_000, y: 86_000 }]);
    // Bird at column 2, row 0: x = 60000, y = 50000 + 2 * 24000 + 12000.
    assert_eq!(plan.birds, vec![Vec2i { x: 60_000, y: 110_000 }]);
    assert_eq!(plan.bird_start, Vec2i { x: 60_000, y: 110_000 });
}

#[test]
fn setup_without_bird_anchors_at_origin() {
    let l = level([0, 0, 4, 3], vec![entity("box", 1, 1)]);
    let plan = game_setup(&l);
    assert!(plan.birds.is_empty());
    assert_eq!(plan.bird_start, Vec2i { x: 0, y: 0 });
}

#[test]
fn grid_lines_cover_the_bounds() {
    // 100 x 60 cells: 100000 x 60000 milli-units, cell 50000.
    let lines = draw_grid([0, 0, 100, 60]);
    assert_eq!(lines.len(), 2 + 1 + 2);
    assert_eq!(lines[0], (Vec2i { x: 0, y: 0 }, Vec2i { x: 0, y: -60_000 }));
    assert_eq!(lines[1], (Vec2i { x: 50_000, y: 0 }, Vec2i { x: 50_000, y: -60_000 }));
    assert_eq!(lines[2], (Vec2i { x: 100_000, y: 0 }, Vec2i { x: 100_000, y: -60_000 }));
    assert_eq!(lines[3], (Vec2i { x: 0, y: 0 }, Vec2i { x: 100_000, y: 0 }));
    assert_eq!(lines[4], (Vec2i { x: 0, y: -50_000 }, Vec2i { x: 100_000, y: -50_000 }));
}
