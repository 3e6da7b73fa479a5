//! Level setup: turns validated level data into a placement plan — the
//! camera framing, the ground and wall colliders, and the world position
//! of every box and of the bird. The engine glue spawns bodies exactly
//! where the plan says.

use vstd::prelude::*;
use crate::geom::Vec2i;
use crate::level::EntityData;
use crate::level::LevelData;
use crate::level::entity_in_grid;
use crate::level::level_wf;

verus! {

/// Edge length of one grid cell in milli-units.
pub const UNIT_SIZE_MILLI: i64 = 24_000;

/// Height of the ground slab in milli-units.
pub const GROUND_HEIGHT_MILLI: i64 = 50_000;

/// Thickness of the side walls in milli-units.
pub const WALL_THICKNESS_MILLI: i64 = 50_000;

/// Radius of the bird's circular collider in milli-units.
pub const BIRD_RADIUS_MILLI: i64 = 14_000;

/// One static slab to spawn: its center and half-extents in milli-units.
#[derive(Clone, Copy, PartialEq, Eq, Structural, Debug)]
pub struct WallPlan {
    pub center: Vec2i,
    pub half_extents: Vec2i,
}

/// Everything the engine glue needs to spawn a level.
#[derive(Clone, Debug)]
pub struct SpawnPlan {
    pub camera_center: Vec2i,
    pub camera_horizontal_extent: i64,
    pub ground: WallPlan,
    pub left_wall: WallPlan,
    pub right_wall: WallPlan,
    pub boxes: Vec<Vec2i>,
    pub birds: Vec<Vec2i>,
    pub bird_start: Vec2i,
}

/// The level's width in milli-units.
pub open spec fn world_width_milli(l: LevelData) -> int {
    (l.world_bound@[2] - l.world_bound@[0]) * (UNIT_SIZE_MILLI as int)
}

/// The level's height in milli-units.
pub open spec fn world_height_milli(l: LevelData) -> int {
    (l.world_bound@[3] - l.world_bound@[1]) * (UNIT_SIZE_MILLI as int)
}

/// The level's height in grid rows.
pub open spec fn image_height(l: LevelData) -> int {
    l.world_bound@[3] - l.world_bound@[1]
}

/// The world x of a grid column: the center of that cell.
pub open spec fn entity_world_x(px: int) -> int {
    px * (UNIT_SIZE_MILLI as int) + (UNIT_SIZE_MILLI as int) / 2
}

/// The world y of a grid row: rows count downward from the top of the
/// image, and the stack rests on the ground slab.
pub open spec fn entity_world_y(py: int, image_h: int) -> int {
    (GROUND_HEIGHT_MILLI as int) + (image_h - 1 - py) * (UNIT_SIZE_MILLI as int) + (
    UNIT_SIZE_MILLI as int) / 2
}

/// The world positions of the first `i` entities of the given kind, in
/// entity order.
pub open spec fn placed_up_to(
    entities: Seq<EntityData>,
    image_h: int,
    kind: Seq<char>,
    i: int,
) -> Seq<(int, int)>
    decreases i,
{
    if i <= 0 {
        Seq::empty()
    } else {
        placed_up_to(entities, image_h, kind, i - 1) + if entities[i - 1].entity_type@ == kind {
            seq![
                (
                    entity_world_x(entities[i - 1].position@[0] as int),
                    entity_world_y(entities[i - 1].position@[1] as int, image_h),
                ),
            ]
        } else {
            Seq::empty()
        }
    }
}

/// The world positions of every entity of the given kind, in entity
/// order.
pub open spec fn placed(entities: Seq<EntityData>, image_h: int, kind: Seq<char>) -> Seq<
    (int, int),
> {
    placed_up_to(entities, image_h, kind, entities.len() as int)
}

/// The world position of one grid cell.
pub fn entity_world_position(px: i32, py: i32, image_h: i64) -> (p: Vec2i)
    requires
        0 <= px <= 40_000,
        0 <= py <= 40_000,
        0 <= image_h <= 40_000,
    ensures
        p.x == entity_world_x(px as int),
        p.y == entity_world_y(py as int, image_h as int),
        p.wf(),
{
    let x: i64 = (px as i64) * UNIT_SIZE_MILLI + 12_000;
    let y: i64 = GROUND_HEIGHT_MILLI + (image_h - 1 - (py as i64)) * UNIT_SIZE_MILLI + 12_000;
    Vec2i { x, y }
}

/// Builds the placement plan for a validated level.
///
/// The camera frames the whole level plus the wall thickness; the ground
/// slab spans the level's width; the two walls stand just outside it,
/// twice the level's height tall; every box and bird is placed at the
/// center of its grid cell; the slingshot anchor is the last bird's
/// position (the origin when the level has no bird).
pub fn game_setup(level: &LevelData) -> (plan: SpawnPlan)
    requires
        level_wf(*level),
    ensures
        plan.camera_horizontal_extent == world_width_milli(*level) + WALL_THICKNESS_MILLI,
        plan.camera_center.x == world_width_milli(*level) / 2,
        plan.camera_center.y == world_height_milli(*level),
        plan.ground == (WallPlan {
            center: Vec2i {
                x: (world_width_milli(*level) / 2) as i64,
                y: (GROUND_HEIGHT_MILLI / 2) as i64,
            },
            half_extents: Vec2i {
                x: (world_width_milli(*level) / 2) as i64,
                y: (GROUND_HEIGHT_MILLI / 2) as i64,
            },
        }),
        plan.left_wall == (WallPlan {
            center: Vec2i {
                x: (-(WALL_THICKNESS_MILLI / 2)) as i64,
                y: world_height_milli(*level) as i64,
            },
            half_extents: Vec2i {
                x: (WALL_THICKNESS_MILLI / 2) as i64,
                y: world_height_milli(*level) as i64,
            },
        }),
        plan.right_wall == (WallPlan {
            center: Vec2i {
                x: (world_width_milli(*level) + WALL_THICKNESS_MILLI / 2) as i64,
                y: world_height_milli(*level) as i64,
            },
            half_extents: Vec2i {
                x: (WALL_THICKNESS_MILLI / 2) as i64,
                y: world_height_milli(*level) as i64,
            },
        }),
        plan.boxes@.map_values(|p: Vec2i| (p.x as int, p.y as int)) == placed(
            level.entities@,
            image_height(*level),
            "box"@,
        ),
        plan.birds@.map_values(|p: Vec2i| (p.x as int, p.y as int)) == placed(
            level.entities@,
            image_height(*level),
            "bird"@,
        ),
        plan.birds@.len() == 0 ==> plan.bird_start == (Vec2i { x: 0, y: 0 }),
        plan.birds@.len() > 0 ==> plan.bird_start == plan.birds@.last(),
{
    let wb = &level.world_bound;
    let w: i64 = ((wb[2] as i64) - (wb[0] as i64)) * UNIT_SIZE_MILLI;
    let h: i64 = ((wb[3] as i64) - (wb[1] as i64)) * UNIT_SIZE_MILLI;
    let image_h: i64 = (wb[3] as i64) - (wb[1] as i64);
    let half_w: i64 = ((w as u64) / 2) as i64;
    let wall_tall_half: i64 = h;

    proof {
        reveal_strlit("box");
        reveal_strlit("bird");
        assert("box"@.len() == 3);
        assert("bird"@.len() == 4);
        assert("box"@ != "bird"@);
    }
    let box_name = String::from_str("box");
    let bird_name = String::from_str("bird");
    let mut boxes: Vec<Vec2i> = Vec::new();
    let mut birds: Vec<Vec2i> = Vec::new();
    let mut bird_start = Vec2i { x: 0, y: 0 };
    let n = level.entities.len();
    let mut i: usize = 0;
    while i < n
        invariant
            n == level.entities@.len(),
            i <= n,
            level_wf(*level),
            box_name@ == "box"@,
            bird_name@ == "bird"@,
            "box"@ != "bird"@,
            0 <= image_h <= 40_000,
            image_h == image_height(*level),
            boxes@.map_values(|p: Vec2i| (p.x as int, p.y as int)) == placed_up_to(
                level.entities@,
                image_h as int,
                "box"@,
                i as int,
            ),
            birds@.map_values(|p: Vec2i| (p.x as int, p.y as int)) == placed_up_to(
                level.entities@,
                image_h as int,
                "bird"@,
                i as int,
            ),
            birds@.len() == 0 ==> bird_start == (Vec2i { x: 0, y: 0 }),
            birds@.len() > 0 ==> bird_start == birds@.last(),
        decreases n - i,
    {
        let e = &level.entities[i];
        proof {
            assert(entity_in_grid(level.entities@[i as int]));
        }
        let ghost pre_boxes = boxes@.map_values(|p: Vec2i| (p.x as int, p.y as int));
        let ghost pre_birds = birds@.map_values(|p: Vec2i| (p.x as int, p.y as int));
        let pos = entity_world_position(e.position[0], e.position[1], image_h);
        if e.entity_type == box_name {
            boxes.push(pos);
            proof {
                assert(boxes@.map_values(|p: Vec2i| (p.x as int, p.y as int)) =~= pre_boxes.push(
                    ((pos.x as int), (pos.y as int)),
                ));
                assert(placed_up_to(level.entities@, image_h as int, "box"@, i as int + 1)
                    =~= pre_boxes.push(((pos.x as int), (pos.y as int))));
                assert(placed_up_to(level.entities@, image_h as int, "bird"@, i as int + 1)
                    =~= pre_birds);
            }
        } else if e.entity_type == bird_name {
            birds.push(pos);
            bird_start = pos;
            proof {
                assert(birds@.map_values(|p: Vec2i| (p.x as int, p.y as int)) =~= pre_birds.push(
                    ((pos.x as int), (pos.y as int)),
                ));
                assert(placed_up_to(level.entities@, image_h as int, "bird"@, i as int + 1)
                    =~= pre_birds.push(((pos.x as int), (pos.y as int))));
                assert(placed_up_to(level.entities@, image_h as int, "box"@, i as int + 1)
                    =~= pre_boxes);
            }
        } else {
            proof {
                assert(placed_up_to(level.entities@, image_h as int, "box"@, i as int + 1)
                    =~= pre_boxes);
                assert(placed_up_to(level.entities@, image_h as int, "bird"@, i as int + 1)
                    =~= pre_birds);
            }
        }
        i = i + 1;
    }
    SpawnPlan {
        camera_center: Vec2i { x: half_w, y: h },
        camera_horizontal_extent: w + WALL_THICKNESS_MILLI,
        ground: WallPlan {
            center: Vec2i { x: half_w, y: 25_000 },
            half_extents: Vec2i { x: half_w, y: 25_000 },
        },
        left_wall: WallPlan {
            center: Vec2i { x: -25_000, y: wall_tall_half },
            half_extents: Vec2i { x: 25_000, y: wall_tall_half },
        },
        right_wall: WallPlan {
            center: Vec2i { x: w + 25_000, y: wall_tall_half },
            half_extents: Vec2i { x: 25_000, y: wall_tall_half },
        },
        boxes,
        birds,
        bird_start,
    }
}

} // verus!
