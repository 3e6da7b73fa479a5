//! Level data: the grid bounds, the placed entities, validation at load
//! time, and the offline image-to-level conversion.
//!
//! A level is a grid of cells; each entity is a box or the bird, placed at
//! a grid cell. The conversion walks an image's pixels in row-major order
//! and turns every opaque black pixel into a box and every opaque red
//! pixel into the bird.

use vstd::prelude::*;

verus! {

/// Largest grid coordinate a level may use.
pub const MAX_GRID: i32 = 40_000;

/// One entity of a level: its kind (`"box"` or `"bird"`) and its grid
/// cell.
#[derive(Clone, Debug)]
pub struct EntityData {
    pub entity_type: String,
    pub position: [i32; 2],
}

/// A level: the grid bounds as `[left, top, right, bottom]`, the ground
/// row, and the entities to place.
#[derive(Clone, Debug)]
pub struct LevelData {
    pub world_bound: [i32; 4],
    pub ground_y: i32,
    pub entities: Vec<EntityData>,
}

/// The entity is the designated bird.
pub open spec fn is_bird(e: EntityData) -> bool {
    e.entity_type@ == "bird"@
}

/// How many of the entities are birds.
pub open spec fn count_birds(s: Seq<EntityData>) -> int
    decreases s.len(),
{
    if s.len() == 0 {
        0
    } else {
        count_birds(s.drop_last()) + if is_bird(s.last()) {
            1int
        } else {
            0int
        }
    }
}

/// The grid bounds are ordered and within the grid limit.
pub open spec fn level_bounds_wf(wb: Seq<i32>) -> bool {
    &&& wb.len() == 4
    &&& 0 <= wb[0] <= wb[2] <= MAX_GRID
    &&& 0 <= wb[1] <= wb[3] <= MAX_GRID
}

/// The entity sits inside the grid limit.
pub open spec fn entity_in_grid(e: EntityData) -> bool {
    &&& 0 <= e.position@[0] <= MAX_GRID
    &&& 0 <= e.position@[1] <= MAX_GRID
}

/// A well-formed level: ordered bounds and every entity inside the grid.
pub open spec fn level_wf(l: LevelData) -> bool {
    &&& level_bounds_wf(l.world_bound@)
    &&& forall|i: int| 0 <= i < l.entities@.len() ==> entity_in_grid(#[trigger] l.entities@[i])
}

/// Why a level was rejected at load time.
#[derive(Clone, Copy, PartialEq, Eq, Structural, Debug)]
pub enum LevelError {
    BadBounds,
    BadEntityPosition,
    NoBird,
    MultipleBirds,
}

/// What `validate_level` decides for a level.
pub open spec fn validate_spec(l: LevelData) -> Result<(), LevelError> {
    if !level_bounds_wf(l.world_bound@) {
        Err(LevelError::BadBounds)
    } else if !(forall|i: int|
        0 <= i < l.entities@.len() ==> entity_in_grid(#[trigger] l.entities@[i])) {
        Err(LevelError::BadEntityPosition)
    } else if count_birds(l.entities@) == 0 {
        Err(LevelError::NoBird)
    } else if count_birds(l.entities@) != 1 {
        Err(LevelError::MultipleBirds)
    } else {
        Ok(())
    }
}

/// Checks a level before it is used: the bounds must be ordered and
/// within the grid limit, every entity must sit inside the grid, and
/// exactly one bird must be present.
pub fn validate_level(level: &LevelData) -> (r: Result<(), LevelError>)
    ensures
        r == validate_spec(*level),
        r is Ok <==> (level_wf(*level) && count_birds(level.entities@) == 1),
{
    let wb = &level.world_bound;
    if !(0 <= wb[0] && wb[0] <= wb[2] && wb[2] <= MAX_GRID && 0 <= wb[1] && wb[1] <= wb[3]
        && wb[3] <= MAX_GRID) {
        return Err(LevelError::BadBounds);
    }
    proof {
        assert(level_bounds_wf(level.world_bound@));
    }
    let bird_name = String::from_str("bird");
    let n = level.entities.len();
    let mut birds: usize = 0;
    let mut i: usize = 0;
    while i < n
        invariant
            n == level.entities@.len(),
            i <= n,
            birds <= i,
            bird_name@ == "bird"@,
            level_bounds_wf(level.world_bound@),
            forall|k: int| 0 <= k < i ==> entity_in_grid(#[trigger] level.entities@[k]),
            birds == count_birds(level.entities@.take(i as int)),
        decreases n - i,
    {
        let e = &level.entities[i];
        if !(0 <= e.position[0] && e.position[0] <= MAX_GRID && 0 <= e.position[1]
            && e.position[1] <= MAX_GRID) {
            proof {
                assert(!entity_in_grid(level.entities@[i as int]));
            }
            return Err(LevelError::BadEntityPosition);
        }
        let is_b = e.entity_type == bird_name;
        proof {
            let pre = level.entities@.take(i as int);
            let post = level.entities@.take(i as int + 1);
            assert(post.drop_last() =~= pre);
            assert(post.last() == level.entities@[i as int]);
        }
        if is_b {
            birds = birds + 1;
        }
        i = i + 1;
    }
    proof {
        assert(level.entities@.take(n as int) =~= level.entities@);
    }
    if birds == 0 {
        Err(LevelError::NoBird)
    } else if birds != 1 {
        Err(LevelError::MultipleBirds)
    } else {
        Ok(())
    }
}

/// One image pixel, straight RGBA.
#[derive(Clone, Copy, PartialEq, Eq, Structural, Debug)]
pub struct Pixel {
    pub r: u8,
    pub g: u8,
    pub b: u8,
    pub a: u8,
}

/// The entity kind a pixel stands for: opaque black is a box, opaque red
/// the bird, anything else empty space.
pub open spec fn pixel_entity_kind(p: Pixel) -> Option<Seq<char>> {
    if p == (Pixel { r: 0, g: 0, b: 0, a: 255 }) {
        Some("box"@)
    } else if p == (Pixel { r: 255, g: 0, b: 0, a: 255 }) {
        Some("bird"@)
    } else {
        None
    }
}

/// An entity reduced to what the level generation promises: its kind and
/// its grid cell.
pub open spec fn entity_model(e: EntityData) -> (Seq<char>, int, int) {
    (e.entity_type@, e.position@[0] as int, e.position@[1] as int)
}

/// The entities generated from the first `i` pixels of a row-major image
/// of the given width, as models.
pub open spec fn level_models_up_to(pixels: Seq<Pixel>, width: int, i: int) -> Seq<
    (Seq<char>, int, int),
>
    recommends
        width >= 1,
    decreases i,
{
    if i <= 0 {
        Seq::empty()
    } else {
        level_models_up_to(pixels, width, i - 1) + match pixel_entity_kind(pixels[i - 1]) {
            Some(t) => seq![(t, (i - 1) % width, (i - 1) / width)],
            None => Seq::empty(),
        }
    }
}

/// The entities generated from a whole row-major image.
pub open spec fn level_models(pixels: Seq<Pixel>, width: int) -> Seq<(Seq<char>, int, int)> {
    level_models_up_to(pixels, width, pixels.len() as int)
}

/// Builds a level from a row-major image: bounds `[0, 0, width, height]`,
/// the ground on the last row, a box for every opaque black pixel and the
/// bird for every opaque red one, in pixel order.
pub fn generate_level(width: u32, height: u32, pixels: &Vec<Pixel>) -> (level: LevelData)
    requires
        1 <= width <= MAX_GRID,
        1 <= height <= MAX_GRID,
        pixels@.len() == width * height,
    ensures
        level.world_bound@ =~= seq![0i32, 0i32, width as i32, height as i32],
        level.ground_y == height - 1,
        level.entities@.map_values(|e: EntityData| entity_model(e)) == level_models(
            pixels@,
            width as int,
        ),
        level_wf(level),
{
    proof {
        assert((width as int) * (height as int) <= 1_600_000_000) by (nonlinear_arith)
            requires
                1 <= width <= 40_000,
                1 <= height <= 40_000,
        ;
    }
    let total: usize = (width as usize) * (height as usize);
    let mut entities: Vec<EntityData> = Vec::new();
    let mut idx: usize = 0;
    while idx < total
        invariant
            total == pixels@.len(),
            1 <= width <= MAX_GRID,
            1 <= height <= MAX_GRID,
            pixels@.len() == width * height,
            idx <= total,
            entities@.map_values(|e: EntityData| entity_model(e)) == level_models_up_to(
                pixels@,
                width as int,
                idx as int,
            ),
            forall|k: int| 0 <= k < entities@.len() ==> entity_in_grid(#[trigger] entities@[k]),
        decreases total - idx,
    {
        let p = pixels[idx];
        let x = idx % (width as usize);
        let y = idx / (width as usize);
        proof {
            lemma_pixel_coords(idx as int, width as int, height as int);
        }
        let ghost pre_models = entities@.map_values(|e: EntityData| entity_model(e));
        if p.r == 0 && p.g == 0 && p.b == 0 && p.a == 255 {
            let e = EntityData {
                entity_type: String::from_str("box"),
                position: [x as i32, y as i32],
            };
            proof {
                assert(entity_model(e) == ("box"@, idx as int % width as int, idx as int
                    / width as int));
            }
            entities.push(e);
            proof {
                assert(entities@.map_values(|e2: EntityData| entity_model(e2)) =~= pre_models.push(
                    ("box"@, idx as int % width as int, idx as int / width as int),
                ));
                assert(level_models_up_to(pixels@, width as int, idx as int + 1) =~= pre_models.push(
                    ("box"@, idx as int % width as int, idx as int / width as int),
                ));
            }
        } else if p.r == 255 && p.g == 0 && p.b == 0 && p.a == 255 {
            let e = EntityData {
                entity_type: String::from_str("bird"),
                position: [x as i32, y as i32],
            };
            entities.push(e);
            proof {
                assert(entities@.map_values(|e2: EntityData| entity_model(e2)) =~= pre_models.push(
                    ("bird"@, idx as int % width as int, idx as int / width as int),
                ));
                assert(level_models_up_to(pixels@, width as int, idx as int + 1) =~= pre_models.push(
                    ("bird"@, idx as int % width as int, idx as int / width as int),
                ));
            }
        } else {
            proof {
                assert(pixel_entity_kind(pixels@[idx as int]) is None);
                assert(level_models_up_to(pixels@, width as int, idx as int + 1)
                    =~= level_models_up_to(pixels@, width as int, idx as int));
            }
        }
        idx = idx + 1;
    }
    let level = LevelData {
        world_bound: [0, 0, width as i32, height as i32],
        ground_y: (height as i32) - 1,
        entities,
    };
    level
}

/// Row-major coordinates: the cell of pixel `idx` lies inside the image.
proof fn lemma_pixel_coords(idx: int, width: int, height: int)
    requires
        width >= 1,
        height >= 1,
        0 <= idx < width * height,
    ensures
        0 <= idx % width < width,
        0 <= idx / width < height,
{
    vstd::arithmetic::div_mod::lemma_mod_bound(idx, width);
    vstd::arithmetic::div_mod::lemma_div_pos_is_pos(idx, width);
    assert(idx / width < height) by {
        if idx / width >= height {
            vstd::arithmetic::div_mod::lemma_fundamental_div_mod(idx, width);
            assert(idx == width * (idx / width) + idx % width);
            assert(width * (idx / width) >= width * height) by (nonlinear_arith)
                requires
                    idx / width >= height,
                    width >= 1,
            ;
            assert(false);
        }
    }
}

} // verus!
