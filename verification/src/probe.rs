//! The collision probe: a short ray walked across the tile grid.
//!
//! A ray is walked in as many increments as its step count says. Increment
//! `k` ends at the sample point that lies `distance * k / steps` from the
//! origin. Every increment whose sample point lies on a cell with a collidable
//! tile reports a hit; all of them are returned, in the order walked, and the
//! caller picks the nearest.

use vstd::prelude::*;
use vstd::arithmetic::div_mod::{lemma_div_is_ordered, lemma_div_multiples_vanish, lemma_div_pos_is_pos};
use vstd::arithmetic::mul::{lemma_mul_inequality, lemma_mul_is_commutative, lemma_mul_nonnegative};
use crate::attr::{AttrSet, TileAttr};
use crate::grid::{lemma_cell_bounds, lemma_loc_in_range, GridView, TileGrid};
use crate::units::{clamp_coord, is_coord, spec_clamp_coord, COORD_MAX, UNIT};

verus! {

/// One of the four directions a probe can take.
#[derive(Clone, Copy, Debug, PartialEq, Eq, Structural)]
pub enum Direction {
    Left,
    Right,
    Up,
    Down,
}

impl Direction {
    /// The x-component of the unit vector.
    pub open spec fn dx(self) -> int {
        match self {
            Direction::Left => -1,
            Direction::Right => 1,
            _ => 0,
        }
    }

    /// The y-component of the unit vector; y grows downward.
    pub open spec fn dy(self) -> int {
        match self {
            Direction::Up => -1,
            Direction::Down => 1,
            _ => 0,
        }
    }

    /// The primary axis of a probe in this direction is the x-axis.
    pub open spec fn spec_horizontal(self) -> bool {
        self == Direction::Left || self == Direction::Right
    }

    /// The primary axis of a probe in this direction is the x-axis.
    pub fn horizontal(&self) -> (b: bool)
        ensures
            b == self.spec_horizontal(),
    {
        match self {
            Direction::Left => true,
            Direction::Right => true,
            _ => false,
        }
    }
}

/// A probe: where it starts, which way it goes, how far, and in how many
/// increments it is walked.
#[derive(Clone, Copy, Debug)]
pub struct Ray {
    pub origin_x: i64,
    pub origin_y: i64,
    pub direction: Direction,
    pub distance: i64,
    pub steps: u8,
}

/// One hit of a probe on a collidable tile.
#[derive(Clone, Copy, Debug, PartialEq, Eq, Structural)]
pub struct MapHit {
    /// The id of the tile.
    pub tile_id: usize,
    /// The linear index of the tile's cell.
    pub map_loc_id: usize,
    /// Where the line of the ray crosses the boundary through which it
    /// enters the cell.
    pub point_x: i64,
    pub point_y: i64,
    /// How much of the cell's extent the ray covers, on each axis.
    pub overlap_x: i64,
    pub overlap_y: i64,
}

impl MapHit {
    /// The point of the hit is no farther from the world than a probe can
    /// reach.
    pub open spec fn in_range(self) -> bool {
        &&& -3 * COORD_MAX <= self.point_x <= 3 * COORD_MAX
        &&& -3 * COORD_MAX <= self.point_y <= 3 * COORD_MAX
    }
}

/// The smaller of two numbers.
pub open spec fn spec_min(a: int, b: int) -> int {
    if a <= b {
        a
    } else {
        b
    }
}

/// The greater of two numbers.
pub open spec fn spec_max(a: int, b: int) -> int {
    if a >= b {
        a
    } else {
        b
    }
}

impl Ray {
    /// The origin is a world coordinate and the distance is not negative.
    pub open spec fn wf(self) -> bool {
        &&& is_coord(self.origin_x as int)
        &&& is_coord(self.origin_y as int)
        &&& 0 <= self.distance <= COORD_MAX
    }

    /// How far from the origin increment `k` ends.
    pub open spec fn reach(self, k: int) -> int
        recommends
            1 <= k <= self.steps,
    {
        (self.distance * k) / (self.steps as int)
    }

    /// The x-coordinate of the sample point of increment `k`.
    pub open spec fn sample_x(self, k: int) -> int {
        self.origin_x + self.direction.dx() * self.reach(k)
    }

    /// The y-coordinate of the sample point of increment `k`.
    pub open spec fn sample_y(self, k: int) -> int {
        self.origin_y + self.direction.dy() * self.reach(k)
    }

    /// The x-coordinate of the point where the ray ends.
    pub open spec fn end_x(self) -> int {
        self.origin_x + self.direction.dx() * self.distance
    }

    /// The y-coordinate of the point where the ray ends.
    pub open spec fn end_y(self) -> int {
        self.origin_y + self.direction.dy() * self.distance
    }

    /// The hit that a sample point on a cell of the grid reports.
    pub open spec fn hit_record(self, grid: GridView, x: int, y: int) -> MapHit
        recommends
            grid.wf(),
            grid.covers(x, y),
    {
        let loc = grid.loc_at(x, y);
        let left = grid.column_at(x) * grid.cell_width();
        let right = left + grid.cell_width();
        let top = grid.row_at(y) * grid.cell_height();
        let bottom = top + grid.cell_height();
        MapHit {
            tile_id: grid.cells[loc] as usize,
            map_loc_id: loc as usize,
            point_x: (match self.direction {
                Direction::Right => left,
                Direction::Left => right,
                _ => self.origin_x as int,
            }) as i64,
            point_y: (match self.direction {
                Direction::Down => top,
                Direction::Up => bottom,
                _ => self.origin_y as int,
            }) as i64,
            overlap_x: (spec_min(spec_max(self.origin_x as int, self.end_x()), right) - spec_max(
                spec_min(self.origin_x as int, self.end_x()),
                left,
            )) as i64,
            overlap_y: (spec_min(spec_max(self.origin_y as int, self.end_y()), bottom) - spec_max(
                spec_min(self.origin_y as int, self.end_y()),
                top,
            )) as i64,
        }
    }

    /// What increment `k` reports: a hit if its sample point lies on a cell
    /// whose tile id is collidable, nothing otherwise.
    pub open spec fn hit_at(self, grid: GridView, attrs: Map<usize, TileAttr>, k: int) -> Option<
        MapHit,
    > {
        let x = self.sample_x(k);
        let y = self.sample_y(k);
        if grid.covers(x, y) && attrs.contains_key(grid.cells[grid.loc_at(x, y)] as usize) {
            Some(self.hit_record(grid, x, y))
        } else {
            None
        }
    }

    /// The hits of the first `k` increments, in the order walked.
    pub open spec fn hits_upto(self, grid: GridView, attrs: Map<usize, TileAttr>, k: nat) -> Seq<
        MapHit,
    >
        decreases k,
    {
        if k == 0 {
            Seq::empty()
        } else {
            let before = self.hits_upto(grid, attrs, (k - 1) as nat);
            match self.hit_at(grid, attrs, k as int) {
                Some(h) => before.push(h),
                None => before,
            }
        }
    }

    /// All hits of the probe, in the order walked.
    pub open spec fn all_hits(self, grid: GridView, attrs: Map<usize, TileAttr>) -> Seq<MapHit> {
        self.hits_upto(grid, attrs, self.steps as nat)
    }

    /// How far a hit lies from the origin along the primary axis.
    pub open spec fn hit_distance(self, hit: MapHit) -> int {
        if self.direction.spec_horizontal() {
            if hit.point_x >= self.origin_x {
                hit.point_x - self.origin_x
            } else {
                self.origin_x - hit.point_x
            }
        } else {
            if hit.point_y >= self.origin_y {
                hit.point_y - self.origin_y
            } else {
                self.origin_y - hit.point_y
            }
        }
    }

    /// `i` is the index of the nearest hit: no hit is nearer, and every hit
    /// before it is farther.
    pub open spec fn is_nearest(self, hits: Seq<MapHit>, i: int) -> bool {
        &&& 0 <= i < hits.len()
        &&& forall|j: int|
            0 <= j < hits.len() ==> self.hit_distance(hits[i]) <= self.hit_distance(#[trigger] hits[j])
        &&& forall|j: int|
            0 <= j < i ==> self.hit_distance(hits[i]) < self.hit_distance(#[trigger] hits[j])
    }

    /// The nearest of the given hits, if there is any.
    pub open spec fn nearest_of(self, hits: Seq<MapHit>) -> Option<MapHit> {
        if hits.len() == 0 {
            None
        } else {
            Some(hits[choose|i: int| self.is_nearest(hits, i)])
        }
    }

    /// The nearest hit of the probe, if it hits a collidable tile at all.
    pub open spec fn nearest_collision(self, grid: GridView, attrs: Map<usize, TileAttr>) -> Option<
        MapHit,
    > {
        self.nearest_of(self.all_hits(grid, attrs))
    }

    /// The segment of the ray touches the box with the given edges.
    pub open spec fn touches_box(self, left: int, top: int, right: int, bottom: int) -> bool {
        &&& spec_max(spec_min(self.origin_x as int, self.end_x()), left) <= spec_min(
            spec_max(self.origin_x as int, self.end_x()),
            right,
        )
        &&& spec_max(spec_min(self.origin_y as int, self.end_y()), top) <= spec_min(
            spec_max(self.origin_y as int, self.end_y()),
            bottom,
        )
    }

    /// A probe from the given origin. Coordinates beyond the world's range
    /// and a negative distance are brought to the nearest value in range.
    pub fn new(origin_x: i64, origin_y: i64, direction: Direction, distance: i64, steps: u8) -> (ray:
        Ray)
        ensures
            ray.wf(),
            ray.direction == direction,
            ray.steps == steps,
            ray.origin_x == spec_clamp_coord(origin_x as int),
            ray.origin_y == spec_clamp_coord(origin_y as int),
            ray.distance == (if distance < 0 {
                0
            } else {
                spec_clamp_coord(distance as int)
            }),
    {
        Ray {
            origin_x: clamp_coord(origin_x),
            origin_y: clamp_coord(origin_y),
            direction,
            distance: if distance < 0 {
                0
            } else {
                clamp_coord(distance)
            },
            steps,
        }
    }

    /// Whether the origin is a world coordinate and the distance is not
    /// negative.
    pub fn well_formed(&self) -> (b: bool)
        ensures
            b == self.wf(),
    {
        -COORD_MAX <= self.origin_x && self.origin_x <= COORD_MAX && -COORD_MAX <= self.origin_y
            && self.origin_y <= COORD_MAX && 0 <= self.distance && self.distance <= COORD_MAX
    }

    /// Whether the segment of the ray touches the box with the given edges.
    pub fn hits_box(&self, left: i64, top: i64, right: i64, bottom: i64) -> (b: bool)
        requires
            self.wf(),
        ensures
            b == self.touches_box(left as int, top as int, right as int, bottom as int),
    {
        let (x0, x1) = self.extent_x();
        let (y0, y1) = self.extent_y();
        max(x0, left) <= min(x1, right) && max(y0, top) <= min(y1, bottom)
    }

    /// The extent of the ray on the x-axis, smaller end first.
    fn extent_x(&self) -> (e: (i64, i64))
        requires
            self.wf(),
        ensures
            e.0 == spec_min(self.origin_x as int, self.end_x()),
            e.1 == spec_max(self.origin_x as int, self.end_x()),
            e.0 <= e.1,
    {
        match self.direction {
            Direction::Left => (self.origin_x - self.distance, self.origin_x),
            Direction::Right => (self.origin_x, self.origin_x + self.distance),
            _ => (self.origin_x, self.origin_x),
        }
    }

    /// The extent of the ray on the y-axis, smaller end first.
    fn extent_y(&self) -> (e: (i64, i64))
        requires
            self.wf(),
        ensures
            e.0 == spec_min(self.origin_y as int, self.end_y()),
            e.1 == spec_max(self.origin_y as int, self.end_y()),
            e.0 <= e.1,
    {
        match self.direction {
            Direction::Up => (self.origin_y - self.distance, self.origin_y),
            Direction::Down => (self.origin_y, self.origin_y + self.distance),
            _ => (self.origin_y, self.origin_y),
        }
    }

    /// The sample point of increment `k`.
    fn sample(&self, k: u8) -> (p: (i64, i64))
        requires
            self.wf(),
            1 <= k <= self.steps,
        ensures
            p.0 == self.sample_x(k as int),
            p.1 == self.sample_y(k as int),
            -2 * COORD_MAX <= p.0 <= 2 * COORD_MAX,
            -2 * COORD_MAX <= p.1 <= 2 * COORD_MAX,
    {
        proof {
            lemma_reach_bounded(*self, k as int);
        }
        let reach: i64 = (self.distance * (k as i64)) / (self.steps as i64);
        match self.direction {
            Direction::Left => (self.origin_x - reach, self.origin_y),
            Direction::Right => (self.origin_x + reach, self.origin_y),
            Direction::Up => (self.origin_x, self.origin_y - reach),
            Direction::Down => (self.origin_x, self.origin_y + reach),
        }
    }

    /// The hit that a sample point on the cell `loc` reports.
    fn record(&self, grid: &TileGrid, x: i64, y: i64, loc: usize) -> (hit: MapHit)
        requires
            self.wf(),
            grid@.covers(x as int, y as int),
            loc == grid@.loc_at(x as int, y as int),
            loc < grid@.cells.len(),
            -2 * COORD_MAX <= x <= 2 * COORD_MAX,
            -2 * COORD_MAX <= y <= 2 * COORD_MAX,
        ensures
            hit == self.hit_record(grid@, x as int, y as int),
            hit.in_range(),
    {
        proof {
            use_type_invariant(grid);
        }
        let cell_w: i64 = (grid.tile_width() as i64) * UNIT;
        let cell_h: i64 = (grid.tile_height() as i64) * UNIT;
        proof {
            lemma_cell_bounds(x as int, cell_w as int);
            lemma_cell_bounds(y as int, cell_h as int);
        }
        let left: i64 = (x / cell_w) * cell_w;
        let right: i64 = left + cell_w;
        let top: i64 = (y / cell_h) * cell_h;
        let bottom: i64 = top + cell_h;
        let (x0, x1) = self.extent_x();
        let (y0, y1) = self.extent_y();
        MapHit {
            tile_id: grid.tile(loc) as usize,
            map_loc_id: loc,
            point_x: match self.direction {
                Direction::Right => left,
                Direction::Left => right,
                _ => self.origin_x,
            },
            point_y: match self.direction {
                Direction::Down => top,
                Direction::Up => bottom,
                _ => self.origin_y,
            },
            overlap_x: min(x1, right) - max(x0, left),
            overlap_y: min(y1, bottom) - max(y0, top),
        }
    }

    /// Walks the ray across the grid and returns every hit on a collidable
    /// tile, in the order walked.
    pub fn cast(&self, grid: &TileGrid, attrs: &AttrSet) -> (hits: Vec<MapHit>)
        requires
            self.wf(),
        ensures
            hits@ == self.all_hits(grid@, attrs@),
            forall|i: int|
                0 <= i < hits@.len() ==> hit_on_grid(#[trigger] hits@[i], grid@, attrs@) && hits@[i].in_range(),
    {
        proof {
            use_type_invariant(grid);
        }
        let mut hits: Vec<MapHit> = Vec::new();
        let mut k: u8 = 0;
        while k < self.steps
            invariant
                self.wf(),
                grid.wf(),
                k <= self.steps,
                hits@ == self.hits_upto(grid@, attrs@, k as nat),
                forall|i: int| 0 <= i < hits@.len() ==> (#[trigger] hits@[i]).in_range(),
            decreases self.steps - k,
        {
            k = k + 1;
            let (x, y) = self.sample(k);
            match grid.locate(x, y) {
                Some(loc) => {
                    if attrs.contains(grid.tile(loc) as usize) {
                        let hit = self.record(grid, x, y, loc);
                        hits.push(hit);
                    }
                },
                None => {},
            }
        }
        proof {
            lemma_hits_on_grid(*self, grid@, attrs@, self.steps as nat);
        }
        hits
    }

    /// The index of the nearest of the given hits: the first of those that
    /// lie nearest to the origin along the primary axis. There is none when
    /// there is no hit.
    pub fn nearest(&self, hits: &Vec<MapHit>) -> (index: Option<usize>)
        ensures
            index is None <==> hits@.len() == 0,
            index matches Some(i) ==> self.is_nearest(hits@, i as int) && self.nearest_of(hits@)
                == Some(hits@[i as int]),
    {
        if hits.len() == 0 {
            return None;
        }
        let mut best: usize = 0;
        let mut best_distance: i128 = self.distance_to(&hits[0]);
        let mut j: usize = 1;
        while j < hits.len()
            invariant
                1 <= j <= hits@.len(),
                best < j,
                best_distance == self.hit_distance(hits@[best as int]),
                forall|i: int|
                    0 <= i < j ==> best_distance <= self.hit_distance(#[trigger] hits@[i]),
                forall|i: int|
                    0 <= i < best ==> best_distance < self.hit_distance(#[trigger] hits@[i]),
            decreases hits@.len() - j,
        {
            let d: i128 = self.distance_to(&hits[j]);
            if d < best_distance {
                best = j;
                best_distance = d;
            }
            j = j + 1;
        }
        proof {
            lemma_nearest_unique(*self, hits@, best as int, choose|i: int| self.is_nearest(hits@, i));
        }
        Some(best)
    }

    /// How far a hit lies from the origin along the primary axis.
    fn distance_to(&self, hit: &MapHit) -> (d: i128)
        ensures
            d == self.hit_distance(*hit),
    {
        let (from, to): (i128, i128) = if self.direction.horizontal() {
            (self.origin_x as i128, hit.point_x as i128)
        } else {
            (self.origin_y as i128, hit.point_y as i128)
        };
        if to >= from {
            to - from
        } else {
            from - to
        }
    }

    /// Casts the probe and returns the nearest hit, if the probe hits a
    /// collidable tile at all.
    pub fn nearest_map_collision(&self, grid: &TileGrid, attrs: &AttrSet) -> (hit: Option<MapHit>)
        requires
            self.wf(),
        ensures
            hit == self.nearest_collision(grid@, attrs@),
            hit is None <==> self.all_hits(grid@, attrs@).len() == 0,
            hit matches Some(h) ==> hit_on_grid(h, grid@, attrs@) && h.in_range(),
    {
        let hits = self.cast(grid, attrs);
        match self.nearest(&hits) {
            Some(i) => Some(hits[i]),
            None => None,
        }
    }
}

/// The nearest hit of several probes, and the probe that reported it.
#[derive(Clone, Copy, Debug, PartialEq, Eq, Structural)]
pub struct RayHit {
    /// Which of the probes reported the hit.
    pub sensor: usize,
    pub hit: MapHit,
}

/// How far hit `j` of probe `s` lies from the origin of that probe, along its
/// primary axis.
pub open spec fn spec_distance_among(
    sensors: Seq<Ray>,
    grid: GridView,
    attrs: Map<usize, TileAttr>,
    s: int,
    j: int,
) -> int {
    sensors[s].hit_distance(sensors[s].all_hits(grid, attrs)[j])
}

/// Hit `j` of probe `s` is one of the hits of the probes.
pub open spec fn spec_hit_among(
    sensors: Seq<Ray>,
    grid: GridView,
    attrs: Map<usize, TileAttr>,
    s: int,
    j: int,
) -> bool {
    0 <= s < sensors.len() && 0 <= j < sensors[s].all_hits(grid, attrs).len()
}

/// Hit `j` of probe `s` is the nearest hit of all probes: no hit of any probe
/// is nearer to the origin of its probe, and every hit of an earlier probe
/// and every earlier hit of the same probe is farther.
pub open spec fn spec_nearest_among(
    sensors: Seq<Ray>,
    grid: GridView,
    attrs: Map<usize, TileAttr>,
    s: int,
    j: int,
) -> bool {
    &&& spec_hit_among(sensors, grid, attrs, s, j)
    &&& forall|t: int, i: int| #[trigger]
        spec_hit_among(sensors, grid, attrs, t, i) ==> spec_distance_among(sensors, grid, attrs, s, j)
            <= spec_distance_among(sensors, grid, attrs, t, i)
    &&& forall|t: int, i: int| #[trigger]
        spec_hit_among(sensors, grid, attrs, t, i) && (t < s || (t == s && i < j)) ==> spec_distance_among(
            sensors,
            grid,
            attrs,
            s,
            j,
        ) < spec_distance_among(sensors, grid, attrs, t, i)
}

/// At most one hit is the nearest hit of all probes.
pub proof fn lemma_nearest_among_unique(
    sensors: Seq<Ray>,
    grid: GridView,
    attrs: Map<usize, TileAttr>,
    s: int,
    j: int,
    t: int,
    i: int,
)
    requires
        spec_nearest_among(sensors, grid, attrs, s, j),
        spec_nearest_among(sensors, grid, attrs, t, i),
    ensures
        s == t && j == i,
{
    assert(spec_hit_among(sensors, grid, attrs, s, j));
    assert(spec_hit_among(sensors, grid, attrs, t, i));
}

/// Casts several probes and returns the nearest hit of all, with the probe
/// that reported it; of hits that are equally near, the one of the earliest
/// probe counts, and of that probe the earliest. There is none when no probe
/// hits a collidable tile.
pub fn nearest_among(sensors: &Vec<Ray>, grid: &TileGrid, attrs: &AttrSet) -> (found: Option<RayHit>)
    requires
        forall|s: int| 0 <= s < sensors@.len() ==> (#[trigger] sensors@[s]).wf(),
    ensures
        found is None <==> forall|s: int|
            0 <= s < sensors@.len() ==> (#[trigger] sensors@[s]).all_hits(grid@, attrs@).len() == 0,
        found matches Some(f) ==> {
            &&& f.sensor < sensors@.len()
            &&& hit_on_grid(f.hit, grid@, attrs@)
            &&& f.hit.in_range()
            &&& exists|j: int|
                spec_nearest_among(sensors@, grid@, attrs@, f.sensor as int, j) && f.hit
                    == #[trigger] sensors@[f.sensor as int].all_hits(grid@, attrs@)[j]
        },
{
    let mut found: Option<RayHit> = None;
    let mut found_distance: i128 = 0;
    let ghost mut found_index: int = 0;
    let mut s: usize = 0;
    while s < sensors.len()
        invariant
            s <= sensors@.len(),
            forall|t: int| 0 <= t < sensors@.len() ==> (#[trigger] sensors@[t]).wf(),
            found is None <==> forall|t: int|
                0 <= t < s ==> (#[trigger] sensors@[t]).all_hits(grid@, attrs@).len() == 0,
            found matches Some(f) ==> {
                &&& f.sensor < s
                &&& hit_on_grid(f.hit, grid@, attrs@)
                &&& f.hit.in_range()
                &&& spec_hit_among(sensors@, grid@, attrs@, f.sensor as int, found_index)
                &&& f.hit == sensors@[f.sensor as int].all_hits(grid@, attrs@)[found_index]
                &&& found_distance == spec_distance_among(
                    sensors@,
                    grid@,
                    attrs@,
                    f.sensor as int,
                    found_index,
                )
                &&& forall|t: int, i: int| #[trigger]
                    spec_hit_among(sensors@, grid@, attrs@, t, i) && t < s ==> found_distance
                        <= spec_distance_among(sensors@, grid@, attrs@, t, i)
                &&& forall|t: int, i: int| #[trigger]
                    spec_hit_among(sensors@, grid@, attrs@, t, i) && (t < f.sensor || (t == f.sensor && i
                        < found_index)) ==> found_distance < spec_distance_among(
                        sensors@,
                        grid@,
                        attrs@,
                        t,
                        i,
                    )
            },
        decreases sensors@.len() - s,
    {
        let ray = &sensors[s];
        let hits = ray.cast(grid, attrs);
        match ray.nearest(&hits) {
            Some(j) => {
                let d = ray.distance_to(&hits[j]);
                let nearer = match found {
                    Some(_) => d < found_distance,
                    None => true,
                };
                if nearer {
                    proof {
                        assert forall|t: int, i: int| #[trigger]
                            spec_hit_among(sensors@, grid@, attrs@, t, i) && (t < s || (t == s && i
                                < j)) implies d < spec_distance_among(sensors@, grid@, attrs@, t, i) by {
                            if t == s {
                                assert(ray.hit_distance(hits@[j as int]) < ray.hit_distance(hits@[i]));
                            }
                        }
                        assert forall|t: int, i: int| #[trigger]
                            spec_hit_among(sensors@, grid@, attrs@, t, i) && t < s + 1 implies d
                            <= spec_distance_among(sensors@, grid@, attrs@, t, i) by {
                            if t == s {
                                assert(ray.hit_distance(hits@[j as int]) <= ray.hit_distance(hits@[i]));
                            }
                        }
                        found_index = j as int;
                    }
                    found = Some(RayHit { sensor: s, hit: hits[j] });
                    found_distance = d;
                } else {
                    proof {
                        assert forall|t: int, i: int| #[trigger]
                            spec_hit_among(sensors@, grid@, attrs@, t, i) && t < s + 1 implies found_distance
                            <= spec_distance_among(sensors@, grid@, attrs@, t, i) by {
                            if t == s {
                                assert(ray.hit_distance(hits@[j as int]) <= ray.hit_distance(hits@[i]));
                            }
                        }
                    }
                }
            },
            None => {},
        }
        s = s + 1;
    }
    proof {
        match found {
            Some(f) => {
                assert(spec_nearest_among(sensors@, grid@, attrs@, f.sensor as int, found_index));
            },
            None => {},
        }
    }
    found
}

/// A hit names a cell of the grid, the tile id in that cell, and that tile id
/// is collidable.
pub open spec fn hit_on_grid(hit: MapHit, grid: GridView, attrs: Map<usize, TileAttr>) -> bool {
    &&& hit.map_loc_id < grid.cells.len()
    &&& hit.tile_id == grid.cells[hit.map_loc_id as int] as usize
    &&& attrs.contains_key(hit.tile_id)
}

fn min(a: i64, b: i64) -> (r: i64)
    ensures
        r == spec_min(a as int, b as int),
{
    if a <= b {
        a
    } else {
        b
    }
}

fn max(a: i64, b: i64) -> (r: i64)
    ensures
        r == spec_max(a as int, b as int),
{
    if a >= b {
        a
    } else {
        b
    }
}

/// No increment reaches farther than the ray is long.
pub proof fn lemma_reach_bounded(ray: Ray, k: int)
    requires
        ray.wf(),
        1 <= k <= ray.steps,
    ensures
        0 <= ray.reach(k) <= ray.distance,
        0 <= ray.distance * k <= ray.distance * 255,
{
    let d = ray.distance as int;
    let s = ray.steps as int;
    lemma_mul_nonnegative(d, k);
    lemma_mul_is_commutative(d, k);
    lemma_mul_is_commutative(d, s);
    lemma_mul_is_commutative(d, 255);
    lemma_mul_inequality(k, s, d);
    lemma_mul_inequality(k, 255, d);
    lemma_div_pos_is_pos(d * k, s);
    lemma_div_is_ordered(d * k, d * s, s);
    lemma_div_multiples_vanish(d, s);
    lemma_mul_is_commutative(s, d);
}

/// At most one index is the index of the nearest hit.
pub proof fn lemma_nearest_unique(ray: Ray, hits: Seq<MapHit>, i: int, j: int)
    requires
        ray.is_nearest(hits, i),
        ray.is_nearest(hits, j),
    ensures
        i == j,
{
    if i < j {
        assert(ray.hit_distance(hits[j]) < ray.hit_distance(hits[i]));
        assert(ray.hit_distance(hits[i]) <= ray.hit_distance(hits[j]));
    } else if j < i {
        assert(ray.hit_distance(hits[i]) < ray.hit_distance(hits[j]));
        assert(ray.hit_distance(hits[j]) <= ray.hit_distance(hits[i]));
    }
}

/// Every hit of a probe names a cell of the grid whose tile id is collidable:
/// a tile id without an entry in the attribute set is never reported.
pub proof fn lemma_hits_on_grid(ray: Ray, grid: GridView, attrs: Map<usize, TileAttr>, k: nat)
    requires
        grid.wf(),
    ensures
        ray.hits_upto(grid, attrs, k).len() <= k,
        forall|i: int|
            0 <= i < ray.hits_upto(grid, attrs, k).len() ==> hit_on_grid(
                #[trigger] ray.hits_upto(grid, attrs, k)[i],
                grid,
                attrs,
            ),
    decreases k,
{
    if k > 0 {
        lemma_hits_on_grid(ray, grid, attrs, (k - 1) as nat);
        let x = ray.sample_x(k as int);
        let y = ray.sample_y(k as int);
        if grid.covers(x, y) {
            lemma_loc_in_range(grid, grid.row_at(y), grid.column_at(x));
        }
    }
}

/// Every hit of the first `k` increments of a probe is on a tile id that has
/// an entry in the attribute set.
pub proof fn lemma_hits_are_registered(ray: Ray, grid: GridView, attrs: Map<usize, TileAttr>, k: nat)
    ensures
        forall|i: int|
            0 <= i < ray.hits_upto(grid, attrs, k).len() ==> attrs.contains_key(
                (#[trigger] ray.hits_upto(grid, attrs, k)[i]).tile_id,
            ),
    decreases k,
{
    if k > 0 {
        lemma_hits_are_registered(ray, grid, attrs, (k - 1) as nat);
        let before = ray.hits_upto(grid, attrs, (k - 1) as nat);
        let now = ray.hits_upto(grid, attrs, k);
        assert forall|i: int| 0 <= i < now.len() implies attrs.contains_key((#[trigger] now[i]).tile_id) by {
            if i < before.len() {
                assert(now[i] == before[i]);
            }
        }
    }
}

/// A probe reports no hit on a tile id that has no entry in the attribute
/// set, whatever its origin, direction, length and step count, and whatever
/// the grid.
pub proof fn lemma_unregistered_tile_never_hit(
    ray: Ray,
    grid: GridView,
    attrs: Map<usize, TileAttr>,
    tile_id: usize,
    i: int,
)
    requires
        !attrs.contains_key(tile_id),
        0 <= i < ray.all_hits(grid, attrs).len(),
    ensures
        ray.all_hits(grid, attrs)[i].tile_id != tile_id,
{
    lemma_hits_are_registered(ray, grid, attrs, ray.steps as nat);
}

/// A probe over a grid none of whose tile ids has an entry in the attribute
/// set reports nothing.
pub proof fn lemma_no_registered_tile_no_hit(ray: Ray, grid: GridView, attrs: Map<usize, TileAttr>, k: nat)
    requires
        grid.wf(),
        forall|loc: int| 0 <= loc < grid.cells.len() ==> !attrs.contains_key(#[trigger] grid.cells[loc] as usize),
    ensures
        ray.hits_upto(grid, attrs, k).len() == 0,
    decreases k,
{
    if k > 0 {
        lemma_no_registered_tile_no_hit(ray, grid, attrs, (k - 1) as nat);
        let x = ray.sample_x(k as int);
        let y = ray.sample_y(k as int);
        if grid.covers(x, y) {
            lemma_loc_in_range(grid, grid.row_at(y), grid.column_at(x));
        }
    }
}

} // verus!
