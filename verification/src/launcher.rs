//! The ranged weapon of the infiltration ruleset: a bounded pool of
//! projectiles, and the targets they are fired at.
//!
//! A projectile advances by its speed each frame. It expires when it has
//! travelled farther than its range, when a collidable tile obstructs it, or
//! when it strikes a target that was not struck before. Expired projectiles stay
//! in the pool until the next fire request sweeps them out.

use vstd::prelude::*;
use crate::attr::{AttrSet, TileAttr};
use crate::body::{BoxCollider, Transform};
use crate::grid::{GridView, TileGrid};
use crate::probe::{Direction, Ray};
use crate::render::{spec_hidden, spec_placed, RenderState, Sprite};
use crate::sounds::{play_effect, spec_cue, Cue, SFX};
use crate::units::{spec_to_pixel, to_pixel, COORD_MAX, RATE_MAX, UNIT};

verus! {

/// How far a projectile flies, in sub-pixel units.
pub const PROJECTILE_RANGE: i64 = 300000;

/// How far a projectile advances each frame, in sub-pixel units.
pub const PROJECTILE_SPEED: i64 = 8000;

/// The cooldown count that a fire request must have passed.
pub const FIRE_COOLDOWN: u8 = 8;

/// For how many samples the effect of a shot sounds.
pub const FIRE_SAMPLES: usize = 8000;

/// The tile set and palette of a projectile's sprite.
pub const PROJECTILE_TILE_SET: usize = 4;

/// The tile set and palette of a target's sprite.
pub const TARGET_TILE_SET: usize = 3;

/// The tile that shows a target.
pub const TARGET_TILE: usize = 87;

/// The first of the tiles that show a projectile.
pub const PROJECTILE_FIRST_TILE: usize = 48;

/// Something to shoot at.
#[derive(Clone, Copy, Debug, PartialEq, Eq, Structural)]
pub struct Target {
    pub entity_id: usize,
    /// The target was struck.
    pub hit: bool,
    pub transform: Transform,
    pub collider: BoxCollider,
    /// The sprite slot that shows the target.
    pub sprite_id: usize,
}

/// A projectile in flight, or one that has expired and awaits the sweep.
#[derive(Clone, Copy, Debug, PartialEq, Eq, Structural)]
pub struct Projectile {
    pub max_distance: i64,
    pub distance_traveled: i64,
    pub expired: bool,
    pub speed: i64,
    pub direction: Direction,
    pub transform: Transform,
    /// The sprite slot that shows the projectile.
    pub sprite_id: usize,
}

/// The weapon: a cooldown, an ammunition count, and the pool of its projectiles,
/// oldest first.
pub struct Launcher {
    pub cooldown: u8,
    pub max_projectiles: u8,
    pub ammo: u8,
    /// The animation frame that shows a projectile of this launcher.
    pub projectile_tile: usize,
    pub projectile_speed: i64,
    pub projectiles: Vec<Projectile>,
}

/// The box around a target: it reaches eight pixels to the left of and above
/// the target's position, and twenty-four to the right and below.
pub open spec fn spec_target_box() -> BoxCollider {
    BoxCollider {
        entity_id: 0,
        top: (-8000) as i64,
        bottom: 24000,
        left: (-8000) as i64,
        right: 24000,
    }
}

/// The sprite that shows a target.
pub open spec fn spec_target_sprite(at: Transform) -> Sprite {
    Sprite {
        tile_set_id: TARGET_TILE_SET,
        palette_id: TARGET_TILE_SET,
        frame: TARGET_TILE,
        width: 16,
        height: 16,
        scene_x: spec_to_pixel(at.scene_x as int) as u16,
        scene_y: spec_to_pixel(at.scene_y as int) as u16,
        reverse_x: false,
        hide: false,
    }
}

impl Target {
    /// A target at the given position that was not struck, with the box of a
    /// target around it and no sprite of its own yet.
    pub fn new(scene_x: i64, scene_y: i64) -> (t: Target)
        ensures
            t == (Target {
                entity_id: 0,
                hit: false,
                transform: Transform::at(0, scene_x as int, scene_y as int),
                collider: spec_target_box(),
                sprite_id: 0,
            }),
            t.transform.wf(),
    {
        Target {
            entity_id: 0,
            hit: false,
            transform: Transform::new(0, scene_x, scene_y),
            collider: BoxCollider { entity_id: 0, top: -8000, bottom: 24000, left: -8000, right: 24000 },
            sprite_id: 0,
        }
    }

    /// Gives the target a sprite of its own, at the target's position.
    pub fn init(&mut self, render: &mut RenderState)
        ensures
            final(self).sprite_id == old(render).sprites@.len(),
            *final(self) == (Target { sprite_id: final(self).sprite_id, ..*old(self) }),
            final(render).sprites@ == old(render).sprites@.push(spec_target_sprite(old(self).transform)),
            final(render).tile_maps@ == old(render).tile_maps@,
    {
        let sprite = Sprite {
            tile_set_id: TARGET_TILE_SET,
            palette_id: TARGET_TILE_SET,
            frame: TARGET_TILE,
            width: 16,
            height: 16,
            scene_x: to_pixel(self.transform.scene_x),
            scene_y: to_pixel(self.transform.scene_y),
            reverse_x: false,
            hide: false,
        };
        self.sprite_id = render.add_sprite(sprite);
    }

    /// Moves the target's sprite to the target's position.
    pub fn update(&self, render: &mut RenderState)
        ensures
            final(render).sprites@ == spec_placed(
                old(render).sprites@,
                self.sprite_id as int,
                self.transform.scene_x as int,
                self.transform.scene_y as int,
            ),
            final(render).tile_maps@ == old(render).tile_maps@,
    {
        render.place_sprite(self.sprite_id, self.transform.scene_x, self.transform.scene_y);
    }

    /// A probe strikes the target: the target was not struck before and the
    /// probe touches its box.
    pub open spec fn struck_by(self, ray: Ray) -> bool {
        &&& !self.hit
        &&& ray.touches_box(
            self.collider.left_edge(self.transform),
            self.collider.top_edge(self.transform),
            self.collider.right_edge(self.transform),
            self.collider.bottom_edge(self.transform),
        )
    }

    /// The target after a probe: struck if the probe strikes it.
    pub open spec fn after_probe(self, ray: Ray) -> Target {
        if self.struck_by(ray) {
            Target { hit: true, ..self }
        } else {
            self
        }
    }
}

/// A probe strikes one of the targets.
pub open spec fn spec_any_struck(ray: Ray, targets: Seq<Target>) -> bool {
    exists|i: int| 0 <= i < targets.len() && (#[trigger] targets[i]).struck_by(ray)
}

/// The targets after a probe.
pub open spec fn spec_after_probe(ray: Ray, targets: Seq<Target>) -> Seq<Target> {
    Seq::new(targets.len(), |i: int| targets[i].after_probe(ray))
}

/// The sprites after a probe went over the first `n` targets: the sprite of
/// every target that it strikes is hidden.
pub open spec fn spec_hide_struck(sprites: Seq<Sprite>, ray: Ray, targets: Seq<Target>, n: nat) -> Seq<
    Sprite,
>
    decreases n,
{
    if n == 0 {
        sprites
    } else {
        let before = spec_hide_struck(sprites, ray, targets, (n - 1) as nat);
        if targets[n - 1].struck_by(ray) {
            spec_hidden(before, targets[n - 1].sprite_id as int)
        } else {
            before
        }
    }
}

/// How many targets were struck.
pub open spec fn spec_hit_count(targets: Seq<Target>) -> nat
    decreases targets.len(),
{
    if targets.len() == 0 {
        0
    } else {
        spec_hit_count(targets.drop_last()) + (if targets.last().hit {
            1nat
        } else {
            0nat
        })
    }
}

/// Takes a probe over the targets: marks every target that it strikes, hides
/// that target's sprite, and says whether it struck any.
pub fn strike_targets(ray: &Ray, targets: &mut Vec<Target>, render: &mut RenderState) -> (any: bool)
    requires
        ray.wf(),
    ensures
        any == spec_any_struck(*ray, old(targets)@),
        final(targets)@ == spec_after_probe(*ray, old(targets)@),
        final(render).sprites@ == spec_hide_struck(
            old(render).sprites@,
            *ray,
            old(targets)@,
            old(targets)@.len(),
        ),
        final(render).tile_maps@ == old(render).tile_maps@,
{
    let mut any = false;
    let mut i: usize = 0;
    while i < targets.len()
        invariant
            ray.wf(),
            i <= targets@.len(),
            targets@.len() == old(targets)@.len(),
            forall|j: int| 0 <= j < i ==> targets@[j] == old(targets)@[j].after_probe(*ray),
            forall|j: int| i <= j < targets@.len() ==> targets@[j] == old(targets)@[j],
            any == (exists|j: int| 0 <= j < i && (#[trigger] old(targets)@[j]).struck_by(*ray)),
            render.sprites@ == spec_hide_struck(old(render).sprites@, *ray, old(targets)@, i as nat),
            render.tile_maps@ == old(render).tile_maps@,
        decreases targets@.len() - i,
    {
        let target = targets[i];
        let (left, top, right, bottom) = target.collider.edges(&target.transform);
        if !target.hit && ray.hits_box(left, top, right, bottom) {
            let mut marked = target;
            marked.hit = true;
            targets.set(i, marked);
            render.hide_sprite(target.sprite_id);
            any = true;
        }
        i = i + 1;
    }
    assert(targets@ =~= spec_after_probe(*ray, old(targets)@));
    any
}

/// How many of the targets were struck, as far as a byte can count.
pub fn count_hits(targets: &Vec<Target>) -> (n: u8)
    ensures
        n == (if spec_hit_count(targets@) > 255 {
            255
        } else {
            spec_hit_count(targets@) as int
        }),
{
    let mut n: u8 = 0;
    let mut i: usize = 0;
    while i < targets.len()
        invariant
            i <= targets@.len(),
            n == (if spec_hit_count(targets@.subrange(0, i as int)) > 255 {
                255
            } else {
                spec_hit_count(targets@.subrange(0, i as int)) as int
            }),
        decreases targets@.len() - i,
    {
        proof {
            assert(targets@.subrange(0, i + 1).drop_last() =~= targets@.subrange(0, i as int));
        }
        if targets[i].hit && n < 255 {
            n = n + 1;
        }
        i = i + 1;
    }
    proof {
        assert(targets@.subrange(0, i as int) =~= targets@);
    }
    n
}

impl Projectile {
    /// The quantities of the projectile are within the world's range, and it
    /// has not travelled farther than its range unless it has expired.
    pub open spec fn wf(self) -> bool {
        &&& self.transform.wf()
        &&& 0 <= self.speed <= RATE_MAX
        &&& 0 <= self.max_distance <= COORD_MAX
        &&& 0 <= self.distance_traveled <= COORD_MAX + RATE_MAX
        &&& !self.expired ==> self.distance_traveled <= self.max_distance
    }

    /// The projectile advanced by one frame's travel.
    pub open spec fn advanced(self) -> Projectile {
        Projectile {
            transform: self.transform.translated(
                self.direction.dx() * self.speed,
                self.direction.dy() * self.speed,
            ),
            distance_traveled: (self.distance_traveled + self.speed) as i64,
            ..self
        }
    }

    /// The projectile has travelled farther than its range.
    pub open spec fn out_of_range(self) -> bool {
        self.distance_traveled > self.max_distance
    }

    /// In how many increments the sensor of a projectile is walked: one for
    /// each whole pixel of its speed.
    pub open spec fn sensor_steps(self) -> int {
        if self.speed / UNIT > 255 {
            255
        } else {
            self.speed / UNIT
        }
    }

    /// The probe that a projectile casts from where it is: as far as it
    /// advances in a frame, in its direction of flight.
    pub open spec fn sensor(self) -> Ray {
        Ray {
            origin_x: self.transform.scene_x,
            origin_y: self.transform.scene_y,
            direction: self.direction,
            distance: self.speed,
            steps: self.sensor_steps() as u8,
        }
    }

    /// The projectile probes this frame: it has not expired and is still
    /// within its range once it has advanced.
    pub open spec fn probes(self) -> bool {
        !self.expired && !self.advanced().out_of_range()
    }

    /// The projectile, once advanced, is obstructed by a collidable tile or
    /// strikes a target.
    pub open spec fn obstructed(
        self,
        grid: GridView,
        attrs: Map<usize, TileAttr>,
        targets: Seq<Target>,
    ) -> bool {
        let sensor = self.advanced().sensor();
        sensor.nearest_collision(grid, attrs) is Some || spec_any_struck(sensor, targets)
    }

    /// The projectile one frame later.
    pub open spec fn step(self, grid: GridView, attrs: Map<usize, TileAttr>, targets: Seq<Target>) -> Projectile {
        if self.expired {
            self
        } else if self.advanced().out_of_range() || self.obstructed(grid, attrs, targets) {
            Projectile { expired: true, ..self.advanced() }
        } else {
            self.advanced()
        }
    }

    /// The projectile one frame later when nothing is in its way.
    pub open spec fn step_free(self) -> Projectile {
        if self.expired {
            self
        } else if self.advanced().out_of_range() {
            Projectile { expired: true, ..self.advanced() }
        } else {
            self.advanced()
        }
    }

    /// The projectile after `frames` frames with nothing in its way.
    pub open spec fn fly_free(self, frames: nat) -> Projectile
        decreases frames,
    {
        if frames == 0 {
            self
        } else {
            self.fly_free((frames - 1) as nat).step_free()
        }
    }

    /// The targets one frame later.
    pub open spec fn targets_after(self, targets: Seq<Target>) -> Seq<Target> {
        if self.probes() {
            spec_after_probe(self.advanced().sensor(), targets)
        } else {
            targets
        }
    }

    /// The sprites one frame later: the sprites of struck targets are hidden,
    /// and the projectile's own sprite is hidden if the projectile has expired
    /// in this frame, else moved to where the projectile is.
    pub open spec fn sprites_after(
        self,
        sprites: Seq<Sprite>,
        grid: GridView,
        attrs: Map<usize, TileAttr>,
        targets: Seq<Target>,
    ) -> Seq<Sprite> {
        if self.expired {
            sprites
        } else if self.advanced().out_of_range() {
            spec_hidden(sprites, self.sprite_id as int)
        } else {
            let moved = self.advanced();
            let shown = spec_hide_struck(sprites, moved.sensor(), targets, targets.len());
            if self.obstructed(grid, attrs, targets) {
                spec_hidden(shown, self.sprite_id as int)
            } else {
                spec_placed(
                    shown,
                    self.sprite_id as int,
                    moved.transform.scene_x as int,
                    moved.transform.scene_y as int,
                )
            }
        }
    }

    /// Whether the quantities of the projectile are within range.
    pub fn well_formed(&self) -> (b: bool)
        ensures
            b == self.wf(),
    {
        self.transform.well_formed() && 0 <= self.speed && self.speed <= RATE_MAX && 0 <= self.max_distance
            && self.max_distance <= COORD_MAX && 0 <= self.distance_traveled && self.distance_traveled
            <= COORD_MAX + RATE_MAX && (self.expired || self.distance_traveled <= self.max_distance)
    }

    /// A projectile that starts its flight at the given position, with a
    /// speed brought into the range of speeds.
    pub fn new(scene_x: i64, scene_y: i64, direction: Direction, speed: i64, sprite_id: usize) -> (p:
        Projectile)
        ensures
            p.wf(),
            p == (Projectile {
                max_distance: PROJECTILE_RANGE,
                distance_traveled: 0,
                expired: false,
                speed: spec_clamp_speed(speed),
                direction,
                transform: Transform::at(0, scene_x as int, scene_y as int),
                sprite_id,
            }),
    {
        Projectile {
            max_distance: PROJECTILE_RANGE,
            distance_traveled: 0,
            expired: false,
            speed: if speed < 0 {
                0
            } else if speed > RATE_MAX {
                RATE_MAX
            } else {
                speed
            },
            direction,
            transform: Transform::new(0, scene_x, scene_y),
            sprite_id,
        }
    }

    /// Advances the projectile by one frame; a projectile that has expired
    /// stays as it is.
    pub fn update(&mut self, grid: &TileGrid, attrs: &AttrSet, targets: &mut Vec<Target>, render: &mut RenderState)
        requires
            old(self).wf(),
        ensures
            *final(self) == old(self).step(grid@, attrs@, old(targets)@),
            final(self).wf(),
            final(targets)@ == old(self).targets_after(old(targets)@),
            final(render).sprites@ == old(self).sprites_after(
                old(render).sprites@,
                grid@,
                attrs@,
                old(targets)@,
            ),
            final(render).tile_maps@ == old(render).tile_maps@,
    {
        if self.expired {
            return ;
        }
        let (dx, dy): (i64, i64) = match self.direction {
            Direction::Left => (-self.speed, 0),
            Direction::Right => (self.speed, 0),
            Direction::Up => (0, -self.speed),
            Direction::Down => (0, self.speed),
        };
        assert(dx == self.direction.dx() * self.speed && dy == self.direction.dy() * self.speed) by {
            match self.direction {
                Direction::Left => {
                    assert(dx == (-1) * self.speed);
                },
                Direction::Right => {
                    assert(dx == 1 * self.speed);
                },
                Direction::Up => {
                    assert(dy == (-1) * self.speed);
                },
                Direction::Down => {
                    assert(dy == 1 * self.speed);
                },
            }
        }
        self.transform.translate(dx, dy);
        self.distance_traveled = self.distance_traveled + self.speed;
        assert(*self == old(self).advanced());
        if self.distance_traveled > self.max_distance {
            self.expired = true;
            render.hide_sprite(self.sprite_id);
            return ;
        }
        let whole: i64 = self.speed / UNIT;
        let steps: u8 = if whole > 255 {
            255
        } else {
            whole as u8
        };
        let sensor = Ray {
            origin_x: self.transform.scene_x,
            origin_y: self.transform.scene_y,
            direction: self.direction,
            distance: self.speed,
            steps,
        };
        let blocked = sensor.nearest_map_collision(grid, attrs).is_some();
        let struck = strike_targets(&sensor, targets, render);
        if blocked || struck {
            self.expired = true;
            render.hide_sprite(self.sprite_id);
        } else {
            render.place_sprite(self.sprite_id, self.transform.scene_x, self.transform.scene_y);
        }
    }
}

/// A speed brought into the range of speeds.
pub open spec fn spec_clamp_speed(speed: i64) -> i64 {
    if speed < 0 {
        0
    } else if speed > RATE_MAX {
        RATE_MAX
    } else {
        speed
    }
}

/// The tile that shows a projectile of a launcher: the tiles of the
/// projectiles follow one another in the tile set.
pub open spec fn spec_projectile_frame(projectile_tile: usize) -> usize {
    if PROJECTILE_FIRST_TILE + projectile_tile > usize::MAX {
        usize::MAX
    } else {
        (PROJECTILE_FIRST_TILE + projectile_tile) as usize
    }
}

/// The sprite that shows a projectile fired from the given position.
pub open spec fn spec_projectile_sprite(projectile_tile: usize, scene_x: int, scene_y: int) -> Sprite {
    Sprite {
        tile_set_id: PROJECTILE_TILE_SET,
        palette_id: PROJECTILE_TILE_SET,
        frame: spec_projectile_frame(projectile_tile),
        width: 16,
        height: 16,
        scene_x: spec_to_pixel(crate::units::spec_clamp_coord(scene_x)) as u16,
        scene_y: spec_to_pixel(crate::units::spec_clamp_coord(scene_y)) as u16,
        reverse_x: false,
        hide: false,
    }
}

/// The projectiles of a pool that have not expired, in their order.
pub open spec fn spec_live(pool: Seq<Projectile>) -> Seq<Projectile> {
    pool.filter(|p: Projectile| !p.expired)
}

/// The newest `n` projectiles of a pool, or the whole pool if it holds no
/// more than `n`.
pub open spec fn spec_newest(pool: Seq<Projectile>, n: int) -> Seq<Projectile> {
    if pool.len() > n {
        pool.subrange(pool.len() - n, pool.len() as int)
    } else {
        pool
    }
}

/// What a frame of flight leaves behind.
pub struct Flight {
    pub projectiles: Seq<Projectile>,
    pub targets: Seq<Target>,
    pub sprites: Seq<Sprite>,
}

/// The pool, the targets and the sprites after the first `n` projectiles of
/// the pool have advanced by one frame, oldest first.
pub open spec fn spec_fly(
    pool: Seq<Projectile>,
    grid: GridView,
    attrs: Map<usize, TileAttr>,
    targets: Seq<Target>,
    sprites: Seq<Sprite>,
    n: nat,
) -> Flight
    decreases n,
{
    if n == 0 {
        Flight { projectiles: pool, targets, sprites }
    } else {
        let before = spec_fly(pool, grid, attrs, targets, sprites, (n - 1) as nat);
        let p = pool[n - 1];
        Flight {
            projectiles: before.projectiles.update(n - 1, p.step(grid, attrs, before.targets)),
            targets: p.targets_after(before.targets),
            sprites: p.sprites_after(before.sprites, grid, attrs, before.targets),
        }
    }
}

/// What a launcher is, as a value.
pub struct LauncherView {
    pub cooldown: u8,
    pub max_projectiles: u8,
    pub ammo: u8,
    pub projectile_tile: usize,
    pub projectile_speed: i64,
    pub projectiles: Seq<Projectile>,
}

impl View for Launcher {
    type V = LauncherView;

    open spec fn view(&self) -> LauncherView {
        LauncherView {
            cooldown: self.cooldown,
            max_projectiles: self.max_projectiles,
            ammo: self.ammo,
            projectile_tile: self.projectile_tile,
            projectile_speed: self.projectile_speed,
            projectiles: self.projectiles@,
        }
    }
}

/// A launcher with full ammunition, an empty pool for three projectiles, and
/// a cooldown that has yet to pass.
pub open spec fn spec_new_launcher() -> LauncherView {
    LauncherView {
        cooldown: 0,
        max_projectiles: 3,
        ammo: 255,
        projectile_tile: 0,
        projectile_speed: PROJECTILE_SPEED,
        projectiles: Seq::empty(),
    }
}

impl LauncherView {
    /// The speed of its projectiles is within range and so is every
    /// projectile of the pool.
    pub open spec fn wf(self) -> bool {
        &&& 0 <= self.projectile_speed <= RATE_MAX
        &&& forall|i: int| 0 <= i < self.projectiles.len() ==> (#[trigger] self.projectiles[i]).wf()
    }

    /// The launcher one frame later: the cooldown is counted up to ten.
    pub open spec fn ticked(self) -> LauncherView {
        LauncherView {
            cooldown: if self.cooldown < 10 {
                (self.cooldown + 1) as u8
            } else {
                self.cooldown
            },
            ..self
        }
    }

    /// The pool after the sweep: without the projectiles that have expired,
    /// and without the oldest of the others if they are more than the pool
    /// may hold.
    pub open spec fn swept(self) -> Seq<Projectile> {
        spec_newest(spec_live(self.projectiles), self.max_projectiles as int)
    }

    /// A fire request is honoured: there is ammunition, the cooldown has
    /// passed, and the swept pool has room.
    pub open spec fn honors_fire(self) -> bool {
        &&& self.ammo >= 1
        &&& self.cooldown > FIRE_COOLDOWN
        &&& self.swept().len() < self.max_projectiles
    }

    /// The projectile that a fire request from the given position launches.
    pub open spec fn launched(self, start_x: int, start_y: int, direction: Direction, sprite_id: usize) -> Projectile {
        Projectile {
            max_distance: PROJECTILE_RANGE,
            distance_traveled: 0,
            expired: false,
            speed: self.projectile_speed,
            direction,
            transform: Transform::at(0, start_x, start_y),
            sprite_id,
        }
    }

    /// The launcher after a fire request from the given position: the pool
    /// is swept, and if the request is honoured a projectile joins the pool,
    /// one round is spent and the cooldown starts again.
    pub open spec fn fired(self, start_x: int, start_y: int, direction: Direction, sprite_id: usize) -> LauncherView {
        if self.honors_fire() {
            LauncherView {
                cooldown: 0,
                ammo: (self.ammo - 1) as u8,
                projectiles: self.swept().push(self.launched(start_x, start_y, direction, sprite_id)),
                ..self
            }
        } else {
            LauncherView { projectiles: self.swept(), ..self }
        }
    }
}

impl Launcher {
    /// The speed of its projectiles is within range and so is every
    /// projectile of the pool.
    pub open spec fn wf(&self) -> bool {
        &&& 0 <= self.projectile_speed <= RATE_MAX
        &&& forall|i: int| 0 <= i < self.projectiles@.len() ==> (#[trigger] self.projectiles@[i]).wf()
    }

    /// A launcher with full ammunition, an empty pool for three projectiles,
    /// and a cooldown that has yet to pass.
    pub fn new() -> (l: Launcher)
        ensures
            l.wf(),
            l@ == spec_new_launcher(),
    {
        Launcher {
            cooldown: 0,
            max_projectiles: 3,
            ammo: 255,
            projectile_tile: 0,
            projectile_speed: PROJECTILE_SPEED,
            projectiles: Vec::new(),
        }
    }

    /// Whether the speed of its projectiles is within range and so is every
    /// projectile of the pool.
    pub fn well_formed(&self) -> (b: bool)
        ensures
            b == self.wf(),
    {
        if self.projectile_speed < 0 || self.projectile_speed > RATE_MAX {
            return false;
        }
        let mut i: usize = 0;
        while i < self.projectiles.len()
            invariant
                i <= self.projectiles@.len(),
                forall|j: int| 0 <= j < i ==> (#[trigger] self.projectiles@[j]).wf(),
            decreases self.projectiles@.len() - i,
        {
            if !self.projectiles[i].well_formed() {
                return false;
            }
            i = i + 1;
        }
        true
    }

    /// Sweeps the pool: drops the projectiles that have expired and, if the
    /// rest are more than the pool may hold, the oldest of them.
    fn sweep(&mut self)
        requires
            old(self).wf(),
        ensures
            final(self)@ == (LauncherView { projectiles: old(self)@.swept(), ..old(self)@ }),
            final(self).wf(),
            final(self).projectiles@.len() <= final(self).max_projectiles,
            forall|i: int|
                0 <= i < final(self).projectiles@.len() ==> !(#[trigger] final(self).projectiles@[i]).expired,
    {
        let mut live: Vec<Projectile> = Vec::new();
        let mut i: usize = 0;
        proof {
            reveal(Seq::filter);
        }
        while i < self.projectiles.len()
            invariant
                *self == *old(self),
                self.wf(),
                i <= self.projectiles@.len(),
                live@ == spec_live(self.projectiles@.subrange(0, i as int)),
                forall|j: int| 0 <= j < live@.len() ==> (#[trigger] live@[j]).wf() && !live@[j].expired,
            decreases self.projectiles@.len() - i,
        {
            proof {
                reveal(Seq::filter);
                assert(self.projectiles@.subrange(0, i + 1).drop_last() =~= self.projectiles@.subrange(
                    0,
                    i as int,
                ));
            }
            let p = self.projectiles[i];
            if !p.expired {
                live.push(p);
            }
            i = i + 1;
        }
        proof {
            assert(self.projectiles@.subrange(0, i as int) =~= self.projectiles@);
        }
        let ghost all = live@;
        let cap: usize = self.max_projectiles as usize;
        while live.len() > cap
            invariant
                cap == self.max_projectiles,
                live@.len() <= all.len(),
                live@.len() >= cap || live@.len() == all.len(),
                live@ == all.subrange(all.len() - live@.len(), all.len() as int),
                forall|j: int| 0 <= j < all.len() ==> (#[trigger] all[j]).wf() && !all[j].expired,
            decreases live@.len(),
        {
            live.remove(0);
            assert(live@ =~= all.subrange(all.len() - live@.len(), all.len() as int));
        }
        proof {
            if all.len() <= cap {
                assert(live@ =~= all);
            }
        }
        self.projectiles = live;
    }

    /// Handles a fire request from the given position. The pool is swept
    /// first. The request is honoured only if there is ammunition, the
    /// cooldown has passed and the swept pool has room: a projectile with a
    /// sprite of its own joins the pool, the shot sounds, one round is spent
    /// and the cooldown starts again. A request that is not honoured does
    /// nothing more than the sweep. Either way the pool then holds no
    /// projectile that has expired and no more projectiles than it may hold.
    pub fn fire(
        &mut self,
        start_x: i64,
        start_y: i64,
        direction: Direction,
        render: &mut RenderState,
        cues: &mut Vec<Cue>,
    )
        requires
            old(self).wf(),
        ensures
            final(self).wf(),
            final(self)@ == old(self)@.fired(
                start_x as int,
                start_y as int,
                direction,
                old(render).sprites@.len() as usize,
            ),
            final(render).tile_maps@ == old(render).tile_maps@,
            final(render).sprites@ == (if old(self)@.honors_fire() {
                old(render).sprites@.push(
                    spec_projectile_sprite(old(self).projectile_tile, start_x as int, start_y as int),
                )
            } else {
                old(render).sprites@
            }),
            final(cues)@ == (if old(self)@.honors_fire() {
                old(cues)@.push(spec_cue(SFX::Fire, FIRE_SAMPLES))
            } else {
                old(cues)@
            }),
            final(self).projectiles@.len() <= final(self).max_projectiles,
            forall|i: int|
                0 <= i < final(self).projectiles@.len() ==> !(#[trigger] final(self).projectiles@[i]).expired,
    {
        self.sweep();
        if self.ammo >= 1 && self.cooldown > FIRE_COOLDOWN && self.projectiles.len() < (
        self.max_projectiles as usize) {
            let transform = Transform::new(0, start_x, start_y);
            let sprite = Sprite {
                tile_set_id: PROJECTILE_TILE_SET,
                palette_id: PROJECTILE_TILE_SET,
                frame: if self.projectile_tile > usize::MAX - PROJECTILE_FIRST_TILE {
                    usize::MAX
                } else {
                    PROJECTILE_FIRST_TILE + self.projectile_tile
                },
                width: 16,
                height: 16,
                scene_x: to_pixel(transform.scene_x),
                scene_y: to_pixel(transform.scene_y),
                reverse_x: false,
                hide: false,
            };
            let sprite_id = render.add_sprite(sprite);
            play_effect(cues, SFX::Fire, FIRE_SAMPLES);
            let projectile = Projectile::new(start_x, start_y, direction, self.projectile_speed, sprite_id);
            self.projectiles.push(projectile);
            self.cooldown = 0;
            self.ammo = self.ammo - 1;
        }
    }

    /// Counts the cooldown one frame up, as far as it is counted.
    pub fn tick(&mut self)
        ensures
            final(self)@ == old(self)@.ticked(),
            final(self).projectiles == old(self).projectiles,
    {
        if self.cooldown < 10 {
            self.cooldown = self.cooldown + 1;
        }
    }

    /// Advances every projectile of the pool by one frame, oldest first.
    pub fn update_projectiles(
        &mut self,
        grid: &TileGrid,
        attrs: &AttrSet,
        targets: &mut Vec<Target>,
        render: &mut RenderState,
    )
        requires
            old(self).wf(),
        ensures
            final(self).wf(),
            final(self)@ == (LauncherView { projectiles: final(self).projectiles@, ..old(self)@ }),
            final(self).projectiles@.len() == old(self).projectiles@.len(),
            final(targets)@.len() == old(targets)@.len(),
            final(render).tile_maps@ == old(render).tile_maps@,
            (Flight {
                projectiles: final(self).projectiles@,
                targets: final(targets)@,
                sprites: final(render).sprites@,
            }) == spec_fly(
                old(self).projectiles@,
                grid@,
                attrs@,
                old(targets)@,
                old(render).sprites@,
                old(self).projectiles@.len(),
            ),
    {
        let mut i: usize = 0;
        while i < self.projectiles.len()
            invariant
                self.wf(),
                i <= self.projectiles@.len(),
                self.projectiles@.len() == old(self).projectiles@.len(),
                targets@.len() == old(targets)@.len(),
                self@ == (LauncherView { projectiles: self.projectiles@, ..old(self)@ }),
                render.tile_maps@ == old(render).tile_maps@,
                forall|j: int| i <= j < self.projectiles@.len() ==> self.projectiles@[j] == old(self).projectiles@[j],
                (Flight { projectiles: self.projectiles@, targets: targets@, sprites: render.sprites@ })
                    == spec_fly(
                    old(self).projectiles@,
                    grid@,
                    attrs@,
                    old(targets)@,
                    old(render).sprites@,
                    i as nat,
                ),
            decreases self.projectiles@.len() - i,
        {
            let mut p = self.projectiles[i];
            p.update(grid, attrs, targets, render);
            self.projectiles.set(i, p);
            i = i + 1;
        }
    }
}

/// A fire request never leaves more live projectiles in the pool than the pool
/// may hold: the pool after the request holds no projectile that has expired
/// and no more projectiles than it may hold.
pub proof fn lemma_fire_respects_cap(
    launcher: LauncherView,
    start_x: int,
    start_y: int,
    direction: Direction,
    sprite_id: usize,
)
    ensures
        launcher.fired(start_x, start_y, direction, sprite_id).projectiles.len() <= launcher.max_projectiles,
        forall|i: int|
            0 <= i < launcher.fired(start_x, start_y, direction, sprite_id).projectiles.len() ==> !(
            #[trigger] launcher.fired(start_x, start_y, direction, sprite_id).projectiles[i]).expired,
{
    let pred = |p: Projectile| !p.expired;
    let live = launcher.projectiles.filter(pred);
    let swept = launcher.swept();
    assert forall|i: int| 0 <= i < swept.len() implies !(#[trigger] swept[i]).expired by {
        let k = if live.len() > launcher.max_projectiles {
            live.len() - launcher.max_projectiles + i
        } else {
            i
        };
        assert(swept[i] == live[k]);
        launcher.projectiles.lemma_filter_pred(pred, k);
    }
}

/// A projectile that starts its flight with nothing in its way has expired
/// after `frames` frames exactly if `frames` times its speed exceeds its range:
/// that is from frame `max_distance / speed + 1` on. Until then it has
/// travelled `frames` times its speed.
pub proof fn lemma_free_flight(p: Projectile, frames: nat)
    requires
        p.wf(),
        !p.expired,
        p.distance_traveled == 0,
        p.speed > 0,
    ensures
        p.fly_free(frames).wf(),
        p.fly_free(frames).speed == p.speed,
        p.fly_free(frames).max_distance == p.max_distance,
        p.fly_free(frames).expired <==> frames * p.speed > p.max_distance,
        p.fly_free(frames).expired <==> frames >= p.max_distance / p.speed + 1,
        !p.fly_free(frames).expired ==> p.fly_free(frames).distance_traveled == frames * p.speed,
    decreases frames,
{
    let speed = p.speed as int;
    let range = p.max_distance as int;
    assert(frames * speed > range <==> frames >= range / speed + 1) by {
        vstd::arithmetic::div_mod::lemma_fundamental_div_mod(range, speed);
        vstd::arithmetic::div_mod::lemma_mod_bound(range, speed);
        let q = range / speed;
        if frames >= q + 1 {
            vstd::arithmetic::mul::lemma_mul_inequality(q + 1, frames as int, speed);
            vstd::arithmetic::mul::lemma_mul_is_distributive_add_other_way(speed, q, 1);
            vstd::arithmetic::mul::lemma_mul_is_commutative(speed, q);
        } else {
            vstd::arithmetic::mul::lemma_mul_inequality(frames as int, q, speed);
            vstd::arithmetic::mul::lemma_mul_is_commutative(speed, q);
        }
    }
    if frames > 0 {
        let before = p.fly_free((frames - 1) as nat);
        lemma_free_flight(p, (frames - 1) as nat);
        assert((frames - 1) * speed + speed == frames * speed) by (nonlinear_arith);
        assert(frames * speed >= (frames - 1) * speed) by (nonlinear_arith)
            requires
                speed > 0,
        ;
        assert(p.fly_free(frames) == before.step_free());
        if !before.expired {
            assert(before.distance_traveled == (frames - 1) * speed);
            assert(before.advanced().distance_traveled == frames * speed);
        }
    } else {
        assert(0 * speed == 0);
    }
}

/// While nothing is in its way, a projectile steps as in free flight.
pub proof fn lemma_step_unobstructed(p: Projectile, grid: GridView, attrs: Map<usize, TileAttr>, targets: Seq<Target>)
    requires
        !p.obstructed(grid, attrs, targets),
    ensures
        p.step(grid, attrs, targets) == p.step_free(),
{
}

impl Default for Target {
    /// A target at the origin of the world that was not struck.
    fn default() -> (t: Target)
        ensures
            t == (Target {
                entity_id: 0,
                hit: false,
                transform: Transform::at(0, 0, 0),
                collider: spec_target_box(),
                sprite_id: 0,
            }),
    {
        Target::new(0, 0)
    }
}

impl Default for Projectile {
    /// A projectile at the origin of the world that flies to the right.
    fn default() -> (p: Projectile)
        ensures
            p.wf(),
            p == (Projectile {
                max_distance: PROJECTILE_RANGE,
                distance_traveled: 0,
                expired: false,
                speed: PROJECTILE_SPEED,
                direction: Direction::Right,
                transform: Transform::at(0, 0, 0),
                sprite_id: 0,
            }),
    {
        Projectile::new(0, 0, Direction::Right, PROJECTILE_SPEED, 0)
    }
}

impl Default for Launcher {
    /// A launcher with full ammunition, an empty pool for three projectiles,
    /// and a cooldown that has yet to pass.
    fn default() -> (l: Launcher)
        ensures
            l.wf(),
            l@ == spec_new_launcher(),
    {
        Launcher::new()
    }
}

} // verus!
