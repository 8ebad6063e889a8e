use buglympics::attr::{AttrSet, TileAttr};
use buglympics::grid::TileGrid;
use buglympics::launcher::{count_hits, strike_targets, Launcher, Projectile, Target};
use buglympics::probe::{Direction, Ray};
use buglympics::render::{RenderState, Sprite};
use buglympics::sounds::{Cue, SFX};

fn open_grid() -> TileGrid {
    TileGrid::new(100, 10, 16, 16, vec![0u16; 1000]).unwrap()
}

fn blank_sprite() -> Sprite {
    Sprite { tile_set_id: 0, palette_id: 0, frame: 0, width: 16, height: 16, scene_x: 0, scene_y: 0, reverse_x: false, hide: false }
}

fn ready_launcher() -> Launcher {
    let mut launcher = Launcher::new();
    launcher.cooldown = 9;
    launcher
}

#[test]
fn projectile_expires_after_thirty_eight_updates() {
    let grid = open_grid();
    let attrs = AttrSet::new(0);
    let mut targets: Vec<Target> = Vec::new();
    let mut render = RenderState::new();
    let sprite_id = render.add_sprite(blank_sprite());
    let mut projectile = Projectile::new(0, 50_000, Direction::Right, 8_000, sprite_id);
    assert_eq!(projectile.max_distance, 300_000);
    for frame in 1..=37 {
        projectile.update(&grid, &attrs, &mut targets, &mut render);
        assert!(!projectile.expired, "expired in frame {}", frame);
        assert_eq!(projectile.distance_traveled, 8_000 * frame);
        assert_eq!(projectile.transform.scene_x, 8_000 * frame);
        assert_eq!(render.sprites[sprite_id].scene_x, (8 * frame) as u16);
        assert!(!render.sprites[sprite_id].hide);
    }
    projectile.update(&grid, &attrs, &mut targets, &mut render);
    assert!(projectile.expired);
    assert_eq!(projectile.distance_traveled, 304_000);
    assert!(render.sprites[sprite_id].hide);
    projectile.update(&grid, &attrs, &mut targets, &mut render);
    assert_eq!(projectile.distance_traveled, 304_000);
    assert_eq!(projectile.transform.scene_x, 304_000);
}

#[test]
fn projectile_with_range_of_whole_steps_flies_one_frame_longer() {
    let grid = open_grid();
    let attrs = AttrSet::new(0);
    let mut targets: Vec<Target> = Vec::new();
    let mut render = RenderState::new();
    let mut projectile = Projectile::new(0, 50_000, Direction::Right, 8_000, 0);
    projectile.max_distance = 16_000;
    projectile.update(&grid, &attrs, &mut targets, &mut render);
    projectile.update(&grid, &attrs, &mut targets, &mut render);
    assert!(!projectile.expired);
    projectile.update(&grid, &attrs, &mut targets, &mut render);
    assert!(projectile.expired);
}

#[test]
fn projectile_stops_at_a_collidable_tile() {
    let mut data = vec![0u16; 1000];
    data[3 * 100 + 2] = 2;
    let grid = TileGrid::new(100, 10, 16, 16, data).unwrap();
    let mut attrs = AttrSet::new(0);
    let mut targets: Vec<Target> = Vec::new();
    let mut render = RenderState::new();
    let sprite_id = render.add_sprite(blank_sprite());
    let mut free = Projectile::new(10_000, 50_000, Direction::Right, 8_000, sprite_id);
    for _ in 0..5 {
        free.update(&grid, &attrs, &mut targets, &mut render);
    }
    assert!(!free.expired);
    attrs.insert(2, TileAttr::Angle(0));
    let mut blocked = Projectile::new(10_000, 50_000, Direction::Right, 8_000, sprite_id);
    blocked.update(&grid, &attrs, &mut targets, &mut render);
    assert!(!blocked.expired);
    blocked.update(&grid, &attrs, &mut targets, &mut render);
    assert!(blocked.expired);
    assert_eq!(blocked.transform.scene_x, 26_000);
    assert!(render.sprites[sprite_id].hide);
}

#[test]
fn projectile_strikes_a_target_once() {
    let grid = open_grid();
    let attrs = AttrSet::new(0);
    let mut render = RenderState::new();
    let mut target = Target::new(60_000, 50_000);
    target.init(&mut render);
    let mut far = Target::new(60_000, 120_000);
    far.init(&mut render);
    assert_eq!(target.sprite_id, 0);
    assert_eq!(far.sprite_id, 1);
    assert_eq!(render.sprites[0].scene_x, 60);
    assert_eq!(render.sprites[0].tile_set_id, 3);
    let mut targets = vec![target, far];
    let shot_sprite = render.add_sprite(blank_sprite());
    let mut shot = Projectile::new(20_000, 50_000, Direction::Right, 8_000, shot_sprite);
    let mut frames = 0;
    while !shot.expired {
        shot.update(&grid, &attrs, &mut targets, &mut render);
        frames += 1;
    }
    assert_eq!(frames, 3);
    assert_eq!(shot.transform.scene_x, 44_000);
    assert!(targets[0].hit);
    assert!(!targets[1].hit);
    assert!(render.sprites[0].hide);
    assert!(!render.sprites[1].hide);
    assert!(render.sprites[shot_sprite].hide);
    assert_eq!(count_hits(&targets), 1);
    let mut second = Projectile::new(20_000, 50_000, Direction::Right, 8_000, shot_sprite);
    for _ in 0..10 {
        second.update(&grid, &attrs, &mut targets, &mut render);
    }
    assert!(!second.expired);
}

#[test]
fn probe_strikes_every_target_it_touches() {
    let mut render = RenderState::new();
    let mut targets = vec![Target::new(40_000, 40_000), Target::new(44_000, 40_000), Target::new(90_000, 40_000)];
    for target in targets.iter_mut() {
        target.init(&mut render);
    }
    let ray = Ray::new(30_000, 50_000, Direction::Right, 8_000, 8);
    assert!(strike_targets(&ray, &mut targets, &mut render));
    assert!(targets[0].hit && targets[1].hit && !targets[2].hit);
    assert!(!strike_targets(&ray, &mut targets, &mut render));
    assert_eq!(count_hits(&targets), 2);
}

#[test]
fn launcher_never_holds_more_than_its_cap() {
    let mut render = RenderState::new();
    let mut cues: Vec<Cue> = Vec::new();
    let mut launcher = Launcher::new();
    for frame in 0..200 {
        launcher.tick();
        launcher.fire(10_000, 10_000, Direction::Right, &mut render, &mut cues);
        assert!(launcher.projectiles.len() <= 3, "frame {}", frame);
        assert!(launcher.projectiles.iter().all(|p| !p.expired));
    }
    assert_eq!(launcher.projectiles.len(), 3);
    assert_eq!(launcher.ammo, 252);
    assert_eq!(cues.len(), 3);
    assert_eq!(render.sprites.len(), 3);
}

#[test]
fn launcher_evicts_the_oldest_beyond_its_cap() {
    let mut render = RenderState::new();
    let mut cues: Vec<Cue> = Vec::new();
    let mut launcher = ready_launcher();
    for i in 0..6 {
        let mut projectile = Projectile::new(i * 1_000, 0, Direction::Right, 8_000, 0);
        projectile.expired = i == 4;
        launcher.projectiles.push(projectile);
    }
    launcher.fire(99_000, 0, Direction::Left, &mut render, &mut cues);
    let kept: Vec<i64> = launcher.projectiles.iter().map(|p| p.transform.scene_x).collect();
    assert_eq!(kept, vec![2_000, 3_000, 5_000]);
    assert_eq!(launcher.ammo, 255);
    assert_eq!(launcher.cooldown, 9);
    assert!(cues.is_empty());
}

#[test]
fn fire_is_honoured_only_with_ammo_and_after_the_cooldown() {
    let mut render = RenderState::new();
    let mut cues: Vec<Cue> = Vec::new();
    let mut cooling = Launcher::new();
    cooling.cooldown = 8;
    cooling.fire(0, 0, Direction::Right, &mut render, &mut cues);
    assert!(cooling.projectiles.is_empty());
    let mut empty = ready_launcher();
    empty.ammo = 0;
    empty.fire(0, 0, Direction::Right, &mut render, &mut cues);
    assert!(empty.projectiles.is_empty());
    let mut capped = ready_launcher();
    capped.max_projectiles = 0;
    capped.fire(0, 0, Direction::Right, &mut render, &mut cues);
    assert!(capped.projectiles.is_empty());
    assert!(cues.is_empty());
    assert!(render.sprites.is_empty());
    let mut launcher = ready_launcher();
    launcher.projectile_tile = 2;
    launcher.fire(33_500, 21_000, Direction::Left, &mut render, &mut cues);
    assert_eq!(launcher.projectiles.len(), 1);
    assert_eq!(launcher.ammo, 254);
    assert_eq!(launcher.cooldown, 0);
    let shot = launcher.projectiles[0];
    assert_eq!(shot.direction, Direction::Left);
    assert_eq!(shot.speed, 8_000);
    assert_eq!(shot.max_distance, 300_000);
    assert_eq!(shot.distance_traveled, 0);
    assert_eq!((shot.transform.scene_x, shot.transform.scene_y), (33_500, 21_000));
    assert_eq!(shot.sprite_id, 0);
    assert_eq!(
        render.sprites[0],
        Sprite { tile_set_id: 4, palette_id: 4, frame: 50, width: 16, height: 16, scene_x: 33, scene_y: 21, reverse_x: false, hide: false }
    );
    assert_eq!(cues, vec![Cue { effect: SFX::Fire, pitch: 10, instrument: 1, num_samples: 8000 }]);
}

#[test]
fn sweep_drops_expired_projectiles_on_the_next_fire() {
    let grid = open_grid();
    let attrs = AttrSet::new(0);
    let mut targets: Vec<Target> = Vec::new();
    let mut render = RenderState::new();
    let mut cues: Vec<Cue> = Vec::new();
    let mut launcher = ready_launcher();
    launcher.fire(0, 0, Direction::Right, &mut render, &mut cues);
    for _ in 0..40 {
        launcher.update_projectiles(&grid, &attrs, &mut targets, &mut render);
    }
    assert_eq!(launcher.projectiles.len(), 1);
    assert!(launcher.projectiles[0].expired);
    launcher.fire(0, 0, Direction::Right, &mut render, &mut cues);
    assert!(launcher.projectiles.is_empty());
}

#[test]
fn cooldown_counts_up_to_ten() {
    let mut launcher = Launcher::new();
    for expected in 1..=10u8 {
        launcher.tick();
        assert_eq!(launcher.cooldown, expected);
    }
    launcher.tick();
    assert_eq!(launcher.cooldown, 10);
}
