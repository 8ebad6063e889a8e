use buglympics::attr::{AttrSet, TileAttr};
use buglympics::grid::TileGrid;
use buglympics::input::{InputCode, Inputs};
use buglympics::launcher::Target;
use buglympics::player::{get_nearest_map_collision, Player, PlayerState};
use buglympics::probe::{Direction, Ray};
use buglympics::render::RenderState;
use buglympics::sounds::{Cue, SFX};
use buglympics::world::{GameMode, WorldState};

fn grid_of(columns: usize, rows: usize, tiles: &[(usize, usize, u16)]) -> TileGrid {
    let mut data = vec![0u16; columns * rows];
    for (row, column, tile) in tiles {
        data[row * columns + column] = *tile;
    }
    TileGrid::new(columns, rows, 16, 16, data).unwrap()
}

fn floor_grid() -> TileGrid {
    let mut tiles = Vec::new();
    for row in 6..10 {
        for column in 0..20 {
            tiles.push((row, column, 2u16));
        }
    }
    grid_of(20, 10, &tiles)
}

fn wall_grid() -> TileGrid {
    let mut tiles = Vec::new();
    for row in 0..10 {
        for column in 8..20 {
            tiles.push((row, column, 2u16));
        }
    }
    grid_of(20, 10, &tiles)
}

fn level_attrs() -> AttrSet {
    let mut attrs = AttrSet::new(0);
    attrs.load_slope_tiles();
    attrs
}

fn keys(codes: &[InputCode]) -> Inputs {
    let mut inputs = Inputs::new();
    for code in codes {
        inputs.insert(*code);
    }
    inputs
}

fn short_player(scene_x: u16, scene_y: i32) -> Player {
    let mut player = Player::new(1, [scene_x, scene_y.max(0) as u16]);
    player.collider.bottom = 16_000;
    player
}

#[test]
fn new_player_is_airborne_at_rest() {
    let player = Player::new(7, [100, 50]);
    assert_eq!(player.entity_id, 7);
    assert_eq!((player.transform.scene_x, player.transform.scene_y), (100_000, 50_000));
    assert_eq!((player.vel_x, player.vel_y), (0, 0));
    assert_eq!(player.player_state, PlayerState::Jumping);
    assert!(!player.grounded && !player.finished && !player.blocked_left && !player.blocked_right);
    assert_eq!((player.walk_speed, player.run_speed, player.jump_force), (3_000, 7_000, 10_000));
    assert_eq!((player.accel_rate, player.decel_rate, player.air_control), (100, 900, 750));
    assert_eq!((player.collider.left, player.collider.right), (0, 32_000));
    assert_eq!((player.collider.top, player.collider.bottom), (0, 48_000));
    assert_eq!(player.launcher.ammo, 255);
    assert_eq!(player.launcher.max_projectiles, 3);
}

#[test]
fn ground_probe_lands_player_on_solid_tile() {
    let grid = floor_grid();
    let attrs = level_attrs();
    let mut player = short_player(84, 68);
    player.vel_y = 4_000;
    player.integrate();
    assert_eq!(player.transform.scene_y, 72_000);
    let sensor = Ray::new(100_000, 88_000, Direction::Down, 8_000, 8);
    let hit = get_nearest_map_collision(&sensor, &grid, &attrs).unwrap();
    assert_eq!(hit.point_y, 96_000);
    assert_eq!(Player::find_surface_height(hit.tile_id, hit.point_x, &attrs), 16);
    player.check_ground_collision(&grid, &attrs);
    assert!(player.grounded);
    assert_eq!(player.slope, 16);
    assert_eq!(player.slope_accel, 1_000);
    assert_eq!(player.transform.scene_y, 80_000);
    assert_eq!(player.transform.scene_x, 84_000);
}

#[test]
fn falling_player_lands_within_one_frame() {
    let grid = floor_grid();
    let mut world = WorldState::new();
    world.collision_set.load_slope_tiles();
    let mut render = RenderState::new();
    let mut cues: Vec<Cue> = Vec::new();
    let mut targets: Vec<Target> = Vec::new();
    let mut player = Player::new(1, [84, 36]);
    player.init(&mut render);
    player.vel_y = 3_500;
    player.update(&Inputs::new(), GameMode::Buglympics, &world, &grid, &mut targets, [300, 300], &mut render, &mut cues);
    assert_eq!(player.vel_y, 4_000);
    assert_eq!(player.transform.scene_y, 48_000);
    assert_eq!(player.transform.scene_x, 84_000);
    assert!(player.grounded);
    assert_eq!(player.slope, 16);
    assert_eq!(player.player_state, PlayerState::Standing);
    assert_eq!(player.anim.frame, 1);
    assert_eq!(render.sprites[0].scene_y, 48);
    assert_eq!(render.sprites[0].scene_x, 84);
    assert_eq!(render.sprites[0].frame, 1);
    assert!(cues.is_empty());
    player.update(&Inputs::new(), GameMode::Buglympics, &world, &grid, &mut targets, [300, 300], &mut render, &mut cues);
    assert_eq!(player.vel_y, 0);
    assert_eq!(player.transform.scene_y, 48_000);
    assert_eq!(player.player_state, PlayerState::Standing);
    assert_eq!(player.anim.frame, 0);
}

#[test]
fn short_player_takes_the_floor_under_its_feet_for_a_wall() {
    let grid = floor_grid();
    let attrs = level_attrs();
    let mut player = short_player(84, 80);
    player.check_side_collision(&grid, &attrs);
    assert!(player.blocked_right);
    assert_eq!(player.transform.scene_x, 80_000);
}

#[test]
fn rising_player_finds_no_ground() {
    let grid = floor_grid();
    let attrs = level_attrs();
    let mut player = short_player(84, 76);
    player.vel_y = -1;
    player.grounded = true;
    player.check_ground_collision(&grid, &attrs);
    assert!(!player.grounded);
    assert_eq!(player.transform.scene_y, 76_000);
}

#[test]
fn player_out_of_reach_of_the_ground_stays_aloft() {
    let grid = floor_grid();
    let attrs = level_attrs();
    let mut player = short_player(84, 71);
    player.check_ground_collision(&grid, &attrs);
    assert!(!player.grounded);
    assert_eq!(player.transform.scene_y, 71_000);
    let mut near = short_player(84, 72);
    near.check_ground_collision(&grid, &attrs);
    assert!(near.grounded);
    assert_eq!(near.transform.scene_y, 80_000);
}

#[test]
fn sunken_player_is_lifted_onto_the_floor() {
    let grid = floor_grid();
    let attrs = level_attrs();
    let mut player = short_player(84, 84);
    player.check_ground_collision(&grid, &attrs);
    assert!(player.grounded);
    assert_eq!(player.transform.scene_y, 80_000);
}

#[test]
fn side_probe_stops_player_at_solid_tile() {
    let grid = wall_grid();
    let attrs = level_attrs();
    let mut player = Player::new(1, [88, 20]);
    player.vel_x = 4_000;
    player.integrate();
    assert_eq!(player.transform.scene_x, 92_000);
    let sensor = Ray::new(124_000, 36_000, Direction::Right, 4_000, 4);
    let hit = get_nearest_map_collision(&sensor, &grid, &attrs).unwrap();
    assert_eq!(hit.point_x, 128_000);
    player.check_side_collision(&grid, &attrs);
    assert_eq!(player.vel_x, 0);
    assert!(player.blocked_right);
    assert!(!player.blocked_left);
    assert_eq!(player.transform.scene_x, 128_000 - player.collider.right);
    assert_eq!(player.transform.scene_y, 20_000);
}

#[test]
fn side_probe_frees_the_side_without_a_wall() {
    let grid = wall_grid();
    let attrs = level_attrs();
    let mut player = Player::new(1, [40, 20]);
    player.vel_x = 4_000;
    player.blocked_right = true;
    player.blocked_left = true;
    player.check_side_collision(&grid, &attrs);
    assert!(!player.blocked_right);
    assert!(player.blocked_left);
    assert_eq!(player.vel_x, 4_000);
    player.vel_x = -4_000;
    player.check_side_collision(&grid, &attrs);
    assert!(!player.blocked_left);
}

#[test]
fn side_probe_passes_a_slope() {
    let grid = grid_of(20, 10, &[(2, 8, 68)]);
    let attrs = level_attrs();
    let mut player = Player::new(1, [93, 20]);
    player.vel_x = 4_000;
    player.blocked_right = true;
    player.check_side_collision(&grid, &attrs);
    assert_eq!(player.vel_x, 4_000);
    assert!(!player.blocked_right);
    assert_eq!(player.transform.scene_x, 93_000);
}

#[test]
fn leftward_side_probe_stops_player_at_the_wall() {
    let grid = grid_of(20, 10, &[(2, 3, 2)]);
    let attrs = level_attrs();
    let mut player = Player::new(1, [66, 20]);
    player.vel_x = -2_000;
    player.check_side_collision(&grid, &attrs);
    assert!(player.blocked_left);
    assert_eq!(player.vel_x, 0);
    assert_eq!(player.transform.scene_x, 64_000);
}

#[test]
fn held_player_moves_vertically_only() {
    let mut player = Player::new(1, [50, 50]);
    player.vel_x = 3_000;
    player.vel_y = 2_000;
    player.blocked_right = true;
    player.player_state = PlayerState::Walking;
    player.integrate();
    assert_eq!((player.transform.scene_x, player.transform.scene_y), (50_000, 52_000));
    assert_eq!(player.player_state, PlayerState::Standing);
    player.vel_x = -3_000;
    player.integrate();
    assert_eq!((player.transform.scene_x, player.transform.scene_y), (47_000, 54_000));
}

#[test]
fn slope_height_follows_the_profile() {
    let attrs = level_attrs();
    assert_eq!(Player::find_surface_height(68, 0, &attrs), 0);
    assert_eq!(Player::find_surface_height(68, 5_999, &attrs), 5);
    assert_eq!(Player::find_surface_height(68, 16_000 * 7 + 15_000, &attrs), 15);
    assert_eq!(Player::find_surface_height(67, 0, &attrs), 15);
    assert_eq!(Player::find_surface_height(67, 15_000, &attrs), 0);
    assert_eq!(Player::find_surface_height(70, 3_000, &attrs), 9);
    assert_eq!(Player::find_surface_height(71, 3_000, &attrs), 6);
    assert_eq!(Player::find_surface_height(74, 12_500, &attrs), 15);
    assert_eq!(Player::find_surface_height(73, 0, &attrs), 16);
    assert_eq!(Player::find_surface_height(2, 9_000, &attrs), 16);
    assert_eq!(Player::find_surface_height(1, 9_000, &attrs), 0);
}

#[test]
fn player_stands_on_a_slope_at_its_height() {
    let grid = grid_of(20, 10, &[(5, 6, 68), (6, 6, 2), (6, 5, 2), (6, 7, 2)]);
    let attrs = level_attrs();
    let mut on_slope = short_player(84, 70);
    on_slope.vel_x = 1_000;
    on_slope.check_ground_collision(&grid, &attrs);
    assert!(on_slope.grounded);
    assert_eq!(on_slope.slope, 4);
    assert_eq!(on_slope.slope_accel, 500);
    assert_eq!(on_slope.transform.scene_y, 76_000);
    let mut through_seam = short_player(84, 74);
    through_seam.vel_x = -1_000;
    through_seam.check_ground_collision(&grid, &attrs);
    assert_eq!(through_seam.slope, 20);
    assert_eq!(through_seam.slope_accel, 1_000);
    assert_eq!(through_seam.transform.scene_y, 76_000);
}

#[test]
fn friction_depends_on_the_slope() {
    let none = Inputs::new();
    let mut cues: Vec<Cue> = Vec::new();
    for (slope_accel, expected) in [(500, 4_350), (750, 4_500), (1_000, 4_650), (1_250, 4_800), (1_500, 4_950)] {
        let mut player = Player::new(1, [0, 0]);
        player.vel_x = 5_000;
        player.slope_accel = slope_accel;
        player.accelerate(&none, GameMode::Buglympics, 500, &mut cues);
        assert_eq!(player.vel_x, expected);
        let mut leftward = Player::new(1, [0, 0]);
        leftward.vel_x = -5_000;
        leftward.slope_accel = slope_accel;
        leftward.accelerate(&none, GameMode::Buglympics, 500, &mut cues);
        assert_eq!(leftward.vel_x, -expected);
    }
    let mut slow = Player::new(1, [0, 0]);
    slow.vel_x = -1;
    slow.accelerate(&none, GameMode::Buglympics, 500, &mut cues);
    assert_eq!(slow.vel_x, 0);
}

#[test]
fn standing_player_starts_to_walk() {
    let mut cues: Vec<Cue> = Vec::new();
    let mut player = Player::new(1, [0, 0]);
    player.player_state = PlayerState::Standing;
    player.vel_y = 700;
    player.accelerate(&keys(&[InputCode::Right]), GameMode::Buglympics, 500, &mut cues);
    assert_eq!(player.vel_x, 300);
    assert_eq!(player.vel_y, 0);
    assert_eq!(player.player_state, PlayerState::Walking);
    assert!(!player.facing_left);
    assert_eq!(player.anim.rate, 6);
    let mut downhill = Player::new(1, [0, 0]);
    downhill.player_state = PlayerState::Standing;
    downhill.slope_accel = 1_250;
    downhill.accelerate(&keys(&[InputCode::Left]), GameMode::Buglympics, 500, &mut cues);
    assert_eq!(downhill.vel_x, -375);
    assert!(downhill.facing_left);
    let mut running = Player::new(1, [0, 0]);
    running.player_state = PlayerState::Standing;
    running.accelerate(&keys(&[InputCode::Right, InputCode::Fire]), GameMode::Buglympics, 500, &mut cues);
    assert_eq!(running.vel_x, 700);
    assert_eq!(running.anim.rate, 8);
    let mut armed = Player::new(1, [0, 0]);
    armed.player_state = PlayerState::Standing;
    armed.accelerate(&keys(&[InputCode::Right, InputCode::Fire]), GameMode::Spyder, 500, &mut cues);
    assert_eq!(armed.vel_x, 300);
    assert_eq!(armed.anim.rate, 6);
    let mut both = Player::new(1, [0, 0]);
    both.player_state = PlayerState::Standing;
    both.accelerate(&keys(&[InputCode::Right, InputCode::Left]), GameMode::Buglympics, 500, &mut cues);
    assert_eq!(both.vel_x, 0);
    assert!(both.facing_left);
    assert_eq!(both.player_state, PlayerState::Walking);
    assert!(cues.is_empty());
}

#[test]
fn airborne_player_steers_with_less_force() {
    let mut cues: Vec<Cue> = Vec::new();
    let mut player = Player::new(1, [0, 0]);
    player.vel_x = 1_000;
    player.accelerate(&keys(&[InputCode::Left]), GameMode::Buglympics, 500, &mut cues);
    assert_eq!(player.vel_x, 930 - 225);
    assert_eq!(player.vel_y, 500);
    assert!(player.facing_left);
    assert_eq!(player.player_state, PlayerState::Jumping);
    let mut running = Player::new(1, [0, 0]);
    running.accelerate(&keys(&[InputCode::Right, InputCode::Fire]), GameMode::Buglympics, 500, &mut cues);
    assert_eq!(running.vel_x, 525);
    let mut jumping = Player::new(1, [0, 0]);
    jumping.accelerate(&keys(&[InputCode::Jump]), GameMode::Buglympics, 500, &mut cues);
    assert_eq!(jumping.vel_y, 500);
    assert!(cues.is_empty());
}

#[test]
fn speed_is_capped_at_running_speed() {
    let mut cues: Vec<Cue> = Vec::new();
    let mut player = Player::new(1, [0, 0]);
    player.player_state = PlayerState::Standing;
    player.slope_accel = 1_500;
    player.vel_x = 7_000;
    player.accelerate(&keys(&[InputCode::Right, InputCode::Fire]), GameMode::Buglympics, 500, &mut cues);
    assert_eq!(player.vel_x, 7_000);
    let mut leftward = Player::new(1, [0, 0]);
    leftward.player_state = PlayerState::Standing;
    leftward.slope_accel = 1_500;
    leftward.vel_x = -7_000;
    leftward.accelerate(&keys(&[InputCode::Left, InputCode::Fire]), GameMode::Buglympics, 500, &mut cues);
    assert_eq!(leftward.vel_x, -7_000);
    let mut still = Player::new(1, [0, 0]);
    still.run_speed = 0;
    still.player_state = PlayerState::Standing;
    still.accelerate(&keys(&[InputCode::Left]), GameMode::Buglympics, 500, &mut cues);
    assert_eq!(still.vel_x, 0);
}

#[test]
fn falling_speed_has_a_terminal_cap() {
    let none = Inputs::new();
    let mut cues: Vec<Cue> = Vec::new();
    let mut player = Player::new(1, [0, 0]);
    player.vel_y = 9_800;
    player.accelerate(&none, GameMode::Buglympics, 500, &mut cues);
    assert_eq!(player.vel_y, 10_300);
    player.accelerate(&none, GameMode::Buglympics, 500, &mut cues);
    assert_eq!(player.vel_y, 10_000);
    player.accelerate(&none, GameMode::Buglympics, 500, &mut cues);
    assert_eq!(player.vel_y, 10_000);
}

#[test]
fn standing_player_jumps_with_a_sound() {
    let mut cues: Vec<Cue> = Vec::new();
    let mut player = Player::new(1, [0, 0]);
    player.player_state = PlayerState::Standing;
    player.accelerate(&keys(&[InputCode::Jump, InputCode::Right]), GameMode::Buglympics, 500, &mut cues);
    assert_eq!(player.vel_y, -10_000);
    assert_eq!(player.vel_x, 300);
    assert_eq!(player.player_state, PlayerState::Jumping);
    assert_eq!(cues, vec![Cue { effect: SFX::JumpA, pitch: 200, instrument: 2, num_samples: 800 }]);
    let mut agent = Player::new(1, [0, 0]);
    agent.player_state = PlayerState::Standing;
    agent.accelerate(&keys(&[InputCode::Jump]), GameMode::Spyder, 500, &mut cues);
    assert_eq!(cues[1], Cue { effect: SFX::JumpB, pitch: 110, instrument: 1, num_samples: 800 });
}

#[test]
fn walking_player_comes_to_a_stand_before_input_counts() {
    let mut cues: Vec<Cue> = Vec::new();
    let mut player = Player::new(1, [0, 0]);
    player.player_state = PlayerState::Walking;
    player.vel_x = 1_000;
    player.vel_y = 123;
    player.facing_left = true;
    player.accelerate(&keys(&[InputCode::Right, InputCode::Jump]), GameMode::Buglympics, 500, &mut cues);
    assert_eq!(player.player_state, PlayerState::Standing);
    assert_eq!(player.vel_x, 930);
    assert_eq!(player.vel_y, 123);
    assert!(player.facing_left);
    assert!(cues.is_empty());
}

#[test]
fn finish_line_counts_in_the_race_only() {
    let mut player = Player::new(1, [1000, 500]);
    player.check_finish(GameMode::Spyder, [1000, 500]);
    assert!(!player.finished);
    player.check_finish(GameMode::Buglympics, [1016, 500]);
    assert!(!player.finished);
    player.check_finish(GameMode::Buglympics, [1000, 548]);
    assert!(!player.finished);
    player.check_finish(GameMode::Buglympics, [985, 547]);
    assert!(player.finished);
    let mut near = Player::new(1, [1015, 453]);
    near.transform.scene_x += 999;
    near.check_finish(GameMode::Buglympics, [1000, 500]);
    assert!(near.finished);
}

#[test]
fn state_machine_settles_with_the_animation() {
    let mut cues: Vec<Cue> = Vec::new();
    let mut aloft = Player::new(1, [0, 0]);
    aloft.player_state = PlayerState::Walking;
    aloft.slope = 9;
    aloft.settle(&mut cues);
    assert_eq!(aloft.player_state, PlayerState::Jumping);
    assert_eq!(aloft.slope, 0);
    assert_eq!((aloft.anim.first, aloft.anim.last, aloft.anim.frame), (6, 6, 6));
    let mut landed = Player::new(1, [0, 0]);
    landed.grounded = true;
    landed.slope = 16;
    landed.settle(&mut cues);
    assert_eq!(landed.player_state, PlayerState::Standing);
    assert_eq!(landed.slope, 16);
    assert_eq!(landed.anim.frame, 1);
    let mut standing = Player::new(1, [0, 0]);
    standing.grounded = true;
    standing.player_state = PlayerState::Standing;
    standing.settle(&mut cues);
    assert_eq!((standing.anim.first, standing.anim.last, standing.anim.frame), (0, 0, 0));
    assert!(cues.is_empty());
    let mut skiing = Player::new(1, [0, 0]);
    skiing.grounded = true;
    skiing.player_state = PlayerState::Walking;
    skiing.slope_accel = 1_250;
    skiing.settle(&mut cues);
    assert_eq!(skiing.player_state, PlayerState::Standing);
    assert_eq!((skiing.anim.first, skiing.anim.last, skiing.anim.frame), (5, 5, 5));
    assert_eq!(cues, vec![Cue { effect: SFX::Ski, pitch: 20, instrument: 0, num_samples: 800 }]);
}

#[test]
fn walking_animation_cycles_through_its_frames() {
    let mut cues: Vec<Cue> = Vec::new();
    let mut player = Player::new(1, [0, 0]);
    player.grounded = true;
    player.anim.rate = 2;
    let mut frames = Vec::new();
    for _ in 0..12 {
        player.player_state = PlayerState::Walking;
        player.settle(&mut cues);
        frames.push(player.anim.frame);
    }
    assert_eq!(frames, vec![0, 1, 1, 2, 2, 3, 3, 4, 4, 5, 5, 1]);
}

#[test]
fn fallen_player_is_put_back() {
    let mut player = Player::new(1, [500, 3280]);
    player.check_fall();
    assert_eq!((player.transform.scene_x, player.transform.scene_y), (500_000, 3_280_000));
    player.transform.scene_y += 1;
    player.check_fall();
    assert_eq!((player.transform.scene_x, player.transform.scene_y), (100_000, 100_000));
}

#[test]
fn player_fires_in_the_mission_only() {
    let grid = floor_grid();
    let mut world = WorldState::new();
    world.collision_set.load_slope_tiles();
    let mut render = RenderState::new();
    let mut cues: Vec<Cue> = Vec::new();
    let mut targets: Vec<Target> = Vec::new();
    let fire = keys(&[InputCode::Fire]);
    let mut racer = Player::new(1, [20, 20]);
    racer.init(&mut render);
    for _ in 0..12 {
        racer.update(&fire, GameMode::Buglympics, &world, &grid, &mut targets, [0, 0], &mut render, &mut cues);
    }
    assert!(racer.launcher.projectiles.is_empty());
    assert_eq!(racer.launcher.cooldown, 10);
    let mut agent = Player::new(2, [20, 20]);
    agent.init(&mut render);
    agent.facing_left = true;
    let mut fired_in = None;
    for frame in 1..=12 {
        agent.update(&fire, GameMode::Spyder, &world, &grid, &mut targets, [0, 0], &mut render, &mut cues);
        if fired_in.is_none() && !agent.launcher.projectiles.is_empty() {
            fired_in = Some(frame);
        }
    }
    assert_eq!(fired_in, Some(9));
    assert_eq!(agent.launcher.projectiles.len(), 1);
    assert_eq!(agent.launcher.ammo, 254);
    assert_eq!(agent.launcher.projectiles[0].direction, Direction::Left);
    assert_eq!(cues.iter().filter(|cue| cue.effect == SFX::Fire).count(), 1);
}

#[test]
fn player_walks_along_the_floor() {
    let grid = floor_grid();
    let mut world = WorldState::new();
    world.collision_set.load_slope_tiles();
    let mut render = RenderState::new();
    let mut cues: Vec<Cue> = Vec::new();
    let mut targets: Vec<Target> = Vec::new();
    let mut player = Player::new(1, [20, 28]);
    player.init(&mut render);
    let right = keys(&[InputCode::Right]);
    for _ in 0..40 {
        player.update(&right, GameMode::Buglympics, &world, &grid, &mut targets, [0, 0], &mut render, &mut cues);
        assert!(player.vel_x.abs() <= player.run_speed);
    }
    assert!(player.grounded);
    assert_eq!(player.transform.scene_y, 48_000);
    assert!(player.transform.scene_x > 100_000);
    assert_eq!(player.player_state, PlayerState::Standing);
    assert_eq!(render.sprites[0].scene_y, 48);
    assert!(!render.sprites[0].reverse_x);
}

#[test]
fn well_formed_attributes_are_needed_for_the_level() {
    let attrs = level_attrs();
    assert_eq!(attrs.len(), 21);
    assert_eq!(attrs.get(67), Some(TileAttr::Angle(-1)));
    assert_eq!(attrs.get(74), Some(TileAttr::Angle(4)));
    assert_eq!(attrs.get(89), None);
    assert!(!attrs.contains(0));
}

#[test]
fn two_full_tiles_stack_their_heights() {
    let grid = grid_of(20, 10, &[(5, 6, 2), (6, 6, 2), (4, 6, 2)]);
    let attrs = level_attrs();
    let mut player = short_player(84, 84);
    player.check_ground_collision(&grid, &attrs);
    assert!(player.grounded);
    assert_eq!(player.slope, 32);
    assert_eq!(player.transform.scene_y, 64_000);
    player.check_ground_collision(&grid, &attrs);
    assert_eq!(player.slope, 32);
    assert_eq!(player.transform.scene_y, 48_000);
}

#[test]
fn full_tile_in_the_top_row_has_nothing_above() {
    let grid = grid_of(20, 10, &[(0, 6, 2)]);
    let attrs = level_attrs();
    let mut player = short_player(84, -12);
    assert_eq!(player.transform.scene_y, 0);
    player.transform.scene_y = -12_000;
    player.check_ground_collision(&grid, &attrs);
    assert!(player.grounded);
    assert_eq!(player.slope, 16);
    assert_eq!(player.transform.scene_y, -16_000);
}

#[test]
fn nearest_hit_of_several_probes_names_its_probe() {
    let grid = floor_grid();
    let attrs = level_attrs();
    let far = Ray::new(20_000, 90_000, Direction::Down, 8_000, 8);
    let near = Ray::new(40_000, 94_000, Direction::Down, 8_000, 8);
    let tied = Ray::new(60_000, 94_000, Direction::Down, 8_000, 8);
    let blind = Ray::new(80_000, 10_000, Direction::Down, 8_000, 8);
    let found = Player::get_nearest_map_collision(&vec![blind, far, near, tied], &grid, &attrs).unwrap();
    assert_eq!(found.sensor, 2);
    assert_eq!((found.hit.point_x, found.hit.point_y), (40_000, 96_000));
    let found = Player::get_nearest_map_collision(&vec![tied, near], &grid, &attrs).unwrap();
    assert_eq!(found.sensor, 0);
    assert_eq!(found.hit.point_x, 60_000);
    assert_eq!(Player::get_nearest_map_collision(&vec![blind, blind], &grid, &attrs), None);
    assert_eq!(Player::get_nearest_map_collision(&Vec::new(), &grid, &attrs), None);
    let side = Ray::new(33_000, 100_000, Direction::Right, 4_000, 4);
    let found = Player::get_nearest_map_collision(&vec![far, side], &grid, &attrs).unwrap();
    assert_eq!(found.sensor, 1);
    assert_eq!(found.hit.point_x, 32_000);
    let wide = Ray::new(40_000, 100_000, Direction::Right, 4_000, 4);
    let found = Player::get_nearest_map_collision(&vec![far, wide], &grid, &attrs).unwrap();
    assert_eq!(found.sensor, 0);
}
