use lvl_0::angle::{DEGREE, QUARTER_TURN};
use lvl_0::cue::Cue;
use lvl_0::fixed::{MINUS_ONE, ONE};
use lvl_0::geometry::{Direction, Vec2};
use lvl_0::scene::combat::{pursuits_fit, MUZZLE, PROJECTILE_PACE, RESTART_FLOOR, TARGET_DAMAGE};
use lvl_0::scene::control::{axis, CHANNEL_PERIOD, COMMANDED_TIMER};
use lvl_0::scene::lifecycle::{FAR_SPAWN, FIRST_TICK, NEAR_SPAWN};
use lvl_0::scene::report::{append_decimal, list, pair};
use lvl_0::scene::tick::Outcome;
use lvl_0::scene::{Bearings, Headings, Input, Pursuit, Remote, Scene, Settings, Sprites};
use lvl_0::units::enemy_unit::{EnemyUnit, ENEMY_HIT_POINTS, ENEMY_HIT_TURN, ENEMY_SPAWN_ROTATION};
use lvl_0::units::projectile::Projectile;
use lvl_0::units::target_unit::TARGET_HIT_POINTS;

fn fixed(value: f64) -> i64 {
    (value * 1e6).round() as i64
}

fn point(x: f64, y: f64) -> Vec2 {
    Vec2::new(fixed(x), fixed(y))
}

fn arctangent(offset: Vec2) -> i64 {
    fixed((offset.y as f64 / offset.x as f64).atan().to_degrees())
}

fn direction(rotation: i64) -> Direction {
    let angle = (rotation as f64 / 1e6).to_radians();
    Direction { sin: fixed(angle.sin()), cos: fixed(angle.cos()) }
}

fn up() -> Direction {
    Direction { sin: 0, cos: ONE }
}

fn down() -> Direction {
    Direction { sin: 0, cos: MINUS_ONE }
}

fn settings() -> Settings {
    Settings {
        main_unit_speed: fixed(200.0),
        main_unit_shoot_delay: fixed(0.5),
        main_unit_shoot_range: fixed(400.0),
        enemy_unit_speed: fixed(50.0),
        enemy_unit_rotation_speed: fixed(120.0),
    }
}

fn sprites() -> Sprites {
    Sprites {
        main_unit: point(64.0, 64.0),
        target_unit: point(90.0, 90.0),
        enemy_unit: point(40.0, 40.0),
        projectile: point(8.0, 8.0),
    }
}

fn screen() -> Vec2 {
    point(800.0, 600.0)
}

fn scene() -> Scene {
    Scene::new(settings(), sprites(), screen(), point(400.0, 300.0), 16_000)
}

fn idle(dt: u32) -> Input {
    Input {
        dt,
        left: false,
        right: false,
        up: false,
        down: false,
        trigger: false,
        pointer: point(400.0, 300.0),
        screen: screen(),
    }
}

fn projectile_at(x: f64, y: f64, heading: Direction) -> Projectile {
    Projectile::new(point(8.0, 8.0), 0, heading, point(x, y), fixed(600.0))
}

fn answer(scene: &Scene, input: &Input, remote: &Option<Remote>) -> (Bearings, Headings) {
    let asked = scene.bearing_queries(input, remote);
    let bearings = Bearings {
        aim: arctangent(asked.aim),
        enemies: asked
            .enemies
            .iter()
            .map(|sight| Pursuit {
                target: arctangent(sight.target),
                peers: sight.peers.iter().map(|peer| arctangent(*peer)).collect(),
            })
            .collect(),
    };
    let asked = scene.heading_queries(input, remote, &bearings).unwrap();
    let headings = Headings {
        main_unit: direction(asked.main_unit),
        enemies: asked.enemies.iter().map(|heading| direction(*heading)).collect(),
    };
    (bearings, headings)
}

/// One tick, with the angles measured as an application measures them.
fn tick(scene: &mut Scene, input: &Input, remote: &Option<Remote>) -> Outcome {
    let (bearings, headings) = answer(scene, input, remote);
    scene.update(input, remote, &bearings, &headings).unwrap()
}

fn same(a: &Scene, b: &Scene) -> bool {
    a.main_unit == b.main_unit
        && a.target_unit == b.target_unit
        && a.enemy_units == b.enemy_units
        && a.projectiles == b.projectiles
        && a.dt == b.dt
        && a.sprites == b.sprites
        && a.settings == b.settings
        && a.command == b.command
        && a.tick == b.tick
        && a.target_point == b.target_point
}

fn commanded_shot() -> Option<Remote> {
    Some(Remote::new("Shoot", Some(fixed(400.0)), Some(fixed(160.0)), Some(0)))
}

#[test]
fn new_scene_holds_player_target_and_four_enemies() {
    let scene = scene();
    assert_eq!(scene.main_unit.position, point(400.0, 480.0));
    assert_eq!(scene.main_unit.speed, fixed(200.0));
    assert_eq!(scene.main_unit.shoot_delay, fixed(0.5));
    assert_eq!(scene.main_unit.shoot_range, fixed(400.0));
    assert_eq!(scene.target_unit.position, point(400.0, 160.0));
    assert_eq!(scene.target_unit.radius, fixed(45.0));
    assert_eq!(scene.target_unit.hit_points, TARGET_HIT_POINTS);
    assert!(scene.projectiles.is_empty());
    assert_eq!(scene.enemy_units.len(), 4);
    let places = [300.0, 200.0, 500.0, 600.0];
    for (unit, x) in scene.enemy_units.iter().zip(places) {
        assert_eq!(unit.position, point(x, 160.0));
        assert_eq!(unit.rotation, ENEMY_SPAWN_ROTATION);
        assert_eq!(unit.hit_points, ENEMY_HIT_POINTS);
        assert_eq!(unit.radius, fixed(20.0));
        assert_eq!(unit.speed, fixed(50.0));
        assert_eq!(unit.rotation_speed, fixed(120.0));
        assert!(unit.alive);
    }
    assert_eq!(scene.dt, 16_000);
    assert_eq!(scene.tick, FIRST_TICK);
    assert_eq!(scene.target_point, point(400.0, 300.0));
    assert!(!scene.command.shoot);
    assert_eq!(scene.command.wasd, Vec2::new(0, 0));
    assert!(scene.channel_due());
    assert_eq!(NEAR_SPAWN, fixed(100.0));
    assert_eq!(FAR_SPAWN, fixed(200.0));
}

#[test]
fn spawn_adds_one_enemy_by_the_target() {
    let mut scene = scene();
    scene.spawn_single_enemy_unit(fixed(-7.0), fixed(9.0));
    assert_eq!(scene.enemy_units.len(), 5);
    assert_eq!(scene.enemy_units[4].position, point(393.0, 169.0));
    assert_eq!(scene.enemy_units[4].hit_points, ENEMY_HIT_POINTS);
}

#[test]
fn duplicate_is_the_same_scene() {
    let mut scene = scene();
    scene.projectiles.push(projectile_at(1.0, 2.0, up()));
    let copy = scene.duplicate();
    assert!(same(&scene, &copy));
}

#[test]
fn keys_make_the_movement() {
    let mut scene = scene();
    let mut input = idle(16_000);
    input.left = true;
    input.down = true;
    scene.update_command_from_user_input(&input);
    assert_eq!(scene.command.wasd, Vec2::new(MINUS_ONE, ONE));
    input.right = true;
    input.up = true;
    scene.update_command_from_user_input(&input);
    assert_eq!(scene.command.wasd, Vec2::new(0, 0));
    input.left = false;
    input.down = false;
    scene.update_command_from_user_input(&input);
    assert_eq!(scene.command.wasd, Vec2::new(ONE, MINUS_ONE));
}

#[test]
fn a_player_off_the_screen_is_sent_back() {
    let mut scene = scene();
    let mut input = idle(16_000);
    input.left = true;
    input.up = true;
    scene.main_unit.position = Vec2::new(ONE - 1, ONE - 1);
    scene.update_command_from_user_input(&input);
    assert_eq!(scene.command.wasd, Vec2::new(ONE, ONE));
    scene.main_unit.position = Vec2::new(ONE, ONE);
    scene.update_command_from_user_input(&input);
    assert_eq!(scene.command.wasd, Vec2::new(MINUS_ONE, MINUS_ONE));
    input.left = false;
    input.up = false;
    input.right = true;
    input.down = true;
    scene.main_unit.position = point(800.0, 600.0);
    scene.update_command_from_user_input(&input);
    assert_eq!(scene.command.wasd, Vec2::new(ONE, ONE));
    scene.main_unit.position = Vec2::new(fixed(800.0) + 1, fixed(600.0) + 1);
    scene.update_command_from_user_input(&input);
    assert_eq!(scene.command.wasd, Vec2::new(MINUS_ONE, MINUS_ONE));
    // beyond a screen narrower than one unit the far edge decides
    assert_eq!(axis(false, false, HALF_UNIT, 0), MINUS_ONE);
}

const HALF_UNIT: i64 = 500_000;

#[test]
fn only_the_word_shoot_commands_a_shot() {
    assert!(Remote::new("Shoot", None, None, None).shoot);
    assert!(!Remote::new("shoot", None, None, None).shoot);
    assert!(!Remote::new("Shoot ", None, None, None).shoot);
    assert!(!Remote::new("", None, None, None).shoot);
    let remote = Remote::new("Shoot", Some(1), None, Some(3));
    assert_eq!(remote.target_point_x, Some(1));
    assert_eq!(remote.target_point_y, None);
    assert_eq!(remote.rotation, Some(3));
}

#[test]
fn a_commanded_shot_forces_the_aim() {
    let mut scene = scene();
    let consumed = scene.update_command_from_url_query(&Remote::new(
        "Shoot",
        Some(fixed(120.0)),
        None,
        Some(45 * DEGREE),
    ));
    assert!(consumed);
    assert!(scene.command.shoot);
    assert_eq!(scene.target_point, Vec2::new(fixed(120.0), 0));
    assert_eq!(scene.main_unit.shoot_timer, COMMANDED_TIMER);
    assert_eq!(COMMANDED_TIMER, ONE);
    assert!(scene.main_unit.auto_aim);
    assert_eq!(scene.command.rotation, 45 * DEGREE);
}

#[test]
fn a_channel_without_command_only_sets_the_heading() {
    let mut scene = scene();
    let before = scene.duplicate();
    let consumed =
        scene.update_command_from_url_query(&Remote::new("", Some(1), Some(2), Some(-30 * DEGREE)));
    assert!(!consumed);
    assert_eq!(scene.command.rotation, -30 * DEGREE);
    assert!(!scene.command.shoot);
    assert!(!scene.main_unit.auto_aim);
    assert_eq!(scene.target_point, before.target_point);
    assert_eq!(scene.main_unit, before.main_unit);
    // a heading that could not be read leaves the old one
    let consumed = scene.update_command_from_url_query(&Remote::new("", None, None, None));
    assert!(!consumed);
    assert_eq!(scene.command.rotation, -30 * DEGREE);
}

#[test]
fn forced_aim_ends_with_the_next_movement() {
    let mut scene = scene();
    let outcome = tick(&mut scene, &idle(20_000), &commanded_shot());
    assert!(outcome.clear_command);
    assert!(scene.main_unit.auto_aim);
    tick(&mut scene, &idle(20_000), &None);
    assert!(scene.main_unit.auto_aim);
    let mut input = idle(20_000);
    input.right = true;
    tick(&mut scene, &input, &None);
    assert!(!scene.main_unit.auto_aim);
    assert_eq!(scene.main_unit.position, point(404.0, 480.0));
}

#[test]
fn forced_aim_ends_with_a_held_trigger() {
    let mut scene = scene();
    tick(&mut scene, &idle(20_000), &commanded_shot());
    assert!(scene.main_unit.auto_aim);
    let mut input = idle(20_000);
    input.trigger = true;
    tick(&mut scene, &input, &None);
    assert!(!scene.main_unit.auto_aim);
}

#[test]
fn report_of_a_new_scene() {
    let scene = scene();
    let report = scene.set_parameters_to_url_query();
    assert_eq!(report.target_pos, "(400, 160)");
    assert_eq!(report.unit_pos, "(400, 480)");
    assert_eq!(report.enemy_units, "[(300, 160), (200, 160), (500, 160), (600, 160), ]");
}

#[test]
fn report_cuts_positions_to_whole_numbers() {
    assert_eq!(pair(Vec2::new(1_999_999, -1_999_999)), "(1, -1)");
    assert_eq!(pair(Vec2::new(999_999, -999_999)), "(0, 0)");
    assert_eq!(pair(Vec2::new(-12_345_000_000, 10_000_000)), "(-12345, 10)");
    assert_eq!(pair(Vec2::new(i64::MAX, i64::MIN)), "(2147483647, -2147483648)");
    assert_eq!(list(&Vec::new()), "[]");
    let mut text = String::from("x=");
    append_decimal(&mut text, -7090);
    append_decimal(&mut text, 0);
    append_decimal(&mut text, 1000);
    assert_eq!(text, "x=-709001000");
}

#[test]
fn first_tick_reads_the_channel_and_later_ticks_wait_a_second() {
    let mut scene = scene();
    assert!(scene.channel_due());
    tick(&mut scene, &idle(400_000), &None);
    assert_eq!(scene.tick, 0);
    assert_eq!(scene.dt, 400_000);
    assert!(!scene.channel_due());
    tick(&mut scene, &idle(400_000), &None);
    assert_eq!(scene.tick, 400_000);
    assert!(!scene.channel_due());
    tick(&mut scene, &idle(200_000), &None);
    assert_eq!(scene.tick, 800_000);
    assert!(scene.channel_due());
    // the time step of the tick before takes the time to a second
    let outcome = tick(&mut scene, &idle(1), &commanded_shot());
    assert!(outcome.clear_command);
    assert_eq!(scene.tick, 0);
    assert_eq!(CHANNEL_PERIOD, ONE);
}

#[test]
fn a_channel_that_is_not_due_is_not_heard() {
    let mut scene = scene();
    tick(&mut scene, &idle(20_000), &None);
    assert!(!scene.channel_due());
    let outcome = tick(&mut scene, &idle(20_000), &commanded_shot());
    assert!(!outcome.clear_command);
    assert!(!scene.main_unit.auto_aim);
    assert!(scene.projectiles.is_empty());
    assert!(outcome.cues.is_empty());
}

#[test]
fn a_commanded_shot_flies_to_the_target() {
    let mut scene = scene();
    let outcome = tick(&mut scene, &idle(20_000), &commanded_shot());
    assert_eq!(outcome.cues, vec![Cue::Shot]);
    assert!(outcome.clear_command);
    assert_eq!(scene.main_unit.rotation, 0);
    assert_eq!(scene.main_unit.shoot_timer, 0);
    assert!(scene.command.shoot);
    assert_eq!(scene.projectiles.len(), 1);
    let p = scene.projectiles[0];
    // fired 65 above the player, then flown for a fiftieth of a second at 600
    assert_eq!(p.start_position, point(400.0, 415.0));
    assert_eq!(p.position, point(400.0, 403.0));
    assert_eq!(p.speed, fixed(600.0));
    assert_eq!(p.rotation, 0);
    assert_eq!(p.direction, up());
    assert!(p.alive);
    assert_eq!(MUZZLE, fixed(65.0));
    assert_eq!(PROJECTILE_PACE, fixed(3.0));
    for _ in 2..19 {
        let outcome = tick(&mut scene, &idle(20_000), &None);
        assert!(outcome.cues.is_empty());
        assert!(!scene.command.shoot);
        assert_eq!(scene.target_unit.hit_points, TARGET_HIT_POINTS);
    }
    assert_eq!(scene.projectiles[0].position, point(400.0, 199.0));
    let outcome = tick(&mut scene, &idle(20_000), &None);
    assert_eq!(outcome.cues, vec![Cue::TargetImpact { alive: true }]);
    assert_eq!(scene.target_unit.hit_points, fixed(80.0));
    assert_eq!(scene.target_unit.shift, point(0.0, 5.0));
    assert_eq!(scene.projectiles.len(), 1);
    assert!(!scene.projectiles[0].alive);
    assert_eq!(scene.projectiles[0].position, point(400.0, 199.0));
    let outcome = tick(&mut scene, &idle(20_000), &None);
    assert!(outcome.cues.is_empty());
    assert!(scene.projectiles.is_empty());
    assert_eq!(scene.target_unit.shift, Vec2::new(0, 0));
    assert_eq!(scene.target_unit.hit_points, fixed(80.0));
    assert_eq!(TARGET_DAMAGE, fixed(-20.0));
}

#[test]
fn a_held_trigger_fires_at_the_pace_of_the_delay() {
    let mut scene = scene();
    let mut input = idle(100_000);
    input.trigger = true;
    input.pointer = point(400.0, 0.0);
    let mut shots = 0;
    for _ in 0..22 {
        let outcome = tick(&mut scene, &input, &None);
        shots += outcome.cues.iter().filter(|cue| **cue == Cue::Shot).count();
    }
    // ready after 0.5, 1.0, 1.5 and 2.0 seconds
    assert_eq!(shots, 4);
}

#[test]
fn enemies_close_in_on_the_player() {
    let mut scene = scene();
    let player = scene.main_unit.position;
    let far = |unit: &EnemyUnit| {
        let dx = (unit.position.x - player.x) as f64;
        let dy = (unit.position.y - player.y) as f64;
        (dx * dx + dy * dy).sqrt()
    };
    let before: Vec<f64> = scene.enemy_units.iter().map(far).collect();
    for _ in 0..150 {
        tick(&mut scene, &idle(20_000), &None);
    }
    let after: Vec<f64> = scene.enemy_units.iter().map(far).collect();
    assert_eq!(after.len(), 4);
    for (now, then) in after.iter().zip(before.iter()) {
        assert!(*now < *then - 50e6);
    }
}

#[test]
fn enemies_see_each_other_where_they_stood_before_the_tick() {
    // Two enemies close to each other. The first is fast and leaves; the
    // second must still see it where it stood.
    let mut scene = scene();
    let mut first = scene.enemy_units[0];
    let mut second = scene.enemy_units[1];
    first.position = point(300.0, 160.0);
    first.rotation = 0;
    first.speed = fixed(5000.0);
    second.position = point(369.5, 160.0);
    second.rotation = DEGREE;
    scene.enemy_units = vec![first, second];
    let input = idle(20_000);
    let (bearings, headings) = answer(&scene, &input, &None);
    let before = scene.duplicate();
    scene.update(&input, &None, &bearings, &headings).unwrap();
    assert!(second.position.closer_than(first.position, fixed(70.0)));
    assert!(!second.position.closer_than(scene.enemy_units[0].position, fixed(70.0)));
    let stood = before.enemy_units.clone();
    let mut left = before.enemy_units.clone();
    left[0] = scene.enemy_units[0];
    let seen = second.steered(
        20_000,
        before.main_unit.position,
        &stood,
        1,
        bearings.enemies[1].target,
        &bearings.enemies[1].peers,
    );
    let unseen = second.steered(
        20_000,
        before.main_unit.position,
        &left,
        1,
        bearings.enemies[1].target,
        &bearings.enemies[1].peers,
    );
    // 2.4 degrees toward the player, and 1.68 more away from the peer
    assert_eq!(unseen, DEGREE - 2_400_000);
    assert_eq!(seen, DEGREE - 2_400_000 - 1_680_000);
    assert_eq!(scene.enemy_units[1].rotation, seen);
}

#[test]
fn answers_that_do_not_fit_change_nothing() {
    let mut scene = scene();
    let input = idle(20_000);
    let (bearings, headings) = answer(&scene, &input, &None);
    let before = scene.duplicate();

    let mut short = Headings { main_unit: headings.main_unit, enemies: headings.enemies.clone() };
    short.enemies.pop();
    assert!(scene.update(&input, &None, &bearings, &short).is_none());
    assert!(same(&scene, &before));

    let mut long = Headings { main_unit: headings.main_unit, enemies: headings.enemies.clone() };
    long.enemies.push(up());
    assert!(scene.update(&input, &None, &bearings, &long).is_none());
    assert!(same(&scene, &before));

    let mut fewer = Bearings { aim: bearings.aim, enemies: Vec::new() };
    for pursuit in bearings.enemies.iter().take(3) {
        fewer.enemies.push(Pursuit { target: pursuit.target, peers: pursuit.peers.clone() });
    }
    assert!(scene.update(&input, &None, &fewer, &headings).is_none());
    assert!(scene.heading_queries(&input, &None, &fewer).is_none());
    assert!(same(&scene, &before));

    let mut ragged = Bearings { aim: bearings.aim, enemies: Vec::new() };
    for pursuit in bearings.enemies.iter() {
        ragged.enemies.push(Pursuit { target: pursuit.target, peers: pursuit.peers.clone() });
    }
    ragged.enemies[2].peers.pop();
    assert!(!pursuits_fit(&ragged.enemies, 4));
    assert!(pursuits_fit(&bearings.enemies, 4));
    assert!(!pursuits_fit(&bearings.enemies, 5));
    assert!(scene.update(&input, &None, &ragged, &headings).is_none());
    assert!(same(&scene, &before));

    assert!(scene.update(&input, &None, &bearings, &headings).is_some());
    assert!(!same(&scene, &before));
}

#[test]
fn queries_are_made_for_the_enemies_that_are_left() {
    let mut scene = scene();
    scene.enemy_units[1].hit_points = 0;
    scene.enemy_units[3].hit_points = -1;
    assert_eq!(scene.enemies_left(), 2);
    let input = idle(20_000);
    let asked = scene.bearing_queries(&input, &None);
    assert_eq!(asked.enemies.len(), 2);
    assert_eq!(asked.enemies[0].peers.len(), 2);
    // the enemy at 300 sees the player at 400 and the enemy at 500
    assert_eq!(asked.enemies[0].target, point(-100.0, -320.0));
    assert_eq!(asked.enemies[0].peers[1], Vec2::new(fixed(-200.0), 1));
    assert_eq!(asked.aim, Vec2::new(1, fixed(180.0)));
    tick(&mut scene, &input, &None);
    assert_eq!(scene.enemy_units.len(), 2);
}

#[test]
fn an_enemy_hit_five_times_is_removed_by_the_next_tick() {
    let mut scene = scene();
    let place = scene.enemy_units[2].position;
    for round in 0..5 {
        assert_eq!(scene.enemy_units.len(), 4);
        scene.projectiles = vec![projectile_at(500.0, 160.0, up())];
        scene.projectiles[0].position = scene.enemy_units[2].position;
        let mut cues = Vec::new();
        scene.enemy_units_hit(&mut cues);
        assert_eq!(cues, vec![Cue::EnemyImpact]);
        assert_eq!(scene.enemy_units[2].hit_points, ENEMY_HIT_POINTS - (round + 1) * fixed(20.0));
        assert!(!scene.projectiles[0].alive);
    }
    assert_eq!(scene.enemy_units[2].position, place);
    assert!(scene.enemy_units[2].hit_points <= 0);
    assert_eq!(scene.enemy_units.len(), 4);
    scene.remove_dead_enemy_units();
    assert_eq!(scene.enemy_units.len(), 3);
    let places: Vec<Vec2> = scene.enemy_units.iter().map(|unit| unit.position).collect();
    assert_eq!(places, vec![point(300.0, 160.0), point(200.0, 160.0), point(600.0, 160.0)]);
}

#[test]
fn a_tick_removes_the_dead_first_and_keeps_the_newly_dead_until_the_next() {
    let mut scene = scene();
    scene.enemy_units[1].hit_points = 0;
    scene.enemy_units[2].hit_points = fixed(20.0);
    scene.projectiles = vec![projectile_at(500.0, 160.0, up())];
    // a tick of no time: nothing moves
    let outcome = tick(&mut scene, &idle(0), &None);
    assert_eq!(outcome.cues, vec![Cue::EnemyImpact]);
    let places: Vec<Vec2> = scene.enemy_units.iter().map(|unit| unit.position).collect();
    assert_eq!(places, vec![point(300.0, 160.0), point(500.0, 160.0), point(600.0, 160.0)]);
    let points: Vec<i64> = scene.enemy_units.iter().map(|unit| unit.hit_points).collect();
    assert_eq!(points, vec![fixed(100.0), 0, fixed(100.0)]);
    assert!(!scene.projectiles[0].alive);
    let outcome = tick(&mut scene, &idle(0), &None);
    assert!(outcome.cues.is_empty());
    let places: Vec<Vec2> = scene.enemy_units.iter().map(|unit| unit.position).collect();
    assert_eq!(places, vec![point(300.0, 160.0), point(600.0, 160.0)]);
    assert!(scene.projectiles.is_empty());
}

#[test]
fn a_projectile_strikes_the_first_enemy_in_reach_and_no_other() {
    let mut scene = scene();
    scene.enemy_units[1].position = point(310.0, 160.0);
    scene.enemy_units[0].rotation = 0;
    scene.projectiles = vec![projectile_at(305.0, 160.0, up())];
    scene.projectiles[0].rotation = -QUARTER_TURN;
    let mut cues = Vec::new();
    scene.enemy_units_hit(&mut cues);
    assert_eq!(cues, vec![Cue::EnemyImpact]);
    assert_eq!(scene.first_struck(point(305.0, 160.0)), 0);
    assert_eq!(scene.enemy_units[0].hit_points, fixed(80.0));
    assert_eq!(scene.enemy_units[0].rotation, ENEMY_HIT_TURN);
    assert_eq!(scene.enemy_units[1].hit_points, fixed(100.0));
    assert_eq!(scene.enemy_units[1].rotation, ENEMY_SPAWN_ROTATION);
    assert!(!scene.projectiles[0].alive);
    assert_eq!(scene.projectiles[0].position, point(305.0, 160.0));
}

#[test]
fn a_projectile_with_the_heading_of_the_enemy_turns_it_too() {
    let mut scene = scene();
    scene.enemy_units[0].rotation = 33 * DEGREE;
    scene.projectiles = vec![projectile_at(300.0, 160.0, up())];
    scene.projectiles[0].rotation = 33 * DEGREE;
    let mut cues = Vec::new();
    scene.enemy_units_hit(&mut cues);
    assert_eq!(cues, vec![Cue::EnemyImpact]);
    assert_eq!(scene.enemy_units[0].rotation, 33 * DEGREE + ENEMY_HIT_TURN);
    assert_eq!(scene.enemy_units[0].hit_points, fixed(80.0));
    assert_eq!(scene.enemy_units[0].position, point(300.0, 160.0));
    assert!(!scene.projectiles[0].alive);
}

#[test]
fn a_projectile_at_the_very_radius_of_an_enemy_misses() {
    let mut scene = scene();
    scene.projectiles =
        vec![projectile_at(320.0, 160.0, up()), projectile_at(280.000001, 160.0, up())];
    assert_eq!(scene.first_struck(point(320.0, 160.0)), 4);
    assert_eq!(scene.first_struck(point(280.000001, 160.0)), 0);
    assert_eq!(scene.first_struck(point(600.0, 179.999999)), 3);
    let mut cues = Vec::new();
    scene.enemy_units_hit(&mut cues);
    assert_eq!(cues, vec![Cue::EnemyImpact]);
    assert!(scene.projectiles[0].alive);
    assert!(!scene.projectiles[1].alive);
}

#[test]
fn a_dead_projectile_strikes_nothing() {
    let mut scene = scene();
    let mut spent = projectile_at(300.0, 160.0, up());
    spent.alive = false;
    let mut at_target = projectile_at(400.0, 160.0, up());
    at_target.alive = false;
    scene.projectiles = vec![spent, at_target];
    let before = scene.duplicate();
    let mut cues = Vec::new();
    scene.enemy_units_hit(&mut cues);
    assert!(cues.is_empty());
    assert!(same(&scene, &before));
    scene.dt = 0;
    let before = scene.duplicate();
    scene.target_unit_hit(screen(), &mut cues);
    assert!(cues.is_empty());
    assert!(same(&scene, &before));
}

#[test]
fn a_projectile_that_misses_the_target_flies_on_and_one_that_strikes_does_not() {
    let mut scene = scene();
    scene.dt = 10_000;
    scene.projectiles = vec![
        projectile_at(400.0, 205.0, up()),
        projectile_at(400.0, 204.999999, up()),
        projectile_at(445.0, 160.0, up()),
        projectile_at(427.0, 196.0, up()),
        projectile_at(427.0, 195.999999, up()),
    ];
    let mut cues = Vec::new();
    scene.target_unit_hit(screen(), &mut cues);
    let places: Vec<Vec2> = scene.projectiles.iter().map(|p| p.position).collect();
    let alive: Vec<bool> = scene.projectiles.iter().map(|p| p.alive).collect();
    assert_eq!(
        places,
        vec![
            point(400.0, 199.0),
            point(400.0, 204.999999),
            point(445.0, 154.0),
            point(427.0, 190.0),
            point(427.0, 195.999999),
        ]
    );
    assert_eq!(alive, vec![true, false, true, true, false]);
    assert_eq!(cues, vec![Cue::TargetImpact { alive: true }, Cue::TargetImpact { alive: true }]);
    assert_eq!(scene.target_unit.hit_points, fixed(60.0));
}

#[test]
fn a_blow_takes_twenty_from_the_target_and_spends_the_projectile() {
    let mut scene = scene();
    scene.dt = 10_000;
    scene.projectiles = vec![projectile_at(400.0, 160.0, up())];
    let mut cues = Vec::new();
    scene.target_unit_hit(screen(), &mut cues);
    assert_eq!(scene.target_unit.hit_points, fixed(80.0));
    assert!(scene.target_unit.alive);
    assert_eq!(scene.target_unit.shift, point(0.0, 5.0));
    assert!(!scene.projectiles[0].alive);
    assert_eq!(scene.projectiles[0].position, point(400.0, 160.0));
    assert_eq!(cues, vec![Cue::TargetImpact { alive: true }]);
    assert_eq!(scene.enemy_units.len(), 4);
}

#[test]
fn the_fall_of_the_target_starts_the_next_encounter() {
    let mut scene = scene();
    let mut straggler = scene.enemy_units[3];
    straggler.position = point(10.0, 20.0);
    straggler.hit_points = fixed(40.0);
    straggler.rotation = 0;
    scene.enemy_units = vec![straggler];
    scene.main_unit.position = point(123.0, 456.0);
    // ten blows of 20 each, and one projectile far from the target
    scene.projectiles = vec![projectile_at(400.0, 160.0, down()); 11];
    scene.projectiles[10].position = point(700.0, 500.0);
    scene.dt = 10_000;
    let mut cues = Vec::new();
    scene.target_unit_hit(screen(), &mut cues);
    assert_eq!(RESTART_FLOOR, fixed(-100.0));
    assert_eq!(
        cues,
        vec![
            Cue::TargetImpact { alive: true },
            Cue::TargetImpact { alive: true },
            Cue::TargetImpact { alive: true },
            Cue::TargetImpact { alive: true },
            Cue::TargetImpact { alive: false },
            Cue::TargetImpact { alive: false },
            Cue::TargetImpact { alive: false },
            Cue::TargetImpact { alive: false },
            Cue::TargetImpact { alive: false },
            Cue::TargetImpact { alive: false },
        ]
    );
    assert_eq!(scene.target_unit.hit_points, TARGET_HIT_POINTS);
    assert!(scene.target_unit.alive);
    assert_eq!(scene.target_unit.shift, Vec2::new(0, 0));
    assert_eq!(scene.target_unit.position, point(400.0, 160.0));
    let fresh = Scene::new(settings(), sprites(), screen(), point(0.0, 0.0), 0);
    assert_eq!(scene.enemy_units, fresh.enemy_units);
    assert_eq!(scene.enemy_units.len(), 4);
    // the player and the projectiles are as they were
    assert_eq!(scene.main_unit.position, point(123.0, 456.0));
    assert_eq!(scene.projectiles.len(), 11);
    assert!(scene.projectiles.iter().take(10).all(|p| !p.alive));
    assert_eq!(scene.projectiles[10].position, point(700.0, 506.0));
    assert!(scene.projectiles[10].alive);
}

#[test]
fn the_target_stands_above_the_floor_and_falls_at_it() {
    let mut scene = scene();
    scene.enemy_units.pop();
    scene.projectiles = vec![projectile_at(400.0, 160.0, up()); 9];
    let mut cues = Vec::new();
    scene.target_unit_hit(screen(), &mut cues);
    assert_eq!(cues.len(), 9);
    assert_eq!(scene.target_unit.hit_points, fixed(-80.0));
    assert!(!scene.target_unit.alive);
    assert_eq!(scene.enemy_units.len(), 3);
    // one more blow, whatever its heading, brings the target to the floor
    scene.projectiles = vec![projectile_at(410.0, 150.0, up())];
    let mut cues = Vec::new();
    scene.target_unit_hit(screen(), &mut cues);
    assert_eq!(cues, vec![Cue::TargetImpact { alive: false }]);
    assert!(!scene.projectiles[0].alive);
    assert_eq!(scene.target_unit.hit_points, TARGET_HIT_POINTS);
    assert!(scene.target_unit.alive);
    let places: Vec<Vec2> = scene.enemy_units.iter().map(|unit| unit.position).collect();
    assert_eq!(
        places,
        vec![point(300.0, 160.0), point(200.0, 160.0), point(500.0, 160.0), point(600.0, 160.0)]
    );
}

#[test]
fn restart_makes_the_target_whole() {
    let mut scene = scene();
    scene.enemy_units.pop();
    scene.target_unit.hit_points = fixed(-40.0);
    scene.target_unit.alive = false;
    scene.restart();
    assert_eq!(scene.enemy_units.len(), 4);
    assert!(scene.target_unit.alive);
    assert_eq!(scene.target_unit.hit_points, TARGET_HIT_POINTS);
}

#[test]
fn projectiles_out_of_range_and_dead_ones_are_removed() {
    let mut scene = scene();
    let near = projectile_at(100.0, 100.0, up());
    let mut far = near;
    far.position = point(100.0, 500.0);
    let mut almost = near;
    almost.position = point(100.0, 499.999999);
    let mut diagonal = near;
    diagonal.position = point(340.0, 420.0);
    let mut dead = near;
    dead.alive = false;
    scene.projectiles = vec![far, near, dead, almost, diagonal];
    scene.remove_projectile_out_of_range();
    assert_eq!(scene.projectiles, vec![near, almost]);
    scene.main_unit.shoot_range = 0;
    scene.remove_projectile_out_of_range();
    assert!(scene.projectiles.is_empty());
}

#[test]
fn the_aim_is_the_pointer_until_a_shot_is_commanded() {
    let mut scene = scene();
    assert_eq!(scene.aim_point(point(7.0, 8.0)), point(400.0, 300.0));
    scene.target_point = Vec2::new(0, 0);
    assert_eq!(scene.aim_point(point(7.0, 8.0)), point(7.0, 8.0));
    scene.target_point = Vec2::new(0, 1);
    assert_eq!(scene.aim_point(point(7.0, 8.0)), Vec2::new(0, 1));
}

#[test]
fn begin_tick_rests_the_target_and_takes_the_time_step() {
    let mut scene = scene();
    scene.target_unit.shift = point(3.0, 4.0);
    let consumed = scene.begin_tick(&idle(33_000), &None);
    assert!(!consumed);
    assert_eq!(scene.target_unit.shift, Vec2::new(0, 0));
    assert_eq!(scene.dt, 33_000);
    assert_eq!(scene.tick, 0);
}
