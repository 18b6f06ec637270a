use pacman::controls::{Arrow, Controls, InputEvent};
use pacman::direction::{direction_of_roll, Direction};
use pacman::pacman::{
    enemy_from_draws, respawn, spawn_enemies, spawn_enemy, squared_distance, Pacman, Rgb,
    NUM_ENEMIES, WINDOW_HEIGHT, WINDOW_WIDTH,
};
use pacman::random::{angle_of_draw, random_angle, random_color, random_direction};
use pacman::runs::add_body_pixel;

fn at(x: i32, y: i32, direction: Direction) -> Pacman {
    Pacman {
        x,
        y,
        direction,
        color: Rgb { r: 1, g: 2, b: 3 },
        id: 7,
        mouth_angle: 10,
        mouth_closing: true,
        pacmen_eaten: 2,
    }
}

fn step(d: Direction) -> (i32, i32) {
    let mut p = at(10, 20, d);
    p.move_pacman();
    (p.x - 10, p.y - 20)
}

#[test]
fn rolls_map_to_headings() {
    assert_eq!(direction_of_roll(1), Some(Direction::LEFT));
    assert_eq!(direction_of_roll(2), Some(Direction::RIGHT));
    assert_eq!(direction_of_roll(3), Some(Direction::UP));
    assert_eq!(direction_of_roll(4), Some(Direction::UPLEFT));
    assert_eq!(direction_of_roll(5), Some(Direction::UPRIGHT));
    assert_eq!(direction_of_roll(6), Some(Direction::DOWN));
    assert_eq!(direction_of_roll(7), Some(Direction::DOWNLEFT));
    assert_eq!(direction_of_roll(8), Some(Direction::DOWNRIGHT));
    assert_eq!(direction_of_roll(0), None);
    assert_eq!(direction_of_roll(9), None);
}

#[test]
fn random_direction_never_down_right() {
    let mut rng = rand::thread_rng();
    let mut seen = Vec::new();
    for _ in 0..2000 {
        let d = random_direction(&mut rng);
        assert!(d.is_some());
        assert_ne!(d, Some(Direction::DOWNRIGHT));
        if !seen.contains(&d) {
            seen.push(d);
        }
    }
    assert_eq!(seen.len(), 7);
}

#[test]
fn random_angle_in_range_and_varies() {
    let mut rng = rand::thread_rng();
    let first = random_angle(&mut rng);
    let mut varied = false;
    for _ in 0..1000 {
        let a = random_angle(&mut rng);
        assert!(0 <= a && a < 45);
        if a != first {
            varied = true;
        }
    }
    assert!(varied);
}

#[test]
fn random_colors_vary() {
    let mut rng = rand::thread_rng();
    let first = random_color(&mut rng);
    let mut varied = false;
    for _ in 0..100 {
        if random_color(&mut rng) != first {
            varied = true;
        }
    }
    assert!(varied);
}

#[test]
fn spawned_enemies_are_on_the_board() {
    let mut rng = rand::thread_rng();
    let mut xs = Vec::new();
    for i in 0..500usize {
        let p = spawn_enemy(&mut rng, i);
        assert!(0 <= p.x && (p.x as u32) < WINDOW_WIDTH);
        assert!(0 <= p.y && (p.y as u32) < WINDOW_HEIGHT);
        assert_ne!(p.direction, Direction::DOWNRIGHT);
        assert_eq!(p.id, i as i32 + 1);
        assert!(0 <= p.mouth_angle && p.mouth_angle < 45);
        assert_eq!(p.pacmen_eaten, 0);
        xs.push(p.x);
    }
    assert!(xs.iter().any(|&x| x != xs[0]));
}

#[test]
fn spawn_enemies_numbers_them_in_order() {
    let mut rng = rand::thread_rng();
    let enemies = spawn_enemies(&mut rng, NUM_ENEMIES);
    assert_eq!(enemies.len(), 100);
    for (i, e) in enemies.iter().enumerate() {
        assert_eq!(e.id, i as i32 + 1);
    }
}

#[test]
fn respawn_replaces_one_slot() {
    let mut rng = rand::thread_rng();
    let mut enemies = spawn_enemies(&mut rng, 5);
    let before = enemies.clone();
    respawn(&mut enemies, &mut rng, 2);
    assert_eq!(enemies.len(), 5);
    for i in [0usize, 1, 3, 4] {
        assert_eq!(enemies[i], before[i]);
    }
    assert_eq!(enemies[2].id, 3);
    assert_eq!(enemies[2].pacmen_eaten, 0);
}

#[test]
fn new_player_starts_in_the_middle() {
    let p = Pacman::new_player();
    assert_eq!((p.x, p.y), (400, 300));
    assert_eq!(p.direction, Direction::RIGHT);
    assert_eq!(p.color, Rgb { r: 255, g: 255, b: 0 });
    assert_eq!(p.id, 0);
    assert!(p.mouth_closing);
    assert_eq!(p.mouth_angle, 0);
    assert_eq!(p.pacmen_eaten, 0);
}

#[test]
fn mouth_cycles_between_zero_and_forty_five() {
    let mut p = at(0, 0, Direction::LEFT);
    p.mouth_angle = 0;
    p.mouth_closing = true;
    let mut seen = Vec::new();
    for _ in 0..18 {
        p.animate_mouth();
        seen.push((p.mouth_angle, p.mouth_closing));
        assert!(0 <= p.mouth_angle && p.mouth_angle <= 45);
    }
    assert_eq!(seen[0], (5, true));
    assert_eq!(seen[8], (45, true));
    assert_eq!(seen[9], (40, false));
    assert_eq!(seen[16], (5, false));
    assert_eq!(seen[17], (0, false));
    p.animate_mouth();
    assert_eq!((p.mouth_angle, p.mouth_closing), (5, true));
    assert_eq!((p.x, p.y, p.id, p.pacmen_eaten), (0, 0, 7, 2));
}

#[test]
fn mouth_mirrors_at_the_ends() {
    let mut p = at(0, 0, Direction::LEFT);
    p.mouth_angle = 42;
    p.mouth_closing = true;
    p.animate_mouth();
    assert_eq!((p.mouth_angle, p.mouth_closing), (43, false));
    p.mouth_angle = 3;
    p.mouth_closing = false;
    p.animate_mouth();
    assert_eq!((p.mouth_angle, p.mouth_closing), (2, true));
    p.mouth_angle = 40;
    p.mouth_closing = true;
    p.animate_mouth();
    assert_eq!((p.mouth_angle, p.mouth_closing), (45, true));
}

#[test]
fn each_heading_moves_one_step() {
    assert_eq!(step(Direction::LEFT), (-1, 0));
    assert_eq!(step(Direction::RIGHT), (1, 0));
    assert_eq!(step(Direction::UP), (0, -1));
    assert_eq!(step(Direction::DOWN), (0, 1));
    assert_eq!(step(Direction::UPLEFT), (-1, -1));
    assert_eq!(step(Direction::UPRIGHT), (1, -1));
    assert_eq!(step(Direction::DOWNLEFT), (-1, 1));
    assert_eq!(step(Direction::DOWNRIGHT), (1, 1));
}

#[test]
fn steering_points_at_the_target() {
    let cases = [
        ((5, 20), Direction::LEFT),
        ((5, 30), Direction::DOWNLEFT),
        ((10, 5), Direction::UP),
        ((10, 30), Direction::DOWN),
        ((15, 5), Direction::UPRIGHT),
        ((15, 20), Direction::RIGHT),
        ((15, 30), Direction::DOWNRIGHT),
        ((5, 5), Direction::UPLEFT),
    ];
    for ((tx, ty), want) in cases.iter() {
        let mut p = at(10, 20, Direction::LEFT);
        p.steer_toward(&at(*tx, *ty, Direction::UP));
        assert_eq!(p.direction, *want);
        assert_eq!((p.x, p.y), (10, 20));
    }
    let mut p = at(10, 20, Direction::DOWNLEFT);
    p.steer_toward(&at(10, 20, Direction::UP));
    assert_eq!(p.direction, Direction::DOWNLEFT);
}

#[test]
fn steering_then_moving_gets_closer() {
    for tx in 0..7 {
        for ty in 0..7 {
            if (tx, ty) == (3, 3) {
                continue;
            }
            let mut p = at(3, 3, Direction::LEFT);
            let target = at(tx, ty, Direction::UP);
            let before = squared_distance(p.x, p.y, tx, ty);
            p.steer_toward(&target);
            p.move_pacman();
            assert!(squared_distance(p.x, p.y, tx, ty) < before);
        }
    }
}

#[test]
fn squared_distance_is_exact() {
    assert_eq!(squared_distance(0, 0, 3, 4), 25);
    assert_eq!(squared_distance(-3, 10, 2, -2), 25 + 144);
    assert_eq!(squared_distance(7, 7, 7, 7), 0);
}

#[test]
fn record_meal_counts() {
    let mut p = at(1, 1, Direction::UP);
    p.record_meal();
    assert_eq!(p.pacmen_eaten, 3);
}

#[test]
fn body_pixels_form_vertical_runs() {
    let mut lines: Vec<((i32, i32), (i32, i32))> = Vec::new();
    add_body_pixel(&mut lines, 4, 10);
    assert_eq!(lines, vec![((4, 10), (4, 10))]);
    add_body_pixel(&mut lines, 4, 11);
    add_body_pixel(&mut lines, 4, 12);
    assert_eq!(lines, vec![((4, 10), (4, 12))]);
    add_body_pixel(&mut lines, 4, 14);
    assert_eq!(lines, vec![((4, 10), (4, 12)), ((4, 14), (4, 14))]);
    add_body_pixel(&mut lines, 5, 15);
    assert_eq!(lines, vec![((4, 10), (4, 12)), ((4, 14), (4, 14)), ((5, 15), (5, 15))]);
}

#[test]
fn arrows_turn_the_player() {
    let mut c = Controls::new();
    let mut d = Direction::RIGHT;
    assert!(c.handle_event(InputEvent::KeyDown(Arrow::Up), &mut d));
    assert_eq!(d, Direction::UP);
    assert!(c.up_pressed);
    assert!(c.handle_event(InputEvent::KeyDown(Arrow::Left), &mut d));
    assert_eq!(d, Direction::UPLEFT);
    assert!(c.handle_event(InputEvent::KeyUp(Arrow::Up), &mut d));
    assert_eq!(d, Direction::UPLEFT);
    assert!(!c.up_pressed && c.left_pressed);
    assert!(c.handle_event(InputEvent::KeyDown(Arrow::Down), &mut d));
    assert_eq!(d, Direction::DOWNLEFT);
    assert!(c.handle_event(InputEvent::KeyDown(Arrow::Right), &mut d));
    assert_eq!(d, Direction::DOWNRIGHT);
    assert!(c.handle_event(InputEvent::Other, &mut d));
    assert_eq!(d, Direction::DOWNRIGHT);
    let held = c;
    assert!(!c.handle_event(InputEvent::Quit, &mut d));
    assert_eq!(c, held);
    assert_eq!(d, Direction::DOWNRIGHT);
}

#[test]
fn up_wins_over_down_when_both_are_held() {
    let mut c = Controls::new();
    let mut d = Direction::RIGHT;
    c.handle_event(InputEvent::KeyDown(Arrow::Up), &mut d);
    c.handle_event(InputEvent::KeyDown(Arrow::Down), &mut d);
    assert_eq!(d, Direction::DOWN);
    c.handle_event(InputEvent::KeyDown(Arrow::Right), &mut d);
    assert_eq!(d, Direction::UPRIGHT);
}

#[test]
fn chase_turns_toward_the_enemy_with_that_id() {
    let mut rng = rand::thread_rng();
    let mut enemies = spawn_enemies(&mut rng, 3);
    enemies[0].x = 100;
    enemies[0].y = 100;
    enemies[1].x = 0;
    enemies[1].y = 50;
    enemies[2].x = 100;
    enemies[2].y = 0;
    let mut me = at(50, 50, Direction::DOWN);
    me.chase(&enemies, 2);
    assert_eq!(me.direction, Direction::LEFT);
    me.chase(&enemies, 3);
    assert_eq!(me.direction, Direction::UPRIGHT);
    me.chase(&enemies, 1);
    assert_eq!(me.direction, Direction::DOWNRIGHT);
    assert_eq!((me.x, me.y), (50, 50));
}

#[test]
fn rgb_keeps_the_channels_in_order() {
    assert_eq!(Rgb::rgb(1, 2, 3), Rgb { r: 1, g: 2, b: 3 });
    assert_eq!(Rgb::rgb(255, 0, 7), Rgb { r: 255, g: 0, b: 7 });
}

#[test]
fn angle_of_draw_is_the_drawn_number() {
    assert_eq!(angle_of_draw(0), 0);
    assert_eq!(angle_of_draw(44), 44);
    assert_eq!(angle_of_draw(17), 17);
}

#[test]
fn enemy_from_draws_uses_every_draw() {
    let p = enemy_from_draws(4, 799, 0, Some(Direction::UPLEFT), Rgb { r: 9, g: 8, b: 7 }, true, 30);
    assert_eq!(
        p,
        Pacman {
            x: 799,
            y: 0,
            direction: Direction::UPLEFT,
            color: Rgb { r: 9, g: 8, b: 7 },
            id: 5,
            mouth_angle: 30,
            mouth_closing: true,
            pacmen_eaten: 0,
        }
    );
    let far = enemy_from_draws(i32::MAX as usize, 1, 2, Some(Direction::UP), Rgb { r: 0, g: 0, b: 0 }, false, 0);
    assert_eq!(far.id, i32::MIN);
}

#[test]
fn eating_counts_and_refills_the_slot() {
    let mut rng = rand::thread_rng();
    let mut enemies = spawn_enemies(&mut rng, 4);
    let before = enemies.clone();
    let mut player = Pacman::new_player();
    player.eat(&mut enemies, &mut rng, 1);
    assert_eq!(player.pacmen_eaten, 1);
    assert_eq!((player.x, player.y, player.id), (400, 300, 0));
    assert_eq!(enemies.len(), 4);
    for i in [0usize, 2, 3] {
        assert_eq!(enemies[i], before[i]);
    }
    for (i, e) in enemies.iter().enumerate() {
        assert_eq!(e.id, i as i32 + 1);
    }
    assert_eq!(enemies[1].pacmen_eaten, 0);
}

#[test]
fn a_first_pixel_may_sit_on_the_lowest_row() {
    let mut lines: Vec<((i32, i32), (i32, i32))> = Vec::new();
    add_body_pixel(&mut lines, 3, i32::MIN);
    assert_eq!(lines, vec![((3, i32::MIN), (3, i32::MIN))]);
    add_body_pixel(&mut lines, 4, i32::MIN);
    assert_eq!(lines, vec![((3, i32::MIN), (3, i32::MIN)), ((4, i32::MIN), (4, i32::MIN))]);
}
