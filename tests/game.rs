use breakout::{Brick, GameStatus, Universe};

fn all_alive() -> Vec<Brick> {
    vec![Brick::Alive; 84]
}

fn only_alive(index: usize) -> Vec<Brick> {
    let mut bricks = vec![Brick::Dead; 84];
    bricks[index] = Brick::Alive;
    bricks
}

fn playing(bricks: Vec<Brick>, pad_left: u32, x: u32, y: u32, right: bool, up: bool) -> Universe {
    Universe::from_state(bricks, pad_left, x, y, right, up, GameStatus::Playing).unwrap()
}

#[test]
fn fresh_universe_waits_with_all_bricks_alive() {
    let u = Universe::new();
    assert_eq!(u.get_status(), GameStatus::Start);
    assert_eq!(u.bricks_count(), (u.row_count() * u.column_count()) as usize);
    assert!(u.bricks().iter().all(|b| *b == Brick::Alive));
    assert_eq!(u.ball_x_position(), u.width() / 2);
    assert_eq!(u.ball_x_position(), u.pad_left_position() + u.pad_width() / 2);
    assert!(u.ball_y_position() + u.ball_radius() <= u.pad_top_position());
    assert_eq!(u.ball_y_position(), 750);
    assert_eq!(u.pad_top_position(), 760);
    assert_eq!(u.pad_left_position(), 300);
}

#[test]
fn playfield_dimensions() {
    let u = Universe::new();
    assert_eq!(u.width(), 700);
    assert_eq!(u.height(), 800);
    assert_eq!(u.pad_width(), 100);
    assert_eq!(u.pad_height(), 20);
    assert_eq!(u.row_count(), 7);
    assert_eq!(u.column_count(), 12);
    assert_eq!(u.brick_width(), 50);
    assert_eq!(u.brick_height(), 30);
    assert_eq!(u.margin_width(), 50);
    assert_eq!(u.margin_height(), 100);
    assert_eq!(u.ball_radius(), 10);
}

#[test]
fn start_then_tick_moves_ball() {
    let mut u = Universe::new();
    u.start_ball();
    assert_eq!(u.get_status(), GameStatus::Playing);
    u.tick();
    assert_eq!(u.ball_x_position(), 354);
    assert_eq!(u.ball_y_position(), 746);
    u.tick();
    assert_eq!(u.ball_y_position(), 742);
}

#[test]
fn tick_before_start_changes_nothing() {
    let mut u = Universe::new();
    u.tick();
    assert_eq!(u.get_status(), GameStatus::Start);
    assert_eq!(u.ball_x_position(), 350);
    assert_eq!(u.ball_y_position(), 750);
}

#[test]
fn start_does_not_leave_final_states() {
    let mut won = Universe::from_state(vec![Brick::Dead; 84], 300, 350, 500, true, true, GameStatus::Won).unwrap();
    won.start_ball();
    assert_eq!(won.get_status(), GameStatus::Won);
    let mut lost = Universe::from_state(all_alive(), 300, 350, 790, true, false, GameStatus::Lost).unwrap();
    lost.start_ball();
    assert_eq!(lost.get_status(), GameStatus::Lost);
}

#[test]
fn ball_hitting_brick_kills_it_and_turns() {
    let mut u = playing(all_alive(), 300, 75, 320, true, true);
    u.tick();
    assert_eq!(u.bricks()[72], Brick::Dead);
    assert_eq!(u.bricks().iter().filter(|b| **b == Brick::Alive).count(), 83);
    assert!(!u.ball_direction_up());
    assert!(u.ball_direction_right());
    assert_eq!(u.ball_x_position(), 79);
    assert_eq!(u.ball_y_position(), 324);
    assert_eq!(u.get_status(), GameStatus::Playing);
}

#[test]
fn last_brick_wins_and_freezes_ball() {
    let mut u = playing(only_alive(72), 300, 75, 320, true, true);
    u.tick();
    assert_eq!(u.get_status(), GameStatus::Won);
    assert!(u.bricks().iter().all(|b| *b == Brick::Dead));
    assert_eq!(u.ball_x_position(), 75);
    assert_eq!(u.ball_y_position(), 320);
    u.tick();
    assert_eq!(u.ball_x_position(), 75);
    assert_eq!(u.ball_y_position(), 320);
}

#[test]
fn no_alive_brick_wins_at_first_sub_step() {
    let mut u = playing(vec![Brick::Dead; 84], 300, 350, 500, true, true);
    u.tick();
    assert_eq!(u.get_status(), GameStatus::Won);
    assert_eq!(u.ball_y_position(), 500);
}

#[test]
fn ball_missing_paddle_loses() {
    let mut u = playing(all_alive(), 300, 50, 788, true, false);
    u.tick();
    assert_eq!(u.get_status(), GameStatus::Lost);
    assert_eq!(u.ball_x_position(), 52);
    assert_eq!(u.ball_y_position(), 790);
    u.tick();
    assert_eq!(u.ball_y_position(), 790);
    u.move_pad(true);
    assert_eq!(u.pad_left_position(), 300);
}

#[test]
fn ball_over_paddle_bounces() {
    let mut u = playing(all_alive(), 300, 350, 788, true, false);
    u.tick();
    assert_eq!(u.get_status(), GameStatus::Playing);
    assert!(u.ball_direction_up());
    assert_eq!(u.ball_y_position(), 786);
}

#[test]
fn left_wall_turns_ball_right() {
    let mut u = playing(all_alive(), 300, 11, 500, false, false);
    u.tick();
    assert!(u.ball_direction_right());
    assert_eq!(u.ball_x_position(), 13);
    assert_eq!(u.ball_y_position(), 504);
}

#[test]
fn right_wall_turns_ball_left() {
    let mut u = playing(all_alive(), 300, 689, 500, true, false);
    u.tick();
    assert!(!u.ball_direction_right());
    assert_eq!(u.ball_x_position(), 687);
}

#[test]
fn ceiling_turns_ball_down() {
    let mut u = playing(all_alive(), 300, 350, 11, true, true);
    u.tick();
    assert!(!u.ball_direction_up());
    assert_eq!(u.ball_y_position(), 13);
}

#[test]
fn state_against_a_wall_heading_into_it_is_refused() {
    assert!(Universe::from_state(all_alive(), 300, 10, 500, false, true, GameStatus::Playing).is_none());
    assert!(Universe::from_state(all_alive(), 300, 690, 500, true, true, GameStatus::Playing).is_none());
    assert!(Universe::from_state(all_alive(), 300, 350, 10, true, true, GameStatus::Playing).is_none());
    assert!(Universe::from_state(all_alive(), 300, 350, 790, true, false, GameStatus::Playing).is_none());
    assert!(Universe::from_state(all_alive(), 300, 10, 500, true, true, GameStatus::Playing).is_some());
}

#[test]
fn malformed_state_is_refused() {
    assert!(Universe::from_state(vec![Brick::Alive; 83], 300, 350, 500, true, true, GameStatus::Playing).is_none());
    assert!(Universe::from_state(all_alive(), 601, 350, 500, true, true, GameStatus::Playing).is_none());
    assert!(Universe::from_state(all_alive(), 300, 9, 500, true, true, GameStatus::Playing).is_none());
    assert!(Universe::from_state(all_alive(), 300, 350, 791, true, true, GameStatus::Playing).is_none());
}

#[test]
fn paddle_moves_in_steps_and_stops_at_walls() {
    let mut u = Universe::new();
    u.move_pad(true);
    assert_eq!(u.pad_left_position(), 300);
    u.start_ball();
    u.move_pad(true);
    assert_eq!(u.pad_left_position(), 330);
    u.move_pad(false);
    u.move_pad(false);
    assert_eq!(u.pad_left_position(), 270);
    for _ in 0..20 {
        u.move_pad(true);
        assert!(u.pad_left_position() <= u.width() - u.pad_width());
    }
    assert_eq!(u.pad_left_position(), 600);
    for _ in 0..30 {
        u.move_pad(false);
    }
    assert_eq!(u.pad_left_position(), 0);
}

#[test]
fn alive_count_never_grows_over_a_game() {
    let mut u = Universe::new();
    u.start_ball();
    let mut alive = 84;
    for _ in 0..2000 {
        u.tick();
        let now = u.bricks().iter().filter(|b| **b == Brick::Alive).count();
        assert!(now <= alive);
        alive = now;
        let x = u.ball_x_position();
        let y = u.ball_y_position();
        assert!(x >= 10 && x <= 690);
        assert!(y >= 10 && y <= 790);
    }
    assert!(alive < 84);
}
