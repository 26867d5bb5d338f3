use block_breaker_tui::ball::Ball;
use block_breaker_tui::block::Block;
use block_breaker_tui::config::Config;
use block_breaker_tui::game::{GameState, Status, BLOCK_ROWS_DIVISOR, DEFAULT_SEED};
use block_breaker_tui::geometry::{Position, Velocity};

fn config(density: u32, strength: u16, bar_width: u16, power: u16) -> Config {
    Config::new(density, strength, bar_width, power).unwrap()
}

/// A 10 by 10 game with a bar four cells wide and a ball of power one.
fn game(bar_x: u16, ball: (u16, u16, i8, i8), blocks: Vec<Block>) -> GameState {
    GameState::from_parts(
        10,
        10,
        &config(0, 1, 4, 1),
        bar_x,
        Position::new(ball.0, ball.1),
        Velocity { dx: ball.2, dy: ball.3 },
        blocks,
        0,
    )
    .unwrap()
}

fn ball_of(game: &GameState) -> (u16, u16, i8, i8) {
    let ball = game.ball();
    (ball.x(), ball.y(), ball.dx(), ball.dy())
}

fn bar_of(game: &GameState) -> (u16, u16, u16) {
    let bar = game.bar();
    (bar.x(), bar.y(), bar.width())
}

#[test]
fn new_game_starts_running_with_everything_in_place() {
    let game = GameState::new(10, 10, &config(200, 1, 4, 1));
    assert_eq!(game.status(), Status::Running);
    assert!(!game.is_paused() && !game.game_over() && !game.is_cleared());
    assert_eq!((game.width(), game.height()), (10, 10));
    assert_eq!(bar_of(&game), (3, 9, 4));
    assert_eq!(game.bar().field_width(), 10);
    assert_eq!(*game.ball(), Ball::new(Position::new(5, 8), Velocity { dx: 1, dy: -1 }, 1));
    assert_eq!(
        game.blocks(),
        &vec![
            Block::new(0, 0, 1),
            Block::new(1, 0, 1),
            Block::new(6, 0, 1),
            Block::new(2, 1, 1),
            Block::new(3, 1, 1),
            Block::new(5, 1, 1),
            Block::new(3, 2, 1),
            Block::new(6, 2, 1),
            Block::new(8, 2, 1),
        ]
    );
    assert_eq!(game.config().block_density(), 200);
    assert_eq!((DEFAULT_SEED, BLOCK_ROWS_DIVISOR), (0, 3));
}

#[test]
fn equal_seeds_give_equal_games() {
    let config = config(500, 2, 3, 1);
    let one = GameState::with_seed(4, 6, &config, 42);
    let two = GameState::with_seed(4, 6, &config, 42);
    assert_eq!(one.blocks(), two.blocks());
    assert_eq!(
        one.blocks(),
        &vec![
            Block::new(1, 0, 2),
            Block::new(2, 0, 2),
            Block::new(1, 1, 2),
            Block::new(2, 1, 2),
            Block::new(3, 1, 2),
        ]
    );
    let other = GameState::with_seed(4, 6, &config, 43);
    assert_ne!(one.blocks(), other.blocks());
}

#[test]
fn blocks_fill_only_the_top_third() {
    let game = GameState::with_seed(7, 11, &config(1000, 1, 3, 1), 1);
    assert_eq!(game.blocks().len(), 7 * 3);
    assert!(game.blocks().iter().all(|block| block.y() < 3 && block.x() < 7));
    let low = GameState::with_seed(7, 2, &config(1000, 1, 3, 1), 1);
    assert!(low.blocks().is_empty());
}

#[test]
fn games_in_tiny_fields_can_be_built_and_ticked() {
    for (width, height) in [(0, 0), (0, 5), (5, 0), (1, 1), (2, 1), (1, 2)] {
        let mut game = GameState::new(width, height, &config(1000, 1, 4, 3));
        for _ in 0..10 {
            game.tick();
            game.move_bar_left();
            game.move_bar_right();
            assert!(game.ball().x() <= width.saturating_sub(1));
            assert!(game.ball().y() <= height.saturating_sub(1));
            assert_eq!(game.bar().x(), 0);
        }
    }
}

#[test]
fn from_parts_turns_down_pieces_that_do_not_fit() {
    let config = config(0, 1, 4, 1);
    let build = |bar_x: u16, x: u16, y: u16, dx: i8, dy: i8, blocks: Vec<Block>| {
        GameState::from_parts(10, 10, &config, bar_x, Position::new(x, y), Velocity { dx, dy }, blocks, 0)
    };
    assert!(build(6, 9, 9, 1, 1, vec![]).is_some());
    assert!(build(7, 5, 5, 1, 1, vec![]).is_none());
    assert!(build(3, 10, 5, 1, 1, vec![]).is_none());
    assert!(build(3, 5, 10, 1, 1, vec![]).is_none());
    assert!(build(3, 5, 5, 0, 1, vec![]).is_none());
    assert!(build(3, 5, 5, 1, 2, vec![]).is_none());
    assert!(build(3, 5, 5, 1, 1, vec![Block::new(1, 1, 0)]).is_none());
    assert!(build(3, 5, 5, 1, 1, vec![Block::new(1, 1, 1), Block::new(1, 1, 2)]).is_none());
    assert!(build(3, 5, 5, 1, 1, vec![Block::new(1, 1, 1), Block::new(1, 2, 2)]).is_some());
}

#[test]
fn from_parts_keeps_the_pieces() {
    let game = game(2, (7, 3, -1, 1), vec![Block::new(1, 1, 4)]);
    assert_eq!(bar_of(&game), (2, 9, 4));
    assert_eq!(ball_of(&game), (7, 3, -1, 1));
    assert_eq!(game.ball().power(), 1);
    assert_eq!(game.blocks(), &vec![Block::new(1, 1, 4)]);
    assert_eq!(game.status(), Status::Running);
}

#[test]
fn ball_lands_on_the_bar_and_turns_upward() {
    let mut game = game(3, (5, 8, 1, 1), vec![]);
    game.tick();
    assert_eq!(ball_of(&game), (6, 9, 1, -1));
    assert_eq!(game.status(), Status::Running);
    game.tick();
    assert_eq!(ball_of(&game), (7, 8, 1, -1));
}

#[test]
fn ball_beside_the_bar_keeps_going_and_is_lost() {
    let mut game = game(0, (5, 8, 1, 1), vec![]);
    game.tick();
    assert_eq!(ball_of(&game), (6, 9, 1, 1));
    assert_eq!(game.status(), Status::Running);
    game.tick();
    assert!(game.game_over());
    assert_eq!(ball_of(&game), (6, 9, 1, 1));
}

#[test]
fn bar_reflects_at_both_of_its_ends_and_not_beyond() {
    for (start_x, expected_dy) in [(1, 1), (2, -1), (5, -1), (6, 1)] {
        let mut game = game(3, (start_x, 8, 1, 1), vec![]);
        game.tick();
        assert_eq!(ball_of(&game), (start_x + 1, 9, 1, expected_dy));
    }
}

#[test]
fn game_over_freezes_ball_bar_and_blocks() {
    let mut game = game(0, (6, 9, 1, 1), vec![Block::new(1, 1, 2)]);
    game.tick();
    assert_eq!(game.status(), Status::GameOver);
    assert!(game.game_over() && !game.is_paused() && !game.is_cleared());
    for _ in 0..3 {
        game.tick();
        game.move_bar_left();
        game.move_bar_right();
        game.toggle_pause();
        assert_eq!(game.status(), Status::GameOver);
        assert_eq!(ball_of(&game), (6, 9, 1, 1));
        assert_eq!(bar_of(&game), (0, 9, 4));
        assert_eq!(game.blocks(), &vec![Block::new(1, 1, 2)]);
    }
}

#[test]
fn paused_game_ignores_ticks_but_moves_the_bar() {
    let mut game = game(3, (5, 5, 1, -1), vec![Block::new(6, 4, 1)]);
    game.toggle_pause();
    assert!(game.is_paused());
    for _ in 0..5 {
        game.tick();
    }
    assert_eq!(ball_of(&game), (5, 5, 1, -1));
    assert_eq!(game.blocks(), &vec![Block::new(6, 4, 1)]);
    assert_eq!(bar_of(&game), (3, 9, 4));
    game.move_bar_right();
    assert_eq!(bar_of(&game), (4, 9, 4));
    game.move_bar_left();
    game.move_bar_left();
    assert_eq!(bar_of(&game), (2, 9, 4));
    assert_eq!(ball_of(&game), (5, 5, 1, -1));
}

#[test]
fn pause_and_resume_restore_the_game() {
    let mut game = game(3, (5, 5, 1, -1), vec![Block::new(1, 1, 2)]);
    game.tick();
    let ball = *game.ball();
    let bar = bar_of(&game);
    game.toggle_pause();
    assert_eq!(game.status(), Status::Paused);
    game.tick();
    game.toggle_pause();
    assert_eq!(game.status(), Status::Running);
    assert_eq!(*game.ball(), ball);
    assert_eq!(bar_of(&game), bar);
    assert_eq!(game.blocks(), &vec![Block::new(1, 1, 2)]);
    game.tick();
    assert_eq!(ball_of(&game), (7, 3, 1, -1));
}

#[test]
fn weakest_block_is_removed_by_one_hit() {
    let mut game = game(3, (5, 8, 1, -1), vec![Block::new(6, 7, 1), Block::new(0, 0, 1)]);
    game.tick();
    assert_eq!(game.blocks(), &vec![Block::new(0, 0, 1)]);
    assert_eq!(ball_of(&game), (6, 7, 1, 1));
    assert_eq!(game.status(), Status::Running);
}

#[test]
fn stronger_block_survives_a_hit_with_less_strength() {
    let mut game = game(3, (5, 5, 1, -1), vec![Block::new(6, 4, 2)]);
    game.tick();
    assert_eq!(game.blocks(), &vec![Block::new(6, 4, 1)]);
    assert_eq!(ball_of(&game), (6, 4, 1, 1));
    game.tick();
    assert_eq!(ball_of(&game), (7, 5, 1, 1));
    assert_eq!(game.blocks(), &vec![Block::new(6, 4, 1)]);
}

#[test]
fn last_block_clears_the_game() {
    let mut game = game(3, (5, 5, 1, -1), vec![Block::new(6, 4, 1)]);
    game.tick();
    assert_eq!(game.status(), Status::Cleared);
    assert!(game.is_cleared() && !game.game_over() && !game.is_paused());
    assert!(game.blocks().is_empty());
    assert_eq!(ball_of(&game), (6, 4, 1, 1));
    game.tick();
    game.move_bar_left();
    game.toggle_pause();
    assert_eq!(game.status(), Status::Cleared);
    assert_eq!(ball_of(&game), (6, 4, 1, 1));
    assert_eq!(bar_of(&game), (3, 9, 4));
}

#[test]
fn game_without_blocks_keeps_running() {
    let mut game = game(3, (5, 5, 1, -1), vec![]);
    for _ in 0..4 {
        game.tick();
    }
    assert_eq!(game.status(), Status::Running);
    assert_eq!(ball_of(&game), (9, 1, 1, -1));
}

#[test]
fn ball_bounces_off_the_side_and_top_edges_of_the_field() {
    let mut right = game(3, (9, 5, 1, -1), vec![]);
    right.tick();
    assert_eq!(ball_of(&right), (9, 4, -1, -1));
    let mut left = game(3, (0, 5, -1, -1), vec![]);
    left.tick();
    assert_eq!(ball_of(&left), (0, 4, 1, -1));
    let mut top = game(3, (5, 0, 1, -1), vec![]);
    top.tick();
    assert_eq!(ball_of(&top), (6, 0, 1, 1));
}

#[test]
fn power_is_the_number_of_unit_steps_per_tick() {
    let mut game = GameState::from_parts(
        10,
        10,
        &config(0, 1, 4, 2),
        3,
        Position::new(5, 5),
        Velocity { dx: 1, dy: -1 },
        vec![Block::new(6, 4, 1), Block::new(0, 0, 1)],
        0,
    )
    .unwrap();
    game.tick();
    assert_eq!(ball_of(&game), (7, 5, 1, 1));
    assert_eq!(game.blocks(), &vec![Block::new(0, 0, 1)]);
    game.tick();
    assert_eq!(ball_of(&game), (9, 7, 1, 1));
}

#[test]
fn strong_ball_stops_stepping_when_the_game_ends() {
    let mut game = GameState::from_parts(
        10,
        10,
        &config(0, 1, 4, 5),
        0,
        Position::new(5, 8),
        Velocity { dx: 1, dy: 1 },
        vec![],
        0,
    )
    .unwrap();
    game.tick();
    assert!(game.game_over());
    assert_eq!(ball_of(&game), (6, 9, 1, 1));
}

#[test]
fn bar_bounce_can_be_undone_later_in_a_strong_tick() {
    let mut game = GameState::from_parts(
        10,
        2,
        &config(0, 1, 4, 3),
        3,
        Position::new(4, 0),
        Velocity { dx: 1, dy: 1 },
        vec![],
        0,
    )
    .unwrap();
    game.tick();
    assert_eq!(ball_of(&game), (7, 0, 1, 1));
    assert_eq!(game.status(), Status::Running);
}

#[test]
fn bar_wins_over_a_block_in_the_same_cell() {
    let mut game = game(3, (4, 8, 1, 1), vec![Block::new(5, 9, 2)]);
    game.tick();
    assert_eq!(ball_of(&game), (5, 9, 1, -1));
    assert_eq!(game.blocks(), &vec![Block::new(5, 9, 1)]);
}

#[test]
fn seeded_game_plays_out_the_same_way_every_time() {
    let mut game = GameState::new(10, 10, &config(200, 1, 4, 1));
    for _ in 0..5 {
        game.tick();
    }
    assert_eq!(ball_of(&game), (9, 3, -1, -1));
    assert_eq!(game.blocks().len(), 9);
    game.tick();
    assert_eq!(ball_of(&game), (8, 2, -1, 1));
    assert_eq!(game.blocks().len(), 8);
    assert!(!game.blocks().contains(&Block::new(8, 2, 1)));
    for _ in 0..7 {
        game.tick();
    }
    assert_eq!(ball_of(&game), (1, 9, -1, 1));
    assert_eq!(game.status(), Status::Running);
    game.tick();
    assert_eq!(game.status(), Status::GameOver);
    assert_eq!(ball_of(&game), (1, 9, -1, 1));
}

#[test]
fn entities_stay_inside_the_field_through_a_long_game() {
    let mut game = GameState::with_seed(20, 12, &config(300, 2, 5, 2), 7);
    for round in 0..500u32 {
        if game.game_over() || game.is_cleared() {
            game.reset();
        }
        if round % 3 == 0 {
            game.move_bar_left();
        } else {
            game.move_bar_right();
        }
        game.tick();
        assert!(game.bar().x() + game.bar().width() <= game.width());
        assert_eq!(game.bar().y(), 11);
        assert!(game.ball().x() < 20 && game.ball().y() < 12);
        assert!(game.ball().dx().abs() == 1 && game.ball().dy().abs() == 1);
        assert!(game.blocks().iter().all(|block| block.strength() >= 1));
    }
}

#[test]
fn twelve_ticks_of_a_seeded_game_with_a_strong_ball() {
    let mut game = GameState::with_seed(20, 12, &config(300, 2, 5, 2), 7);
    for _ in 0..12 {
        game.tick();
    }
    assert_eq!(ball_of(&game), (5, 11, -1, 1));
    assert_eq!(game.status(), Status::Running);
    assert_eq!(game.blocks().len(), 30);
    assert!(game.blocks().contains(&Block::new(17, 0, 1)));
    assert!(game.blocks().contains(&Block::new(18, 0, 1)));
}

#[test]
fn reset_rebuilds_the_game_from_the_same_parameters() {
    let config = config(200, 1, 4, 1);
    let mut game = GameState::new(10, 10, &config);
    let first_layout = game.blocks().clone();
    for _ in 0..14 {
        game.tick();
    }
    game.move_bar_left();
    assert!(game.game_over());
    game.reset();
    assert_eq!(game.status(), Status::Running);
    assert_eq!((game.width(), game.height()), (10, 10));
    assert_eq!(bar_of(&game), (3, 9, 4));
    assert_eq!(ball_of(&game), (5, 8, 1, -1));
    assert_eq!(game.ball().power(), 1);
    assert_eq!(game.config().block_density(), 200);
    assert_eq!(game.config().block_strength(), 1);
    assert_eq!(game.config().bar_width(), 4);
    assert_eq!(game.config().ball_power(), 1);
    assert_ne!(game.blocks(), &first_layout);
    assert_eq!(
        game.blocks(),
        &vec![
            Block::new(1, 0, 1),
            Block::new(3, 0, 1),
            Block::new(9, 0, 1),
            Block::new(0, 1, 1),
            Block::new(1, 1, 1),
            Block::new(3, 1, 1),
            Block::new(8, 1, 1),
            Block::new(4, 2, 1),
            Block::new(7, 2, 1),
        ]
    );
}

#[test]
fn reset_uses_the_current_field_size() {
    let mut game = GameState::new(10, 10, &config(1000, 2, 4, 1));
    game.update_dimensions(6, 9);
    game.toggle_pause();
    game.reset();
    assert_eq!(game.status(), Status::Running);
    assert_eq!((game.width(), game.height()), (6, 9));
    assert_eq!(bar_of(&game), (1, 8, 4));
    assert_eq!(ball_of(&game), (3, 7, 1, -1));
    assert_eq!(game.blocks().len(), 6 * 3);
    assert!(game.blocks().iter().all(|block| block.strength() == 2));
}

#[test]
fn resize_pulls_bar_and_ball_inside_and_keeps_the_rest() {
    let mut game = game(6, (9, 9, 1, -1), vec![Block::new(8, 1, 2)]);
    game.toggle_pause();
    game.update_dimensions(6, 5);
    assert_eq!((game.width(), game.height()), (6, 5));
    assert_eq!(bar_of(&game), (2, 4, 4));
    assert_eq!(game.bar().field_width(), 6);
    assert_eq!(ball_of(&game), (5, 4, 1, -1));
    assert_eq!(game.blocks(), &vec![Block::new(8, 1, 2)]);
    assert_eq!(game.status(), Status::Paused);
    game.update_dimensions(30, 20);
    assert_eq!(bar_of(&game), (2, 19, 4));
    assert_eq!(ball_of(&game), (5, 4, 1, -1));
    game.move_bar_right();
    assert_eq!(bar_of(&game), (3, 19, 4));
}

#[test]
fn bar_moves_stop_at_the_edges_of_the_field() {
    let mut game = game(1, (5, 5, 1, -1), vec![]);
    game.move_bar_left();
    assert_eq!(game.bar().x(), 0);
    game.move_bar_left();
    assert_eq!(game.bar().x(), 0);
    for _ in 0..10 {
        game.move_bar_right();
    }
    assert_eq!(game.bar().x(), 6);
    assert_eq!(ball_of(&game), (5, 5, 1, -1));
}
