use crate::ball::{Ball, BallView};
use crate::bar::{Bar, BarView};
use crate::block::{layout, lemma_layout_valid, lemma_struck_valid, occupied, struck, valid_blocks, Block, BlockField};
use crate::config::{Config, ConfigView};
use crate::geometry::{last_index, Position, Velocity};
use crate::random::{lemma_state_in_range, state_after, Generator};
use vstd::prelude::*;

verus! {

/// The seed of a game that was not given one.
pub const DEFAULT_SEED: u64 = 0;

/// Blocks are laid out in the top third of the field.
pub const BLOCK_ROWS_DIVISOR: u16 = 3;

/// Where a game stands. `GameOver` and `Cleared` are final: only a reset
/// leads out of them.
#[derive(Clone, Copy, Debug, PartialEq, Eq, Structural)]
pub enum Status {
    /// Ticks move the ball.
    Running,
    /// Ticks are ignored until the pause is lifted.
    Paused,
    /// The ball fell past the bottom row.
    GameOver,
    /// The ball destroyed the last block.
    Cleared,
}

/// A whole game as a mathematical value. All rules of play are functions
/// on this type.
pub struct GameView {
    pub bar: BarView,
    pub ball: BallView,
    pub blocks: Seq<Block>,
    pub field_width: int,
    pub field_height: int,
    pub status: Status,
    pub config: ConfigView,
    /// State of the generator that the next layout will be drawn from.
    pub generator: int,
}

impl GameView {
    /// What holds of every game at all times: the bar and the ball are
    /// inside the field, the bar lies on the bottom row with the configured
    /// width, and the blocks are valid.
    pub open spec fn inv(self) -> bool {
        &&& 0 <= self.field_width <= u16::MAX
        &&& 0 <= self.field_height <= u16::MAX
        &&& self.config.inv()
        &&& self.bar.inv()
        &&& self.bar.field_width == self.field_width
        &&& self.bar.width == self.config.bar_width
        &&& self.bar.y == last_index(self.field_height)
        &&& self.ball.is_unit()
        &&& self.ball.inside(self.field_width, self.field_height)
        &&& self.ball.power == self.config.ball_power
        &&& valid_blocks(self.blocks)
        &&& 0 <= self.generator <= u64::MAX
    }

    /// The number of grid cells that a layout fills in a field of the
    /// given size: every column of the top third of the rows.
    pub open spec fn grid_cells(field_width: int, field_height: int) -> nat {
        (field_width * (field_height / (BLOCK_ROWS_DIVISOR as int))) as nat
    }

    /// The game as it starts: running, the bar centred on the bottom row,
    /// the ball above the middle of the bar on its way up and to the right,
    /// and a layout of blocks drawn from `seed`.
    pub open spec fn fresh(field_width: int, field_height: int, config: ConfigView, seed: int) -> GameView {
        GameView {
            bar: BarView::centered(config.bar_width, field_width, field_height),
            ball: BallView {
                x: field_width / 2,
                y: if field_height >= 2 {
                    field_height - 2
                } else {
                    0
                },
                dx: 1,
                dy: -1,
                power: config.ball_power,
            },
            blocks: layout(
                field_width,
                config.block_density,
                config.block_strength,
                seed,
                Self::grid_cells(field_width, field_height),
            ),
            field_width,
            field_height,
            status: Status::Running,
            config,
            generator: state_after(seed, Self::grid_cells(field_width, field_height)),
        }
    }

    /// A running game put together from given pieces.
    pub open spec fn assembled(
        field_width: int,
        field_height: int,
        config: ConfigView,
        bar_x: int,
        ball_position: Position,
        ball_velocity: Velocity,
        blocks: Seq<Block>,
        seed: int,
    ) -> GameView {
        GameView {
            bar: BarView {
                x: bar_x,
                y: last_index(field_height),
                width: config.bar_width,
                field_width,
            },
            ball: BallView {
                x: ball_position.x as int,
                y: ball_position.y as int,
                dx: ball_velocity.dx as int,
                dy: ball_velocity.dy as int,
                power: config.ball_power,
            },
            blocks,
            field_width,
            field_height,
            status: Status::Running,
            config,
            generator: seed,
        }
    }

    /// One unit step of a running game; any other game stays as it is.
    ///
    /// A ball about to leave the field at the bottom ends the game and
    /// stays where it is. Otherwise the ball moves one cell diagonally,
    /// bouncing off the left, right and top edges. A block in the cell it
    /// reaches is hit and turns `dy` around; the last block to go clears
    /// the game. Reaching a cell of the bar sends the ball upward, whatever
    /// else happened in this step.
    pub open spec fn stepped(self) -> GameView {
        if self.status != Status::Running {
            self
        } else if self.ball.falls(self.field_height) {
            GameView { status: Status::GameOver, ..self }
        } else {
            let moved = self.ball.advanced(self.field_width);
            let hit = occupied(self.blocks, moved.x, moved.y);
            let blocks = struck(self.blocks, moved.x, moved.y);
            GameView {
                ball: BallView {
                    dy: if self.bar.covers(moved.x, moved.y) {
                        -1
                    } else if hit {
                        -moved.dy
                    } else {
                        moved.dy
                    },
                    ..moved
                },
                blocks,
                status: if hit && blocks.len() == 0 {
                    Status::Cleared
                } else {
                    Status::Running
                },
                ..self
            }
        }
    }

    /// `count` unit steps in a row.
    pub open spec fn stepped_times(self, count: nat) -> GameView
        decreases count,
    {
        if count == 0 {
            self
        } else {
            self.stepped_times((count - 1) as nat).stepped()
        }
    }

    /// One tick: a running game takes as many unit steps as the ball has
    /// power; any other game stays as it is.
    pub open spec fn ticked(self) -> GameView {
        if self.status == Status::Running {
            self.stepped_times(self.ball.power as nat)
        } else {
            self
        }
    }

    /// Running becomes paused and paused becomes running; a finished game
    /// stays finished.
    pub open spec fn pause_toggled(self) -> GameView {
        GameView {
            status: match self.status {
                Status::Running => Status::Paused,
                Status::Paused => Status::Running,
                Status::GameOver => Status::GameOver,
                Status::Cleared => Status::Cleared,
            },
            ..self
        }
    }

    /// The bar may be moved while the game runs or is paused.
    pub open spec fn accepts_bar_moves(self) -> bool {
        self.status == Status::Running || self.status == Status::Paused
    }

    pub open spec fn bar_moved_left(self) -> GameView {
        if self.accepts_bar_moves() {
            GameView { bar: self.bar.moved_left(), ..self }
        } else {
            self
        }
    }

    pub open spec fn bar_moved_right(self) -> GameView {
        if self.accepts_bar_moves() {
            GameView { bar: self.bar.moved_right(), ..self }
        } else {
            self
        }
    }

    /// The game in a field of a new size: bar and ball are pulled inside,
    /// everything else is kept.
    pub open spec fn resized(self, field_width: int, field_height: int) -> GameView {
        GameView {
            bar: self.bar.resized(field_width, field_height),
            ball: self.ball.clamped(field_width, field_height),
            field_width,
            field_height,
            ..self
        }
    }

    /// A fresh game of the same size and configuration, its blocks drawn
    /// from where the generator stands.
    pub open spec fn restarted(self) -> GameView {
        Self::fresh(self.field_width, self.field_height, self.config, self.generator)
    }
}

/// A fresh game satisfies the invariant.
pub proof fn lemma_fresh_inv(field_width: int, field_height: int, config: ConfigView, seed: int)
    requires
        0 <= field_width <= u16::MAX,
        0 <= field_height <= u16::MAX,
        config.inv(),
        0 <= seed <= u64::MAX,
    ensures
        GameView::fresh(field_width, field_height, config, seed).inv(),
{
    let rows = field_height / (BLOCK_ROWS_DIVISOR as int);
    let cells = GameView::grid_cells(field_width, field_height);
    let fresh = GameView::fresh(field_width, field_height, config, seed);
    assert(0 <= rows <= u16::MAX);
    assert(0 <= field_width * rows) by (nonlinear_arith)
        requires
            0 <= field_width,
            0 <= rows,
    ;
    assert(cells == field_width * rows);
    assert(valid_blocks(fresh.blocks)) by {
        if field_width > 0 {
            lemma_layout_valid(field_width, rows, config.block_density, config.block_strength, seed, cells);
        } else {
            assert(field_width * rows == 0) by (nonlinear_arith)
                requires
                    field_width == 0,
            ;
        }
    }
    assert(0 <= fresh.generator <= u64::MAX) by {
        lemma_state_in_range(seed, cells);
    }
    assert(fresh.bar.inv());
    assert(fresh.ball.inside(field_width, field_height));
}

/// A unit step keeps the invariant.
pub proof fn lemma_stepped_inv(game: GameView)
    requires
        game.inv(),
    ensures
        game.stepped().inv(),
{
    if game.status == Status::Running && !game.ball.falls(game.field_height) {
        let moved = game.ball.advanced(game.field_width);
        lemma_struck_valid(game.blocks, moved.x, moved.y);
    }
}

/// Any number of unit steps keeps the invariant.
pub proof fn lemma_stepped_times_inv(game: GameView, count: nat)
    requires
        game.inv(),
    ensures
        game.stepped_times(count).inv(),
    decreases count,
{
    if count > 0 {
        lemma_stepped_times_inv(game, (count - 1) as nat);
        lemma_stepped_inv(game.stepped_times((count - 1) as nat));
    }
}

/// Bar, ball and field size: the part of a game that changes together.
#[derive(Clone, Copy, Debug)]
struct Court {
    bar: Bar,
    ball: Ball,
    width: u16,
    height: u16,
}

/// The game: the authoritative state of bar, ball and blocks, advanced one
/// tick at a time.
pub struct GameState {
    court: Court,
    blocks: BlockField,
    status: Status,
    config: Config,
    generator: Generator,
}

impl View for GameState {
    type V = GameView;

    closed spec fn view(&self) -> GameView {
        GameView {
            bar: self.court.bar@,
            ball: self.court.ball@,
            blocks: self.blocks@,
            field_width: self.court.width as int,
            field_height: self.court.height as int,
            status: self.status,
            config: self.config@,
            generator: self.generator@,
        }
    }
}

impl GameState {
    /// Holds of every value of this type.
    #[verifier::type_invariant]
    pub open spec fn well_formed(self) -> bool {
        self@.inv()
    }

    /// A fresh game in a field of the given size, drawn from the default
    /// seed.
    pub fn new(width: u16, height: u16, config: &Config) -> (game: GameState)
        ensures
            game@ == GameView::fresh(width as int, height as int, config@, DEFAULT_SEED as int),
            game@.inv(),
            config@.inv(),
    {
        Self::with_seed(width, height, config, DEFAULT_SEED)
    }

    /// A fresh game in a field of the given size, its blocks drawn from
    /// `seed`. Equal arguments give equal games.
    pub fn with_seed(width: u16, height: u16, config: &Config, seed: u64) -> (game: GameState)
        ensures
            game@ == GameView::fresh(width as int, height as int, config@, seed as int),
            game@.inv(),
            config@.inv(),
    {
        Self::start(width, height, *config, Generator::seeded(seed))
    }

    fn start(width: u16, height: u16, config: Config, generator: Generator) -> (game: GameState)
        ensures
            game@ == GameView::fresh(width as int, height as int, config@, generator@),
            game@.inv(),
    {
        let bar_width = config.bar_width();
        let power = config.ball_power();
        let mut generator = generator;
        let ghost seed = generator@;
        proof {
            generator.lemma_view_in_range();
        }
        let rows = height / BLOCK_ROWS_DIVISOR;
        let blocks = BlockField::generate(width, rows, &config, &mut generator);
        proof {
            lemma_fresh_inv(width as int, height as int, config@, seed);
        }
        let court = Court {
            bar: Bar::centered(bar_width, width, height),
            ball: Ball {
                position: Position {
                    x: width / 2,
                    y: if height >= 2 {
                        height - 2
                    } else {
                        0
                    },
                },
                velocity: Velocity { dx: 1, dy: -1 },
                power,
            },
            width,
            height,
        };
        GameState { court, blocks, status: Status::Running, config, generator }
    }

    /// A running game put together from given pieces: the column of the
    /// bar's left end, the ball's cell and direction, and the live blocks.
    /// The pieces are turned down unless they make a valid game.
    pub fn from_parts(
        width: u16,
        height: u16,
        config: &Config,
        bar_x: u16,
        ball_position: Position,
        ball_velocity: Velocity,
        blocks: Vec<Block>,
        seed: u64,
    ) -> (game: Option<GameState>)
        ensures
            ({
                let asked = GameView::assembled(
                    width as int,
                    height as int,
                    config@,
                    bar_x as int,
                    ball_position,
                    ball_velocity,
                    blocks@,
                    seed as int,
                );
                match game {
                    Some(game) => asked.inv() && game@ == asked,
                    None => !asked.inv(),
                }
            }),
            config@.inv(),
    {
        let bar_width = config.bar_width();
        let power = config.ball_power();
        let right = if width > 0 {
            width - 1
        } else {
            0
        };
        let bottom = if height > 0 {
            height - 1
        } else {
            0
        };
        if ball_position.x > right || ball_position.y > bottom {
            return None;
        }
        if !(ball_velocity.dx == 1 || ball_velocity.dx == -1) {
            return None;
        }
        if !(ball_velocity.dy == 1 || ball_velocity.dy == -1) {
            return None;
        }
        let bar = match Bar::placed(bar_x, bar_width, width, height) {
            Some(bar) => bar,
            None => {
                return None;
            },
        };
        let blocks = match BlockField::from_blocks(blocks) {
            Some(blocks) => blocks,
            None => {
                return None;
            },
        };
        let court = Court {
            bar,
            ball: Ball { position: ball_position, velocity: ball_velocity, power },
            width,
            height,
        };
        Some(
            GameState {
                court,
                blocks,
                status: Status::Running,
                config: *config,
                generator: Generator::seeded(seed),
            },
        )
    }

    /// One unit step of the ball.
    fn step(&mut self)
        ensures
            final(self)@ == old(self)@.stepped(),
            final(self)@.inv(),
    {
        proof {
            use_type_invariant(&*self);
        }
        if self.status != Status::Running {
            return ;
        }
        let court = self.court;
        let mut ball = court.ball;
        if !ball.advance(court.width, court.height) {
            self.status = Status::GameOver;
            return ;
        }
        let mut blocks = BlockField::empty();
        std::mem::swap(&mut blocks, &mut self.blocks);
        let hit = blocks.strike(ball.position.x, ball.position.y);
        let cleared = hit && blocks.is_empty();
        self.blocks = blocks;
        if court.bar.covers(ball.position.x, ball.position.y) {
            ball.velocity.dy = -1;
        } else if hit {
            ball.velocity.dy = if ball.velocity.dy == 1 {
                -1
            } else {
                1
            };
        }
        self.court = Court { ball, ..court };
        if cleared {
            self.status = Status::Cleared;
        }
    }

    /// Advances the game by one tick. A running game takes as many unit
    /// steps as the ball has power, checking for collisions after each; a
    /// paused or finished game does not change.
    pub fn tick(&mut self)
        ensures
            final(self)@ == old(self)@.ticked(),
            final(self)@.inv(),
    {
        proof {
            use_type_invariant(&*self);
        }
        let ghost before = self@;
        if self.status == Status::Running {
            let power = self.court.ball.power;
            let mut taken: u16 = 0;
            while taken < power
                invariant
                    taken <= power,
                    self@ == before.stepped_times(taken as nat),
                    self@.inv(),
                decreases power - taken,
            {
                self.step();
                taken += 1;
            }
        }
    }

    /// Pauses a running game and resumes a paused one. A finished game is
    /// left alone.
    pub fn toggle_pause(&mut self)
        ensures
            final(self)@ == old(self)@.pause_toggled(),
            final(self)@.inv(),
    {
        proof {
            use_type_invariant(&*self);
        }
        match self.status {
            Status::Running => {
                self.status = Status::Paused;
            },
            Status::Paused => {
                self.status = Status::Running;
            },
            _ => {},
        }
    }

    /// Moves the bar one column to the left, if the game runs or is paused
    /// and the bar is not at the left edge.
    pub fn move_bar_left(&mut self)
        ensures
            final(self)@ == old(self)@.bar_moved_left(),
            final(self)@.inv(),
    {
        proof {
            use_type_invariant(&*self);
        }
        if self.status == Status::Running || self.status == Status::Paused {
            let mut bar = self.court.bar;
            bar.move_left();
            self.court = Court { bar, ..self.court };
        }
    }

    /// Moves the bar one column to the right, if the game runs or is
    /// paused and the bar is not at the right edge.
    pub fn move_bar_right(&mut self)
        ensures
            final(self)@ == old(self)@.bar_moved_right(),
            final(self)@.inv(),
    {
        proof {
            use_type_invariant(&*self);
        }
        if self.status == Status::Running || self.status == Status::Paused {
            let mut bar = self.court.bar;
            bar.move_right();
            self.court = Court { bar, ..self.court };
        }
    }

    /// Gives the field a new size and pulls bar and ball inside it. Blocks
    /// and status are kept.
    pub fn update_dimensions(&mut self, width: u16, height: u16)
        ensures
            final(self)@ == old(self)@.resized(width as int, height as int),
            final(self)@.inv(),
    {
        proof {
            use_type_invariant(&*self);
        }
        let mut bar = self.court.bar;
        let mut ball = self.court.ball;
        bar.update_dimensions(width, height);
        ball.update_dimensions(width, height);
        self.court = Court { bar, ball, width, height };
    }

    /// Starts over: a fresh running game of the same size and
    /// configuration, its blocks drawn from where the generator stands.
    pub fn reset(&mut self)
        ensures
            final(self)@ == old(self)@.restarted(),
            final(self)@.inv(),
    {
        proof {
            use_type_invariant(&*self);
        }
        *self = Self::start(self.court.width, self.court.height, self.config, self.generator);
    }

    pub fn bar(&self) -> (bar: &Bar)
        ensures
            bar@ == self@.bar,
            self@.inv(),
    {
        proof {
            use_type_invariant(self);
        }
        &self.court.bar
    }

    pub fn ball(&self) -> (ball: &Ball)
        ensures
            ball@ == self@.ball,
            self@.inv(),
    {
        proof {
            use_type_invariant(self);
        }
        &self.court.ball
    }

    /// The live blocks, for reading. Each call starts from the first.
    pub fn blocks(&self) -> (blocks: &Vec<Block>)
        ensures
            blocks@ == self@.blocks,
            self@.inv(),
    {
        proof {
            use_type_invariant(self);
        }
        self.blocks.blocks()
    }

    pub fn width(&self) -> (width: u16)
        ensures
            width == self@.field_width,
    {
        self.court.width
    }

    pub fn height(&self) -> (height: u16)
        ensures
            height == self@.field_height,
    {
        self.court.height
    }

    pub fn status(&self) -> (status: Status)
        ensures
            status == self@.status,
    {
        self.status
    }

    pub fn is_paused(&self) -> (paused: bool)
        ensures
            paused == (self@.status == Status::Paused),
    {
        self.status == Status::Paused
    }

    /// Whether the ball has fallen past the bottom row.
    pub fn game_over(&self) -> (over: bool)
        ensures
            over == (self@.status == Status::GameOver),
    {
        self.status == Status::GameOver
    }

    /// Whether the ball has destroyed the last block.
    pub fn is_cleared(&self) -> (cleared: bool)
        ensures
            cleared == (self@.status == Status::Cleared),
    {
        self.status == Status::Cleared
    }

    pub fn config(&self) -> (config: &Config)
        ensures
            config@ == self@.config,
    {
        &self.config
    }
}

} // verus!
