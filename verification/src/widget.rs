use crate::block::Block;
use crate::game::{GameState, GameView, Status};
use vstd::prelude::*;
use vstd::string::StringExecFns;

verus! {

/// Two terminal characters make one square cell of the field.
pub const SQUARE: &'static str = "  ";

/// What a block is drawn with.
pub const BLOCK_TEXT: &'static str = "    ";

pub const PAUSED_TEXT: &'static str = "PAUSED";

pub const GAME_OVER_TEXT: &'static str = "GAME OVER";

pub const CLEARED_TEXT: &'static str = "CLEARED";

pub const HELP_TEXT: &'static str = "q: quit r: restart  <space>: pause  h/<-: left  l/->: right";

/// Rows between a banner and the bottom of the area.
pub const BANNER_RISE: u16 = 10;

#[derive(Clone, Copy, Debug, PartialEq, Eq, Structural)]
pub enum Colour {
    Black,
    White,
    Red,
    Green,
    Blue,
}

/// How a text is drawn. `None` leaves the terminal's own colour.
#[derive(Clone, Copy, Debug, PartialEq, Eq, Structural)]
pub struct Style {
    pub foreground: Option<Colour>,
    pub background: Option<Colour>,
}

impl Style {
    /// Cells filled with a colour.
    pub open spec fn spec_fill(colour: Colour) -> Style {
        Style { foreground: None, background: Some(colour) }
    }

    /// Letters in a colour.
    pub open spec fn spec_ink(colour: Colour) -> Style {
        Style { foreground: Some(colour), background: None }
    }

    pub open spec fn spec_plain() -> Style {
        Style { foreground: None, background: None }
    }

    pub fn fill(colour: Colour) -> (style: Style)
        ensures
            style == Self::spec_fill(colour),
    {
        Style { foreground: None, background: Some(colour) }
    }

    pub fn ink(colour: Colour) -> (style: Style)
        ensures
            style == Self::spec_ink(colour),
    {
        Style { foreground: Some(colour), background: None }
    }

    pub fn plain() -> (style: Style)
        ensures
            style == Self::spec_plain(),
    {
        Style { foreground: None, background: None }
    }
}

/// A text to put on the screen: `text` starts in terminal column `x` of
/// row `y`.
#[derive(Debug)]
pub struct Paint {
    pub x: u16,
    pub y: u16,
    pub text: String,
    pub style: Style,
}

pub struct PaintView {
    pub x: int,
    pub y: int,
    pub text: Seq<char>,
    pub style: Style,
}

impl View for Paint {
    type V = PaintView;

    open spec fn view(&self) -> PaintView {
        PaintView { x: self.x as int, y: self.y as int, text: self.text@, style: self.style }
    }
}

/// The views of a list of paints, in order.
pub open spec fn paint_views(paints: Seq<Paint>) -> Seq<PaintView> {
    paints.map_values(|paint: Paint| paint@)
}

/// `count` squares in a row.
pub open spec fn squares(count: nat) -> Seq<char>
    decreases count,
{
    if count == 0 {
        Seq::empty()
    } else {
        squares((count - 1) as nat) + SQUARE@
    }
}

/// The column in which a text of `length` characters starts so that its
/// middle falls on the middle of an area `area_width` columns wide. A
/// text too long for that starts in column zero.
pub open spec fn centered_x(area_width: int, length: int) -> int {
    if area_width / 2 >= length / 2 {
        area_width / 2 - length / 2
    } else {
        0
    }
}

/// A paint is put on the screen only when it starts inside the area.
pub open spec fn visible(paint: PaintView, area_width: int, area_height: int) -> bool {
    0 <= paint.x < area_width && 0 <= paint.y < area_height
}

/// The paint alone if it is visible, and nothing otherwise.
pub open spec fn only_visible(paint: PaintView, area_width: int, area_height: int) -> Seq<PaintView> {
    if visible(paint, area_width, area_height) {
        seq![paint]
    } else {
        Seq::empty()
    }
}

/// The bar: one white square for each of its cells.
pub open spec fn bar_paint(game: GameView) -> PaintView {
    PaintView {
        x: game.bar.x * 2,
        y: game.bar.y,
        text: squares(game.bar.width as nat),
        style: Style::spec_fill(Colour::White),
    }
}

/// The ball: one red square.
pub open spec fn ball_paint(game: GameView) -> PaintView {
    PaintView { x: game.ball.x * 2, y: game.ball.y, text: SQUARE@, style: Style::spec_fill(Colour::Red) }
}

pub open spec fn block_paint(block: Block) -> PaintView {
    PaintView { x: block.x * 2, y: block.y as int, text: BLOCK_TEXT@, style: Style::spec_fill(Colour::Green) }
}

/// Whether a block is drawn: it lies inside the field and its paint is
/// visible.
pub open spec fn block_shown(block: Block, game: GameView, area_width: int, area_height: int) -> bool {
    &&& block.x < game.field_width
    &&& block.y < game.field_height
    &&& visible(block_paint(block), area_width, area_height)
}

/// The paints of the first `count` blocks, in the order of the blocks.
pub open spec fn block_paints(game: GameView, area_width: int, area_height: int, count: nat) -> Seq<PaintView>
    decreases count,
{
    if count == 0 {
        Seq::empty()
    } else {
        let before = block_paints(game, area_width, area_height, (count - 1) as nat);
        let block = game.blocks[count - 1];
        if block_shown(block, game, area_width, area_height) {
            before.push(block_paint(block))
        } else {
            before
        }
    }
}

/// The text across the screen that tells how the game stands, if it
/// stands otherwise than running.
pub open spec fn banner(status: Status) -> Option<(Seq<char>, Style)> {
    match status {
        Status::Running => None,
        Status::Paused => Some((PAUSED_TEXT@, Style::spec_ink(Colour::Blue))),
        Status::GameOver => Some((GAME_OVER_TEXT@, Style::spec_ink(Colour::Red))),
        Status::Cleared => Some((CLEARED_TEXT@, Style::spec_ink(Colour::Green))),
    }
}

/// The banner, centred ten rows above the bottom of the area. An area
/// lower than that shows no banner.
pub open spec fn banner_paints(game: GameView, area_width: int, area_height: int) -> Seq<PaintView> {
    match banner(game.status) {
        Some((text, style)) => if area_height >= BANNER_RISE {
            only_visible(
                PaintView {
                    x: centered_x(area_width, text.len() as int),
                    y: area_height - BANNER_RISE,
                    text,
                    style,
                },
                area_width,
                area_height,
            )
        } else {
            Seq::empty()
        },
        None => Seq::empty(),
    }
}

/// The key bindings, centred on the bottom row of the area.
pub open spec fn help_paint(area_width: int, area_height: int) -> PaintView {
    PaintView {
        x: centered_x(area_width, HELP_TEXT@.len() as int),
        y: area_height - 1,
        text: HELP_TEXT@,
        style: Style::spec_plain(),
    }
}

/// Everything that is drawn of a game in an area of the given size, in
/// drawing order: bar, ball, blocks, banner, key bindings. Field cells
/// are two terminal columns wide.
pub open spec fn scene(game: GameView, area_width: int, area_height: int) -> Seq<PaintView> {
    only_visible(bar_paint(game), area_width, area_height) + only_visible(
        ball_paint(game),
        area_width,
        area_height,
    ) + block_paints(game, area_width, area_height, game.blocks.len()) + banner_paints(
        game,
        area_width,
        area_height,
    ) + only_visible(help_paint(area_width, area_height), area_width, area_height)
}

/// The start column of a centred text.
pub fn center(area_width: u16, length: usize) -> (x: u16)
    ensures
        x == centered_x(area_width as int, length as int),
{
    let half_width: usize = (area_width / 2) as usize;
    let half_length: usize = length / 2;
    if half_width >= half_length {
        (half_width - half_length) as u16
    } else {
        0
    }
}

/// Appends a paint for `text` in terminal column `x` of row `y`, if that
/// place lies inside the area.
fn put(paints: &mut Vec<Paint>, x: u32, y: u32, text: String, style: Style, area_width: u16, area_height: u16)
    ensures
        paint_views(final(paints)@) == paint_views(old(paints)@) + only_visible(
            PaintView { x: x as int, y: y as int, text: text@, style },
            area_width as int,
            area_height as int,
        ),
{
    let ghost before = paints@;
    if x < area_width as u32 && y < area_height as u32 {
        let paint = Paint { x: x as u16, y: y as u16, text, style };
        paints.push(paint);
        assert(paint_views(paints@) =~= paint_views(before) + seq![paint@]);
    } else {
        assert(paint_views(paints@) =~= paint_views(before) + Seq::<PaintView>::empty());
    }
}

/// Composes the scene of a game for an area of the given size.
pub fn compose(game: &GameState, area_width: u16, area_height: u16) -> (paints: Vec<Paint>)
    ensures
        paint_views(paints@) == scene(game@, area_width as int, area_height as int),
{
    let mut paints: Vec<Paint> = Vec::new();
    assert(paint_views(paints@) =~= Seq::<PaintView>::empty());
    let bar = game.bar();
    let ball = game.ball();
    let blocks = game.blocks();
    let ghost width = area_width as int;
    let ghost height = area_height as int;

    let mut bar_text = String::new();
    let mut i: u16 = 0;
    while i < bar.width()
        invariant
            i <= bar@.width,
            bar_text@ == squares(i as nat),
        decreases bar@.width - i,
    {
        bar_text.append(SQUARE);
        i += 1;
    }
    put(
        &mut paints,
        bar.x() as u32 * 2,
        bar.y() as u32,
        bar_text,
        Style::fill(Colour::White),
        area_width,
        area_height,
    );
    put(
        &mut paints,
        ball.x() as u32 * 2,
        ball.y() as u32,
        SQUARE.to_owned(),
        Style::fill(Colour::Red),
        area_width,
        area_height,
    );
    let ghost head = paint_views(paints@);
    assert(head =~= only_visible(bar_paint(game@), width, height) + only_visible(
        ball_paint(game@),
        width,
        height,
    ));

    let mut k: usize = 0;
    while k < blocks.len()
        invariant
            k <= blocks.len(),
            blocks@ == game@.blocks,
            width == area_width,
            height == area_height,
            paint_views(paints@) == head + block_paints(game@, width, height, k as nat),
        decreases blocks.len() - k,
    {
        let block = blocks[k];
        let ghost so_far = paint_views(paints@);
        if block.x < game.width() && block.y < game.height() {
            put(
                &mut paints,
                block.x as u32 * 2,
                block.y as u32,
                BLOCK_TEXT.to_owned(),
                Style::fill(Colour::Green),
                area_width,
                area_height,
            );
        }
        assert(paint_views(paints@) =~= head + block_paints(game@, width, height, (k + 1) as nat));
        k += 1;
    }

    let ghost body = paint_views(paints@);
    if area_height >= BANNER_RISE {
        match game.status() {
            Status::Running => {},
            Status::Paused => {
                put(
                    &mut paints,
                    center(area_width, PAUSED_TEXT.unicode_len()) as u32,
                    (area_height - BANNER_RISE) as u32,
                    PAUSED_TEXT.to_owned(),
                    Style::ink(Colour::Blue),
                    area_width,
                    area_height,
                );
            },
            Status::GameOver => {
                put(
                    &mut paints,
                    center(area_width, GAME_OVER_TEXT.unicode_len()) as u32,
                    (area_height - BANNER_RISE) as u32,
                    GAME_OVER_TEXT.to_owned(),
                    Style::ink(Colour::Red),
                    area_width,
                    area_height,
                );
            },
            Status::Cleared => {
                put(
                    &mut paints,
                    center(area_width, CLEARED_TEXT.unicode_len()) as u32,
                    (area_height - BANNER_RISE) as u32,
                    CLEARED_TEXT.to_owned(),
                    Style::ink(Colour::Green),
                    area_width,
                    area_height,
                );
            },
        }
    }
    assert(paint_views(paints@) =~= body + banner_paints(game@, width, height));
    if area_height >= 1 {
        put(
            &mut paints,
            center(area_width, HELP_TEXT.unicode_len()) as u32,
            (area_height - 1) as u32,
            HELP_TEXT.to_owned(),
            Style::plain(),
            area_width,
            area_height,
        );
    }
    assert(paint_views(paints@) =~= scene(game@, width, height));
    paints
}

/// Draws a game into a list of paints, fitting the game to the area
/// first.
pub struct GameWidget<'a> {
    /// The game being drawn, borrowed for as long as the widget lives.
    pub game_state: &'a mut GameState,
}

impl<'a> GameWidget<'a> {
    /// A widget that draws the given game for as long as it is borrowed.
    pub fn new(game_state: &'a mut GameState) -> (widget: GameWidget<'a>)
        ensures
            *widget.game_state == *old(game_state),
            *final(widget.game_state) == *final(game_state),
    {
        GameWidget { game_state }
    }

    /// Resizes the game to the area, half as many cells wide as the area
    /// has columns, and composes its scene.
    pub fn draw(&mut self, area_width: u16, area_height: u16) -> (paints: Vec<Paint>)
        ensures
            final(self).game_state@ == old(self).game_state@.resized(
                (area_width / 2) as int,
                area_height as int,
            ),
            *final(final(self).game_state) == *final(old(self).game_state),
            paint_views(paints@) == scene(final(self).game_state@, area_width as int, area_height as int),
    {
        self.game_state.update_dimensions(area_width / 2, area_height);
        compose(&*self.game_state, area_width, area_height)
    }
}

} // verus!
