use crate::board::{Board, Cell};
use crate::snake::{turned, Glyph, Snake, START_COL, START_ROW};
use vstd::prelude::*;

verus! {

/// Where the snake is heading.
#[derive(Debug, Clone, Copy, PartialEq, Eq, Structural)]
pub enum Direction {
    Up,
    Down,
    Left,
    Right,
}

/// What a key press asks for.
#[derive(Debug, Clone, Copy, PartialEq, Eq, Structural)]
pub enum Command {
    Quit,
    Pause,
    Enter,
    Help,
    Config,
    Up,
    Down,
    Left,
    Right,
    Ignore,
    Unknown,
}

/// The curses key codes of the arrow keys and of the first function key,
/// and the code that a read with no key waiting returns.
pub const KEY_DOWN: i32 = 0x102;

pub const KEY_UP: i32 = 0x103;

pub const KEY_LEFT: i32 = 0x104;

pub const KEY_RIGHT: i32 = 0x105;

pub const KEY_F1: i32 = 0x109;

pub const NO_KEY: i32 = -1;

pub open spec fn up_key(k: i32) -> bool {
    k == KEY_UP || k == 'w' as i32 || k == 'k' as i32
}

pub open spec fn down_key(k: i32) -> bool {
    k == KEY_DOWN || k == 's' as i32 || k == 'j' as i32
}

pub open spec fn left_key(k: i32) -> bool {
    k == KEY_LEFT || k == 'a' as i32 || k == 'h' as i32
}

pub open spec fn right_key(k: i32) -> bool {
    k == KEY_RIGHT || k == 'd' as i32 || k == 'l' as i32
}

/// The command a key code stands for: an arrow, WASD or hjkl key for a
/// direction, 'q' to quit, 'p' or space to pause, Enter, F1 for help, 'c'
/// for the configuration, no key at all to be ignored, and anything else
/// unknown.
pub open spec fn command_of(k: i32) -> Command {
    if up_key(k) {
        Command::Up
    } else if down_key(k) {
        Command::Down
    } else if left_key(k) {
        Command::Left
    } else if right_key(k) {
        Command::Right
    } else if k == 'q' as i32 {
        Command::Quit
    } else if k == 'p' as i32 || k == ' ' as i32 {
        Command::Pause
    } else if k == '\n' as i32 {
        Command::Enter
    } else if k == KEY_F1 {
        Command::Help
    } else if k == 'c' as i32 {
        Command::Config
    } else if k == NO_KEY {
        Command::Ignore
    } else {
        Command::Unknown
    }
}

/// Interprets the key code that one read of the keyboard gave.
pub fn get_command(key: i32) -> (c: Command)
    ensures
        c == command_of(key),
{
    if key == KEY_UP || key == 'w' as i32 || key == 'k' as i32 {
        Command::Up
    } else if key == KEY_DOWN || key == 's' as i32 || key == 'j' as i32 {
        Command::Down
    } else if key == KEY_LEFT || key == 'a' as i32 || key == 'h' as i32 {
        Command::Left
    } else if key == KEY_RIGHT || key == 'd' as i32 || key == 'l' as i32 {
        Command::Right
    } else if key == 'q' as i32 {
        Command::Quit
    } else if key == 'p' as i32 || key == ' ' as i32 {
        Command::Pause
    } else if key == '\n' as i32 {
        Command::Enter
    } else if key == KEY_F1 {
        Command::Help
    } else if key == 'c' as i32 {
        Command::Config
    } else if key == NO_KEY {
        Command::Ignore
    } else {
        Command::Unknown
    }
}

/// The direction a movement command asks for.
pub open spec fn direction_of(c: Command) -> Option<Direction> {
    match c {
        Command::Up => Some(Direction::Up),
        Command::Down => Some(Direction::Down),
        Command::Left => Some(Direction::Left),
        Command::Right => Some(Direction::Right),
        _ => None,
    }
}

pub fn command_to_direction(c: &Command) -> (r: Option<Direction>)
    ensures
        r == direction_of(*c),
{
    match c {
        Command::Up => Some(Direction::Up),
        Command::Down => Some(Direction::Down),
        Command::Left => Some(Direction::Left),
        Command::Right => Some(Direction::Right),
        _ => None,
    }
}

/// The counts at which the answer to steering while paused grows sharper.
pub const CHEAT_FIRST_NUM: u32 = 50;

pub const CHEAT_WARNING_NUM: u32 = 100;

pub const CHEAT_WARNING2_NUM: u32 = 500;

pub const CHEAT_WARNING3_NUM: u32 = 750;

pub const CHEAT_MAX_NUM: u32 = 1000;

/// The answer to the `n`-th attempt to steer while paused.
#[derive(Debug, Clone, Copy, PartialEq, Eq, Structural)]
pub enum CheatReaction {
    /// Below the first threshold: the attempt is not remarked on.
    Neutral,
    /// From the first threshold up to the first warning.
    Cheater,
    /// From the first warning up to the second, with the count.
    Attempts,
    /// From the second warning up to the third, and again between the
    /// third's two messages and the maximum, with the count.
    Nagging,
    /// Exactly at the third warning.
    Suggestion,
    /// One past the third warning.
    Link,
    /// Exactly at the maximum.
    FinalWarning,
    /// One past the maximum: the game is ended with a failure status.
    Kill,
}

pub open spec fn cheat_reaction(n: int) -> CheatReaction {
    if CHEAT_FIRST_NUM <= n < CHEAT_WARNING_NUM {
        CheatReaction::Cheater
    } else if CHEAT_WARNING_NUM <= n < CHEAT_WARNING2_NUM {
        CheatReaction::Attempts
    } else if CHEAT_WARNING2_NUM <= n < CHEAT_WARNING3_NUM {
        CheatReaction::Nagging
    } else if n == CHEAT_WARNING3_NUM {
        CheatReaction::Suggestion
    } else if n == CHEAT_WARNING3_NUM + 1 {
        CheatReaction::Link
    } else if CHEAT_WARNING3_NUM + 1 < n < CHEAT_MAX_NUM {
        CheatReaction::Nagging
    } else if n == CHEAT_MAX_NUM {
        CheatReaction::FinalWarning
    } else if n == CHEAT_MAX_NUM + 1 {
        CheatReaction::Kill
    } else {
        CheatReaction::Neutral
    }
}

/// The answer once the cheat counter has reached `count`.
pub fn please_dont_cheat(count: u32) -> (r: CheatReaction)
    ensures
        r == cheat_reaction(count as int),
{
    if count >= CHEAT_FIRST_NUM && count < CHEAT_WARNING_NUM {
        CheatReaction::Cheater
    } else if count >= CHEAT_WARNING_NUM && count < CHEAT_WARNING2_NUM {
        CheatReaction::Attempts
    } else if count >= CHEAT_WARNING2_NUM && count < CHEAT_WARNING3_NUM {
        CheatReaction::Nagging
    } else if count == CHEAT_WARNING3_NUM {
        CheatReaction::Suggestion
    } else if count == CHEAT_WARNING3_NUM + 1 {
        CheatReaction::Link
    } else if count > CHEAT_WARNING3_NUM + 1 && count < CHEAT_MAX_NUM {
        CheatReaction::Nagging
    } else if count == CHEAT_MAX_NUM {
        CheatReaction::FinalWarning
    } else if count == CHEAT_MAX_NUM + 1 {
        CheatReaction::Kill
    } else {
        CheatReaction::Neutral
    }
}

/// The exit status after a quit, and after too many attempts to cheat.
pub const EXIT_QUIT: i32 = 0;

pub const EXIT_CHEATER: i32 = 1;

/// What a command did, for the screen to show.
#[derive(Debug, Clone, Copy, PartialEq, Eq)]
pub enum Effect {
    /// Nothing happened.
    Nothing,
    /// A direction was handed to the snake; while paused, with the answer
    /// to the attempt.
    Steered(Option<CheatReaction>),
    /// The game is now paused.
    Paused,
    /// The game runs again.
    Resumed,
    /// The process is to end with this status.
    Exit(i32),
}

/// The cheat counter after one more attempt; it stops at the largest `u32`.
pub open spec fn bumped(n: u32) -> u32 {
    if n < u32::MAX {
        (n + 1) as u32
    } else {
        n
    }
}

/// The smallest terminal the game runs in, and the rows and columns of the
/// terminal that the board leaves to its frame and the lines around it.
pub const LEAST_HEIGHT_FOR_GAME: i32 = 20;

pub const LEAST_WIDTH_FOR_GAME: i32 = 20;

pub const MARGIN: i32 = 4;

/// The tick counter's first value.
pub const FIRST_TICK: u32 = 100;

/// One game: the board, the snake, whether play is paused, how often the
/// player steered while paused, and a tick counter.
pub struct Game {
    board: Board,
    snake: Snake,
    paused: bool,
    cheat_count: u32,
    counter: u32,
}

/// What one tick did: the command's effect, the cell the snake left, if it
/// moved, and whether play goes on.
#[derive(Debug)]
pub struct TickReport {
    pub effect: Result<Effect, Command>,
    pub vacated: Option<Glyph>,
    pub keep_playing: bool,
}

/// `h` and `r` are the game and the result after game `g` ran command `c`.
///
/// A direction turns the snake (unless it reverses it or repeats its
/// direction). While paused it also counts as an attempt to cheat; the
/// attempt one past the maximum ends the game with a failure status before
/// the snake turns. Pause flips the pause flag, Quit asks to end with
/// success, Ignore does nothing, and every other command is handed back as
/// an error with nothing changed.
pub open spec fn command_done(g: Game, h: Game, c: Command, r: Result<Effect, Command>) -> bool {
    &&& h.board_state() == g.board_state()
    &&& h.ticks() == g.ticks()
    &&& match direction_of(c) {
        Some(d) => {
            &&& h.paused() == g.paused()
            &&& if !g.paused() {
                &&& h.cheats() == g.cheats()
                &&& g.snake_state().turned_into(d, h.snake_state())
                &&& r == Ok::<Effect, Command>(Effect::Steered(None))
            } else if cheat_reaction(bumped(g.cheats()) as int) == CheatReaction::Kill {
                &&& h.cheats() == bumped(g.cheats())
                &&& h.snake_state() == g.snake_state()
                &&& r == Ok::<Effect, Command>(Effect::Exit(EXIT_CHEATER))
            } else {
                &&& h.cheats() == bumped(g.cheats())
                &&& g.snake_state().turned_into(d, h.snake_state())
                &&& r == Ok::<Effect, Command>(
                    Effect::Steered(Some(cheat_reaction(bumped(g.cheats()) as int))),
                )
            }
        },
        None => match c {
            Command::Ignore => h == g && r == Ok::<Effect, Command>(Effect::Nothing),
            Command::Quit => h == g && r == Ok::<Effect, Command>(Effect::Exit(EXIT_QUIT)),
            Command::Pause => {
                &&& h.paused() == !g.paused()
                &&& h.cheats() == g.cheats()
                &&& h.snake_state() == g.snake_state()
                &&& r == Ok::<Effect, Command>(
                    if g.paused() {
                        Effect::Resumed
                    } else {
                        Effect::Paused
                    },
                )
            },
            _ => h == g && r == Err::<Effect, Command>(c),
        },
    }
}

impl Game {
    pub closed spec fn board_state(&self) -> Board {
        self.board
    }

    pub closed spec fn snake_state(&self) -> Snake {
        self.snake
    }

    pub closed spec fn paused(&self) -> bool {
        self.paused
    }

    pub closed spec fn cheats(&self) -> u32 {
        self.cheat_count
    }

    pub closed spec fn ticks(&self) -> u32 {
        self.counter
    }

    /// The board is well formed and the snake moves inside its border.
    pub open spec fn wf(&self) -> bool {
        &&& self.board_state().wf()
        &&& self.snake_state().wf()
        &&& self.snake_state().max_row() == self.board_state().rows() - 1
        &&& self.snake_state().max_col() == self.board_state().cols() - 1
    }

    /// A game for a terminal of `rows` by `cols` characters, or `None` when
    /// the terminal is smaller than the game needs. The board leaves
    /// `MARGIN` rows and columns to the frame; the snake starts at row 10,
    /// column 10, heading right, and play is not paused.
    pub fn new(rows: i32, cols: i32) -> (r: Option<Game>)
        ensures
            r is None <==> (rows < LEAST_HEIGHT_FOR_GAME || cols < LEAST_WIDTH_FOR_GAME),
            r matches Some(g) ==> {
                &&& g.wf()
                &&& g.board_state().rows() == rows - MARGIN
                &&& g.board_state().cols() == cols - MARGIN
                &&& forall|y: int, x: int|
                    g.board_state().in_bounds(y, x) ==> g.board_state().cell(y, x)
                        == Cell::Empty
                &&& g.snake_state().head_row() == START_ROW
                &&& g.snake_state().head_col() == START_COL
                &&& g.snake_state().dir() == Direction::Right
                &&& !g.paused()
                &&& g.cheats() == 0
                &&& g.ticks() == FIRST_TICK
            },
    {
        if rows < LEAST_HEIGHT_FOR_GAME || cols < LEAST_WIDTH_FOR_GAME {
            return None;
        }
        let height = (rows - MARGIN) as u32;
        let width = (cols - MARGIN) as u32;
        let board = Board::new(height, width);
        let snake = Snake::new(height - 1, width - 1);
        Some(Game { board, snake, paused: false, cheat_count: 0, counter: FIRST_TICK })
    }

    pub fn board(&self) -> (r: &Board)
        ensures
            *r == self.board_state(),
    {
        &self.board
    }

    pub fn snake(&self) -> (r: &Snake)
        ensures
            *r == self.snake_state(),
    {
        &self.snake
    }

    pub fn is_paused(&self) -> (r: bool)
        ensures
            r == self.paused(),
    {
        self.paused
    }

    pub fn cheat_count(&self) -> (r: u32)
        ensures
            r == self.cheats(),
    {
        self.cheat_count
    }

    pub fn counter(&self) -> (r: u32)
        ensures
            r == self.ticks(),
    {
        self.counter
    }

    /// Flips the pause flag and returns its new value.
    pub fn toggle_pause(&mut self) -> (paused: bool)
        ensures
            paused == !old(self).paused(),
            final(self).paused() == paused,
            final(self).board_state() == old(self).board_state(),
            final(self).snake_state() == old(self).snake_state(),
            final(self).cheats() == old(self).cheats(),
            final(self).ticks() == old(self).ticks(),
    {
        self.paused = !self.paused;
        self.paused
    }

    /// Carries out one command; see `command_done`.
    pub fn run_command(&mut self, command: Command) -> (r: Result<Effect, Command>)
        requires
            old(self).wf(),
        ensures
            final(self).wf(),
            command_done(*old(self), *final(self), command, r),
    {
        match command {
            Command::Ignore => Ok(Effect::Nothing),
            Command::Up | Command::Down | Command::Left | Command::Right => {
                let mut reaction: Option<CheatReaction> = None;
                if self.paused {
                    if self.cheat_count < u32::MAX {
                        self.cheat_count = self.cheat_count + 1;
                    }
                    let answer = please_dont_cheat(self.cheat_count);
                    if answer == CheatReaction::Kill {
                        return Ok(Effect::Exit(EXIT_CHEATER));
                    }
                    reaction = Some(answer);
                }
                match command_to_direction(&command) {
                    Some(d) => self.snake.change_direction(&d),
                    None => {},
                }
                Ok(Effect::Steered(reaction))
            },
            Command::Quit => Ok(Effect::Exit(EXIT_QUIT)),
            Command::Pause => {
                if self.toggle_pause() {
                    Ok(Effect::Paused)
                } else {
                    Ok(Effect::Resumed)
                }
            },
            _ => Err(command),
        }
    }

    /// Moves the snake one step and returns the cell it left.
    pub fn tick(&mut self) -> (vacated: Glyph)
        requires
            old(self).wf(),
        ensures
            final(self).wf(),
            old(self).snake_state().stepped_to(final(self).snake_state()),
            vacated.row == old(self).snake_state().head_row(),
            vacated.col == old(self).snake_state().head_col(),
            vacated.ch == '.',
            final(self).board_state() == old(self).board_state(),
            final(self).paused() == old(self).paused(),
            final(self).cheats() == old(self).cheats(),
            final(self).ticks() == old(self).ticks(),
    {
        self.snake.keep_moving_one_step()
    }

    /// One tick of play: carries out `command`; unless it ends the game,
    /// moves the snake one step (also while paused) and advances the tick
    /// counter, which wraps round; play stops when the counter comes to 1.
    pub fn play_tick(&mut self, command: Command) -> (t: TickReport)
        requires
            old(self).wf(),
        ensures
            final(self).wf(),
            exists|h: Game| {
                &&& command_done(*old(self), h, command, t.effect)
                &&& if t.effect matches Ok(Effect::Exit(_)) {
                    &&& *final(self) == h
                    &&& t.vacated is None
                    &&& !t.keep_playing
                } else {
                    &&& h.wf()
                    &&& h.snake_state().stepped_to(final(self).snake_state())
                    &&& t.vacated matches Some(v)
                    &&& v.row == h.snake_state().head_row()
                    &&& v.col == h.snake_state().head_col()
                    &&& v.ch == '.'
                    &&& final(self).board_state() == h.board_state()
                    &&& final(self).paused() == h.paused()
                    &&& final(self).cheats() == h.cheats()
                    &&& final(self).ticks() == (if h.ticks() == u32::MAX { 0 } else { h.ticks() + 1 })
                    &&& t.keep_playing == (final(self).ticks() != 1)
                }
            },
    {
        let effect = self.run_command(command);
        let ghost h = *self;
        if let Ok(Effect::Exit(_)) = effect {
            return TickReport { effect, vacated: None, keep_playing: false };
        }
        let vacated = self.tick();
        self.counter = self.counter.wrapping_add(1);
        let keep_playing = self.counter != 1;
        TickReport { effect, vacated: Some(vacated), keep_playing }
    }
}

} // verus!
