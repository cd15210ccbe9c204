//! The match: two snakes, one piece of food, a wrapping grid and a clock.

use rand::thread_rng;
use vstd::prelude::*;
use crate::cell::{cell_at, cell_of, Cell};
use crate::chance::gen_range;
use crate::direction::Direction;
use crate::snake::{Color, Snake, SnakeView};

verus! {

/// The colour of the first player's snake: green.
pub open spec fn spec_player_1_color() -> Color {
    Color { red: 0, green: 80, blue: 0, alpha: 100 }
}

/// Returns the colour of the first player's snake.
#[verifier::when_used_as_spec(spec_player_1_color)]
pub fn player_1_color() -> (c: Color)
    ensures
        c == spec_player_1_color(),
{
    Color { red: 0, green: 80, blue: 0, alpha: 100 }
}

/// The colour of the second player's snake: blue.
pub open spec fn spec_player_2_color() -> Color {
    Color { red: 0, green: 50, blue: 80, alpha: 100 }
}

/// Returns the colour of the second player's snake.
#[verifier::when_used_as_spec(spec_player_2_color)]
pub fn player_2_color() -> (c: Color)
    ensures
        c == spec_player_2_color(),
{
    Color { red: 0, green: 50, blue: 80, alpha: 100 }
}

/// The time between two autonomous steps, in microseconds.
pub const MOVING_PERIOD: u64 = 100_000;

/// The time a finished match stays on display before it restarts, in
/// microseconds.
pub const RESTART_TIME: u64 = 1_000_000;

/// How many cells are drawn at most in one search for a place for food.
pub const FOOD_DRAWS: u32 = 1024;

/// The largest grid bound a match accepts. It leaves room above it so that a
/// head that has run off the grid still has coordinates an `i32` can hold.
pub const MAX_SIDE: i32 = 2_147_483_642;

/// Which of the two snakes is meant.
#[derive(Clone, Copy, Debug, PartialEq, Eq, Structural)]
pub enum Players {
    PlayerOne,
    PlayerTwo,
}

/// A movement intent: a direction for one of the players.
#[derive(Clone, Copy, Debug, PartialEq, Eq, Structural)]
pub struct PlayerDirection {
    pub player: Players,
    pub direction: Direction,
}

impl PlayerDirection {
    /// Pairs a player with a direction.
    pub fn new(player: Players, direction: Direction) -> (r: PlayerDirection)
        ensures
            r == (PlayerDirection { player, direction }),
    {
        PlayerDirection { player, direction }
    }
}

/// A key of the keyboard, as far as the match tells keys apart.
#[derive(Clone, Copy, Debug, PartialEq, Eq, Structural)]
pub enum Key {
    Up,
    Down,
    Left,
    Right,
    W,
    A,
    S,
    D,
    /// Any key that steers neither snake.
    Other,
}

/// The intent a key stands for: the arrow keys steer the first player, the
/// keys W, A, S and D the second; no other key means anything.
pub open spec fn binding(key: Key) -> Option<PlayerDirection> {
    match key {
        Key::Up => Some(PlayerDirection { player: Players::PlayerOne, direction: Direction::Up }),
        Key::Down => Some(
            PlayerDirection { player: Players::PlayerOne, direction: Direction::Down },
        ),
        Key::Left => Some(
            PlayerDirection { player: Players::PlayerOne, direction: Direction::Left },
        ),
        Key::Right => Some(
            PlayerDirection { player: Players::PlayerOne, direction: Direction::Right },
        ),
        Key::W => Some(PlayerDirection { player: Players::PlayerTwo, direction: Direction::Up }),
        Key::S => Some(PlayerDirection { player: Players::PlayerTwo, direction: Direction::Down }),
        Key::A => Some(PlayerDirection { player: Players::PlayerTwo, direction: Direction::Left }),
        Key::D => Some(
            PlayerDirection { player: Players::PlayerTwo, direction: Direction::Right },
        ),
        Key::Other => None,
    }
}

/// How far `v` lies outside the range from 0 to `limit`; 0 if it lies inside.
pub open spec fn excess(v: int, limit: int) -> int {
    if v < 0 {
        -v
    } else if v > limit {
        v - limit
    } else {
        0
    }
}

/// Whether `c` is close enough to a grid that reaches from 0 to `width` and
/// from 0 to `height` for a head to be there: at most four cells off on one
/// axis, or at most three cells off on both.
///
/// The heads of a match never get further away, wherever on the grid the
/// match finds them to begin with.
pub open spec fn near(c: Cell, width: int, height: int) -> bool {
    let ex = excess(c.x, width);
    let ey = excess(c.y, height);
    ||| ex <= 3 && ey <= 3
    ||| ex == 0 && ey <= 4
    ||| ey == 0 && ex <= 4
}

/// Where a head at `c` is put back onto a grid that reaches from 0 to
/// `width` and from 0 to `height`. A coordinate below 0 moves to the far
/// edge and one above the far edge moves to 0. At most one coordinate is
/// corrected: a low `x` comes first, then a low `y`, a high `x`, a high `y`.
pub open spec fn wrap(c: Cell, width: int, height: int) -> Cell {
    if c.x < 0 {
        Cell { x: width, y: c.y }
    } else if c.y < 0 {
        Cell { x: c.x, y: height }
    } else if c.x > width {
        Cell { x: 0, y: c.y }
    } else if c.y > height {
        Cell { x: c.x, y: 0 }
    } else {
        c
    }
}

/// Whether `b` can lie next to `a` in a body, on the side of the head: `b` is
/// a neighbour of `a`, or what such a neighbour is wrapped to.
pub open spec fn follows(a: Cell, b: Cell, width: int, height: int) -> bool {
    ||| b == wrap(a.step(Direction::Up), width, height)
    ||| b == wrap(a.step(Direction::Down), width, height)
    ||| b == wrap(a.step(Direction::Left), width, height)
    ||| b == wrap(a.step(Direction::Right), width, height)
}

/// What a match is, mathematically.
#[verifier::ext_equal]
pub struct GameView {
    pub player_1: SnakeView,
    pub player_2: SnakeView,
    /// Whether there is food on the grid.
    pub food_exists: bool,
    /// Where the food lies, or lay last.
    pub food: Cell,
    /// The grid reaches from 0 to `width` horizontally, both included.
    pub width: int,
    /// The grid reaches from 0 to `height` vertically, both included.
    pub height: int,
    pub game_over: bool,
    /// Microseconds since the last intent that was not discarded, or since
    /// the match ended.
    pub waiting_time: int,
    /// Pieces of food eaten, by either player.
    pub score: int,
}

impl GameView {
    /// The snake of player `who`.
    pub open spec fn player(self, who: Players) -> SnakeView {
        match who {
            Players::PlayerOne => self.player_1,
            Players::PlayerTwo => self.player_2,
        }
    }

    /// The match with the snake of player `who` replaced by `snake`.
    pub open spec fn with_player(self, who: Players, snake: SnakeView) -> GameView {
        match who {
            Players::PlayerOne => GameView { player_1: snake, ..self },
            Players::PlayerTwo => GameView { player_2: snake, ..self },
        }
    }

    /// Whether `c` lies on the grid.
    pub open spec fn on_grid(self, c: Cell) -> bool {
        0 <= c.x <= self.width && 0 <= c.y <= self.height
    }

    /// Whether `c` lies in the interior of the grid, where food is laid:
    /// both coordinates are at least 1, `x` is below `width - 1` and `y` is
    /// below `height - 1`.
    pub open spec fn in_interior(self, c: Cell) -> bool {
        1 <= c.x < self.width - 1 && 1 <= c.y < self.height - 1
    }

    /// Whether the grid has an interior at all.
    pub open spec fn has_interior(self) -> bool {
        self.width >= 3 && self.height >= 3
    }

    /// Whether the first player's body covers some cell of the interior.
    pub open spec fn crowded(self) -> bool {
        exists|c: Cell| #[trigger] self.in_interior(c) && self.player_1.overlaps(c)
    }

    /// Whether `c` is close enough to the grid for a head.
    pub open spec fn near_grid(self, c: Cell) -> bool {
        near(c, self.width, self.height)
    }

    /// The invariant of a match: the grid bounds are in range, both snakes
    /// have a head, and both heads are near the grid.
    pub open spec fn wf(self) -> bool {
        &&& 0 <= self.width <= MAX_SIDE
        &&& 0 <= self.height <= MAX_SIDE
        &&& self.player_1.wf()
        &&& self.player_2.wf()
        &&& self.near_grid(self.player_1.head())
        &&& self.near_grid(self.player_2.head())
    }

    /// Whether the body of player `who` hangs together: each cell behind
    /// the head is followed by a neighbour of its own, wrapped onto the
    /// grid, and the head lies one step along the heading from the cell
    /// behind it.
    pub open spec fn connected(self, who: Players) -> bool {
        let snake = self.player(who);
        let body = snake.body;
        &&& forall|i: int|
            0 <= i < body.len() - 2 ==> follows(
                #[trigger] body[i],
                body[i + 1],
                self.width,
                self.height,
            )
        &&& body.len() >= 2 ==> snake.head() == body[body.len() - 2].step(snake.heading)
    }

    /// The match as it starts on a grid with the given bounds.
    pub open spec fn fresh(width: int, height: int) -> GameView {
        GameView {
            player_1: SnakeView::fresh(Cell { x: 1, y: 1 }, player_1_color()),
            player_2: SnakeView::fresh(Cell { x: 3, y: 3 }, player_2_color()),
            food_exists: true,
            food: Cell { x: 6, y: 4 },
            width,
            height,
            game_over: false,
            waiting_time: 0,
            score: 0,
        }
    }

    /// The match as it starts with two given snakes: as a fresh match, but
    /// that the food is left out if the first snake covers its cell.
    pub open spec fn custom(
        width: int,
        height: int,
        player_1: SnakeView,
        player_2: SnakeView,
    ) -> GameView {
        GameView {
            player_1,
            player_2,
            food_exists: !player_1.overlaps(Cell { x: 6, y: 4 }),
            ..GameView::fresh(width, height)
        }
    }

    /// The match after a restart. The grid bounds and the score stay; all
    /// else is set to fixed values.
    pub open spec fn restarted(self) -> GameView {
        GameView {
            player_1: SnakeView::fresh(Cell { x: 2, y: 2 }, player_1_color()),
            player_2: SnakeView::fresh(Cell { x: 3, y: 3 }, player_2_color()),
            food_exists: true,
            food: Cell { x: 6, y: 4 },
            game_over: false,
            waiting_time: 0,
            ..self
        }
    }

    /// Whether player `who` survives a step along `intent`: the cell the
    /// head would reach, computed from the head as it stands, is not part of
    /// that player's body.
    pub open spec fn alive_after(self, who: Players, intent: Option<Direction>) -> bool {
        !self.player(who).overlaps(self.player(who).next_head(intent))
    }

    /// The match with the head of player `who` put back onto the grid.
    pub open spec fn head_wrapped(self, who: Players) -> GameView {
        let snake = self.player(who);
        self.with_player(who, snake.with_head(wrap(snake.head(), self.width, self.height)))
    }

    /// The match after player `who` has eaten, if the head lies on food:
    /// the score goes up by one, the food is gone and the snake is set to
    /// grow on its next step.
    pub open spec fn fed(self, who: Players) -> GameView {
        if self.food_exists && self.player(who).head() == self.food {
            GameView {
                score: self.score + 1,
                food_exists: false,
                ..self.with_player(who, self.player(who).with_growth())
            }
        } else {
            self
        }
    }

    /// The match after the intent `d` of player `who` has been applied.
    ///
    /// An intent that points against the heading is discarded. Otherwise,
    /// if the step would run the snake into itself the match ends, and if
    /// not, the head is first put back onto the grid, the step is taken from
    /// there and food under the new head is eaten. The clock is reset
    /// whenever the intent is not discarded.
    pub open spec fn applied(self, who: Players, d: Direction) -> GameView {
        if d == self.player(who).heading.opposite() {
            self
        } else if !self.alive_after(who, Some(d)) {
            GameView { game_over: true, waiting_time: 0, ..self }
        } else {
            let wrapped = self.head_wrapped(who);
            let stepped = wrapped.with_player(who, wrapped.player(who).moved(Some(d)));
            GameView { waiting_time: 0, ..stepped.fed(who) }
        }
    }

    /// The match after a key press. A finished match ignores keys, and so
    /// does a running one unless the key steers a snake.
    pub open spec fn key_applied(self, key: Key) -> GameView {
        if self.game_over {
            self
        } else {
            match binding(key) {
                Some(intent) => self.applied(intent.player, intent.direction),
                None => self,
            }
        }
    }

    /// The match with food laid at `c`.
    pub open spec fn with_food(self, c: Cell) -> GameView {
        GameView { food_exists: true, food: c, ..self }
    }

    /// Whether `after` is a possible outcome of a search for a place for
    /// new food. Either food has been laid on a cell of the interior that
    /// the first player's body does not cover, or nothing has changed. The
    /// search can only come back empty-handed if the first player's body
    /// covers some cell of the interior.
    pub open spec fn may_feed_to(self, after: GameView) -> bool {
        ||| {
            &&& after == self.with_food(after.food)
            &&& self.in_interior(after.food)
            &&& !self.player_1.overlaps(after.food)
        }
        ||| after == self && self.crowded()
    }

    /// The match after `delta` more microseconds on the clock. The clock
    /// stops at the largest value a `u64` can hold.
    pub open spec fn waited(self, delta: int) -> GameView {
        GameView {
            waiting_time: if self.waiting_time + delta > u64::MAX {
                u64::MAX as int
            } else {
                self.waiting_time + delta
            },
            ..self
        }
    }

    /// The match after both snakes have taken an autonomous step, the first
    /// player before the second, each along its own heading.
    pub open spec fn advanced(self) -> GameView {
        let first = self.applied(Players::PlayerOne, self.player_1.heading);
        first.applied(Players::PlayerTwo, first.player_2.heading)
    }

    /// The match after its autonomous steps, if the moving period has passed.
    pub open spec fn advanced_if_due(self) -> GameView {
        if self.waiting_time > MOVING_PERIOD {
            self.advanced()
        } else {
            self
        }
    }

    /// Whether `after` is a possible outcome of a tick of `delta`
    /// microseconds.
    ///
    /// A finished match restarts once the restart time has passed and only
    /// waits until then. A running match first looks for a place for food
    /// if there is none, which is the one step whose outcome is left open,
    /// and then takes its autonomous steps if they are due.
    pub open spec fn may_update_to(self, delta: int, after: GameView) -> bool {
        let waited = self.waited(delta);
        if self.game_over {
            after == if waited.waiting_time > RESTART_TIME {
                waited.restarted()
            } else {
                waited
            }
        } else if self.food_exists {
            after == waited.advanced_if_due()
        } else {
            exists|fed: GameView| #[trigger]
                waited.may_feed_to(fed) && after == fed.advanced_if_due()
        }
    }
}

/// A match in progress.
pub struct Game {
    player_1: Snake,
    player_2: Snake,
    food_exists: bool,
    food_x: i32,
    food_y: i32,
    width: i32,
    height: i32,
    game_over: bool,
    waiting_time: u64,
    score: i32,
}

impl View for Game {
    type V = GameView;

    closed spec fn view(&self) -> GameView {
        GameView {
            player_1: self.player_1@,
            player_2: self.player_2@,
            food_exists: self.food_exists,
            food: cell_at(self.food_x, self.food_y),
            width: self.width as int,
            height: self.height as int,
            game_over: self.game_over,
            waiting_time: self.waiting_time as int,
            score: self.score as int,
        }
    }
}

impl Game {
    /// Starts a match on a grid that reaches from 0 to `width` and from 0
    /// to `height`.
    ///
    /// The bounds must not be negative: on such a grid a head below 0 would
    /// never get back above it, and the other coordinate could then run on
    /// without limit.
    pub fn new(width: i32, height: i32) -> (g: Game)
        requires
            0 <= width <= MAX_SIDE,
            0 <= height <= MAX_SIDE,
        ensures
            g@ == GameView::fresh(width as int, height as int),
            g@.wf(),
    {
        Game {
            player_1: Snake::new(1, 1, player_1_color()),
            player_2: Snake::new(3, 3, player_2_color()),
            waiting_time: 0,
            food_exists: true,
            food_x: 6,
            food_y: 4,
            width,
            height,
            game_over: false,
            score: 0,
        }
    }

    /// Tells whether a head at `(x, y)` is near enough to the grid.
    fn is_near(x: i32, y: i32, width: i32, height: i32) -> (r: bool)
        requires
            0 <= width,
            0 <= height,
        ensures
            r == near(cell_at(x, y), width as int, height as int),
    {
        let ex: i64 = if x < 0 {
            -(x as i64)
        } else if x > width {
            x as i64 - width as i64
        } else {
            0
        };
        let ey: i64 = if y < 0 {
            -(y as i64)
        } else if y > height {
            y as i64 - height as i64
        } else {
            0
        };
        (ex <= 3 && ey <= 3) || (ex == 0 && ey <= 4) || (ey == 0 && ex <= 4)
    }

    /// Starts a match with the two given snakes in place of the usual ones.
    ///
    /// The match is made if and only if it would be well formed: the bounds
    /// are in range, both snakes have a head and both heads are near the
    /// grid. All else is as in a match made by `new`, but that the food is
    /// left out if the first snake covers its cell.
    pub fn with_players(width: i32, height: i32, player_1: Snake, player_2: Snake) -> (r: Option<
        Game,
    >)
        ensures
            r is Some <==> GameView::custom(width as int, height as int, player_1@, player_2@).wf(),
            r matches Some(g) ==> g@ == GameView::custom(
                width as int,
                height as int,
                player_1@,
                player_2@,
            ),
    {
        if width < 0 || width > MAX_SIDE || height < 0 || height > MAX_SIDE {
            return None;
        }
        if player_1.len() == 0 || player_2.len() == 0 {
            return None;
        }
        let (x1, y1) = player_1.head_position();
        let (x2, y2) = player_2.head_position();
        if !Self::is_near(x1, y1, width, height) || !Self::is_near(x2, y2, width, height) {
            return None;
        }
        let food_exists = !player_1.overlap_tail(6, 4);
        Some(
            Game {
                player_1,
                player_2,
                waiting_time: 0,
                food_exists,
                food_x: 6,
                food_y: 4,
                width,
                height,
                game_over: false,
                score: 0,
            },
        )
    }

    /// Looks up the intent that `key` stands for, if it stands for one.
    pub fn get_player_direction(&self, key: Key) -> (r: Option<PlayerDirection>)
        ensures
            r == binding(key),
    {
        let player = match key {
            Key::Up => Some(PlayerDirection::new(Players::PlayerOne, Direction::Up)),
            Key::Down => Some(PlayerDirection::new(Players::PlayerOne, Direction::Down)),
            Key::Left => Some(PlayerDirection::new(Players::PlayerOne, Direction::Left)),
            Key::Right => Some(PlayerDirection::new(Players::PlayerOne, Direction::Right)),
            Key::W => Some(PlayerDirection::new(Players::PlayerTwo, Direction::Up)),
            Key::S => Some(PlayerDirection::new(Players::PlayerTwo, Direction::Down)),
            Key::A => Some(PlayerDirection::new(Players::PlayerTwo, Direction::Left)),
            Key::D => Some(PlayerDirection::new(Players::PlayerTwo, Direction::Right)),
            _ => None,
        };
        player
    }

    /// Puts the head of `snake` back onto the grid if it has left it.
    fn wrap_head(snake: &mut Snake, width: i32, height: i32)
        requires
            old(snake)@.wf(),
        ensures
            final(snake)@ == old(snake)@.with_head(
                wrap(old(snake)@.head(), width as int, height as int),
            ),
            final(snake)@.wf(),
    {
        let (head_x, head_y): (i32, i32) = snake.head_position();
        if head_x < 0 {
            snake.overflow_switch(width, head_y);
        } else if head_y < 0 {
            snake.overflow_switch(head_x, height);
        } else if head_x > width {
            snake.overflow_switch(0, head_y);
        } else if head_y > height {
            snake.overflow_switch(head_x, 0);
        } else {
            assert(snake@.body.update(snake@.body.len() - 1, snake@.head()) =~= snake@.body);
        }
    }

    /// Puts the first player's head back onto the grid if it has left it.
    /// The answer is always `true`.
    pub fn check_overflow_snake_1(&mut self) -> (r: bool)
        requires
            old(self)@.wf(),
        ensures
            r,
            final(self)@ == old(self)@.head_wrapped(Players::PlayerOne),
            final(self)@.wf(),
    {
        Self::wrap_head(&mut self.player_1, self.width, self.height);
        true
    }

    /// Puts the second player's head back onto the grid if it has left it.
    /// The answer is always `true`.
    pub fn check_overflow_snake_2(&mut self) -> (r: bool)
        requires
            old(self)@.wf(),
        ensures
            r,
            final(self)@ == old(self)@.head_wrapped(Players::PlayerTwo),
            final(self)@.wf(),
    {
        Self::wrap_head(&mut self.player_2, self.width, self.height);
        true
    }

    /// Lets `snake` eat if its head lies on the food. Reports whether it ate.
    fn eat(snake: &mut Snake, food_exists: bool, food_x: i32, food_y: i32) -> (ate: bool)
        requires
            old(snake)@.wf(),
        ensures
            ate == (food_exists && old(snake)@.head() == cell_at(food_x, food_y)),
            final(snake)@ == if ate {
                old(snake)@.with_growth()
            } else {
                old(snake)@
            },
    {
        let (head_x, head_y): (i32, i32) = snake.head_position();
        if food_exists && food_x == head_x && food_y == head_y {
            snake.restore_tail();
            true
        } else {
            false
        }
    }

    /// Lets the first player eat if its head lies on the food.
    pub fn check_eating_1(&mut self)
        requires
            old(self)@.wf(),
            old(self)@.food_exists ==> old(self)@.score < i32::MAX,
        ensures
            final(self)@ == old(self)@.fed(Players::PlayerOne),
            final(self)@.wf(),
    {
        if Self::eat(&mut self.player_1, self.food_exists, self.food_x, self.food_y) {
            self.score = self.score + 1;
            self.food_exists = false;
        }
    }

    /// Lets the second player eat if its head lies on the food.
    pub fn check_eating_2(&mut self)
        requires
            old(self)@.wf(),
            old(self)@.food_exists ==> old(self)@.score < i32::MAX,
        ensures
            final(self)@ == old(self)@.fed(Players::PlayerTwo),
            final(self)@.wf(),
    {
        if Self::eat(&mut self.player_2, self.food_exists, self.food_x, self.food_y) {
            self.score = self.score + 1;
            self.food_exists = false;
        }
    }

    /// Tells whether `snake` can step along `dir` without running into
    /// itself.
    fn survives(snake: &Snake, dir: Option<Direction>) -> (r: bool)
        requires
            snake@.wf(),
            snake@.next_head(dir).fits(),
        ensures
            r == !snake@.overlaps(snake@.next_head(dir)),
    {
        let (next_x, next_y) = snake.next_head(dir);
        if snake.overlap_tail(next_x, next_y) {
            return false;
        }
        return true;
    }

    /// Tells whether the first player survives a step along `dir`.
    pub fn check_if_snake_alive_1(&self, dir: Option<Direction>) -> (r: bool)
        requires
            self@.wf(),
        ensures
            r == self@.alive_after(Players::PlayerOne, dir),
    {
        proof {
            self.heads_fit();
        }
        Self::survives(&self.player_1, dir)
    }

    /// Tells whether the second player survives a step along `dir`.
    pub fn check_if_snake_alive_2(&self, dir: Option<Direction>) -> (r: bool)
        requires
            self@.wf(),
        ensures
            r == self@.alive_after(Players::PlayerTwo, dir),
    {
        proof {
            self.heads_fit();
        }
        Self::survives(&self.player_2, dir)
    }

    /// In a well-formed match every cell next to a head, before or after the
    /// head is put back onto the grid, has coordinates an `i32` can hold.
    proof fn heads_fit(&self)
        requires
            self@.wf(),
        ensures
            forall|who: Players, d: Direction|
                (#[trigger] self@.player(who).head().step(d)).fits(),
            forall|who: Players, d: Direction|
                (#[trigger] wrap(self@.player(who).head(), self@.width, self@.height).step(
                    d,
                )).fits(),
    {
    }

    /// Applies a movement intent to the snake it names.
    ///
    /// An intent against the snake's heading changes nothing. Any other
    /// intent resets the clock; it ends the match if the step would run the
    /// snake into itself, and otherwise puts the head back onto the grid,
    /// takes the step and lets the snake eat.
    pub fn update_snake(&mut self, player_dir: PlayerDirection)
        requires
            old(self)@.wf(),
            old(self)@.food_exists ==> old(self)@.score < i32::MAX,
        ensures
            final(self)@ == old(self)@.applied(player_dir.player, player_dir.direction),
            final(self)@.wf(),
    {
        proof {
            self.heads_fit();
        }
        match player_dir.player {
            Players::PlayerOne => {
                if player_dir.direction != self.player_1.head_direction().opposite() {
                    if self.check_if_snake_alive_1(Some(player_dir.direction)) {
                        self.check_overflow_snake_1();
                        self.player_1.move_forward(Some(player_dir.direction));
                        self.check_eating_1();
                    } else {
                        self.game_over = true;
                    }
                    self.waiting_time = 0;
                }
            },
            Players::PlayerTwo => {
                if player_dir.direction != self.player_2.head_direction().opposite() {
                    if self.check_if_snake_alive_2(Some(player_dir.direction)) {
                        self.check_overflow_snake_2();
                        self.player_2.move_forward(Some(player_dir.direction));
                        self.check_eating_2();
                    } else {
                        self.game_over = true;
                    }
                    self.waiting_time = 0;
                }
            },
        }
    }

    /// Handles a key press: a finished match ignores it, a running match
    /// applies the intent the key stands for, if it stands for one.
    pub fn key_pressed(&mut self, key: Key)
        requires
            old(self)@.wf(),
            !old(self)@.game_over && old(self)@.food_exists ==> old(self)@.score < i32::MAX,
        ensures
            final(self)@ == old(self)@.key_applied(key),
            final(self)@.wf(),
    {
        if self.game_over {
            return;
        }
        let player_direction = self.get_player_direction(key);
        match player_direction {
            Some(dir) => self.update_snake(dir),
            None => {},
        }
    }

    /// Starts the match over on the same grid. The score is kept.
    pub fn restart(&mut self)
        requires
            old(self)@.wf(),
        ensures
            final(self)@ == old(self)@.restarted(),
            final(self)@.wf(),
    {
        self.player_1 = Snake::new(2, 2, player_1_color());
        self.player_2 = Snake::new(3, 3, player_2_color());
        self.waiting_time = 0;
        self.food_exists = true;
        self.food_x = 6;
        self.food_y = 4;
        self.game_over = false;
    }

    /// Lays food at `(x, y)` unless the first player's body covers that
    /// cell. Reports whether the food was laid.
    pub fn place_food(&mut self, x: i32, y: i32) -> (placed: bool)
        ensures
            placed == !old(self)@.player_1.overlaps(cell_at(x, y)),
            final(self)@ == if placed {
                old(self)@.with_food(cell_at(x, y))
            } else {
                old(self)@
            },
            placed ==> !final(self)@.player_1.overlaps(final(self)@.food),
    {
        if self.player_1.overlap_tail(x, y) {
            return false;
        }
        self.food_x = x;
        self.food_y = y;
        self.food_exists = true;
        true
    }

    /// Looks for a place for new food: draws cells of the interior at
    /// random until one is found that the first player's body does not
    /// cover, and lays the food there. The search gives up after
    /// `FOOD_DRAWS` draws and then leaves the match as it was; a match
    /// without food searches again on its next tick.
    ///
    /// Which cell the food comes to lie on is left to chance. The search
    /// succeeds whenever the first player's body covers no cell of the
    /// interior, since then the first draw is good.
    ///
    /// The grid must have an interior to draw from.
    pub fn add_food(&mut self)
        requires
            old(self)@.has_interior(),
        ensures
            old(self)@.may_feed_to(final(self)@),
            !old(self)@.crowded() ==> final(self)@.food_exists,
            !old(self)@.food_exists && final(self)@.food_exists ==> {
                &&& final(self)@.in_interior(final(self)@.food)
                &&& !final(self)@.player_1.overlaps(final(self)@.food)
            },
    {
        let mut rng = thread_rng();
        let mut draws: u32 = 0;
        while draws < FOOD_DRAWS
            invariant
                self@ == old(self)@,
                self@.has_interior(),
                draws > 0 ==> self@.crowded(),
            decreases FOOD_DRAWS - draws,
        {
            let new_x = gen_range(&mut rng, 1, self.width - 1);
            let new_y = gen_range(&mut rng, 1, self.height - 1);
            if self.place_food(new_x, new_y) {
                return;
            }
            assert(self@.in_interior(cell_at(new_x, new_y)));
            draws += 1;
        }
    }

    /// Advances the match by `delta_time` microseconds.
    ///
    /// A finished match restarts once it has been over for more than
    /// `RESTART_TIME`. A running match gets new food if it has none and,
    /// once more than `MOVING_PERIOD` has passed without an intent, moves
    /// both snakes one step along their headings.
    pub fn update(&mut self, delta_time: u64)
        requires
            old(self)@.wf(),
            !old(self)@.game_over ==> old(self)@.score < i32::MAX,
            !old(self)@.game_over && !old(self)@.food_exists ==> old(self)@.has_interior(),
        ensures
            old(self)@.may_update_to(delta_time as int, final(self)@),
            final(self)@.wf(),
    {
        self.waiting_time = self.waiting_time.saturating_add(delta_time);
        if self.game_over {
            if self.waiting_time > RESTART_TIME {
                self.restart();
            }
            return;
        }
        if !self.food_exists {
            self.add_food();
        }
        let ghost fed = self@;
        if self.waiting_time > MOVING_PERIOD {
            let first = PlayerDirection::new(Players::PlayerOne, self.player_1.head_direction());
            self.update_snake(first);
            let second = PlayerDirection::new(Players::PlayerTwo, self.player_2.head_direction());
            self.update_snake(second);
        }
        assert(!old(self)@.food_exists ==> old(self)@.waited(delta_time as int).may_feed_to(fed));
    }

    /// The first player's snake.
    pub fn player_1(&self) -> (r: &Snake)
        ensures
            r@ == self@.player_1,
    {
        &self.player_1
    }

    /// The second player's snake.
    pub fn player_2(&self) -> (r: &Snake)
        ensures
            r@ == self@.player_2,
    {
        &self.player_2
    }

    /// Whether there is food on the grid.
    pub fn food_exists(&self) -> (r: bool)
        ensures
            r == self@.food_exists,
    {
        self.food_exists
    }

    /// Where the food lies, or lay last.
    pub fn food_position(&self) -> (r: (i32, i32))
        ensures
            cell_of(r) == self@.food,
    {
        (self.food_x, self.food_y)
    }

    /// The horizontal grid bound.
    pub fn width(&self) -> (r: i32)
        ensures
            r == self@.width,
    {
        self.width
    }

    /// The vertical grid bound.
    pub fn height(&self) -> (r: i32)
        ensures
            r == self@.height,
    {
        self.height
    }

    /// Whether the match is over.
    pub fn game_over(&self) -> (r: bool)
        ensures
            r == self@.game_over,
    {
        self.game_over
    }

    /// Microseconds since the last intent that was not discarded, or since
    /// the match ended.
    pub fn waiting_time(&self) -> (r: u64)
        ensures
            r == self@.waiting_time,
    {
        self.waiting_time
    }

    /// Pieces of food eaten so far.
    pub fn score(&self) -> (r: i32)
        ensures
            r == self@.score,
    {
        self.score
    }
}

} // verus!
