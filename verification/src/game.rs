use vstd::prelude::*;

verus! {

/// Number of grid cells along the horizontal axis.
pub const GRID_X_SIZE: i32 = 30;
/// Number of grid cells along the vertical axis.
pub const GRID_Y_SIZE: i32 = 30;
/// Lowest valid coordinate on either axis.
pub const GRID_ZERO: i32 = 0;

/// Coarse mode of the game: a tick advances the snake only while `Playing`.
/// `GameOver` is terminal until an explicit reset.
#[derive(Debug, PartialEq, Eq, Structural)]
pub enum GameState {
    Playing,
    Paused,
    GameOver,
}

/// Heading of the snake; decides the unit delta applied to the head each
/// tick.
#[derive(Debug, PartialEq, Eq, Structural)]
pub enum PlayerDirection {
    Up,
    Down,
    Left,
    Right,
}

/// A grid cell, as a pair of coordinates.
#[derive(Copy, Clone, Debug, PartialEq, Eq, Structural)]
pub struct Point(pub i32, pub i32);

/// The direction geometrically opposite to `d`.
pub open spec fn opposite(d: PlayerDirection) -> PlayerDirection {
    match d {
        PlayerDirection::Up => PlayerDirection::Down,
        PlayerDirection::Down => PlayerDirection::Up,
        PlayerDirection::Left => PlayerDirection::Right,
        PlayerDirection::Right => PlayerDirection::Left,
    }
}

/// Horizontal component of the unit displacement for `d`.
pub open spec fn delta_x(d: PlayerDirection) -> int {
    match d {
        PlayerDirection::Up => 0,
        PlayerDirection::Down => 0,
        PlayerDirection::Left => -1,
        PlayerDirection::Right => 1,
    }
}

/// Vertical component of the unit displacement for `d`; the vertical axis
/// grows downward.
pub open spec fn delta_y(d: PlayerDirection) -> int {
    match d {
        PlayerDirection::Up => -1,
        PlayerDirection::Down => 1,
        PlayerDirection::Left => 0,
        PlayerDirection::Right => 0,
    }
}

/// Whether the cell with coordinates `(x, y)` lies on the grid.
pub open spec fn cell_in_bounds(x: int, y: int) -> bool {
    &&& GRID_ZERO as int <= x < GRID_X_SIZE as int
    &&& GRID_ZERO as int <= y < GRID_Y_SIZE as int
}

/// Whether the cell `p` lies on the grid.
pub open spec fn point_in_bounds(p: Point) -> bool {
    cell_in_bounds(p.0 as int, p.1 as int)
}

/// The fixed starting body: three cells in a row, head at (3, 1).
pub open spec fn initial_body() -> Seq<Point> {
    seq![Point(3, 1), Point(2, 1), Point(1, 1)]
}

/// The fixed starting food cell.
pub open spec fn initial_food() -> Point {
    Point(3, 3)
}

/// The authoritative game state: the snake's body (head first), its heading,
/// the food cell, the phase, and the pseudo-random source used to respawn
/// food.
pub struct GameContext {
    pub player_position: Vec<Point>,
    pub player_direction: PlayerDirection,
    pub food: Point,
    pub state: GameState,
    pub random_number: rand::rngs::ThreadRng,
}

/// Everything a renderer could see is the same in both states.
pub open spec fn unchanged(pre: GameContext, post: GameContext) -> bool {
    &&& post.player_position@ == pre.player_position@
    &&& post.player_direction == pre.player_direction
    &&& post.food == pre.food
    &&& post.state == pre.state
}

/// How a direction command for `d` relates the state before to the state
/// after: the heading changes exactly when the turn is allowed, and nothing
/// else moves.
pub open spec fn set_direction_rel(
    pre: GameContext,
    d: PlayerDirection,
    post: GameContext,
) -> bool {
    &&& post.player_direction == (if pre.turn_allowed(d) {
        d
    } else {
        pre.player_direction
    })
    &&& post.player_position@ == pre.player_position@
    &&& post.food == pre.food
    &&& post.state == pre.state
}

/// How one tick relates the state before (`pre`) to the state after (`post`).
/// Food respawn draws from a random source, so after a meal the relation pins
/// everything except which in-bounds cell the new food landed on.
pub open spec fn tick_rel(pre: GameContext, post: GameContext) -> bool {
    if !(pre.state is Playing) {
        unchanged(pre, post)
    } else if pre.next_blocked() {
        &&& post.state is GameOver
        &&& post.player_position@ == pre.player_position@
        &&& post.food == pre.food
        &&& post.player_direction == pre.player_direction
    } else {
        &&& post.player_position@ == seq![pre.next_head()] + (if pre.next_eats() {
            pre.player_position@
        } else {
            pre.player_position@.drop_last()
        })
        &&& if pre.next_eats() {
            point_in_bounds(post.food)
        } else {
            post.food == pre.food
        }
        &&& post.player_direction == pre.player_direction
        &&& post.state is Playing
    }
}

impl GameContext {
    /// The snake's body as a sequence of cells, head first.
    pub open spec fn body(self) -> Seq<Point> {
        self.player_position@
    }

    /// The snake's head cell.
    pub open spec fn head(self) -> Point
        recommends
            self.body().len() >= 1,
    {
        self.body()[0]
    }

    /// Well-formed game: the body is never empty and every cell lies on the
    /// grid.
    pub open spec fn wf(self) -> bool {
        &&& self.body().len() >= 1
        &&& forall|i: int|
            0 <= i < self.body().len() ==> point_in_bounds(#[trigger] self.body()[i])
    }

    /// Horizontal coordinate of the cell the head would move into this tick.
    pub open spec fn next_head_x(self) -> int {
        self.head().0 + delta_x(self.player_direction)
    }

    /// Vertical coordinate of the cell the head would move into this tick.
    pub open spec fn next_head_y(self) -> int {
        self.head().1 + delta_y(self.player_direction)
    }

    /// The cell the head would move into this tick.
    pub open spec fn next_head(self) -> Point
        recommends
            cell_in_bounds(self.next_head_x(), self.next_head_y()),
    {
        Point(self.next_head_x() as i32, self.next_head_y() as i32)
    }

    /// Whether the next head cell is already taken by a strictly interior
    /// body cell. The head cannot be stepped on in one move, and the tail
    /// cell vacates this very tick, so moving onto the current tail is legal
    /// motion, not a self-collision.
    pub open spec fn hits_body(self) -> bool {
        exists|i: int|
            1 <= i < self.body().len() - 1 && (#[trigger] self.body()[i]).0 as int
                == self.next_head_x() && self.body()[i].1 as int == self.next_head_y()
    }

    /// Whether this tick's move is illegal: off the grid or into the body.
    pub open spec fn next_blocked(self) -> bool {
        !cell_in_bounds(self.next_head_x(), self.next_head_y()) || self.hits_body()
    }

    /// Whether this tick's move lands the head on the food.
    pub open spec fn next_eats(self) -> bool {
        self.next_head_x() == self.food.0 as int && self.next_head_y() == self.food.1 as int
    }

    /// Whether a command to head in `d` is obeyed: the geometric reverse is
    /// refused while more than one segment exists, since the head would step
    /// straight into the neck.
    pub open spec fn turn_allowed(self, d: PlayerDirection) -> bool {
        !(d == opposite(self.player_direction) && self.body().len() > 1)
    }

    /// Builds the initial game: the fixed starting body, heading `Right`,
    /// phase `Paused`, food at its fixed starting cell.
    pub fn new() -> (r: GameContext)
        ensures
            r.player_position@ == initial_body(),
            r.player_direction == PlayerDirection::Right,
            r.state == GameState::Paused,
            r.food == initial_food(),
            r.wf(),
    {
        let ctx = GameContext {
            player_position: vec![Point(3, 1), Point(2, 1), Point(1, 1)],
            player_direction: PlayerDirection::Right,
            state: GameState::Paused,
            food: Point(3, 3),
            random_number: rand::thread_rng(),
        };
        proof {
            assert(ctx.player_position@ =~= initial_body());
        }
        ctx
    }

    /// Points the snake toward `d`. The reverse of the current heading is
    /// refused while the body has more than one segment; any other command
    /// takes effect on the next tick.
    pub fn set_direction(&mut self, d: PlayerDirection)
        ensures
            set_direction_rel(*old(self), d, *final(self)),
    {
        let reversal = match (&self.player_direction, &d) {
            (PlayerDirection::Up, PlayerDirection::Down) => true,
            (PlayerDirection::Down, PlayerDirection::Up) => true,
            (PlayerDirection::Left, PlayerDirection::Right) => true,
            (PlayerDirection::Right, PlayerDirection::Left) => true,
            _ => false,
        };
        if !(reversal && self.player_position.len() > 1) {
            self.player_direction = d;
        }
    }

    /// Heads the snake upward unless that reverses the current heading.
    pub fn move_up(&mut self)
        ensures
            set_direction_rel(*old(self), PlayerDirection::Up, *final(self)),
    {
        self.set_direction(PlayerDirection::Up);
    }

    /// Heads the snake downward unless that reverses the current heading.
    pub fn move_down(&mut self)
        ensures
            set_direction_rel(*old(self), PlayerDirection::Down, *final(self)),
    {
        self.set_direction(PlayerDirection::Down);
    }

    /// Heads the snake rightward unless that reverses the current heading.
    pub fn move_right(&mut self)
        ensures
            set_direction_rel(*old(self), PlayerDirection::Right, *final(self)),
    {
        self.set_direction(PlayerDirection::Right);
    }

    /// Heads the snake leftward unless that reverses the current heading.
    pub fn move_left(&mut self)
        ensures
            set_direction_rel(*old(self), PlayerDirection::Left, *final(self)),
    {
        self.set_direction(PlayerDirection::Left);
    }

    /// Flips between `Playing` and `Paused`; once the game is over only a
    /// reset brings it back.
    pub fn toggle_pause(&mut self)
        ensures
            final(self).state == (match old(self).state {
                GameState::Playing => GameState::Paused,
                GameState::Paused => GameState::Playing,
                GameState::GameOver => GameState::GameOver,
            }),
            final(self).player_position@ == old(self).player_position@,
            final(self).player_direction == old(self).player_direction,
            final(self).food == old(self).food,
    {
        self.state = match self.state {
            GameState::Playing => GameState::Paused,
            GameState::Paused => GameState::Playing,
            GameState::GameOver => GameState::GameOver,
        };
    }

    /// Whether `p` is taken by a strictly interior body cell (the head and
    /// the tail cell excluded).
    fn hits_body_at(&self, p: Point) -> (r: bool)
        ensures
            r == exists|i: int|
                1 <= i < self.body().len() - 1 && (#[trigger] self.body()[i]) == p,
    {
        let n = self.player_position.len();
        if n < 3 {
            return false;
        }
        let mut i: usize = 1;
        let mut hit = false;
        while i < n - 1
            invariant
                n == self.body().len(),
                3 <= n,
                1 <= i <= n - 1,
                hit == exists|j: int|
                    1 <= j < i && j < self.body().len() - 1 && (#[trigger] self.body()[j]) == p,
            decreases n - i,
        {
            let cell = self.player_position[i];
            if cell == p {
                hit = true;
            }
            i = i + 1;
        }
        hit
    }

    /// Moves the food to a uniformly random cell on the grid; the snake and
    /// the phase are untouched. The new cell may lawfully lie under the
    /// snake's body.
    fn spawn_food(&mut self)
        ensures
            point_in_bounds(final(self).food),
            final(self).player_position@ == old(self).player_position@,
            final(self).player_direction == old(self).player_direction,
            final(self).state == old(self).state,
    {
        let x = crate::rng::gen_range_below(&mut self.random_number, GRID_X_SIZE);
        let y = crate::rng::gen_range_below(&mut self.random_number, GRID_Y_SIZE);
        self.food = Point(x, y);
    }

    /// Advances the game one step. While `Playing`, the head moves one cell
    /// in the current heading: stepping off the grid or into an interior
    /// body cell ends the game with nothing moved; landing on the food grows
    /// the body by one and respawns the food; otherwise the tail cell is
    /// vacated as the head advances. While `Paused` or `GameOver` nothing
    /// changes.
    pub fn next_tick(&mut self)
        requires
            old(self).state is Playing ==> old(self).body().len() >= 1 && point_in_bounds(
                old(self).head(),
            ),
        ensures
            tick_rel(*old(self), *final(self)),
            old(self).wf() ==> final(self).wf(),
    {
        match self.state {
            GameState::Paused | GameState::GameOver => {
                return;
            },
            GameState::Playing => {},
        }

        let head: Point = self.player_position[0];
        let next_head_position: Point = match self.player_direction {
            PlayerDirection::Up => Point(head.0, head.1 - 1),
            PlayerDirection::Down => Point(head.0, head.1 + 1),
            PlayerDirection::Right => Point(head.0 + 1, head.1),
            PlayerDirection::Left => Point(head.0 - 1, head.1),
        };
        if next_head_position.0 < GRID_ZERO || next_head_position.0 >= GRID_X_SIZE
            || next_head_position.1 < GRID_ZERO || next_head_position.1 >= GRID_Y_SIZE
            || self.hits_body_at(next_head_position) {
            self.state = GameState::GameOver;
            return;
        }

        if self.food != next_head_position {
            self.player_position.pop();
        } else {
            self.spawn_food();
        }

        self.player_position.insert(0, next_head_position);

        proof {
            if old(self).next_eats() {
                assert(self.player_position@ =~= seq![old(self).next_head()]
                    + old(self).player_position@);
            } else {
                assert(self.player_position@ =~= seq![old(self).next_head()] + old(
                    self,
                ).player_position@.drop_last());
            }
            if old(self).wf() {
                assert forall|i: int|
                    0 <= i < self.body().len() implies point_in_bounds(
                    #[trigger] self.body()[i],
                ) by {
                    if i > 0 {
                        assert(self.body()[i] == old(self).body()[i - 1]);
                    }
                }
            }
        }
    }

    /// Discards the current game and restores the initial configuration.
    pub fn reset(&mut self)
        ensures
            final(self).player_position@ == initial_body(),
            final(self).player_direction == PlayerDirection::Right,
            final(self).state == GameState::Paused,
            final(self).food == initial_food(),
            final(self).wf(),
    {
        *self = GameContext::new();
    }
}

} // verus!
