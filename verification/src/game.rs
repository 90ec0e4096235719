//! The deterministic game simulation: a 25 x 50 torus board, two players,
//! and the title / countdown / main / death / paused state machine.
use vstd::prelude::*;

verus! {

/// Number of board rows.
pub const ROWS: usize = 25;
/// Number of board columns.
pub const COLS: usize = 50;
/// Ticks between two countdown steps.
pub const COUNTDOWN_QUANTUM: usize = 10;
/// Ticks the death screen is held before the next round starts.
pub const DEATH_DWELL: usize = 20;

/// A facing direction of a player.
#[derive(Clone, Copy, Debug, PartialEq, Eq, Structural)]
pub enum Direction {
    Up,
    Down,
    Left,
    Right,
}

/// One cell of the board: empty, or part of a player's trail.
#[derive(Clone, Copy, Debug, PartialEq, Eq, Structural)]
pub enum Cell {
    Empty,
    Red,
    Blue,
}

/// The state of the game's state machine.
#[derive(Clone, Copy, Debug, PartialEq, Eq, Structural)]
pub enum State {
    Title,
    Countdown(usize),
    Main,
    Death,
    Paused,
}

/// A position on the board.
#[derive(Clone, Copy, Debug, PartialEq, Eq, Structural)]
pub struct Position {
    pub row: usize,
    pub col: usize,
}

/// A position is on the board: row in [0, 24], col in [0, 49].
pub open spec fn pos_wf(p: Position) -> bool {
    p.row < ROWS && p.col < COLS
}

/// One player.
pub struct Player {
    pub alive: bool,
    pub score: u32,
    pub direction: Direction,
    pub pos: Position,
}

/// The board: a fixed 25 x 50 grid of cells.
pub struct Board {
    grid: Vec<Vec<Cell>>,
}

/// The whole game: board, the two players, elapsed ticks in the current
/// state, and the state itself.
pub struct Game {
    pub board: Board,
    pub blue: Player,
    pub red: Player,
    pub time: usize,
    pub state: State,
}

/// The mathematical model of a player: scores and coordinates as
/// unbounded integers.
pub struct PlayerModel {
    pub alive: bool,
    pub score: nat,
    pub direction: Direction,
    pub row: int,
    pub col: int,
}

/// The mathematical model of a whole game.
#[verifier::ext_equal]
pub struct GameModel {
    pub board: Seq<Seq<Cell>>,
    pub blue: PlayerModel,
    pub red: PlayerModel,
    pub time: nat,
    pub state: State,
}

impl View for Player {
    type V = PlayerModel;

    open spec fn view(&self) -> PlayerModel {
        PlayerModel {
            alive: self.alive,
            score: self.score as nat,
            direction: self.direction,
            row: self.pos.row as int,
            col: self.pos.col as int,
        }
    }
}

impl View for Board {
    type V = Seq<Seq<Cell>>;

    closed spec fn view(&self) -> Seq<Seq<Cell>> {
        self.grid@.map(|i: int, row: Vec<Cell>| row@)
    }
}

impl View for Game {
    type V = GameModel;

    open spec fn view(&self) -> GameModel {
        GameModel {
            board: self.board@,
            blue: self.blue@,
            red: self.red@,
            time: self.time as nat,
            state: self.state,
        }
    }
}

impl PlayerModel {
    /// The player's position is on the board.
    pub open spec fn wf(self) -> bool {
        0 <= self.row < ROWS && 0 <= self.col < COLS
    }
}

/// The board model is a full 25 x 50 grid.
pub open spec fn board_model_wf(b: Seq<Seq<Cell>>) -> bool {
    b.len() == ROWS && forall|r: int| 0 <= r < ROWS ==> (#[trigger] b[r]).len() == COLS
}

impl GameModel {
    /// The game invariant: the board is a full grid, both players are on
    /// the board, a countdown never exceeds 3, and the death screen is
    /// only shown while at least one player is dead.
    pub open spec fn wf(self) -> bool {
        &&& board_model_wf(self.board)
        &&& self.blue.wf()
        &&& self.red.wf()
        &&& (self.state matches State::Countdown(n) ==> n <= 3)
        &&& (self.state == State::Death ==> !(self.blue.alive && self.red.alive))
        &&& ((self.state matches State::Countdown(_)) || self.state == State::Main
            || self.state == State::Paused ==> self.blue.alive && self.red.alive)
    }
}

impl Board {
    /// The board is a full 25 x 50 grid.
    pub open spec fn wf(&self) -> bool {
        board_model_wf(self@)
    }
}

impl Game {
    /// The game invariant, stated over the model.
    pub open spec fn wf(&self) -> bool {
        self@.wf()
    }
}

/// The row reached by one step in direction `d` from row `row`
/// (wraparound, torus topology).
pub open spec fn step_row(row: int, d: Direction) -> int {
    match d {
        Direction::Up => (row + (ROWS - 1)) % (ROWS as int),
        Direction::Down => (row + 1) % (ROWS as int),
        Direction::Left => row,
        Direction::Right => row,
    }
}

/// The column reached by one step in direction `d` from column `col`
/// (wraparound, torus topology).
pub open spec fn step_col(col: int, d: Direction) -> int {
    match d {
        Direction::Up => col,
        Direction::Down => col,
        Direction::Left => (col + (COLS - 1)) % (COLS as int),
        Direction::Right => (col + 1) % (COLS as int),
    }
}

/// A player after one movement step in its facing direction.
pub open spec fn spec_step(p: PlayerModel) -> PlayerModel {
    PlayerModel { row: step_row(p.row, p.direction), col: step_col(p.col, p.direction), ..p }
}

/// The board with the cell at (row, col) replaced by `c`.
pub open spec fn board_put(b: Seq<Seq<Cell>>, row: int, col: int, c: Cell) -> Seq<Seq<Cell>> {
    b.update(row, b[row].update(col, c))
}

/// The all-empty board.
pub open spec fn empty_board() -> Seq<Seq<Cell>> {
    Seq::new(ROWS as nat, |r: int| Seq::new(COLS as nat, |c: int| Cell::Empty))
}

/// Blue's spawn state, with the score carried over.
pub open spec fn blue_spawn(score: nat) -> PlayerModel {
    PlayerModel { alive: true, score, direction: Direction::Right, row: 12, col: 16 }
}

/// Red's spawn state, with the score carried over.
pub open spec fn red_spawn(score: nat) -> PlayerModel {
    PlayerModel { alive: true, score, direction: Direction::Left, row: 12, col: 33 }
}

/// The game after a round reset: board cleared, both players back at
/// their spawn position, direction and aliveness; scores, time and state
/// untouched.
pub open spec fn spec_reset(g: GameModel) -> GameModel {
    GameModel {
        board: empty_board(),
        blue: blue_spawn(g.blue.score),
        red: red_spawn(g.red.score),
        ..g
    }
}

/// One `Main`-state simulation step, applied after the tick counter has
/// already been advanced. In this order: stamp both players' current
/// cells, move both players one step, collide blue against the walls,
/// collide red against the walls, collide the players head-on (which can
/// add a second point on top of a wall collision in the same tick), and
/// enter `Death` if anyone died.
pub open spec fn spec_main_step(g: GameModel) -> GameModel {
    let stamped = board_put(
        board_put(g.board, g.blue.row, g.blue.col, Cell::Blue),
        g.red.row,
        g.red.col,
        Cell::Red,
    );
    let bp = spec_step(g.blue);
    let rp = spec_step(g.red);
    let blue_wall = stamped[bp.row][bp.col] != Cell::Empty;
    let red_wall = stamped[rp.row][rp.col] != Cell::Empty;
    let head_on = bp.row == rp.row && bp.col == rp.col;
    let blue2 = PlayerModel {
        alive: if blue_wall || head_on { false } else { bp.alive },
        score: bp.score + (if red_wall { 1nat } else { 0nat }) + (if head_on { 1nat } else { 0nat }),
        ..bp
    };
    let red2 = PlayerModel {
        alive: if red_wall || head_on { false } else { rp.alive },
        score: rp.score + (if blue_wall { 1nat } else { 0nat }) + (if head_on { 1nat } else { 0nat }),
        ..rp
    };
    let over = !(blue2.alive && red2.alive);
    GameModel {
        board: stamped,
        blue: blue2,
        red: red2,
        time: if over { 0nat } else { g.time },
        state: if over { State::Death } else { State::Main },
    }
}

/// The game after one timer tick.
pub open spec fn spec_tick(g: GameModel) -> GameModel {
    let t = GameModel { time: g.time + 1, ..g };
    match g.state {
        State::Title => t,
        State::Countdown(n) => {
            if t.time % (COUNTDOWN_QUANTUM as nat) == 0 {
                if n == 0 {
                    GameModel { state: State::Main, time: 0, ..t }
                } else {
                    GameModel { state: State::Countdown((n - 1) as usize), ..t }
                }
            } else {
                t
            }
        },
        State::Main => spec_main_step(t),
        State::Death => {
            if t.time >= DEATH_DWELL {
                GameModel { state: State::Countdown(3), time: 0, ..spec_reset(t) }
            } else {
                t
            }
        },
        State::Paused => t,
    }
}

/// The game after the start command: from `Title`, reset the round and
/// begin `Countdown(3)`; a no-op anywhere else.
pub open spec fn spec_start(g: GameModel) -> GameModel {
    if g.state == State::Title {
        GameModel { state: State::Countdown(3), time: 0, ..spec_reset(g) }
    } else {
        g
    }
}

/// The game after the pause command: toggles between `Main` and
/// `Paused`; a no-op anywhere else.
pub open spec fn spec_pause(g: GameModel) -> GameModel {
    if g.state == State::Main {
        GameModel { state: State::Paused, time: 0, ..g }
    } else if g.state == State::Paused {
        GameModel { state: State::Main, time: 0, ..g }
    } else {
        g
    }
}

/// The game after the quit command: from `Paused`, back to `Title` with
/// both scores reset to 0; a no-op anywhere else.
pub open spec fn spec_quit(g: GameModel) -> GameModel {
    if g.state == State::Paused {
        GameModel {
            blue: PlayerModel { score: 0, ..g.blue },
            red: PlayerModel { score: 0, ..g.red },
            state: State::Title,
            time: 0,
            ..g
        }
    } else {
        g
    }
}

/// The game after a direction command for one player (`red` selects
/// which): only effective during `Main`; a no-op anywhere else.
pub open spec fn spec_input(g: GameModel, red: bool, d: Direction) -> GameModel {
    if g.state == State::Main {
        if red {
            GameModel { red: PlayerModel { direction: d, ..g.red }, ..g }
        } else {
            GameModel { blue: PlayerModel { direction: d, ..g.blue }, ..g }
        }
    } else {
        g
    }
}

/// A collision happens on this `Main` tick: after the walls have grown,
/// one of the two players steps into a non-empty cell, or both step onto
/// the same cell.
pub open spec fn spec_collision(g: GameModel) -> bool {
    let stamped = board_put(
        board_put(g.board, g.blue.row, g.blue.col, Cell::Blue),
        g.red.row,
        g.red.col,
        Cell::Red,
    );
    let bp = spec_step(g.blue);
    let rp = spec_step(g.red);
    ||| stamped[bp.row][bp.col] != Cell::Empty
    ||| stamped[rp.row][rp.col] != Cell::Empty
    ||| bp.row == rp.row && bp.col == rp.col
}

/// The initial game: title screen, empty board, both players at their
/// spawn with score 0.
pub open spec fn spec_new_game() -> GameModel {
    GameModel {
        board: empty_board(),
        blue: blue_spawn(0),
        red: red_spawn(0),
        time: 0,
        state: State::Title,
    }
}

impl Board {
    /// A fresh, all-empty board.
    pub fn new() -> (b: Board)
        ensures
            b@ == empty_board(),
            b.wf(),
    {
        let mut grid: Vec<Vec<Cell>> = Vec::new();
        let mut r: usize = 0;
        while r < ROWS
            invariant
                r <= ROWS,
                grid@.len() == r,
                forall|i: int| 0 <= i < r ==> (#[trigger] grid@[i])@ == Seq::new(
                    COLS as nat,
                    |c: int| Cell::Empty,
                ),
            decreases ROWS - r,
        {
            let mut row: Vec<Cell> = Vec::new();
            let mut c: usize = 0;
            while c < COLS
                invariant
                    c <= COLS,
                    row@.len() == c,
                    forall|j: int| 0 <= j < c ==> row@[j] == Cell::Empty,
                decreases COLS - c,
            {
                row.push(Cell::Empty);
                c += 1;
            }
            proof {
                assert(row@ =~= Seq::new(COLS as nat, |c: int| Cell::Empty));
            }
            grid.push(row);
            r += 1;
        }
        let b = Board { grid };
        proof {
            assert(b@ =~~= empty_board());
        }
        b
    }

    /// The cell at position `p`.
    pub fn cell(&self, p: Position) -> (c: Cell)
        requires
            self.wf(),
            pos_wf(p),
        ensures
            c == self@[p.row as int][p.col as int],
    {
        self.grid[p.row][p.col]
    }

    /// Replace the cell at position `p` by `c`.
    pub fn set_cell(&mut self, p: Position, c: Cell)
        requires
            old(self).wf(),
            pos_wf(p),
        ensures
            final(self)@ == board_put(old(self)@, p.row as int, p.col as int, c),
            final(self).wf(),
    {
        let ghost b0 = *self;
        proof {
            assert(self.grid@.len() == self@.len());
            assert(self.grid@[p.row as int]@ == self@[p.row as int]);
        }
        self.grid[p.row][p.col] = c;
        proof {
            assert(self@ =~~= board_put(b0@, p.row as int, p.col as int, c));
        }
    }
}

impl Player {
    /// A live player with score 0 at the given position, facing `direction`.
    pub fn new(pos: Position, direction: Direction) -> (p: Player)
        ensures
            p.alive == true,
            p.score == 0,
            p.direction == direction,
            p.pos == pos,
    {
        Player { alive: true, score: 0, direction, pos }
    }

    /// Move one cell in the facing direction, wrapping around the board
    /// edges (torus).
    pub fn step(&mut self)
        requires
            pos_wf(old(self).pos),
        ensures
            final(self)@ == spec_step(old(self)@),
            pos_wf(final(self).pos),
            final(self).alive == old(self).alive,
            final(self).score == old(self).score,
            final(self).direction == old(self).direction,
    {
        match self.direction {
            Direction::Up => self.pos.row = (self.pos.row + (ROWS - 1)) % ROWS,
            Direction::Down => self.pos.row = (self.pos.row + 1) % ROWS,
            Direction::Left => self.pos.col = (self.pos.col + (COLS - 1)) % COLS,
            Direction::Right => self.pos.col = (self.pos.col + 1) % COLS,
        }
    }
}

impl Game {
    /// The initial game: title screen, empty board, both players at
    /// their spawn with score 0.
    pub fn new() -> (g: Game)
        ensures
            g@ == spec_new_game(),
            g.wf(),
    {
        let g = Game {
            board: Board::new(),
            blue: Player::new(Position { row: 12, col: 16 }, Direction::Right),
            red: Player::new(Position { row: 12, col: 33 }, Direction::Left),
            time: 0,
            state: State::Title,
        };
        proof {
            assert(g@ =~~= spec_new_game());
        }
        g
    }

    /// Clear the board and put both players back at their spawn,
    /// keeping their scores. Time and state are untouched.
    fn clear_board(&mut self)
        ensures
            final(self)@ == spec_reset(old(self)@),
    {
        let ghost g0 = *self;

        self.board = Board::new();

        self.blue.alive = true;
        self.blue.direction = Direction::Right;
        self.blue.pos = Position { row: 12, col: 16 };

        self.red.alive = true;
        self.red.direction = Direction::Left;
        self.red.pos = Position { row: 12, col: 33 };

        proof {
            assert(self@ =~~= spec_reset(g0@));
        }
    }

    /// Enter `state`, resetting the tick counter of the new state.
    fn set_state(&mut self, state: State)
        ensures
            *final(self) == (Game { state, time: 0, ..*old(self) }),
    {
        self.state = state;
        self.time = 0;
    }

    /// Advance the simulation by one timer tick.
    pub fn tick(&mut self)
        requires
            old(self).wf(),
            old(self).time < usize::MAX,
            old(self).blue.score <= u32::MAX - 2,
            old(self).red.score <= u32::MAX - 2,
        ensures
            final(self)@ == spec_tick(old(self)@),
            final(self).wf(),
    {
        let ghost g0 = *self;

        self.time += 1;

        match self.state {
            State::Title => {
                // Do nothing.
            },
            State::Countdown(n) => {
                if self.time % COUNTDOWN_QUANTUM == 0 {
                    if n == 0 {
                        self.set_state(State::Main);
                    } else {
                        self.state = State::Countdown(n - 1);
                    }
                }
            },
            State::Main => {
                // Grow the walls.
                self.board.set_cell(self.blue.pos, Cell::Blue);
                self.board.set_cell(self.red.pos, Cell::Red);

                // Move the players.
                self.blue.step();
                self.red.step();

                // Collide blue against the walls.
                if self.board.cell(self.blue.pos) != Cell::Empty {
                    self.blue.alive = false;
                    self.red.score += 1;
                }

                // Collide red against the walls.
                if self.board.cell(self.red.pos) != Cell::Empty {
                    self.red.alive = false;
                    self.blue.score += 1;
                }

                // Collide blue against red head-on.
                if self.red.pos == self.blue.pos {
                    self.blue.alive = false;
                    self.blue.score += 1;
                    self.red.alive = false;
                    self.red.score += 1;
                }

                // Go to death if at least one of them is dead.
                if !(self.blue.alive && self.red.alive) {
                    self.set_state(State::Death);
                }
            },
            State::Death => {
                if self.time >= DEATH_DWELL {
                    self.clear_board();
                    self.set_state(State::Countdown(3));
                }
            },
            State::Paused => {
                // Do nothing.
            },
        }

        proof {
            assert(self@ =~~= spec_tick(g0@));
        }
    }

    /// Press an arrow key: steer one player (`red` selects which).
    /// Only effective during `Main`.
    pub fn input(&mut self, red: bool, d: Direction)
        requires
            old(self).wf(),
        ensures
            final(self)@ == spec_input(old(self)@, red, d),
            final(self).wf(),
    {
        let ghost g0 = *self;
        if self.state != State::Main {
            return ;
        }
        if red {
            self.red.direction = d;
        } else {
            self.blue.direction = d;
        }
        proof {
            assert(self@ =~~= spec_input(g0@, red, d));
        }
    }

    /// Press the start button: from `Title`, begin a round. Only
    /// effective on the title screen.
    pub fn start(&mut self)
        requires
            old(self).wf(),
        ensures
            final(self)@ == spec_start(old(self)@),
            final(self).wf(),
    {
        let ghost g0 = *self;
        if self.state != State::Title {
            return ;
        }
        self.clear_board();
        self.set_state(State::Countdown(3));
        proof {
            assert(self@ =~~= spec_start(g0@));
        }
    }

    /// Press the pause button: toggle between `Main` and `Paused`.
    pub fn pause(&mut self)
        requires
            old(self).wf(),
        ensures
            final(self)@ == spec_pause(old(self)@),
            final(self).wf(),
    {
        let ghost g0 = *self;
        if self.state == State::Main {
            self.set_state(State::Paused);
        } else if self.state == State::Paused {
            self.set_state(State::Main);
        }
        proof {
            assert(self@ =~~= spec_pause(g0@));
        }
    }

    /// Press the quit button: from `Paused`, back to the title screen
    /// with both scores reset to 0.
    pub fn quit(&mut self)
        requires
            old(self).wf(),
        ensures
            final(self)@ == spec_quit(old(self)@),
            final(self).wf(),
    {
        let ghost g0 = *self;
        if let State::Paused = self.state {
            self.red.score = 0;
            self.blue.score = 0;
            self.set_state(State::Title);
        }
        proof {
            assert(self@ =~~= spec_quit(g0@));
        }
    }
}

/// LAW (torus invariant): one tick of a well-formed game yields a
/// well-formed game; in particular both players' positions stay on the
/// board, row in [0, 24] and col in [0, 49], whatever the tick did.
pub proof fn lemma_tick_preserves_wf(g: GameModel)
    requires
        g.wf(),
    ensures
        spec_tick(g).wf(),
        0 <= spec_tick(g).blue.row < ROWS,
        0 <= spec_tick(g).blue.col < COLS,
        0 <= spec_tick(g).red.row < ROWS,
        0 <= spec_tick(g).red.col < COLS,
{
}

/// LAW (score monotonicity): a tick never decreases a score, and no
/// command changes a score, except quit from `Paused`, which resets both
/// scores to 0 and is the only score reset there is.
pub proof fn lemma_scores_monotone(g: GameModel, red: bool, d: Direction)
    ensures
        spec_tick(g).blue.score >= g.blue.score,
        spec_tick(g).red.score >= g.red.score,
        spec_start(g).blue.score == g.blue.score,
        spec_start(g).red.score == g.red.score,
        spec_pause(g).blue.score == g.blue.score,
        spec_pause(g).red.score == g.red.score,
        spec_input(g, red, d).blue.score == g.blue.score,
        spec_input(g, red, d).red.score == g.red.score,
        g.state != State::Paused ==> spec_quit(g) == g,
        g.state == State::Paused ==> spec_quit(g).blue.score == 0 && spec_quit(g).red.score == 0,
{
}

/// LAW (transition table): the state machine moves exactly as follows.
/// `Title --start--> Countdown(3)` with the round reset and scores kept;
/// `Countdown(n > 0)` steps to `Countdown(n - 1)` every 10th tick;
/// `Countdown(0)` steps to `Main` on the 10th tick; `Main` stays `Main`
/// without a collision and goes to `Death` on any collision; `Death`
/// holds 20 ticks, then goes to `Countdown(3)` with the round reset and
/// scores kept; pause toggles `Main` and `Paused`; quit goes from
/// `Paused` to `Title` with both scores reset to 0. Ticks change no
/// state in `Title` or `Paused`.
pub proof fn lemma_transition_table(g: GameModel)
    requires
        g.wf(),
    ensures
        g.state == State::Title ==> spec_tick(g) == (GameModel { time: g.time + 1, ..g }),
        g.state == State::Paused ==> spec_tick(g) == (GameModel { time: g.time + 1, ..g }),
        g.state == State::Title ==> spec_start(g) == (GameModel {
            state: State::Countdown(3),
            time: 0,
            board: empty_board(),
            blue: blue_spawn(g.blue.score),
            red: red_spawn(g.red.score),
        }),
        (g.state matches State::Countdown(_)) && (g.time + 1) % 10 != 0 ==> spec_tick(g)
            == (GameModel { time: g.time + 1, ..g }),
        g.state matches State::Countdown(n) ==> (n > 0 && (g.time + 1) % 10 == 0 ==> spec_tick(g)
            == (GameModel { state: State::Countdown((n - 1) as usize), time: g.time + 1, ..g })),
        g.state == State::Countdown(0) && (g.time + 1) % 10 == 0 ==> spec_tick(g) == (GameModel {
            state: State::Main,
            time: 0,
            ..g
        }),
        g.state == State::Main ==> spec_tick(g).state == (if spec_collision(g) {
            State::Death
        } else {
            State::Main
        }),
        g.state == State::Death && g.time + 1 < DEATH_DWELL ==> spec_tick(g) == (GameModel {
            time: g.time + 1,
            ..g
        }),
        g.state == State::Death && g.time + 1 >= DEATH_DWELL ==> spec_tick(g) == (GameModel {
            state: State::Countdown(3),
            time: 0,
            board: empty_board(),
            blue: blue_spawn(g.blue.score),
            red: red_spawn(g.red.score),
        }),
        g.state == State::Main ==> spec_pause(g) == (GameModel {
            state: State::Paused,
            time: 0,
            ..g
        }),
        g.state == State::Paused ==> spec_pause(g) == (GameModel {
            state: State::Main,
            time: 0,
            ..g
        }),
        g.state == State::Paused ==> spec_quit(g) == (GameModel {
            state: State::Title,
            time: 0,
            blue: PlayerModel { score: 0, ..g.blue },
            red: PlayerModel { score: 0, ..g.red },
            ..g
        }),
{
}

/// LAW (illegal commands are no-ops): start outside `Title`, quit
/// outside `Paused`, a direction input outside `Main`, and pause outside
/// `Main` and `Paused` leave the game exactly as it was.
pub proof fn lemma_illegal_commands_are_no_ops(g: GameModel, red: bool, d: Direction)
    ensures
        g.state != State::Title ==> spec_start(g) == g,
        g.state != State::Paused ==> spec_quit(g) == g,
        g.state != State::Main ==> spec_input(g, red, d) == g,
        g.state != State::Main && g.state != State::Paused ==> spec_pause(g) == g,
{
}

} // verus!
