//! The rendering protocol: a pure projection of the game state onto a
//! 25 x 80 character screen of glyph/attribute words. Copying the
//! result into the memory-mapped framebuffer is left to the caller, as
//! are the fixed full-screen text blocks whose contents are opaque
//! here.
use vstd::prelude::*;

use crate::game::Cell;
use crate::game::Game;
use crate::game::GameModel;
use crate::game::Position;
use crate::game::State;
use crate::game::COLS;
use crate::game::ROWS;

verus! {

/// Screen height in character cells.
pub const SCREEN_ROWS: usize = 25;
/// Screen width in character cells.
pub const SCREEN_COLS: usize = 80;

/// White-on-black text attribute.
pub const WHITE: u16 = 0x0F00;
/// Blue-background attribute.
pub const BLUE: u16 = 0x0100;
/// Red-background attribute.
pub const RED: u16 = 0x0400;

/// A 25 x 80 screen of glyph/attribute words, the model of the
/// memory-mapped framebuffer.
pub struct Screen {
    cells: Vec<Vec<u16>>,
}

impl View for Screen {
    type V = Seq<Seq<u16>>;

    closed spec fn view(&self) -> Seq<Seq<u16>> {
        self.cells@.map(|i: int, row: Vec<u16>| row@)
    }
}

impl Screen {
    /// The screen is a full 25 x 80 grid.
    pub open spec fn wf(&self) -> bool {
        self@.len() == SCREEN_ROWS && forall|r: int|
            0 <= r < SCREEN_ROWS ==> (#[trigger] self@[r]).len() == SCREEN_COLS
    }

    /// A blank screen, every cell zero.
    pub fn new() -> (s: Screen)
        ensures
            s.wf(),
            forall|y: int, x: int|
                0 <= y < SCREEN_ROWS && 0 <= x < SCREEN_COLS ==> s@[y][x] == 0u16,
    {
        let mut cells: Vec<Vec<u16>> = Vec::new();
        let mut y: usize = 0;
        while y < SCREEN_ROWS
            invariant
                y <= SCREEN_ROWS,
                cells@.len() == y,
                forall|i: int| 0 <= i < y ==> (#[trigger] cells@[i])@ == Seq::new(
                    SCREEN_COLS as nat,
                    |x: int| 0u16,
                ),
            decreases SCREEN_ROWS - y,
        {
            let mut row: Vec<u16> = Vec::new();
            let mut x: usize = 0;
            while x < SCREEN_COLS
                invariant
                    x <= SCREEN_COLS,
                    row@.len() == x,
                    forall|j: int| 0 <= j < x ==> row@[j] == 0u16,
                decreases SCREEN_COLS - x,
            {
                row.push(0);
                x += 1;
            }
            proof {
                assert(row@ =~= Seq::new(SCREEN_COLS as nat, |x: int| 0u16));
            }
            cells.push(row);
            y += 1;
        }
        let s = Screen { cells };
        proof {
            assert forall|y: int, x: int|
                0 <= y < SCREEN_ROWS && 0 <= x < SCREEN_COLS implies s@[y][x] == 0u16 by {
                assert(s@[y] == s.cells@[y]@);
            }
        }
        s
    }

    /// The word at screen cell (y, x).
    pub fn cell(&self, y: usize, x: usize) -> (w: u16)
        requires
            self.wf(),
            y < SCREEN_ROWS,
            x < SCREEN_COLS,
        ensures
            w == self@[y as int][x as int],
    {
        proof {
            assert(self.cells@.len() == self@.len());
            assert(self.cells@[y as int]@ == self@[y as int]);
        }
        self.cells[y][x]
    }

    /// Write the word at screen cell (y, x).
    fn put(&mut self, y: usize, x: usize, w: u16)
        requires
            old(self).wf(),
            y < SCREEN_ROWS,
            x < SCREEN_COLS,
        ensures
            final(self)@ == old(self)@.update(y as int, old(self)@[y as int].update(x as int, w)),
            final(self).wf(),
    {
        let ghost s0 = *self;
        proof {
            assert(self.cells@.len() == self@.len());
            assert(self.cells@[y as int]@ == self@[y as int]);
        }
        self.cells[y][x] = w;
        proof {
            assert(self@ =~~= s0@.update(y as int, s0@[y as int].update(x as int, w)));
        }
    }
}

/// The glyph/attribute word a board cell is projected to.
pub open spec fn cell_glyph(c: Cell) -> u16 {
    match c {
        Cell::Blue => 0x1020,
        Cell::Red => 0x4020,
        Cell::Empty => 0x0220,
    }
}

/// What the `Main`-state projection leaves at screen cell (y, x) inside
/// the board area: the players' head positions in their own color (red
/// drawn over blue), every other cell by its trail color.
pub open spec fn spec_main_cell(g: GameModel, y: int, x: int) -> u16 {
    if y == g.red.row && x == g.red.col {
        0x4020
    } else if y == g.blue.row && x == g.blue.col {
        0x1020
    } else {
        cell_glyph(g.board[y][x])
    }
}

/// Project the `Main`-state board and player heads onto the left 25 x 50
/// area of the screen. The rest of the screen is untouched.
pub fn render_main(game: &Game, s: &mut Screen)
    requires
        game.wf(),
        old(s).wf(),
    ensures
        final(s).wf(),
        forall|y: int, x: int|
            0 <= y < ROWS && 0 <= x < COLS ==> final(s)@[y][x] == spec_main_cell(game@, y, x),
        forall|y: int, x: int|
            0 <= y < SCREEN_ROWS && COLS <= x < SCREEN_COLS ==> final(s)@[y][x] == old(s)@[y][x],
{
    let ghost s0 = *s;
    let mut y: usize = 0;
    while y < ROWS
        invariant
            game.wf(),
            s.wf(),
            y <= ROWS,
            forall|r: int, c: int|
                0 <= r < y && 0 <= c < COLS ==> s@[r][c] == cell_glyph(game@.board[r][c]),
            forall|r: int, c: int|
                0 <= r < SCREEN_ROWS && COLS <= c < SCREEN_COLS ==> s@[r][c] == s0@[r][c],
            forall|r: int, c: int|
                y <= r < SCREEN_ROWS && 0 <= c < COLS ==> s@[r][c] == s0@[r][c],
        decreases ROWS - y,
    {
        let mut x: usize = 0;
        while x < COLS
            invariant
                game.wf(),
                s.wf(),
                y < ROWS,
                x <= COLS,
                forall|r: int, c: int|
                    0 <= r < y && 0 <= c < COLS ==> s@[r][c] == cell_glyph(game@.board[r][c]),
                forall|c: int| 0 <= c < x ==> s@[y as int][c] == cell_glyph(game@.board[y as int][c]),
                forall|r: int, c: int|
                    0 <= r < SCREEN_ROWS && COLS <= c < SCREEN_COLS ==> s@[r][c] == s0@[r][c],
                forall|r: int, c: int|
                    y < r < SCREEN_ROWS && 0 <= c < COLS ==> s@[r][c] == s0@[r][c],
                forall|c: int| x <= c < COLS ==> s@[y as int][c] == s0@[y as int][c],
            decreases COLS - x,
        {
            let w = match game.board.cell(Position { row: y, col: x }) {
                Cell::Blue => 0x1020,
                Cell::Red => 0x4020,
                Cell::Empty => 0x0220,
            };
            s.put(y, x, w);
            x += 1;
        }
        y += 1;
    }

    // Overlay the heads: blue first, red over it.
    s.put(game.blue.pos.row, game.blue.pos.col, 0x1020);
    s.put(game.red.pos.row, game.red.pos.col, 0x4020);
}

/// Which full-screen block (or the live board) a state is shown as.
#[derive(Clone, Copy, Debug, PartialEq, Eq, Structural)]
pub enum ScreenKind {
    /// The live board: render with `render_main`.
    Board,
    Title,
    Zero,
    One,
    Two,
    Three,
    Paused,
    Tie,
    Win,
}

/// The block and text color each state is shown as: the countdown digit
/// for `Countdown(n)`, and for `Death` the tie block in white when both
/// players died, else the win block in the surviving player's color.
pub open spec fn spec_select_screen(g: GameModel) -> (ScreenKind, u16) {
    match g.state {
        State::Title => (ScreenKind::Title, WHITE),
        State::Countdown(n) => (
            if n == 0 {
                ScreenKind::Zero
            } else if n == 1 {
                ScreenKind::One
            } else if n == 2 {
                ScreenKind::Two
            } else {
                ScreenKind::Three
            },
            WHITE,
        ),
        State::Main => (ScreenKind::Board, WHITE),
        State::Death => if !g.blue.alive && !g.red.alive {
            (ScreenKind::Tie, WHITE)
        } else if !g.blue.alive {
            (ScreenKind::Win, RED)
        } else {
            (ScreenKind::Win, BLUE)
        },
        State::Paused => (ScreenKind::Paused, WHITE),
    }
}

/// Pick the block and text color for the game's current state.
pub fn select_screen(game: &Game) -> (r: (ScreenKind, u16))
    requires
        game.wf(),
    ensures
        r == spec_select_screen(game@),
{
    match game.state {
        State::Title => (ScreenKind::Title, WHITE),
        State::Countdown(n) => (
            match n {
                0 => ScreenKind::Zero,
                1 => ScreenKind::One,
                2 => ScreenKind::Two,
                _ => ScreenKind::Three,
            },
            WHITE,
        ),
        State::Main => (ScreenKind::Board, WHITE),
        State::Death => match (game.blue.alive, game.red.alive) {
            (false, false) => (ScreenKind::Tie, WHITE),
            (false, true) => (ScreenKind::Win, RED),
            (true, _) => (ScreenKind::Win, BLUE),
        },
        State::Paused => (ScreenKind::Paused, WHITE),
    }
}

/// The cursor position after the bytes of `text` have been printed
/// starting at (y0, x0): a newline moves to the start of the next line,
/// any other byte advances one column.
pub open spec fn spec_cursor(text: Seq<u8>, y0: int, x0: int) -> (int, int)
    decreases text.len(),
{
    if text.len() == 0 {
        (y0, x0)
    } else {
        let p = spec_cursor(text.drop_last(), y0, x0);
        if text.last() == 10 {
            (p.0 + 1, x0)
        } else {
            (p.0, p.1 + 1)
        }
    }
}

/// The screen after the bytes of `text` have been printed in `color`
/// starting at (y0, x0): every non-newline byte is written, or-ed with
/// the color attribute, at the cursor position it is reached at.
pub open spec fn spec_print(
    scr: Seq<Seq<u16>>,
    color: u16,
    y0: int,
    x0: int,
    text: Seq<u8>,
) -> Seq<Seq<u16>>
    decreases text.len(),
{
    if text.len() == 0 {
        scr
    } else {
        let prev = spec_print(scr, color, y0, x0, text.drop_last());
        let p = spec_cursor(text.drop_last(), y0, x0);
        if text.last() == 10 {
            prev
        } else {
            prev.update(p.0, prev[p.0].update(p.1, color | text.last() as u16))
        }
    }
}

/// Every non-newline byte of `text` is printed inside the screen.
pub open spec fn print_fits(text: Seq<u8>, y0: int, x0: int) -> bool {
    forall|i: int|
        0 <= i < text.len() && text[i] != 10 ==> {
            0 <= (#[trigger] spec_cursor(text.take(i), y0, x0)).0 < SCREEN_ROWS
                && 0 <= spec_cursor(text.take(i), y0, x0).1 < SCREEN_COLS
        }
}

/// Print the bytes of `text` in `color` onto the screen, starting at
/// (y0, x0): a newline starts the next line at column x0, any other
/// byte is written at the cursor and advances it one column.
pub fn print(s: &mut Screen, color: u16, y0: usize, x0: usize, text: &[u8])
    requires
        old(s).wf(),
        print_fits(text@, y0 as int, x0 as int),
        y0 + text@.len() < usize::MAX,
        x0 + text@.len() < usize::MAX,
    ensures
        final(s).wf(),
        final(s)@ == spec_print(old(s)@, color, y0 as int, x0 as int, text@),
{
    let ghost s0 = *s;
    let mut y = y0;
    let mut x = x0;
    let mut i: usize = 0;
    while i < text.len()
        invariant
            s.wf(),
            i <= text@.len(),
            y0 + text@.len() < usize::MAX,
            x0 + text@.len() < usize::MAX,
            y <= y0 + i,
            x <= x0 + i,
            print_fits(text@, y0 as int, x0 as int),
            (y as int, x as int) == spec_cursor(text@.take(i as int), y0 as int, x0 as int),
            s@ == spec_print(s0@, color, y0 as int, x0 as int, text@.take(i as int)),
        decreases text@.len() - i,
    {
        let c = text[i];
        proof {
            assert(text@.take(i + 1).drop_last() =~= text@.take(i as int));
            assert(text@.take(i + 1).last() == text@[i as int]);
        }
        if c == 10 {
            y += 1;
            x = x0;
        } else {
            s.put(y, x, color | c as u16);
            x += 1;
        }
        i += 1;
    }
    proof {
        assert(text@.take(text@.len() as int) =~= text@);
    }
}

/// 10 to the power k.
pub open spec fn pow10(k: nat) -> nat
    decreases k,
{
    if k == 0 {
        1
    } else {
        10 * pow10((k - 1) as nat)
    }
}

/// How many decimal digits n is written with (one digit for 0).
pub open spec fn num_digits(n: nat) -> nat
    decreases n,
{
    if n < 10 {
        1
    } else {
        1 + num_digits(n / 10)
    }
}

/// The k-th decimal digit of n, counting from the least significant.
pub open spec fn digit_at(n: nat, k: nat) -> nat {
    (n / pow10(k)) % 10
}

proof fn lemma_pow10_pos(k: nat)
    ensures
        pow10(k) >= 1,
    decreases k,
{
    if k > 0 {
        lemma_pow10_pos((k - 1) as nat);
    }
}

/// Dividing away one more power of ten divides the quotient by ten.
proof fn lemma_div_pow10_succ(n: nat, k: nat)
    ensures
        n / pow10(k) / 10 == n / pow10(k + 1),
{
    lemma_pow10_pos(k);
    vstd::arithmetic::div_mod::lemma_div_denominator(n as int, pow10(k) as int, 10);
    assert(pow10(k + 1) == pow10(k) * 10);
}

/// For n >= 1, n / 10^k == 0 exactly when n has at most k digits.
proof fn lemma_digits_vs_pow10(n: nat, k: nat)
    requires
        n >= 1,
    ensures
        (n / pow10(k) == 0) <==> (num_digits(n) <= k),
    decreases k,
{
    lemma_pow10_pos(k);
    if k == 0 {
        vstd::arithmetic::div_mod::lemma_div_basics(n as int);
    } else {
        lemma_pow10_pos((k - 1) as nat);
        vstd::arithmetic::div_mod::lemma_div_denominator(
            n as int,
            10,
            pow10((k - 1) as nat) as int,
        );
        assert(pow10(k) == 10 * pow10((k - 1) as nat));
        assert(n / pow10(k) == n / 10 / pow10((k - 1) as nat));
        if n < 10 {
            vstd::arithmetic::div_mod::lemma_basic_div_specific_divisor(10);
            assert(n / 10 == 0);
            vstd::arithmetic::div_mod::lemma_div_basics(pow10((k - 1) as nat) as int);
        } else {
            lemma_digits_vs_pow10(n / 10, (k - 1) as nat);
        }
    }
}

/// A u32 has at most ten decimal digits.
proof fn lemma_u32_digits(n: u32)
    ensures
        num_digits(n as nat) <= 10,
{
    if n >= 1 {
        reveal_with_fuel(pow10, 12);
        assert(pow10(10) == 10000000000);
        vstd::arithmetic::div_mod::lemma_basic_div_specific_divisor(10000000000);
        assert(n as nat / pow10(10) == 0);
        lemma_digits_vs_pow10(n as nat, 10);
    }
}

/// Render `score` as a right-aligned decimal numeral ending at column
/// `x` of row `y`: its digits in white on black, least significant at
/// column x, and blanks filling the rest of a fixed field of ten
/// columns leftward. The rest of the screen is untouched.
pub fn print_score(s: &mut Screen, y: usize, x: usize, score: u32)
    requires
        old(s).wf(),
        y < SCREEN_ROWS,
        10 <= x < SCREEN_COLS,
    ensures
        final(s).wf(),
        forall|r: int| 0 <= r < SCREEN_ROWS && r != y ==> final(s)@[r] == old(s)@[r],
        forall|c: int|
            0 <= c < SCREEN_COLS && !(x - 10 < c <= x) ==> final(s)@[y as int][c] == old(
                s,
            )@[y as int][c],
        forall|c: int|
            x - num_digits(score as nat) < c <= x ==> #[trigger] final(s)@[y as int][c] == (WHITE
                + 0x30 + digit_at(score as nat, (x - c) as nat)) as u16,
        forall|c: int|
            x - 10 < c <= x - num_digits(score as nat) ==> #[trigger] final(s)@[y as int][c] == (
            WHITE + 0x20) as u16,
{
    let ghost s0 = *s;
    let ghost nd = num_digits(score as nat);
    proof {
        lemma_u32_digits(score);
    }
    let start = x - 10;
    let mut xx = x;

    if score == 0 {
        s.put(y, xx, WHITE + 0x30);
        xx -= 1;
        proof {
            assert(num_digits(0nat) == 1);
            assert(pow10(0nat) == 1);
            assert(digit_at(0nat, 0nat) == 0);
        }
    } else {
        let mut rem = score;
        let ghost mut k: nat = 0;
        proof {
            assert(pow10(0nat) == 1);
            vstd::arithmetic::div_mod::lemma_div_basics(score as int);
        }
        while rem != 0
            invariant
                s.wf(),
                y < SCREEN_ROWS,
                10 <= x < SCREEN_COLS,
                score >= 1,
                nd == num_digits(score as nat),
                nd <= 10,
                k <= nd,
                rem as nat == score as nat / pow10(k),
                xx as int == x - k,
                forall|c: int|
                    x - k < c <= x ==> #[trigger] s@[y as int][c] == (WHITE + 0x30 + digit_at(
                        score as nat,
                        (x - c) as nat,
                    )) as u16,
                forall|r: int| 0 <= r < SCREEN_ROWS && r != y ==> s@[r] == s0@[r],
                forall|c: int|
                    0 <= c < SCREEN_COLS && !(x - k < c <= x) ==> s@[y as int][c] == s0@[y as int][c],
            decreases rem,
        {
            proof {
                lemma_digits_vs_pow10(score as nat, k);
            }
            let d = (rem % 10) as u16;
            s.put(y, xx, WHITE + 0x30 + d);
            xx -= 1;
            rem = rem / 10;
            proof {
                lemma_div_pow10_succ(score as nat, k);
                k = k + 1;
            }
        }
        proof {
            lemma_digits_vs_pow10(score as nat, k);
            assert(k == nd);
        }
    }

    while xx != start
        invariant
            s.wf(),
            y < SCREEN_ROWS,
            10 <= x < SCREEN_COLS,
            start == x - 10,
            nd == num_digits(score as nat),
            1 <= nd <= 10,
            x - 10 <= xx <= x - nd,
            forall|c: int|
                x - nd < c <= x ==> #[trigger] s@[y as int][c] == (WHITE + 0x30 + digit_at(
                    score as nat,
                    (x - c) as nat,
                )) as u16,
            forall|c: int| xx < c <= x - nd ==> #[trigger] s@[y as int][c] == (WHITE + 0x20) as u16,
            forall|r: int| 0 <= r < SCREEN_ROWS && r != y ==> s@[r] == s0@[r],
            forall|c: int|
                0 <= c < SCREEN_COLS && !(xx < c <= x) ==> s@[y as int][c] == s0@[y as int][c],
        decreases xx - start,
    {
        s.put(y, xx, WHITE + 0x20);
        xx -= 1;
    }
}

} // verus!
