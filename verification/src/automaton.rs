//! The life board that the pads can drive: a grid of cells that live or die
//! by the count of their eight neighbours. The grid has edges: a cell beyond
//! an edge is no neighbour of anything.

use crate::midi::{
    classification_of, classify, Brightness, Classification, Color, Colors, MidiIncomingMessage,
    Section,
};
use crate::panel::HandleMessageError;
use crate::utils::DeviceProfile;
use vstd::arithmetic::div_mod::lemma_fundamental_div_mod_converse;
use vstd::prelude::*;

verus! {

/// The board as a value: its cells row by row, whether it is running, and
/// whether a running board still takes toggles.
pub struct Board {
    pub width: nat,
    pub height: nat,
    pub cells: Seq<bool>,
    pub running: bool,
    pub toggle_while_running: bool,
}

impl Board {
    pub open spec fn wf(self) -> bool {
        self.cells.len() == self.width * self.height
    }

    pub open spec fn in_grid(self, x: int, y: int) -> bool {
        0 <= x < self.width && 0 <= y < self.height
    }

    /// Whether the cell at column `x`, row `y` is alive. No cell beyond the
    /// edges is.
    pub open spec fn alive(self, x: int, y: int) -> bool {
        self.in_grid(x, y) && self.cells[y * self.width + x]
    }

    pub open spec fn count(self, x: int, y: int) -> nat {
        if self.alive(x, y) {
            1
        } else {
            0
        }
    }

    /// How many of the eight cells around column `x`, row `y` are alive.
    pub open spec fn neighbors(self, x: int, y: int) -> nat {
        self.count(x - 1, y - 1) + self.count(x, y - 1) + self.count(x + 1, y - 1) + self.count(
            x - 1,
            y,
        ) + self.count(x + 1, y) + self.count(x - 1, y + 1) + self.count(x, y + 1) + self.count(
            x + 1,
            y + 1,
        )
    }

    /// Whether the cell is alive after a step: a live cell stays alive with
    /// two or three live neighbours, a dead one comes alive with three.
    pub open spec fn alive_next(self, x: int, y: int) -> bool {
        if self.alive(x, y) {
            self.neighbors(x, y) == 2 || self.neighbors(x, y) == 3
        } else {
            self.neighbors(x, y) == 3
        }
    }

    /// The board one step later.
    pub open spec fn step(self) -> Board {
        Board {
            cells: Seq::new(
                self.width * self.height,
                |i: int| self.alive_next(i % self.width as int, i / self.width as int),
            ),
            ..self
        }
    }

    /// The board with one cell flipped.
    pub open spec fn toggled(self, x: int, y: int) -> Board {
        Board {
            cells: self.cells.update(y * self.width + x, !self.cells[y * self.width + x]),
            ..self
        }
    }

    /// Whether the board takes a toggle in its present state.
    pub open spec fn takes_toggles(self) -> bool {
        !self.running || self.toggle_while_running
    }

    /// The board after a toggle of one cell has been offered to it.
    pub open spec fn received(self, x: int, y: int) -> Board {
        if self.takes_toggles() {
            self.toggled(x, y)
        } else {
            self
        }
    }

    /// The board after the loop has given it time: a step if it is running.
    pub open spec fn ticked(self) -> Board {
        if self.running {
            self.step()
        } else {
            self
        }
    }

    /// The board once started. Nothing stops it again.
    pub open spec fn started(self) -> Board {
        Board { running: true, ..self }
    }
}

/// The cell at column `x`, row `y` of a grid has its own place in the row by
/// row order, from which column and row can be read back.
pub proof fn lemma_cell_index(width: int, height: int, x: int, y: int)
    requires
        0 <= x < width,
        0 <= y < height,
    ensures
        0 <= y * width,
        0 <= y * width + x < width * height,
        (y * width + x) % width == x,
        (y * width + x) / width == y,
{
    assert(0 <= y * width) by (nonlinear_arith)
        requires
            0 <= y,
            0 <= width,
    ;
    assert(y * width + width <= height * width) by (nonlinear_arith)
        requires
            y + 1 <= height,
            0 <= width,
    ;
    assert(height * width == width * height) by (nonlinear_arith);
    assert(width * y == y * width) by (nonlinear_arith);
    lemma_fundamental_div_mod_converse(y * width + x, width, y, x);
}

/// A toggle changes the cell it names and no other, and a second toggle of
/// the same cell undoes the first.
pub proof fn lemma_toggle(board: Board, x: int, y: int)
    requires
        board.wf(),
        board.in_grid(x, y),
    ensures
        board.toggled(x, y).wf(),
        board.toggled(x, y).alive(x, y) == !board.alive(x, y),
        forall|ox: int, oy: int|
            (ox != x || oy != y) ==> #[trigger] board.toggled(x, y).alive(ox, oy) == board.alive(
                ox,
                oy,
            ),
        board.toggled(x, y).toggled(x, y) == board,
{
    let w = board.width as int;
    let h = board.height as int;
    lemma_cell_index(w, h, x, y);
    assert forall|ox: int, oy: int| (ox != x || oy != y) implies #[trigger] board.toggled(
        x,
        y,
    ).alive(ox, oy) == board.alive(ox, oy) by {
        if board.in_grid(ox, oy) {
            lemma_cell_index(w, h, ox, oy);
        }
    }
    assert(board.toggled(x, y).toggled(x, y).cells =~= board.cells);
}

/// What a toggle policy lets a running board do.
#[derive(Debug, Clone, Copy, PartialEq, Eq, Structural)]
pub enum TogglePolicy {
    /// Cells can be toggled whether the board runs or not.
    Always,
    /// Cells can be toggled only until the board is started.
    OnlyWhenStopped,
}

/// The colour that shows a cell: bright green for a live one, off for a
/// dead one.
pub open spec fn cell_color(alive: bool) -> Color {
    if alive {
        Color { color: Colors::Green, brightness: Brightness::High }
    } else {
        Color { color: Colors::Off, brightness: Brightness::Low }
    }
}

/// The board: a grid of cells, stopped until it is started.
pub struct Automaton {
    width: usize,
    height: usize,
    cells: Vec<bool>,
    running: bool,
    policy: TogglePolicy,
}

impl View for Automaton {
    type V = Board;

    closed spec fn view(&self) -> Board {
        Board {
            width: self.width as nat,
            height: self.height as nat,
            cells: self.cells@,
            running: self.running,
            toggle_while_running: self.policy == TogglePolicy::Always,
        }
    }
}

impl Automaton {
    /// Whether the board holds one cell for each place of its grid.
    pub open spec fn wf(&self) -> bool {
        self@.wf()
    }

    /// A stopped board of dead cells that takes toggles at any time, or
    /// `None` for a grid of more cells than can be counted.
    pub fn new(width: usize, height: usize) -> (made: Option<Automaton>)
        ensures
            made is Some <==> width * height <= usize::MAX,
            made matches Some(board) ==> {
                &&& board.wf()
                &&& board@.width == width
                &&& board@.height == height
                &&& !board@.running
                &&& board@.toggle_while_running
                &&& forall|i: int| 0 <= i < board@.cells.len() ==> !board@.cells[i]
            },
    {
        Automaton::with_policy(width, height, TogglePolicy::Always)
    }

    /// A stopped board of dead cells with a toggle policy of the caller's
    /// choice, or `None` for a grid of more cells than can be counted.
    pub fn with_policy(width: usize, height: usize, policy: TogglePolicy) -> (made: Option<
        Automaton,
    >)
        ensures
            made is Some <==> width * height <= usize::MAX,
            made matches Some(board) ==> {
                &&& board.wf()
                &&& board@.width == width
                &&& board@.height == height
                &&& !board@.running
                &&& board@.toggle_while_running == (policy == TogglePolicy::Always)
                &&& forall|i: int| 0 <= i < board@.cells.len() ==> !board@.cells[i]
            },
    {
        match width.checked_mul(height) {
            Some(count) => {
                let mut cells: Vec<bool> = Vec::new();
                let mut i: usize = 0;
                while i < count
                    invariant
                        i <= count,
                        cells@.len() == i,
                        forall|j: int| 0 <= j < i ==> !cells@[j],
                    decreases count - i,
                {
                    cells.push(false);
                    i += 1;
                }
                Some(Automaton { width, height, cells, running: false, policy })
            },
            None => None,
        }
    }

    pub fn width(&self) -> (width: usize)
        ensures
            width == self@.width,
    {
        self.width
    }

    pub fn height(&self) -> (height: usize)
        ensures
            height == self@.height,
    {
        self.height
    }

    pub fn is_running(&self) -> (running: bool)
        ensures
            running == self@.running,
    {
        self.running
    }

    /// Whether the cell at column `x`, row `y` is alive; no cell beyond the
    /// edges is.
    pub fn is_alive(&self, x: usize, y: usize) -> (alive: bool)
        requires
            self.wf(),
        ensures
            alive == self@.alive(x as int, y as int),
    {
        if x < self.width && y < self.height {
            let count: usize = self.cells.len();
            proof {
                lemma_cell_index(self.width as int, self.height as int, x as int, y as int);
                assert(y * self.width + x < count);
            }
            self.cells[y * self.width + x]
        } else {
            false
        }
    }

    /// Offers the board a toggle of the cell at column `x`, row `y`. The
    /// board flips that cell and no other, unless it is running under a
    /// policy that takes no toggles then.
    pub fn receive(&mut self, x: usize, y: usize)
        requires
            old(self).wf(),
            old(self)@.in_grid(x as int, y as int),
        ensures
            final(self).wf(),
            final(self)@ == old(self)@.received(x as int, y as int),
    {
        if self.running && self.policy == TogglePolicy::OnlyWhenStopped {
            return ;
        }
        let count: usize = self.cells.len();
        proof {
            lemma_cell_index(self.width as int, self.height as int, x as int, y as int);
            assert(y * self.width + x < count);
        }
        let index: usize = y * self.width + x;
        let flipped: bool = !self.cells[index];
        self.cells.set(index, flipped);
    }

    /// Sets the board running.
    pub fn start(&mut self)
        ensures
            final(self)@ == old(self)@.started(),
    {
        self.running = true;
    }

    /// How many of the eight cells around a cell of the grid are alive.
    pub fn count_neighbors(&self, x: usize, y: usize) -> (n: u8)
        requires
            self.wf(),
            self@.in_grid(x as int, y as int),
        ensures
            n == self@.neighbors(x as int, y as int),
    {
        let left: bool = x > 0;
        let right: bool = x + 1 < self.width;
        let up: bool = y > 0;
        let down: bool = y + 1 < self.height;
        let mut n: u8 = 0;
        if up && left && self.is_alive(x - 1, y - 1) {
            n += 1;
        }
        if up && self.is_alive(x, y - 1) {
            n += 1;
        }
        if up && right && self.is_alive(x + 1, y - 1) {
            n += 1;
        }
        if left && self.is_alive(x - 1, y) {
            n += 1;
        }
        if right && self.is_alive(x + 1, y) {
            n += 1;
        }
        if down && left && self.is_alive(x - 1, y + 1) {
            n += 1;
        }
        if down && self.is_alive(x, y + 1) {
            n += 1;
        }
        if down && right && self.is_alive(x + 1, y + 1) {
            n += 1;
        }
        n
    }

    /// Gives the board time: a running board moves one step, a stopped board
    /// stays as it is.
    pub fn tick(&mut self)
        requires
            old(self).wf(),
        ensures
            final(self).wf(),
            final(self)@ == old(self)@.ticked(),
    {
        if !self.running {
            return ;
        }
        let ghost before = self@;
        let width: usize = self.width;
        let height: usize = self.height;
        let mut next: Vec<bool> = Vec::new();
        let mut y: usize = 0;
        while y < height
            invariant
                self.wf(),
                self@ == before,
                width == self.width,
                height == self.height,
                y <= height,
                next@.len() == y * width,
                forall|i: int|
                    0 <= i < next@.len() ==> next@[i] == before.alive_next(
                        i % width as int,
                        i / width as int,
                    ),
            decreases height - y,
        {
            let mut x: usize = 0;
            while x < width
                invariant
                    self.wf(),
                    self@ == before,
                    width == self.width,
                    height == self.height,
                    y < height,
                    x <= width,
                    next@.len() == y * width + x,
                    forall|i: int|
                        0 <= i < next@.len() ==> next@[i] == before.alive_next(
                            i % width as int,
                            i / width as int,
                        ),
                decreases width - x,
            {
                proof {
                    lemma_cell_index(width as int, height as int, x as int, y as int);
                }
                let n: u8 = self.count_neighbors(x, y);
                let alive: bool = if self.is_alive(x, y) {
                    n == 2 || n == 3
                } else {
                    n == 3
                };
                next.push(alive);
                x += 1;
            }
            assert((y + 1) * width == y * width + width) by (nonlinear_arith);
            y += 1;
        }
        assert(next@.len() == width * height) by (nonlinear_arith)
            requires
                next@.len() == y * width,
                y == height,
        ;
        self.cells = next;
        assert(self@.cells =~= before.step().cells);
    }

    /// The colour of every cell, row by row.
    pub fn render(&self) -> (colors: Vec<Color>)
        requires
            self.wf(),
        ensures
            colors@.len() == self@.cells.len(),
            forall|i: int| 0 <= i < colors@.len() ==> colors@[i] == cell_color(self@.cells[i]),
    {
        let mut colors: Vec<Color> = Vec::new();
        let mut i: usize = 0;
        while i < self.cells.len()
            invariant
                i <= self.cells.len(),
                colors@.len() == i,
                forall|j: int| 0 <= j < i ==> colors@[j] == cell_color(self.cells@[j]),
            decreases self.cells.len() - i,
        {
            let color = if self.cells[i] {
                Color::new(Colors::Green, Brightness::High)
            } else {
                Color::new(Colors::Off, Brightness::Low)
            };
            colors.push(color);
            i += 1;
        }
        colors
    }
}

/// What a pressed key asks of the board.
#[derive(Debug, Clone, Copy, PartialEq, Eq, Structural)]
pub enum AutomatonInput {
    Toggle { x: u8, y: u8 },
    Start,
    Quit,
}

/// The two keys of the control row that the board reserves.
#[derive(Debug, Clone, Copy, PartialEq, Eq, Structural)]
pub struct AutomatonKeys {
    pub start: u8,
    pub quit: u8,
}

/// What a message asks of the board on a pad: nothing for a release; start
/// or quit for the reserved keys of the control row, start first where one
/// key is reserved for both; a toggle for a key of a cell; an unbound input
/// for any other press.
pub open spec fn input_of(profile: DeviceProfile, keys: AutomatonKeys, data: Seq<u8>) -> Result<
    Option<AutomatonInput>,
    HandleMessageError,
> {
    match classification_of(data) {
        Classification::Ignored => Ok(None),
        Classification::Classified { section: Section::Control, key } => if key == keys.start {
            Ok(Some(AutomatonInput::Start))
        } else if key == keys.quit {
            Ok(Some(AutomatonInput::Quit))
        } else {
            Err(HandleMessageError::UnboundInput)
        },
        Classification::Classified { section: Section::Main, key } => if profile.is_key(
            key as int,
        ) {
            Ok(
                Some(
                    AutomatonInput::Toggle {
                        x: profile.coord_of(key as int).0 as u8,
                        y: profile.coord_of(key as int).1 as u8,
                    },
                ),
            )
        } else {
            Err(HandleMessageError::UnboundInput)
        },
        Classification::Classified { section: Section::Other, key } => Err(
            HandleMessageError::UnboundInput,
        ),
    }
}

/// Reads what a message asks of the board.
pub fn automaton_input(
    profile: &DeviceProfile,
    keys: &AutomatonKeys,
    message: &MidiIncomingMessage,
) -> (input: Result<Option<AutomatonInput>, HandleMessageError>)
    requires
        profile.wf(),
    ensures
        input == input_of(*profile, *keys, message.data@),
        input matches Ok(Some(AutomatonInput::Toggle { x, y })) ==> profile.in_grid(
            x as int,
            y as int,
        ),
{
    match classify(message) {
        Classification::Ignored => Ok(None),
        Classification::Classified { section: Section::Control, key } => {
            if key == keys.start {
                Ok(Some(AutomatonInput::Start))
            } else if key == keys.quit {
                Ok(Some(AutomatonInput::Quit))
            } else {
                Err(HandleMessageError::UnboundInput)
            }
        },
        Classification::Classified { section: Section::Main, key } => {
            match profile.locate(key) {
                Some((x, y)) => {
                    proof {
                        let (cx, cy) = choose|cx: int, cy: int|
                            profile.in_grid(cx, cy) && profile.key_of(cx, cy) == key;
                        profile.lemma_round_trip(cx, cy);
                    }
                    Ok(Some(AutomatonInput::Toggle { x, y }))
                },
                None => Err(HandleMessageError::UnboundInput),
            }
        },
        Classification::Classified { section: Section::Other, key: _ } => Err(
            HandleMessageError::UnboundInput,
        ),
    }
}

impl Automaton {
    /// Whether an input names a cell of this board, where it names a cell.
    pub open spec fn admits(&self, input: AutomatonInput) -> bool {
        input matches AutomatonInput::Toggle { x, y } ==> self@.in_grid(x as int, y as int)
    }

    /// The board after an input.
    pub open spec fn after(board: Board, input: AutomatonInput) -> Board {
        match input {
            AutomatonInput::Toggle { x, y } => board.received(x as int, y as int),
            AutomatonInput::Start => board.started(),
            AutomatonInput::Quit => board,
        }
    }

    /// Applies an input and says whether it asks the loop to end. Only the
    /// quit input does, and it leaves the board as it is.
    pub fn apply(&mut self, input: AutomatonInput) -> (quit: bool)
        requires
            old(self).wf(),
            old(self).admits(input),
        ensures
            final(self).wf(),
            final(self)@ == Automaton::after(old(self)@, input),
            quit == (input == AutomatonInput::Quit),
    {
        match input {
            AutomatonInput::Toggle { x, y } => {
                self.receive(x as usize, y as usize);
                false
            },
            AutomatonInput::Start => {
                self.start();
                false
            },
            AutomatonInput::Quit => true,
        }
    }
}

} // verus!
