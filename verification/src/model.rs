use crate::utils::numerics::{distance, AbsDiff};
use vstd::prelude::*;

verus! {

/// Width of the world, in cells.
pub const GAME_COLS: usize = 500;

/// Height of the world, in cells.
pub const GAME_ROWS: usize = 500;

/// Width of the window through which the world is shown.
pub const VIEW_COLS: usize = 70;

/// Height of the window through which the world is shown.
pub const VIEW_ROWS: usize = 30;

/// Cells closer than this to an edge of the world are boundary.
pub const BOUNDARY_MARGIN: usize = 5;

/// One rendered frame: `VIEW_ROWS` rows of `VIEW_COLS` characters each.
pub type ViewChars = Vec<Vec<char>>;

/// The world, the window onto it and the agents that move in it. The order of the
/// agents is their painting order: a later agent is drawn over an earlier one.
pub struct GameState {
    pub tiles: Vec<Vec<Tile>>,
    pub view_port: ViewPort,
    pub agents: Vec<Agent>,
}

/// The top-left corner of the window, in world coordinates.
#[derive(Clone, Copy, Debug, PartialEq, Eq, Structural)]
pub struct ViewPort {
    pub x: usize,
    pub y: usize,
}

/// What a cell of the world is made of: `X` is marked ground, `O` is open ground.
#[derive(Eq, PartialEq, Copy, Clone, Debug, Structural)]
pub enum Tile {
    X,
    O,
    Boundary,
}

/// Something that lives in the world. Each kind of agent moves by a rule of its own.
#[derive(Clone, Copy, Debug, PartialEq, Eq, Structural)]
pub enum Agent {
    Mob(MobData),
}

/// A mob: where it is, in world coordinates, and how far it moves per tick.
#[derive(Copy, Clone, Eq, PartialEq, Debug, Structural)]
pub struct MobData {
    pub x: usize,
    pub y: usize,
    pub x_vel: i32,
    pub y_vel: i32,
}

/// What the user can ask of the simulation.
#[derive(Clone, Copy, Debug, PartialEq, Eq, Structural)]
pub enum UserEvent {
    KeyPress(KeyEvent),
}

/// The keys that move the window, each by one cell in its direction.
#[derive(Clone, Copy, Debug, PartialEq, Eq, Structural)]
pub enum KeyEvent {
    LEFT,
    RIGHT,
    UP,
    DOWN,
}

/// The tile that the world starts with at column `x`, row `y`: boundary within the
/// margin of any of the four edges, marked where `x > 30` and `y > 25`, open elsewhere.
pub open spec fn initial_tile(x: int, y: int) -> Tile {
    if distance(x, 0) < BOUNDARY_MARGIN || distance(x, GAME_COLS - 1) < BOUNDARY_MARGIN
        || distance(y, 0) < BOUNDARY_MARGIN || distance(y, GAME_ROWS - 1) < BOUNDARY_MARGIN {
        Tile::Boundary
    } else if x > 30 && y > 25 {
        Tile::X
    } else {
        Tile::O
    }
}

/// The tile that the world starts with at column `x`, row `y`.
pub fn default_tile(x: usize, y: usize) -> (tile: Tile)
    ensures
        tile == initial_tile(x as int, y as int),
{
    if <usize as AbsDiff<usize, usize>>::abs_diff(&x, 0) < BOUNDARY_MARGIN
        || <usize as AbsDiff<usize, usize>>::abs_diff(&x, GAME_COLS - 1) < BOUNDARY_MARGIN
        || <usize as AbsDiff<usize, usize>>::abs_diff(&y, 0) < BOUNDARY_MARGIN
        || <usize as AbsDiff<usize, usize>>::abs_diff(&y, GAME_ROWS - 1) < BOUNDARY_MARGIN {
        Tile::Boundary
    } else if x > 30 && y > 25 {
        Tile::X
    } else {
        Tile::O
    }
}

impl Tile {
    /// The character that stands for this tile on screen.
    pub open spec fn glyph(&self) -> char {
        match self {
            Tile::X => 'x',
            Tile::O => ' ',
            Tile::Boundary => '!',
        }
    }

    /// The character that stands for this tile on screen.
    pub fn display_char(&self) -> (c: char)
        ensures
            c == self.glyph(),
    {
        match self {
            Tile::X => 'x',
            Tile::O => ' ',
            Tile::Boundary => '!',
        }
    }
}

impl MobData {
    /// Whether the mob stands on a cell of the world.
    pub open spec fn in_world(&self) -> bool {
        self.x < GAME_COLS && self.y < GAME_ROWS
    }

    /// Whether the mob can be turned round at a wall: its speed along each axis can be held
    /// in an `i32`, whichever way the mob moves.
    pub open spec fn can_turn(&self) -> bool {
        self.x_vel > i32::MIN && self.y_vel > i32::MIN
    }

    /// The mob stands on a cell of the world and can be turned round at a wall.
    pub open spec fn wf(&self) -> bool {
        self.in_world() && self.can_turn()
    }

    /// Where the mob is drawn, and as what.
    pub open spec fn marker(&self) -> Option<(usize, usize, char)> {
        Some((self.x, self.y, 'M'))
    }

    /// Where the mob is drawn, as column and row of the world, and as what.
    pub fn display_char(&self) -> (shown: Option<(usize, usize, char)>)
        ensures
            shown == self.marker(),
    {
        Some((self.x, self.y, 'M'))
    }
}

impl Agent {
    /// Whether the agent stands on a cell of the world.
    pub open spec fn in_world(&self) -> bool {
        match self {
            Agent::Mob(mob) => mob.in_world(),
        }
    }

    /// The agent stands on a cell of the world and can take part in a tick.
    pub open spec fn wf(&self) -> bool {
        match self {
            Agent::Mob(mob) => mob.wf(),
        }
    }

    /// Where the agent is drawn, and as what; `None` for an agent that is not drawn.
    pub open spec fn marker(&self) -> Option<(usize, usize, char)> {
        match self {
            Agent::Mob(mob) => mob.marker(),
        }
    }

    /// The glyph that the agent puts on the world cell `(x, y)`, if it is drawn there.
    pub open spec fn glyph_on(&self, x: int, y: int) -> Option<char> {
        match self.marker() {
            Some((at_x, at_y, glyph)) => if at_x == x && at_y == y {
                Some(glyph)
            } else {
                None
            },
            None => None,
        }
    }

    /// Where the agent is drawn, as column and row of the world, and as what.
    pub fn display_char(&self) -> (shown: Option<(usize, usize, char)>)
        ensures
            shown == self.marker(),
    {
        match self {
            Agent::Mob(mob) => mob.display_char(),
        }
    }
}

impl ViewPort {
    /// The window's corner is within its limits. The limits lie one cell short of the last
    /// position at which the window would still fit into the world.
    pub open spec fn wf(&self) -> bool {
        self.x <= GAME_COLS - VIEW_COLS - 1 && self.y <= GAME_ROWS - VIEW_ROWS - 1
    }

    /// The whole window lies inside the world.
    pub open spec fn inside_world(&self) -> bool {
        self.x + VIEW_COLS <= GAME_COLS && self.y + VIEW_ROWS <= GAME_ROWS
    }

    /// Whether the world cell `(x, y)` is seen through the window.
    pub open spec fn contains(&self, x: int, y: int) -> bool {
        self.x <= x < self.x + VIEW_COLS && self.y <= y < self.y + VIEW_ROWS
    }

    /// The place of the world cell `(x, y)` relative to the window's corner, if the cell is
    /// seen through the window.
    pub open spec fn relative(&self, x: int, y: int) -> Option<(int, int)> {
        if self.contains(x, y) {
            Some((x - self.x, y - self.y))
        } else {
            None
        }
    }

    /// The world cell that is seen at column `rel_x`, row `rel_y` of the window.
    pub open spec fn to_world(&self, rel_x: int, rel_y: int) -> (int, int) {
        (self.x + rel_x, self.y + rel_y)
    }

    /// The place of the world cell `(x, y)` in the window, counted from the window's
    /// corner; `None` for a cell that the window does not show.
    pub fn to_relative(&self, x: usize, y: usize) -> (rel: Option<(usize, usize)>)
        ensures
            match rel {
                Some((rel_x, rel_y)) => self.relative(x as int, y as int) == Some(
                    (rel_x as int, rel_y as int),
                ),
                None => self.relative(x as int, y as int).is_none(),
            },
    {
        if x < self.x || x - self.x >= VIEW_COLS || y < self.y || y - self.y >= VIEW_ROWS {
            return None;
        }
        Some((x - self.x, y - self.y))
    }
}

/// The glyph on top at the world cell `(x, y)` once `agents` have been painted, in their
/// order, over a cell that showed `below`: that of the last agent drawn at the cell, and
/// `below` if none is drawn there.
pub open spec fn top_glyph(agents: Seq<Agent>, below: char, x: int, y: int) -> char
    decreases agents.len(),
{
    if agents.len() == 0 {
        below
    } else {
        match agents.last().glyph_on(x, y) {
            Some(glyph) => glyph,
            None => top_glyph(agents.drop_last(), below, x, y),
        }
    }
}

/// The mobs that the world starts with, in painting order.
pub open spec fn initial_agents() -> Seq<Agent> {
    seq![
        Agent::Mob(MobData { x: 2, y: 3, x_vel: 2, y_vel: 1 }),
        Agent::Mob(MobData { x: 20, y: 6, x_vel: (-1) as i32, y_vel: 1 }),
        Agent::Mob(MobData { x: 20, y: 6, x_vel: (-1) as i32, y_vel: 1 }),
        Agent::Mob(MobData { x: 20, y: 6, x_vel: (-1) as i32, y_vel: 1 }),
        Agent::Mob(MobData { x: 30, y: 16, x_vel: 1, y_vel: 1 }),
        Agent::Mob(MobData { x: 17, y: 2, x_vel: 1, y_vel: (-1) as i32 }),
    ]
}

impl GameState {
    /// The grid of tiles has `GAME_ROWS` rows of `GAME_COLS` tiles each.
    pub open spec fn world_wf(&self) -> bool {
        &&& self.tiles@.len() == GAME_ROWS
        &&& forall|y: int| 0 <= y < GAME_ROWS ==> (#[trigger] self.tiles@[y])@.len() == GAME_COLS
    }

    /// The grid is complete, the window is within its limits, and every agent stands on a
    /// cell of the world and can take part in a tick.
    pub open spec fn wf(&self) -> bool {
        &&& self.world_wf()
        &&& self.view_port.wf()
        &&& forall|i: int| 0 <= i < self.agents@.len() ==> (#[trigger] self.agents@[i]).wf()
    }

    /// The tile at column `x`, row `y` of the world.
    pub open spec fn tile_at(&self, x: int, y: int) -> Tile {
        self.tiles@[y]@[x]
    }

    /// The character shown for the world cell `(x, y)`: the glyph of the last agent that is
    /// drawn there, and else that of the cell's tile.
    pub open spec fn glyph_at(&self, x: int, y: int) -> char {
        top_glyph(self.agents@, self.tile_at(x, y).glyph(), x, y)
    }

    /// Whether `frame` is the picture of this state: `VIEW_ROWS` rows of `VIEW_COLS`
    /// characters, each the character shown for the world cell that the window has at
    /// that place.
    pub open spec fn shown_as(&self, frame: Seq<Vec<char>>) -> bool {
        &&& frame.len() == VIEW_ROWS
        &&& forall|r: int| 0 <= r < VIEW_ROWS ==> (#[trigger] frame[r])@.len() == VIEW_COLS
        &&& forall|r: int, c: int|
            0 <= r < VIEW_ROWS && 0 <= c < VIEW_COLS ==> #[trigger] frame[r]@[c] == self.glyph_at(
                self.view_port.x + c,
                self.view_port.y + r,
            )
    }

    /// The state in which every run starts: each tile as `initial_tile` gives it, the
    /// window in the world's top-left corner, and the six mobs of `initial_agents`.
    pub open spec fn is_initial(&self) -> bool {
        &&& self.world_wf()
        &&& forall|x: int, y: int|
            0 <= x < GAME_COLS && 0 <= y < GAME_ROWS ==> #[trigger] self.tile_at(x, y)
                == initial_tile(x, y)
        &&& self.view_port == (ViewPort { x: 0, y: 0 })
        &&& self.agents@ == initial_agents()
    }

    /// Tests whether the state is one that the simulation can run on.
    pub fn is_well_formed(&self) -> (ok: bool)
        ensures
            ok == self.wf(),
    {
        if self.tiles.len() != GAME_ROWS {
            return false;
        }
        for y in 0..GAME_ROWS
            invariant
                self.tiles@.len() == GAME_ROWS,
                forall|i: int| 0 <= i < y ==> (#[trigger] self.tiles@[i])@.len() == GAME_COLS,
        {
            if self.tiles[y].len() != GAME_COLS {
                return false;
            }
        }
        if self.view_port.x > GAME_COLS - VIEW_COLS - 1 || self.view_port.y > GAME_ROWS - VIEW_ROWS
            - 1 {
            return false;
        }
        let n = self.agents.len();
        for k in 0..n
            invariant
                n == self.agents@.len(),
                forall|i: int| 0 <= i < k ==> (#[trigger] self.agents@[i]).wf(),
        {
            match self.agents[k] {
                Agent::Mob(mob) => {
                    if mob.x >= GAME_COLS || mob.y >= GAME_ROWS || mob.x_vel == i32::MIN
                        || mob.y_vel == i32::MIN {
                        return false;
                    }
                },
            }
        }
        true
    }

    /// Renders what the window shows: the tiles first, then the agents in their order,
    /// each over whatever its cell showed before.
    pub fn to_display_string(&self) -> (frame: ViewChars)
        requires
            self.world_wf(),
            self.view_port.inside_world(),
        ensures
            self.shown_as(frame@),
    {
        let view_port = &self.view_port;
        let mut tiles: ViewChars = Vec::with_capacity(VIEW_ROWS);
        for r in 0..VIEW_ROWS
            invariant
                self.world_wf(),
                view_port == &self.view_port,
                view_port.inside_world(),
                tiles@.len() == r,
                forall|i: int| 0 <= i < r ==> (#[trigger] tiles@[i])@.len() == VIEW_COLS,
                forall|i: int, j: int|
                    0 <= i < r && 0 <= j < VIEW_COLS ==> #[trigger] tiles@[i]@[j] == self.tile_at(
                        view_port.x + j,
                        view_port.y + i,
                    ).glyph(),
        {
            let y = view_port.y + r;
            let mut row: Vec<char> = Vec::with_capacity(VIEW_COLS);
            for c in 0..VIEW_COLS
                invariant
                    self.world_wf(),
                    view_port.inside_world(),
                    y == view_port.y + r,
                    r < VIEW_ROWS,
                    row@.len() == c,
                    forall|j: int|
                        0 <= j < c ==> #[trigger] row@[j] == self.tile_at(
                            view_port.x + j,
                            y as int,
                        ).glyph(),
            {
                let x = view_port.x + c;
                row.push(self.tiles[y][x].display_char());
            }
            tiles.push(row);
        }
        let n = self.agents.len();
        for k in 0..n
            invariant
                n == self.agents@.len(),
                view_port == &self.view_port,
                tiles@.len() == VIEW_ROWS,
                forall|i: int| 0 <= i < VIEW_ROWS ==> (#[trigger] tiles@[i])@.len() == VIEW_COLS,
                forall|i: int, j: int|
                    0 <= i < VIEW_ROWS && 0 <= j < VIEW_COLS ==> #[trigger] tiles@[i]@[j]
                        == top_glyph(
                        self.agents@.take(k as int),
                        self.tile_at(view_port.x + j, view_port.y + i).glyph(),
                        view_port.x + j,
                        view_port.y + i,
                    ),
        {
            proof {
                assert(self.agents@.take(k + 1).drop_last() == self.agents@.take(k as int));
                assert(self.agents@.take(k + 1).last() == self.agents@[k as int]);
            }
            if let Some((x, y, dc)) = self.agents[k].display_char() {
                if let Some((rel_x, rel_y)) = view_port.to_relative(x, y) {
                    tiles[rel_y][rel_x] = dc;
                }
            }
        }
        proof {
            assert(self.agents@.take(n as int) == self.agents@);
        }
        tiles
    }
}

impl Default for GameState {
    /// The state in which every run starts. It is the same each time.
    fn default() -> (state: GameState)
        ensures
            state.is_initial(),
            state.wf(),
    {
        let mut tiles: Vec<Vec<Tile>> = Vec::with_capacity(GAME_ROWS);
        for y in 0..GAME_ROWS
            invariant
                tiles@.len() == y,
                forall|i: int| 0 <= i < y ==> (#[trigger] tiles@[i])@.len() == GAME_COLS,
                forall|i: int, j: int|
                    0 <= i < y && 0 <= j < GAME_COLS ==> #[trigger] tiles@[i]@[j] == initial_tile(
                        j,
                        i,
                    ),
        {
            let mut row: Vec<Tile> = Vec::with_capacity(GAME_COLS);
            for x in 0..GAME_COLS
                invariant
                    row@.len() == x,
                    forall|j: int| 0 <= j < x ==> #[trigger] row@[j] == initial_tile(j, y as int),
            {
                row.push(default_tile(x, y));
            }
            tiles.push(row);
        }

        let agents = vec![
            Agent::Mob(MobData { x: 2, y: 3, x_vel: 2, y_vel: 1 }),
            Agent::Mob(MobData { x: 20, y: 6, x_vel: -1, y_vel: 1 }),
            Agent::Mob(MobData { x: 20, y: 6, x_vel: -1, y_vel: 1 }),
            Agent::Mob(MobData { x: 20, y: 6, x_vel: -1, y_vel: 1 }),
            Agent::Mob(MobData { x: 30, y: 16, x_vel: 1, y_vel: 1 }),
            Agent::Mob(MobData { x: 17, y: 2, x_vel: 1, y_vel: -1 }),
        ];
        proof {
            assert(agents@ =~= initial_agents());
        }

        GameState { tiles, view_port: ViewPort { x: 0, y: 0 }, agents }
    }
}

/// A cell on which no agent is drawn shows what lies below the agents.
pub proof fn lemma_cell_without_agent(agents: Seq<Agent>, below: char, x: int, y: int)
    requires
        forall|i: int| 0 <= i < agents.len() ==> (#[trigger] agents[i]).glyph_on(x, y).is_none(),
    ensures
        top_glyph(agents, below, x, y) == below,
    decreases agents.len(),
{
    if agents.len() > 0 {
        lemma_cell_without_agent(agents.drop_last(), below, x, y);
    }
}

/// Later agents are painted over earlier ones: of the agents that are drawn on one cell,
/// the last in the order is the one whose glyph the cell shows.
pub proof fn lemma_last_agent_on_cell_shows(
    agents: Seq<Agent>,
    below: char,
    x: int,
    y: int,
    last: int,
)
    requires
        0 <= last < agents.len(),
        agents[last].glyph_on(x, y).is_some(),
        forall|i: int| last < i < agents.len() ==> (#[trigger] agents[i]).glyph_on(x, y).is_none(),
    ensures
        Some(top_glyph(agents, below, x, y)) == agents[last].glyph_on(x, y),
    decreases agents.len(),
{
    if last < agents.len() - 1 {
        lemma_last_agent_on_cell_shows(agents.drop_last(), below, x, y, last);
    }
}

/// A cell of the window, taken to the world and back, is the cell itself.
pub proof fn lemma_relative_round_trip(view_port: ViewPort, rel_x: int, rel_y: int)
    requires
        0 <= rel_x < VIEW_COLS,
        0 <= rel_y < VIEW_ROWS,
    ensures
        ({
            let (x, y) = view_port.to_world(rel_x, rel_y);
            view_port.relative(x, y) == Some((rel_x, rel_y))
        }),
{
}

/// A world cell has a place in the window exactly if it lies inside the window, and the
/// place it has leads back to it.
pub proof fn lemma_relative_outside(view_port: ViewPort, x: int, y: int)
    ensures
        view_port.relative(x, y).is_none() <==> !view_port.contains(x, y),
        view_port.relative(x, y) matches Some((rel_x, rel_y)) ==> 0 <= rel_x < VIEW_COLS && 0
            <= rel_y < VIEW_ROWS && view_port.to_world(rel_x, rel_y) == (x, y),
{
}

} // verus!
