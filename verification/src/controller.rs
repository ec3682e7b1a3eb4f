use crate::model::{
    Agent, GameState, KeyEvent, MobData, UserEvent, ViewChars, ViewPort, GAME_COLS, GAME_ROWS,
    VIEW_COLS, VIEW_ROWS,
};
use crate::utils::numerics::{clamped, distance, Clamp};
use vstd::prelude::*;

verus! {

/// The size of a velocity, whatever its direction.
pub open spec fn speed(vel: int) -> int {
    distance(vel, 0)
}

/// Where a mob at `pos` with velocity `vel` stands after one tick, along an axis of
/// `extent` cells: it moves by `vel` and stops at the first or last cell.
pub open spec fn moved(pos: int, vel: int, extent: int) -> int {
    clamped(pos + vel, 0, extent - 1)
}

/// The velocity with which a mob leaves the cell `pos` that one tick has brought it to:
/// away from the wall if `pos` is the last or the first cell, and unchanged elsewhere.
pub open spec fn reflected(pos: int, vel: int, extent: int) -> int {
    if pos >= extent - 1 {
        -speed(vel)
    } else if pos <= 0 {
        speed(vel)
    } else {
        vel
    }
}

impl MobData {
    /// Whether the velocities after one tick can be held in an `i32`. Only a velocity of
    /// `i32::MIN` that is turned round at the first column or row cannot.
    pub open spec fn step_fits(&self) -> bool {
        let x = moved(self.x as int, self.x_vel as int, GAME_COLS as int);
        let y = moved(self.y as int, self.y_vel as int, GAME_ROWS as int);
        &&& reflected(x, self.x_vel as int, GAME_COLS as int) <= i32::MAX
        &&& reflected(y, self.y_vel as int, GAME_ROWS as int) <= i32::MAX
    }

    /// The mob one tick later.
    pub open spec fn stepped(&self) -> MobData {
        let x = moved(self.x as int, self.x_vel as int, GAME_COLS as int);
        let y = moved(self.y as int, self.y_vel as int, GAME_ROWS as int);
        MobData {
            x: x as usize,
            y: y as usize,
            x_vel: reflected(x, self.x_vel as int, GAME_COLS as int) as i32,
            y_vel: reflected(y, self.y_vel as int, GAME_ROWS as int) as i32,
        }
    }

    /// The mob `n` ticks later.
    pub open spec fn after_ticks(&self, n: nat) -> MobData
        decreases n,
    {
        if n == 0 {
            *self
        } else {
            self.after_ticks((n - 1) as nat).stepped()
        }
    }
}

impl ViewPort {
    /// The window moved by `(dx, dy)` and held within its limits.
    pub open spec fn shifted(&self, dx: int, dy: int) -> ViewPort {
        ViewPort {
            x: clamped(self.x + dx, 0, GAME_COLS - VIEW_COLS - 1) as usize,
            y: clamped(self.y + dy, 0, GAME_ROWS - VIEW_ROWS - 1) as usize,
        }
    }

    /// The window after the user's events have been applied in the order of `events`.
    pub open spec fn after_events(&self, events: Seq<UserEvent>) -> ViewPort
        decreases events.len(),
    {
        if events.len() == 0 {
            *self
        } else {
            let (dx, dy) = events.last().shift();
            self.after_events(events.drop_last()).shifted(dx, dy)
        }
    }
}

impl KeyEvent {
    /// The move of the window that the key asks for, as `(dx, dy)`.
    pub open spec fn shift(&self) -> (int, int) {
        match self {
            KeyEvent::LEFT => (-1, 0),
            KeyEvent::RIGHT => (1, 0),
            KeyEvent::UP => (0, -1),
            KeyEvent::DOWN => (0, 1),
        }
    }
}

impl UserEvent {
    /// The move of the window that the event asks for, as `(dx, dy)`.
    pub open spec fn shift(&self) -> (int, int) {
        match self {
            UserEvent::KeyPress(key) => key.shift(),
        }
    }
}

/// One tick in the life of an agent.
pub trait Update<T> {
    /// Whether the agent's next state can be held in its type.
    spec fn can_update(&self, game_state: &GameState) -> bool;

    /// The agent one tick later; `None` for an agent that leaves the world.
    spec fn updated(&self, game_state: &GameState) -> Option<T>;

    /// Computes the agent's state one tick later. An agent that gives `None` takes no
    /// part in the next tick.
    fn update(&self, game_state: &GameState) -> (next: Option<T>)
        requires
            self.can_update(game_state),
        ensures
            next == self.updated(game_state),
    ;
}

impl Update<Agent> for Agent {
    open spec fn can_update(&self, game_state: &GameState) -> bool {
        match self {
            Agent::Mob(mob_data) => mob_data.can_update(game_state),
        }
    }

    open spec fn updated(&self, game_state: &GameState) -> Option<Agent> {
        match self {
            Agent::Mob(mob_data) => match mob_data.updated(game_state) {
                Some(new_mob) => Some(Agent::Mob(new_mob)),
                None => None,
            },
        }
    }

    /// Moves the agent by one tick, as its kind asks for.
    fn update(&self, game_state: &GameState) -> (next: Option<Agent>) {
        match self {
            Agent::Mob(mob_data) => match mob_data.update(game_state) {
                Some(new_mob) => Some(Agent::Mob(new_mob)),
                None => None,
            },
        }
    }
}

impl Update<MobData> for MobData {
    open spec fn can_update(&self, _game_state: &GameState) -> bool {
        self.step_fits()
    }

    open spec fn updated(&self, _game_state: &GameState) -> Option<MobData> {
        Some(self.stepped())
    }

    /// Moves the mob by its velocity, stops it at the walls of the world and turns it
    /// round where it has reached one. The mob that comes back always stands on a cell of
    /// the world and is as fast as before; a velocity that has changed has changed its
    /// sign, on the first or last cell along its axis.
    fn update(&self, _game_state: &GameState) -> (next: Option<MobData>)
        ensures
            next matches Some(mob) && mob.in_world(),
            next matches Some(mob) && speed(mob.x_vel as int) == speed(self.x_vel as int),
            next matches Some(mob) && speed(mob.y_vel as int) == speed(self.y_vel as int),
            next matches Some(mob) && (mob.x_vel != self.x_vel ==> mob.x_vel == -self.x_vel
                && (mob.x == 0 || mob.x == GAME_COLS - 1)),
            next matches Some(mob) && (mob.y_vel != self.y_vel ==> mob.y_vel == -self.y_vel
                && (mob.y == 0 || mob.y == GAME_ROWS - 1)),
    {
        let mut out = *self;
        let x: i128 = <i128 as Clamp<i128, i128, i128>>::clamp(
            &(out.x as i128 + out.x_vel as i128),
            0,
            GAME_COLS as i128 - 1,
        );
        let y: i128 = <i128 as Clamp<i128, i128, i128>>::clamp(
            &(out.y as i128 + out.y_vel as i128),
            0,
            GAME_ROWS as i128 - 1,
        );
        out.x = x as usize;
        out.y = y as usize;

        if out.x >= GAME_COLS - 1 {
            if out.x_vel > 0 {
                out.x_vel = -out.x_vel;
            }
        } else if out.x <= 0 {
            if out.x_vel < 0 {
                out.x_vel = -out.x_vel;
            }
        }
        if out.y >= GAME_ROWS - 1 {
            if out.y_vel > 0 {
                out.y_vel = -out.y_vel;
            }
        } else if out.y <= 0 {
            if out.y_vel < 0 {
                out.y_vel = -out.y_vel;
            }
        }

        Some(out)
    }
}

impl Agent {
    /// The agent one tick later.
    pub open spec fn stepped(&self) -> Agent {
        match self {
            Agent::Mob(mob_data) => Agent::Mob(mob_data.stepped()),
        }
    }
}

/// The agents of the next tick: each agent of `agents` one tick later, in the same order,
/// without those that leave the world.
pub open spec fn next_generation(agents: Seq<Agent>, game_state: &GameState) -> Seq<Agent>
    decreases agents.len(),
{
    if agents.len() == 0 {
        Seq::empty()
    } else {
        let earlier = next_generation(agents.drop_last(), game_state);
        match agents.last().updated(game_state) {
            Some(agent) => earlier.push(agent),
            None => earlier,
        }
    }
}

/// No agent leaves the world: the next generation holds every agent of this one, one tick
/// later and at its old place in the order, whatever the rest of the state is.
pub proof fn lemma_next_generation_keeps_all(agents: Seq<Agent>, game_state: &GameState)
    ensures
        next_generation(agents, game_state).len() == agents.len(),
        forall|i: int|
            0 <= i < agents.len() ==> #[trigger] next_generation(agents, game_state)[i]
                == agents[i].stepped(),
    decreases agents.len(),
{
    if agents.len() > 0 {
        lemma_next_generation_keeps_all(agents.drop_last(), game_state);
    }
}

/// Moves every agent by one tick. The agents keep their order; one whose update gives no
/// successor is left out, which no agent's does at present. World and window stay as
/// they are.
pub fn update_state(state: &mut GameState)
    requires
        forall|i: int|
            0 <= i < old(state).agents@.len() ==> (#[trigger] old(state).agents@[i]).can_update(
                &*old(state),
            ),
    ensures
        final(state).agents@ == next_generation(old(state).agents@, &*old(state)),
        final(state).agents@.len() == old(state).agents@.len(),
        forall|i: int|
            0 <= i < old(state).agents@.len() ==> #[trigger] final(state).agents@[i] == old(
                state,
            ).agents@[i].stepped(),
        forall|i: int|
            0 <= i < final(state).agents@.len() ==> (#[trigger] final(state).agents@[i]).in_world(),
        final(state).tiles == old(state).tiles,
        final(state).view_port == old(state).view_port,
        old(state).wf() ==> final(state).wf(),
{
    let mut new_agents: Vec<Agent> = Vec::new();
    let n = state.agents.len();
    for i in 0..n
        invariant
            *state == *old(state),
            n == state.agents@.len(),
            forall|j: int|
                0 <= j < n ==> (#[trigger] state.agents@[j]).can_update(&*state),
            new_agents@ == next_generation(state.agents@.take(i as int), &*state),
    {
        proof {
            assert(state.agents@.take(i + 1).drop_last() == state.agents@.take(i as int));
            assert(state.agents@.take(i + 1).last() == state.agents@[i as int]);
        }
        match state.agents[i].update(&*state) {
            Some(agent) => new_agents.push(agent),
            None => {},
        }
    }
    proof {
        assert(state.agents@.take(n as int) == state.agents@);
        lemma_next_generation_keeps_all(state.agents@, &*state);
    }
    state.agents = new_agents;
}

/// Moves the window by `(dx, dy)` and holds it within its limits. Both coordinates are
/// replaced at once; world and agents stay as they are.
pub fn move_viewpoint(game_state: &mut GameState, dx: i32, dy: i32)
    ensures
        final(game_state).view_port == old(game_state).view_port.shifted(dx as int, dy as int),
        final(game_state).view_port.wf(),
        final(game_state).tiles == old(game_state).tiles,
        final(game_state).agents == old(game_state).agents,
{
    let vx = game_state.view_port.x as i128;
    let vy = game_state.view_port.y as i128;

    let adj_x = <i128 as Clamp<i128, i128, i128>>::clamp(
        &(vx + dx as i128),
        0,
        (GAME_COLS - VIEW_COLS) as i128 - 1,
    ) as usize;
    let adj_y = <i128 as Clamp<i128, i128, i128>>::clamp(
        &(vy + dy as i128),
        0,
        (GAME_ROWS - VIEW_ROWS) as i128 - 1,
    ) as usize;

    game_state.view_port = ViewPort { x: adj_x, y: adj_y };
}

/// Moves the window by one cell in the direction of the key.
pub fn handle_key_press(state: &mut GameState, key_press: KeyEvent)
    ensures
        final(state).view_port == old(state).view_port.shifted(
            key_press.shift().0,
            key_press.shift().1,
        ),
        final(state).view_port.wf(),
        final(state).tiles == old(state).tiles,
        final(state).agents == old(state).agents,
{
    match key_press {
        KeyEvent::LEFT => move_viewpoint(state, -1, 0),
        KeyEvent::RIGHT => move_viewpoint(state, 1, 0),
        KeyEvent::UP => move_viewpoint(state, 0, -1),
        KeyEvent::DOWN => move_viewpoint(state, 0, 1),
    }
}

/// Applies one event of the user to the state.
pub fn handle_user_input(state: &mut GameState, user_event: UserEvent)
    ensures
        final(state).view_port == old(state).view_port.shifted(
            user_event.shift().0,
            user_event.shift().1,
        ),
        final(state).view_port.wf(),
        final(state).tiles == old(state).tiles,
        final(state).agents == old(state).agents,
{
    match user_event {
        UserEvent::KeyPress(key) => handle_key_press(state, key),
    }
}

/// One turn of the simulation: applies the user's events to the window in the order in
/// which they came, moves every agent by one tick, and renders the state that results.
pub fn tick(state: &mut GameState, events: &Vec<UserEvent>) -> (frame: ViewChars)
    requires
        old(state).wf(),
    ensures
        final(state).wf(),
        final(state).tiles == old(state).tiles,
        final(state).view_port == old(state).view_port.after_events(events@),
        final(state).agents@ == next_generation(old(state).agents@, &*old(state)),
        final(state).shown_as(frame@),
{
    let n = events.len();
    for i in 0..n
        invariant
            n == events@.len(),
            state.tiles == old(state).tiles,
            state.agents == old(state).agents,
            state.view_port.wf(),
            state.view_port == old(state).view_port.after_events(events@.take(i as int)),
    {
        proof {
            assert(events@.take(i + 1).drop_last() == events@.take(i as int));
            assert(events@.take(i + 1).last() == events@[i as int]);
        }
        handle_user_input(state, events[i]);
    }
    proof {
        assert(events@.take(n as int) == events@);
        lemma_next_generation_keeps_all(state.agents@, &*state);
        lemma_next_generation_keeps_all(state.agents@, &*old(state));
    }
    update_state(state);
    state.to_display_string()
}

/// The window stays within its limits whatever the user asks for, and one event is
/// enough to bring it there.
pub proof fn lemma_window_stays_within_limits(view_port: ViewPort, events: Seq<UserEvent>)
    requires
        events.len() > 0 || view_port.wf(),
    ensures
        view_port.after_events(events).wf(),
        view_port.after_events(events).inside_world(),
{
}

/// A mob that has moved stands on a cell of the world, wherever it stood before.
pub proof fn lemma_mob_stays_in_world(mob: MobData, n: nat)
    requires
        n > 0 || mob.in_world(),
    ensures
        mob.after_ticks(n).in_world(),
{
}

/// A mob keeps its speed along each axis over any number of ticks. Where a tick changes
/// a velocity, it changes its sign, and it has brought the mob to the first or the last
/// cell along that axis.
pub proof fn lemma_mob_keeps_speed(mob: MobData, n: nat)
    requires
        mob.can_turn(),
    ensures
        mob.after_ticks(n).can_turn(),
        speed(mob.after_ticks(n).x_vel as int) == speed(mob.x_vel as int),
        speed(mob.after_ticks(n).y_vel as int) == speed(mob.y_vel as int),
        ({
            let next = mob.after_ticks(n).stepped();
            &&& next.x_vel != mob.after_ticks(n).x_vel ==> next.x_vel == -mob.after_ticks(n).x_vel
                && (next.x == 0 || next.x == GAME_COLS - 1)
            &&& next.y_vel != mob.after_ticks(n).y_vel ==> next.y_vel == -mob.after_ticks(n).y_vel
                && (next.y == 0 || next.y == GAME_ROWS - 1)
        }),
    decreases n,
{
    if n > 0 {
        lemma_mob_keeps_speed(mob, (n - 1) as nat);
    }
}

} // verus!
