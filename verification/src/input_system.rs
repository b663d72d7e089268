use vstd::prelude::*;

use crate::components::Position;
use crate::world::World;

verus! {

/// One keyboard symbol handed in by the terminal driver. The poll
/// itself (bounded wait, raw mode) happens outside the library; the
/// stage only sees the symbol, or nothing when the wait ran out.
#[derive(PartialEq, Eq, Structural, Clone, Copy, Debug)]
pub enum Key {
    Left,
    Right,
    Up,
    Down,
    Esc,
    Char(char),
    Other,
}

/// The effect one tick's input has on the game.
#[derive(PartialEq, Eq, Structural, Clone, Copy, Debug)]
pub enum Command {
    MoveLeft,
    MoveRight,
    MoveUp,
    MoveDown,
    Quit,
    Noop,
}

/// Which command a key triggers: the arrow keys and the lowercase WASD
/// letters move, escape quits, every other symbol is a no-op.
pub open spec fn command_of_key(k: Key) -> Command {
    match k {
        Key::Left => Command::MoveLeft,
        Key::Right => Command::MoveRight,
        Key::Up => Command::MoveUp,
        Key::Down => Command::MoveDown,
        Key::Esc => Command::Quit,
        Key::Char(c) => if c == 'a' {
            Command::MoveLeft
        } else if c == 'd' {
            Command::MoveRight
        } else if c == 'w' {
            Command::MoveUp
        } else if c == 's' {
            Command::MoveDown
        } else {
            Command::Noop
        },
        Key::Other => Command::Noop,
    }
}

/// The command of one tick's polled input: no event means no effect.
pub open spec fn command_of_input(input: Option<Key>) -> Command {
    match input {
        Some(k) => command_of_key(k),
        None => Command::Noop,
    }
}

/// The movement rule for the x coordinate, on unbounded integers:
/// move-left clamps at zero, move-right has no upper bound.
pub open spec fn moved_x(x: int, c: Command) -> int {
    match c {
        Command::MoveLeft => if x > 0 {
            x - 1
        } else {
            x
        },
        Command::MoveRight => x + 1,
        _ => x,
    }
}

/// The movement rule for the y coordinate: move-up clamps at zero,
/// move-down has no lower bound on the screen, i.e. no limit.
pub open spec fn moved_y(y: int, c: Command) -> int {
    match c {
        Command::MoveUp => if y > 0 {
            y - 1
        } else {
            y
        },
        Command::MoveDown => y + 1,
        _ => y,
    }
}

/// Where a player at `p` stands after one command.
pub open spec fn moved(p: Position, c: Command) -> Position {
    Position { x: moved_x(p.x as int, c) as i32, y: moved_y(p.y as int, c) as i32 }
}

/// The position column after the movement stage handles command `c`:
/// every entity carrying both a position and the player tag moves, all
/// other entities keep their position.
pub open spec fn positions_after(w: World, c: Command) -> Seq<Option<Position>> {
    Seq::new(
        w.positions@.len(),
        |i: int|
            if w.players@[i] is Some && w.positions@[i] is Some {
                Some(moved(w.positions@[i]->0, c))
            } else {
                w.positions@[i]
            },
    )
}

/// Whether some entity carries both the player tag and a position —
/// the entities the movement stage's join visits. With none, the whole
/// stage is a no-op, escape included.
pub open spec fn has_player(w: World) -> bool {
    exists|i: int|
        0 <= i < w.num_entities() && #[trigger] w.players@[i] is Some && w.positions@[i] is Some
}

/// The movement stage neither creates nor destroys a player: an entity
/// carries the player tag and a position after the stage exactly if it
/// did before.
pub proof fn lemma_has_player_preserved(w: World, c: Command, w2: World)
    requires
        w2.positions@ == positions_after(w, c),
        w2.players@ == w.players@,
    ensures
        has_player(w2) == has_player(w),
{
    if has_player(w) {
        let i = choose|i: int|
            0 <= i < w.num_entities() && #[trigger] w.players@[i] is Some && w.positions@[i]
                is Some;
        assert(w2.positions@[i] is Some);
        assert(has_player(w2));
    }
    if has_player(w2) {
        let i = choose|i: int|
            0 <= i < w2.num_entities() && #[trigger] w2.players@[i] is Some && w2.positions@[i]
                is Some;
        assert(w.positions@[i] is Some);
        assert(has_player(w));
    }
}

/// Whether every player position has room for command `c`: moving
/// right or down adds one, so that coordinate must stay within `i32`;
/// no other command needs anything.
pub open spec fn players_have_room(w: World, c: Command) -> bool {
    forall|i: int|
        0 <= i < w.num_entities() && #[trigger] w.players@[i] is Some && w.positions@[i] is Some
            ==> (c == Command::MoveRight ==> w.positions@[i]->0.x < i32::MAX) && (c
                == Command::MoveDown ==> w.positions@[i]->0.y < i32::MAX)
}

/// Shared control state read by the frame driver each tick. The quit
/// flag starts false; the input stage is the only writer.
#[derive(PartialEq, Eq, Structural, Clone, Copy, Debug)]
pub struct GameControl {
    pub quit: bool,
}

impl Default for GameControl {
    /// A fresh session: not quitting.
    fn default() -> (c: GameControl)
        ensures
            !c.quit,
    {
        GameControl { quit: false }
    }
}

/// Translates one polled key into its command.
pub fn command_of(input: Option<Key>) -> (c: Command)
    ensures
        c == command_of_input(input),
{
    match input {
        None => Command::Noop,
        Some(Key::Left) => Command::MoveLeft,
        Some(Key::Right) => Command::MoveRight,
        Some(Key::Up) => Command::MoveUp,
        Some(Key::Down) => Command::MoveDown,
        Some(Key::Esc) => Command::Quit,
        Some(Key::Char(c)) => {
            if c == 'a' {
                Command::MoveLeft
            } else if c == 'd' {
                Command::MoveRight
            } else if c == 'w' {
                Command::MoveUp
            } else if c == 's' {
                Command::MoveDown
            } else {
                Command::Noop
            }
        },
        Some(Key::Other) => Command::Noop,
    }
}

/// Applies one command's movement rule to a position.
pub fn apply_command(p: Position, c: Command) -> (q: Position)
    requires
        c == Command::MoveRight ==> p.x < i32::MAX,
        c == Command::MoveDown ==> p.y < i32::MAX,
    ensures
        q == moved(p, c),
{
    match c {
        Command::MoveLeft => if p.x > 0 {
            Position { x: p.x - 1, y: p.y }
        } else {
            p
        },
        Command::MoveRight => Position { x: p.x + 1, y: p.y },
        Command::MoveUp => if p.y > 0 {
            Position { x: p.x, y: p.y - 1 }
        } else {
            p
        },
        Command::MoveDown => Position { x: p.x, y: p.y + 1 },
        _ => p,
    }
}

/// The movement (input) stage. The bounded terminal poll runs outside
/// the library; one polled key, if any, is handed in per tick.
pub struct InputProcessor;

impl InputProcessor {
    /// One run of the stage: the command of `input` moves every player
    /// entity, or sets the quit flag on escape. The whole dispatch sits
    /// inside the player join, so with no player-tagged, positioned
    /// entity the stage is a no-op — escape included. The quit flag is
    /// monotone: it is set exactly when it already was set or the
    /// command is quit and a player exists.
    pub fn run(&self, world: &mut World, control: &mut GameControl, input: Option<Key>)
        requires
            old(world).wf(),
            players_have_room(*old(world), command_of_input(input)),
        ensures
            final(world).wf(),
            final(world).positions@ == positions_after(*old(world), command_of_input(input)),
            final(world).renderables@ == old(world).renderables@,
            final(world).players@ == old(world).players@,
            final(world).wraiths@ == old(world).wraiths@,
            final(control).quit == (old(control).quit || (command_of_input(input)
                == Command::Quit && has_player(*old(world)))),
    {
        let cmd = command_of(input);
        if cmd == Command::Quit {
            let ghost c0 = *control;
            let n = world.positions.len();
            let mut i: usize = 0;
            while i < n
                invariant
                    world.wf(),
                    n == world.num_entities(),
                    i <= n,
                    control.quit == (c0.quit || exists|j: int|
                        0 <= j < i && #[trigger] world.players@[j] is Some && world.positions@[j]
                            is Some),
                decreases n - i,
            {
                if world.players[i].is_some() && world.positions[i].is_some() {
                    control.quit = true;
                }
                i += 1;
            }
            proof {
                assert(world.positions@ =~= positions_after(*world, cmd));
            }
            return ;
        }
        let ghost w0 = *world;
        let n = world.positions.len();
        let mut i: usize = 0;
        while i < n
            invariant
                world.wf(),
                n == world.num_entities(),
                i <= n,
                world.positions@.len() == w0.positions@.len(),
                world.renderables@ == w0.renderables@,
                world.players@ == w0.players@,
                world.wraiths@ == w0.wraiths@,
                players_have_room(w0, cmd),
                cmd != Command::Quit,
                forall|j: int| 0 <= j < i ==> world.positions@[j] == positions_after(w0, cmd)[j],
                forall|j: int| i <= j < n ==> world.positions@[j] == w0.positions@[j],
            decreases n - i,
        {
            if world.players[i].is_some() && world.positions[i].is_some() {
                let p = world.positions[i].unwrap();
                let q = apply_command(p, cmd);
                world.set_position(i, q);
            }
            i += 1;
        }
        proof {
            assert(world.positions@ =~= positions_after(w0, cmd));
        }
    }
}

/// The x coordinate reached from `x` after a whole sequence of
/// commands, applied in order.
pub open spec fn x_after(x: int, cs: Seq<Command>) -> int
    decreases cs.len(),
{
    if cs.len() == 0 {
        x
    } else {
        x_after(moved_x(x, cs[0]), cs.drop_first())
    }
}

/// The y coordinate reached from `y` after a whole sequence of
/// commands, applied in order.
pub open spec fn y_after(y: int, cs: Seq<Command>) -> int
    decreases cs.len(),
{
    if cs.len() == 0 {
        y
    } else {
        y_after(moved_y(y, cs[0]), cs.drop_first())
    }
}

/// Left clamp: starting at the left edge, any sequence of move-left
/// commands leaves the x coordinate at zero.
pub proof fn lemma_left_clamp(cs: Seq<Command>)
    requires
        forall|i: int| 0 <= i < cs.len() ==> cs[i] == Command::MoveLeft,
    ensures
        x_after(0, cs) == 0,
    decreases cs.len(),
{
    if cs.len() > 0 {
        assert(cs[0] == Command::MoveLeft);
        assert forall|i: int| 0 <= i < cs.drop_first().len() implies cs.drop_first()[i]
            == Command::MoveLeft by {
            assert(cs.drop_first()[i] == cs[i + 1]);
        }
        lemma_left_clamp(cs.drop_first());
    }
}

/// Top clamp: starting at the top edge, any sequence of move-up
/// commands leaves the y coordinate at zero.
pub proof fn lemma_top_clamp(cs: Seq<Command>)
    requires
        forall|i: int| 0 <= i < cs.len() ==> cs[i] == Command::MoveUp,
    ensures
        y_after(0, cs) == 0,
    decreases cs.len(),
{
    if cs.len() > 0 {
        assert(cs[0] == Command::MoveUp);
        assert forall|i: int| 0 <= i < cs.drop_first().len() implies cs.drop_first()[i]
            == Command::MoveUp by {
            assert(cs.drop_first()[i] == cs[i + 1]);
        }
        lemma_top_clamp(cs.drop_first());
    }
}

/// Move-right is unbounded: a sequence of N move-right commands
/// increases the x coordinate by exactly N, from any start.
pub proof fn lemma_right_unbounded(x: int, cs: Seq<Command>)
    requires
        forall|i: int| 0 <= i < cs.len() ==> cs[i] == Command::MoveRight,
    ensures
        x_after(x, cs) == x + cs.len(),
    decreases cs.len(),
{
    if cs.len() > 0 {
        assert(cs[0] == Command::MoveRight);
        assert forall|i: int| 0 <= i < cs.drop_first().len() implies cs.drop_first()[i]
            == Command::MoveRight by {
            assert(cs.drop_first()[i] == cs[i + 1]);
        }
        lemma_right_unbounded(x + 1, cs.drop_first());
    }
}

/// Move-down is unbounded: a sequence of N move-down commands increases
/// the y coordinate by exactly N, from any start.
pub proof fn lemma_down_unbounded(y: int, cs: Seq<Command>)
    requires
        forall|i: int| 0 <= i < cs.len() ==> cs[i] == Command::MoveDown,
    ensures
        y_after(y, cs) == y + cs.len(),
    decreases cs.len(),
{
    if cs.len() > 0 {
        assert(cs[0] == Command::MoveDown);
        assert forall|i: int| 0 <= i < cs.drop_first().len() implies cs.drop_first()[i]
            == Command::MoveDown by {
            assert(cs.drop_first()[i] == cs[i + 1]);
        }
        lemma_down_unbounded(y + 1, cs.drop_first());
    }
}

} // verus!
