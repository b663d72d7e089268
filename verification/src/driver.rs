use vstd::prelude::*;

use crate::components::{Player, Position, Renderable, RenderableV, Ringwraith};
use crate::input_system::{
    command_of_input, has_player, moved, players_have_room, positions_after, Command, GameControl,
    InputProcessor, Key,
};
use crate::render_system::{draw_ops_of, frame_log, Frame, RenderSystem};
use crate::world::World;

verus! {

/// The two states of the frame driver. It starts `Running` and moves
/// to `Terminating` when a tick observes the quit flag; there is no
/// transition back.
#[derive(PartialEq, Eq, Structural, Clone, Copy, Debug)]
pub enum DriverState {
    Running,
    Terminating,
}

/// One game session: the entity store, the shared control state and
/// the driver's state. The surrounding program owns the terminal and
/// the log file; the session owns every decision.
pub struct Session {
    pub world: World,
    pub control: GameControl,
    pub state: DriverState,
}

impl Session {
    /// The store underneath is well formed.
    pub open spec fn wf(self) -> bool {
        self.world.wf()
    }

    /// A session over a given store: not quitting, running.
    pub fn new(world: World) -> (s: Session)
        requires
            world.wf(),
        ensures
            s.wf(),
            s.world == world,
            !s.control.quit,
            s.state == DriverState::Running,
    {
        Session { world, control: GameControl { quit: false }, state: DriverState::Running }
    }

    /// The game's startup world: the player at the origin, drawn as a
    /// white-on-green `@`, and the Ringwraith at (10, 10), drawn as a
    /// black-on-gray `N`. Nothing else is ever created.
    pub fn setup() -> (s: Session)
        ensures
            s.wf(),
            !s.control.quit,
            s.state == DriverState::Running,
            s.world.num_entities() == 2,
            s.world.positions@[0] == Some(Position { x: 0, y: 0 }),
            s.world.renderables@[0] is Some,
            s.world.renderables@[0]->0@ == (RenderableV {
                glyph: '@',
                fg: "white"@,
                bg: "green"@,
            }),
            s.world.players@[0] is Some,
            s.world.wraiths@[0] is None,
            s.world.positions@[1] == Some(Position { x: 10, y: 10 }),
            s.world.renderables@[1] is Some,
            s.world.renderables@[1]->0@ == (RenderableV {
                glyph: 'N',
                fg: "black"@,
                bg: "gray"@,
            }),
            s.world.players@[1] is None,
            s.world.wraiths@[1] is Some,
            has_player(s.world),
            forall|c: Command| #[trigger] players_have_room(s.world, c),
    {
        let mut world = World::new();
        world.create_entity(
            Some(Position { x: 0, y: 0 }),
            Some(
                Renderable {
                    glyph: '@',
                    fg: String::from_str("white"),
                    bg: String::from_str("green"),
                },
            ),
            Some(Player),
            None,
        );
        world.create_entity(
            Some(Position { x: 10, y: 10 }),
            Some(
                Renderable {
                    glyph: 'N',
                    fg: String::from_str("black"),
                    bg: String::from_str("gray"),
                },
            ),
            None,
            Some(Ringwraith),
        );
        Session { world, control: GameControl { quit: false }, state: DriverState::Running }
    }

    /// One tick of the frame driver. In the running state it renders
    /// the state the previous tick left (so the visible frame trails
    /// the input by one tick), then runs the input stage on the polled
    /// key, then observes the quit flag: set means the driver is
    /// terminating from now on. In the terminating state a tick does
    /// nothing at all.
    pub fn tick(&mut self, input: Option<Key>) -> (frame: Option<Frame>)
        requires
            old(self).wf(),
            old(self).state == DriverState::Running ==> players_have_room(
                old(self).world,
                command_of_input(input),
            ),
        ensures
            final(self).wf(),
            old(self).state == DriverState::Terminating ==> *final(self) == *old(self) && frame
                is None,
            old(self).state == DriverState::Running ==> {
                &&& frame is Some
                &&& frame->0.ops@ == draw_ops_of(old(self).world)
                &&& frame->0.log_lines@.len() == frame_log(old(self).world).len()
                &&& (forall|i: int|
                    0 <= i < frame->0.log_lines@.len() ==> (#[trigger] frame->0.log_lines@[i])@
                        == frame_log(old(self).world)[i])
                &&& final(self).world.positions@ == positions_after(
                    old(self).world,
                    command_of_input(input),
                )
                &&& final(self).world.renderables@ == old(self).world.renderables@
                &&& final(self).world.players@ == old(self).world.players@
                &&& final(self).world.wraiths@ == old(self).world.wraiths@
                &&& final(self).control.quit == (old(self).control.quit || (command_of_input(
                    input,
                ) == Command::Quit && has_player(old(self).world)))
                &&& final(self).state == (if final(self).control.quit {
                    DriverState::Terminating
                } else {
                    DriverState::Running
                })
            },
    {
        match self.state {
            DriverState::Terminating => None,
            DriverState::Running => {
                let renderer = RenderSystem;
                let frame = renderer.run(&self.world);
                let input_stage = InputProcessor;
                input_stage.run(&mut self.world, &mut self.control, input);
                if self.control.quit {
                    self.state = DriverState::Terminating;
                }
                Some(frame)
            },
        }
    }
}

/// The quit flag left by a sequence of per-tick commands, starting
/// from `q`. Each tick sets the flag when its command is quit and a
/// player-tagged, positioned entity exists (`player_present`), and
/// never clears it; the stages preserve the player population, so one
/// flag covers the whole run.
pub open spec fn quit_after(q: bool, player_present: bool, cs: Seq<Command>) -> bool
    decreases cs.len(),
{
    if cs.len() == 0 {
        q
    } else {
        quit_after(q || (cs[0] == Command::Quit && player_present), player_present, cs.drop_first())
    }
}

/// The quit flag is monotonic: once it is set, no later sequence of
/// inputs resets it.
pub proof fn lemma_quit_monotonic(player_present: bool, cs: Seq<Command>)
    ensures
        quit_after(true, player_present, cs),
    decreases cs.len(),
{
    if cs.len() > 0 {
        lemma_quit_monotonic(player_present, cs.drop_first());
    }
}

/// An escape tick mutates no position: the quit command leaves every
/// entity exactly where it stands.
pub proof fn lemma_quit_moves_nothing(w: World)
    ensures
        positions_after(w, Command::Quit) == w.positions@,
{
    assert forall|i: int| 0 <= i < w.positions@.len() implies positions_after(
        w,
        Command::Quit,
    )[i] == w.positions@[i] by {
        if w.players@[i] is Some && w.positions@[i] is Some {
            let p = w.positions@[i]->0;
            assert(moved(p, Command::Quit) == p);
        }
    }
    assert(positions_after(w, Command::Quit) =~= w.positions@);
}

} // verus!
