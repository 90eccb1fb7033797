//! One match: the two characters, the throw cycle and the event channels,
//! advanced one tick at a time in a fixed order of passes.

use vstd::prelude::*;
use crate::ball::{Projectile, Target};
use crate::ballistics::{arc_result, solve_arc, ArcError, ArcSolution};
use crate::character::{
    create_characters, pursuing, ran_toward, starting_opponent, starting_player, walked, MoveInput,
    Opponent, Player,
};
use crate::events::Events;
use crate::geometry::{
    add_ball_height, cartesian_to_iso, lifted, project, CartesianTransform, ScreenPosition,
};
use crate::units::{in_range, MAGNITUDE_LIMIT, UNIT};

verus! {

/// Horizontal distance from the launch point to the apex of a throw.
pub const HALF_DISTANCE: i64 = 70 * UNIT;

/// Height of the apex of a throw.
pub const ARC_HEIGHT: i64 = 20 * UNIT;

/// Forward launch speed of a throw, in milli-units per second.
pub const FORWARD_SPEED: i64 = 200 * UNIT;

/// The shape every throw of a match takes.
#[derive(Clone, Copy, Debug, PartialEq, Eq, Structural)]
pub struct ThrowConfig {
    pub half_distance: i64,
    pub arc_height: i64,
    pub forward_speed: i64,
}

/// The throw shape a match uses unless told otherwise.
pub fn default_throw() -> (c: ThrowConfig)
    ensures
        c == (ThrowConfig {
            half_distance: HALF_DISTANCE,
            arc_height: ARC_HEIGHT,
            forward_speed: FORWARD_SPEED,
        }),
{
    ThrowConfig { half_distance: HALF_DISTANCE, arc_height: ARC_HEIGHT, forward_speed: FORWARD_SPEED }
}

/// A ball in flight and where it is.
#[derive(Clone, Copy, Debug, PartialEq, Eq, Structural)]
pub struct Ball {
    pub projectile: Projectile,
    pub position: CartesianTransform,
}

/// Where the throw cycle stands.
#[derive(Clone, Copy, Debug, PartialEq, Eq, Structural)]
pub enum Phase {
    /// No ball and no target: the player may throw.
    Idle,
    /// A ball is in the air.
    Flying(Ball),
    /// The ball has landed and the opponent runs to its target.
    Pursuing(Target),
}

/// What the keyboard reports for one tick.
#[derive(Clone, Copy, Debug, PartialEq, Eq, Structural)]
pub struct Controls {
    pub movement: MoveInput,
    /// The throw key is down.
    pub throw_held: bool,
    /// The throw key went up during this tick.
    pub throw_released: bool,
}

/// The screen positions of every entity of a tick.
#[derive(Clone, Copy, Debug, PartialEq, Eq, Structural)]
pub struct Screen {
    pub player: ScreenPosition,
    pub opponent: ScreenPosition,
    pub ball: Option<ScreenPosition>,
    pub target: Option<ScreenPosition>,
}

/// A match in progress.
pub struct Game {
    pub player: Player,
    pub opponent: Opponent,
    pub phase: Phase,
    pub events: Events,
    pub half_distance: i64,
    pub forward_speed: i64,
    pub arc: ArcSolution,
}

impl Phase {
    pub open spec fn wf(&self) -> bool {
        match *self {
            Phase::Idle => true,
            Phase::Flying(b) => b.projectile.wf() && b.position.wf(),
            Phase::Pursuing(t) => t.wf(),
        }
    }
}

/// The phase after one tick of flight: a ball in the air moves on, and once
/// it reaches its landing point it gives way to its target.
pub open spec fn flown(phase: Phase, dt: int) -> Phase {
    match phase {
        Phase::Flying(b) => {
            let p = b.projectile.advanced(dt);
            let pos = b.projectile.moved(b.position, dt);
            if p.landed_at(pos) {
                Phase::Pursuing(p.target_spec())
            } else {
                Phase::Flying(Ball { projectile: p, position: pos })
            }
        },
        _ => phase,
    }
}

/// The opponent catches the target during this tick.
pub open spec fn caught_in(phase: Phase, o: Opponent) -> bool {
    match phase {
        Phase::Pursuing(t) => !pursuing(o.position, t.position),
        _ => false,
    }
}

/// The opponent after one tick of the interception pass.
pub open spec fn opponent_after(phase: Phase, o: Opponent, dt: int) -> Opponent {
    match phase {
        Phase::Pursuing(t) => if pursuing(o.position, t.position) {
            Opponent { position: ran_toward(o.position, t.position, o.speed as int, dt), ..o }
        } else {
            o
        },
        _ => o,
    }
}

/// The phase after the interception pass: a caught target ends the cycle.
pub open spec fn phase_after_pursuit(phase: Phase, o: Opponent) -> Phase {
    if caught_in(phase, o) {
        Phase::Idle
    } else {
        phase
    }
}

/// Return signals raised over a run of ticks in which no ball is launched:
/// tick `i` lasts `dts[i]` microseconds and runs the flight and interception
/// passes from `phase`, with the opponent `o`.
pub open spec fn returns_over_run(phase: Phase, o: Opponent, dts: Seq<int>) -> nat
    decreases dts.len(),
{
    if dts.len() == 0 {
        0
    } else {
        let flying = flown(phase, dts[0]);
        let here: nat = if caught_in(flying, o) {
            1
        } else {
            0
        };
        here + returns_over_run(
            phase_after_pursuit(flying, o),
            opponent_after(flying, o, dts[0]),
            dts.drop_first(),
        )
    }
}

/// With no ball and no target, no tick raises a return signal.
pub proof fn lemma_idle_run_raises_no_return(o: Opponent, dts: Seq<int>)
    ensures
        returns_over_run(Phase::Idle, o, dts) == 0,
    decreases dts.len(),
{
    if dts.len() > 0 {
        lemma_idle_run_raises_no_return(o, dts.drop_first());
    }
}

/// Over any run of ticks in which no ball is launched, at most one return
/// signal is raised: the tick that catches the target ends the cycle, and
/// an idle match raises none.
pub proof fn lemma_one_return_per_cycle(phase: Phase, o: Opponent, dts: Seq<int>)
    ensures
        returns_over_run(phase, o, dts) <= 1,
    decreases dts.len(),
{
    if dts.len() > 0 {
        let flying = flown(phase, dts[0]);
        let next_o = opponent_after(flying, o, dts[0]);
        if caught_in(flying, o) {
            lemma_idle_run_raises_no_return(next_o, dts.drop_first());
        } else {
            lemma_one_return_per_cycle(phase_after_pursuit(flying, o), next_o, dts.drop_first());
        }
    }
}

/// The throw gesture claims the tick: the key is held or was just released.
pub open spec fn gesture(controls: Controls) -> bool {
    controls.throw_held || controls.throw_released
}

/// The player after one tick's movement pass: a tick claimed by the throw
/// gesture leaves it where it is.
pub open spec fn player_step(p: Player, controls: Controls, dt: int) -> Player {
    if gesture(controls) {
        p
    } else {
        Player { position: walked(p.position, p.speed as int, controls.movement, dt), ..p }
    }
}

/// The player after the movement passes of a run of ticks of `dt` each.
pub open spec fn player_after_run(p: Player, run: Seq<Controls>, dt: int) -> Player
    decreases run.len(),
{
    if run.len() == 0 {
        p
    } else {
        player_after_run(player_step(p, run[0], dt), run.drop_first(), dt)
    }
}

/// Every tick of a run in which the throw key is held, or released, keeps
/// the player where it stood.
pub proof fn lemma_gesture_holds_player(p: Player, run: Seq<Controls>, dt: int)
    requires
        forall|i: int| 0 <= i < run.len() ==> gesture(#[trigger] run[i]),
    ensures
        player_after_run(p, run, dt) == p,
    decreases run.len(),
{
    if run.len() > 0 {
        assert(gesture(run[0]));
        let rest = run.drop_first();
        assert forall|i: int| 0 <= i < rest.len() implies gesture(#[trigger] rest[i]) by {
            assert(rest[i] == run[i + 1]);
        }
        lemma_gesture_holds_player(p, rest, dt);
    }
}

/// After a run of ticks claimed by the throw gesture, which ends on the tick
/// the key is released, the player walks again on the first tick without the
/// gesture.
pub proof fn lemma_movement_resumes_after_release(
    p: Player,
    run: Seq<Controls>,
    next: Controls,
    dt: int,
)
    requires
        forall|i: int| 0 <= i < run.len() ==> gesture(#[trigger] run[i]),
        !gesture(next),
    ensures
        player_after_run(p, run.push(next), dt).position == walked(
            p.position,
            p.speed as int,
            next.movement,
            dt,
        ),
    decreases run.len(),
{
    if run.len() == 0 {
        let one = run.push(next);
        assert(one[0] == next);
        assert(one.drop_first().len() == 0);
        assert(player_after_run(p, one, dt) == player_after_run(
            player_step(p, next, dt),
            one.drop_first(),
            dt,
        ));
    } else {
        let rest = run.drop_first();
        assert forall|i: int| 0 <= i < rest.len() implies gesture(#[trigger] rest[i]) by {
            assert(rest[i] == run[i + 1]);
        }
        assert(run.push(next).drop_first() =~= rest.push(next));
        assert(gesture(run[0]));
        assert(run.push(next)[0] == run[0]);
        assert(player_step(p, run[0], dt) == p);
        assert(player_after_run(p, run.push(next), dt) == player_after_run(p, rest.push(next), dt));
        lemma_movement_resumes_after_release(p, rest, next, dt);
    }
}

impl Game {
    pub open spec fn wf(&self) -> bool {
        &&& self.player.wf()
        &&& self.opponent.wf()
        &&& self.phase.wf()
        &&& 0 < self.half_distance <= MAGNITUDE_LIMIT
        &&& in_range(self.forward_speed as int)
        &&& in_range(self.arc.vertical_speed as int)
        &&& in_range(self.arc.gravity as int)
    }

    /// The player after the movement pass.
    pub open spec fn player_after(&self, controls: Controls, dt: int) -> Player {
        player_step(self.player, controls, dt)
    }

    /// The ball a throw from `from` launches.
    pub open spec fn thrown_from(&self, from: CartesianTransform) -> Ball {
        Ball {
            projectile: Projectile {
                velocity: crate::ball::Velocity { x: self.forward_speed, y: self.arc.vertical_speed },
                gravity: self.arc.gravity,
                height: 0,
                landing_x: from.x,
                landing_y: (from.y + 2 * self.half_distance) as i64,
            },
            position: from,
        }
    }

    /// The phase after the throw pass: releasing the key while idle launches a ball.
    pub open spec fn phase_after_throw(&self, controls: Controls, dt: int) -> Phase {
        if controls.throw_released && self.phase == Phase::Idle {
            Phase::Flying(self.thrown_from(self.player_after(controls, dt).position))
        } else {
            self.phase
        }
    }

    /// The phase after the throw and flight passes.
    pub open spec fn phase_after_flight(&self, controls: Controls, dt: int) -> Phase {
        flown(self.phase_after_throw(controls, dt), dt)
    }

    /// Starts a match with the given throw shape. The shape is rejected, with
    /// the solver's error, when the solver rejects it.
    pub fn new(config: &ThrowConfig) -> (r: Result<Game, ArcError>)
        ensures
            match arc_result(
                config.half_distance as int,
                config.arc_height as int,
                config.forward_speed as int,
            ) {
                Err(e) => r == Err::<Game, ArcError>(e),
                Ok(arc) => r matches Ok(g) && {
                    &&& g.wf()
                    &&& g.player == starting_player()
                    &&& g.opponent == starting_opponent()
                    &&& g.phase == Phase::Idle
                    &&& g.events.throw_count() == 0
                    &&& g.events.return_count() == 0
                    &&& g.half_distance == config.half_distance
                    &&& g.forward_speed == config.forward_speed
                    &&& g.arc == arc
                },
            },
    {
        match solve_arc(config.half_distance, config.arc_height, config.forward_speed) {
            Err(e) => Err(e),
            Ok(arc) => {
                let (player, opponent) = create_characters();
                Ok(
                    Game {
                        player,
                        opponent,
                        phase: Phase::Idle,
                        events: Events::new(),
                        half_distance: config.half_distance,
                        forward_speed: config.forward_speed,
                        arc,
                    },
                )
            },
        }
    }

    /// Advances the match by one tick of `dt` microseconds. The passes run in
    /// this order: the signals of the previous tick are dropped; the throw
    /// gesture raises a throw signal; the player walks unless a throw signal
    /// is pending; releasing the throw key while idle launches a ball from
    /// the player; a ball in flight moves on and, on reaching its landing
    /// point, gives way to its target; the opponent runs to a target and, on
    /// catching it, raises a return signal and ends the cycle.
    pub fn tick(&mut self, controls: &Controls, dt: u32)
        requires
            old(self).wf(),
        ensures
            final(self).wf(),
            final(self).half_distance == old(self).half_distance,
            final(self).forward_speed == old(self).forward_speed,
            final(self).arc == old(self).arc,
            final(self).events.throw_count() == (if gesture(*controls) {
                1nat
            } else {
                0nat
            }),
            final(self).player == old(self).player_after(*controls, dt as int),
            final(self).opponent == opponent_after(
                old(self).phase_after_flight(*controls, dt as int),
                old(self).opponent,
                dt as int,
            ),
            final(self).phase == phase_after_pursuit(
                old(self).phase_after_flight(*controls, dt as int),
                old(self).opponent,
            ),
            final(self).events.return_count() == (if caught_in(
                old(self).phase_after_flight(*controls, dt as int),
                old(self).opponent,
            ) {
                1nat
            } else {
                0nat
            }),
    {
        self.events.clear();
        if controls.throw_held || controls.throw_released {
            self.events.send_throw();
        }
        self.player.move_player(&controls.movement, &self.events, dt);
        if controls.throw_released {
            if let Phase::Idle = self.phase {
                let projectile = Projectile::launch(
                    &self.player.position,
                    self.half_distance,
                    self.forward_speed,
                    &self.arc,
                );
                self.phase = Phase::Flying(Ball { projectile, position: self.player.position });
            }
        }
        if let Phase::Flying(ball) = self.phase {
            let mut b = ball;
            b.projectile.advance(&mut b.position, dt);
            if b.projectile.has_landed(&b.position) {
                self.phase = Phase::Pursuing(b.projectile.target());
            } else {
                self.phase = Phase::Flying(b);
            }
        }
        if let Phase::Pursuing(target) = self.phase {
            let caught = self.opponent.move_opponent(&target, dt);
            if caught {
                self.events.send_return();
                self.phase = Phase::Idle;
            }
        }
    }

    /// Where every entity is drawn. The base projection of every entity is
    /// computed first; the height of a ball in flight is added after that,
    /// to the ball alone.
    pub fn screen_positions(&self) -> (s: Screen)
        requires
            self.wf(),
        ensures
            s.player == project(self.player.position),
            s.opponent == project(self.opponent.position),
            s.target == (match self.phase {
                Phase::Pursuing(t) => Some(project(t.position)),
                _ => None::<ScreenPosition>,
            }),
            s.ball == (match self.phase {
                Phase::Flying(b) => Some(lifted(project(b.position), b.projectile.height as int)),
                _ => None::<ScreenPosition>,
            }),
    {
        let player = cartesian_to_iso(&self.player.position);
        let opponent = cartesian_to_iso(&self.opponent.position);
        let mut ball: Option<ScreenPosition> = None;
        let mut target: Option<ScreenPosition> = None;
        match self.phase {
            Phase::Flying(b) => {
                ball = Some(cartesian_to_iso(&b.position));
            },
            Phase::Pursuing(t) => {
                target = Some(cartesian_to_iso(&t.position));
            },
            Phase::Idle => {},
        }
        if let Phase::Flying(b) = self.phase {
            if let Some(base) = ball {
                let mut raised = base;
                add_ball_height(&mut raised, b.projectile.height);
                ball = Some(raised);
            }
        }
        Screen { player, opponent, ball, target }
    }
}

} // verus!
