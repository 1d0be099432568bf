//! The simulation: the player's state together with the velocity of its
//! body, advanced one tick at a time.

use crate::keys::KeyState;
use crate::player::apply_force;
use crate::player::body_model;
use crate::player::integrate;
use crate::player::is_heading;
use crate::player::lemma_integrate_accumulates;
use crate::player::lemma_steer_idempotent;
use crate::player::lemma_steer_keeps_heading;
use crate::player::player_input;
use crate::player::steer;
use crate::player::PlayerModel;
use crate::player::PlayerState;
use crate::player::DEFAULT_SPEED;
use crate::vector::Vec3;
use crate::vector::Vector;
use vstd::prelude::*;

verus! {

/// The model of a simulation.
pub struct SimulationModel {
    pub player: PlayerModel,
    pub velocity: Option<Vector>,
}

impl SimulationModel {
    /// The simulation one tick later: first the input mapper steers the
    /// player, then the velocity integrator drives the body in the new
    /// direction for `elapsed` microseconds.
    pub open spec fn after_tick(self, keys: KeyState, elapsed: int) -> SimulationModel {
        let player = PlayerModel {
            direction: steer(self.player.direction, keys),
            speed: self.player.speed,
        };
        SimulationModel { player, velocity: integrate(self.velocity, player, elapsed) }
    }
}

/// What the two operations of a tick work on: the player's state, and the
/// linear velocity of the player's body.
#[derive(Clone, Copy, Debug)]
pub struct Simulation {
    pub player: PlayerState,
    /// `None` as long as the body does not exist.
    pub velocity: Option<Vec3>,
}

impl View for Simulation {
    type V = SimulationModel;

    open spec fn view(&self) -> SimulationModel {
        SimulationModel { player: self.player@, velocity: body_model(self.velocity) }
    }
}

impl Simulation {
    /// The simulation at its start: a player with the default speed that
    /// heads nowhere, and a body at rest.
    pub fn new() -> (sim: Simulation)
        ensures
            sim@ == (SimulationModel {
                player: PlayerModel { direction: Vector::zero(), speed: DEFAULT_SPEED as int },
                velocity: Some(Vector::zero()),
            }),
    {
        Simulation { player: PlayerState::new(), velocity: Some(Vec3 { x: 0, y: 0, z: 0 }) }
    }

    /// Advances the simulation by one tick of `elapsed` microseconds during
    /// which `keys` are down: the input mapper runs, then the velocity
    /// integrator, which sees the direction of this tick.
    pub fn tick(&mut self, keys: KeyState, elapsed: u32)
        requires
            old(self)@.after_tick(keys, elapsed as int).velocity matches Some(v) ==> v.fits(),
        ensures
            final(self)@ == old(self)@.after_tick(keys, elapsed as int),
    {
        player_input(&mut self.player, keys);
        apply_force(&mut self.velocity, &self.player, elapsed);
    }
}

/// A tick leaves the player's speed as it was, and the player heading along
/// an axis or nowhere, if it was before.
pub proof fn lemma_tick_keeps_player_valid(start: SimulationModel, keys: KeyState, elapsed: int)
    requires
        is_heading(start.player.direction),
    ensures
        start.after_tick(keys, elapsed).player.speed == start.player.speed,
        is_heading(start.after_tick(keys, elapsed).player.direction),
{
    lemma_steer_keeps_heading(start.player.direction, keys);
}

/// Two ticks with the same keys down: the second tick leaves the player as
/// the first did and adds to the velocity once more, so that the body
/// accelerates. The velocity after the second tick differs from the one
/// after the first, unless the player heads nowhere, its speed is zero or
/// the second tick took no time.
pub proof fn lemma_held_keys_accelerate(
    start: SimulationModel,
    keys: KeyState,
    first: int,
    second: int,
)
    requires
        start.velocity is Some,
    ensures
        ({
            let once = start.after_tick(keys, first);
            let twice = once.after_tick(keys, second);
            &&& twice.player == once.player
            &&& twice.velocity == start.after_tick(keys, first + second).velocity
            &&& once.player.direction != Vector::zero() && once.player.speed != 0 && second != 0
                ==> twice.velocity != once.velocity
        }),
{
    let once: SimulationModel = start.after_tick(keys, first);
    lemma_steer_idempotent(start.player.direction, keys);
    lemma_integrate_accumulates(start.velocity->0, once.player, first, second);
}

} // verus!
