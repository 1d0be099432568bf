//! The player's locomotion state, the input mapper that steers it and the
//! velocity integrator that turns its direction into a change of velocity.
//!
//! All quantities are integers in fixed units, chosen so that a speed times
//! a time is a velocity without rounding: speed is in thousandths of a world
//! unit per second, time in microseconds, velocity in billionths of a world
//! unit per second.

use crate::keys::Key;
use crate::keys::KeyState;
use crate::vector::Vec3;
use crate::vector::Vector;
use vstd::prelude::*;

verus! {

/// The speed of a newly made player: five world units per second.
pub const DEFAULT_SPEED: i32 = 5000;

/// The direction that `key` commands.
pub open spec fn commanded(key: Key) -> Vector {
    match key {
        Key::A => Vector { x: -1, y: 0, z: 0 },
        Key::D => Vector { x: 1, y: 0, z: 0 },
        Key::S => Vector { x: 0, y: 0, z: 1 },
        Key::W => Vector { x: 0, y: 0, z: -1 },
    }
}

/// Whether `d` is a direction that a player can be heading in: nowhere, or
/// one way along the x axis or the z axis.
pub open spec fn is_heading(d: Vector) -> bool {
    ||| d == Vector::zero()
    ||| d == commanded(Key::A)
    ||| d == commanded(Key::D)
    ||| d == commanded(Key::S)
    ||| d == commanded(Key::W)
}

/// The direction of a player that was heading in `current`, once `keys`
/// have been applied. Of the keys that are down the one of highest priority
/// decides, W before S before D before A; with no key down the player keeps
/// its direction.
pub open spec fn steer(current: Vector, keys: KeyState) -> Vector {
    if keys.w {
        commanded(Key::W)
    } else if keys.s {
        commanded(Key::S)
    } else if keys.d {
        commanded(Key::D)
    } else if keys.a {
        commanded(Key::A)
    } else {
        current
    }
}

/// The direction after `key` alone has been looked at: what it commands if
/// it is down, else `current`.
pub open spec fn overwrite(current: Vector, keys: KeyState, key: Key) -> Vector {
    if keys.holds(key) {
        commanded(key)
    } else {
        current
    }
}

/// The direction after the four keys have been looked at one after the
/// other, in the order A, D, S, W.
pub open spec fn overwrite_in_order(current: Vector, keys: KeyState) -> Vector {
    overwrite(
        overwrite(overwrite(overwrite(current, keys, Key::A), keys, Key::D), keys, Key::S),
        keys,
        Key::W,
    )
}

/// The change of velocity over `elapsed` microseconds of a body that is
/// driven in `direction` at `speed`.
pub open spec fn velocity_change(direction: Vector, speed: int, elapsed: int) -> Vector {
    direction.times(speed * elapsed)
}

/// The model of a player's locomotion state.
pub struct PlayerModel {
    pub direction: Vector,
    pub speed: int,
}

/// What the velocity integrator leaves of the velocity of the player's
/// body after `elapsed` microseconds: the velocity with the change added, or
/// nothing where there is no body yet.
pub open spec fn integrate(velocity: Option<Vector>, player: PlayerModel, elapsed: int) -> Option<
    Vector,
> {
    match velocity {
        Some(v) => Some(v.plus(velocity_change(player.direction, player.speed, elapsed))),
        None => None,
    }
}

/// The model of the velocity of a body that may not exist yet.
pub open spec fn body_model(velocity: Option<Vec3>) -> Option<Vector> {
    match velocity {
        Some(v) => Some(v@),
        None => None,
    }
}

/// The locomotion state of the player: the direction it was last commanded
/// in, and its speed. The direction is always a heading.
#[derive(Clone, Copy, Debug)]
pub struct PlayerState {
    direction: Vec3,
    speed: i32,
}

impl View for PlayerState {
    type V = PlayerModel;

    closed spec fn view(&self) -> PlayerModel {
        PlayerModel { direction: self.direction@, speed: self.speed as int }
    }
}

impl PlayerState {
    #[verifier::type_invariant]
    spec fn heads_along_an_axis(self) -> bool {
        is_heading(self.direction@)
    }

    /// A player that heads nowhere and has the default speed.
    pub fn new() -> (player: PlayerState)
        ensures
            player@ == (PlayerModel { direction: Vector::zero(), speed: DEFAULT_SPEED as int }),
    {
        PlayerState { direction: Vec3 { x: 0, y: 0, z: 0 }, speed: DEFAULT_SPEED }
    }

    /// A player that heads nowhere and has the given speed.
    pub fn with_speed(speed: i32) -> (player: PlayerState)
        ensures
            player@ == (PlayerModel { direction: Vector::zero(), speed: speed as int }),
    {
        PlayerState { direction: Vec3 { x: 0, y: 0, z: 0 }, speed }
    }

    /// The direction the player was last commanded in.
    pub fn direction(&self) -> (d: Vec3)
        ensures
            d@ == self@.direction,
            is_heading(d@),
    {
        proof {
            use_type_invariant(self);
        }
        self.direction
    }

    /// The player's speed.
    pub fn speed(&self) -> (s: i32)
        ensures
            s == self@.speed,
    {
        self.speed
    }
}

/// The input mapper: turns the player in the direction that `keys` command.
/// The keys are looked at in the order A, D, S, W, and each one that is down
/// overwrites the direction, so the last of them decides. With no key down
/// the player is left as it was.
pub fn player_input(player: &mut PlayerState, keys: KeyState)
    ensures
        final(player)@.direction == steer(old(player)@.direction, keys),
        final(player)@.speed == old(player)@.speed,
        is_heading(final(player)@.direction),
        !keys.any() ==> final(player)@ == old(player)@,
{
    proof {
        use_type_invariant(&*player);
    }
    if keys.a {
        player.direction = Vec3 { x: -1, y: 0, z: 0 };
    }
    if keys.d {
        player.direction = Vec3 { x: 1, y: 0, z: 0 };
    }
    if keys.s {
        player.direction = Vec3 { x: 0, y: 0, z: 1 };
    }
    if keys.w {
        player.direction = Vec3 { x: 0, y: 0, z: -1 };
    }
}

/// A product with a factor of -1, 0 or 1 is the other factor with that sign.
proof fn lemma_times_sign(sign: int, k: int)
    by (nonlinear_arith)
    requires
        -1 <= sign <= 1,
    ensures
        sign * k == if sign == 0 {
            0
        } else if sign == 1 {
            k
        } else {
            -k
        },
{
}

/// The change of velocity that the player's direction and speed give over
/// `elapsed` microseconds. With no time elapsed there is no change.
pub fn velocity_delta(player: &PlayerState, elapsed: u32) -> (delta: Vec3)
    ensures
        delta@ == velocity_change(player@.direction, player@.speed, elapsed as int),
        elapsed == 0 ==> delta@ == Vector::zero(),
{
    proof {
        use_type_invariant(player);
    }
    let speed: i64 = player.speed as i64;
    let time: i64 = elapsed as i64;
    assert(-0x8000_0000 * 0xffff_ffff <= speed * time <= 0x7fff_ffff * 0xffff_ffff)
        by (nonlinear_arith)
        requires
            -0x8000_0000 <= speed <= 0x7fff_ffff,
            0 <= time <= 0xffff_ffff,
    ;
    let scale: i64 = speed * time;
    proof {
        lemma_times_sign(player.direction.x as int, scale as int);
        lemma_times_sign(player.direction.y as int, scale as int);
        lemma_times_sign(player.direction.z as int, scale as int);
    }
    Vec3 {
        x: player.direction.x * scale,
        y: player.direction.y * scale,
        z: player.direction.z * scale,
    }
}

/// The velocity integrator: adds the player's change of velocity over
/// `elapsed` microseconds to the velocity of its body. Where the body does
/// not exist yet, nothing happens. The player is only read.
pub fn apply_force(velocity: &mut Option<Vec3>, player: &PlayerState, elapsed: u32)
    requires
        integrate(body_model(*old(velocity)), player@, elapsed as int) matches Some(v) ==> v.fits(),
    ensures
        body_model(*final(velocity)) == integrate(
            body_model(*old(velocity)),
            player@,
            elapsed as int,
        ),
        elapsed == 0 ==> *final(velocity) == *old(velocity),
{
    if let Some(v) = *velocity {
        let delta: Vec3 = velocity_delta(player, elapsed);
        *velocity = Some(Vec3 { x: v.x + delta.x, y: v.y + delta.y, z: v.z + delta.z });
    }
}

/// Looking at the keys one after the other, each overwriting the direction,
/// leaves the direction of the key of highest priority that is down.
pub proof fn lemma_last_key_decides(current: Vector, keys: KeyState)
    ensures
        overwrite_in_order(current, keys) == steer(current, keys),
{
}

/// Steering a heading gives a heading.
pub proof fn lemma_steer_keeps_heading(current: Vector, keys: KeyState)
    requires
        is_heading(current),
    ensures
        is_heading(steer(current, keys)),
{
}

/// Steering twice by the same keys is steering once.
pub proof fn lemma_steer_idempotent(current: Vector, keys: KeyState)
    ensures
        steer(steer(current, keys), keys) == steer(current, keys),
{
}

/// No time, no change: whatever the direction and the speed, the integrator
/// leaves the velocity as it was.
pub proof fn lemma_no_time_no_change(velocity: Option<Vector>, player: PlayerModel)
    ensures
        velocity_change(player.direction, player.speed, 0) == Vector::zero(),
        integrate(velocity, player, 0) == velocity,
{
}

/// A vector other than zero, multiplied by a number other than zero, is not
/// zero.
proof fn lemma_times_nonzero(v: Vector, k: int)
    by (nonlinear_arith)
    requires
        v != Vector::zero(),
        k != 0,
    ensures
        v.times(k) != Vector::zero(),
{
}

/// While a body is driven in one direction its velocity accumulates: two
/// runs of the integrator add up to one run over the sum of the two times,
/// and the second run changes the velocity again, unless the player heads
/// nowhere, its speed is zero or no time has elapsed.
pub proof fn lemma_integrate_accumulates(
    velocity: Vector,
    player: PlayerModel,
    first: int,
    second: int,
)
    ensures
        integrate(integrate(Some(velocity), player, first), player, second) == integrate(
            Some(velocity),
            player,
            first + second,
        ),
        player.direction != Vector::zero() && player.speed != 0 && second != 0 ==> integrate(
            integrate(Some(velocity), player, first),
            player,
            second,
        ) != integrate(Some(velocity), player, first),
{
    let d: Vector = player.direction;
    let s: int = player.speed;
    assert(d.times(s * first).plus(d.times(s * second)) == d.times(s * (first + second)))
        by (nonlinear_arith);
    if d != Vector::zero() && s != 0 && second != 0 {
        assert(s * second != 0) by (nonlinear_arith)
            requires
                s != 0,
                second != 0,
        ;
        lemma_times_nonzero(d, s * second);
    }
}

} // verus!
