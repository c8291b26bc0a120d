use vstd::prelude::*;

verus! {

/// Relies on fastrand::i32 over the half-open range `lo..hi`: a value drawn
/// from the thread-local generator, at least `lo` and below `hi`; it panics
/// on an empty range, which `requires` leaves out.
#[verifier::external_body]
fn random_in(lo: i32, hi: i32) -> (r: i32)
    requires
        lo < hi,
    ensures
        lo <= r < hi,
{
    fastrand::i32(lo..hi)
}

/// The lowest value a color channel is drawn from.
pub const CHANNEL_MIN: i32 = 1;
/// The bound, excluded, below which a color channel is drawn.
pub const CHANNEL_END: i32 = 200;
/// The smallest radius drawn for a particle spawned past the presets.
pub const RADIUS_MIN: i32 = 5;
/// The bound, excluded, below which a spawned radius is drawn.
pub const RADIUS_END: i32 = 50;
/// The smallest velocity component drawn past the presets.
pub const SPEED_MIN: i32 = 1;
/// The bound, excluded, below which a velocity component is drawn.
pub const SPEED_END: i32 = 15;
/// How many spawns follow fixed presets before positions and velocities are
/// drawn.
pub const PRESET_COUNT: usize = 4;
/// Where every particle past the presets appears, on both axes.
pub const SPAWN_CORNER: i32 = 50;

/// A display color as three channels; the simulation never reads it.
#[derive(Clone, Copy, Debug, PartialEq, Eq, Structural)]
pub struct Rgb {
    pub r: i32,
    pub g: i32,
    pub b: i32,
}

impl Rgb {
    /// Every channel lies in the range that spawned colors are drawn from.
    pub open spec fn in_palette(self) -> bool {
        CHANNEL_MIN <= self.r < CHANNEL_END && CHANNEL_MIN <= self.g < CHANNEL_END
            && CHANNEL_MIN <= self.b < CHANNEL_END
    }
}

/// A random color for a new particle, each channel drawn independently.
pub fn random_color() -> (c: Rgb)
    ensures
        c.in_palette(),
{
    let r = random_in(CHANNEL_MIN, CHANNEL_END);
    let g = random_in(CHANNEL_MIN, CHANNEL_END);
    let b = random_in(CHANNEL_MIN, CHANNEL_END);
    Rgb { r, g, b }
}

/// The initial state of a particle about to be appended to the store, in
/// whole units: position, velocity, radius and color.
#[derive(Clone, Copy, Debug, PartialEq, Eq, Structural)]
pub struct SpawnSpec {
    pub x: i32,
    pub y: i32,
    pub x_vec: i32,
    pub y_vec: i32,
    pub radius: i32,
    pub color: Rgb,
}

/// The kinematic part of a spawn: `(x, y, x_vec, y_vec, radius)`.
pub open spec fn kinematics(s: SpawnSpec) -> (i32, i32, i32, i32, i32) {
    (s.x, s.y, s.x_vec, s.y_vec, s.radius)
}

/// The fixed start of the first particles: two large ones at rest or moving
/// left on the right, two small ones moving right on the left.
pub open spec fn preset(count: nat) -> (i32, i32, i32, i32, i32)
    recommends
        count < PRESET_COUNT,
{
    if count == 0 {
        (700, 200, 0, 0, 50)
    } else if count == 1 {
        (100, 200, 7, 0, 15)
    } else if count == 2 {
        (700, 300, -7i32, 0, 50)
    } else {
        (100, 300, 5, 0, 15)
    }
}

/// The spawn that follows `count` particles, given the values drawn for the
/// radius, the two velocity components and the color. The first particles
/// follow the presets and ignore the draws; later ones start in the corner
/// with the drawn velocity and radius.
pub open spec fn spawn_of(count: nat, radius: i32, x_vec: i32, y_vec: i32, color: Rgb) -> SpawnSpec {
    if count < PRESET_COUNT {
        let p = preset(count);
        SpawnSpec { x: p.0, y: p.1, x_vec: p.2, y_vec: p.3, radius: p.4, color }
    } else {
        SpawnSpec { x: SPAWN_CORNER, y: SPAWN_CORNER, x_vec, y_vec, radius, color }
    }
}

/// The spawn that follows `count` particles, from the drawn values.
pub fn spawn_spec(count: usize, radius: i32, x_vec: i32, y_vec: i32, color: Rgb) -> (s: SpawnSpec)
    ensures
        s == spawn_of(count as nat, radius, x_vec, y_vec, color),
{
    if count == 0 {
        SpawnSpec { x: 700, y: 200, x_vec: 0, y_vec: 0, radius: 50, color }
    } else if count == 1 {
        SpawnSpec { x: 100, y: 200, x_vec: 7, y_vec: 0, radius: 15, color }
    } else if count == 2 {
        SpawnSpec { x: 700, y: 300, x_vec: -7, y_vec: 0, radius: 50, color }
    } else if count == 3 {
        SpawnSpec { x: 100, y: 300, x_vec: 5, y_vec: 0, radius: 15, color }
    } else {
        SpawnSpec { x: SPAWN_CORNER, y: SPAWN_CORNER, x_vec, y_vec, radius, color }
    }
}

/// The spawn that follows `count` particles, drawing the random parts: a
/// preset for the first ones, otherwise the corner with a drawn radius and
/// velocity; the color is always drawn. The radius is positive either way.
pub fn next_spawn(count: usize) -> (s: SpawnSpec)
    ensures
        count < PRESET_COUNT ==> kinematics(s) == preset(count as nat),
        count >= PRESET_COUNT ==> s.x == SPAWN_CORNER && s.y == SPAWN_CORNER,
        count >= PRESET_COUNT ==> SPEED_MIN <= s.x_vec < SPEED_END && SPEED_MIN <= s.y_vec < SPEED_END,
        count >= PRESET_COUNT ==> RADIUS_MIN <= s.radius < RADIUS_END,
        s.color.in_palette(),
        s.radius > 0,
{
    let radius = random_in(RADIUS_MIN, RADIUS_END);
    let color = random_color();
    let mut x_vec: i32 = 0;
    let mut y_vec: i32 = 0;
    if count >= PRESET_COUNT {
        x_vec = random_in(SPEED_MIN, SPEED_END);
        y_vec = random_in(SPEED_MIN, SPEED_END);
    }
    spawn_spec(count, radius, x_vec, y_vec, color)
}

} // verus!
