//! The simulation system: per tick, integrate velocity and gravity for
//! every entity, then — in a separate second pass, so collision response
//! sees fully updated positions — bounce entities off the window edges.

use vstd::prelude::*;
use crate::components::{Position, Velocity};
use crate::math::{Vec2i, coord_bounded, COORD_LIMIT};
use crate::rng::rand_i64_range;

verus! {

/// Downward acceleration per tick: three quarters of a pixel, exact in
/// quarter-pixel units.
pub const GRAVITY: i64 = 3;

/// Chance, in percent, that a floor bounce is damped by an extra
/// downward impulse.
pub const DAMP_PERCENT: i64 = 50;

/// The damping impulse is drawn from `0..DAMP_LIMIT`: up to six pixels.
pub const DAMP_LIMIT: i64 = 24;

/// Bound on coordinates that have been through one integration step;
/// roomy enough that boundary correction can negate and damp them
/// without overflow.
pub const SIM_LIMIT: i64 = 0x400_0000_0000_0000;

/// Both coordinates of `v` lie within the post-integration bound.
pub open spec fn sim_bounded(v: Vec2i) -> bool {
    -SIM_LIMIT <= v.x <= SIM_LIMIT && -SIM_LIMIT <= v.y <= SIM_LIMIT
}

/// Every position a storage holds is within the post-integration bound.
pub open spec fn positions_sim_bounded(ps: Seq<Option<Position>>) -> bool {
    forall|i: int| 0 <= i < ps.len() && #[trigger] ps[i] is Some ==> sim_bounded(ps[i].unwrap().0)
}

/// Every velocity a storage holds is within the post-integration bound.
pub open spec fn velocities_sim_bounded(vs: Seq<Option<Velocity>>) -> bool {
    forall|i: int| 0 <= i < vs.len() && #[trigger] vs[i] is Some ==> sim_bounded(vs[i].unwrap().0)
}

/// Every velocity a storage holds is coordinate-bounded.
pub open spec fn velocities_bounded(vs: Seq<Option<Velocity>>) -> bool {
    forall|i: int| 0 <= i < vs.len() && #[trigger] vs[i] is Some ==> coord_bounded(vs[i].unwrap().0)
}

/// Where integration moves an entity: one velocity step.
pub open spec fn integrated_position(p: Position, v: Velocity) -> Position {
    Position(Vec2i { x: (p.0.x + v.0.x) as i64, y: (p.0.y + v.0.y) as i64 })
}

/// How integration changes a velocity: gravity pulls down.
pub open spec fn integrated_velocity(v: Velocity) -> Velocity {
    Velocity(Vec2i { x: v.0.x, y: (v.0.y - GRAVITY) as i64 })
}

/// Boundary correction for one entity. Horizontally, leaving either edge
/// reflects the horizontal velocity and clamps to that edge. Vertically,
/// leaving the top zeroes the vertical velocity and clamps; leaving the
/// bottom reflects the vertical velocity, clamps to zero and — when the
/// percent coin lands under `DAMP_PERCENT` — subtracts the damping
/// impulse. An entity inside the window is untouched.
pub open spec fn bounced(p: Position, v: Velocity, size: Vec2i, coin: i64, impulse: i64) -> (
    Position,
    Velocity,
) {
    let px = p.0.x;
    let py = p.0.y;
    let vx = v.0.x;
    let vy = v.0.y;
    let qx: (i64, i64) = if px > size.x {
        (size.x, (-vx) as i64)
    } else if px < 0 {
        (0, (-vx) as i64)
    } else {
        (px, vx)
    };
    let qy: (i64, i64) = if py > size.y {
        (size.y, 0)
    } else if py < 0 {
        let up = (-vy) as i64;
        (0, if coin < DAMP_PERCENT {
            (up - impulse) as i64
        } else {
            up
        })
    } else {
        (py, vy)
    };
    (Position(Vec2i { x: qx.0, y: qy.0 }), Velocity(Vec2i { x: qx.1, y: qy.1 }))
}

/// `q`/`w` are a possible result of boundary-correcting `p`/`v`: they
/// arise from some value of the coin and the damping impulse.
pub open spec fn bounce_outcome(
    p: Position,
    v: Velocity,
    size: Vec2i,
    q: Position,
    w: Velocity,
) -> bool {
    exists|coin: i64, impulse: i64|
        0 <= coin < 100 && 0 <= impulse < DAMP_LIMIT && (#[trigger] bounced(
            p,
            v,
            size,
            coin,
            impulse,
        )) == (q, w)
}

/// Boundary correction as executable code, for a known coin and impulse.
pub fn correct_boundary(p: Position, v: Velocity, size: Vec2i, coin: i64, impulse: i64) -> (r: (
    Position,
    Velocity,
))
    requires
        sim_bounded(p.0),
        sim_bounded(v.0),
        sim_bounded(size),
        0 <= impulse < DAMP_LIMIT,
    ensures
        r == bounced(p, v, size, coin, impulse),
{
    let mut px = p.0.x;
    let mut py = p.0.y;
    let mut vx = v.0.x;
    let mut vy = v.0.y;
    if px > size.x {
        vx = -vx;
        px = size.x;
    } else if px < 0 {
        vx = -vx;
        px = 0;
    }
    if py > size.y {
        vy = 0;
        py = size.y;
    } else if py < 0 {
        vy = -vy;
        py = 0;
        if coin < DAMP_PERCENT {
            vy = vy - impulse;
        }
    }
    (Position(Vec2i { x: px, y: py }), Velocity(Vec2i { x: vx, y: vy }))
}

/// Boundary correction settles after one application: a corrected entity
/// lies inside the window, so a second pass — whatever its coin and
/// impulse — changes nothing.
pub proof fn lemma_boundary_idempotent(
    p: Position,
    v: Velocity,
    size: Vec2i,
    c1: i64,
    i1: i64,
    c2: i64,
    i2: i64,
)
    requires
        0 <= size.x,
        0 <= size.y,
    ensures
        ({
            let (q, w) = bounced(p, v, size, c1, i1);
            bounced(q, w, size, c2, i2) == (q, w)
        }),
{
}

/// An entity already inside the window is left untouched by boundary
/// correction, whatever the coin and impulse.
pub proof fn lemma_boundary_in_bounds_noop(
    p: Position,
    v: Velocity,
    size: Vec2i,
    coin: i64,
    impulse: i64,
)
    requires
        0 <= p.0.x <= size.x,
        0 <= p.0.y <= size.y,
    ensures
        bounced(p, v, size, coin, impulse) == (p, v),
{
}

/// The simulation system.
pub struct MoveSystem;

/// First pass: for every entity with both components, step the position by
/// the velocity and the vertical velocity down by gravity. Entities missing
/// either component are untouched.
pub fn integrate_pass(
    positions: &mut Vec<Option<Position>>,
    velocities: &mut Vec<Option<Velocity>>,
)
    requires
        old(positions)@.len() == old(velocities)@.len(),
        crate::batch::positions_bounded(old(positions)@),
        velocities_bounded(old(velocities)@),
    ensures
        final(positions)@.len() == old(positions)@.len(),
        final(velocities)@.len() == old(velocities)@.len(),
        forall|i: int|
            0 <= i < old(positions)@.len() && (#[trigger] old(positions)@[i]) is Some && old(
                velocities,
            )@[i] is Some ==> final(positions)@[i] == Some(
                integrated_position(old(positions)@[i].unwrap(), old(velocities)@[i].unwrap()),
            ) && final(velocities)@[i] == Some(integrated_velocity(old(velocities)@[i].unwrap())),
        forall|i: int|
            0 <= i < old(positions)@.len() && !((#[trigger] old(positions)@[i]) is Some && old(
                velocities,
            )@[i] is Some) ==> final(positions)@[i] == old(positions)@[i] && final(velocities)@[i]
                == old(velocities)@[i],
{
    let n = positions.len();
    let mut i: usize = 0;
    while i < n
        invariant
            i <= n,
            n == positions@.len(),
            n == velocities@.len(),
            positions@.len() == old(positions)@.len(),
            velocities@.len() == old(velocities)@.len(),
            crate::batch::positions_bounded(old(positions)@),
            velocities_bounded(old(velocities)@),
            forall|j: int|
                0 <= j < i && (#[trigger] old(positions)@[j]) is Some && old(velocities)@[j]
                    is Some ==> positions@[j] == Some(
                    integrated_position(old(positions)@[j].unwrap(), old(velocities)@[j].unwrap()),
                ) && velocities@[j] == Some(integrated_velocity(old(velocities)@[j].unwrap())),
            forall|j: int|
                0 <= j < i && !((#[trigger] old(positions)@[j]) is Some && old(velocities)@[j]
                    is Some) ==> positions@[j] == old(positions)@[j] && velocities@[j] == old(
                    velocities,
                )@[j],
            forall|j: int|
                i <= j < n ==> positions@[j] == old(positions)@[j] && velocities@[j] == old(
                    velocities,
                )@[j],
        decreases n - i,
    {
        let pv = positions[i];
        let vv = velocities[i];
        match pv {
            Some(p) => {
                match vv {
                    Some(v) => {
                        let np = Position(
                            Vec2i { x: p.0.x + v.0.x, y: p.0.y + v.0.y },
                        );
                        let nv = Velocity(Vec2i { x: v.0.x, y: v.0.y - GRAVITY });
                        positions[i] = Some(np);
                        velocities[i] = Some(nv);
                    },
                    None => {},
                }
            },
            None => {},
        }
        i = i + 1;
    }
}

/// Second pass: boundary correction for every entity with both
/// components. On a floor bounce the damping coin and impulse are drawn
/// fresh for each entity, so the outcome is pinned only up to them.
pub fn boundary_pass(
    positions: &mut Vec<Option<Position>>,
    velocities: &mut Vec<Option<Velocity>>,
    size: Vec2i,
)
    requires
        old(positions)@.len() == old(velocities)@.len(),
        positions_sim_bounded(old(positions)@),
        velocities_sim_bounded(old(velocities)@),
        sim_bounded(size),
    ensures
        final(positions)@.len() == old(positions)@.len(),
        final(velocities)@.len() == old(velocities)@.len(),
        forall|i: int|
            0 <= i < old(positions)@.len() && (#[trigger] old(positions)@[i]) is Some && old(
                velocities,
            )@[i] is Some ==> final(positions)@[i] is Some && final(velocities)@[i] is Some
                && bounce_outcome(
                old(positions)@[i].unwrap(),
                old(velocities)@[i].unwrap(),
                size,
                final(positions)@[i].unwrap(),
                final(velocities)@[i].unwrap(),
            ),
        forall|i: int|
            0 <= i < old(positions)@.len() && !((#[trigger] old(positions)@[i]) is Some && old(
                velocities,
            )@[i] is Some) ==> final(positions)@[i] == old(positions)@[i] && final(velocities)@[i]
                == old(velocities)@[i],
{
    let n = positions.len();
    let mut i: usize = 0;
    while i < n
        invariant
            i <= n,
            n == positions@.len(),
            n == velocities@.len(),
            positions@.len() == old(positions)@.len(),
            velocities@.len() == old(velocities)@.len(),
            positions_sim_bounded(old(positions)@),
            velocities_sim_bounded(old(velocities)@),
            sim_bounded(size),
            forall|j: int|
                0 <= j < i && (#[trigger] old(positions)@[j]) is Some && old(velocities)@[j]
                    is Some ==> positions@[j] is Some && velocities@[j] is Some && bounce_outcome(
                    old(positions)@[j].unwrap(),
                    old(velocities)@[j].unwrap(),
                    size,
                    positions@[j].unwrap(),
                    velocities@[j].unwrap(),
                ),
            forall|j: int|
                0 <= j < i && !((#[trigger] old(positions)@[j]) is Some && old(velocities)@[j]
                    is Some) ==> positions@[j] == old(positions)@[j] && velocities@[j] == old(
                    velocities,
                )@[j],
            forall|j: int|
                i <= j < n ==> positions@[j] == old(positions)@[j] && velocities@[j] == old(
                    velocities,
                )@[j],
        decreases n - i,
    {
        let pv = positions[i];
        let vv = velocities[i];
        match pv {
            Some(p) => {
                match vv {
                    Some(v) => {
                        let needs_damp_draw = p.0.y < 0;
                        let coin: i64 = if needs_damp_draw {
                            rand_i64_range(0, 100)
                        } else {
                            99
                        };
                        let impulse: i64 = if needs_damp_draw && coin < DAMP_PERCENT {
                            rand_i64_range(0, DAMP_LIMIT)
                        } else {
                            0
                        };
                        let (np, nv) = correct_boundary(p, v, size, coin, impulse);
                        positions[i] = Some(np);
                        velocities[i] = Some(nv);
                        proof {
                            assert(bounced(p, v, size, coin, impulse) == (np, nv));
                            assert(bounce_outcome(p, v, size, np, nv));
                        }
                    },
                    None => {},
                }
            },
            None => {},
        }
        i = i + 1;
    }
}

impl MoveSystem {
    /// One simulation tick over the whole population: integration for all
    /// entities completes before any boundary correction is applied.
    pub fn run(
        &self,
        positions: &mut Vec<Option<Position>>,
        velocities: &mut Vec<Option<Velocity>>,
        size: Vec2i,
    )
        requires
            old(positions)@.len() == old(velocities)@.len(),
            crate::batch::positions_bounded(old(positions)@),
            velocities_bounded(old(velocities)@),
            0 <= size.x <= COORD_LIMIT,
            0 <= size.y <= COORD_LIMIT,
        ensures
            final(positions)@.len() == old(positions)@.len(),
            final(velocities)@.len() == old(velocities)@.len(),
            forall|i: int|
                0 <= i < old(positions)@.len() && (#[trigger] old(positions)@[i]) is Some && old(
                    velocities,
                )@[i] is Some ==> final(positions)@[i] is Some && final(velocities)@[i] is Some
                    && bounce_outcome(
                    integrated_position(old(positions)@[i].unwrap(), old(velocities)@[i].unwrap()),
                    integrated_velocity(old(velocities)@[i].unwrap()),
                    size,
                    final(positions)@[i].unwrap(),
                    final(velocities)@[i].unwrap(),
                ),
            forall|i: int|
                0 <= i < old(positions)@.len() && !((#[trigger] old(positions)@[i]) is Some && old(
                    velocities,
                )@[i] is Some) ==> final(positions)@[i] == old(positions)@[i]
                    && final(velocities)@[i] == old(velocities)@[i],
            forall|i: int|
                0 <= i < old(positions)@.len() && (#[trigger] old(positions)@[i]) is Some && old(
                    velocities,
                )@[i] is Some ==> 0 <= final(positions)@[i].unwrap().0.x <= size.x
                    && 0 <= final(positions)@[i].unwrap().0.y <= size.y,
    {
        integrate_pass(positions, velocities);
        proof {
            assert forall|i: int|
                0 <= i < positions@.len() && #[trigger] positions@[i] is Some implies sim_bounded(
                positions@[i].unwrap().0,
            ) by {
                if old(positions)@[i] is Some && old(velocities)@[i] is Some {
                } else {
                }
            }
            assert forall|i: int|
                0 <= i < velocities@.len() && #[trigger] velocities@[i] is Some implies sim_bounded(
                velocities@[i].unwrap().0,
            ) by {
                if old(positions)@[i] is Some && old(velocities)@[i] is Some {
                } else {
                }
            }
        }
        boundary_pass(positions, velocities, size);
    }
}

} // verus!
