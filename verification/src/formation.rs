//! Enemy formation flight: a bounded elliptical path per enemy, and the
//! maker that draws a fresh path template with randomized geometry.
//!
//! Each tick the path parameter would advance by the angular speed over a
//! quarter ellipse arc; the ship moves toward the ellipse point at that
//! parameter, at most `max_dist` per axis and never past the target; the
//! stored parameter only advances (commits) once the ship has settled
//! within a threshold distance of its target, so a fresh spawn glides onto
//! the ellipse instead of snapping to it.

use vstd::prelude::*;
use crate::components::Pos;
use crate::constants::{
    BASE_SPEED_MILLI, FORMATION_MEMBERS_MAX, PIVOT_LIMIT, POS_LIMIT, RADIUS_MAX, RADIUS_MIN,
    SPEED_LIMIT, START_LIMIT, TWO_PI_MRAD,
};
use crate::fixed::{
    abs_i, isqrt, isqrt_spec, max_i, min_i, mul_div, scale_milli, scale_milli_spec,
};
use crate::resources::WindowSize;
use crate::rng::{rand_in_range, rand_ratio};
use crate::trig::{cos_mrad, cos_mrad_spec, norm_mrad, norm_mrad_spec, sin_mrad, sin_mrad_spec};
use vstd::arithmetic::div_mod::lemma_fundamental_div_mod;
use vstd::arithmetic::div_mod::lemma_mod_division_less_than_divisor;

verus! {

/// Where one tick takes a coordinate moving from `o` toward `t` by at most
/// `s`, never past `t`.
pub open spec fn step_toward(o: int, t: int, s: int) -> int {
    if o > t {
        if o - s >= t {
            o - s
        } else {
            t
        }
    } else if o < t {
        if o + s <= t {
            o + s
        } else {
            t
        }
    } else {
        t
    }
}

/// A bounded elliptical flight path: pivot, radii, angular speed, current
/// path parameter, the spawn point, all in milli units; the rotation
/// direction is determined by the sign of the spawn x-coordinate.
#[derive(Clone, Copy, PartialEq, Eq, Structural, Debug)]
pub struct Formation {
    pub start: Pos,
    pub pivot: Pos,
    pub radius_x: i64,
    pub radius_y: i64,
    pub speed: i64,
    pub angle: i64,
}

impl Formation {
    pub open spec fn wf(self) -> bool {
        &&& RADIUS_MIN <= self.radius_x <= RADIUS_MAX
        &&& RADIUS_MIN <= self.radius_y <= RADIUS_MAX
        &&& self.pivot.in_box(PIVOT_LIMIT as int)
        &&& self.start.in_box(START_LIMIT as int)
        &&& 0 < self.speed <= SPEED_LIMIT
        &&& 0 <= self.angle < TWO_PI_MRAD
    }

    /// The full ellipse lies within the viewport.
    pub open spec fn on_screen(self, win: WindowSize) -> bool {
        &&& abs_i(self.pivot.x as int) + self.radius_x <= win.width / 2
        &&& abs_i(self.pivot.y as int) + self.radius_y <= win.height / 2
    }

    /// Rotation direction: clockwise (+1) for spawns left of centre,
    /// counter-clockwise (-1) otherwise.
    pub open spec fn direction_spec(self) -> int {
        if self.start.x < 0 {
            1
        } else {
            -1
        }
    }

    /// Farthest the ship moves in one tick, in milli-units: the angular
    /// speed times the tick step of 1/60 s.
    pub open spec fn max_dist_spec(self) -> int {
        self.speed / 60
    }

    pub open spec fn min_radius_spec(self) -> int {
        min_i(self.radius_x as int, self.radius_y as int)
    }

    /// Per-tick advance of the path parameter in milli-radians: the tick
    /// displacement over a quarter arc of the tighter radius.
    pub open spec fn delta_angle_spec(self) -> int {
        (self.max_dist_spec() * 2_000_000) / (self.min_radius_spec() * 3142)
    }

    /// The parameter the path heads for this tick.
    pub open spec fn next_angle_spec(self) -> int {
        norm_mrad_spec(self.angle + self.direction_spec() * self.delta_angle_spec())
    }

    /// The ellipse point at the next parameter, offset by the pivot.
    pub open spec fn target_x_spec(self) -> int {
        self.pivot.x + scale_milli_spec(
            cos_mrad_spec(self.next_angle_spec()),
            self.radius_x as int,
        )
    }

    pub open spec fn target_y_spec(self) -> int {
        self.pivot.y + scale_milli_spec(
            sin_mrad_spec(self.next_angle_spec()),
            self.radius_y as int,
        )
    }

    /// Euclidean distance, rounded down, from `pos` to this tick's target.
    pub open spec fn dist_spec(self, pos: Pos) -> int {
        isqrt_spec(
            (pos.x - self.target_x_spec()) * (pos.x - self.target_x_spec()) + (pos.y
                - self.target_y_spec()) * (pos.y - self.target_y_spec()),
        )
    }

    /// The parameter commits only once the ship is closer to its target
    /// than this, so position and parameter stay loosely coupled.
    pub open spec fn commit_threshold_spec(self) -> int {
        (self.max_dist_spec() * self.speed) / 20_000
    }

    pub open spec fn commits_spec(self, pos: Pos) -> bool {
        self.dist_spec(pos) < self.commit_threshold_spec()
    }

    /// The per-axis step length: the axis gap scaled by tick displacement
    /// over distance.  Meaningful only when the distance is not zero.
    pub open spec fn step_x_spec(self, pos: Pos) -> int {
        (abs_i(pos.x - self.target_x_spec()) * self.max_dist_spec()) / self.dist_spec(pos)
    }

    pub open spec fn step_y_spec(self, pos: Pos) -> int {
        (abs_i(pos.y - self.target_y_spec()) * self.max_dist_spec()) / self.dist_spec(pos)
    }

    /// The position one tick of formation flight reaches from `pos`.
    pub open spec fn advanced_x_spec(self, pos: Pos) -> int {
        if self.dist_spec(pos) == 0 {
            self.target_x_spec()
        } else {
            step_toward(pos.x as int, self.target_x_spec(), self.step_x_spec(pos))
        }
    }

    pub open spec fn advanced_y_spec(self, pos: Pos) -> int {
        if self.dist_spec(pos) == 0 {
            self.target_y_spec()
        } else {
            step_toward(pos.y as int, self.target_y_spec(), self.step_y_spec(pos))
        }
    }

    /// One tick of formation flight from `pos`: returns the new position
    /// and commits the path parameter once the ship has settled.
    pub fn advance(&mut self, pos: Pos) -> (r: Pos)
        requires
            old(self).wf(),
            pos.in_box(POS_LIMIT as int),
        ensures
            final(self).wf(),
            final(self).start == old(self).start,
            final(self).pivot == old(self).pivot,
            final(self).radius_x == old(self).radius_x,
            final(self).radius_y == old(self).radius_y,
            final(self).speed == old(self).speed,
            final(self).angle == if old(self).commits_spec(pos) {
                old(self).next_angle_spec()
            } else {
                old(self).angle as int
            },
            r.x == old(self).advanced_x_spec(pos),
            r.y == old(self).advanced_y_spec(pos),
            min_i(pos.x as int, old(self).target_x_spec()) <= r.x <= max_i(
                pos.x as int,
                old(self).target_x_spec(),
            ),
            min_i(pos.y as int, old(self).target_y_spec()) <= r.y <= max_i(
                pos.y as int,
                old(self).target_y_spec(),
            ),
            -4_200_000 <= old(self).target_x_spec() <= 4_200_000,
            -4_200_000 <= old(self).target_y_spec() <= 4_200_000,
            r.in_box(POS_LIMIT as int),
    {
        let ghost f0 = *self;
        let counter_clockwise: bool = self.start.x >= 0;
        let min_r: i64 = if self.radius_x <= self.radius_y {
            self.radius_x
        } else {
            self.radius_y
        };
        let md: i64 = ((self.speed as u64) / 60) as i64;
        proof {
            lemma_fundamental_div_mod(self.speed as int, 60);
            lemma_mod_division_less_than_divisor(self.speed as int, 60);
            assert(md == f0.max_dist_spec());
            assert(0 <= md <= 16_666);
        }
        let denom: i64 = min_r * 3142;
        let delta: i64 = mul_div(md as u64, 2_000_000, denom as u64) as i64;
        proof {
            assert(delta == f0.delta_angle_spec());
            assert(delta < 6284) by (nonlinear_arith)
                requires
                    0 <= delta,
                    denom >= 251_360_000,
                    (denom as int) * (delta as int) <= 16_666 * 2_000_000,
            ;
        }
        let a_next: i64 = if counter_clockwise {
            norm_mrad(self.angle - delta)
        } else {
            norm_mrad(self.angle + delta)
        };
        proof {
            assert(a_next == f0.next_angle_spec());
        }
        let c: i64 = cos_mrad(a_next);
        let s: i64 = sin_mrad(a_next);
        let ex: i64 = scale_milli(c, self.radius_x);
        let ey: i64 = scale_milli(s, self.radius_y);
        proof {
            assert(abs_i(c as int) * (self.radius_x as int) <= 200_000_000 && abs_i(s as int)
                * (self.radius_y as int) <= 200_000_000) by (nonlinear_arith)
                requires
                    abs_i(c as int) <= 1000,
                    abs_i(s as int) <= 1000,
                    0 <= self.radius_x <= 200_000,
                    0 <= self.radius_y <= 200_000,
            ;
            assert(-200_000 <= ex <= 200_000);
            assert(-200_000 <= ey <= 200_000);
        }
        let tx: i64 = self.pivot.x + ex;
        let ty: i64 = self.pivot.y + ey;
        proof {
            assert(tx == f0.target_x_spec());
            assert(ty == f0.target_y_spec());
            assert(-4_200_000 <= tx <= 4_200_000);
            assert(-4_200_000 <= ty <= 4_200_000);
        }
        let dx: i64 = pos.x - tx;
        let dy: i64 = pos.y - ty;
        let dxa: u64 = if dx >= 0 {
            dx as u64
        } else {
            (-dx) as u64
        };
        let dya: u64 = if dy >= 0 {
            dy as u64
        } else {
            (-dy) as u64
        };
        proof {
            assert(dxa == abs_i(dx as int));
            assert(dya == abs_i(dy as int));
            assert((dxa as int) * (dxa as int) == (dx as int) * (dx as int)) by (nonlinear_arith)
                requires
                    dxa == abs_i(dx as int),
            ;
            assert((dya as int) * (dya as int) == (dy as int) * (dy as int)) by (nonlinear_arith)
                requires
                    dya == abs_i(dy as int),
            ;
            assert(dxa * dxa <= 0x2000_0000_0000_0000 && dya * dya <= 0x2000_0000_0000_0000)
                by (nonlinear_arith)
                requires
                    0 <= dxa <= 1_104_200_001,
                    0 <= dya <= 1_104_200_001,
            ;
        }
        let n2: u64 = dxa * dxa + dya * dya;
        let dist: u64 = isqrt(n2);
        proof {
            assert(dist == f0.dist_spec(pos));
        }
        proof {
            assert((md as int) * (self.speed as int) <= 16_666_000_000) by (nonlinear_arith)
                requires
                    0 <= md <= 16_666,
                    0 <= self.speed <= 1_000_000,
            ;
        }
        let thr: u64 = mul_div(md as u64, self.speed as u64, 20_000);
        proof {
            assert(thr == f0.commit_threshold_spec());
        }
        let committed: bool = dist < thr;
        let new_x: i64;
        let new_y: i64;
        if dist == 0 {
            proof {
                assert(n2 < ((dist + 1) as int) * ((dist + 1) as int));
                assert(n2 == 0) by (nonlinear_arith)
                    requires
                        dist == 0,
                        0 <= n2,
                        (n2 as int) < ((dist + 1) as int) * ((dist + 1) as int),
                ;
                assert(dxa == 0 && dya == 0) by (nonlinear_arith)
                    requires
                        0 <= dxa,
                        0 <= dya,
                        (dxa as int) * (dxa as int) + (dya as int) * (dya as int) == 0,
                ;
            }
            new_x = tx;
            new_y = ty;
        } else {
            proof {
                assert((dxa as int) * (md as int) <= 18_500_000_000_000 && (dya as int) * (
                md as int) <= 18_500_000_000_000) by (nonlinear_arith)
                    requires
                        0 <= dxa <= 1_104_200_001,
                        0 <= dya <= 1_104_200_001,
                        0 <= md <= 16_666,
                ;
            }
            let sx: u64 = mul_div(dxa, md as u64, dist);
            let sy: u64 = mul_div(dya, md as u64, dist);
            proof {
                assert(sx <= 18_500_000_000_000u64 && sy <= 18_500_000_000_000u64)
                    by (nonlinear_arith)
                    requires
                        dist >= 1,
                        0 <= sx,
                        0 <= sy,
                        0 <= dxa <= 1_104_200_001,
                        0 <= dya <= 1_104_200_001,
                        0 <= md <= 16_666,
                        (dist as int) * (sx as int) <= (dxa as int) * (md as int),
                        (dist as int) * (sy as int) <= (dya as int) * (md as int),
                ;
                assert(sx == f0.step_x_spec(pos));
                assert(sy == f0.step_y_spec(pos));
            }
            let x1: i64 = if dx >= 0 {
                pos.x - (sx as i64)
            } else {
                pos.x + (sx as i64)
            };
            new_x = if dx > 0 {
                if x1 >= tx {
                    x1
                } else {
                    tx
                }
            } else if dx < 0 {
                if x1 <= tx {
                    x1
                } else {
                    tx
                }
            } else {
                tx
            };
            let y1: i64 = if dy >= 0 {
                pos.y - (sy as i64)
            } else {
                pos.y + (sy as i64)
            };
            new_y = if dy > 0 {
                if y1 >= ty {
                    y1
                } else {
                    ty
                }
            } else if dy < 0 {
                if y1 <= ty {
                    y1
                } else {
                    ty
                }
            } else {
                ty
            };
        }
        if committed {
            self.angle = a_next;
        }
        Pos { x: new_x, y: new_y }
    }
}

/// Hands each newly spawned enemy its flight path; up to
/// `FORMATION_MEMBERS_MAX` enemies share one randomly drawn template.
pub struct FormationMaker {
    current_template: Option<Formation>,
    current_members: u32,
}

impl FormationMaker {
    pub closed spec fn template_spec(self) -> Option<Formation> {
        self.current_template
    }

    pub closed spec fn members_spec(self) -> int {
        self.current_members as int
    }

    /// A stored template is a well-formed on-screen path at the base speed.
    pub open spec fn wf(self, win: WindowSize) -> bool {
        match self.template_spec() {
            Option::Some(t) => t.wf() && t.on_screen(win) && t.speed == BASE_SPEED_MILLI,
            Option::None => true,
        }
    }

    /// Whether the next path reuses the stored template.
    pub open spec fn reuses_spec(self) -> bool {
        self.template_spec() is Some && self.members_spec() < FORMATION_MEMBERS_MAX
    }

    /// The path for a new enemy: the stored template while it has capacity,
    /// otherwise a freshly randomized path whose ellipse stays on-screen,
    /// with the spawn point just off the left or right viewport edge.
    pub fn make(&mut self, win: &WindowSize) -> (f: Formation)
        requires
            old(self).wf(*win),
            win.wf(),
        ensures
            final(self).wf(*win),
            f.wf(),
            f.on_screen(*win),
            f.speed == BASE_SPEED_MILLI,
            old(self).reuses_spec() ==> {
                &&& Option::Some(f) == old(self).template_spec()
                &&& final(self).template_spec() == old(self).template_spec()
                &&& final(self).members_spec() == old(self).members_spec() + 1
            },
            !old(self).reuses_spec() ==> {
                &&& final(self).template_spec() == Option::Some(f)
                &&& final(self).members_spec() == 1
                &&& (f.start.x == win.width / 2 + 100_000 || f.start.x == -(win.width / 2)
                    - 100_000)
                &&& -(win.height / 2) - 100_000 <= f.start.y <= win.height / 2 + 100_000
            },
    {
        if self.current_members < FORMATION_MEMBERS_MAX {
            if let Some(t) = self.current_template {
                self.current_members = self.current_members + 1;
                return t;
            }
        }
        let half_w: i64 = ((win.width as u64) / 2) as i64;
        let half_h: i64 = ((win.height as u64) / 2) as i64;
        let w_span: i64 = half_w + 100_000;
        let h_span: i64 = half_h + 100_000;
        let x: i64 = if rand_ratio(1, 2) {
            w_span
        } else {
            -w_span
        };
        let y: i64 = rand_in_range(-h_span, h_span + 1);
        let rx: i64 = rand_in_range(RADIUS_MIN, RADIUS_MAX + 1);
        let ry: i64 = rand_in_range(RADIUS_MIN, RADIUS_MAX + 1);
        let px: i64 = rand_in_range(-(half_w - rx), half_w - rx + 1);
        let py: i64 = rand_in_range(-(half_h - ry), half_h - ry + 1);
        let angle: i64 = rand_in_range(0, TWO_PI_MRAD);
        let f = Formation {
            start: Pos::new(x, y),
            pivot: Pos::new(px, py),
            radius_x: rx,
            radius_y: ry,
            speed: BASE_SPEED_MILLI,
            angle,
        };
        self.current_template = Some(f);
        self.current_members = 1;
        f
    }
}

impl Default for FormationMaker {
    /// No template yet: the first request draws a fresh one.
    fn default() -> (m: Self)
        ensures
            m.template_spec() is None,
            m.members_spec() == 0,
    {
        FormationMaker { current_template: None, current_members: 0 }
    }
}

} // verus!
