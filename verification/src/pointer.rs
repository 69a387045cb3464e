use vstd::prelude::*;

use crate::arith::{
    clamp, clamp_int, div_toward_zero, div_trunc, sat_abs, sat_abs_i32, sat_add, sat_add_i32,
    sat_sub,
};
use crate::server::Edge;

verus! {

/// How far from the edge (in pixels) a local pointer starts a transfer.
pub const EDGE_TRIGGER_MARGIN: i32 = 6;
/// How far back from the edge the pointer must come before it may transfer again.
pub const EDGE_REARM_DISTANCE: i32 = 8;
/// How close to its home edge the remote pointer must be to push back.
pub const RETURN_EDGE_MARGIN: i32 = 3;
/// How much push toward home returns control.
pub const RETURN_PUSH_THRESHOLD: i32 = 10;
/// How far inside the local screen the pointer comes back.
pub const LOCAL_RETURN_INSET: i32 = 8;

/// What a pointer motion leads to.
#[derive(Debug, Clone, Copy, PartialEq, Eq, Structural)]
pub enum MotionAction {
    Local,
    EnterRemote { x: i32, y: i32 },
    MoveRemote { dx: i32, dy: i32 },
    ReturnLocal { x: i32, y: i32 },
}

/// Where the pointer is: on the local screen (armed when it may transfer),
/// or on the remote one (with the push gathered toward home).
#[derive(Debug, Clone, Copy, PartialEq, Eq, Structural)]
pub enum PointerPhase {
    Local { armed: bool },
    Remote { return_push: i32 },
}

/// The state of a pointer router.
pub struct RouterModel {
    pub edge: Edge,
    pub local_size: (i32, i32),
    pub remote_size: (i32, i32),
    pub remote_pos: (i32, i32),
    pub phase: PointerPhase,
    pub local_buttons_down: usize,
}

/// Decides, motion by motion, whether the pointer is on the local or the
/// remote screen.
pub struct PointerRouter {
    edge: Edge,
    local_size: (i32, i32),
    remote_size: (i32, i32),
    remote_pos: (i32, i32),
    phase: PointerPhase,
    local_buttons_down: usize,
}

impl View for PointerRouter {
    type V = RouterModel;

    closed spec fn view(&self) -> RouterModel {
        RouterModel {
            edge: self.edge,
            local_size: self.local_size,
            remote_size: self.remote_size,
            remote_pos: self.remote_pos,
            phase: self.phase,
            local_buttons_down: self.local_buttons_down,
        }
    }
}

/// Sizes are at least one pixel, the remote position lies on the remote
/// screen, and the push toward home stays under the threshold.
pub open spec fn router_wf(m: RouterModel) -> bool {
    &&& m.local_size.0 >= 1
    &&& m.local_size.1 >= 1
    &&& m.remote_size.0 >= 1
    &&& m.remote_size.1 >= 1
    &&& 0 <= m.remote_pos.0 < m.remote_size.0
    &&& 0 <= m.remote_pos.1 < m.remote_size.1
    &&& match m.phase {
        PointerPhase::Remote { return_push } => 0 <= return_push < RETURN_PUSH_THRESHOLD,
        PointerPhase::Local { .. } => true,
    }
}

pub open spec fn spec_valid_size(size: (i32, i32)) -> (i32, i32) {
    (
        if size.0 < 1 {
            1
        } else {
            size.0
        },
        if size.1 < 1 {
            1
        } else {
            size.1
        },
    )
}

/// `value` taken from a range of `from` pixels to one of `to` pixels.
pub open spec fn spec_scaled(value: i32, from: i32, to: i32) -> i32 {
    let t = if to < 1 {
        1int
    } else {
        to as int
    };
    let f = if from < 1 {
        1int
    } else {
        from as int
    };
    clamp_int(
        (div_toward_zero(value * t, f) as i32) as int,
        0,
        sat_add_i32(to as int, -1) as int,
    ) as i32
}

pub open spec fn spec_is_remote(m: RouterModel) -> bool {
    m.phase is Remote
}

pub open spec fn spec_at_transfer_edge(m: RouterModel, x: i32) -> bool {
    match m.edge {
        Edge::Right => x >= sat_add_i32(m.local_size.0 as int, -EDGE_TRIGGER_MARGIN),
        Edge::Left => x <= EDGE_TRIGGER_MARGIN,
    }
}

pub open spec fn spec_inside_rearm_zone(m: RouterModel, x: i32) -> bool {
    match m.edge {
        Edge::Right => x <= sat_add_i32(m.local_size.0 as int, -(1 + EDGE_REARM_DISTANCE)),
        Edge::Left => x >= EDGE_REARM_DISTANCE,
    }
}

/// Where control comes back on the local screen, and the state after it does.
pub open spec fn spec_return_to_local(m: RouterModel) -> (RouterModel, MotionAction) {
    let y = spec_scaled(m.remote_pos.1, m.remote_size.1, m.local_size.1);
    let last_x = sat_add_i32(m.local_size.0 as int, -1);
    let x = match m.edge {
        Edge::Right => {
            let v = sat_add_i32(last_x as int, -LOCAL_RETURN_INSET);
            if v < 0 {
                0i32
            } else {
                v
            }
        },
        Edge::Left => if LOCAL_RETURN_INSET < last_x {
            LOCAL_RETURN_INSET
        } else {
            last_x
        },
    };
    (
        RouterModel { phase: PointerPhase::Local { armed: false }, local_buttons_down: 0, ..m },
        MotionAction::ReturnLocal { x, y },
    )
}

pub open spec fn spec_observe_local_motion(m: RouterModel, x: i32, y: i32) -> (
    RouterModel,
    MotionAction,
) {
    match m.phase {
        PointerPhase::Remote { .. } => (m, MotionAction::Local),
        PointerPhase::Local { armed } => if !armed {
            if spec_inside_rearm_zone(m, x) {
                (RouterModel { phase: PointerPhase::Local { armed: true }, ..m }, MotionAction::Local)
            } else {
                (m, MotionAction::Local)
            }
        } else if m.local_buttons_down != 0 || !spec_at_transfer_edge(m, x) {
            (m, MotionAction::Local)
        } else {
            let ry = spec_scaled(y, m.local_size.1, m.remote_size.1);
            let rx = match m.edge {
                Edge::Right => 0i32,
                Edge::Left => (m.remote_size.0 - 1) as i32,
            };
            (
                RouterModel {
                    remote_pos: (rx, ry),
                    phase: PointerPhase::Remote { return_push: 0 },
                    ..m
                },
                MotionAction::EnterRemote { x: rx, y: ry },
            )
        },
    }
}

pub open spec fn spec_observe_remote_motion(
    m: RouterModel,
    dx: i32,
    dy: i32,
    allow_return: bool,
) -> (RouterModel, MotionAction) {
    match m.phase {
        PointerPhase::Local { .. } => (m, MotionAction::Local),
        PointerPhase::Remote { return_push } => {
            let pushing_home = match m.edge {
                Edge::Right => dx < 0,
                Edge::Left => dx > 0,
            };
            let at_home_edge = match m.edge {
                Edge::Right => m.remote_pos.0 <= RETURN_EDGE_MARGIN,
                Edge::Left => m.remote_pos.0 >= sat_add_i32(
                    m.remote_size.0 as int,
                    -(1 + RETURN_EDGE_MARGIN),
                ),
            };
            let push = if allow_return && pushing_home && at_home_edge {
                sat_add_i32(return_push as int, sat_abs_i32(dx) as int)
            } else {
                0i32
            };
            if allow_return && pushing_home && at_home_edge && push >= RETURN_PUSH_THRESHOLD {
                spec_return_to_local(m)
            } else {
                let px = clamp_int(
                    sat_add_i32(m.remote_pos.0 as int, dx as int) as int,
                    0,
                    m.remote_size.0 - 1,
                ) as i32;
                let py = clamp_int(
                    sat_add_i32(m.remote_pos.1 as int, dy as int) as int,
                    0,
                    m.remote_size.1 - 1,
                ) as i32;
                (
                    RouterModel {
                        phase: PointerPhase::Remote { return_push: push },
                        remote_pos: (px, py),
                        ..m
                    },
                    MotionAction::MoveRemote { dx, dy },
                )
            }
        },
    }
}

pub open spec fn spec_observe_local_button(m: RouterModel, down: bool) -> RouterModel {
    if spec_is_remote(m) {
        m
    } else if down {
        RouterModel {
            local_buttons_down: if m.local_buttons_down == usize::MAX {
                usize::MAX
            } else {
                (m.local_buttons_down + 1) as usize
            },
            ..m
        }
    } else {
        RouterModel {
            local_buttons_down: if m.local_buttons_down == 0 {
                0
            } else {
                (m.local_buttons_down - 1) as usize
            },
            ..m
        }
    }
}

pub open spec fn spec_local_anchor(m: RouterModel) -> (i32, i32) {
    ((m.local_size.0 / 2) as i32, (m.local_size.1 / 2) as i32)
}

pub open spec fn spec_bogus_warp_delta(m: RouterModel, dx: i32, dy: i32) -> bool {
    let a = spec_local_anchor(m);
    let mx = if a.0 >= m.local_size.0 - a.0 {
        a.0 as int
    } else {
        m.local_size.0 - a.0
    };
    let my = if a.1 >= m.local_size.1 - a.1 {
        a.1 as int
    } else {
        m.local_size.1 - a.1
    };
    sat_abs_i32(dx) + 10 >= mx || sat_abs_i32(dy) + 10 >= my
}

fn valid_size(size: (i32, i32)) -> (r: (i32, i32))
    ensures
        r == spec_valid_size(size),
{
    (
        if size.0 < 1 {
            1
        } else {
            size.0
        },
        if size.1 < 1 {
            1
        } else {
            size.1
        },
    )
}

/// `value` taken from a range of `from` pixels to one of `to` pixels, kept
/// on the target range.
pub fn scaled(value: i32, from: i32, to: i32) -> (r: i32)
    ensures
        r == spec_scaled(value, from, to),
{
    let t: i64 = if to < 1 {
        1
    } else {
        to as i64
    };
    let f: i64 = if from < 1 {
        1
    } else {
        from as i64
    };
    assert(-0x8000_0000 * 0x7fff_ffff <= value * t <= 0x7fff_ffff * 0x7fff_ffff) by (nonlinear_arith)
        requires
            i32::MIN <= value <= i32::MAX,
            1 <= t <= i32::MAX,
    ;
    let q = div_trunc(value as i64 * t, f);
    clamp(#[verifier::truncate] (q as i32), 0, sat_sub(to, 1))
}

impl PointerRouter {
    #[verifier::type_invariant]
    closed spec fn inv(self) -> bool {
        router_wf(self@)
    }

    /// A router for a remote screen beyond `edge`; sizes below one pixel count as one.
    pub fn new(edge: Edge, local_size: (i32, i32), remote_size: (i32, i32)) -> (r: PointerRouter)
        ensures
            r@ == (RouterModel {
                edge,
                local_size: spec_valid_size(local_size),
                remote_size: spec_valid_size(remote_size),
                remote_pos: (0, 0),
                phase: PointerPhase::Local { armed: true },
                local_buttons_down: 0,
            }),
    {
        PointerRouter {
            edge,
            local_size: valid_size(local_size),
            remote_size: valid_size(remote_size),
            remote_pos: (0, 0),
            phase: PointerPhase::Local { armed: true },
            local_buttons_down: 0,
        }
    }

    pub fn is_remote(&self) -> (r: bool)
        ensures
            r == spec_is_remote(self@),
    {
        match self.phase {
            PointerPhase::Remote { .. } => true,
            PointerPhase::Local { .. } => false,
        }
    }

    pub fn update_local_size(&mut self, size: (i32, i32))
        ensures
            final(self)@ == (RouterModel { local_size: spec_valid_size(size), ..old(self)@ }),
    {
        proof {
            use_type_invariant(&*self);
        }
        self.local_size = valid_size(size);
    }

    fn at_transfer_edge(&self, x: i32) -> (r: bool)
        ensures
            r == spec_at_transfer_edge(self@, x),
    {
        match self.edge {
            Edge::Right => x >= sat_sub(self.local_size.0, EDGE_TRIGGER_MARGIN),
            Edge::Left => x <= EDGE_TRIGGER_MARGIN,
        }
    }

    fn inside_rearm_zone(&self, x: i32) -> (r: bool)
        ensures
            r == spec_inside_rearm_zone(self@, x),
    {
        match self.edge {
            Edge::Right => x <= sat_sub(self.local_size.0, 1 + EDGE_REARM_DISTANCE),
            Edge::Left => x >= EDGE_REARM_DISTANCE,
        }
    }

    /// Feeds a local pointer position; returns what it leads to.
    pub fn observe_local_motion(&mut self, x: i32, y: i32) -> (r: MotionAction)
        ensures
            (final(self)@, r) == spec_observe_local_motion(old(self)@, x, y),
    {
        proof {
            use_type_invariant(&*self);
        }
        let armed = match self.phase {
            PointerPhase::Remote { .. } => {
                return MotionAction::Local;
            },
            PointerPhase::Local { armed } => armed,
        };
        if !armed {
            if self.inside_rearm_zone(x) {
                self.phase = PointerPhase::Local { armed: true };
            }
            return MotionAction::Local;
        }
        if self.local_buttons_down != 0 || !self.at_transfer_edge(x) {
            return MotionAction::Local;
        }
        let ry = scaled(y, self.local_size.1, self.remote_size.1);
        let rx = match self.edge {
            Edge::Right => 0,
            Edge::Left => self.remote_size.0 - 1,
        };
        assert(0 <= ry < self.remote_size.1);
        *self = PointerRouter {
            edge: self.edge,
            local_size: self.local_size,
            remote_size: self.remote_size,
            remote_pos: (rx, ry),
            phase: PointerPhase::Remote { return_push: 0 },
            local_buttons_down: self.local_buttons_down,
        };
        MotionAction::EnterRemote { x: rx, y: ry }
    }

    fn return_to_local(&mut self) -> (r: MotionAction)
        ensures
            (final(self)@, r) == spec_return_to_local(old(self)@),
    {
        proof {
            use_type_invariant(&*self);
        }
        let y = scaled(self.remote_pos.1, self.remote_size.1, self.local_size.1);
        let last_x = sat_sub(self.local_size.0, 1);
        let x = match self.edge {
            Edge::Right => {
                let v = sat_sub(last_x, LOCAL_RETURN_INSET);
                if v < 0 {
                    0
                } else {
                    v
                }
            },
            Edge::Left => if LOCAL_RETURN_INSET < last_x {
                LOCAL_RETURN_INSET
            } else {
                last_x
            },
        };
        *self = PointerRouter {
            edge: self.edge,
            local_size: self.local_size,
            remote_size: self.remote_size,
            remote_pos: self.remote_pos,
            phase: PointerPhase::Local { armed: false },
            local_buttons_down: 0,
        };
        MotionAction::ReturnLocal { x, y }
    }

    /// Feeds a relative motion while the pointer is remote; `allow_return` is
    /// false while a remote button is held.
    pub fn observe_remote_motion(&mut self, dx: i32, dy: i32, allow_return: bool) -> (r:
        MotionAction)
        ensures
            (final(self)@, r) == spec_observe_remote_motion(old(self)@, dx, dy, allow_return),
    {
        proof {
            use_type_invariant(&*self);
        }
        let return_push = match self.phase {
            PointerPhase::Local { .. } => {
                return MotionAction::Local;
            },
            PointerPhase::Remote { return_push } => return_push,
        };
        let pushing_home = match self.edge {
            Edge::Right => dx < 0,
            Edge::Left => dx > 0,
        };
        let at_home_edge = match self.edge {
            Edge::Right => self.remote_pos.0 <= RETURN_EDGE_MARGIN,
            Edge::Left => self.remote_pos.0 >= sat_sub(self.remote_size.0, 1 + RETURN_EDGE_MARGIN),
        };
        let push = if allow_return && pushing_home && at_home_edge {
            sat_add(return_push, sat_abs(dx))
        } else {
            0
        };
        if allow_return && pushing_home && at_home_edge && push >= RETURN_PUSH_THRESHOLD {
            return self.return_to_local();
        }
        let px = clamp(sat_add(self.remote_pos.0, dx), 0, self.remote_size.0 - 1);
        let py = clamp(sat_add(self.remote_pos.1, dy), 0, self.remote_size.1 - 1);
        *self = PointerRouter {
            edge: self.edge,
            local_size: self.local_size,
            remote_size: self.remote_size,
            remote_pos: (px, py),
            phase: PointerPhase::Remote { return_push: push },
            local_buttons_down: self.local_buttons_down,
        };
        MotionAction::MoveRemote { dx, dy }
    }

    /// Counts local buttons held; ignored while the pointer is remote.
    pub fn observe_local_button(&mut self, down: bool)
        ensures
            final(self)@ == spec_observe_local_button(old(self)@, down),
    {
        proof {
            use_type_invariant(&*self);
        }
        if self.is_remote() {
            return;
        }
        if down {
            self.local_buttons_down = self.local_buttons_down.saturating_add(1);
        } else {
            self.local_buttons_down = self.local_buttons_down.saturating_sub(1);
        }
    }

    /// Brings control back to the local screen; returns where the pointer
    /// lands, or `None` when it was local already.
    pub fn force_local(&mut self) -> (r: Option<(i32, i32)>)
        ensures
            spec_is_remote(old(self)@) ==> ({
                let (m, action) = spec_return_to_local(old(self)@);
                &&& final(self)@ == m
                &&& action matches MotionAction::ReturnLocal { x, y } && r == Some((x, y))
            }),
            !spec_is_remote(old(self)@) ==> final(self)@ == old(self)@ && r is None,
    {
        if !self.is_remote() {
            return None;
        }
        match self.return_to_local() {
            MotionAction::ReturnLocal { x, y } => Some((x, y)),
            _ => None,
        }
    }

    /// Whether a relative motion is as large as a warp of the pointer back to
    /// the anchor would make it, and so not a real motion.
    pub fn bogus_warp_delta(&self, dx: i32, dy: i32) -> (r: bool)
        requires
            sat_abs_i32(dx) <= i32::MAX - 10,
            sat_abs_i32(dy) <= i32::MAX - 10,
        ensures
            r == spec_bogus_warp_delta(self@, dx, dy),
    {
        proof {
            use_type_invariant(self);
        }
        let anchor = self.local_anchor();
        let margin: i32 = 10;
        let mx = if anchor.0 >= self.local_size.0 - anchor.0 {
            anchor.0
        } else {
            self.local_size.0 - anchor.0
        };
        let my = if anchor.1 >= self.local_size.1 - anchor.1 {
            anchor.1
        } else {
            self.local_size.1 - anchor.1
        };
        sat_abs(dx) + margin >= mx || sat_abs(dy) + margin >= my
    }

    /// The middle of the local screen.
    pub fn local_anchor(&self) -> (r: (i32, i32))
        ensures
            r == spec_local_anchor(self@),
    {
        proof {
            use_type_invariant(self);
        }
        (self.local_size.0 / 2, self.local_size.1 / 2)
    }
}


/// Every step of the router keeps its invariant.
pub proof fn law_router_steps_keep_wf(
    m: RouterModel,
    x: i32,
    y: i32,
    dx: i32,
    dy: i32,
    allow_return: bool,
    down: bool,
    size: (i32, i32),
)
    requires
        router_wf(m),
    ensures
        router_wf(spec_observe_local_motion(m, x, y).0),
        router_wf(spec_observe_remote_motion(m, dx, dy, allow_return).0),
        router_wf(spec_observe_local_button(m, down)),
        router_wf(spec_return_to_local(m).0),
        router_wf(RouterModel { local_size: spec_valid_size(size), ..m }),
{
}

/// A local motion hands control to the remote screen exactly when the
/// pointer is armed, no local button is held and it reaches the transfer
/// edge; the pointer then enters at the remote screen's near edge.
pub proof fn law_enter_remote(m: RouterModel, x: i32, y: i32)
    requires
        router_wf(m),
    ensures
        ({
            let (n, action) = spec_observe_local_motion(m, x, y);
            &&& (action is EnterRemote) <==> (m.phase == PointerPhase::Local { armed: true }
                && m.local_buttons_down == 0 && spec_at_transfer_edge(m, x))
            &&& action is EnterRemote ==> {
                &&& spec_is_remote(n)
                &&& action == MotionAction::EnterRemote { x: n.remote_pos.0, y: n.remote_pos.1 }
                &&& m.edge == Edge::Right ==> n.remote_pos.0 == 0
                &&& m.edge == Edge::Left ==> n.remote_pos.0 == m.remote_size.0 - 1
            }
            &&& !(action is EnterRemote) ==> action == MotionAction::Local
        }),
{
}

/// While the router is not armed, and while a local button is held, no
/// local motion leaves the local screen.
pub proof fn law_local_motion_blocked(m: RouterModel, x: i32, y: i32)
    requires
        router_wf(m),
        m.phase == (PointerPhase::Local { armed: false }) || m.local_buttons_down != 0,
    ensures
        spec_observe_local_motion(m, x, y).1 == MotionAction::Local,
{
}

/// Control comes back unarmed with no button counted, at a point that is
/// off the transfer edge and inside the zone that re-arms it; so the motion
/// to that point cannot enter the remote screen again, and it re-arms.
pub proof fn law_return_lands_off_edge(m: RouterModel)
    requires
        router_wf(m),
        m.local_size.0 >= 9,
    ensures
        ({
            let (n, action) = spec_return_to_local(m);
            &&& n.phase == PointerPhase::Local { armed: false }
            &&& n.local_buttons_down == 0
            &&& !spec_is_remote(n)
            &&& action matches MotionAction::ReturnLocal { x, y } && {
                &&& !spec_at_transfer_edge(n, x)
                &&& spec_inside_rearm_zone(n, x)
                &&& 0 <= y < m.local_size.1
                &&& spec_observe_local_motion(n, x, y) == (RouterModel {
                    phase: PointerPhase::Local { armed: true },
                    ..n
                }, MotionAction::Local)
            }
        }),
{
}

/// A remote motion either moves the remote pointer by exactly the motion
/// given or, only when return is allowed and the pointer pushes into its
/// home edge, returns control to the local screen.
pub proof fn law_remote_motion(m: RouterModel, dx: i32, dy: i32, allow_return: bool)
    requires
        router_wf(m),
        spec_is_remote(m),
    ensures
        ({
            let (n, action) = spec_observe_remote_motion(m, dx, dy, allow_return);
            ||| action == MotionAction::MoveRemote { dx, dy } && spec_is_remote(n)
            ||| action is ReturnLocal && allow_return && !spec_is_remote(n)
        }),
{
}

/// Forcing control home leaves the router local, so forcing it again does
/// nothing.
pub proof fn law_force_local_idempotent(m: RouterModel)
    requires
        router_wf(m),
    ensures
        !spec_is_remote(spec_return_to_local(m).0),
{
}

} // verus!
