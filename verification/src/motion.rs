use vstd::prelude::*;

use crate::arith::{clamp, clamp_i16, clamp_int, sat_add, sat_add_i32, sat_sub};
use crate::protocol::InputEvent;

verus! {

/// Pointer motion and wheel movement gathered between flushes.
#[derive(Debug, Clone, Copy, Default, PartialEq, Eq)]
pub struct PendingInput {
    pub delta: (i32, i32),
    pub wheel: (i32, i32),
}

pub open spec fn spec_queue(p: PendingInput, event: InputEvent) -> PendingInput {
    match event {
        InputEvent::MouseDelta { dx, dy } => PendingInput {
            delta: (sat_add_i32(p.delta.0 as int, dx as int), sat_add_i32(p.delta.1 as int, dy as int)),
            ..p
        },
        InputEvent::MouseWheel { horizontal, vertical } => PendingInput {
            wheel: (
                sat_add_i32(p.wheel.0 as int, horizontal as int),
                sat_add_i32(p.wheel.1 as int, vertical as int),
            ),
            ..p
        },
        _ => p,
    }
}

/// The events a flush sends: the gathered motion, then the gathered wheel
/// movement held in the 16-bit range; each only when not zero.
pub open spec fn spec_take_events(p: PendingInput) -> Seq<InputEvent> {
    (if p.delta.0 != 0 || p.delta.1 != 0 {
        seq![InputEvent::MouseDelta { dx: p.delta.0, dy: p.delta.1 }]
    } else {
        seq![]
    }) + (if p.wheel.0 != 0 || p.wheel.1 != 0 {
        seq![
            InputEvent::MouseWheel {
                horizontal: clamp_int(p.wheel.0 as int, i16::MIN as int, i16::MAX as int) as i16,
                vertical: clamp_int(p.wheel.1 as int, i16::MIN as int, i16::MAX as int) as i16,
            },
        ]
    } else {
        seq![]
    })
}

impl PendingInput {
    pub fn new() -> (r: PendingInput)
        ensures
            r == (PendingInput { delta: (0, 0), wheel: (0, 0) }),
    {
        PendingInput { delta: (0, 0), wheel: (0, 0) }
    }

    /// Adds a motion or wheel event to the batch; other events are not batched.
    pub fn queue(&mut self, event: InputEvent)
        ensures
            *final(self) == spec_queue(*old(self), event),
    {
        match event {
            InputEvent::MouseDelta { dx, dy } => {
                self.delta = (sat_add(self.delta.0, dx), sat_add(self.delta.1, dy));
            },
            InputEvent::MouseWheel { horizontal, vertical } => {
                self.wheel = (
                    sat_add(self.wheel.0, horizontal as i32),
                    sat_add(self.wheel.1, vertical as i32),
                );
            },
            _ => {},
        }
    }

    /// Takes the batch out as events and empties it.
    pub fn take_events(&mut self) -> (r: Vec<InputEvent>)
        ensures
            r@ == spec_take_events(*old(self)),
            *final(self) == (PendingInput { delta: (0, 0), wheel: (0, 0) }),
    {
        let mut events = Vec::new();
        if self.delta.0 != 0 || self.delta.1 != 0 {
            events.push(InputEvent::MouseDelta { dx: self.delta.0, dy: self.delta.1 });
            self.delta = (0, 0);
        }
        if self.wheel.0 != 0 || self.wheel.1 != 0 {
            events.push(
                InputEvent::MouseWheel {
                    horizontal: clamp_i16(self.wheel.0),
                    vertical: clamp_i16(self.wheel.1),
                },
            );
            self.wheel = (0, 0);
        }
        assert(events@ =~= spec_take_events(*old(self)));
        events
    }
}

/// Batching keeps the total: motions queued into an empty batch come out
/// as one motion whose deltas are their (saturating) sums, or as nothing
/// when the sums are zero.
pub proof fn law_batch_keeps_total(dx1: i32, dy1: i32, dx2: i32, dy2: i32)
    ensures
        ({
            let p = spec_queue(
                spec_queue(
                    PendingInput { delta: (0, 0), wheel: (0, 0) },
                    InputEvent::MouseDelta { dx: dx1, dy: dy1 },
                ),
                InputEvent::MouseDelta { dx: dx2, dy: dy2 },
            );
            let sx = sat_add_i32(dx1 as int, dx2 as int);
            let sy = sat_add_i32(dy1 as int, dy2 as int);
            spec_take_events(p) == if sx != 0 || sy != 0 {
                seq![InputEvent::MouseDelta { dx: sx, dy: sy }]
            } else {
                Seq::<InputEvent>::empty()
            }
        }),
{
    let p = spec_queue(
        spec_queue(
            PendingInput { delta: (0, 0), wheel: (0, 0) },
            InputEvent::MouseDelta { dx: dx1, dy: dy1 },
        ),
        InputEvent::MouseDelta { dx: dx2, dy: dy2 },
    );
    assert(spec_take_events(p) =~= (if p.delta.0 != 0 || p.delta.1 != 0 {
        seq![InputEvent::MouseDelta { dx: p.delta.0, dy: p.delta.1 }]
    } else {
        Seq::<InputEvent>::empty()
    }));
}

/// A single event that is not motion passes a batch untouched, and an
/// empty batch sends nothing.
pub proof fn law_batch_only_motion(p: PendingInput, event: InputEvent)
    ensures
        !(event is MouseDelta) && !(event is MouseWheel) ==> spec_queue(p, event) == p,
        spec_take_events(PendingInput { delta: (0, 0), wheel: (0, 0) }) == Seq::<InputEvent>::empty(),
{
    assert(spec_take_events(PendingInput { delta: (0, 0), wheel: (0, 0) }) =~= Seq::<InputEvent>::empty());
}

/// A batch after each of `events` was queued into `p`, in order.
pub open spec fn spec_queue_all(p: PendingInput, events: Seq<InputEvent>) -> PendingInput
    decreases events.len(),
{
    if events.len() == 0 {
        p
    } else {
        spec_queue(spec_queue_all(p, events.drop_last()), events.last())
    }
}

/// The pointer motion of `events`, summed left to right with saturation.
pub open spec fn motion_total(events: Seq<InputEvent>) -> (i32, i32)
    decreases events.len(),
{
    if events.len() == 0 {
        (0, 0)
    } else {
        let prev = motion_total(events.drop_last());
        match events.last() {
            InputEvent::MouseDelta { dx, dy } => (
                sat_add_i32(prev.0 as int, dx as int),
                sat_add_i32(prev.1 as int, dy as int),
            ),
            _ => prev,
        }
    }
}

/// The wheel movement of `events`, summed left to right with saturation.
pub open spec fn wheel_total(events: Seq<InputEvent>) -> (i32, i32)
    decreases events.len(),
{
    if events.len() == 0 {
        (0, 0)
    } else {
        let prev = wheel_total(events.drop_last());
        match events.last() {
            InputEvent::MouseWheel { horizontal, vertical } => (
                sat_add_i32(prev.0 as int, horizontal as int),
                sat_add_i32(prev.1 as int, vertical as int),
            ),
            _ => prev,
        }
    }
}

/// Whatever events are queued into an empty batch, a flush sends one
/// motion carrying their summed motion (when not zero), then one wheel
/// event carrying their summed wheel movement held in the 16-bit range
/// (when not zero); the batch is empty afterwards, so a second flush sends
/// nothing.
pub proof fn law_batch_sums_any_sequence(events: Seq<InputEvent>)
    ensures
        spec_queue_all(PendingInput { delta: (0, 0), wheel: (0, 0) }, events) == (PendingInput {
            delta: motion_total(events),
            wheel: wheel_total(events),
        }),
        spec_take_events(spec_queue_all(PendingInput { delta: (0, 0), wheel: (0, 0) }, events)) == (if motion_total(
            events,
        ).0 != 0 || motion_total(events).1 != 0 {
            seq![InputEvent::MouseDelta { dx: motion_total(events).0, dy: motion_total(events).1 }]
        } else {
            Seq::<InputEvent>::empty()
        }) + (if wheel_total(events).0 != 0 || wheel_total(events).1 != 0 {
            seq![
                InputEvent::MouseWheel {
                    horizontal: clamp_int(wheel_total(events).0 as int, i16::MIN as int, i16::MAX as int) as i16,
                    vertical: clamp_int(wheel_total(events).1 as int, i16::MIN as int, i16::MAX as int) as i16,
                },
            ]
        } else {
            Seq::<InputEvent>::empty()
        }),
        spec_take_events(PendingInput { delta: (0, 0), wheel: (0, 0) }) == Seq::<InputEvent>::empty(),
    decreases events.len(),
{
    if events.len() > 0 {
        law_batch_sums_any_sequence(events.drop_last());
    }
    assert(spec_take_events(PendingInput { delta: (0, 0), wheel: (0, 0) }) =~= Seq::<InputEvent>::empty());
}

pub const REL_X: u16 = 0x00;
pub const REL_Y: u16 = 0x01;
pub const REL_HWHEEL: u16 = 0x06;
pub const REL_WHEEL: u16 = 0x08;

/// Relative motion read from one evdev device since its last report.
#[derive(Debug, Clone, Copy, Default, PartialEq, Eq, Structural)]
pub struct PendingPointer {
    pub dx: i32,
    pub dy: i32,
    pub wheel: i32,
    pub hwheel: i32,
}

pub open spec fn spec_pending_rel(p: PendingPointer, code: u16, value: i32) -> PendingPointer {
    if code == REL_X {
        PendingPointer { dx: sat_add_i32(p.dx as int, value as int), ..p }
    } else if code == REL_Y {
        PendingPointer { dy: sat_add_i32(p.dy as int, value as int), ..p }
    } else if code == REL_WHEEL {
        PendingPointer { wheel: sat_add_i32(p.wheel as int, value as int), ..p }
    } else if code == REL_HWHEEL {
        PendingPointer { hwheel: sat_add_i32(p.hwheel as int, value as int), ..p }
    } else {
        p
    }
}

impl PendingPointer {
    /// Adds one relative axis event.
    pub fn pending_rel(&mut self, code: u16, value: i32)
        ensures
            *final(self) == spec_pending_rel(*old(self), code, value),
    {
        match code {
            REL_X => self.dx = sat_add(self.dx, value),
            REL_Y => self.dy = sat_add(self.dy, value),
            REL_WHEEL => self.wheel = sat_add(self.wheel, value),
            REL_HWHEEL => self.hwheel = sat_add(self.hwheel, value),
            _ => {},
        }
    }

    /// Takes the gathered motion out and empties it.
    pub fn take_pending(&mut self) -> (r: PendingPointer)
        ensures
            r == *old(self),
            *final(self) == (PendingPointer { dx: 0, dy: 0, wheel: 0, hwheel: 0 }),
    {
        let r = *self;
        *self = PendingPointer { dx: 0, dy: 0, wheel: 0, hwheel: 0 };
        r
    }
}

/// Where the local cursor is held while the remote screen has control.
#[derive(Debug, Clone, Copy, Default, PartialEq, Eq)]
pub struct RemoteCursorLock {
    pub anchor: Option<(i32, i32)>,
}

impl RemoteCursorLock {
    pub fn new() -> (r: RemoteCursorLock)
        ensures
            r.anchor is None,
    {
        RemoteCursorLock { anchor: None }
    }

    /// Holds the cursor at the edge point, kept on a screen of `size`;
    /// returns the point it is held at.
    pub fn begin(&mut self, edge_x: i32, edge_y: i32, size: (i32, i32)) -> (r: (i32, i32))
        requires
            size.0 >= 1,
            size.1 >= 1,
        ensures
            r == (clamp_int(edge_x as int, 0, size.0 - 1) as i32, clamp_int(
                edge_y as int,
                0,
                size.1 - 1,
            ) as i32),
            final(self).anchor == Some(r),
    {
        let anchor = (clamp(edge_x, 0, sat_sub(size.0, 1)), clamp(edge_y, 0, sat_sub(size.1, 1)));
        self.anchor = Some(anchor);
        anchor
    }

    pub fn position(&self) -> (r: Option<(i32, i32)>)
        ensures
            r == self.anchor,
    {
        self.anchor
    }

    pub fn end(&mut self)
        ensures
            final(self).anchor is None,
    {
        self.anchor = None;
    }
}

/// The bounds of the local monitors, in global coordinates.
#[derive(Debug, Clone, Copy, PartialEq, Eq, Structural)]
pub struct LocalScreenLayout {
    pub origin_x: i32,
    pub origin_y: i32,
    pub width: i32,
    pub height: i32,
}

impl LocalScreenLayout {
    /// The layout invariant: at least one pixel each way.
    pub open spec fn wf(self) -> bool {
        self.width >= 1 && self.height >= 1
    }

    pub fn new(origin_x: i32, origin_y: i32, width: i32, height: i32) -> (r: LocalScreenLayout)
        ensures
            r.wf(),
            r == (LocalScreenLayout {
                origin_x,
                origin_y,
                width: if width < 1 {
                    1
                } else {
                    width
                },
                height: if height < 1 {
                    1
                } else {
                    height
                },
            }),
    {
        LocalScreenLayout {
            origin_x,
            origin_y,
            width: if width < 1 {
                1
            } else {
                width
            },
            height: if height < 1 {
                1
            } else {
                height
            },
        }
    }

    pub fn size(&self) -> (r: (i32, i32))
        ensures
            r == (self.width, self.height),
    {
        (self.width, self.height)
    }

    /// A global point as a point on the layout, held on it.
    pub fn normalize(&self, point: (i32, i32)) -> (r: (i32, i32))
        requires
            self.wf(),
        ensures
            r == (clamp_int(
                sat_add_i32(point.0 as int, -(self.origin_x as int)) as int,
                0,
                self.width - 1,
            ) as i32, clamp_int(
                sat_add_i32(point.1 as int, -(self.origin_y as int)) as int,
                0,
                self.height - 1,
            ) as i32),
            0 <= r.0 < self.width,
            0 <= r.1 < self.height,
    {
        (
            clamp(sat_sub(point.0, self.origin_x), 0, self.width - 1),
            clamp(sat_sub(point.1, self.origin_y), 0, self.height - 1),
        )
    }
}

} // verus!
