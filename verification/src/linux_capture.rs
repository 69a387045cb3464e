use vstd::prelude::*;

use crate::arith::{clamp_i16, clamp_int};
use crate::keymap::{
    is_mouse_button, key_state_from_value, linux_key_to_protocol_scancode, mouse_button_from_code,
    spec_key_state_from_value, spec_linux_key_to_protocol_scancode, spec_mouse_button_from_code, BTN_BACK,
    BTN_LEFT,
};
use crate::motion::PendingPointer;
use crate::pointer::{
    router_wf, spec_is_remote, spec_observe_local_button, spec_observe_local_motion, spec_observe_remote_motion,
    spec_return_to_local, MotionAction, PointerRouter, RouterModel,
};
use crate::protocol::{InputEvent, KeyState, MouseButton};

verus! {

/// Event types and the report code of the Linux input layer.
pub const EV_SYN: u16 = 0x00;
pub const EV_KEY: u16 = 0x01;
pub const EV_REL: u16 = 0x02;
pub const SYN_REPORT: u16 = 0x00;

/// What one raw event from a capture device is.
#[derive(Debug, Clone, Copy, PartialEq, Eq, Structural)]
pub enum RawEventKind {
    /// Relative motion on an axis, gathered until the report.
    Rel { code: u16, value: i32 },
    /// The end of a report: the gathered motion is handled.
    Report,
    /// A mouse button.
    Button { button: MouseButton, down: bool },
    /// A key.
    Key { code: u16, state: KeyState },
    Ignore,
}

pub open spec fn spec_classify_event(event_type: u16, code: u16, value: i32) -> RawEventKind {
    if event_type == EV_REL {
        RawEventKind::Rel { code, value }
    } else if event_type == EV_SYN && code == SYN_REPORT {
        RawEventKind::Report
    } else if event_type == EV_KEY && BTN_LEFT <= code <= BTN_BACK {
        RawEventKind::Button { button: spec_mouse_button_from_code(code), down: value != 0 }
    } else if event_type == EV_KEY {
        RawEventKind::Key { code, state: spec_key_state_from_value(value) }
    } else {
        RawEventKind::Ignore
    }
}

/// What a raw event from a capture device stands for.
pub fn classify_event(event_type: u16, code: u16, value: i32) -> (r: RawEventKind)
    ensures
        r == spec_classify_event(event_type, code, value),
{
    if event_type == EV_REL {
        RawEventKind::Rel { code, value }
    } else if event_type == EV_SYN && code == SYN_REPORT {
        RawEventKind::Report
    } else if event_type == EV_KEY && is_mouse_button(code) {
        RawEventKind::Button { button: mouse_button_from_code(code), down: value != 0 }
    } else if event_type == EV_KEY {
        RawEventKind::Key { code, state: key_state_from_value(value) }
    } else {
        RawEventKind::Ignore
    }
}

/// What the capture does for the server.
#[derive(Debug, Clone, Copy, PartialEq, Eq, Structural)]
pub enum CaptureStep {
    /// Send an input event to the client.
    Send(InputEvent),
    /// Grab the capture devices for the remote screen; when that fails,
    /// call `grab_failed` and skip the steps after it.
    Grab,
    /// Let go of the capture devices and put the local pointer at the point.
    Release { x: i32, y: i32 },
}

pub struct LinuxCaptureModel {
    pub router: RouterModel,
    pub remote_buttons_down: u32,
}

/// The pointer decisions of the Linux server: it reads the evdev devices,
/// routes the pointer between the screens and sends what the remote screen
/// gets.
pub struct LinuxCapture {
    router: PointerRouter,
    remote_buttons_down: u32,
}

impl View for LinuxCapture {
    type V = LinuxCaptureModel;

    closed spec fn view(&self) -> LinuxCaptureModel {
        LinuxCaptureModel { router: self.router@, remote_buttons_down: self.remote_buttons_down }
    }
}

/// A wheel count in the protocol's units (120 per detent), held in 16 bits.
pub open spec fn wheel_units(v: i32) -> i16 {
    clamp_int(clamp_int(v * 120, i32::MIN as int, i32::MAX as int), i16::MIN as int, i16::MAX as int) as i16
}

fn wheel_units_exec(v: i32) -> (r: i16)
    ensures
        r == wheel_units(v),
{
    let m: i64 = v as i64 * 120;
    let s: i32 = if m > i32::MAX as i64 {
        i32::MAX
    } else if m < i32::MIN as i64 {
        i32::MIN
    } else {
        m as i32
    };
    clamp_i16(s)
}

/// The wheel part of a report: sent while the remote screen has control.
pub open spec fn wheel_steps_of(router: RouterModel, p: PendingPointer) -> Seq<CaptureStep> {
    if spec_is_remote(router) && (p.hwheel != 0 || p.wheel != 0) {
        seq![CaptureStep::Send(InputEvent::MouseWheel { horizontal: wheel_units(p.hwheel), vertical: wheel_units(p.wheel) })]
    } else {
        seq![]
    }
}

/// What one report of gathered motion does: on the remote screen the
/// motion moves the remote pointer or brings it home (the devices let go,
/// the local pointer put where it comes back); on the local screen the
/// pointer position, when known, may cross the edge (the devices grabbed,
/// the entry sent). Wheel movement goes to the remote screen while it has
/// control.
pub open spec fn spec_on_report(
    m: LinuxCaptureModel,
    p: PendingPointer,
    local_position: Option<(i32, i32)>,
) -> (LinuxCaptureModel, Seq<CaptureStep>) {
    if p.dx != 0 || p.dy != 0 {
        if spec_is_remote(m.router) {
            let (r, action) = spec_observe_remote_motion(m.router, p.dx, p.dy, m.remote_buttons_down == 0);
            match action {
                MotionAction::MoveRemote { dx, dy } => (
                    LinuxCaptureModel { router: r, ..m },
                    seq![CaptureStep::Send(InputEvent::MouseDelta { dx, dy })] + wheel_steps_of(r, p),
                ),
                MotionAction::ReturnLocal { x, y } => (
                    LinuxCaptureModel { router: r, remote_buttons_down: 0 },
                    seq![CaptureStep::Release { x, y }] + wheel_steps_of(r, p),
                ),
                _ => (LinuxCaptureModel { router: r, ..m }, wheel_steps_of(r, p)),
            }
        } else {
            match local_position {
                Some(pos) => {
                    let (r, action) = spec_observe_local_motion(m.router, pos.0, pos.1);
                    match action {
                        MotionAction::EnterRemote { x, y } => (
                            LinuxCaptureModel { router: r, remote_buttons_down: 0 },
                            seq![CaptureStep::Grab, CaptureStep::Send(InputEvent::MouseEnter { x, y })]
                                + wheel_steps_of(r, p),
                        ),
                        _ => (LinuxCaptureModel { router: r, ..m }, wheel_steps_of(r, p)),
                    }
                },
                None => (m, wheel_steps_of(m.router, p)),
            }
        }
    } else {
        (m, wheel_steps_of(m.router, p))
    }
}

impl LinuxCapture {
    /// A capture for the screen edge and sizes the router is made with.
    pub fn new(router: PointerRouter) -> (r: LinuxCapture)
        ensures
            r@.router == router@,
            r@.remote_buttons_down == 0,
    {
        LinuxCapture { router, remote_buttons_down: 0 }
    }

    pub fn is_remote(&self) -> (r: bool)
        ensures
            r == spec_is_remote(self@.router),
    {
        self.router.is_remote()
    }

    /// One report of gathered motion, with the local pointer position on
    /// the screen when it can be read.
    pub fn on_report(&mut self, p: PendingPointer, local_position: Option<(i32, i32)>) -> (r: Vec<CaptureStep>)
        ensures
            (final(self)@, r@) == spec_on_report(old(self)@, p, local_position),
    {
        let mut out: Vec<CaptureStep> = Vec::new();
        if p.dx != 0 || p.dy != 0 {
            if self.router.is_remote() {
                let action = self.router.observe_remote_motion(p.dx, p.dy, self.remote_buttons_down == 0);
                match action {
                    MotionAction::MoveRemote { dx, dy } => {
                        out.push(CaptureStep::Send(InputEvent::MouseDelta { dx, dy }));
                    },
                    MotionAction::ReturnLocal { x, y } => {
                        self.remote_buttons_down = 0;
                        out.push(CaptureStep::Release { x, y });
                    },
                    _ => {},
                }
            } else {
                match local_position {
                    Some(pos) => {
                        let action = self.router.observe_local_motion(pos.0, pos.1);
                        match action {
                            MotionAction::EnterRemote { x, y } => {
                                self.remote_buttons_down = 0;
                                out.push(CaptureStep::Grab);
                                out.push(CaptureStep::Send(InputEvent::MouseEnter { x, y }));
                            },
                            _ => {},
                        }
                    },
                    None => {},
                }
            }
        }
        if self.router.is_remote() && (p.hwheel != 0 || p.wheel != 0) {
            out.push(
                CaptureStep::Send(
                    InputEvent::MouseWheel { horizontal: wheel_units_exec(p.hwheel), vertical: wheel_units_exec(p.wheel) },
                ),
            );
        }
        proof {
            assert(out@ =~= spec_on_report(old(self)@, p, local_position).1);
        }
        out
    }

    /// The devices could not be grabbed on entering the remote screen: the
    /// pointer stays local.
    pub fn grab_failed(&mut self)
        ensures
            spec_is_remote(old(self)@.router) ==> final(self)@ == (LinuxCaptureModel {
                router: spec_return_to_local(old(self)@.router).0,
                ..old(self)@
            }),
            !spec_is_remote(old(self)@.router) ==> final(self)@ == old(self)@,
    {
        let _ = self.router.force_local();
    }

    /// A mouse button: sent, and counted, while the remote screen has
    /// control; otherwise noted by the router (a held local button keeps
    /// the pointer local).
    pub fn on_button(&mut self, button: MouseButton, down: bool) -> (r: Vec<CaptureStep>)
        ensures
            spec_is_remote(old(self)@.router) ==> final(self)@ == (LinuxCaptureModel {
                remote_buttons_down: if down {
                    if old(self)@.remote_buttons_down == u32::MAX { u32::MAX } else { (old(self)@.remote_buttons_down + 1) as u32 }
                } else {
                    if old(self)@.remote_buttons_down == 0 { 0 } else { (old(self)@.remote_buttons_down - 1) as u32 }
                },
                ..old(self)@
            }) && r@ == seq![CaptureStep::Send(InputEvent::MouseButton { button, down })],
            !spec_is_remote(old(self)@.router) ==> final(self)@ == (LinuxCaptureModel {
                router: spec_observe_local_button(old(self)@.router, down),
                ..old(self)@
            }) && r@.len() == 0,
    {
        let mut out: Vec<CaptureStep> = Vec::new();
        if self.router.is_remote() {
            if down {
                self.remote_buttons_down = self.remote_buttons_down.saturating_add(1);
            } else {
                self.remote_buttons_down = self.remote_buttons_down.saturating_sub(1);
            }
            out.push(CaptureStep::Send(InputEvent::MouseButton { button, down }));
        } else {
            self.router.observe_local_button(down);
        }
        out
    }

    /// A key: sent while the remote screen has control, when it has a
    /// protocol scancode.
    pub fn on_key(&self, linux_key: u16, state: KeyState) -> (r: Option<InputEvent>)
        ensures
            spec_is_remote(self@.router) && spec_linux_key_to_protocol_scancode(linux_key) is Some ==> r == Some(
                InputEvent::Key { scancode: spec_linux_key_to_protocol_scancode(linux_key).unwrap(), state },
            ),
            !(spec_is_remote(self@.router) && spec_linux_key_to_protocol_scancode(linux_key) is Some) ==> r is None,
    {
        if !self.router.is_remote() {
            return None;
        }
        match linux_key_to_protocol_scancode(linux_key) {
            Some(scancode) => Some(InputEvent::Key { scancode, state }),
            None => None,
        }
    }
}

/// What to do after trying to grab the capture devices in order, stopping
/// at the first that refused: either all are grabbed, or the ones grabbed
/// before the refusal are let go again, so that no device stays grabbed
/// while the pointer is on the local screen.
pub struct GrabOutcome {
    pub grabbed: bool,
    pub release: Vec<usize>,
}

/// The outcome of grabbing devices whose grabs gave `results`, in order.
pub fn grab_outcome(results: &[bool]) -> (r: GrabOutcome)
    ensures
        (forall|i: int| 0 <= i < results@.len() ==> results@[i]) ==> (r.grabbed && r.release@.len() == 0),
        forall|f: int| 0 <= f < results@.len() && !results@[f] && (forall|j: int| 0 <= j < f ==> results@[j])
            ==> (!r.grabbed && r.release@ == Seq::new(f as nat, |i: int| i as usize)),
{
    let mut i: usize = 0;
    let mut release: Vec<usize> = Vec::new();
    while i < results.len()
        invariant
            i <= results@.len(),
            forall|j: int| 0 <= j < i ==> results@[j],
            release@ == Seq::new(i as nat, |k: int| k as usize),
        decreases results@.len() - i,
    {
        if !results[i] {
            return GrabOutcome { grabbed: false, release };
        }
        release.push(i);
        assert(release@ =~= Seq::new((i + 1) as nat, |k: int| k as usize));
        i = i + 1;
    }
    GrabOutcome { grabbed: true, release: Vec::new() }
}

} // verus!
