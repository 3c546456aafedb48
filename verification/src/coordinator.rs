//! The bootstrap coordinator: a two-state machine (not started / started)
//! that turns each host notification into the directive the platform layer
//! must carry out. The first surface notification that resolves to a real
//! window wins the one-way transition and receives the full bootstrap plan;
//! every later one receives only a sub-window re-registration.

use vstd::prelude::*;

use crate::geometry::{clamp_fps, clamped_fps, full_extent, full_extent_spec, SubWindowPlacement,
    WindowInfo};

verus! {

/// Parameters for the render loop started once, on a dedicated worker:
/// the primary window, its extent, the display density (whole dots per
/// inch, both axes) and the already-clamped frame rate.
#[derive(Clone, Copy, PartialEq, Eq, Debug)]
pub struct RenderWorkerPlan {
    pub window: usize,
    pub width: i32,
    pub height: i32,
    pub xdpi: i32,
    pub ydpi: i32,
    pub fps: i32,
}

/// Everything the one-time bootstrap does, in order: widen the device-node
/// permissions, initialize the input subsystem with the display extent,
/// dispatch the render worker, then launch the guest container.
#[derive(Clone, Copy, PartialEq, Eq, Debug)]
pub struct BootstrapPlan {
    pub input_width: i32,
    pub input_height: i32,
    pub worker: RenderWorkerPlan,
}

/// A notification delivered by the host runtime. A surface that resolved to
/// a null native window arrives as `window: None` (or `handle: None` on the
/// reset and remove paths); a touch event whose backing native pointer is
/// null (or whose event object was null) arrives as `backing: None`.
#[derive(Clone, Copy, PartialEq, Eq, Debug)]
pub enum HostNotification {
    SurfaceAvailable { window: Option<WindowInfo>, xdpi: i32, ydpi: i32, fps: i32 },
    ResetWindow { handle: Option<usize>, top: i32, left: i32, width: i32, height: i32 },
    RemoveWindow { handle: Option<usize> },
    Touch { backing: Option<i64> },
    Key { code: i32 },
}

/// What the platform layer must do in response to one notification.
/// Every failure is absorbed here: nothing propagates an error to the host.
#[derive(Clone, Copy, PartialEq, Eq, Debug)]
pub enum Directive {
    /// Null native-window resolution, on any window-carrying notification:
    /// log an error and make no renderer call at all.
    Abort,
    /// Null touch backing pointer: drop the event silently.
    Ignore,
    /// First resolved surface: run the full bootstrap.
    Bootstrap(BootstrapPlan),
    /// Later resolved surface: register the window and resize its
    /// sub-window to full extent.
    Reregister(SubWindowPlacement),
    /// Explicit host resize: full extent at (0,0), whatever offset it asked.
    ResizeSub(SubWindowPlacement),
    /// Explicit host removal; safe even for a never-registered window.
    RemoveSub(usize),
    /// Forward a motion event's backing pointer to the input subsystem.
    ForwardTouch(i64),
    /// Forward a key code to the input subsystem, unvalidated.
    ForwardKey(i32),
}

/// The whole state machine: from a started-flag value and one notification
/// to the flag's next value and the directive issued.
pub open spec fn spec_step(started: bool, n: HostNotification) -> (bool, Directive) {
    match n {
        HostNotification::SurfaceAvailable { window, xdpi, ydpi, fps } => {
            match window {
                Option::None => (started, Directive::Abort),
                Option::Some(w) => {
                    if started {
                        (true, Directive::Reregister(full_extent_spec(w.handle, w.width, w.height)))
                    } else {
                        (true, Directive::Bootstrap(BootstrapPlan {
                            input_width: w.width,
                            input_height: w.height,
                            worker: RenderWorkerPlan {
                                window: w.handle,
                                width: w.width,
                                height: w.height,
                                xdpi,
                                ydpi,
                                fps: clamped_fps(fps),
                            },
                        }))
                    }
                },
            }
        },
        HostNotification::ResetWindow { handle, top: _, left: _, width, height } => {
            match handle {
                Option::None => (started, Directive::Abort),
                Option::Some(h) => (started, Directive::ResizeSub(full_extent_spec(h, width,
                    height))),
            }
        },
        HostNotification::RemoveWindow { handle } => {
            match handle {
                Option::None => (started, Directive::Abort),
                Option::Some(h) => (started, Directive::RemoveSub(h)),
            }
        },
        HostNotification::Touch { backing } => {
            match backing {
                Option::Some(p) => if p != 0 {
                    (started, Directive::ForwardTouch(p))
                } else {
                    (started, Directive::Ignore)
                },
                Option::None => (started, Directive::Ignore),
            }
        },
        HostNotification::Key { code } => (started, Directive::ForwardKey(code)),
    }
}

/// The process-wide bootstrap flag: false at creation, set exactly once by
/// the first resolved surface notification, never cleared. The host's
/// concurrent callers serialize their notifications through one atomic
/// transition; this machine describes each notification at its
/// serialization point.
pub struct Coordinator {
    started: bool,
}

impl Coordinator {
    /// Whether the one-way transition to the started state has happened.
    pub closed spec fn is_started(&self) -> bool {
        self.started
    }

    /// A coordinator for a fresh process: bootstrap has not run.
    pub fn new() -> (c: Coordinator)
        ensures
            !c.is_started(),
    {
        Coordinator { started: false }
    }

    /// Take one notification and decide what the platform layer must do,
    /// advancing the started flag exactly as `spec_step` says.
    pub fn handle(&mut self, n: HostNotification) -> (d: Directive)
        ensures
            final(self).is_started() == spec_step(old(self).is_started(), n).0,
            d == spec_step(old(self).is_started(), n).1,
            old(self).is_started() ==> final(self).is_started(),
    {
        match n {
            HostNotification::SurfaceAvailable { window, xdpi, ydpi, fps } => {
                match window {
                    Option::None => Directive::Abort,
                    Option::Some(w) => {
                        if self.started {
                            Directive::Reregister(full_extent(w.handle, w.width, w.height))
                        } else {
                            self.started = true;
                            let safe_fps: i32 = clamp_fps(fps);
                            Directive::Bootstrap(BootstrapPlan {
                                input_width: w.width,
                                input_height: w.height,
                                worker: RenderWorkerPlan {
                                    window: w.handle,
                                    width: w.width,
                                    height: w.height,
                                    xdpi,
                                    ydpi,
                                    fps: safe_fps,
                                },
                            })
                        }
                    },
                }
            },
            HostNotification::ResetWindow { handle, top: _, left: _, width, height } => {
                match handle {
                    Option::None => Directive::Abort,
                    Option::Some(h) => Directive::ResizeSub(full_extent(h, width, height)),
                }
            },
            HostNotification::RemoveWindow { handle } => {
                match handle {
                    Option::None => Directive::Abort,
                    Option::Some(h) => Directive::RemoveSub(h),
                }
            },
            HostNotification::Touch { backing } => {
                match backing {
                    Option::Some(p) => if p != 0 {
                        Directive::ForwardTouch(p)
                    } else {
                        Directive::Ignore
                    },
                    Option::None => Directive::Ignore,
                }
            },
            HostNotification::Key { code } => Directive::ForwardKey(code),
        }
    }
}

} // verus!
