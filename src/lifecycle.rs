use vstd::prelude::*;
use crate::config::SurfaceConfig;

verus! {

/// Whether the event loop is still running, and how it ends.
#[derive(Clone, Copy, Debug, PartialEq, Eq, Structural)]
pub enum Phase {
    Running,
    /// Termination has been signalled with this process exit code.
    Exiting { code: i32 },
    /// The event loop has been torn down.
    Destroyed,
}

/// How acquiring the next presentable image from the surface turned out.
#[derive(Clone, Copy, Debug, PartialEq, Eq, Structural)]
pub enum Acquire {
    Ready,
    Lost,
    OutOfMemory,
    /// Any other failure, such as a timeout or an outdated surface.
    Other,
}

/// What the controller is told: window-system events, and the outcome of the
/// work that an earlier action asked for. `R` is the bundle of GPU resources
/// (surface, device, queue, pipeline) that a session owns.
pub enum Event<R> {
    Resumed,
    Suspended,
    Resized { window: u64, width: u32, height: u32 },
    CloseRequested { window: u64 },
    RedrawRequested { window: u64 },
    /// The outcome of the acquisition that `Action::AcquireFrame` asked for.
    Acquired { outcome: Acquire },
    /// A window and its GPU context, built as `Action::CreateSession` asked,
    /// with the window's physical size at the time the surface was configured.
    SessionReady { window: u64, width: u32, height: u32, resources: R },
    Destroyed,
}

/// What the caller is to do next.
#[derive(Clone, Copy, Debug, PartialEq, Eq, Structural)]
pub enum Action {
    Nothing,
    /// Open a window, build its GPU context and pipeline, and hand them back
    /// in `Event::SessionReady`.
    CreateSession,
    RequestRedraw { window: u64 },
    /// Apply this configuration to the session's surface against its device.
    Reconfigure { width: u32, height: u32 },
    /// Acquire the next presentable image and report the outcome.
    AcquireFrame,
    /// Record one pass into the acquired image (clear, bind the pipeline, draw
    /// three vertices of one instance), submit it and present the image.
    DrawFrame,
    /// Drop the frame whose acquisition failed; nothing is drawn.
    SkipFrame,
    /// End the event loop with this process exit code.
    Exit { code: i32 },
}

impl Action {
    /// Whether doing this action makes a call on the session's surface,
    /// device or queue.
    pub open spec fn touches_gpu(self) -> bool {
        self is Reconfigure || self is AcquireFrame || self is DrawFrame
    }
}

/// What the controller knows of a session.
pub struct SessionView {
    pub window: u64,
    pub config: SurfaceConfig,
}

/// The controller's state: at most one session, and the loop's phase.
pub struct ControllerView {
    pub session: Option<SessionView>,
    pub phase: Phase,
}

impl ControllerView {
    pub open spec fn wf(self) -> bool {
        self.session matches Some(s) ==> s.config.wf()
    }

    /// The session is present and belongs to this window.
    pub open spec fn owns(self, window: u64) -> bool {
        self.session matches Some(s) && s.window == window
    }

    pub open spec fn without_session(self) -> ControllerView {
        ControllerView { session: None, phase: self.phase }
    }

    pub open spec fn exiting(self, code: i32) -> ControllerView {
        ControllerView { session: self.session, phase: Phase::Exiting { code } }
    }

    pub open spec fn resized(self, width: u32, height: u32) -> ControllerView {
        ControllerView {
            session: Some(
                SessionView {
                    window: self.session.unwrap().window,
                    config: SurfaceConfig { width, height },
                },
            ),
            phase: self.phase,
        }
    }
}

/// One transition of the controller: the state after the event, and the
/// action it asks for.
pub open spec fn step<R>(s: ControllerView, e: Event<R>) -> (ControllerView, Action) {
    match e {
        Event::Destroyed => (
            ControllerView { session: None, phase: Phase::Destroyed },
            Action::Nothing,
        ),
        Event::Suspended => (s.without_session(), Action::Nothing),
        _ => if s.phase != Phase::Running {
            (s, Action::Nothing)
        } else {
            match e {
                Event::Resumed => if s.session is None {
                    (s, Action::CreateSession)
                } else {
                    (s, Action::Nothing)
                },
                Event::SessionReady { window, width, height, resources } => if s.session is None
                    && width > 0 && height > 0 {
                    (
                        ControllerView {
                            session: Some(
                                SessionView { window, config: SurfaceConfig { width, height } },
                            ),
                            phase: s.phase,
                        },
                        Action::RequestRedraw { window },
                    )
                } else {
                    (s, Action::Nothing)
                },
                Event::Resized { window, width, height } => if s.owns(window) && width > 0
                    && height > 0 {
                    (s.resized(width, height), Action::Reconfigure { width, height })
                } else {
                    (s, Action::Nothing)
                },
                Event::CloseRequested { window } => if s.owns(window) {
                    (s.exiting(0), Action::Exit { code: 0 })
                } else {
                    (s, Action::Nothing)
                },
                Event::RedrawRequested { window } => if s.owns(window) {
                    (s, Action::AcquireFrame)
                } else {
                    (s, Action::Nothing)
                },
                Event::Acquired { outcome } => match s.session {
                    None => (s, Action::Nothing),
                    Some(ss) => match outcome {
                        Acquire::Ready => (s, Action::DrawFrame),
                        Acquire::Lost => (
                            s,
                            Action::Reconfigure {
                                width: ss.config.width,
                                height: ss.config.height,
                            },
                        ),
                        Acquire::OutOfMemory => (s.exiting(1), Action::Exit { code: 1 }),
                        Acquire::Other => (s, Action::SkipFrame),
                    },
                },
                _ => (s, Action::Nothing),
            }
        },
    }
}

/// A live session: the window it renders into, the stored configuration of
/// its surface, and the GPU resources it owns.
pub struct Session<R> {
    window: u64,
    config: SurfaceConfig,
    resources: R,
}

/// Owns at most one session and decides, one event at a time, what happens
/// to it.
pub struct Controller<R> {
    session: Option<Session<R>>,
    phase: Phase,
}

impl<R> View for Controller<R> {
    type V = ControllerView;

    closed spec fn view(&self) -> ControllerView {
        ControllerView {
            session: match self.session {
                Some(s) => Some(SessionView { window: s.window, config: s.config }),
                None => None,
            },
            phase: self.phase,
        }
    }
}

impl<R> Controller<R> {
    /// A controller with no session, its loop running.
    pub fn new() -> (r: Controller<R>)
        ensures
            r@.session is None,
            r@.phase == Phase::Running,
            r@.wf(),
    {
        Controller { session: None, phase: Phase::Running }
    }

    /// Handles one event: the new state and the returned action are those
    /// that `step` gives.
    pub fn handle(&mut self, e: Event<R>) -> (r: Action)
        requires
            old(self)@.wf(),
        ensures
            (final(self)@, r) == step(old(self)@, e),
            final(self)@.wf(),
    {
        match e {
            Event::Destroyed => {
                self.session = None;
                self.phase = Phase::Destroyed;
                return Action::Nothing;
            },
            Event::Suspended => {
                self.session = None;
                return Action::Nothing;
            },
            _ => {},
        }
        if self.phase != Phase::Running {
            return Action::Nothing;
        }
        match e {
            Event::Resumed => {
                if self.session.is_none() {
                    Action::CreateSession
                } else {
                    Action::Nothing
                }
            },
            Event::SessionReady { window, width, height, resources } => {
                if self.session.is_none() && width > 0 && height > 0 {
                    let config = SurfaceConfig { width, height };
                    self.session = Some(Session { window, config, resources });
                    Action::RequestRedraw { window }
                } else {
                    Action::Nothing
                }
            },
            Event::Resized { window, width, height } => {
                if width == 0 || height == 0 {
                    return Action::Nothing;
                }
                match &mut self.session {
                    Some(s) => {
                        if s.window != window {
                            return Action::Nothing;
                        }
                        s.config = SurfaceConfig { width, height };
                        Action::Reconfigure { width, height }
                    },
                    None => Action::Nothing,
                }
            },
            Event::CloseRequested { window } => {
                if self.owns(window) {
                    self.phase = Phase::Exiting { code: 0 };
                    Action::Exit { code: 0 }
                } else {
                    Action::Nothing
                }
            },
            Event::RedrawRequested { window } => {
                if self.owns(window) {
                    Action::AcquireFrame
                } else {
                    Action::Nothing
                }
            },
            Event::Acquired { outcome } => {
                let config = match &self.session {
                    Some(s) => s.config,
                    None => return Action::Nothing,
                };
                match outcome {
                    Acquire::Ready => Action::DrawFrame,
                    Acquire::Lost => Action::Reconfigure {
                        width: config.width,
                        height: config.height,
                    },
                    Acquire::OutOfMemory => {
                        self.phase = Phase::Exiting { code: 1 };
                        Action::Exit { code: 1 }
                    },
                    Acquire::Other => Action::SkipFrame,
                }
            },
            _ => Action::Nothing,
        }
    }

    /// Whether a session exists.
    pub fn has_session(&self) -> (r: bool)
        ensures
            r == self@.session is Some,
    {
        self.session.is_some()
    }

    /// The stored surface configuration of the session, if one exists.
    pub fn config(&self) -> (r: Option<SurfaceConfig>)
        ensures
            r is Some <==> self@.session is Some,
            r matches Some(c) ==> c == self@.session.unwrap().config,
    {
        match &self.session {
            Some(s) => Some(s.config),
            None => None,
        }
    }

    /// The window that the session renders into, if one exists.
    pub fn window(&self) -> (r: Option<u64>)
        ensures
            r is Some <==> self@.session is Some,
            r matches Some(w) ==> w == self@.session.unwrap().window,
    {
        match &self.session {
            Some(s) => Some(s.window),
            None => None,
        }
    }

    /// The GPU resources of the session, if one exists.
    pub fn resources(&self) -> (r: Option<&R>)
        ensures
            r is Some <==> self@.session is Some,
    {
        match &self.session {
            Some(s) => Some(&s.resources),
            None => None,
        }
    }

    pub fn phase(&self) -> (r: Phase)
        ensures
            r == self@.phase,
    {
        self.phase
    }

    /// The exit code that termination was signalled with, if it was.
    pub fn exit_code(&self) -> (r: Option<i32>)
        ensures
            r is Some <==> self@.phase is Exiting,
            r matches Some(c) ==> self@.phase == (Phase::Exiting { code: c }),
    {
        match self.phase {
            Phase::Exiting { code } => Some(code),
            _ => None,
        }
    }

    /// Whether a session exists and belongs to this window.
    pub fn owns(&self, window: u64) -> (r: bool)
        ensures
            r == self@.owns(window),
    {
        match &self.session {
            Some(s) => s.window == window,
            None => false,
        }
    }
}

} // verus!
