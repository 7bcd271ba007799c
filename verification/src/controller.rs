use vstd::prelude::*;

use crate::session::{FrameParams, State};

verus! {

/// Why a render call failed to present a frame: the acquisition outcomes of
/// the presentable surface, as the controller classifies them.
#[derive(Clone, Copy, Debug, PartialEq, Eq)]
pub enum RenderError {
    /// The surface was lost; it needs reconfiguration at the same size
    /// before the next render attempt.
    Lost,
    /// The surface no longer matches the window; it needs reconfiguration at
    /// the same size before the next render attempt.
    Outdated,
    /// No memory for the next frame: unrecoverable, rendering must stop.
    OutOfMemory,
    /// Acquisition timed out: transient, retried implicitly by the next
    /// scheduled frame.
    Timeout,
    /// Any other acquisition failure: logged by the host and skipped for
    /// this frame.
    Other,
}

/// The frame controller's lifecycle phase.
#[derive(Clone, Copy, Debug, PartialEq, Eq)]
pub enum Phase {
    /// No surface session exists yet; the window is not ready to render.
    Inactive,
    /// A session is present and redraws are requested continuously.
    Animating,
    /// Terminal: event-loop exit was requested; no further event is honored.
    Stopped,
}

/// What the host environment owes after an event was handled.
#[derive(Clone, Copy, Debug, PartialEq, Eq)]
pub struct Directives {
    /// Reconfigure the presentable surface to this size and rewrite the
    /// uniform block with exactly these parameters.
    pub configure: Option<FrameParams>,
    /// Request one more redraw from the host.
    pub request_redraw: bool,
    /// Report this measured throughput, in tenths of frames per second
    /// (e.g. in the window title).
    pub fps_tenths: Option<u64>,
    /// Drain all in-flight GPU work, then ask the host to exit its event
    /// loop.
    pub exit: bool,
}

impl Directives {
    /// No action owed.
    pub open spec fn quiet() -> Directives {
        Directives { configure: None, request_redraw: false, fps_tenths: None, exit: false }
    }

    /// Drain and exit; nothing else.
    pub open spec fn exit_now() -> Directives {
        Directives { configure: None, request_redraw: false, fps_tenths: None, exit: true }
    }
}

/// The frame controller: owns at most one surface session and drives the
/// animation loop. The host delivers lifecycle events one at a time through
/// the methods below; each returns the directives the host must carry out.
#[derive(Clone, Copy, Debug, PartialEq, Eq)]
pub struct Controller {
    /// The lifecycle phase; animating exactly while this is `Animating`.
    pub phase: Phase,
    /// The surface session, absent before the window can render.
    pub session: Option<State>,
    /// Successful frames since the last throughput sample.
    pub tally: u32,
    /// Time of the last throughput sample, in the host's milliseconds.
    pub sample_start_ms: u64,
}

impl Controller {
    /// A session exists exactly from activation on, and its configured
    /// dimensions are never degenerate.
    pub open spec fn wf(self) -> bool {
        &&& (self.phase is Animating ==> self.session is Some)
        &&& (self.phase is Inactive ==> self.session is None)
        &&& (self.session matches Some(s) ==> s.wf())
    }

    /// The `animating` flag: true while the window is open and no fatal
    /// error has occurred.
    pub open spec fn animating(self) -> bool {
        self.phase is Animating
    }

    /// The frame tally after one successful frame: incremented by one,
    /// saturating at the representable maximum (it is reset at every
    /// throughput sample long before that).
    pub open spec fn bumped_tally(t: u32) -> u32 {
        if t == u32::MAX {
            t
        } else {
            (t + 1) as u32
        }
    }

    /// Milliseconds elapsed from `start` to `now` on the host's monotonic
    /// clock; 0 if `now` reads earlier than `start`.
    pub open spec fn elapsed_ms(start: u64, now: u64) -> u64 {
        if now >= start {
            (now - start) as u64
        } else {
            0u64
        }
    }

    /// Throughput in tenths of frames per second: frames divided by elapsed
    /// seconds, truncated to one decimal.
    pub open spec fn fps_tenths(frames: u32, elapsed: u64) -> u64
        recommends
            elapsed >= 1,
    {
        ((frames as int * 10000) / (elapsed as int)) as u64
    }

    /// The controller after the host's can-render-now signal arrives at time
    /// `now_ms` with the window at the given pixel size.
    pub open spec fn activated(self, width: u32, height: u32, now_ms: u64) -> Controller {
        Controller {
            phase: Phase::Animating,
            session: Some(State::created(width, height)),
            tally: 0u32,
            sample_start_ms: now_ms,
        }
    }

    /// The directives owed on activation: configure the surface at the
    /// created session's size with its initial uniform parameters
    /// (frame index 0) and request the first redraw.
    pub open spec fn activation_directives(width: u32, height: u32) -> Directives {
        Directives {
            configure: Some(State::created(width, height).params()),
            request_redraw: true,
            fps_tenths: None,
            exit: false,
        }
    }

    /// The controller after a close request: `Stopped`, everything else
    /// kept.
    pub open spec fn after_close(self) -> Controller {
        Controller {
            phase: Phase::Stopped,
            session: self.session,
            tally: self.tally,
            sample_start_ms: self.sample_start_ms,
        }
    }

    /// The directives owed on a close request: drain and exit, unless
    /// already `Stopped` (exit is requested at most once).
    pub open spec fn close_directives(self) -> Directives {
        if self.phase is Stopped {
            Directives::quiet()
        } else {
            Directives::exit_now()
        }
    }

    /// The controller after a resize notification: while `Animating` the
    /// session is resized (a no-op on a zero dimension); in any other phase
    /// the event is not honored.
    pub open spec fn after_resize(self, w: u32, h: u32) -> Controller {
        match self.session {
            Some(s) => if self.phase is Animating {
                Controller {
                    phase: self.phase,
                    session: Some(s.resized(w, h)),
                    tally: self.tally,
                    sample_start_ms: self.sample_start_ms,
                }
            } else {
                self
            },
            None => self,
        }
    }

    /// The directives owed on a resize notification: while `Animating`, a
    /// redraw is always requested, and the surface is reconfigured (with the
    /// uniform size rewritten, frame index kept) exactly when both
    /// dimensions are at least 1.
    pub open spec fn resize_directives(self, w: u32, h: u32) -> Directives {
        match self.session {
            Some(s) => if self.phase is Animating {
                Directives {
                    configure: if w >= 1 && h >= 1 {
                        Some(s.resized(w, h).params())
                    } else {
                        None
                    },
                    request_redraw: true,
                    fps_tenths: None,
                    exit: false,
                }
            } else {
                Directives::quiet()
            },
            None => Directives::quiet(),
        }
    }

    /// The controller after a redraw notification: while `Animating` the
    /// session's frame counter advances (wrapping); in any other phase the
    /// event is not honored.
    pub open spec fn after_redraw(self) -> Controller {
        match self.session {
            Some(s) => if self.phase is Animating {
                Controller {
                    phase: self.phase,
                    session: Some(s.advanced()),
                    tally: self.tally,
                    sample_start_ms: self.sample_start_ms,
                }
            } else {
                self
            },
            None => self,
        }
    }

    /// The uniform parameters for the frame the host must now render: the
    /// advanced session's size and new frame index while `Animating`, and
    /// nothing in any other phase.
    pub open spec fn redraw_params(self) -> Option<FrameParams> {
        match self.session {
            Some(s) => if self.phase is Animating {
                Some(s.advanced().params())
            } else {
                None
            },
            None => None,
        }
    }

    /// The controller after a render outcome reported at time `now_ms`:
    /// success bumps the frame tally and, once at least a second has
    /// elapsed since the last throughput sample, resets the tally and the
    /// sample time; `OutOfMemory` stops animation; every other outcome
    /// leaves the state unchanged. Outcomes are honored only while
    /// `Animating`.
    pub open spec fn after_outcome(self, outcome: Result<(), RenderError>, now_ms: u64) -> Controller {
        match self.session {
            Some(s) => if self.phase is Animating {
                match outcome {
                    Ok(()) => {
                        let t = Self::bumped_tally(self.tally);
                        let e = Self::elapsed_ms(self.sample_start_ms, now_ms);
                        if e >= 1000 {
                            Controller {
                                phase: self.phase,
                                session: self.session,
                                tally: 0u32,
                                sample_start_ms: now_ms,
                            }
                        } else {
                            Controller {
                                phase: self.phase,
                                session: self.session,
                                tally: t,
                                sample_start_ms: self.sample_start_ms,
                            }
                        }
                    },
                    Err(RenderError::OutOfMemory) => Controller {
                        phase: Phase::Stopped,
                        session: self.session,
                        tally: self.tally,
                        sample_start_ms: self.sample_start_ms,
                    },
                    Err(_) => self,
                }
            } else {
                self
            },
            None => self,
        }
    }

    /// The directives owed for a render outcome reported at time `now_ms`:
    /// on success another redraw, plus the measured throughput once at
    /// least a second has elapsed; on `Lost`/`Outdated` a reconfiguration
    /// at the current size (the idempotent self-heal) and another redraw;
    /// on `OutOfMemory` drain-and-exit; on `Timeout` or any other failure
    /// nothing. Outcomes are honored only while `Animating`.
    pub open spec fn outcome_directives(self, outcome: Result<(), RenderError>, now_ms: u64) -> Directives {
        match self.session {
            Some(s) => if self.phase is Animating {
                match outcome {
                    Ok(()) => {
                        let t = Self::bumped_tally(self.tally);
                        let e = Self::elapsed_ms(self.sample_start_ms, now_ms);
                        Directives {
                            configure: None,
                            request_redraw: true,
                            fps_tenths: if e >= 1000 {
                                Some(Self::fps_tenths(t, e))
                            } else {
                                None
                            },
                            exit: false,
                        }
                    },
                    Err(RenderError::Lost) | Err(RenderError::Outdated) => Directives {
                        configure: Some(s.params()),
                        request_redraw: true,
                        fps_tenths: None,
                        exit: false,
                    },
                    Err(RenderError::OutOfMemory) => Directives::exit_now(),
                    Err(RenderError::Timeout) => Directives::quiet(),
                    Err(RenderError::Other) => Directives::quiet(),
                }
            } else {
                Directives::quiet()
            },
            None => Directives::quiet(),
        }
    }

    /// The controller as it stands at process start: no session, not
    /// animating.
    pub fn new() -> (c: Controller)
        ensures
            c.phase is Inactive,
            c.session is None,
            c.tally == 0,
            c.sample_start_ms == 0,
            c.wf(),
    {
        Controller { phase: Phase::Inactive, session: None, tally: 0, sample_start_ms: 0 }
    }

    /// Handles the host's can-render-now signal: enters `Animating`,
    /// creates the session at the window's pixel size (each dimension
    /// floored to 1), starts a fresh throughput sample at `now_ms`, and
    /// directs the host to configure the surface with the initial uniform
    /// parameters and request the first redraw.
    pub fn activate(&mut self, width: u32, height: u32, now_ms: u64) -> (d: Directives)
        requires
            old(self).phase is Inactive,
        ensures
            *final(self) == old(self).activated(width, height, now_ms),
            d == Controller::activation_directives(width, height),
            final(self).animating(),
            final(self).wf(),
    {
        let s = State::new(width, height);
        self.phase = Phase::Animating;
        self.session = Some(s);
        self.tally = 0;
        self.sample_start_ms = now_ms;
        Directives {
            configure: Some(FrameParams { width: s.width, height: s.height, frame_index: s.frame }),
            request_redraw: true,
            fps_tenths: None,
            exit: false,
        }
    }

    /// Handles the host's close request: stops animating and directs the
    /// host to drain outstanding GPU work and exit. Once `Stopped`, further
    /// close requests yield nothing, so exit is requested at most once.
    pub fn close_requested(&mut self) -> (d: Directives)
        ensures
            *final(self) == old(self).after_close(),
            d == old(self).close_directives(),
            !final(self).animating(),
            final(self).phase is Stopped,
            old(self).wf() ==> final(self).wf(),
    {
        match self.phase {
            Phase::Stopped => Directives {
                configure: None,
                request_redraw: false,
                fps_tenths: None,
                exit: false,
            },
            _ => {
                self.phase = Phase::Stopped;
                Directives { configure: None, request_redraw: false, fps_tenths: None, exit: true }
            },
        }
    }

    /// Handles a window resize notification: while `Animating`, forwards
    /// the new dimensions to the session (a no-op when either is 0) and
    /// always requests a redraw, so the displayed frame follows the new
    /// size without waiting for the next animation tick. In any other
    /// phase the event is not honored.
    pub fn resized(&mut self, w: u32, h: u32) -> (d: Directives)
        ensures
            *final(self) == old(self).after_resize(w, h),
            d == old(self).resize_directives(w, h),
            final(self).phase == old(self).phase,
            old(self).wf() ==> final(self).wf(),
    {
        match self.phase {
            Phase::Animating => {},
            _ => {
                return Directives {
                    configure: None,
                    request_redraw: false,
                    fps_tenths: None,
                    exit: false,
                };
            },
        }
        match &mut self.session {
            Some(s) => {
                s.resize(w, h);
                let configure = if w >= 1 && h >= 1 {
                    Some(FrameParams { width: s.width, height: s.height, frame_index: s.frame })
                } else {
                    None
                };
                Directives { configure, request_redraw: true, fps_tenths: None, exit: false }
            },
            None => Directives {
                configure: None,
                request_redraw: false,
                fps_tenths: None,
                exit: false,
            },
        }
    }

    /// Handles a redraw notification: while `Animating`, advances the
    /// session's frame counter (wrapping) and returns the uniform
    /// parameters of the frame the host must now render and present; in
    /// any other phase the redraw is not honored and nothing is returned.
    pub fn redraw_requested(&mut self) -> (p: Option<FrameParams>)
        ensures
            *final(self) == old(self).after_redraw(),
            p == old(self).redraw_params(),
            final(self).phase == old(self).phase,
            p is Some <==> old(self).animating() && old(self).session is Some,
            old(self).wf() ==> final(self).wf(),
    {
        match self.phase {
            Phase::Animating => {},
            _ => {
                return None;
            },
        }
        match &mut self.session {
            Some(s) => Some(s.render()),
            None => None,
        }
    }

    /// Handles the outcome the host reports for the frame it just tried to
    /// render, at time `now_ms`: on success bumps the frame tally and,
    /// once at least a second has elapsed since the last sample, reports
    /// the measured throughput and starts a new sample; on
    /// `Lost`/`Outdated` directs a reconfiguration at the current size; on
    /// `OutOfMemory` stops animating and directs drain-and-exit; `Timeout`
    /// and other failures are left to the next scheduled frame.
    pub fn render_completed(&mut self, outcome: Result<(), RenderError>, now_ms: u64) -> (d:
        Directives)
        ensures
            *final(self) == old(self).after_outcome(outcome, now_ms),
            d == old(self).outcome_directives(outcome, now_ms),
            d.exit <==> (old(self).animating() && old(self).session is Some && outcome == Err::<
                (),
                RenderError,
            >(RenderError::OutOfMemory)),
            old(self).wf() ==> final(self).wf(),
    {
        let quiet = Directives {
            configure: None,
            request_redraw: false,
            fps_tenths: None,
            exit: false,
        };
        match self.phase {
            Phase::Animating => {},
            _ => {
                return quiet;
            },
        }
        let params_now: FrameParams = match &self.session {
            Some(s) => FrameParams { width: s.width, height: s.height, frame_index: s.frame },
            None => {
                return quiet;
            },
        };
        match outcome {
            Ok(()) => {
                let t: u32 = if self.tally == u32::MAX {
                    self.tally
                } else {
                    self.tally + 1
                };
                let e: u64 = if now_ms >= self.sample_start_ms {
                    now_ms - self.sample_start_ms
                } else {
                    0
                };
                if e >= 1000 {
                    let tenths: u64 = (t as u64) * 10000 / e;
                    self.tally = 0;
                    self.sample_start_ms = now_ms;
                    Directives {
                        configure: None,
                        request_redraw: true,
                        fps_tenths: Some(tenths),
                        exit: false,
                    }
                } else {
                    self.tally = t;
                    Directives {
                        configure: None,
                        request_redraw: true,
                        fps_tenths: None,
                        exit: false,
                    }
                }
            },
            Err(RenderError::Lost) | Err(RenderError::Outdated) => Directives {
                configure: Some(params_now),
                request_redraw: true,
                fps_tenths: None,
                exit: false,
            },
            Err(RenderError::OutOfMemory) => {
                self.phase = Phase::Stopped;
                Directives {
                    configure: None,
                    request_redraw: false,
                    fps_tenths: None,
                    exit: true,
                }
            },
            Err(RenderError::Timeout) => quiet,
            Err(RenderError::Other) => quiet,
        }
    }
}

/// Law: `Stopped` is terminal. No notification, render outcome or repeated
/// close request changes the controller or yields any directive — in
/// particular, no further redraw, reconfiguration or exit is ever requested
/// once the controller has stopped.
pub proof fn lemma_stopped_is_terminal(
    c: Controller,
    w: u32,
    h: u32,
    outcome: Result<(), RenderError>,
    now_ms: u64,
)
    requires
        c.phase is Stopped,
    ensures
        c.after_resize(w, h) == c,
        c.resize_directives(w, h) == Directives::quiet(),
        c.after_redraw() == c,
        c.redraw_params() is None,
        c.after_outcome(outcome, now_ms) == c,
        c.outcome_directives(outcome, now_ms) == Directives::quiet(),
        c.after_close() == c,
        c.close_directives() == Directives::quiet(),
{
}

/// Law: from any animating controller, a `Lost` outcome directs exactly one
/// reconfiguration at the currently configured size together with one more
/// redraw request and leaves the state unchanged; the next honored redraw
/// advances the frame by one; a success then keeps the controller animating
/// and requests another redraw; a following `OutOfMemory` stops animation
/// with exactly one drain-and-exit directive and no redraw — and from then
/// on no event yields any directive at all.
pub proof fn lemma_lost_then_success_then_oom(
    c0: Controller,
    s: State,
    t1: u64,
    t2: u64,
    t3: u64,
)
    requires
        c0.wf(),
        c0.phase is Animating,
        c0.session == Some(s),
    ensures
        c0.outcome_directives(Err(RenderError::Lost), t1) == (Directives {
            configure: Some(s.params()),
            request_redraw: true,
            fps_tenths: None,
            exit: false,
        }),
        c0.after_outcome(Err(RenderError::Lost), t1) == c0,
        c0.redraw_params() == Some(s.advanced().params()),
        c0.after_redraw().outcome_directives(Ok(()), t2).request_redraw,
        !c0.after_redraw().outcome_directives(Ok(()), t2).exit,
        c0.after_redraw().after_outcome(Ok(()), t2).animating(),
        ({
            let c2 = c0.after_redraw().after_outcome(Ok(()), t2);
            &&& c2.outcome_directives(Err(RenderError::OutOfMemory), t3) == Directives::exit_now()
            &&& !c2.outcome_directives(Err(RenderError::OutOfMemory), t3).request_redraw
            &&& c2.after_outcome(Err(RenderError::OutOfMemory), t3).phase is Stopped
            &&& c2.after_outcome(Err(RenderError::OutOfMemory), t3).redraw_params() is None
            &&& c2.after_outcome(Err(RenderError::OutOfMemory), t3).close_directives()
                == Directives::quiet()
        }),
{
}

} // verus!
