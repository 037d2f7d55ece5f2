//! The host event loop as a state machine: what each event of the window
//! system asks the host to do, through the life of the application, and
//! when the loop is to wake next.

use vstd::prelude::*;
use crate::appmgmt::{CloseReqResponse, FrameControl};
use crate::proxyevents::ProxyEvent;
use crate::texturerenderer::TextureRenderer;
use crate::timing::{fps_to_dur, FrameRate, Timestamp};

verus! {

/// Where the application is in its life.
#[derive(Clone, Copy, Debug, PartialEq, Eq, Structural)]
pub enum AppStage {
    /// The conductor's `init_app` has not run yet.
    Uninitialized,
    Running,
    /// A close was requested and the conductor has not answered yet.
    ClosePending,
    Closed,
}

/// What happened, as far as the loop's decisions depend on it.
#[derive(Clone, Copy, Debug, PartialEq, Eq, Structural)]
pub enum LoopEvent {
    /// The conductor's `init_app` returned.
    Initialized,
    /// The conductor answered a window event with a directive that asks
    /// this of the frame.
    Directive(FrameControl),
    /// An event that the framework sent to itself arrived.
    Proxy(ProxyEvent),
    /// The conductor answered a close request.
    CloseResponse(CloseReqResponse),
    /// All pending window events were handled: the loop is idle.
    EventsCleared,
    /// The window system asks for a redraw.
    RedrawRequested(Timestamp),
}

/// What the host does in answer to an event.
#[derive(Clone, Copy, Debug, PartialEq, Eq, Structural)]
pub enum LoopCommand {
    Nothing,
    /// Send this event to the loop itself.
    SendProxy(ProxyEvent),
    /// Call `update` on the program of the renderer with this index.
    UpdateRenderer(usize),
    /// Call the conductor's `on_close_request` and hand its answer back.
    AskCloseRequest,
    /// Run the update phase; afterwards ask the window system for a redraw
    /// if `request_redraw` says so.
    RunUpdates { request_redraw: bool },
    /// Run the draw phase. `forced` says that the window system asked for
    /// this redraw, not the loop itself.
    Draw { forced: bool },
    /// Leave the loop.
    Exit,
}

/// How the host waits for the next event.
#[derive(Clone, Copy, Debug, PartialEq, Eq, Structural)]
pub enum ControlFlow {
    /// Sleep until an event arrives.
    Wait,
    /// Sleep until an event arrives or this time has come.
    WaitUntil(Timestamp),
    Exit,
}

/// The state of the event loop.
#[derive(Clone, Copy, Debug, PartialEq, Eq, Structural)]
pub struct EventLoop {
    pub stage: AppStage,
    /// The next redraw request is to be dropped.
    pub skip_frame: bool,
    /// The loop itself asked for the redraw that comes next.
    pub redraw_asked: bool,
    pub last_rendered: Timestamp,
}

/// The earlier of two wake times, where `None` is never.
pub open spec fn sooner(a: Option<Timestamp>, b: Option<Timestamp>) -> Option<Timestamp> {
    match (a, b) {
        (None, _) => b,
        (_, None) => a,
        (Some(x), Some(y)) => if x.nanos <= y.nanos {
            a
        } else {
            b
        },
    }
}

/// The later of two times.
pub open spec fn later(a: Timestamp, b: Timestamp) -> Timestamp {
    if a.nanos >= b.nanos {
        a
    } else {
        b
    }
}

/// The earliest time at which an update or a draw of `r` is due.
pub open spec fn renderer_wake(r: TextureRenderer, now: Timestamp) -> Option<Timestamp> {
    sooner(r.updatef_status.wake_time(now), r.drawf_status.wake_time(now))
}

/// The earliest time at which anything is due among the first `n`
/// renderers; `None` where every policy is disabled.
pub open spec fn earliest_wake(rs: Seq<TextureRenderer>, now: Timestamp, n: nat) -> Option<Timestamp>
    decreases n,
{
    if n == 0 {
        None
    } else {
        sooner(earliest_wake(rs, now, (n - 1) as nat), renderer_wake(rs[n - 1], now))
    }
}

fn pick_sooner(a: Option<Timestamp>, b: Option<Timestamp>) -> (t: Option<Timestamp>)
    ensures
        t == sooner(a, b),
{
    match (a, b) {
        (None, _) => b,
        (_, None) => a,
        (Some(x), Some(y)) => if x.nanos <= y.nanos {
            a
        } else {
            b
        },
    }
}

/// The earliest time at which an update or a draw of any renderer is due.
pub fn next_wake(renderers: &Vec<TextureRenderer>, now: Timestamp) -> (t: Option<Timestamp>)
    ensures
        t == earliest_wake(renderers@, now, renderers@.len()),
{
    let mut best: Option<Timestamp> = None;
    let mut i: usize = 0;
    while i < renderers.len()
        invariant
            i <= renderers@.len(),
            best == earliest_wake(renderers@, now, i as nat),
        decreases renderers@.len() - i,
    {
        let r = &renderers[i];
        let own = pick_sooner(r.updatef_status.next_wake(now), r.drawf_status.next_wake(now));
        best = pick_sooner(best, own);
        i += 1;
    }
    best
}

impl EventLoop {
    /// The state after `event`, and what the host is to do.
    ///
    /// Before `init_app` has returned nothing else counts, and once the
    /// application is closed every event is answered with `Exit`. While it
    /// runs: a directive to skip drops the next redraw and leaves updates
    /// alone; a directive to close sends the loop a close request; a close
    /// request asks the conductor, and only its `Accept` closes the
    /// application, while `Deny` lets it run on. While the conductor's
    /// answer is pending, updates go on and nothing is drawn. A redraw that
    /// the loop did not ask for itself is a forced one.
    pub open spec fn step(self, event: LoopEvent) -> (EventLoop, LoopCommand) {
        match self.stage {
            AppStage::Uninitialized => match event {
                LoopEvent::Initialized => (EventLoop { stage: AppStage::Running, ..self }, LoopCommand::Nothing),
                _ => (self, LoopCommand::Nothing),
            },
            AppStage::Closed => (self, LoopCommand::Exit),
            _ => match event {
                LoopEvent::Initialized => (self, LoopCommand::Nothing),
                LoopEvent::Directive(FrameControl::Proceed) => (self, LoopCommand::Nothing),
                LoopEvent::Directive(FrameControl::SkipFrame) => (
                    EventLoop { skip_frame: true, ..self },
                    LoopCommand::Nothing,
                ),
                LoopEvent::Directive(FrameControl::Close) => (
                    EventLoop { stage: AppStage::ClosePending, ..self },
                    LoopCommand::SendProxy(ProxyEvent::CloseRequest),
                ),
                LoopEvent::Proxy(ProxyEvent::Update(renderer)) => (self, LoopCommand::UpdateRenderer(renderer)),
                LoopEvent::Proxy(ProxyEvent::Bump) => (self, LoopCommand::Nothing),
                LoopEvent::Proxy(ProxyEvent::CloseRequest) => (
                    EventLoop { stage: AppStage::ClosePending, ..self },
                    LoopCommand::AskCloseRequest,
                ),
                LoopEvent::CloseResponse(response) => if self.stage == AppStage::ClosePending {
                    match response {
                        CloseReqResponse::Accept => (
                            EventLoop { stage: AppStage::Closed, ..self },
                            LoopCommand::Exit,
                        ),
                        CloseReqResponse::Deny => (
                            EventLoop { stage: AppStage::Running, ..self },
                            LoopCommand::Nothing,
                        ),
                    }
                } else {
                    (self, LoopCommand::Nothing)
                },
                LoopEvent::EventsCleared => {
                    let ask = !self.skip_frame && self.stage == AppStage::Running;
                    (
                        EventLoop { redraw_asked: self.redraw_asked || ask, ..self },
                        LoopCommand::RunUpdates { request_redraw: ask },
                    )
                },
                LoopEvent::RedrawRequested(now) => if self.skip_frame {
                    (EventLoop { skip_frame: false, redraw_asked: false, ..self }, LoopCommand::Nothing)
                } else if self.stage == AppStage::ClosePending {
                    (EventLoop { redraw_asked: false, ..self }, LoopCommand::Nothing)
                } else {
                    (
                        EventLoop { last_rendered: now, redraw_asked: false, ..self },
                        LoopCommand::Draw { forced: !self.redraw_asked },
                    )
                },
            },
        }
    }

    /// How the host waits after an event was handled, where `wake` is the
    /// earliest time at which a renderer is due and `loop_fps` the cap on
    /// the loop's rate. A closed application leaves the loop. With nothing
    /// due the loop waits for events. With a cap it does not wake before
    /// one period of the cap has passed since the last draw.
    pub open spec fn wait(self, loop_fps: Option<FrameRate>, wake: Option<Timestamp>) -> ControlFlow {
        if self.stage == AppStage::Closed {
            ControlFlow::Exit
        } else {
            match wake {
                None => ControlFlow::Wait,
                Some(t) => match loop_fps {
                    None => ControlFlow::WaitUntil(t),
                    Some(fps) => ControlFlow::WaitUntil(
                        later(t, self.last_rendered.plus(fps.period_nanos())),
                    ),
                },
            }
        }
    }

    /// A loop whose application has not been initialised.
    pub fn new(now: Timestamp) -> (l: EventLoop)
        ensures
            l == (EventLoop {
                stage: AppStage::Uninitialized,
                skip_frame: false,
                redraw_asked: false,
                last_rendered: now,
            }),
    {
        EventLoop { stage: AppStage::Uninitialized, skip_frame: false, redraw_asked: false, last_rendered: now }
    }

    /// Takes in `event` and says what the host is to do.
    pub fn handle(&mut self, event: LoopEvent) -> (command: LoopCommand)
        ensures
            (*final(self), command) == old(self).step(event),
    {
        match self.stage {
            AppStage::Uninitialized => {
                match event {
                    LoopEvent::Initialized => {
                        self.stage = AppStage::Running;
                    },
                    _ => {},
                }
                LoopCommand::Nothing
            },
            AppStage::Closed => LoopCommand::Exit,
            _ => match event {
                LoopEvent::Initialized => LoopCommand::Nothing,
                LoopEvent::Directive(control) => match control {
                    FrameControl::Proceed => LoopCommand::Nothing,
                    FrameControl::SkipFrame => {
                        self.skip_frame = true;
                        LoopCommand::Nothing
                    },
                    FrameControl::Close => {
                        self.stage = AppStage::ClosePending;
                        LoopCommand::SendProxy(ProxyEvent::CloseRequest)
                    },
                },
                LoopEvent::Proxy(proxy) => match proxy {
                    ProxyEvent::Update(renderer) => LoopCommand::UpdateRenderer(renderer),
                    ProxyEvent::Bump => LoopCommand::Nothing,
                    ProxyEvent::CloseRequest => {
                        self.stage = AppStage::ClosePending;
                        LoopCommand::AskCloseRequest
                    },
                },
                LoopEvent::CloseResponse(response) => {
                    let pending: bool = match self.stage {
                        AppStage::ClosePending => true,
                        _ => false,
                    };
                    if pending {
                        match response {
                            CloseReqResponse::Accept => {
                                self.stage = AppStage::Closed;
                                LoopCommand::Exit
                            },
                            CloseReqResponse::Deny => {
                                self.stage = AppStage::Running;
                                LoopCommand::Nothing
                            },
                        }
                    } else {
                        LoopCommand::Nothing
                    }
                },
                LoopEvent::EventsCleared => {
                    let running: bool = match self.stage {
                        AppStage::Running => true,
                        _ => false,
                    };
                    let ask: bool = !self.skip_frame && running;
                    if ask {
                        self.redraw_asked = true;
                    }
                    LoopCommand::RunUpdates { request_redraw: ask }
                },
                LoopEvent::RedrawRequested(now) => {
                    let pending: bool = match self.stage {
                        AppStage::ClosePending => true,
                        _ => false,
                    };
                    let forced: bool = !self.redraw_asked;
                    self.redraw_asked = false;
                    if self.skip_frame {
                        self.skip_frame = false;
                        LoopCommand::Nothing
                    } else if pending {
                        LoopCommand::Nothing
                    } else {
                        self.last_rendered = now;
                        LoopCommand::Draw { forced }
                    }
                },
            },
        }
    }

    /// How the host waits for the next event, given the cap on the loop's
    /// rate and the renderers as they stand at `now`.
    pub fn control_flow(
        &self,
        loop_fps: Option<FrameRate>,
        renderers: &Vec<TextureRenderer>,
        now: Timestamp,
    ) -> (flow: ControlFlow)
        ensures
            flow == self.wait(loop_fps, earliest_wake(renderers@, now, renderers@.len())),
    {
        match self.stage {
            AppStage::Closed => {
                return ControlFlow::Exit;
            },
            _ => {},
        }
        match next_wake(renderers, now) {
            None => ControlFlow::Wait,
            Some(t) => match loop_fps {
                None => ControlFlow::WaitUntil(t),
                Some(fps) => {
                    let frame: Timestamp = self.last_rendered.saturating_add(fps_to_dur(fps));
                    if t.nanos >= frame.nanos {
                        ControlFlow::WaitUntil(t)
                    } else {
                        ControlFlow::WaitUntil(frame)
                    }
                },
            },
        }
    }
}

/// The application closes only by the conductor's word: a step ends in
/// `Closed` only from `ClosePending`, on the conductor's `Accept`. And a
/// directive to close always leads to the conductor being asked: it sends
/// the close request, and the close request asks.
pub proof fn lemma_close_needs_consent(l: EventLoop, event: LoopEvent)
    ensures
        l.stage != AppStage::Closed && l.step(event).0.stage == AppStage::Closed ==> l.stage
            == AppStage::ClosePending && event == LoopEvent::CloseResponse(CloseReqResponse::Accept),
        (l.stage == AppStage::Running || l.stage == AppStage::ClosePending) ==> l.step(
            LoopEvent::Directive(FrameControl::Close),
        ) == (
            EventLoop { stage: AppStage::ClosePending, ..l },
            LoopCommand::SendProxy(ProxyEvent::CloseRequest),
        ) && l.step(LoopEvent::Proxy(ProxyEvent::CloseRequest)).1 == LoopCommand::AskCloseRequest,
        l.stage == AppStage::Closed ==> l.step(event) == (l, LoopCommand::Exit),
{
}

/// A skipped frame costs exactly one redraw and no update: after a
/// directive to skip, the idle loop still runs the updates, the next redraw
/// request draws nothing, and the one after it draws.
pub proof fn lemma_skip_drops_one_redraw(l: EventLoop, t1: Timestamp, t2: Timestamp)
    requires
        l.stage == AppStage::Running,
    ensures
        ({
            let skipped = l.step(LoopEvent::Directive(FrameControl::SkipFrame)).0;
            let first = skipped.step(LoopEvent::RedrawRequested(t1));
            let second = first.0.step(LoopEvent::RedrawRequested(t2));
            &&& skipped.step(LoopEvent::EventsCleared).1 == LoopCommand::RunUpdates { request_redraw: false }
            &&& first.1 == LoopCommand::Nothing
            &&& second.1 == LoopCommand::Draw { forced: true }
            &&& second.0 == (EventLoop { last_rendered: t2, skip_frame: false, redraw_asked: false, ..l })
        }),
{
}

/// A directive to close stops the drawing at once: from then until the
/// conductor has answered, no event makes the loop draw or ask for a
/// redraw.
pub proof fn lemma_close_stops_drawing(l: EventLoop, event: LoopEvent)
    requires
        l.stage == AppStage::Running || l.stage == AppStage::ClosePending,
    ensures
        ({
            let closing = l.step(LoopEvent::Directive(FrameControl::Close)).0;
            &&& closing.stage == AppStage::ClosePending
            &&& !(closing.step(event).1 is Draw)
            &&& closing.step(event).1 matches LoopCommand::RunUpdates { request_redraw } ==> !request_redraw
        }),
{
}

/// The earliest wake time is no later than that of any renderer, and it is
/// the wake time of one of them; it is `None` exactly when no renderer has
/// one.
pub proof fn lemma_earliest_wake_is_minimum(rs: Seq<TextureRenderer>, now: Timestamp, n: nat)
    requires
        n <= rs.len(),
    ensures
        forall|i: int|
            0 <= i < n ==> ((#[trigger] renderer_wake(rs[i], now)) matches Some(t) ==> earliest_wake(
                rs,
                now,
                n,
            ).is_some() && earliest_wake(rs, now, n).unwrap().nanos <= t.nanos),
        earliest_wake(rs, now, n).is_some() ==> exists|i: int|
            0 <= i < n && #[trigger] renderer_wake(rs[i], now) == earliest_wake(rs, now, n),
    decreases n,
{
    if n > 0 {
        let m = (n - 1) as nat;
        lemma_earliest_wake_is_minimum(rs, now, m);
        if earliest_wake(rs, now, n).is_some() {
            if earliest_wake(rs, now, n) == renderer_wake(rs[n - 1], now) {
            } else {
                let i = choose|i: int| 0 <= i < m && #[trigger] renderer_wake(rs[i], now) == earliest_wake(rs, now, m);
                assert(renderer_wake(rs[i], now) == earliest_wake(rs, now, n));
            }
        }
    }
}

} // verus!
