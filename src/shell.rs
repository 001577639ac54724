//! The event loop's decisions: its state, and for each event the actions the
//! loop performs on the window, the browser engine and the worker.
use vstd::prelude::*;
use crate::browser_schedule::{BrowserSchedule, IdlePlan, after_request};
use crate::frame_timing::{FrameTimer, smoothed, elapsed_between};
use crate::render_gate::{NodeGraphOutcome, RenderGate, ResultPlan};
use crate::web_bridge::{WebMessageQueue, BridgeEvent, step};

verus! {

/// Custom events of the event loop, in plain values.
pub enum UserEvent {
    /// The script side's transport is ready.
    WebCommunicationInitialized,
    /// The node-graph worker reported an evaluation.
    NodeGraphResult(NodeGraphOutcome),
    /// A new UI texture arrived.
    UiUpdate,
    /// The browser engine asks to be pumped at this instant.
    ScheduleBrowserWork(u64),
    /// The window is to close.
    CloseWindow,
}

/// What the loop does after a custom event.
pub struct UserEventPlan {
    /// Payloads to deliver to the script side now, in order.
    pub deliver: Vec<Vec<u8>>,
    /// What to do with a node-graph result.
    pub node_graph: Option<ResultPlan>,
    /// Resize and bind the new UI texture.
    pub bind_ui_texture: bool,
    /// Pump the browser engine once now.
    pub pump_browser: bool,
    /// Request a redraw of the window.
    pub redraw: bool,
    /// Leave the event loop.
    pub exit: bool,
}

/// How rendering a frame failed.
#[derive(Clone, Copy, PartialEq, Eq, Structural, Debug)]
pub enum SurfaceFailure {
    /// The surface was lost; the next frame tries again.
    Lost,
    /// Out of memory: the application cannot go on.
    OutOfMemory,
    /// Any other failure: logged, not fatal.
    Other,
}

/// What the loop does after rendering a frame.
#[derive(Clone, Copy, PartialEq, Eq, Structural, Debug)]
pub struct RedrawPlan {
    pub warn_lost: bool,
    pub log_error: bool,
    pub exit: bool,
    /// Send the worker its go-ahead.
    pub send_go_ahead: bool,
}

/// Everything the event loop decides from.
pub struct Shell {
    pub web: WebMessageQueue,
    pub schedule: BrowserSchedule,
    pub frames: FrameTimer,
    pub gate: RenderGate,
}

impl Shell {
    pub open spec fn wf(&self) -> bool {
        self.web.wf() && self.frames.wf()
    }

    /// The state at startup, at `now`: nothing delivered yet, the browser
    /// engine due at once, no go-ahead owed.
    pub fn new(now: u64) -> (s: Shell)
        ensures
            s.wf(),
            s.web.view() == crate::web_bridge::initial(),
            s.schedule.pending == Some(now),
            s.frames.avg_frame_micros == 0,
            s.frames.last_update_micros == now,
            !s.gate.go_ahead_owed,
    {
        Shell {
            web: WebMessageQueue::new(),
            schedule: BrowserSchedule::new(now),
            frames: FrameTimer::new(now),
            gate: RenderGate::new(),
        }
    }

    /// Handles a custom event at `now`; `has_graphics` and `has_window` say
    /// whether the rendering state and the window exist yet.
    pub fn user_event(&mut self, event: UserEvent, now: u64, has_graphics: bool, has_window: bool) -> (plan: UserEventPlan)
        requires
            old(self).wf(),
        ensures
            final(self).wf(),
            match event {
                UserEvent::WebCommunicationInitialized => {
                    &&& final(self).web.view() == step(old(self).web.view(), BridgeEvent::Ready).0
                    &&& plan.deliver@.map_values(|m: Vec<u8>| m@) == step(
                        old(self).web.view(),
                        BridgeEvent::Ready,
                    ).1
                    &&& plan.node_graph.is_none() && !plan.bind_ui_texture && !plan.pump_browser
                    &&& !plan.redraw && !plan.exit
                    &&& final(self).schedule == old(self).schedule
                    &&& final(self).frames == old(self).frames
                    &&& final(self).gate == old(self).gate
                },
                UserEvent::NodeGraphResult(outcome) => {
                    let display = has_graphics && has_window;
                    &&& final(self).gate.go_ahead_owed
                    &&& plan.node_graph == Some(ResultPlan {
                        poll_evaluation: outcome != NodeGraphOutcome::NotRun,
                        bind_texture: outcome == (NodeGraphOutcome::HasRun { has_texture: true })
                            && display,
                    })
                    &&& plan.redraw == (outcome == (NodeGraphOutcome::HasRun { has_texture: true })
                        && display)
                    &&& plan.deliver@.len() == 0 && !plan.bind_ui_texture && !plan.pump_browser
                    &&& !plan.exit
                    &&& final(self).web == old(self).web
                    &&& final(self).schedule == old(self).schedule
                    &&& final(self).frames == old(self).frames
                },
                UserEvent::UiUpdate => {
                    &&& plan.bind_ui_texture == has_graphics
                    &&& plan.redraw == has_window
                    &&& (has_graphics ==> final(self).frames.avg_frame_micros == smoothed(
                        old(self).frames.avg_frame_micros as int,
                        elapsed_between(old(self).frames.last_update_micros as int, now as int),
                    ) && final(self).frames.last_update_micros == now)
                    &&& (!has_graphics ==> final(self).frames == old(self).frames)
                    &&& plan.deliver@.len() == 0 && plan.node_graph.is_none() && !plan.pump_browser
                    &&& !plan.exit
                    &&& final(self).web == old(self).web
                    &&& final(self).schedule == old(self).schedule
                    &&& final(self).gate == old(self).gate
                },
                UserEvent::ScheduleBrowserWork(at) => {
                    &&& plan.pump_browser == (at <= now)
                    &&& final(self).schedule.pending == after_request(old(self).schedule.pending, at, now)
                    &&& plan.deliver@.len() == 0 && plan.node_graph.is_none() && !plan.bind_ui_texture
                    &&& !plan.redraw && !plan.exit
                    &&& final(self).web == old(self).web
                    &&& final(self).frames == old(self).frames
                    &&& final(self).gate == old(self).gate
                },
                UserEvent::CloseWindow => {
                    &&& plan.exit
                    &&& plan.deliver@.len() == 0 && plan.node_graph.is_none() && !plan.bind_ui_texture
                    &&& !plan.pump_browser && !plan.redraw
                    &&& final(self).web == old(self).web
                    &&& final(self).schedule == old(self).schedule
                    &&& final(self).frames == old(self).frames
                    &&& final(self).gate == old(self).gate
                },
            },
    {
        let mut plan = UserEventPlan {
            deliver: Vec::new(),
            node_graph: None,
            bind_ui_texture: false,
            pump_browser: false,
            redraw: false,
            exit: false,
        };
        match event {
            UserEvent::WebCommunicationInitialized => {
                plan.deliver = self.web.mark_initialized();
            },
            UserEvent::NodeGraphResult(outcome) => {
                let r = self.gate.on_result(outcome, has_graphics && has_window);
                plan.redraw = r.bind_texture;
                plan.node_graph = Some(r);
            },
            UserEvent::UiUpdate => {
                if has_graphics {
                    self.frames.record_update(now);
                    plan.bind_ui_texture = true;
                }
                plan.redraw = has_window;
            },
            UserEvent::ScheduleBrowserWork(at) => {
                plan.pump_browser = self.schedule.request(at, now);
            },
            UserEvent::CloseWindow => {
                plan.exit = true;
            },
        }
        plan
    }

    /// A frame was rendered, with `failure` where it failed: a lost surface
    /// is a warning, running out of memory ends the loop, any other failure
    /// is logged; whatever the outcome, the worker gets the go-ahead it is
    /// owed.
    pub fn on_redraw(&mut self, failure: Option<SurfaceFailure>) -> (plan: RedrawPlan)
        requires
            old(self).wf(),
        ensures
            final(self).wf(),
            plan.warn_lost == (failure == Some(SurfaceFailure::Lost)),
            plan.exit == (failure == Some(SurfaceFailure::OutOfMemory)),
            plan.log_error == (failure == Some(SurfaceFailure::Other)),
            plan.send_go_ahead == old(self).gate.go_ahead_owed,
            !final(self).gate.go_ahead_owed,
            final(self).web == old(self).web,
            final(self).schedule == old(self).schedule,
            final(self).frames == old(self).frames,
    {
        let send_go_ahead = self.gate.on_redraw();
        match failure {
            None => RedrawPlan { warn_lost: false, log_error: false, exit: false, send_go_ahead },
            Some(SurfaceFailure::Lost) => RedrawPlan { warn_lost: true, log_error: false, exit: false, send_go_ahead },
            Some(SurfaceFailure::OutOfMemory) => RedrawPlan { warn_lost: false, log_error: false, exit: true, send_go_ahead },
            Some(SurfaceFailure::Other) => RedrawPlan { warn_lost: false, log_error: true, exit: false, send_go_ahead },
        }
    }

    /// Sends `message` to the script side, or holds it back until the
    /// transport is ready.
    pub fn send_or_queue_web_message(&mut self, message: Vec<u8>) -> (deliver: Option<Vec<u8>>)
        requires
            old(self).wf(),
        ensures
            final(self).wf(),
            final(self).web.view() == step(old(self).web.view(), BridgeEvent::Send(message@)).0,
            step(old(self).web.view(), BridgeEvent::Send(message@)).1 == match deliver {
                Some(m) => seq![m@],
                None => Seq::<Seq<u8>>::empty(),
            },
            final(self).schedule == old(self).schedule,
            final(self).frames == old(self).frames,
            final(self).gate == old(self).gate,
    {
        self.web.send_or_queue(message)
    }

    /// The decision before the loop goes idle at `now`.
    pub fn about_to_wait(&mut self, now: u64) -> (plan: IdlePlan)
        requires
            old(self).wf(),
        ensures
            final(self).wf(),
            plan.wait_until == crate::browser_schedule::wake_time(old(self).schedule.pending, now),
            final(self).schedule.pending == crate::browser_schedule::after_idle(
                old(self).schedule.pending,
                now,
            ),
            plan.pump_iterations == (if crate::browser_schedule::is_due(old(self).schedule.pending, now) {
                crate::browser_schedule::MESSAGE_LOOP_MAX_ITERATIONS
            } else {
                0
            }),
            final(self).web == old(self).web,
            final(self).frames == old(self).frames,
            final(self).gate == old(self).gate,
    {
        self.schedule.about_to_wait(now)
    }
}

} // verus!
