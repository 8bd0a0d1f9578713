//! The outer control loop: one state machine that takes each delivered
//! event or render outcome and decides the next state and the one action
//! the embedder is to carry out. The embedder owns the OS event loop and
//! the GPU handles; it feeds events in and performs the returned actions.

use vstd::prelude::*;
use crate::frame::RenderOutcome;
use crate::surface::{resize_spec, SurfaceConfig, WindowSize};

verus! {

/// The loop's two states; `Exiting` is terminal.
#[derive(Clone, Copy, PartialEq, Eq, Structural, Debug)]
pub enum LoopState {
    Running,
    Exiting,
}

/// One delivered event, as plain values: the timer's tick, a redraw
/// request, a resize, a close request, a key event (whether it is the
/// Escape key, whether it was pressed, whether it is a repeat), or
/// anything else, which is ignored.
#[derive(Clone, Copy, PartialEq, Eq, Structural, Debug)]
pub enum LoopEvent {
    Tick,
    RedrawRequested,
    Resized { size: WindowSize },
    CloseRequested,
    Key { escape: bool, pressed: bool, repeat: bool },
    Other,
}

/// The one action the embedder carries out after a step: ask the window
/// for a redraw, render a frame, re-apply the given configuration to the
/// surface, terminate the loop, report a transient error, or nothing.
#[derive(Clone, PartialEq, Eq, Debug)]
pub enum LoopAction {
    RequestRedraw,
    Render,
    Reconfigure { config: SurfaceConfig },
    Exit,
    Report { detail: String },
    Ignore,
}

/// The loop driver: the loop's state together with the surface
/// configuration it guards and the last known window size, the source of
/// truth for reconfiguration after a lost surface.
#[derive(Clone, Copy, PartialEq, Eq, Structural, Debug)]
pub struct Driver {
    pub state: LoopState,
    pub config: SurfaceConfig,
    pub size: WindowSize,
}

/// Whether an event asks the loop to end: a close request, or a fresh
/// (non-repeating) press of the Escape key.
pub open spec fn exit_requested(e: LoopEvent) -> bool {
    ||| e is CloseRequested
    ||| e matches LoopEvent::Key { escape, pressed, repeat } && escape && pressed && !repeat
}

impl Driver {
    /// The driver's invariant: the configuration mirrors the last known
    /// window size and has a positive area.
    pub open spec fn wf(self) -> bool {
        &&& self.config.width == self.size.width
        &&& self.config.height == self.size.height
        &&& self.config.valid()
    }
}

/// One step of the loop on a delivered event: the next driver state and
/// the action the embedder is to carry out.
///
/// In `Exiting` every event is ignored. While `Running`: a tick requests a
/// redraw; a redraw request renders; a resize applies the resize rule and,
/// when the new size was taken, hands the configuration back for
/// re-application; a close request or a fresh Escape press exits; all
/// other events are ignored.
pub open spec fn step_spec(d: Driver, e: LoopEvent) -> (Driver, LoopAction) {
    if !(d.state is Running) {
        (d, LoopAction::Ignore)
    } else if exit_requested(e) {
        (Driver { state: LoopState::Exiting, ..d }, LoopAction::Exit)
    } else {
        match e {
            LoopEvent::Tick => (d, LoopAction::RequestRedraw),
            LoopEvent::RedrawRequested => (d, LoopAction::Render),
            LoopEvent::Resized { size } => {
                if size.width > 0 && size.height > 0 {
                    let c = resize_spec(d.config, size);
                    (Driver { config: c, size, ..d }, LoopAction::Reconfigure { config: c })
                } else {
                    (d, LoopAction::Ignore)
                }
            },
            _ => (d, LoopAction::Ignore),
        }
    }
}

/// How a render outcome is dispatched: success needs nothing; a lost
/// surface is reconfigured once, at the last known size; out of memory is
/// fatal and exits; any other error is reported and the loop carries on.
pub open spec fn finish_spec(d: Driver, o: RenderOutcome) -> (Driver, LoopAction) {
    match o {
        RenderOutcome::Success => (d, LoopAction::Ignore),
        RenderOutcome::Lost => {
            if d.size.width > 0 && d.size.height > 0 {
                let c = resize_spec(d.config, d.size);
                (Driver { config: c, ..d }, LoopAction::Reconfigure { config: c })
            } else {
                (d, LoopAction::Ignore)
            }
        },
        RenderOutcome::OutOfMemory => (
            Driver { state: LoopState::Exiting, ..d },
            LoopAction::Exit,
        ),
        RenderOutcome::Other { detail } => (d, LoopAction::Report { detail }),
    }
}

impl Driver {
    /// Starts the loop over a freshly configured surface: running, with
    /// the configuration mirroring the window size.
    pub fn new(config: SurfaceConfig, size: WindowSize) -> (d: Driver)
        requires
            config.width == size.width,
            config.height == size.height,
            config.valid(),
        ensures
            d.state is Running,
            d.config == config,
            d.size == size,
            d.wf(),
    {
        Driver { state: LoopState::Running, config, size }
    }

    /// Takes one delivered event and decides the next state and action,
    /// exactly as `step_spec` says.
    pub fn step(&mut self, event: LoopEvent) -> (a: LoopAction)
        ensures
            *final(self) == step_spec(*old(self), event).0,
            a == step_spec(*old(self), event).1,
            old(self).wf() ==> final(self).wf(),
    {
        match self.state {
            LoopState::Exiting => LoopAction::Ignore,
            LoopState::Running => match event {
                LoopEvent::Tick => LoopAction::RequestRedraw,
                LoopEvent::RedrawRequested => LoopAction::Render,
                LoopEvent::Resized { size } => self.apply_resize(size),
                LoopEvent::CloseRequested => {
                    self.state = LoopState::Exiting;
                    LoopAction::Exit
                },
                LoopEvent::Key { escape, pressed, repeat } => {
                    if escape && pressed && !repeat {
                        self.state = LoopState::Exiting;
                        LoopAction::Exit
                    } else {
                        LoopAction::Ignore
                    }
                },
                LoopEvent::Other => LoopAction::Ignore,
            },
        }
    }

    /// Takes the outcome the embedder's render call came back with and
    /// decides recovery, exactly as `finish_spec` says.
    pub fn finish_render(&mut self, outcome: RenderOutcome) -> (a: LoopAction)
        ensures
            *final(self) == finish_spec(*old(self), outcome).0,
            a == finish_spec(*old(self), outcome).1,
            old(self).wf() ==> final(self).wf(),
    {
        match outcome {
            RenderOutcome::Success => LoopAction::Ignore,
            RenderOutcome::Lost => {
                let size = self.size;
                self.apply_resize(size)
            },
            RenderOutcome::OutOfMemory => {
                self.state = LoopState::Exiting;
                LoopAction::Exit
            },
            RenderOutcome::Other { detail } => LoopAction::Report { detail },
        }
    }

    /// The resize rule on the driver: a positive size is taken over into
    /// the configuration and the last known size, and the configuration
    /// handed back for re-application; a zero dimension leaves everything
    /// as it was.
    fn apply_resize(&mut self, size: WindowSize) -> (a: LoopAction)
        ensures
            final(self).config == resize_spec(old(self).config, size),
            final(self).state == old(self).state,
            size.width > 0 && size.height > 0 ==> final(self).size == size && a
                == (LoopAction::Reconfigure { config: final(self).config }),
            !(size.width > 0 && size.height > 0) ==> *final(self) == *old(self) && a
                == LoopAction::Ignore,
    {
        if size.width > 0 && size.height > 0 {
            self.size = size;
            self.config.width = size.width;
            self.config.height = size.height;
            LoopAction::Reconfigure { config: self.config }
        } else {
            LoopAction::Ignore
        }
    }
}

/// The driver after a whole sequence of delivered events.
pub open spec fn steps_spec(d: Driver, es: Seq<LoopEvent>) -> Driver
    decreases es.len(),
{
    if es.len() == 0 {
        d
    } else {
        steps_spec(step_spec(d, es[0]).0, es.skip(1))
    }
}

/// `Exiting` is terminal: an exiting driver ignores any single event and
/// does not change.
pub proof fn lemma_exiting_is_terminal(d: Driver, e: LoopEvent)
    requires
        d.state is Exiting,
    ensures
        step_spec(d, e).0 == d,
        step_spec(d, e).1 is Ignore,
{
}

/// Once the loop is exiting, no sequence of further events dispatches any
/// redraw or render: every one is ignored and the driver stands.
pub proof fn lemma_exiting_forever(d: Driver, es: Seq<LoopEvent>)
    requires
        d.state is Exiting,
    ensures
        steps_spec(d, es) == d,
    decreases es.len(),
{
    if es.len() > 0 {
        lemma_exiting_is_terminal(d, es[0]);
        lemma_exiting_forever(d, es.skip(1));
    }
}

/// A close request or a fresh Escape press while running exits the loop,
/// leaving the surface state untouched.
pub proof fn lemma_exit_event_stops_loop(d: Driver, e: LoopEvent)
    requires
        d.state is Running,
        exit_requested(e),
    ensures
        step_spec(d, e).0.state is Exiting,
        step_spec(d, e).1 is Exit,
        step_spec(d, e).0.config == d.config,
        step_spec(d, e).0.size == d.size,
{
}

/// A lost surface causes exactly one reconfiguration, at the previously
/// recorded size and with the negotiated format kept, and no termination:
/// the loop state stands.
pub proof fn lemma_lost_reconfigures_at_recorded_size(d: Driver)
    requires
        d.wf(),
    ensures
        finish_spec(d, RenderOutcome::Lost).1 matches LoopAction::Reconfigure { config }
            && config.width == d.size.width && config.height == d.size.height && config.format
            == d.config.format && config == d.config,
        finish_spec(d, RenderOutcome::Lost).0.state == d.state,
        finish_spec(d, RenderOutcome::Lost).0 == d,
{
}

/// An out-of-memory acquisition is fatal: the loop exits at once, and
/// every later event is ignored — no further render is dispatched.
pub proof fn lemma_oom_terminates(d: Driver, es: Seq<LoopEvent>)
    ensures
        finish_spec(d, RenderOutcome::OutOfMemory).0.state is Exiting,
        finish_spec(d, RenderOutcome::OutOfMemory).1 is Exit,
        steps_spec(finish_spec(d, RenderOutcome::OutOfMemory).0, es) == finish_spec(
            d,
            RenderOutcome::OutOfMemory,
        ).0,
{
    lemma_exiting_forever(finish_spec(d, RenderOutcome::OutOfMemory).0, es);
}

/// A successful render needs no recovery: nothing changes and nothing is
/// dispatched.
pub proof fn lemma_success_keeps_running(d: Driver)
    ensures
        finish_spec(d, RenderOutcome::Success).0 == d,
        finish_spec(d, RenderOutcome::Success).1 is Ignore,
{
}

} // verus!
