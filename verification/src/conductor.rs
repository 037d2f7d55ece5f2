//! A conductor for an application of panels on one surface.

use vstd::prelude::*;
use crate::appmgmt::{CloseReqResponse, EventLoopAction, WindowEvent};
use crate::dispatch::{dangling, deliver_input};
use crate::programhook::ProgramHook;
use crate::texturerenderer::{RenderError, TextureRenderer};
use crate::wgpustate::{PhysicalSize, State};

verus! {

/// The conductor of a panels application.
#[derive(Clone, Copy, Debug, PartialEq, Eq, Structural)]
pub struct PanelsApp {
    pub window_focused: bool,
    pub focused_panel: usize,
}

/// What the conductor does with a window event.
#[derive(Clone, Copy, Debug, PartialEq, Eq, Structural)]
pub enum Routing {
    /// Take the new size of the surface, and skip the frame.
    Resize(PhysicalSize),
    /// Skip the frame.
    Skip,
    /// Ask to close the application.
    Close,
    /// Hand the event to the programs.
    Forward,
}

impl PanelsApp {
    /// What the conductor does with `event`: a resize is taken and a move
    /// is noted, and each costs one frame; a close request is passed up;
    /// everything else goes to the programs.
    pub open spec fn routing(event: WindowEvent) -> Routing {
        match event {
            WindowEvent::Resized { width, height } => Routing::Resize(PhysicalSize { width, height }),
            WindowEvent::Moved { .. } => Routing::Skip,
            WindowEvent::CloseRequested => Routing::Close,
            _ => Routing::Forward,
        }
    }

    pub fn new() -> (app: PanelsApp)
        ensures
            app == (PanelsApp { window_focused: false, focused_panel: 0 }),
    {
        PanelsApp { window_focused: false, focused_panel: 0 }
    }

    /// What the conductor does with `event`.
    pub fn route(&self, event: &WindowEvent) -> (r: Routing)
        ensures
            r == Self::routing(*event),
    {
        match event {
            WindowEvent::Resized { width, height } => Routing::Resize(
                PhysicalSize { width: *width, height: *height },
            ),
            WindowEvent::Moved { .. } => Routing::Skip,
            WindowEvent::CloseRequested => Routing::Close,
            _ => Routing::Forward,
        }
    }

    /// Takes the new size of the surface where `event` is a resize, and
    /// says whether the surface is to be configured anew. Any other event
    /// changes nothing.
    pub fn resize(&self, tables: &mut State, event: &WindowEvent) -> (changed: bool)
        ensures
            changed <==> (Self::routing(*event) matches Routing::Resize(size) && size.width > 0 && size.height
                > 0),
            changed ==> (Self::routing(*event) matches Routing::Resize(size) && *final(tables) == (State {
                size,
                ..*old(tables)
            })),
            !changed ==> *final(tables) == *old(tables),
    {
        match self.route(event) {
            Routing::Resize(size) => tables.resize(size),
            _ => false,
        }
    }

    /// Answers one window event. A resize or a move costs the next frame,
    /// a close request is passed up. Any other event reaches every program
    /// that is paired with a renderer, in registration order, and what the
    /// programs answer is dropped.
    pub fn event_mgmt<P: ProgramHook>(
        &mut self,
        renderers: &mut Vec<TextureRenderer>,
        state: &mut P::Context,
        programs: &mut Vec<P>,
        event: WindowEvent,
    ) -> (r: Result<EventLoopAction<P::Message>, RenderError>)
        ensures
            *final(self) == *old(self),
            final(renderers)@.len() == old(renderers)@.len(),
            final(programs)@.len() == old(programs)@.len(),
            Self::routing(event) is Resize ==> (r matches Ok(EventLoopAction::SkipFrame)) && final(renderers)@
                == old(renderers)@ && final(programs)@ == old(programs)@,
            Self::routing(event) == Routing::Skip ==> (r matches Ok(EventLoopAction::SkipFrame)) && final(renderers)@ == old(renderers)@ && final(programs)@ == old(programs)@,
            Self::routing(event) == Routing::Close ==> (r matches Ok(EventLoopAction::RequestClose)) && final(renderers)@ == old(renderers)@ && final(programs)@ == old(programs)@,
            Self::routing(event) == Routing::Forward ==> {
                &&& r.is_err() <==> exists|i: int|
                    0 <= i < old(renderers)@.len() && dangling(
                        #[trigger] old(renderers)@[i],
                        old(programs)@.len(),
                    )
                &&& r matches Err(e) ==> e == RenderError::DanglingPairing
                &&& r matches Ok(action) ==> action is Nothing
            },
    {
        match self.route(&event) {
            Routing::Resize(_) => Ok(EventLoopAction::SkipFrame),
            Routing::Skip => Ok(EventLoopAction::SkipFrame),
            Routing::Close => Ok(EventLoopAction::RequestClose),
            Routing::Forward => match deliver_input(renderers, programs, state, &event) {
                Ok(_) => Ok(EventLoopAction::Nothing),
                Err(e) => Err(e),
            },
        }
    }

    /// The conductor lets the application close whenever it is asked.
    pub fn on_close_request(&mut self) -> (answer: CloseReqResponse)
        ensures
            answer == CloseReqResponse::Accept,
            *final(self) == *old(self),
    {
        CloseReqResponse::Accept
    }
}

} // verus!
