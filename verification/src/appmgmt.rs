//! The conductor: the application's own policy for lifecycle and input, and
//! the directives by which programs and the conductor steer the event loop.

use vstd::prelude::*;
use crate::texturerenderer::TextureRenderer;

verus! {

/// What a program or the conductor asks of the event loop.
#[derive(Debug)]
pub enum EventLoopAction<T> {
    /// Nothing is asked.
    Nothing,
    /// Skip the next redraw. Updates go on.
    SkipFrame,
    /// Ask to close the application.
    RequestClose,
    /// An application-defined message for the conductor.
    Message(T),
}

/// The conductor's answer to a close request.
#[derive(Clone, Copy, Debug, PartialEq, Eq, Structural)]
pub enum CloseReqResponse {
    /// Close the application.
    Accept,
    /// Keep running.
    Deny,
}

/// The part of a directive that steers the frame, without any message.
#[derive(Clone, Copy, Debug, PartialEq, Eq, Structural)]
pub enum FrameControl {
    Proceed,
    SkipFrame,
    Close,
}

/// A window event as the conductor and the programs see it. Positions are
/// in whole pixels.
#[derive(Clone, Copy, Debug, PartialEq, Eq, Structural)]
pub enum WindowEvent {
    Resized { width: u32, height: u32 },
    Moved { x: i32, y: i32 },
    CloseRequested,
    Focused(bool),
    CursorMoved { x: i32, y: i32 },
    KeyboardInput { scancode: u32, pressed: bool },
    Touch { id: u64, x: i32, y: i32 },
    Other,
}

impl FrameControl {
    /// How strongly a control binds: closing beats skipping, and skipping
    /// beats going on.
    pub open spec fn rank(self) -> nat {
        match self {
            FrameControl::Proceed => 0,
            FrameControl::SkipFrame => 1,
            FrameControl::Close => 2,
        }
    }

    /// The stronger of two controls.
    pub open spec fn join(self, other: FrameControl) -> FrameControl {
        if self.rank() >= other.rank() {
            self
        } else {
            other
        }
    }

    /// All of `controls` merged, starting from `self`.
    pub open spec fn join_all(self, controls: Seq<FrameControl>) -> FrameControl
        decreases controls.len(),
    {
        if controls.len() == 0 {
            self
        } else {
            self.join(controls[0]).join_all(controls.skip(1))
        }
    }

    /// Merges two controls: `Close` dominates `SkipFrame`, which dominates
    /// `Proceed`.
    pub fn merge(self, other: FrameControl) -> (m: FrameControl)
        ensures
            m == self.join(other),
    {
        match (self, other) {
            (FrameControl::Close, _) => FrameControl::Close,
            (_, FrameControl::Close) => FrameControl::Close,
            (FrameControl::SkipFrame, _) => FrameControl::SkipFrame,
            (_, FrameControl::SkipFrame) => FrameControl::SkipFrame,
            (FrameControl::Proceed, FrameControl::Proceed) => FrameControl::Proceed,
        }
    }
}

impl<T> EventLoopAction<T> {
    /// What the directive asks of the frame. A message asks nothing of it.
    pub open spec fn control(self) -> FrameControl {
        match self {
            EventLoopAction::Nothing => FrameControl::Proceed,
            EventLoopAction::SkipFrame => FrameControl::SkipFrame,
            EventLoopAction::RequestClose => FrameControl::Close,
            EventLoopAction::Message(_) => FrameControl::Proceed,
        }
    }

    /// The message that the directive carries, if any.
    pub open spec fn message(self) -> Option<T> {
        match self {
            EventLoopAction::Message(m) => Some(m),
            _ => None,
        }
    }

    /// What the directive asks of the frame.
    pub fn peek(&self) -> (c: FrameControl)
        ensures
            c == self.control(),
    {
        match self {
            EventLoopAction::Nothing => FrameControl::Proceed,
            EventLoopAction::SkipFrame => FrameControl::SkipFrame,
            EventLoopAction::RequestClose => FrameControl::Close,
            EventLoopAction::Message(_) => FrameControl::Proceed,
        }
    }

    /// Splits a directive into what it asks of the frame and the message it
    /// carries.
    pub fn split(self) -> (parts: (FrameControl, Option<T>))
        ensures
            parts.0 == self.control(),
            parts.1 == self.message(),
    {
        match self {
            EventLoopAction::Nothing => (FrameControl::Proceed, None),
            EventLoopAction::SkipFrame => (FrameControl::SkipFrame, None),
            EventLoopAction::RequestClose => (FrameControl::Close, None),
            EventLoopAction::Message(m) => (FrameControl::Proceed, Some(m)),
        }
    }
}

/// Merging is a least upper bound: the order and the grouping of the
/// directives do not matter, and a directive merged twice counts once.
pub proof fn lemma_join_is_semilattice(a: FrameControl, b: FrameControl, c: FrameControl)
    ensures
        a.join(b) == b.join(a),
        a.join(b).join(c) == a.join(b.join(c)),
        a.join(a) == a,
        a.join(FrameControl::Proceed) == a,
        a.join(FrameControl::Close) == FrameControl::Close,
{
}

/// Merging one more directive at the end is merging it with the result so
/// far.
pub proof fn lemma_join_all_push(start: FrameControl, controls: Seq<FrameControl>, last: FrameControl)
    ensures
        start.join_all(controls.push(last)) == start.join_all(controls).join(last),
    decreases controls.len(),
{
    reveal_with_fuel(FrameControl::join_all, 2);
    if controls.len() == 0 {
        assert(controls.push(last).skip(1) =~= Seq::<FrameControl>::empty());
    } else {
        assert(controls.push(last).skip(1) =~= controls.skip(1).push(last));
        lemma_join_all_push(start.join(controls[0]), controls.skip(1), last);
    }
}

/// Merged directives ask to close exactly when one of them does, and
/// otherwise ask to skip the frame exactly when one of them does.
pub proof fn lemma_join_all_dominance(start: FrameControl, controls: Seq<FrameControl>)
    ensures
        start.join_all(controls) == FrameControl::Close <==> (start == FrameControl::Close || exists|i: int|
            0 <= i < controls.len() && controls[i] == FrameControl::Close),
        start.join_all(controls) == FrameControl::Proceed <==> (start == FrameControl::Proceed && forall|i: int|
            0 <= i < controls.len() ==> controls[i] == FrameControl::Proceed),
    decreases controls.len(),
{
    if controls.len() > 0 {
        let rest = controls.skip(1);
        lemma_join_all_dominance(start.join(controls[0]), rest);
        assert(forall|i: int| 0 <= i < rest.len() ==> rest[i] == controls[i + 1]);
        if start.join_all(controls) == FrameControl::Close {
            if start != FrameControl::Close && controls[0] != FrameControl::Close {
                let i = choose|i: int| 0 <= i < rest.len() && rest[i] == FrameControl::Close;
                assert(controls[i + 1] == FrameControl::Close);
            }
        }
        if exists|i: int| 0 <= i < controls.len() && controls[i] == FrameControl::Close {
            let i = choose|i: int| 0 <= i < controls.len() && controls[i] == FrameControl::Close;
            if i > 0 {
                assert(rest[i - 1] == FrameControl::Close);
            }
        }
        if start.join_all(controls) == FrameControl::Proceed {
            assert forall|i: int| 0 <= i < controls.len() implies controls[i] == FrameControl::Proceed by {
                if i > 0 {
                    assert(rest[i - 1] == controls[i]);
                }
            }
        }
    }
}

/// Programming for the major events of the application.
///
/// Every method is the embedder's to write: an application without
/// conductor logic cannot run.
pub trait AppConductor {
    type Message;

    type Context;

    type Program;

    /// Runs once before the loop starts: registers the first programs and
    /// renderers and sets the frame-rate cap.
    fn init_app(
        &mut self,
        renderers: &mut Vec<TextureRenderer>,
        state: &mut Self::Context,
        programs: &mut Vec<Self::Program>,
    ) -> EventLoopAction<Self::Message>;

    /// Runs for every window event; may pass it on to the programs.
    fn event_mgmt(
        &mut self,
        renderers: &mut Vec<TextureRenderer>,
        state: &mut Self::Context,
        programs: &mut Vec<Self::Program>,
        event: WindowEvent,
    ) -> EventLoopAction<Self::Message>;

    /// Receives a message that a program sent.
    fn on_message(
        &mut self,
        renderers: &mut Vec<TextureRenderer>,
        state: &mut Self::Context,
        programs: &mut Vec<Self::Program>,
        message: Self::Message,
    );

    /// A close was requested: prepare to close, or refuse.
    fn on_close_request(
        &mut self,
        renderers: &mut Vec<TextureRenderer>,
        state: &mut Self::Context,
        programs: &mut Vec<Self::Program>,
    ) -> CloseReqResponse;
}

} // verus!
