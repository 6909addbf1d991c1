//! Routing of events to their handlers, and the cycle in which one event is
//! dispatched.
use vstd::prelude::*;
use crate::hooks::{event_verdict, should_handle, HookError};

verus! {

/// The kinds of event that the display server delivers, with what routing
/// needs to know of them.
#[derive(Debug, PartialEq, Eq, Clone, Copy, Structural)]
pub enum EventKind {
    ClientMessage,
    ConfigureNotify { is_root: bool },
    ConfigureRequest,
    Enter,
    Expose,
    FocusIn,
    Destroy,
    KeyPress,
    Leave,
    MappingNotify,
    MapRequest,
    MouseEvent,
    PropertyNotify,
    RandrNotify,
    ScreenChange,
    UnmapNotify,
}

/// The handlers that an event can be dispatched to.
#[derive(Debug, PartialEq, Eq, Clone, Copy, Structural)]
pub enum Handler {
    ClientMessage,
    DetectScreens,
    /// The event is deliberately left without handling.
    Ignore,
    Enter,
    FocusIn,
    Destroy,
    KeyPress,
    Leave,
    MapRequest,
    MouseEvent,
    ScreenChange,
    UnmapNotify,
}

/// The fixed table from event kinds to handlers.
pub open spec fn handler_for(kind: EventKind) -> Handler {
    match kind {
        EventKind::ClientMessage => Handler::ClientMessage,
        EventKind::ConfigureNotify { is_root } => if is_root {
            Handler::DetectScreens
        } else {
            Handler::Ignore
        },
        EventKind::ConfigureRequest => Handler::Ignore,
        EventKind::Enter => Handler::Enter,
        EventKind::Expose => Handler::Ignore,
        EventKind::FocusIn => Handler::FocusIn,
        EventKind::Destroy => Handler::Destroy,
        EventKind::KeyPress => Handler::KeyPress,
        EventKind::Leave => Handler::Leave,
        EventKind::MappingNotify => Handler::Ignore,
        EventKind::MapRequest => Handler::MapRequest,
        EventKind::MouseEvent => Handler::MouseEvent,
        EventKind::PropertyNotify => Handler::Ignore,
        EventKind::RandrNotify => Handler::DetectScreens,
        EventKind::ScreenChange => Handler::ScreenChange,
        EventKind::UnmapNotify => Handler::UnmapNotify,
    }
}

/// The handler that an event of the given kind is dispatched to.
pub fn route(kind: EventKind) -> (r: Handler)
    ensures
        r == handler_for(kind),
{
    match kind {
        EventKind::ClientMessage => Handler::ClientMessage,
        EventKind::ConfigureNotify { is_root } => if is_root {
            Handler::DetectScreens
        } else {
            Handler::Ignore
        },
        EventKind::ConfigureRequest => Handler::Ignore,
        EventKind::Enter => Handler::Enter,
        EventKind::Expose => Handler::Ignore,
        EventKind::FocusIn => Handler::FocusIn,
        EventKind::Destroy => Handler::Destroy,
        EventKind::KeyPress => Handler::KeyPress,
        EventKind::Leave => Handler::Leave,
        EventKind::MappingNotify => Handler::Ignore,
        EventKind::MapRequest => Handler::MapRequest,
        EventKind::MouseEvent => Handler::MouseEvent,
        EventKind::PropertyNotify => Handler::Ignore,
        EventKind::RandrNotify => Handler::DetectScreens,
        EventKind::ScreenChange => Handler::ScreenChange,
        EventKind::UnmapNotify => Handler::UnmapNotify,
    }
}

/// What the event loop does with an event once its hooks have run.
#[derive(Debug, PartialEq, Eq, Clone, Copy, Structural)]
pub enum Step {
    /// The default handling is skipped: no handler runs for the event.
    Skip,
    /// The event goes to exactly this handler.
    Handle(Handler),
}

pub open spec fn step_for(kind: EventKind, outcomes: Seq<Result<bool, HookError>>) -> Step {
    if event_verdict(outcomes) {
        Step::Handle(handler_for(kind))
    } else {
        Step::Skip
    }
}

/// Decides what becomes of an event of the given kind, from what its event
/// hooks reported in the order in which they ran.
pub fn decide(kind: EventKind, outcomes: &Vec<Result<bool, HookError>>) -> (r: Step)
    ensures
        r == step_for(kind, outcomes@),
{
    if should_handle(outcomes) {
        Step::Handle(route(kind))
    } else {
        Step::Skip
    }
}

/// The dispatch cycle of the event loop: idle between events, or
/// dispatching the one event that it records.
pub struct Cycle<E> {
    current_event: Option<E>,
}

impl<E> Cycle<E> {
    pub closed spec fn current(&self) -> Option<E> {
        self.current_event
    }

    /// A cycle that is idle.
    pub fn new() -> (r: Cycle<E>)
        ensures
            r.current().is_none(),
    {
        Cycle { current_event: None }
    }

    /// Whether no event is being dispatched.
    pub fn is_idle(&self) -> (r: bool)
        ensures
            r == self.current().is_none(),
    {
        self.current_event.is_none()
    }

    /// The event being dispatched, if any.
    pub fn current_event(&self) -> (r: Option<&E>)
        ensures
            r == match self.current() {
                Some(e) => Some(&e),
                None => None::<&E>,
            },
    {
        match &self.current_event {
            Some(e) => Some(e),
            None => None,
        }
    }

    /// Starts dispatching `event`. Only one event is in flight at a time.
    pub fn begin(&mut self, event: E)
        requires
            old(self).current().is_none(),
        ensures
            final(self).current() == Some(event),
    {
        self.current_event = Some(event);
    }

    /// Ends the dispatch of the current event, whatever became of it, and
    /// returns to idle so that the next event can be pulled.
    pub fn end(&mut self) -> (r: Option<E>)
        ensures
            final(self).current().is_none(),
            r == old(self).current(),
    {
        self.current_event.take()
    }
}

/// An event whose hooks report "skip" gets no handler, and its cycle still
/// returns to idle so that the loop goes on to the next event.
pub proof fn lemma_skipped_event_runs_no_handler(
    kind: EventKind,
    outcomes: Seq<Result<bool, HookError>>,
    i: int,
)
    requires
        0 <= i < outcomes.len(),
        outcomes[i] == Ok::<bool, HookError>(false),
        forall|j: int| 0 <= j < i ==> outcomes[j] == Ok::<bool, HookError>(true),
    ensures
        step_for(kind, outcomes) == Step::Skip,
    decreases i,
{
    if i > 0 {
        assert forall|j: int| 0 <= j < i - 1 implies outcomes.drop_first()[j] == Ok::<bool, HookError>(true) by {
            assert(outcomes.drop_first()[j] == outcomes[j + 1]);
        }
        assert(outcomes.drop_first()[i - 1] == outcomes[i]);
        assert(outcomes[0] == Ok::<bool, HookError>(true));
        lemma_skipped_event_runs_no_handler(kind, outcomes.drop_first(), i - 1);
    }
}

} // verus!
