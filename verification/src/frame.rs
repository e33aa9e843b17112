//! The course of one frame, from the request to redraw to the image on
//! screen, and what follows when no image can be had.

use vstd::prelude::*;
use crate::gpu::SwapChainError;

verus! {

/// Where the renderer stands in a frame.
#[derive(Clone, Copy, Debug, PartialEq, Eq, Structural)]
pub enum FrameState {
    /// Between frames.
    Idle,
    /// An image is acquired and the command buffer is being recorded.
    Recording,
    /// The command buffer is with the queue.
    Submitted,
    /// The image is handed to the presentation chain.
    Presented,
}

/// What happened.
#[derive(Clone, Copy, Debug, PartialEq, Eq)]
pub enum FrameEvent {
    /// A redraw was requested, and the next image of the presentation
    /// chain was asked for with this outcome.
    RedrawRequested(Result<(), SwapChainError>),
    /// The command buffer is complete.
    Recorded,
    /// The queue has taken the command buffer.
    Queued,
    /// The image is on its way to the screen.
    Shown,
}

/// What to do next.
#[derive(Clone, Copy, Debug, PartialEq, Eq, Structural)]
pub enum FrameAction {
    /// Record the passes of the frame.
    Record,
    /// Submit the command buffer to the queue.
    Submit,
    /// Present the image.
    Present,
    /// The presentation chain is lost: build it and the depth buffer anew
    /// and try again with the next frame.
    Rebuild,
    /// The device is out of memory: end the frame loop.
    Exit,
    /// Drop this frame, report the error, and go on.
    Skip(SwapChainError),
    /// Nothing.
    Wait,
}

/// The state after an event, and the action it calls for.
///
/// From `Idle` a redraw with an image begins the recording. A redraw
/// without one leaves the state `Idle`: a lost chain is rebuilt, a lack of
/// memory ends the loop, and any other failure drops the frame. The
/// recorded buffer is submitted, the submitted frame presented, and the
/// presented frame ends where it began. An event out of turn changes
/// nothing.
pub open spec fn step(state: FrameState, event: FrameEvent) -> (FrameState, FrameAction) {
    match (state, event) {
        (FrameState::Idle, FrameEvent::RedrawRequested(Ok(_))) => (
            FrameState::Recording,
            FrameAction::Record,
        ),
        (FrameState::Idle, FrameEvent::RedrawRequested(Err(SwapChainError::Lost))) => (
            FrameState::Idle,
            FrameAction::Rebuild,
        ),
        (FrameState::Idle, FrameEvent::RedrawRequested(Err(SwapChainError::OutOfMemory))) => (
            FrameState::Idle,
            FrameAction::Exit,
        ),
        (FrameState::Idle, FrameEvent::RedrawRequested(Err(e))) => (
            FrameState::Idle,
            FrameAction::Skip(e),
        ),
        (FrameState::Recording, FrameEvent::Recorded) => (
            FrameState::Submitted,
            FrameAction::Submit,
        ),
        (FrameState::Submitted, FrameEvent::Queued) => (
            FrameState::Presented,
            FrameAction::Present,
        ),
        (FrameState::Presented, FrameEvent::Shown) => (FrameState::Idle, FrameAction::Wait),
        _ => (state, FrameAction::Wait),
    }
}

/// The state after a sequence of events.
pub open spec fn state_after(state: FrameState, events: Seq<FrameEvent>) -> FrameState
    decreases events.len(),
{
    if events.len() == 0 {
        state
    } else {
        step(state_after(state, events.drop_last()), events.last()).0
    }
}

/// The actions that a sequence of events calls for, one for each event.
pub open spec fn actions_of(state: FrameState, events: Seq<FrameEvent>) -> Seq<FrameAction>
    decreases events.len(),
{
    if events.len() == 0 {
        Seq::empty()
    } else {
        actions_of(state, events.drop_last()).push(
            step(state_after(state, events.drop_last()), events.last()).1,
        )
    }
}

/// How often an action occurs among the first `n` of a sequence.
pub open spec fn count_of(actions: Seq<FrameAction>, action: FrameAction, n: int) -> nat
    decreases n,
{
    if n <= 0 {
        0
    } else {
        count_of(actions, action, n - 1) + if actions[n - 1] == action {
            1nat
        } else {
            0nat
        }
    }
}

impl FrameState {
    /// Takes an event and says what to do.
    pub fn on(&mut self, event: FrameEvent) -> (action: FrameAction)
        ensures
            (*final(self), action) == step(*old(self), event),
    {
        let (next, action) = match (*self, event) {
            (FrameState::Idle, FrameEvent::RedrawRequested(Ok(_))) => (
                FrameState::Recording,
                FrameAction::Record,
            ),
            (FrameState::Idle, FrameEvent::RedrawRequested(Err(SwapChainError::Lost))) => (
                FrameState::Idle,
                FrameAction::Rebuild,
            ),
            (FrameState::Idle, FrameEvent::RedrawRequested(Err(SwapChainError::OutOfMemory))) => (
                FrameState::Idle,
                FrameAction::Exit,
            ),
            (FrameState::Idle, FrameEvent::RedrawRequested(Err(e))) => (
                FrameState::Idle,
                FrameAction::Skip(e),
            ),
            (FrameState::Recording, FrameEvent::Recorded) => (
                FrameState::Submitted,
                FrameAction::Submit,
            ),
            (FrameState::Submitted, FrameEvent::Queued) => (
                FrameState::Presented,
                FrameAction::Present,
            ),
            (FrameState::Presented, FrameEvent::Shown) => (FrameState::Idle, FrameAction::Wait),
            (state, _) => (state, FrameAction::Wait),
        };
        *self = next;
        action
    }
}

/// A frame whose image was acquired runs through recording, submission
/// and presentation in this order and ends idle.
pub proof fn frame_runs_full_circle()
    ensures
        actions_of(
            FrameState::Idle,
            seq![
                FrameEvent::RedrawRequested(Ok(())),
                FrameEvent::Recorded,
                FrameEvent::Queued,
                FrameEvent::Shown,
            ],
        ) == seq![
            FrameAction::Record,
            FrameAction::Submit,
            FrameAction::Present,
            FrameAction::Wait,
        ],
        state_after(
            FrameState::Idle,
            seq![
                FrameEvent::RedrawRequested(Ok(())),
                FrameEvent::Recorded,
                FrameEvent::Queued,
                FrameEvent::Shown,
            ],
        ) == FrameState::Idle,
{
    reveal_with_fuel(state_after, 6);
    reveal_with_fuel(actions_of, 6);
}

/// A request to redraw that gets no image never begins a frame, whatever
/// the failure. Only a lack of memory ends the loop, only a lost chain is
/// rebuilt, and every other failure drops the frame with its error.
pub proof fn failed_acquire_begins_no_frame(e: SwapChainError)
    ensures
        step(FrameState::Idle, FrameEvent::RedrawRequested(Err(e))).0 == FrameState::Idle,
        step(FrameState::Idle, FrameEvent::RedrawRequested(Err(e))).1 != FrameAction::Record,
        step(FrameState::Idle, FrameEvent::RedrawRequested(Err(e))).1 == FrameAction::Exit <==> e
            == SwapChainError::OutOfMemory,
        step(FrameState::Idle, FrameEvent::RedrawRequested(Err(e))).1 == FrameAction::Rebuild
            <==> e == SwapChainError::Lost,
        e != SwapChainError::OutOfMemory && e != SwapChainError::Lost ==> step(
            FrameState::Idle,
            FrameEvent::RedrawRequested(Err(e)),
        ).1 == FrameAction::Skip(e),
{
}

/// Every request to redraw that finds the presentation chain lost calls
/// for one rebuild and leaves the renderer idle: after any number of such
/// requests in a row there were as many rebuilds, and never an exit.
pub proof fn lost_chain_is_rebuilt_each_time(events: Seq<FrameEvent>)
    requires
        forall|i: int|
            0 <= i < events.len() ==> events[i] == FrameEvent::RedrawRequested(
                Err(SwapChainError::Lost),
            ),
    ensures
        state_after(FrameState::Idle, events) == FrameState::Idle,
        actions_of(FrameState::Idle, events).len() == events.len(),
        forall|i: int|
            0 <= i < events.len() ==> actions_of(FrameState::Idle, events)[i]
                == FrameAction::Rebuild,
        count_of(
            actions_of(FrameState::Idle, events),
            FrameAction::Rebuild,
            events.len() as int,
        ) == events.len(),
        count_of(actions_of(FrameState::Idle, events), FrameAction::Exit, events.len() as int)
            == 0,
    decreases events.len(),
{
    if events.len() > 0 {
        let before = events.drop_last();
        lost_chain_is_rebuilt_each_time(before);
        let actions = actions_of(FrameState::Idle, events);
        let earlier = actions_of(FrameState::Idle, before);
        count_of_prefix(actions, earlier, FrameAction::Rebuild, before.len() as int);
        count_of_prefix(actions, earlier, FrameAction::Exit, before.len() as int);
    }
}

/// Counting among the first `n` looks at the first `n` only.
proof fn count_of_prefix(a: Seq<FrameAction>, b: Seq<FrameAction>, action: FrameAction, n: int)
    requires
        0 <= n <= a.len(),
        n <= b.len(),
        forall|i: int| 0 <= i < n ==> a[i] == b[i],
    ensures
        count_of(a, action, n) == count_of(b, action, n),
    decreases n,
{
    if n > 0 {
        count_of_prefix(a, b, action, n - 1);
    }
}

} // verus!
