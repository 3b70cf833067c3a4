//! The decisions of the presentation loop.
//!
//! The loop itself belongs to the caller, who owns the window: once per
//! iteration it collects the pending events, hands them to
//! [`Presentation::tick`] and performs the [`Action`] that comes back.

use vstd::prelude::*;
use crate::events::{drain, quit_requested, Event};

verus! {

/// When the surface is rendered.
#[derive(Clone, Copy, Debug, PartialEq, Eq, Structural)]
pub enum RenderPolicy {
    /// The surface is rendered anew in every iteration: the clock.
    EveryFrame,
    /// The surface is rendered once, before the loop starts: a static scene.
    Once,
}

/// The state of the loop. `Stopped` is terminal.
#[derive(Clone, Copy, Debug, PartialEq, Eq, Structural)]
pub enum LoopState {
    Running,
    Stopped,
}

/// What the caller does in one iteration.
#[derive(Clone, Copy, Debug, PartialEq, Eq, Structural)]
pub enum Action {
    /// Render the surface if `render` is set, upload it, present it, then
    /// sleep for `delay_ms` milliseconds.
    Present { render: bool, delay_ms: u64 },
    /// Leave the loop without drawing anything more.
    Exit,
}

impl RenderPolicy {
    /// Whether the surface is rendered before the first iteration.
    pub open spec fn renders_at_startup(self) -> bool {
        self == RenderPolicy::Once
    }

    /// Whether the surface is rendered inside the loop.
    pub open spec fn renders_in_loop(self) -> bool {
        self == RenderPolicy::EveryFrame
    }

    /// The pause after each presented frame, in milliseconds.
    pub open spec fn frame_delay(self) -> u64 {
        match self {
            RenderPolicy::EveryFrame => 200,
            RenderPolicy::Once => 100,
        }
    }

    /// The action of an iteration in which the loop goes on.
    pub open spec fn frame(self) -> Action {
        Action::Present { render: self.renders_in_loop(), delay_ms: self.frame_delay() }
    }

    /// Computes [`RenderPolicy::renders_at_startup`].
    pub fn render_at_startup(self) -> (render: bool)
        ensures
            render == self.renders_at_startup(),
    {
        match self {
            RenderPolicy::EveryFrame => false,
            RenderPolicy::Once => true,
        }
    }
}

/// One iteration: the state after it and the action it asks for.
///
/// A stopped loop stays stopped. A running loop stops on a batch that holds
/// a quit signal and presents a frame on any other batch.
pub open spec fn step(policy: RenderPolicy, state: LoopState, events: Seq<Event>) -> (
    LoopState,
    Action,
) {
    if state == LoopState::Stopped || quit_requested(events) {
        (LoopState::Stopped, Action::Exit)
    } else {
        (LoopState::Running, policy.frame())
    }
}

/// The state after the iterations that `batches` drive, starting in `state`.
pub open spec fn state_after(
    policy: RenderPolicy,
    state: LoopState,
    batches: Seq<Seq<Event>>,
) -> LoopState
    decreases batches.len(),
{
    if batches.len() == 0 {
        state
    } else {
        step(policy, state_after(policy, state, batches.drop_last()), batches.last()).0
    }
}

/// The action of iteration `k` of a loop that starts in `state` and is driven
/// by `batches`.
pub open spec fn action_at(
    policy: RenderPolicy,
    state: LoopState,
    batches: Seq<Seq<Event>>,
    k: int,
) -> Action {
    step(policy, state_after(policy, state, batches.take(k)), batches[k]).1
}

/// The loop's policy and state.
#[derive(Clone, Copy, Debug, PartialEq, Eq, Structural)]
pub struct Presentation {
    pub policy: RenderPolicy,
    pub state: LoopState,
}

impl Presentation {
    /// A running loop with the given policy.
    pub fn start(policy: RenderPolicy) -> (presentation: Presentation)
        ensures
            presentation == (Presentation { policy, state: LoopState::Running }),
    {
        Presentation { policy, state: LoopState::Running }
    }

    /// Whether the loop has stopped.
    pub fn is_stopped(&self) -> (stopped: bool)
        ensures
            stopped == (self.state == LoopState::Stopped),
    {
        match self.state {
            LoopState::Running => false,
            LoopState::Stopped => true,
        }
    }

    /// Runs the decisions of one iteration on the events that were pending.
    pub fn tick(&mut self, events: &Vec<Event>) -> (action: Action)
        ensures
            final(self).policy == old(self).policy,
            (final(self).state, action) == step(old(self).policy, old(self).state, events@),
    {
        if self.is_stopped() || drain(events) {
            self.state = LoopState::Stopped;
            Action::Exit
        } else {
            let render: bool = match self.policy {
                RenderPolicy::EveryFrame => true,
                RenderPolicy::Once => false,
            };
            let delay_ms: u64 = match self.policy {
                RenderPolicy::EveryFrame => 200,
                RenderPolicy::Once => 100,
            };
            Action::Present { render, delay_ms }
        }
    }
}

/// A quit signal ends the loop in the iteration that reads it: that
/// iteration presents nothing.
pub proof fn quit_stops_at_once(policy: RenderPolicy, state: LoopState, events: Seq<Event>)
    requires
        quit_requested(events),
    ensures
        step(policy, state, events) == (LoopState::Stopped, Action::Exit),
{
}

/// Without a quit signal a running loop goes on and presents a frame.
pub proof fn running_goes_on(policy: RenderPolicy, events: Seq<Event>)
    requires
        !quit_requested(events),
    ensures
        step(policy, LoopState::Running, events) == (LoopState::Running, policy.frame()),
{
}

/// There is no way back from `Stopped`, whatever events arrive.
pub proof fn stopped_is_terminal(policy: RenderPolicy, batches: Seq<Seq<Event>>)
    ensures
        state_after(policy, LoopState::Stopped, batches) == LoopState::Stopped,
    decreases batches.len(),
{
    if batches.len() > 0 {
        stopped_is_terminal(policy, batches.drop_last());
    }
}

/// Once a batch has held a quit signal, the loop is stopped after every
/// later batch too.
pub proof fn stays_stopped_after_quit(
    policy: RenderPolicy,
    state: LoopState,
    batches: Seq<Seq<Event>>,
    k: int,
)
    requires
        0 <= k < batches.len(),
        quit_requested(batches[k]),
    ensures
        state_after(policy, state, batches) == LoopState::Stopped,
    decreases batches.len(),
{
    if k < batches.len() - 1 {
        stays_stopped_after_quit(policy, state, batches.drop_last(), k);
    }
}

/// After a quit signal in iteration `k`, iteration `k` and every later one
/// exit: no frame is rendered or presented after the signal.
pub proof fn no_frame_after_quit(
    policy: RenderPolicy,
    state: LoopState,
    batches: Seq<Seq<Event>>,
    k: int,
    j: int,
)
    requires
        0 <= k <= j < batches.len(),
        quit_requested(batches[k]),
    ensures
        action_at(policy, state, batches, j) == Action::Exit,
{
    if k < j {
        stays_stopped_after_quit(policy, state, batches.take(j), k);
    }
}

/// A loop that renders once never renders inside the loop: whatever events
/// arrive, no iteration asks for the surface to be redrawn.
pub proof fn render_once_never_redraws(state: LoopState, batches: Seq<Seq<Event>>, j: int)
    requires
        0 <= j < batches.len(),
    ensures
        RenderPolicy::Once.renders_at_startup(),
        action_at(RenderPolicy::Once, state, batches, j) matches Action::Present { render, .. }
            ==> !render,
{
}

/// A loop that renders every frame redraws the surface in every iteration
/// that presents one.
pub proof fn every_frame_redraws(state: LoopState, batches: Seq<Seq<Event>>, j: int)
    requires
        0 <= j < batches.len(),
    ensures
        action_at(RenderPolicy::EveryFrame, state, batches, j) matches Action::Present {
            render,
            ..
        } ==> render,
{
}

} // verus!
