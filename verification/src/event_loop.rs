//! The application loop.
//!
//! One cooperative task waits on both channels of the bridge and services
//! whichever event is ready. What servicing means is decided here: a click
//! flips the shared visibility flag and asks every window to present itself
//! again; a spawn request asks for one more window and leaves the flag
//! alone. Waiting for the event and carrying out the action are the
//! caller's part.

use vstd::prelude::*;

use crate::bridge::BridgeEvent;
use crate::platform::ChromeError;

verus! {

/// The visibility flag shared by all windows. The application loop holds
/// the one copy and is the only writer; every window's presentation reads it.
#[derive(Clone, Copy, Debug, PartialEq, Eq, Structural)]
pub struct GlobalEntity {
    pub hide: bool,
}

/// What the caller of the loop has to do for an event.
#[derive(Clone, Copy, Debug, PartialEq, Eq, Structural)]
pub enum LoopAction {
    /// Have every live window present itself again.
    RefreshWindows,
    /// Open one more window.
    OpenWindow,
}

/// Where the loop stands between two events.
#[derive(Clone, Copy, Debug, PartialEq, Eq, Structural)]
pub enum LoopState {
    /// Waiting for an event.
    Idle,
    /// The action for `event` is being carried out.
    Dispatching { event: BridgeEvent },
}

impl Default for GlobalEntity {
    /// The flag as the application starts: clear.
    fn default() -> (global: GlobalEntity)
        ensures
            global == (GlobalEntity { hide: false }),
    {
        GlobalEntity { hide: false }
    }
}

impl GlobalEntity {
    /// The flag after one click.
    pub open spec fn flipped(self) -> GlobalEntity {
        GlobalEntity { hide: !self.hide }
    }

    /// The level that windows present while the flag stands as it does:
    /// 255 with the flag set, which leaves a window at alpha 0 and so out
    /// of sight, and 0 with the flag clear, which leaves it fully opaque.
    pub open spec fn spec_opacity(&self) -> u8 {
        if self.hide {
            255
        } else {
            0
        }
    }

    /// Flips the flag.
    pub fn toggle(&mut self)
        ensures
            *final(self) == old(self).flipped(),
    {
        self.hide = !self.hide;
    }

    /// The level that windows present now.
    #[verifier::when_used_as_spec(spec_opacity)]
    pub fn opacity(&self) -> (level: u8)
        ensures
            level == self.spec_opacity(),
    {
        if self.hide {
            255
        } else {
            0
        }
    }
}

/// The flag once `event` has been serviced.
pub open spec fn step(global: GlobalEntity, event: BridgeEvent) -> GlobalEntity {
    match event {
        BridgeEvent::ToggleVisibility => global.flipped(),
        BridgeEvent::SpawnWindow => global,
    }
}

/// The action that services `event`.
pub open spec fn action_for(event: BridgeEvent) -> LoopAction {
    match event {
        BridgeEvent::ToggleVisibility => LoopAction::RefreshWindows,
        BridgeEvent::SpawnWindow => LoopAction::OpenWindow,
    }
}

/// The flag once `events` have been serviced in order.
pub open spec fn run(global: GlobalEntity, events: Seq<BridgeEvent>) -> GlobalEntity
    decreases events.len(),
{
    if events.len() == 0 {
        global
    } else {
        step(run(global, events.drop_last()), events.last())
    }
}

/// How often `event` occurs in `events`.
pub open spec fn occurrences(events: Seq<BridgeEvent>, event: BridgeEvent) -> nat
    decreases events.len(),
{
    if events.len() == 0 {
        0
    } else {
        occurrences(events.drop_last(), event) + if events.last() == event {
            1nat
        } else {
            0nat
        }
    }
}

/// `n` clicks and nothing else.
pub open spec fn clicks(n: nat) -> Seq<BridgeEvent> {
    Seq::new(n, |i: int| BridgeEvent::ToggleVisibility)
}

impl LoopState {
    /// The state in which the loop starts.
    pub fn new() -> (state: LoopState)
        ensures
            state == LoopState::Idle,
    {
        LoopState::Idle
    }
}

/// Services one event: takes it up if the loop is idle, changes the flag as
/// the event asks and answers with the action to carry out. While an
/// earlier action is still being carried out the event is not taken up and
/// nothing changes.
pub fn event_loop(state: &mut LoopState, global: &mut GlobalEntity, event: BridgeEvent) -> (action:
    Option<LoopAction>)
    ensures
        *old(state) == LoopState::Idle ==> {
            &&& action == Some(action_for(event))
            &&& *final(state) == (LoopState::Dispatching { event })
            &&& *final(global) == step(*old(global), event)
        },
        *old(state) != LoopState::Idle ==> {
            &&& action is None
            &&& *final(state) == *old(state)
            &&& *final(global) == *old(global)
        },
{
    match state {
        LoopState::Idle => {
            *state = LoopState::Dispatching { event };
            match event {
                BridgeEvent::ToggleVisibility => {
                    global.toggle();
                    Some(LoopAction::RefreshWindows)
                },
                BridgeEvent::SpawnWindow => Some(LoopAction::OpenWindow),
            }
        },
        LoopState::Dispatching { .. } => None,
    }
}

/// Ends a dispatch. The loop is idle again whatever became of the action:
/// a failed chrome operation is handed back to be reported, the flag stays
/// as it is, and the next event will be taken up.
pub fn dispatched(state: &mut LoopState, failure: Option<ChromeError>) -> (surfaced: Option<
    ChromeError,
>)
    ensures
        *final(state) == LoopState::Idle,
        surfaced == failure,
{
    *state = LoopState::Idle;
    failure
}

/// Services a run of events, each one to its end, in the order given. The
/// result holds the action of each event, in that order.
pub fn dispatch_all(global: &mut GlobalEntity, events: &Vec<BridgeEvent>) -> (actions: Vec<
    LoopAction,
>)
    ensures
        *final(global) == run(*old(global), events@),
        actions@ == events@.map_values(|event: BridgeEvent| action_for(event)),
{
    let mut actions: Vec<LoopAction> = Vec::new();
    let mut state = LoopState::new();
    let mut i: usize = 0;
    while i < events.len()
        invariant
            i <= events.len(),
            state == LoopState::Idle,
            *global == run(*old(global), events@.take(i as int)),
            actions@ == events@.take(i as int).map_values(|event: BridgeEvent| action_for(event)),
        decreases events.len() - i,
    {
        proof {
            assert(events@.take(i + 1).drop_last() == events@.take(i as int));
        }
        let action = event_loop(&mut state, global, events[i]);
        match action {
            Some(action) => actions.push(action),
            None => {},
        }
        dispatched(&mut state, None);
        i += 1;
        proof {
            assert(actions@ == events@.take(i as int).map_values(
                |event: BridgeEvent| action_for(event),
            ));
        }
    }
    proof {
        assert(events@.take(events@.len() as int) == events@);
    }
    actions
}

/// The flag after any run of events is the flag before it, flipped once
/// for each click in the run: it differs from the start exactly when the
/// number of clicks is odd. Spawn requests do not count.
pub proof fn lemma_flag_counts_clicks(global: GlobalEntity, events: Seq<BridgeEvent>)
    ensures
        run(global, events).hide == (global.hide != (occurrences(
            events,
            BridgeEvent::ToggleVisibility,
        ) % 2 == 1)),
    decreases events.len(),
{
    if events.len() > 0 {
        lemma_flag_counts_clicks(global, events.drop_last());
    }
}

/// A run of `n` clicks holds `n` clicks.
pub proof fn lemma_clicks_count(n: nat)
    ensures
        occurrences(clicks(n), BridgeEvent::ToggleVisibility) == n,
        occurrences(clicks(n), BridgeEvent::SpawnWindow) == 0,
    decreases n,
{
    if n > 0 {
        assert(clicks(n).drop_last() == clicks((n - 1) as nat));
        lemma_clicks_count((n - 1) as nat);
    }
}

/// From the starting flag, after `n` clicks the flag is set exactly when `n` is odd.
pub proof fn lemma_flag_after_clicks(n: nat)
    ensures
        run(GlobalEntity { hide: false }, clicks(n)).hide == (n % 2 == 1),
{
    lemma_clicks_count(n);
    lemma_flag_counts_clicks(GlobalEntity { hide: false }, clicks(n));
}

/// The order in which ready events are serviced does not matter to the
/// flag: two runs with the same number of clicks end with the same flag.
pub proof fn lemma_order_unconstrained(
    global: GlobalEntity,
    one: Seq<BridgeEvent>,
    other: Seq<BridgeEvent>,
)
    requires
        occurrences(one, BridgeEvent::ToggleVisibility) == occurrences(
            other,
            BridgeEvent::ToggleVisibility,
        ),
    ensures
        run(global, one) == run(global, other),
{
    lemma_flag_counts_clicks(global, one);
    lemma_flag_counts_clicks(global, other);
}

/// A click and a spawn request that are ready together are both serviced
/// in either order, with the same flag at the end and the same two actions.
pub proof fn lemma_click_and_spawn(global: GlobalEntity)
    ensures
        run(global, seq![BridgeEvent::ToggleVisibility, BridgeEvent::SpawnWindow]) == global.flipped(),
        run(global, seq![BridgeEvent::SpawnWindow, BridgeEvent::ToggleVisibility]) == global.flipped(),
        action_for(BridgeEvent::ToggleVisibility) == LoopAction::RefreshWindows,
        action_for(BridgeEvent::SpawnWindow) == LoopAction::OpenWindow,
{
    let click_first = seq![BridgeEvent::ToggleVisibility, BridgeEvent::SpawnWindow];
    let spawn_first = seq![BridgeEvent::SpawnWindow, BridgeEvent::ToggleVisibility];
    assert(click_first.drop_last() == seq![BridgeEvent::ToggleVisibility]);
    assert(spawn_first.drop_last() == seq![BridgeEvent::SpawnWindow]);
    assert(seq![BridgeEvent::ToggleVisibility].drop_last() == Seq::<BridgeEvent>::empty());
    assert(seq![BridgeEvent::SpawnWindow].drop_last() == Seq::<BridgeEvent>::empty());
    reveal_with_fuel(run, 3);
}

} // verus!
