//! The events that cross from the platform's callback threads to the
//! application loop.
//!
//! The bridge is a pair of unbounded channels, one per kind of event. An
//! event carries nothing but its kind, so a channel carries nothing but the
//! fact that something was sent: the channel an event travels on says which
//! event it is. Only a message that arrived is an event; a receive that
//! ends because its channel is closed stands for none.

use vstd::prelude::*;

verus! {

/// A request from the tray to the application loop.
#[derive(Clone, Copy, Debug, PartialEq, Eq, Structural)]
pub enum BridgeEvent {
    /// The tray icon was clicked: flip the visibility of the windows.
    ToggleVisibility,
    /// "New Window" was chosen: open one more window.
    SpawnWindow,
}

/// One of the two channels of the bridge.
#[derive(Clone, Copy, Debug, PartialEq, Eq, Structural)]
pub enum Channel {
    Click,
    Spawn,
}

impl BridgeEvent {
    /// The channel that carries this event.
    pub open spec fn spec_channel(&self) -> Channel {
        match *self {
            BridgeEvent::ToggleVisibility => Channel::Click,
            BridgeEvent::SpawnWindow => Channel::Spawn,
        }
    }

    /// The channel to send this event on.
    #[verifier::when_used_as_spec(spec_channel)]
    pub fn channel(&self) -> (channel: Channel)
        ensures
            channel == self.spec_channel(),
    {
        match self {
            BridgeEvent::ToggleVisibility => Channel::Click,
            BridgeEvent::SpawnWindow => Channel::Spawn,
        }
    }
}

impl Channel {
    /// The event that an arrival on this channel stands for.
    pub open spec fn spec_event(&self) -> BridgeEvent {
        match *self {
            Channel::Click => BridgeEvent::ToggleVisibility,
            Channel::Spawn => BridgeEvent::SpawnWindow,
        }
    }

    /// What a receive on this channel that has come to its end stands for.
    /// `arrived` says whether it brought a message. A receive that ended
    /// because the channel is closed, with nothing pending, brought none
    /// and stands for no event: nothing was asked for, and nothing is to
    /// be serviced.
    pub fn received(&self, arrived: bool) -> (event: Option<BridgeEvent>)
        ensures
            event == if arrived {
                Some(self.event())
            } else {
                None::<BridgeEvent>
            },
    {
        if arrived {
            Some(self.event())
        } else {
            None
        }
    }

    /// The event that an arrival on this channel stands for.
    #[verifier::when_used_as_spec(spec_event)]
    pub fn event(&self) -> (event: BridgeEvent)
        ensures
            event == self.spec_event(),
    {
        match self {
            Channel::Click => BridgeEvent::ToggleVisibility,
            Channel::Spawn => BridgeEvent::SpawnWindow,
        }
    }
}

/// An event is received as the event that was sent: sending on the channel
/// of an event and reading the arrival back gives that event, and the two
/// kinds of event never share a channel.
pub proof fn lemma_bridge_faithful(event: BridgeEvent, other: BridgeEvent)
    ensures
        event.channel().event() == event,
        event.channel() == other.channel() ==> event == other,
{
}

} // verus!
