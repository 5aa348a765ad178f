//! Game modes and their events.

use vstd::prelude::*;

verus! {

/// A game mode.
#[derive(Clone, Debug)]
pub struct GameMode {
    /// The event of the game mode.
    pub event: Event,
    /// The description of the game mode.
    pub description: Option<String>,
}

impl GameMode {
    /// Creates a new game mode from an event and an optional description.
    pub fn new(event: Event, description: Option<String>) -> (r: Self)
        ensures
            r == (GameMode { event, description }),
    {
        GameMode { event, description }
    }

    /// Returns the type of the game mode's event.
    pub fn get_event_type(&self) -> (r: EventType)
        ensures
            r == self.event.event_type(),
    {
        self.event.get_event_type()
    }
}

/// A game mode event.
#[derive(Clone, Copy, Debug, PartialEq, Eq, Structural)]
pub enum Event {
    /// Gem Grab.
    GemGrab,
    /// Showdown.
    Showdown,
    /// Brawl Ball.
    BrawlBall,
    /// Heist.
    Heist,
    /// Bounty.
    Bounty,
    /// Siege.
    Siege,
    /// Hot Zone.
    HotZone,
}

impl Event {
    /// Showdown is played alone, every other event in teams.
    pub open spec fn event_type(self) -> EventType {
        match self {
            Event::Showdown => EventType::Individual,
            _ => EventType::Team,
        }
    }

    /// The event's name as players see it.
    pub fn to_string(&self) -> (r: String)
        ensures
            *self == Event::GemGrab ==> r@ == "Gem Grab"@,
            *self == Event::Showdown ==> r@ == "Showdown"@,
            *self == Event::BrawlBall ==> r@ == "Brawl Ball"@,
            *self == Event::Heist ==> r@ == "Heist"@,
            *self == Event::Bounty ==> r@ == "Bounty"@,
            *self == Event::Siege ==> r@ == "Siege"@,
            *self == Event::HotZone ==> r@ == "Hot Zone"@,
    {
        String::from_str(
            match self {
                Event::GemGrab => "Gem Grab",
                Event::Showdown => "Showdown",
                Event::BrawlBall => "Brawl Ball",
                Event::Heist => "Heist",
                Event::Bounty => "Bounty",
                Event::Siege => "Siege",
                Event::HotZone => "Hot Zone",
            },
        )
    }

    /// Returns the type of the event.
    pub fn get_event_type(&self) -> (r: EventType)
        ensures
            r == self.event_type(),
    {
        match self {
            Event::Showdown => EventType::Individual,
            _ => EventType::Team,
        }
    }
}

/// The type of a game mode.
#[derive(Clone, Copy, Debug, PartialEq, Eq, Structural)]
pub enum EventType {
    /// A team game mode.
    Team,
    /// An individual game mode.
    Individual,
}

} // verus!
