//! The records that the plugin stores, feeds to the timeline, and receives
//! from its callers.

use vstd::prelude::*;
use crate::timing::Timing;

verus! {

/// The tag that marks what this plugin stores and reports.
#[derive(Clone, Copy, Debug, PartialEq, Eq)]
pub enum PluginKind {
    Experience,
}

/// What a timeline entry of this plugin stands for: an experience that is
/// stored, by its id, or an offer to create one at some time.
#[derive(Clone, Debug, PartialEq, Eq)]
pub enum CompressedExperienceEvent {
    Experience(String),
    Create(Timing),
}

/// A request to create an experience.
#[derive(Clone, Debug, PartialEq, Eq)]
pub struct CreateExperienceRequest {
    pub name: String,
    pub time: Timing,
}

/// An experience as it is stored. Its id is the one that the experiences
/// server gave it.
#[derive(Clone, Debug, PartialEq, Eq)]
pub struct DatabaseExperience {
    pub name: String,
    pub id: String,
}

/// A stored event: the envelope around a stored experience.
#[derive(Clone, Debug, PartialEq, Eq)]
pub struct Event {
    pub timing: Timing,
    pub id: String,
    pub plugin: PluginKind,
    pub event: DatabaseExperience,
}

/// An entry of the timeline feed.
#[derive(Clone, Debug, PartialEq, Eq)]
pub struct CompressedEvent {
    pub title: String,
    pub time: Timing,
    pub data: CompressedExperienceEvent,
}

/// A [`CompressedExperienceEvent`] with its id as a sequence of characters.
pub enum CompressedExperienceEventView {
    Experience(Seq<char>),
    Create(Timing),
}

/// A [`CreateExperienceRequest`] with its name as a sequence of characters.
pub struct CreateExperienceRequestView {
    pub name: Seq<char>,
    pub time: Timing,
}

/// A [`DatabaseExperience`] with its texts as sequences of characters.
pub struct DatabaseExperienceView {
    pub name: Seq<char>,
    pub id: Seq<char>,
}

/// An [`Event`] with its texts as sequences of characters.
pub struct EventView {
    pub timing: Timing,
    pub id: Seq<char>,
    pub plugin: PluginKind,
    pub event: DatabaseExperienceView,
}

/// A [`CompressedEvent`] with its texts as sequences of characters.
pub struct CompressedEventView {
    pub title: Seq<char>,
    pub time: Timing,
    pub data: CompressedExperienceEventView,
}

impl View for CompressedExperienceEvent {
    type V = CompressedExperienceEventView;

    open spec fn view(&self) -> CompressedExperienceEventView {
        match self {
            CompressedExperienceEvent::Experience(id) => CompressedExperienceEventView::Experience(
                id@,
            ),
            CompressedExperienceEvent::Create(timing) => CompressedExperienceEventView::Create(
                *timing,
            ),
        }
    }
}

impl View for CreateExperienceRequest {
    type V = CreateExperienceRequestView;

    open spec fn view(&self) -> CreateExperienceRequestView {
        CreateExperienceRequestView { name: self.name@, time: self.time }
    }
}

impl View for DatabaseExperience {
    type V = DatabaseExperienceView;

    open spec fn view(&self) -> DatabaseExperienceView {
        DatabaseExperienceView { name: self.name@, id: self.id@ }
    }
}

impl View for Event {
    type V = EventView;

    open spec fn view(&self) -> EventView {
        EventView { timing: self.timing, id: self.id@, plugin: self.plugin, event: self.event@ }
    }
}

impl View for CompressedEvent {
    type V = CompressedEventView;

    open spec fn view(&self) -> CompressedEventView {
        CompressedEventView { title: self.title@, time: self.time, data: self.data@ }
    }
}

/// The views of the entries of a feed, in order.
pub open spec fn feed_view(feed: Seq<CompressedEvent>) -> Seq<CompressedEventView> {
    feed.map_values(|entry: CompressedEvent| entry@)
}

impl PluginKind {
    /// The name under which the host knows the plugin.
    pub open spec fn spec_name(&self) -> Seq<char> {
        "timeline_plugin_experience"@
    }

    /// The kind that the host knows under `name`: this plugin's, where the
    /// name is this plugin's, and none otherwise.
    pub fn from_name(name: &str) -> (r: Option<PluginKind>)
        ensures
            r == (if name@ == PluginKind::Experience.spec_name() {
                Some(PluginKind::Experience)
            } else {
                None
            }),
    {
        let given: String = name.to_owned();
        let own: String = String::from_str("timeline_plugin_experience");
        if given == own {
            Some(PluginKind::Experience)
        } else {
            None
        }
    }

    /// The name under which the host knows the plugin.
    pub fn name(&self) -> (r: String)
        ensures
            r@ == self.spec_name(),
    {
        String::from_str("timeline_plugin_experience")
    }
}

} // verus!
