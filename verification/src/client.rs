//! The plugin in the browser: what is shown for an entry of the feed, and
//! what follows when the user asks to create an experience.

use vstd::prelude::*;
use crate::event::{
    CompressedExperienceEvent, CompressedExperienceEventView, CreateExperienceRequest,
    CreateExperienceRequestView,
};
use crate::timing::Timing;
use crate::web::{cover_path, experience_path, spec_cover_path, spec_experience_path};

verus! {

/// What is shown for an entry of the feed.
#[derive(Clone, Debug, PartialEq, Eq)]
pub enum Component {
    /// A card for a stored experience: its cover picture, and a band that
    /// opens its page. Both paths are on the experiences server.
    Card { cover_path: String, page_path: String },
    /// A form that asks for a name and creates an experience at `timing`,
    /// by a request to `submit_path` on the host.
    Form { timing: Timing, submit_path: String },
}

/// A [`Component`] with its texts as sequences of characters.
pub enum ComponentView {
    Card { cover_path: Seq<char>, page_path: Seq<char> },
    Form { timing: Timing, submit_path: Seq<char> },
}

impl View for Component {
    type V = ComponentView;

    open spec fn view(&self) -> ComponentView {
        match self {
            Component::Card { cover_path, page_path } => ComponentView::Card {
                cover_path: cover_path@,
                page_path: page_path@,
            },
            Component::Form { timing, submit_path } => ComponentView::Form {
                timing: *timing,
                submit_path: submit_path@,
            },
        }
    }
}

/// What the browser does once the host has answered a request to create an
/// experience.
#[derive(Clone, Debug, PartialEq, Eq)]
pub enum AfterCreate {
    /// Load the page again.
    Reload,
    /// Tell the user.
    Alert(String),
}

/// An [`AfterCreate`] with its text as a sequence of characters.
pub enum AfterCreateView {
    Reload,
    Alert(Seq<char>),
}

impl View for AfterCreate {
    type V = AfterCreateView;

    open spec fn view(&self) -> AfterCreateView {
        match self {
            AfterCreate::Reload => AfterCreateView::Reload,
            AfterCreate::Alert(message) => AfterCreateView::Alert(message@),
        }
    }
}

/// The path on the host that creates an experience.
pub open spec fn spec_submit_path() -> Seq<char> {
    "/plugin/timeline_plugin_experience/create"@
}

/// What is shown for `data`.
pub open spec fn spec_component(data: CompressedExperienceEventView) -> ComponentView {
    match data {
        CompressedExperienceEventView::Experience(id) => ComponentView::Card {
            cover_path: spec_cover_path(id),
            page_path: spec_experience_path(id),
        },
        CompressedExperienceEventView::Create(timing) => ComponentView::Form {
            timing,
            submit_path: spec_submit_path(),
        },
    }
}

/// What the user is told when the experience could not be created.
pub open spec fn spec_create_failed(reason: Seq<char>) -> Seq<char> {
    "Unable to create Experience: "@ + reason
}

/// The plugin in the browser.
#[derive(Clone, Copy, Debug, PartialEq, Eq)]
pub struct Plugin {}

impl Plugin {
    /// The plugin.
    pub fn new() -> Plugin {
        Plugin {  }
    }

    /// What is shown for `data`: a card for an experience, a form for an
    /// offer to create one.
    pub fn get_component(&self, data: CompressedExperienceEvent) -> (r: Component)
        ensures
            r@ == spec_component(data@),
    {
        match data {
            CompressedExperienceEvent::Experience(id) => Component::Card {
                cover_path: cover_path(id.as_str()),
                page_path: experience_path(id.as_str()),
            },
            CompressedExperienceEvent::Create(timing) => Component::Form {
                timing,
                submit_path: String::from_str("/plugin/timeline_plugin_experience/create"),
            },
        }
    }
}

/// The request that the form sends: an experience of the name that the user
/// gave, at the time of the offer.
pub fn create_request(name: String, timing: Timing) -> (r: CreateExperienceRequest)
    ensures
        r@ == (CreateExperienceRequestView { name: name@, time: timing }),
{
    CreateExperienceRequest { name, time: timing }
}

/// What follows the host's answer: the page is loaded again after a
/// success, and the user is told of a failure.
pub fn after_create(outcome: Result<(), String>) -> (r: AfterCreate)
    ensures
        outcome is Ok ==> r@ == AfterCreateView::Reload,
        outcome matches Err(reason) ==> r@ == AfterCreateView::Alert(spec_create_failed(reason@)),
{
    match outcome {
        Ok(_) => AfterCreate::Reload,
        Err(reason) => AfterCreate::Alert(
            String::from_str("Unable to create Experience: ").concat(reason.as_str()),
        ),
    }
}

} // verus!
