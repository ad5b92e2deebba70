//! What this crate asks of the host layer, and what it tells its listeners.
//!
//! The crate never touches a native surface. Each operation hands back a list
//! of [`HostCommand`]s; the host layer carries them out in order and skips a
//! command whose surface it no longer has.

use vstd::prelude::*;
use crate::layout::Rect;
use crate::layout::RectModel;
use crate::text::optional_text;

verus! {

/// Payload of the event that announces a new tab.
#[derive(Debug, PartialEq, Eq)]
pub struct TabCreatedPayload {
    pub label: String,
    pub url: String,
}

/// Payload of the event that announces a navigation inside a tab.
#[derive(Debug, PartialEq, Eq)]
pub struct TabNavigationPayload {
    pub label: String,
    pub url: String,
}

/// Payload of the event that announces that a tab is gone.
#[derive(Debug, PartialEq, Eq)]
pub struct TabClosedPayload {
    pub label: String,
}

/// Payload of the event that announces what a tab's page calls itself.
#[derive(Debug, PartialEq, Eq)]
pub struct TabUpdatedPayload {
    pub label: String,
    pub title: Option<String>,
    pub favicon: Option<String>,
}

/// An event for the listeners of the tab strip.
#[derive(Debug, PartialEq, Eq)]
pub enum LifecycleEvent {
    TabCreated(TabCreatedPayload),
    TabNavigation(TabNavigationPayload),
    TabClosed(TabClosedPayload),
    TabUpdated(TabUpdatedPayload),
}

/// A [`LifecycleEvent`] over sequences of characters.
pub enum LifecycleEventModel {
    TabCreated { label: Seq<char>, url: Seq<char> },
    TabNavigation { label: Seq<char>, url: Seq<char> },
    TabClosed { label: Seq<char> },
    TabUpdated { label: Seq<char>, title: Option<Seq<char>>, favicon: Option<Seq<char>> },
}

impl View for LifecycleEvent {
    type V = LifecycleEventModel;

    open spec fn view(&self) -> LifecycleEventModel {
        match self {
            LifecycleEvent::TabCreated(p) => LifecycleEventModel::TabCreated {
                label: p.label@,
                url: p.url@,
            },
            LifecycleEvent::TabNavigation(p) => LifecycleEventModel::TabNavigation {
                label: p.label@,
                url: p.url@,
            },
            LifecycleEvent::TabClosed(p) => LifecycleEventModel::TabClosed { label: p.label@ },
            LifecycleEvent::TabUpdated(p) => LifecycleEventModel::TabUpdated {
                label: p.label@,
                title: optional_text(p.title),
                favicon: optional_text(p.favicon),
            },
        }
    }
}

/// One request to the host layer.
#[derive(Debug, PartialEq, Eq)]
pub enum HostCommand {
    /// Set the size of a surface and leave its position alone.
    Resize { label: String, rect: Rect },
    /// Create a native surface that shows `url` at `rect`.
    Create { label: String, url: String, rect: Rect },
    /// Move a surface to `rect` and give it that size.
    Reposition { label: String, rect: Rect },
    /// Make a surface visible.
    Show { label: String },
    /// Give a surface the input focus.
    Focus { label: String },
    /// Make a surface invisible.
    Hide { label: String },
    /// Raise a surface to the top of the stacking order.
    EnforceForeground { label: String },
    /// Destroy a surface.
    Close { label: String },
    /// Run a script inside a surface.
    Evaluate { label: String, script: String },
    /// Load the page of a surface again.
    Reload { label: String },
    /// Send an event to the listeners.
    Emit { event: LifecycleEvent },
    /// Find out in the background whether `url` can be reached.
    Probe { label: String, url: String },
}

/// A [`HostCommand`] over sequences of characters.
pub enum HostCommandModel {
    Resize { label: Seq<char>, rect: RectModel },
    Create { label: Seq<char>, url: Seq<char>, rect: RectModel },
    Reposition { label: Seq<char>, rect: RectModel },
    Show { label: Seq<char> },
    Focus { label: Seq<char> },
    Hide { label: Seq<char> },
    EnforceForeground { label: Seq<char> },
    Close { label: Seq<char> },
    Evaluate { label: Seq<char>, script: Seq<char> },
    Reload { label: Seq<char> },
    Emit { event: LifecycleEventModel },
    Probe { label: Seq<char>, url: Seq<char> },
}

impl View for HostCommand {
    type V = HostCommandModel;

    open spec fn view(&self) -> HostCommandModel {
        match self {
            HostCommand::Resize { label, rect } => HostCommandModel::Resize {
                label: label@,
                rect: rect@,
            },
            HostCommand::Create { label, url, rect } => HostCommandModel::Create {
                label: label@,
                url: url@,
                rect: rect@,
            },
            HostCommand::Reposition { label, rect } => HostCommandModel::Reposition {
                label: label@,
                rect: rect@,
            },
            HostCommand::Show { label } => HostCommandModel::Show { label: label@ },
            HostCommand::Focus { label } => HostCommandModel::Focus { label: label@ },
            HostCommand::Hide { label } => HostCommandModel::Hide { label: label@ },
            HostCommand::EnforceForeground { label } => HostCommandModel::EnforceForeground {
                label: label@,
            },
            HostCommand::Close { label } => HostCommandModel::Close { label: label@ },
            HostCommand::Evaluate { label, script } => HostCommandModel::Evaluate {
                label: label@,
                script: script@,
            },
            HostCommand::Reload { label } => HostCommandModel::Reload { label: label@ },
            HostCommand::Emit { event } => HostCommandModel::Emit { event: event@ },
            HostCommand::Probe { label, url } => HostCommandModel::Probe {
                label: label@,
                url: url@,
            },
        }
    }
}

/// The commands of a list, each as its model.
pub open spec fn commands_model(commands: Seq<HostCommand>) -> Seq<HostCommandModel> {
    commands.map_values(|c: HostCommand| c@)
}

} // verus!
