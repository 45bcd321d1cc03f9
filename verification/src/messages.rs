//! The message vocabulary between the host shell and the map engine:
//! notification levels, search targets, settings pages, host-level events
//! and the commands that keep several map panes in sync.

use vstd::prelude::*;

verus! {

/// Severity of a host notification.
#[derive(Clone, Copy, PartialEq, Eq, Structural, Debug)]
pub enum Type {
    Info,
    Error,
    Warning,
}

/// What kind of entity a search result or command refers to.
#[derive(Clone, Copy, PartialEq, Eq, Structural, Debug)]
pub enum Target {
    System,
    Region,
}

/// Which page of the settings dialog is open.
#[derive(Clone, Copy, PartialEq, Eq, Structural, Debug)]
pub enum SettingsPage {
    Intelligence,
    DataSources,
}

/// An event the host shell reacts to.
pub enum Message {
    EsiAuthSuccess((String, String)),
    GenericNotification((Type, String, String, String)),
    NewRegionalPane(usize),
    MapHidden(usize),
    MapShown(usize),
}

/// A change to the set of linked characters.
#[derive(Clone, Copy, PartialEq, Eq, Structural, Debug)]
pub enum CharacterSync {
    Add(usize),
    Remove(usize),
}

/// A command broadcast to every map pane so they stay in sync: recenter on
/// an entity, start a pulse on a system (with its start time in
/// milliseconds), or move a tracked player marker to a new system.
#[derive(Clone, Copy, PartialEq, Eq, Debug)]
pub enum MapSync {
    CenterOn((usize, Target)),
    SystemNotification((usize, u64)),
    PlayerMoved((usize, usize)),
}

} // verus!
