//! Why a configuration document is rejected.

use vstd::prelude::*;

verus! {

/// A field of the configuration document.
#[derive(Debug, Clone, Copy, PartialEq, Eq, Structural)]
pub enum ConfigField {
    /// `reload-time`: the seconds between two polls.
    ReloadTime,
    /// `workspaces`: the catalog.
    Workspaces,
    /// `name` of a workspace.
    Name,
    /// `primary-monitor` of a workspace.
    PrimaryMonitor,
    /// `secondary-monitors` of a workspace.
    SecondaryMonitors,
    /// `position` of a secondary monitor.
    Position,
    /// `monitor-name` of a secondary monitor.
    MonitorName,
    /// `monitor-switch-scripts`: the commands to run after a switch.
    SwitchScripts,
    /// One command of `monitor-switch-scripts`.
    SwitchScript,
}

/// The ways in which loading a configuration fails.
#[derive(Debug, Clone, Copy, PartialEq, Eq, Structural)]
pub enum LoadError {
    /// The document is not valid JSON.
    Malformed,
    /// A required field is absent.
    MissingField(ConfigField),
    /// A field, or an element of it, holds a value of the wrong type.
    WrongType(ConfigField),
    /// The position of a secondary monitor is not a known position.
    UnknownPosition,
}

} // verus!
