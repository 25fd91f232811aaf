//! Workspace definitions.
//!
//! A configuration is an ordered catalog of workspaces. A workspace names
//! the primary monitor it is for and, optionally, the secondary monitors it
//! needs, each at a position relative to the primary monitor.

use vstd::prelude::*;

pub use crate::load::get_config_json;
use crate::text::same_text;

verus! {

/// Where a secondary monitor stands relative to the primary monitor.
#[derive(Debug, Hash, Eq, PartialEq, Clone, Copy, Structural)]
pub enum MonitorPositions {
    RightOf,
    LeftOf,
}

/// One secondary monitor of a workspace: its position and its name.
#[derive(Debug, Clone, PartialEq, Eq)]
pub struct SecondaryMonitor {
    pub position: MonitorPositions,
    pub monitor_name: String,
}

/// One named display layout.
///
/// `secondary_monitors` is a mapping from position to monitor name, kept as a
/// list of entries; `well_formed` says that no position occurs twice. Absent,
/// the workspace accepts any set of secondary monitors.
#[derive(Debug, Clone, PartialEq, Eq)]
pub struct WorkSpace {
    pub name: String,
    pub primary_monitor: String,
    pub secondary_monitors: Option<Vec<SecondaryMonitor>>,
}

/// The configuration: the poll interval in seconds, the catalog of
/// workspaces in priority order, and the commands to run after a switch.
#[derive(Debug, Clone, PartialEq, Eq)]
pub struct Config {
    pub reload_time: u64,
    pub workspaces: Vec<WorkSpace>,
    pub switch_scripts: Option<Vec<String>>,
}

/// The mathematical value of a `SecondaryMonitor`.
pub struct SecondaryMonitorView {
    pub position: MonitorPositions,
    pub monitor_name: Seq<char>,
}

/// The mathematical value of a `WorkSpace`.
pub struct WorkSpaceView {
    pub name: Seq<char>,
    pub primary_monitor: Seq<char>,
    pub secondary_monitors: Option<Seq<SecondaryMonitorView>>,
}

/// The mathematical value of a `Config`.
pub struct ConfigView {
    pub reload_time: u64,
    pub workspaces: Seq<WorkSpaceView>,
    pub switch_scripts: Option<Seq<Seq<char>>>,
}

impl View for SecondaryMonitor {
    type V = SecondaryMonitorView;

    open spec fn view(&self) -> SecondaryMonitorView {
        SecondaryMonitorView { position: self.position, monitor_name: self.monitor_name@ }
    }
}

impl View for WorkSpace {
    type V = WorkSpaceView;

    open spec fn view(&self) -> WorkSpaceView {
        WorkSpaceView {
            name: self.name@,
            primary_monitor: self.primary_monitor@,
            secondary_monitors: match self.secondary_monitors {
                Some(entries) => Some(entry_views(entries@)),
                None => None,
            },
        }
    }
}

impl View for Config {
    type V = ConfigView;

    open spec fn view(&self) -> ConfigView {
        ConfigView {
            reload_time: self.reload_time,
            workspaces: workspace_views(self.workspaces@),
            switch_scripts: match self.switch_scripts {
                Some(scripts) => Some(scripts.deep_view()),
                None => None,
            },
        }
    }
}

/// The mathematical values of a list of entries.
pub open spec fn entry_views(entries: Seq<SecondaryMonitor>) -> Seq<SecondaryMonitorView> {
    entries.map_values(|entry: SecondaryMonitor| entry@)
}

/// The mathematical values of a catalog.
pub open spec fn workspace_views(workspaces: Seq<WorkSpace>) -> Seq<WorkSpaceView> {
    workspaces.map_values(|workspace: WorkSpace| workspace@)
}

/// The monitor names of a list of entries, in the order of the entries.
pub open spec fn names_of(entries: Seq<SecondaryMonitorView>) -> Seq<Seq<char>> {
    entries.map_values(|entry: SecondaryMonitorView| entry.monitor_name)
}

/// The characters of each string of a list of borrowed strings.
pub open spec fn texts_of(names: Seq<&String>) -> Seq<Seq<char>> {
    names.map_values(|name: &String| name@)
}

/// No position occurs twice among `entries`.
pub open spec fn distinct_positions(entries: Seq<SecondaryMonitorView>) -> bool {
    forall|i: int, j: int|
        0 <= i < j < entries.len() ==> (#[trigger] entries[i]).position != (
        #[trigger] entries[j]).position
}

impl WorkSpaceView {
    /// Each position maps to one monitor name.
    pub open spec fn well_formed(self) -> bool {
        match self.secondary_monitors {
            Some(entries) => distinct_positions(entries),
            None => true,
        }
    }
}

impl ConfigView {
    /// Every workspace of the catalog is well formed.
    pub open spec fn well_formed(self) -> bool {
        forall|i: int| 0 <= i < self.workspaces.len() ==> (#[trigger] self.workspaces[i]).well_formed()
    }
}

/// The position that a configuration document's word stands for.
pub open spec fn position_of(word: Seq<char>) -> Result<MonitorPositions, ()> {
    if word == "rightOf"@ {
        Ok(MonitorPositions::RightOf)
    } else if word == "leftOf"@ {
        Ok(MonitorPositions::LeftOf)
    } else {
        Err(())
    }
}

impl MonitorPositions {
    /// Reads a position from its word in a configuration document:
    /// `"rightOf"` or `"leftOf"`. Any other word is an error.
    pub fn get(position: &str) -> (parsed: Result<MonitorPositions, ()>)
        ensures
            parsed == position_of(position@),
    {
        if same_text(position, "rightOf") {
            Ok(MonitorPositions::RightOf)
        } else if same_text(position, "leftOf") {
            Ok(MonitorPositions::LeftOf)
        } else {
            Err(())
        }
    }
}

} // verus!
