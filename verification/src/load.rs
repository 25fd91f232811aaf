//! Loading a configuration from a JSON document.
//!
//! The document holds `reload-time`, `workspaces` and, optionally,
//! `monitor-switch-scripts`. Loading reads the fields in a fixed order and
//! stops at the first fault.

use vstd::prelude::*;

use crate::config::{
    distinct_positions, entry_views, position_of, workspace_views, Config, ConfigView,
    MonitorPositions, SecondaryMonitor, SecondaryMonitorView, WorkSpace, WorkSpaceView,
};
use crate::error::{ConfigField, LoadError};
use crate::json::{
    items_member, json_parsed, json_view, json_views, member_items, member_text, member_unsigned,
    optional_items, optional_items_member, read_document, text_member, unsigned_member, JsonView,
};
use crate::text::same_text;

verus! {

/// The index of the first entry for `position`, or the number of entries
/// when there is none.
pub open spec fn position_index(entries: Seq<SecondaryMonitorView>, position: MonitorPositions) -> int
    decreases entries.len(),
{
    if entries.len() == 0 || entries[0].position == position {
        0
    } else {
        1 + position_index(entries.skip(1), position)
    }
}

/// The mapping `entries` after `entry` is entered: it takes the place of the
/// entry for its position, or comes last when that position is new.
pub open spec fn with_entry(
    entries: Seq<SecondaryMonitorView>,
    entry: SecondaryMonitorView,
) -> Seq<SecondaryMonitorView> {
    let at = position_index(entries, entry.position);
    if at < entries.len() {
        entries.update(at, entry)
    } else {
        entries.push(entry)
    }
}

/// The secondary monitor that an element of `secondary-monitors` describes.
pub open spec fn secondary_monitor_of(value: JsonView) -> Result<
    SecondaryMonitorView,
    LoadError,
> {
    match member_text(value, "position"@, ConfigField::Position) {
        Err(error) => Err(error),
        Ok(word) => match position_of(word) {
            Err(_) => Err(LoadError::UnknownPosition),
            Ok(position) => match member_text(value, "monitor-name"@, ConfigField::MonitorName) {
                Err(error) => Err(error),
                Ok(monitor_name) => Ok(SecondaryMonitorView { position, monitor_name }),
            },
        },
    }
}

/// The mapping that the elements of `secondary-monitors` describe, each
/// entered in turn into the mapping of those before it; or the error of the
/// first element that describes no secondary monitor.
pub open spec fn secondary_monitors_of(items: Seq<JsonView>) -> Result<
    Seq<SecondaryMonitorView>,
    LoadError,
>
    decreases items.len(),
{
    if items.len() == 0 {
        Ok(Seq::empty())
    } else {
        match secondary_monitors_of(items.drop_last()) {
            Err(error) => Err(error),
            Ok(earlier) => match secondary_monitor_of(items.last()) {
                Err(error) => Err(error),
                Ok(entry) => Ok(with_entry(earlier, entry)),
            },
        }
    }
}

/// The primary monitor that a workspace is loaded with, for the name that
/// its document gives and the primary monitor detected at load time. The
/// name `auto` is a placeholder for the detected primary monitor; every
/// other name stands for itself.
pub open spec fn primary_for(written: Seq<char>, detected: Seq<char>) -> Seq<char> {
    if written == "auto"@ {
        detected
    } else {
        written
    }
}

/// The workspace that an element of `workspaces` describes, loaded while
/// `detected` is the primary monitor.
pub open spec fn workspace_of(value: JsonView, detected: Seq<char>) -> Result<
    WorkSpaceView,
    LoadError,
> {
    match member_text(value, "name"@, ConfigField::Name) {
        Err(error) => Err(error),
        Ok(name) => match member_text(value, "primary-monitor"@, ConfigField::PrimaryMonitor) {
            Err(error) => Err(error),
            Ok(primary) => match optional_items(
                value,
                "secondary-monitors"@,
                ConfigField::SecondaryMonitors,
            ) {
                Err(error) => Err(error),
                Ok(None) => Ok(
                    WorkSpaceView {
                        name,
                        primary_monitor: primary_for(primary, detected),
                        secondary_monitors: None,
                    },
                ),
                Ok(Some(items)) => match secondary_monitors_of(items) {
                    Err(error) => Err(error),
                    Ok(entries) => Ok(
                        WorkSpaceView {
                            name,
                            primary_monitor: primary_for(primary, detected),
                            secondary_monitors: Some(entries),
                        },
                    ),
                },
            },
        },
    }
}

/// The catalog that the elements of `workspaces` describe, in their order;
/// or the error of the first element that describes no workspace.
pub open spec fn workspaces_of(items: Seq<JsonView>, detected: Seq<char>) -> Result<
    Seq<WorkSpaceView>,
    LoadError,
>
    decreases items.len(),
{
    if items.len() == 0 {
        Ok(Seq::empty())
    } else {
        match workspaces_of(items.drop_last(), detected) {
            Err(error) => Err(error),
            Ok(earlier) => match workspace_of(items.last(), detected) {
                Err(error) => Err(error),
                Ok(workspace) => Ok(earlier.push(workspace)),
            },
        }
    }
}

/// The commands that the elements of `monitor-switch-scripts` hold, in their
/// order; or an error when one of them is no string.
pub open spec fn scripts_of(items: Seq<JsonView>) -> Result<Seq<Seq<char>>, LoadError>
    decreases items.len(),
{
    if items.len() == 0 {
        Ok(Seq::empty())
    } else {
        match scripts_of(items.drop_last()) {
            Err(error) => Err(error),
            Ok(earlier) => match items.last().text() {
                None => Err(LoadError::WrongType(ConfigField::SwitchScript)),
                Some(script) => Ok(earlier.push(script)),
            },
        }
    }
}

/// The configuration that a document describes, loaded while `detected` is
/// the primary monitor. The fields are read in the order `reload-time`,
/// `workspaces`, `monitor-switch-scripts`, and the first fault decides the
/// error.
pub open spec fn config_of(document: JsonView, detected: Seq<char>) -> Result<
    ConfigView,
    LoadError,
> {
    match member_unsigned(document, "reload-time"@, ConfigField::ReloadTime) {
        Err(error) => Err(error),
        Ok(reload_time) => match member_items(document, "workspaces"@, ConfigField::Workspaces) {
            Err(error) => Err(error),
            Ok(items) => match workspaces_of(items, detected) {
                Err(error) => Err(error),
                Ok(workspaces) => match optional_items(
                    document,
                    "monitor-switch-scripts"@,
                    ConfigField::SwitchScripts,
                ) {
                    Err(error) => Err(error),
                    Ok(None) => Ok(ConfigView { reload_time, workspaces, switch_scripts: None }),
                    Ok(Some(commands)) => match scripts_of(commands) {
                        Err(error) => Err(error),
                        Ok(scripts) => Ok(
                            ConfigView { reload_time, workspaces, switch_scripts: Some(scripts) },
                        ),
                    },
                },
            },
        },
    }
}

/// `position_index` is the least index whose entry is for `position`.
pub proof fn lemma_position_index(entries: Seq<SecondaryMonitorView>, position: MonitorPositions)
    ensures
        0 <= position_index(entries, position) <= entries.len(),
        position_index(entries, position) < entries.len() ==> entries[position_index(
            entries,
            position,
        )].position == position,
        forall|i: int|
            0 <= i < position_index(entries, position) ==> (#[trigger] entries[i]).position
                != position,
    decreases entries.len(),
{
    if entries.len() == 0 || entries[0].position == position {
    } else {
        let rest = entries.skip(1);
        lemma_position_index(rest, position);
        assert forall|i: int| 0 <= i < position_index(entries, position) implies (
        #[trigger] entries[i]).position != position by {
            if i > 0 {
                assert(rest[i - 1] == entries[i]);
            }
        }
    }
}

/// Entering an entry keeps the positions of a mapping distinct.
pub proof fn lemma_with_entry_keeps_distinct(
    entries: Seq<SecondaryMonitorView>,
    entry: SecondaryMonitorView,
)
    requires
        distinct_positions(entries),
    ensures
        distinct_positions(with_entry(entries, entry)),
{
    lemma_position_index(entries, entry.position);
    let at = position_index(entries, entry.position);
    let entered = with_entry(entries, entry);
    assert forall|i: int, j: int| 0 <= i < j < entered.len() implies (
    #[trigger] entered[i]).position != (#[trigger] entered[j]).position by {
        if at < entries.len() {
            assert(entered[i].position == entries[i].position);
            assert(entered[j].position == entries[j].position);
        } else if j < entries.len() {
            assert(entered[i] == entries[i]);
            assert(entered[j] == entries[j]);
        } else {
            assert(entered[i] == entries[i]);
        }
    }
}

/// A mapping read from a document holds no position twice: where a document
/// names a position more than once, the last of those entries stands.
pub proof fn lemma_loaded_positions_are_distinct(items: Seq<JsonView>)
    ensures
        secondary_monitors_of(items) matches Ok(entries) ==> distinct_positions(entries),
    decreases items.len(),
{
    if items.len() > 0 {
        lemma_loaded_positions_are_distinct(items.drop_last());
        match secondary_monitors_of(items.drop_last()) {
            Ok(earlier) => match secondary_monitor_of(items.last()) {
                Ok(entry) => lemma_with_entry_keeps_distinct(earlier, entry),
                Err(_) => {},
            },
            Err(_) => {},
        }
    }
}

/// Every workspace read from a document is well formed.
pub proof fn lemma_loaded_workspace_is_well_formed(value: JsonView, detected: Seq<char>)
    ensures
        workspace_of(value, detected) matches Ok(workspace) ==> workspace.well_formed(),
{
    match optional_items(value, "secondary-monitors"@, ConfigField::SecondaryMonitors) {
        Ok(Some(items)) => lemma_loaded_positions_are_distinct(items),
        _ => {},
    }
}

/// A workspace whose primary monitor is written as `auto` is loaded with the
/// detected primary monitor in its place.
pub proof fn lemma_auto_is_the_detected_primary(value: JsonView, detected: Seq<char>)
    requires
        member_text(value, "primary-monitor"@, ConfigField::PrimaryMonitor) == Ok::<
            Seq<char>,
            LoadError,
        >("auto"@),
    ensures
        workspace_of(value, detected) matches Ok(workspace) ==> workspace.primary_monitor
            == detected,
{
}

/// A workspace whose primary monitor is written as any name but `auto` is
/// loaded with that name, whatever the detected primary monitor is.
pub proof fn lemma_named_primary_is_kept(value: JsonView, detected: Seq<char>)
    requires
        member_text(value, "primary-monitor"@, ConfigField::PrimaryMonitor) matches Ok(primary)
            && primary != "auto"@,
    ensures
        workspace_of(value, detected) matches Ok(workspace) ==> Ok::<Seq<char>, LoadError>(
            workspace.primary_monitor,
        ) == member_text(value, "primary-monitor"@, ConfigField::PrimaryMonitor),
{
}

/// Every configuration read from a document is well formed.
pub proof fn lemma_loaded_config_is_well_formed(document: JsonView, detected: Seq<char>)
    ensures
        config_of(document, detected) matches Ok(config) ==> config.well_formed(),
{
    match member_items(document, "workspaces"@, ConfigField::Workspaces) {
        Ok(items) => lemma_loaded_catalog_is_well_formed(items, detected),
        Err(_) => {},
    }
}

proof fn lemma_loaded_catalog_is_well_formed(items: Seq<JsonView>, detected: Seq<char>)
    ensures
        workspaces_of(items, detected) matches Ok(workspaces) ==> forall|i: int|
            0 <= i < workspaces.len() ==> (#[trigger] workspaces[i]).well_formed(),
    decreases items.len(),
{
    if items.len() > 0 {
        lemma_loaded_catalog_is_well_formed(items.drop_last(), detected);
        lemma_loaded_workspace_is_well_formed(items.last(), detected);
    }
}

/// A fault among the first `count` entries decides the outcome of the whole list.
proof fn lemma_entry_fault_decides(items: Seq<JsonView>, count: int)
    requires
        0 <= count <= items.len(),
        secondary_monitors_of(items.take(count)) is Err,
    ensures
        secondary_monitors_of(items) == secondary_monitors_of(items.take(count)),
    decreases items.len() - count,
{
    if count < items.len() {
        assert(items.take(count + 1).drop_last() =~= items.take(count));
        lemma_entry_fault_decides(items, count + 1);
    } else {
        assert(items.take(count) =~= items);
    }
}

/// A fault among the first `count` workspaces decides the outcome of the whole catalog.
proof fn lemma_workspace_fault_decides(
    items: Seq<JsonView>,
    detected: Seq<char>,
    count: int,
)
    requires
        0 <= count <= items.len(),
        workspaces_of(items.take(count), detected) is Err,
    ensures
        workspaces_of(items, detected) == workspaces_of(items.take(count), detected),
    decreases items.len() - count,
{
    if count < items.len() {
        assert(items.take(count + 1).drop_last() =~= items.take(count));
        lemma_workspace_fault_decides(items, detected, count + 1);
    } else {
        assert(items.take(count) =~= items);
    }
}

/// A fault among the first `count` commands decides the outcome of the whole list.
proof fn lemma_script_fault_decides(items: Seq<JsonView>, count: int)
    requires
        0 <= count <= items.len(),
        scripts_of(items.take(count)) is Err,
    ensures
        scripts_of(items) == scripts_of(items.take(count)),
    decreases items.len() - count,
{
    if count < items.len() {
        assert(items.take(count + 1).drop_last() =~= items.take(count));
        lemma_script_fault_decides(items, count + 1);
    } else {
        assert(items.take(count) =~= items);
    }
}

/// Enters `entry` into the mapping `entries`.
fn enter(entries: &mut Vec<SecondaryMonitor>, entry: SecondaryMonitor)
    ensures
        entry_views(final(entries)@) == with_entry(entry_views(old(entries)@), entry@),
{
    let ghost before = entry_views(entries@);
    let mut at: usize = 0;
    while at < entries.len()
        invariant
            at <= entries@.len(),
            before == entry_views(entries@),
            before == entry_views(old(entries)@),
            forall|i: int| 0 <= i < at ==> (#[trigger] before[i]).position != entry.position,
        decreases entries@.len() - at,
    {
        if entries[at].position == entry.position {
            proof {
                lemma_position_index(before, entry.position);
                assert(before[at as int].position == entry.position);
            }
            let ghost entered = entry@;
            entries.set(at, entry);
            assert(entry_views(entries@) =~= before.update(at as int, entered));
            return ;
        }
        at = at + 1;
    }
    proof {
        lemma_position_index(before, entry.position);
    }
    let ghost entered = entry@;
    entries.push(entry);
    assert(entry_views(entries@) =~= before.push(entered));
}

/// Reads one element of `secondary-monitors`.
fn secondary_monitor_from(value: &serde_json::Value) -> (made: Result<SecondaryMonitor, LoadError>)
    ensures
        match made {
            Ok(entry) => secondary_monitor_of(json_view(*value)) == Ok::<
                SecondaryMonitorView,
                LoadError,
            >(entry@),
            Err(error) => secondary_monitor_of(json_view(*value)) == Err::<
                SecondaryMonitorView,
                LoadError,
            >(error),
        },
{
    let word = match text_member(value, "position", ConfigField::Position) {
        Ok(word) => word,
        Err(error) => return Err(error),
    };
    let position = match MonitorPositions::get(word) {
        Ok(position) => position,
        Err(_) => return Err(LoadError::UnknownPosition),
    };
    let monitor_name = match text_member(value, "monitor-name", ConfigField::MonitorName) {
        Ok(monitor_name) => monitor_name,
        Err(error) => return Err(error),
    };
    Ok(SecondaryMonitor { position, monitor_name: monitor_name.to_owned() })
}

/// Reads the elements of `secondary-monitors`.
fn secondary_monitors_from(items: &Vec<serde_json::Value>) -> (made: Result<
    Vec<SecondaryMonitor>,
    LoadError,
>)
    ensures
        match made {
            Ok(entries) => secondary_monitors_of(json_views(items@)) == Ok::<
                Seq<SecondaryMonitorView>,
                LoadError,
            >(entry_views(entries@)),
            Err(error) => secondary_monitors_of(json_views(items@)) == Err::<
                Seq<SecondaryMonitorView>,
                LoadError,
            >(error),
        },
{
    let ghost documents = json_views(items@);
    let mut entries: Vec<SecondaryMonitor> = Vec::new();
    let mut at: usize = 0;
    assert(entry_views(entries@) =~= Seq::empty());
    while at < items.len()
        invariant
            at <= items@.len(),
            documents == json_views(items@),
            secondary_monitors_of(documents.take(at as int)) == Ok::<
                Seq<SecondaryMonitorView>,
                LoadError,
            >(entry_views(entries@)),
        decreases items@.len() - at,
    {
        proof {
            assert(documents.take(at + 1).drop_last() =~= documents.take(at as int));
            assert(documents.take(at + 1).last() == json_view(items@[at as int]));
        }
        match secondary_monitor_from(&items[at]) {
            Ok(entry) => enter(&mut entries, entry),
            Err(error) => {
                proof {
                    lemma_entry_fault_decides(documents, at + 1);
                }
                return Err(error);
            },
        }
        at = at + 1;
    }
    assert(documents.take(at as int) =~= documents);
    Ok(entries)
}

/// Reads the elements of `workspaces`.
fn workspaces_from(items: &Vec<serde_json::Value>, detected_primary: &str) -> (made: Result<
    Vec<WorkSpace>,
    LoadError,
>)
    ensures
        match made {
            Ok(workspaces) => workspaces_of(json_views(items@), detected_primary@) == Ok::<
                Seq<WorkSpaceView>,
                LoadError,
            >(workspace_views(workspaces@)),
            Err(error) => workspaces_of(json_views(items@), detected_primary@) == Err::<
                Seq<WorkSpaceView>,
                LoadError,
            >(error),
        },
{
    let ghost documents = json_views(items@);
    let mut workspaces: Vec<WorkSpace> = Vec::new();
    let mut at: usize = 0;
    assert(workspace_views(workspaces@) =~= Seq::empty());
    while at < items.len()
        invariant
            at <= items@.len(),
            documents == json_views(items@),
            workspaces_of(documents.take(at as int), detected_primary@) == Ok::<
                Seq<WorkSpaceView>,
                LoadError,
            >(workspace_views(workspaces@)),
        decreases items@.len() - at,
    {
        proof {
            assert(documents.take(at + 1).drop_last() =~= documents.take(at as int));
            assert(documents.take(at + 1).last() == json_view(items@[at as int]));
        }
        match WorkSpace::create(&items[at], detected_primary) {
            Ok(workspace) => {
                let ghost earlier = workspace_views(workspaces@);
                let ghost loaded = workspace@;
                workspaces.push(workspace);
                assert(workspace_views(workspaces@) =~= earlier.push(loaded));
            },
            Err(error) => {
                proof {
                    lemma_workspace_fault_decides(documents, detected_primary@, at + 1);
                }
                return Err(error);
            },
        }
        at = at + 1;
    }
    assert(documents.take(at as int) =~= documents);
    Ok(workspaces)
}

/// Reads the elements of `monitor-switch-scripts`.
fn scripts_from(items: &Vec<serde_json::Value>) -> (made: Result<Vec<String>, LoadError>)
    ensures
        match made {
            Ok(scripts) => scripts_of(json_views(items@)) == Ok::<Seq<Seq<char>>, LoadError>(
                scripts.deep_view(),
            ),
            Err(error) => scripts_of(json_views(items@)) == Err::<Seq<Seq<char>>, LoadError>(
                error,
            ),
        },
{
    let ghost documents = json_views(items@);
    let mut scripts: Vec<String> = Vec::new();
    let mut at: usize = 0;
    assert(scripts.deep_view() =~= Seq::empty());
    while at < items.len()
        invariant
            at <= items@.len(),
            documents == json_views(items@),
            scripts_of(documents.take(at as int)) == Ok::<Seq<Seq<char>>, LoadError>(
                scripts.deep_view(),
            ),
        decreases items@.len() - at,
    {
        proof {
            assert(documents.take(at + 1).drop_last() =~= documents.take(at as int));
            assert(documents.take(at + 1).last() == json_view(items@[at as int]));
        }
        match items[at].as_str() {
            Some(script) => {
                let ghost earlier = scripts.deep_view();
                scripts.push(script.to_owned());
                assert(scripts.deep_view() =~= earlier.push(script@));
            },
            None => {
                proof {
                    lemma_script_fault_decides(documents, at + 1);
                }
                return Err(LoadError::WrongType(ConfigField::SwitchScript));
            },
        }
        at = at + 1;
    }
    assert(documents.take(at as int) =~= documents);
    Ok(scripts)
}

impl WorkSpace {
    /// Reads a workspace from an element of `workspaces`, while
    /// `detected_primary` is the primary monitor.
    ///
    /// The element must hold the strings `name` and `primary-monitor`. A
    /// primary monitor written as `auto` is a placeholder for
    /// `detected_primary`; any other name is kept as it is written. Where the
    /// element holds `secondary-monitors`, that must be an array of objects
    /// with a `position` and a `monitor-name`; a later entry for a position
    /// replaces an earlier one.
    pub fn create(value: &serde_json::Value, detected_primary: &str) -> (made: Result<
        WorkSpace,
        LoadError,
    >)
        ensures
            match made {
                Ok(workspace) => workspace_of(json_view(*value), detected_primary@) == Ok::<
                    WorkSpaceView,
                    LoadError,
                >(workspace@) && workspace@.well_formed(),
                Err(error) => workspace_of(json_view(*value), detected_primary@) == Err::<
                    WorkSpaceView,
                    LoadError,
                >(error),
            },
    {
        proof {
            lemma_loaded_workspace_is_well_formed(json_view(*value), detected_primary@);
        }
        let name = match text_member(value, "name", ConfigField::Name) {
            Ok(name) => name,
            Err(error) => return Err(error),
        };
        let primary = match text_member(value, "primary-monitor", ConfigField::PrimaryMonitor) {
            Ok(primary) => primary,
            Err(error) => return Err(error),
        };
        let listed = match optional_items_member(
            value,
            "secondary-monitors",
            ConfigField::SecondaryMonitors,
        ) {
            Ok(listed) => listed,
            Err(error) => return Err(error),
        };
        let secondary_monitors = match listed {
            Some(items) => match secondary_monitors_from(items) {
                Ok(entries) => Some(entries),
                Err(error) => return Err(error),
            },
            None => None,
        };
        let primary_monitor = if same_text(primary, "auto") {
            detected_primary.to_owned()
        } else {
            primary.to_owned()
        };
        Ok(WorkSpace { name: name.to_owned(), primary_monitor, secondary_monitors })
    }
}

/// Reads a configuration document.
///
/// Returns the JSON value that the bytes spell, or `LoadError::Malformed`
/// when they spell none.
pub fn get_config_json(document: &[u8]) -> (parsed: Result<serde_json::Value, LoadError>)
    ensures
        match parsed {
            Ok(value) => json_parsed(document@) == Some(json_view(value)),
            Err(error) => error == LoadError::Malformed && json_parsed(document@) is None,
        },
{
    match read_document(document) {
        Ok(value) => Ok(value),
        Err(_) => Err(LoadError::Malformed),
    }
}

impl Config {
    /// Builds the configuration that the document `config` describes, while
    /// `detected_primary` is the primary monitor.
    ///
    /// The document must hold the unsigned number `reload-time` and the array
    /// `workspaces`; it may hold the array of strings
    /// `monitor-switch-scripts`. The fields are read in that order, and the
    /// first fault decides the error.
    pub fn get(config: serde_json::Value, detected_primary: &str) -> (made: Result<
        Config,
        LoadError,
    >)
        ensures
            match made {
                Ok(loaded) => config_of(json_view(config), detected_primary@) == Ok::<
                    ConfigView,
                    LoadError,
                >(loaded@) && loaded@.well_formed(),
                Err(error) => config_of(json_view(config), detected_primary@) == Err::<
                    ConfigView,
                    LoadError,
                >(error),
            },
    {
        proof {
            lemma_loaded_config_is_well_formed(json_view(config), detected_primary@);
        }
        let reload_time = match unsigned_member(&config, "reload-time", ConfigField::ReloadTime) {
            Ok(reload_time) => reload_time,
            Err(error) => return Err(error),
        };
        let items = match items_member(&config, "workspaces", ConfigField::Workspaces) {
            Ok(items) => items,
            Err(error) => return Err(error),
        };
        let workspaces = match workspaces_from(items, detected_primary) {
            Ok(workspaces) => workspaces,
            Err(error) => return Err(error),
        };
        let listed = match optional_items_member(
            &config,
            "monitor-switch-scripts",
            ConfigField::SwitchScripts,
        ) {
            Ok(listed) => listed,
            Err(error) => return Err(error),
        };
        let switch_scripts = match listed {
            Some(commands) => match scripts_from(commands) {
                Ok(scripts) => Some(scripts),
                Err(error) => return Err(error),
            },
            None => None,
        };
        Ok(Config { reload_time, workspaces, switch_scripts })
    }
}

} // verus!
