use monitor_manager::config::{
    get_config_json, Config, MonitorPositions, SecondaryMonitor, WorkSpace,
};
use monitor_manager::error::{ConfigField, LoadError};

fn json(text: &str) -> serde_json::Value {
    serde_json::from_str(text).unwrap()
}

fn entry(position: MonitorPositions, name: &str) -> SecondaryMonitor {
    SecondaryMonitor { position, monitor_name: name.to_string() }
}

const FULL: &str = r#"{
    "reload-time": 5,
    "workspaces": [
        {
            "name": "dual",
            "primary-monitor": "eDP-1",
            "secondary-monitors": [
                { "position": "leftOf", "monitor-name": "HDMI-1" },
                { "position": "rightOf", "monitor-name": "DP-1" }
            ]
        },
        { "name": "single", "primary-monitor": "auto" }
    ],
    "monitor-switch-scripts": ["feh --bg-scale wall.png", "notify-send switched"]
}"#;

#[test]
fn full_document_loads() {
    let config = Config::get(json(FULL), "M1").unwrap();
    assert_eq!(
        config,
        Config {
            reload_time: 5,
            workspaces: vec![
                WorkSpace {
                    name: "dual".to_string(),
                    primary_monitor: "eDP-1".to_string(),
                    secondary_monitors: Some(vec![
                        entry(MonitorPositions::LeftOf, "HDMI-1"),
                        entry(MonitorPositions::RightOf, "DP-1"),
                    ]),
                },
                WorkSpace {
                    name: "single".to_string(),
                    primary_monitor: "M1".to_string(),
                    secondary_monitors: None,
                },
            ],
            switch_scripts: Some(vec![
                "feh --bg-scale wall.png".to_string(),
                "notify-send switched".to_string(),
            ]),
        }
    );
}

#[test]
fn bytes_are_parsed_into_the_document_they_spell() {
    let parsed = get_config_json(FULL.as_bytes()).unwrap();
    assert_eq!(parsed, json(FULL));
    assert_eq!(parsed.get("reload-time").and_then(|value| value.as_u64()), Some(5));
    let loaded = Config::get(parsed, "M1").unwrap();
    assert_eq!(loaded.workspaces.len(), 2);
}

#[test]
fn malformed_bytes_are_rejected() {
    assert_eq!(get_config_json(b"{ \"reload-time\": "), Err(LoadError::Malformed));
    assert_eq!(get_config_json(b""), Err(LoadError::Malformed));
    assert_eq!(get_config_json(b"{} trailing"), Err(LoadError::Malformed));
    assert_eq!(get_config_json(&[0xff, 0xfe]), Err(LoadError::Malformed));
}

#[test]
fn auto_becomes_the_detected_primary() {
    let value = json(r#"{ "name": "any", "primary-monitor": "auto" }"#);
    let workspace = WorkSpace::create(&value, "M1").unwrap();
    assert_eq!(
        workspace,
        WorkSpace {
            name: "any".to_string(),
            primary_monitor: "M1".to_string(),
            secondary_monitors: None,
        }
    );
}

#[test]
fn named_primary_is_kept() {
    let value = json(r#"{ "name": "any", "primary-monitor": "eDP-1" }"#);
    let workspace = WorkSpace::create(&value, "M1").unwrap();
    assert_eq!(workspace.primary_monitor, "eDP-1");
}

#[test]
fn only_the_whole_name_auto_is_a_placeholder() {
    let value = json(r#"{ "name": "w", "primary-monitor": "automatic" }"#);
    assert_eq!(WorkSpace::create(&value, "M1").unwrap().primary_monitor, "automatic");
    for written in
        ["auto-1", "xautoy", "autoauto", "aauto", "auto ", " auto", "aut", "AUTO", "Auto", ""]
    {
        let value = json(&format!(r#"{{ "name": "n", "primary-monitor": "{written}" }}"#));
        let workspace = WorkSpace::create(&value, "M1").unwrap();
        assert_eq!(workspace.primary_monitor, written);
    }
}

#[test]
fn auto_stands_for_whatever_is_detected() {
    let value = json(r#"{ "name": "n", "primary-monitor": "auto" }"#);
    assert_eq!(WorkSpace::create(&value, "eDP-1").unwrap().primary_monitor, "eDP-1");
    assert_eq!(WorkSpace::create(&value, "auto").unwrap().primary_monitor, "auto");
    assert_eq!(WorkSpace::create(&value, "automatic").unwrap().primary_monitor, "automatic");
    assert_eq!(WorkSpace::create(&value, "").unwrap().primary_monitor, "");
}

#[test]
fn every_workspace_written_as_auto_gets_the_detected_primary() {
    let config = Config::get(
        json(
            r#"{ "reload-time": 1, "workspaces": [
                 { "name": "a", "primary-monitor": "auto" },
                 { "name": "b", "primary-monitor": "automatic" },
                 { "name": "c", "primary-monitor": "auto",
                   "secondary-monitors": [{ "position": "rightOf", "monitor-name": "M2" }] } ] }"#,
        ),
        "M1",
    )
    .unwrap();
    let primaries: Vec<&str> =
        config.workspaces.iter().map(|workspace| workspace.primary_monitor.as_str()).collect();
    assert_eq!(primaries, vec!["M1", "automatic", "M1"]);
}

#[test]
fn auto_in_other_fields_is_kept() {
    let value = json(
        r#"{ "name": "auto", "primary-monitor": "P",
             "secondary-monitors": [{ "position": "leftOf", "monitor-name": "auto" }] }"#,
    );
    let workspace = WorkSpace::create(&value, "M1").unwrap();
    assert_eq!(workspace.name, "auto");
    assert_eq!(
        workspace.secondary_monitors,
        Some(vec![entry(MonitorPositions::LeftOf, "auto")])
    );
}

#[test]
fn later_entry_for_a_position_replaces_the_earlier_one() {
    let value = json(
        r#"{ "name": "n", "primary-monitor": "P", "secondary-monitors": [
            { "position": "leftOf", "monitor-name": "first" },
            { "position": "rightOf", "monitor-name": "other" },
            { "position": "leftOf", "monitor-name": "second" }
        ] }"#,
    );
    let workspace = WorkSpace::create(&value, "M1").unwrap();
    assert_eq!(
        workspace.secondary_monitors,
        Some(vec![
            entry(MonitorPositions::LeftOf, "second"),
            entry(MonitorPositions::RightOf, "other"),
        ])
    );
}

#[test]
fn empty_secondary_array_is_an_empty_mapping() {
    let value = json(r#"{ "name": "n", "primary-monitor": "P", "secondary-monitors": [] }"#);
    let workspace = WorkSpace::create(&value, "M1").unwrap();
    assert_eq!(workspace.secondary_monitors, Some(vec![]));
}

#[test]
fn optional_fields_may_be_absent() {
    let config = Config::get(json(r#"{ "reload-time": 0, "workspaces": [] }"#), "M1").unwrap();
    assert_eq!(config, Config { reload_time: 0, workspaces: vec![], switch_scripts: None });
    let config = Config::get(
        json(r#"{ "reload-time": 18446744073709551615, "workspaces": [], "monitor-switch-scripts": [] }"#),
        "M1",
    )
    .unwrap();
    assert_eq!(
        config,
        Config { reload_time: u64::MAX, workspaces: vec![], switch_scripts: Some(vec![]) }
    );
}

#[test]
fn unknown_fields_are_ignored() {
    let config = Config::get(
        json(r#"{ "reload-time": 2, "workspaces": [{ "name": "n", "primary-monitor": "P", "x": 1 }], "y": [] }"#),
        "M1",
    )
    .unwrap();
    assert_eq!(config.reload_time, 2);
    assert_eq!(config.workspaces[0].name, "n");
}

fn load_error(document: &str) -> LoadError {
    Config::get(json(document), "M1").unwrap_err()
}

#[test]
fn missing_fields_are_named() {
    assert_eq!(
        load_error(r#"{ "workspaces": [] }"#),
        LoadError::MissingField(ConfigField::ReloadTime)
    );
    assert_eq!(
        load_error(r#"{ "reload-time": 5 }"#),
        LoadError::MissingField(ConfigField::Workspaces)
    );
    assert_eq!(
        load_error(r#"{ "reload-time": 5, "workspaces": [{ "primary-monitor": "P" }] }"#),
        LoadError::MissingField(ConfigField::Name)
    );
    assert_eq!(
        load_error(r#"{ "reload-time": 5, "workspaces": [{ "name": "n" }] }"#),
        LoadError::MissingField(ConfigField::PrimaryMonitor)
    );
    assert_eq!(
        load_error(
            r#"{ "reload-time": 5, "workspaces": [{ "name": "n", "primary-monitor": "P",
                 "secondary-monitors": [{ "monitor-name": "M2" }] }] }"#
        ),
        LoadError::MissingField(ConfigField::Position)
    );
    assert_eq!(
        load_error(
            r#"{ "reload-time": 5, "workspaces": [{ "name": "n", "primary-monitor": "P",
                 "secondary-monitors": [{ "position": "leftOf" }] }] }"#
        ),
        LoadError::MissingField(ConfigField::MonitorName)
    );
}

#[test]
fn wrong_types_are_named() {
    assert_eq!(
        load_error(r#"{ "reload-time": "5", "workspaces": [] }"#),
        LoadError::WrongType(ConfigField::ReloadTime)
    );
    assert_eq!(
        load_error(r#"{ "reload-time": -5, "workspaces": [] }"#),
        LoadError::WrongType(ConfigField::ReloadTime)
    );
    assert_eq!(
        load_error(r#"{ "reload-time": 5.0, "workspaces": [] }"#),
        LoadError::WrongType(ConfigField::ReloadTime)
    );
    assert_eq!(
        load_error(r#"{ "reload-time": 1e2, "workspaces": [] }"#),
        LoadError::WrongType(ConfigField::ReloadTime)
    );
    assert_eq!(
        load_error(r#"{ "reload-time": 18446744073709551616, "workspaces": [] }"#),
        LoadError::WrongType(ConfigField::ReloadTime)
    );
    assert_eq!(
        load_error(r#"{ "reload-time": true, "workspaces": [] }"#),
        LoadError::WrongType(ConfigField::ReloadTime)
    );
    assert_eq!(
        load_error(r#"{ "reload-time": 5, "workspaces": {} }"#),
        LoadError::WrongType(ConfigField::Workspaces)
    );
    assert_eq!(
        load_error(r#"{ "reload-time": 5, "workspaces": [{ "name": 1, "primary-monitor": "P" }] }"#),
        LoadError::WrongType(ConfigField::Name)
    );
    assert_eq!(
        load_error(r#"{ "reload-time": 5, "workspaces": [{ "name": "n", "primary-monitor": null }] }"#),
        LoadError::WrongType(ConfigField::PrimaryMonitor)
    );
    assert_eq!(
        load_error(
            r#"{ "reload-time": 5, "workspaces": [{ "name": "n", "primary-monitor": "P",
                 "secondary-monitors": "M2" }] }"#
        ),
        LoadError::WrongType(ConfigField::SecondaryMonitors)
    );
    assert_eq!(
        load_error(
            r#"{ "reload-time": 5, "workspaces": [{ "name": "n", "primary-monitor": "P",
                 "secondary-monitors": [{ "position": 1, "monitor-name": "M2" }] }] }"#
        ),
        LoadError::WrongType(ConfigField::Position)
    );
    assert_eq!(
        load_error(
            r#"{ "reload-time": 5, "workspaces": [{ "name": "n", "primary-monitor": "P",
                 "secondary-monitors": [{ "position": "leftOf", "monitor-name": ["M2"] }] }] }"#
        ),
        LoadError::WrongType(ConfigField::MonitorName)
    );
    assert_eq!(
        load_error(r#"{ "reload-time": 5, "workspaces": [], "monitor-switch-scripts": "ls" }"#),
        LoadError::WrongType(ConfigField::SwitchScripts)
    );
    assert_eq!(
        load_error(r#"{ "reload-time": 5, "workspaces": [], "monitor-switch-scripts": ["ls", 3] }"#),
        LoadError::WrongType(ConfigField::SwitchScript)
    );
}

#[test]
fn documents_that_are_no_objects_lack_every_field() {
    assert_eq!(load_error("[]"), LoadError::MissingField(ConfigField::ReloadTime));
    assert_eq!(load_error("5"), LoadError::MissingField(ConfigField::ReloadTime));
    assert_eq!(
        load_error(r#"{ "reload-time": 5, "workspaces": ["n"] }"#),
        LoadError::MissingField(ConfigField::Name)
    );
    assert_eq!(
        load_error(
            r#"{ "reload-time": 5, "workspaces": [{ "name": "n", "primary-monitor": "P",
                 "secondary-monitors": ["M2"] }] }"#
        ),
        LoadError::MissingField(ConfigField::Position)
    );
}

#[test]
fn unknown_position_is_rejected() {
    assert_eq!(
        load_error(
            r#"{ "reload-time": 5, "workspaces": [{ "name": "n", "primary-monitor": "P",
                 "secondary-monitors": [{ "position": "above", "monitor-name": "M2" }] }] }"#
        ),
        LoadError::UnknownPosition
    );
    let value = json(
        r#"{ "name": "n", "primary-monitor": "P",
             "secondary-monitors": [{ "position": "LeftOf", "monitor-name": "M2" }] }"#,
    );
    assert_eq!(WorkSpace::create(&value, "M1"), Err(LoadError::UnknownPosition));
}

#[test]
fn first_fault_decides_the_error() {
    assert_eq!(
        load_error(r#"{ "reload-time": "x", "workspaces": 1, "monitor-switch-scripts": 2 }"#),
        LoadError::WrongType(ConfigField::ReloadTime)
    );
    assert_eq!(
        load_error(r#"{ "reload-time": 1, "workspaces": 1, "monitor-switch-scripts": 2 }"#),
        LoadError::WrongType(ConfigField::Workspaces)
    );
    assert_eq!(
        load_error(
            r#"{ "reload-time": 1, "monitor-switch-scripts": 2, "workspaces": [
                 { "name": "ok", "primary-monitor": "P" },
                 { "name": "bad" },
                 { "primary-monitor": "P" } ] }"#
        ),
        LoadError::MissingField(ConfigField::PrimaryMonitor)
    );
    assert_eq!(
        load_error(
            r#"{ "reload-time": 1, "workspaces": [{ "name": "n", "primary-monitor": "P",
                 "secondary-monitors": [
                    { "position": "leftOf", "monitor-name": "M2" },
                    { "position": "above" },
                    { "monitor-name": "M3" } ] }] }"#
        ),
        LoadError::UnknownPosition
    );
    assert_eq!(
        load_error(
            r#"{ "reload-time": 1, "workspaces": [{ "primary-monitor": 3,
                 "secondary-monitors": 4 }] }"#
        ),
        LoadError::MissingField(ConfigField::Name)
    );
}

#[test]
fn workspace_faults_are_reported_by_create() {
    assert_eq!(
        WorkSpace::create(&json(r#"{ "primary-monitor": "P" }"#), "M1"),
        Err(LoadError::MissingField(ConfigField::Name))
    );
    assert_eq!(
        WorkSpace::create(&json(r#"{ "name": "n", "primary-monitor": 7 }"#), "M1"),
        Err(LoadError::WrongType(ConfigField::PrimaryMonitor))
    );
    assert_eq!(
        WorkSpace::create(&json("null"), "M1"),
        Err(LoadError::MissingField(ConfigField::Name))
    );
}
