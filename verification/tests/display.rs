use monitor_manager::config::{MonitorPositions, SecondaryMonitor, WorkSpace};
use monitor_manager::display::{
    compose_command_line, get_monitor_names, reconcile, update_outputs, Directive,
};

fn entry(position: MonitorPositions, name: &str) -> SecondaryMonitor {
    SecondaryMonitor { position, monitor_name: name.to_string() }
}

fn by_lines(report: &str) -> Vec<String> {
    report
        .lines()
        .filter(|line| line.contains(" connected"))
        .map(|line| String::from(line.split(" ").collect::<Vec<&str>>()[0]))
        .collect()
}

const REPORT: &str = "Screen 0: minimum 8 x 8, current 3840 x 1080, maximum 32767 x 32767
eDP-1 connected primary 1920x1080+0+0 (normal left inverted right x axis y axis) 344mm x 194mm
   1920x1080     60.02*+  48.00
HDMI-1 disconnected (normal left inverted right x axis y axis)
DP-1 connected 1920x1080+1920+0 (normal left inverted right x axis y axis) 527mm x 296mm
   1920x1080     60.00*+
DP-2 disconnected (normal left inverted right x axis y axis)
";

#[test]
fn connected_monitors_are_read_in_order() {
    assert_eq!(get_monitor_names(REPORT), vec!["eDP-1".to_string(), "DP-1".to_string()]);
}

#[test]
fn report_without_connected_monitors_names_none() {
    assert_eq!(get_monitor_names(""), Vec::<String>::new());
    assert_eq!(get_monitor_names("\n\n"), Vec::<String>::new());
    assert_eq!(get_monitor_names("HDMI-1 disconnected\nconnected\n"), Vec::<String>::new());
    assert_eq!(get_monitor_names("HDMI-1 connecte"), Vec::<String>::new());
}

#[test]
fn last_line_needs_no_line_feed() {
    assert_eq!(get_monitor_names("A connected"), vec!["A".to_string()]);
    assert_eq!(get_monitor_names("A connected\nB connected"), vec!["A".to_string(), "B".to_string()]);
}

#[test]
fn name_is_what_stands_before_the_first_space() {
    assert_eq!(get_monitor_names(" connected\n"), vec!["".to_string()]);
    assert_eq!(get_monitor_names("a b connected\n"), vec!["a".to_string()]);
    assert_eq!(get_monitor_names("  x connected\n"), vec!["".to_string()]);
    assert_eq!(get_monitor_names("écran-1 connected é\n"), vec!["écran-1".to_string()]);
    assert_eq!(get_monitor_names("A\tB connected\n"), vec!["A\tB".to_string()]);
}

#[test]
fn marker_does_not_span_lines() {
    assert_eq!(get_monitor_names("A conn\nected\n"), Vec::<String>::new());
    assert_eq!(get_monitor_names("A \nconnected\n"), Vec::<String>::new());
}

#[test]
fn reading_agrees_with_splitting_into_lines() {
    let reports = [
        REPORT,
        "",
        "\n",
        "A connected",
        "A connected\r\nB disconnected\r\nC connected\r\n",
        "A connected\r",
        " connected\r\n",
        "A connected\n\nB connected\n\n",
        "x\ny connected z\n connected\nq  connected connected\n",
        "A  connected\nB\u{a0}connected\nC connected",
        "only\nnoise\n",
    ];
    for report in reports {
        assert_eq!(get_monitor_names(report), by_lines(report));
    }
}

#[test]
fn primary_is_activated_first() {
    let workspace = WorkSpace {
        name: "w".to_string(),
        primary_monitor: "M1".to_string(),
        secondary_monitors: Some(vec![entry(MonitorPositions::LeftOf, "M2")]),
    };
    assert_eq!(
        reconcile(&workspace),
        vec![
            Directive::Primary { monitor: "M1".to_string() },
            Directive::Secondary {
                monitor: "M2".to_string(),
                position: MonitorPositions::LeftOf,
                relative_to: "M1".to_string(),
            },
        ]
    );
}

#[test]
fn one_directive_for_each_secondary_entry() {
    let workspace = WorkSpace {
        name: "w".to_string(),
        primary_monitor: "M1".to_string(),
        secondary_monitors: Some(vec![
            entry(MonitorPositions::RightOf, "M3"),
            entry(MonitorPositions::LeftOf, "M2"),
        ]),
    };
    assert_eq!(
        reconcile(&workspace),
        vec![
            Directive::Primary { monitor: "M1".to_string() },
            Directive::Secondary {
                monitor: "M3".to_string(),
                position: MonitorPositions::RightOf,
                relative_to: "M1".to_string(),
            },
            Directive::Secondary {
                monitor: "M2".to_string(),
                position: MonitorPositions::LeftOf,
                relative_to: "M1".to_string(),
            },
        ]
    );
}

#[test]
fn workspace_without_secondaries_is_left_to_detection() {
    let workspace = WorkSpace {
        name: "w".to_string(),
        primary_monitor: "M1".to_string(),
        secondary_monitors: None,
    };
    assert_eq!(reconcile(&workspace), vec![Directive::AutoDetect]);
}

#[test]
fn empty_mapping_activates_the_primary_alone() {
    let workspace = WorkSpace {
        name: "w".to_string(),
        primary_monitor: "M1".to_string(),
        secondary_monitors: Some(vec![]),
    };
    assert_eq!(reconcile(&workspace), vec![Directive::Primary { monitor: "M1".to_string() }]);
}

#[test]
fn directive_arguments() {
    assert_eq!(Directive::AutoDetect.arguments(), vec!["--auto"]);
    assert_eq!(
        Directive::Primary { monitor: "M1".to_string() }.arguments(),
        vec!["--output", "M1", "--auto", "--primary"]
    );
    assert_eq!(
        Directive::Secondary {
            monitor: "M2".to_string(),
            position: MonitorPositions::LeftOf,
            relative_to: "M1".to_string(),
        }
        .arguments(),
        vec!["--output", "M2", "--auto", "--left-of", "M1"]
    );
    assert_eq!(
        Directive::Secondary {
            monitor: "M3".to_string(),
            position: MonitorPositions::RightOf,
            relative_to: "M1".to_string(),
        }
        .arguments(),
        vec!["--output", "M3", "--auto", "--right-of", "M1"]
    );
}

#[test]
fn command_line_for_a_layout() {
    let secondaries = Some(vec![
        entry(MonitorPositions::LeftOf, "M2"),
        entry(MonitorPositions::RightOf, "M3"),
    ]);
    assert_eq!(
        update_outputs(&"M1".to_string(), &secondaries),
        vec![
            "--output", "M1", "--auto", "--primary", "--output", "M2", "--auto", "--left-of",
            "M1", "--output", "M3", "--auto", "--right-of", "M1",
        ]
    );
    assert_eq!(
        update_outputs(&"M1".to_string(), &Some(vec![])),
        vec!["--output", "M1", "--auto", "--primary"]
    );
    assert_eq!(update_outputs(&"M1".to_string(), &None), vec!["--auto"]);
}

#[test]
fn command_line_for_directives() {
    assert_eq!(compose_command_line(&vec![]), Vec::<String>::new());
    assert_eq!(
        compose_command_line(&vec![Directive::AutoDetect, Directive::AutoDetect]),
        vec!["--auto", "--auto"]
    );
    let workspace = WorkSpace {
        name: "w".to_string(),
        primary_monitor: "M1".to_string(),
        secondary_monitors: Some(vec![entry(MonitorPositions::RightOf, "M2")]),
    };
    assert_eq!(
        compose_command_line(&reconcile(&workspace)),
        update_outputs(&workspace.primary_monitor, &workspace.secondary_monitors)
    );
    assert_eq!(
        compose_command_line(&reconcile(&workspace)),
        vec!["--output", "M1", "--auto", "--primary", "--output", "M2", "--auto", "--right-of", "M1"]
    );
}
