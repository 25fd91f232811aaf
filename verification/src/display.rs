//! The display tool: reading its report and composing its command line.
//!
//! The tool's report lists one output per line; the connected ones carry the
//! word `connected` after their name. A layout is handed to the tool as a
//! sequence of directives, each of which becomes a group of arguments.

use vstd::prelude::*;

use crate::config::{
    entry_views, MonitorPositions, SecondaryMonitor, SecondaryMonitorView, WorkSpace, WorkSpaceView,
};
use crate::text::{
    chars_of, find_char, first_index_of, found_between, lemma_first_index_of,
    lemma_first_index_of_unique, occurs_in,
};

verus! {

/// One instruction to the display tool.
#[derive(Debug, Clone, PartialEq, Eq)]
pub enum Directive {
    /// Detect what is connected and activate it; no roles are assigned.
    AutoDetect,
    /// Activate `monitor` as the primary monitor.
    Primary { monitor: String },
    /// Activate `monitor` at `position` relative to the primary monitor
    /// `relative_to`.
    Secondary { monitor: String, position: MonitorPositions, relative_to: String },
}

/// The mathematical value of a `Directive`.
pub enum DirectiveView {
    AutoDetect,
    Primary { monitor: Seq<char> },
    Secondary { monitor: Seq<char>, position: MonitorPositions, relative_to: Seq<char> },
}

impl View for Directive {
    type V = DirectiveView;

    open spec fn view(&self) -> DirectiveView {
        match self {
            Directive::AutoDetect => DirectiveView::AutoDetect,
            Directive::Primary { monitor } => DirectiveView::Primary { monitor: monitor@ },
            Directive::Secondary { monitor, position, relative_to } => DirectiveView::Secondary {
                monitor: monitor@,
                position: *position,
                relative_to: relative_to@,
            },
        }
    }
}

/// The mathematical values of a list of directives.
pub open spec fn directive_views(directives: Seq<Directive>) -> Seq<DirectiveView> {
    directives.map_values(|directive: Directive| directive@)
}

/// The names of the connected monitors in a report of the display tool, in
/// the order of the report.
///
/// The report is read line by line; a line ends at a line feed or at the end
/// of the report. A line that holds ` connected` names a connected monitor:
/// the name is what stands before the first space of the line.
pub open spec fn monitor_names(report: Seq<char>) -> Seq<Seq<char>>
    decreases report.len(),
{
    if report.len() == 0 {
        Seq::empty()
    } else {
        let end = first_index_of(report, '\n');
        let line = report.take(end);
        let rest = if 0 <= end < report.len() {
            monitor_names(report.skip(end + 1))
        } else {
            Seq::empty()
        };
        if occurs_in(line, " connected"@) {
            seq![line.take(first_index_of(line, ' '))] + rest
        } else {
            rest
        }
    }
}

/// The directives that lay out a primary monitor and its secondary monitors.
///
/// With secondary monitors given, the primary monitor comes first, then one
/// directive for each entry, in the order of the entries. With none given,
/// the one directive is to detect what is connected.
pub open spec fn layout_directives(
    primary: Seq<char>,
    secondaries: Option<Seq<SecondaryMonitorView>>,
) -> Seq<DirectiveView> {
    match secondaries {
        Some(entries) => seq![DirectiveView::Primary { monitor: primary }] + entries.map_values(
            |entry: SecondaryMonitorView|
                DirectiveView::Secondary {
                    monitor: entry.monitor_name,
                    position: entry.position,
                    relative_to: primary,
                },
        ),
        None => seq![DirectiveView::AutoDetect],
    }
}

/// The directives that bring the display to the layout of `workspace`.
pub open spec fn directives_for(workspace: WorkSpaceView) -> Seq<DirectiveView> {
    layout_directives(workspace.primary_monitor, workspace.secondary_monitors)
}

/// The display tool's flag for a position.
pub open spec fn position_flag(position: MonitorPositions) -> Seq<char> {
    match position {
        MonitorPositions::LeftOf => "--left-of"@,
        MonitorPositions::RightOf => "--right-of"@,
    }
}

/// The arguments that hand one directive to the display tool.
pub open spec fn arguments_of(directive: DirectiveView) -> Seq<Seq<char>> {
    match directive {
        DirectiveView::AutoDetect => seq!["--auto"@],
        DirectiveView::Primary { monitor } => seq!["--output"@, monitor, "--auto"@, "--primary"@],
        DirectiveView::Secondary { monitor, position, relative_to } => seq![
            "--output"@,
            monitor,
            "--auto"@,
            position_flag(position),
            relative_to,
        ],
    }
}

/// The arguments of the display tool for a list of directives: the
/// arguments of each directive, in the order of the directives.
pub open spec fn command_line(directives: Seq<DirectiveView>) -> Seq<Seq<char>>
    decreases directives.len(),
{
    if directives.len() == 0 {
        Seq::empty()
    } else {
        command_line(directives.drop_last()) + arguments_of(directives.last())
    }
}

/// The reconciler activates the primary monitor first: the directives for a
/// workspace with secondary monitors begin with its primary monitor, and the
/// directive after the first `index` of them places the entry at `index`
/// relative to that primary monitor.
pub proof fn lemma_primary_is_activated_first(workspace: WorkSpaceView, index: int)
    requires
        workspace.secondary_monitors is Some,
        0 <= index < workspace.secondary_monitors->0.len(),
    ensures
        directives_for(workspace).len() == 1 + workspace.secondary_monitors->0.len(),
        directives_for(workspace)[0] == (DirectiveView::Primary {
            monitor: workspace.primary_monitor,
        }),
        directives_for(workspace)[index + 1] == (DirectiveView::Secondary {
            monitor: workspace.secondary_monitors->0[index].monitor_name,
            position: workspace.secondary_monitors->0[index].position,
            relative_to: workspace.primary_monitor,
        }),
{
}

/// A prefix of a text holds its first `wanted` where the text does, unless
/// the prefix ends before it.
proof fn lemma_first_index_of_prefix(text: Seq<char>, wanted: char, length: int)
    requires
        0 <= length <= text.len(),
    ensures
        first_index_of(text.take(length), wanted) == if first_index_of(text, wanted) < length {
            first_index_of(text, wanted)
        } else {
            length
        },
{
    lemma_first_index_of(text, wanted);
    let first = first_index_of(text, wanted);
    let at = if first < length {
        first
    } else {
        length
    };
    lemma_first_index_of_unique(text.take(length), wanted, at);
}

/// Reads the names of the connected monitors from a report of the display
/// tool. The first name is that of the primary monitor.
pub fn get_monitor_names(report: &str) -> (names: Vec<String>)
    ensures
        names.deep_view() == monitor_names(report@),
{
    let chars = chars_of(report);
    let marker = chars_of(" connected");
    let mut names: Vec<String> = Vec::new();
    let mut start: usize = 0;
    assert(names.deep_view() =~= Seq::empty());
    assert(report@.skip(0) =~= report@);
    while start < chars.len()
        invariant
            chars@ == report@,
            marker@ == " connected"@,
            start <= chars@.len(),
            monitor_names(report@) == names.deep_view() + monitor_names(report@.skip(start as int)),
        decreases chars@.len() - start,
    {
        let ghost tail = report@.skip(start as int);
        let end = find_char(&chars, start, '\n');
        let ghost line = tail.take(end - start);
        assert(line =~= chars@.subrange(start as int, end as int));
        if found_between(&chars, start, end, &marker) {
            let space = find_char(&chars, start, ' ');
            let stop = if space < end {
                space
            } else {
                end
            };
            proof {
                lemma_first_index_of_prefix(tail, ' ', end - start);
                assert(line.take(stop - start) =~= report@.subrange(start as int, stop as int));
            }
            let ghost earlier = names.deep_view();
            let name = report.substring_char(start, stop).to_owned();
            names.push(name);
            assert(names.deep_view() =~= earlier + seq![line.take(stop - start)]);
        }
        if end < chars.len() {
            assert(tail.skip(end - start + 1) =~= report@.skip(end + 1));
            start = end + 1;
        } else {
            assert(report@.skip(end as int).len() == 0);
            start = end;
        }
    }
    names
}

impl Directive {
    /// The arguments that hand this directive to the display tool.
    pub fn arguments(&self) -> (arguments: Vec<String>)
        ensures
            arguments.deep_view() == arguments_of(self@),
    {
        let mut arguments: Vec<String> = Vec::new();
        match self {
            Directive::AutoDetect => {
                arguments.push("--auto".to_owned());
            },
            Directive::Primary { monitor } => {
                arguments.push("--output".to_owned());
                arguments.push(monitor.clone());
                arguments.push("--auto".to_owned());
                arguments.push("--primary".to_owned());
            },
            Directive::Secondary { monitor, position, relative_to } => {
                arguments.push("--output".to_owned());
                arguments.push(monitor.clone());
                arguments.push("--auto".to_owned());
                match position {
                    MonitorPositions::LeftOf => arguments.push("--left-of".to_owned()),
                    MonitorPositions::RightOf => arguments.push("--right-of".to_owned()),
                }
                arguments.push(relative_to.clone());
            },
        }
        assert(arguments.deep_view() =~= arguments_of(self@));
        arguments
    }
}

/// The directives that lay out `primary_monitor` and `secondary_monitors`.
fn layout(primary_monitor: &String, secondary_monitors: &Option<Vec<SecondaryMonitor>>) -> (directives:
    Vec<Directive>)
    ensures
        directive_views(directives@) == layout_directives(
            primary_monitor@,
            match *secondary_monitors {
                Some(entries) => Some(entry_views(entries@)),
                None => None,
            },
        ),
{
    let mut directives: Vec<Directive> = Vec::new();
    match secondary_monitors {
        Some(entries) => {
            directives.push(Directive::Primary { monitor: primary_monitor.clone() });
            let mut at: usize = 0;
            while at < entries.len()
                invariant
                    at <= entries@.len(),
                    directives@.len() == at + 1,
                    directives@[0]@ == (DirectiveView::Primary { monitor: primary_monitor@ }),
                    forall|i: int|
                        1 <= i <= at ==> (#[trigger] directives@[i])@ == (
                        DirectiveView::Secondary {
                            monitor: entries@[i - 1].monitor_name@,
                            position: entries@[i - 1].position,
                            relative_to: primary_monitor@,
                        }),
                decreases entries@.len() - at,
            {
                directives.push(
                    Directive::Secondary {
                        monitor: entries[at].monitor_name.clone(),
                        position: entries[at].position,
                        relative_to: primary_monitor.clone(),
                    },
                );
                at = at + 1;
            }
            assert(directive_views(directives@) =~= layout_directives(
                primary_monitor@,
                Some(entry_views(entries@)),
            ));
        },
        None => {
            directives.push(Directive::AutoDetect);
            assert(directive_views(directives@) =~= layout_directives(primary_monitor@, None));
        },
    }
    directives
}

/// Turns a resolved workspace into the directives that bring the
/// display to its layout.
pub fn reconcile(resolved: &WorkSpace) -> (directives: Vec<Directive>)
    ensures
        directive_views(directives@) == directives_for(resolved@),
{
    layout(&resolved.primary_monitor, &resolved.secondary_monitors)
}

/// Composes the arguments that hand `directives` to the display tool.
pub fn compose_command_line(directives: &Vec<Directive>) -> (arguments: Vec<String>)
    ensures
        arguments.deep_view() == command_line(directive_views(directives@)),
{
    let ghost planned = directive_views(directives@);
    let mut arguments: Vec<String> = Vec::new();
    let mut at: usize = 0;
    assert(arguments.deep_view() =~= Seq::empty());
    while at < directives.len()
        invariant
            at <= directives@.len(),
            planned == directive_views(directives@),
            arguments.deep_view() == command_line(planned.take(at as int)),
        decreases directives@.len() - at,
    {
        let mut group = directives[at].arguments();
        let ghost earlier = arguments.deep_view();
        let ghost added = group.deep_view();
        arguments.append(&mut group);
        proof {
            assert(planned.take(at + 1).drop_last() =~= planned.take(at as int));
            assert(planned.take(at + 1).last() == directives@[at as int]@);
            assert(arguments.deep_view() =~= earlier + added);
        }
        at = at + 1;
    }
    assert(planned.take(at as int) =~= planned);
    arguments
}

/// Composes the arguments with which the display tool brings the display to
/// the layout of `primary_monitor` and `secondary_monitors`.
pub fn update_outputs(
    primary_monitor: &String,
    secondary_monitors: &Option<Vec<SecondaryMonitor>>,
) -> (arguments: Vec<String>)
    ensures
        arguments.deep_view() == command_line(
            layout_directives(
                primary_monitor@,
                match *secondary_monitors {
                    Some(entries) => Some(entry_views(entries@)),
                    None => None,
                },
            ),
        ),
{
    let directives = layout(primary_monitor, secondary_monitors);
    compose_command_line(&directives)
}

} // verus!
