//! The poll loop's decisions.
//!
//! The loop probes the topology at a fixed interval. What it does with a
//! fresh snapshot depends on the snapshot before it alone: an unchanged
//! topology is skipped, a changed one is resolved against the catalog and,
//! where a workspace matches, reconciled. The caller owns the previous
//! snapshot and threads it through `poll`.

use vstd::prelude::*;

use crate::config::{Config, ConfigView};
use crate::display::{directive_views, directives_for, reconcile, Directive, DirectiveView};
use crate::resolve::{resolve_index, resolved_index};

verus! {

/// What the loop does in one iteration.
#[derive(Debug, Clone, PartialEq, Eq)]
pub enum PollAction {
    /// The topology has not changed: do nothing.
    Skip,
    /// The topology has changed and no workspace matches it: report that,
    /// and leave the display as it is.
    NoWorkspace,
    /// The topology has changed and the workspace at index `workspace` of
    /// the catalog is the first that matches it: apply `directives`, then
    /// run each of `scripts` in order.
    Reconcile { workspace: usize, directives: Vec<Directive>, scripts: Vec<String> },
}

/// The mathematical value of a `PollAction`.
pub enum PollActionView {
    Skip,
    NoWorkspace,
    Reconcile { workspace: int, directives: Seq<DirectiveView>, scripts: Seq<Seq<char>> },
}

impl View for PollAction {
    type V = PollActionView;

    open spec fn view(&self) -> PollActionView {
        match self {
            PollAction::Skip => PollActionView::Skip,
            PollAction::NoWorkspace => PollActionView::NoWorkspace,
            PollAction::Reconcile { workspace, directives, scripts } => PollActionView::Reconcile {
                workspace: *workspace as int,
                directives: directive_views(directives@),
                scripts: scripts.deep_view(),
            },
        }
    }
}

/// A topology has changed when the two snapshots differ in a name, in their
/// length or in the order of their names.
pub open spec fn snapshot_changed(previous: Seq<Seq<char>>, current: Seq<Seq<char>>) -> bool {
    previous != current
}

/// The commands to run after a switch: those of the configuration, or none.
pub open spec fn scripts_to_run(config: ConfigView) -> Seq<Seq<char>> {
    match config.switch_scripts {
        Some(scripts) => scripts,
        None => Seq::empty(),
    }
}

/// The action of one iteration, for the snapshot before it and the fresh one.
/// The first name of the fresh snapshot is the primary monitor, the others
/// are the secondary monitors.
pub open spec fn poll_action(
    config: ConfigView,
    previous: Seq<Seq<char>>,
    current: Seq<Seq<char>>,
) -> PollActionView
    recommends
        current.len() > 0,
{
    if !snapshot_changed(previous, current) {
        PollActionView::Skip
    } else {
        match resolved_index(config.workspaces, current[0], current.skip(1)) {
            Some(index) => PollActionView::Reconcile {
                workspace: index,
                directives: directives_for(config.workspaces[index]),
                scripts: scripts_to_run(config),
            },
            None => PollActionView::NoWorkspace,
        }
    }
}

/// No snapshot has changed against itself.
pub proof fn lemma_same_snapshot_is_unchanged(snapshot: Seq<Seq<char>>)
    ensures
        !snapshot_changed(snapshot, snapshot),
{
}

/// The loop does not reconcile twice for one topology: whatever an
/// iteration did with a snapshot, the next iteration skips the same
/// snapshot.
pub proof fn lemma_repeated_snapshot_is_skipped(config: ConfigView, snapshot: Seq<Seq<char>>)
    ensures
        poll_action(config, snapshot, snapshot) == PollActionView::Skip,
{
}

/// A copy of the names of `names` from index `from` on.
fn copy_of(names: &Vec<String>, from: usize) -> (copy: Vec<String>)
    requires
        from <= names@.len(),
    ensures
        copy.deep_view() == names.deep_view().skip(from as int),
{
    let mut copy: Vec<String> = Vec::new();
    let mut at: usize = from;
    assert(copy.deep_view() =~= names.deep_view().subrange(from as int, at as int));
    while at < names.len()
        invariant
            from <= at <= names@.len(),
            copy.deep_view() == names.deep_view().subrange(from as int, at as int),
        decreases names@.len() - at,
    {
        let ghost earlier = copy.deep_view();
        copy.push(names[at].clone());
        assert(copy.deep_view() =~= earlier.push(names.deep_view()[at as int]));
        at = at + 1;
        assert(copy.deep_view() =~= names.deep_view().subrange(from as int, at as int));
    }
    assert(copy.deep_view() =~= names.deep_view().skip(from as int));
    copy
}

/// Whether the topology has changed between two snapshots. The order of
/// the names counts: the first name is the primary monitor.
pub fn changed(previous: &Vec<String>, current: &Vec<String>) -> (differs: bool)
    ensures
        differs == snapshot_changed(previous.deep_view(), current.deep_view()),
{
    if previous.len() != current.len() {
        assert(previous.deep_view().len() != current.deep_view().len());
        return true;
    }
    let mut at: usize = 0;
    while at < previous.len()
        invariant
            previous@.len() == current@.len(),
            at <= previous@.len(),
            forall|i: int| 0 <= i < at ==> previous.deep_view()[i] == current.deep_view()[i],
        decreases previous@.len() - at,
    {
        if previous[at] != current[at] {
            assert(previous.deep_view()[at as int] != current.deep_view()[at as int]);
            return true;
        }
        at = at + 1;
    }
    assert(previous.deep_view() =~= current.deep_view());
    false
}

/// Decides one iteration of the poll loop.
///
/// `previous` is the snapshot of the iteration before, empty before the first
/// one; `current` is the fresh snapshot, whose first name is the primary
/// monitor. Returns the action to perform and the snapshot to hand to the
/// next iteration, which is `current` whatever the action is.
pub fn poll(config: &Config, previous: &Vec<String>, current: Vec<String>) -> (step: (
    PollAction,
    Vec<String>,
))
    requires
        current@.len() > 0,
    ensures
        step.0@ == poll_action(config@, previous.deep_view(), current.deep_view()),
        step.1 == current,
{
    if !changed(previous, &current) {
        return (PollAction::Skip, current);
    }
    let secondaries = copy_of(&current, 1);
    assert(current.deep_view()[0] == current[0]@);
    let action = match resolve_index(config, &current[0], &secondaries) {
        Some(index) => {
            let workspace = &config.workspaces[index];
            let scripts = match &config.switch_scripts {
                Some(scripts) => copy_of(scripts, 0),
                None => Vec::new(),
            };
            proof {
                assert(config@.workspaces[index as int] == workspace@);
                assert(scripts.deep_view() =~= scripts_to_run(config@));
            }
            PollAction::Reconcile { workspace: index, directives: reconcile(workspace), scripts }
        },
        None => PollAction::NoWorkspace,
    };
    (action, current)
}

} // verus!
