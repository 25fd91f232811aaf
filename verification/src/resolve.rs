//! The workspace resolver.
//!
//! The resolver picks, for a detected monitor topology, the first workspace
//! of the catalog that matches it. The order of the catalog is its priority.

use vstd::prelude::*;

use crate::config::{names_of, texts_of, Config, WorkSpace, WorkSpaceView};

verus! {

/// `workspace` matches a detected topology: its primary monitor is the
/// detected one, and each secondary monitor it names is among the detected
/// ones. A workspace that names none of its own matches on the primary alone.
pub open spec fn workspace_matches(
    workspace: WorkSpaceView,
    primary: Seq<char>,
    secondaries: Seq<Seq<char>>,
) -> bool {
    &&& workspace.primary_monitor == primary
    &&& match workspace.secondary_monitors {
        Some(required) => forall|k: int|
            0 <= k < required.len() ==> secondaries.contains((#[trigger] required[k]).monitor_name),
        None => true,
    }
}

/// `found` is the outcome that the first-match rule asks for: the index of a
/// matching workspace with no matching workspace before it, or nothing when
/// no workspace of the catalog matches.
pub open spec fn is_first_match(
    catalog: Seq<WorkSpaceView>,
    primary: Seq<char>,
    secondaries: Seq<Seq<char>>,
    found: Option<int>,
) -> bool {
    match found {
        Some(index) => {
            &&& 0 <= index < catalog.len()
            &&& workspace_matches(catalog[index], primary, secondaries)
            &&& forall|j: int|
                0 <= j < index ==> !workspace_matches(#[trigger] catalog[j], primary, secondaries)
        },
        None => forall|j: int|
            0 <= j < catalog.len() ==> !workspace_matches(
                #[trigger] catalog[j],
                primary,
                secondaries,
            ),
    }
}

/// The index of the workspace that a top-to-bottom scan of the catalog
/// returns for a detected topology.
pub open spec fn resolved_index(
    catalog: Seq<WorkSpaceView>,
    primary: Seq<char>,
    secondaries: Seq<Seq<char>>,
) -> Option<int>
    decreases catalog.len(),
{
    if catalog.len() == 0 {
        None
    } else if workspace_matches(catalog[0], primary, secondaries) {
        Some(0)
    } else {
        match resolved_index(catalog.skip(1), primary, secondaries) {
            Some(index) => Some(index + 1),
            None => None,
        }
    }
}

/// The scan returns the first match: the resolver prefers an earlier
/// workspace to every later one that would also match, and finds nothing
/// only when nothing matches.
pub proof fn lemma_resolved_index_is_first_match(
    catalog: Seq<WorkSpaceView>,
    primary: Seq<char>,
    secondaries: Seq<Seq<char>>,
)
    ensures
        is_first_match(catalog, primary, secondaries, resolved_index(catalog, primary, secondaries)),
    decreases catalog.len(),
{
    if catalog.len() == 0 {
    } else if workspace_matches(catalog[0], primary, secondaries) {
    } else {
        let rest = catalog.skip(1);
        lemma_resolved_index_is_first_match(rest, primary, secondaries);
        match resolved_index(rest, primary, secondaries) {
            Some(index) => {
                assert(catalog[index + 1] == rest[index]);
                assert forall|j: int| 0 <= j < index + 1 implies !workspace_matches(
                    #[trigger] catalog[j],
                    primary,
                    secondaries,
                ) by {
                    if j > 0 {
                        assert(catalog[j] == rest[j - 1]);
                    }
                }
            },
            None => {
                assert forall|j: int| 0 <= j < catalog.len() implies !workspace_matches(
                    #[trigger] catalog[j],
                    primary,
                    secondaries,
                ) by {
                    if j > 0 {
                        assert(catalog[j] == rest[j - 1]);
                    }
                }
            },
        }
    }
}

/// The first-match rule admits no outcome but the one that the scan returns.
pub proof fn lemma_first_match_is_resolved(
    catalog: Seq<WorkSpaceView>,
    primary: Seq<char>,
    secondaries: Seq<Seq<char>>,
    found: Option<int>,
)
    requires
        is_first_match(catalog, primary, secondaries, found),
    ensures
        found == resolved_index(catalog, primary, secondaries),
{
    lemma_resolved_index_is_first_match(catalog, primary, secondaries);
    match (found, resolved_index(catalog, primary, secondaries)) {
        (Some(a), Some(b)) => {
            if a < b {
                assert(!workspace_matches(catalog[a], primary, secondaries));
            } else if b < a {
                assert(!workspace_matches(catalog[b], primary, secondaries));
            }
        },
        (Some(a), None) => {
            assert(!workspace_matches(catalog[a], primary, secondaries));
        },
        (None, Some(b)) => {
            assert(!workspace_matches(catalog[b], primary, secondaries));
        },
        (None, None) => {},
    }
}

/// Resolution is deterministic: any two outcomes that obey the first-match
/// rule on the same catalog and the same detected topology are the same.
pub proof fn lemma_resolution_is_deterministic(
    catalog: Seq<WorkSpaceView>,
    primary: Seq<char>,
    secondaries: Seq<Seq<char>>,
    first: Option<int>,
    second: Option<int>,
)
    requires
        is_first_match(catalog, primary, secondaries, first),
        is_first_match(catalog, primary, secondaries, second),
    ensures
        first == second,
{
    lemma_first_match_is_resolved(catalog, primary, secondaries, first);
    lemma_first_match_is_resolved(catalog, primary, secondaries, second);
}

/// Whether `wanted` is one of `names`.
fn holds_name(names: &Vec<String>, wanted: &String) -> (found: bool)
    ensures
        found == names.deep_view().contains(wanted@),
{
    let mut at: usize = 0;
    while at < names.len()
        invariant
            at <= names@.len(),
            forall|i: int| 0 <= i < at ==> names.deep_view()[i] != wanted@,
        decreases names@.len() - at,
    {
        if names[at] == *wanted {
            assert(names.deep_view()[at as int] == wanted@);
            return true;
        }
        at = at + 1;
    }
    false
}

/// Whether every name of `required` is one of `detected`.
fn all_present(required: &Vec<&String>, detected: &Vec<String>) -> (complete: bool)
    ensures
        complete == forall|i: int|
            0 <= i < required@.len() ==> detected.deep_view().contains((#[trigger] required@[i])@),
{
    let mut at: usize = 0;
    while at < required.len()
        invariant
            at <= required@.len(),
            forall|i: int| 0 <= i < at ==> detected.deep_view().contains((#[trigger] required@[i])@),
        decreases required@.len() - at,
    {
        if !holds_name(detected, required[at]) {
            return false;
        }
        at = at + 1;
    }
    true
}

/// Scans the catalog of `config` from the top for the first workspace that
/// matches the detected topology, and returns its index.
pub(crate) fn resolve_index(
    config: &Config,
    primary_monitor: &String,
    secondary_monitors: &Vec<String>,
) -> (found: Option<usize>)
    ensures
        match found {
            Some(index) => index < config.workspaces@.len() && resolved_index(
                config@.workspaces,
                primary_monitor@,
                secondary_monitors.deep_view(),
            ) == Some(index as int),
            None => resolved_index(
                config@.workspaces,
                primary_monitor@,
                secondary_monitors.deep_view(),
            ) is None,
        },
{
    let ghost catalog = config@.workspaces;
    let ghost primary = primary_monitor@;
    let ghost secondaries = secondary_monitors.deep_view();
    let mut at: usize = 0;
    while at < config.workspaces.len()
        invariant
            at <= config.workspaces@.len(),
            catalog == config@.workspaces,
            primary == primary_monitor@,
            secondaries == secondary_monitors.deep_view(),
            forall|j: int|
                0 <= j < at ==> !workspace_matches(#[trigger] catalog[j], primary, secondaries),
        decreases config.workspaces@.len() - at,
    {
        let workspace = &config.workspaces[at];
        assert(catalog[at as int] == workspace@);
        if workspace.primary_monitor == *primary_monitor {
            let complete = match workspace.get_secondary_monitor_list() {
                Some(required) => {
                    proof {
                        let entries = workspace@.secondary_monitors->0;
                        assert(texts_of(required@).len() == names_of(entries).len());
                        assert forall|k: int|
                            #![trigger entries[k]]
                            #![trigger required@[k]]
                            0 <= k < entries.len() implies entries[k].monitor_name
                            == required@[k]@ by {
                            assert(texts_of(required@)[k] == names_of(entries)[k]);
                        }
                    }
                    all_present(&required, secondary_monitors)
                },
                None => true,
            };
            assert(complete == workspace_matches(catalog[at as int], primary, secondaries));
            if complete {
                proof {
                    lemma_first_match_is_resolved(catalog, primary, secondaries, Some(at as int));
                }
                return Some(at);
            }
        }
        at = at + 1;
    }
    proof {
        lemma_first_match_is_resolved(catalog, primary, secondaries, None);
    }
    None
}

impl WorkSpace {
    /// Resolves a detected topology against the catalog of `config`.
    ///
    /// The catalog is scanned from the top, and the first workspace that
    /// matches is returned: its primary monitor is `primary_monitor`, and
    /// every secondary monitor it names is among `secondary_monitors`. More
    /// specific workspaces are therefore listed before more general ones.
    pub fn get<'config>(
        config: &'config Config,
        primary_monitor: &String,
        secondary_monitors: &Vec<String>,
    ) -> (found: Option<&'config WorkSpace>)
        ensures
            match resolved_index(config@.workspaces, primary_monitor@, secondary_monitors.deep_view()) {
                Some(index) => found == Some(&config.workspaces@[index]),
                None => found is None,
            },
    {
        match resolve_index(config, primary_monitor, secondary_monitors) {
            Some(index) => Some(&config.workspaces[index]),
            None => None,
        }
    }

    /// The names of the secondary monitors that this workspace asks for, in
    /// the order of its entries, or `None` when it names none of its own.
    pub fn get_secondary_monitor_list(&self) -> (list: Option<Vec<&String>>)
        ensures
            match list {
                Some(names) => self@.secondary_monitors is Some && texts_of(names@) == names_of(
                    self@.secondary_monitors->0,
                ),
                None => self@.secondary_monitors is None,
            },
    {
        match &self.secondary_monitors {
            Some(entries) => {
                let mut names: Vec<&String> = Vec::new();
                let mut at: usize = 0;
                while at < entries.len()
                    invariant
                        at <= entries@.len(),
                        names@.len() == at,
                        forall|i: int| 0 <= i < at ==> *names@[i] == entries@[i].monitor_name,
                    decreases entries@.len() - at,
                {
                    names.push(&entries[at].monitor_name);
                    at = at + 1;
                }
                assert(texts_of(names@) =~= names_of(self@.secondary_monitors->0));
                Some(names)
            },
            None => None,
        }
    }
}

} // verus!
