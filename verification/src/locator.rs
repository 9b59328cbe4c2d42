//! Deciding whether the external Ghostscript tool is available and which
//! command invokes it.
//!
//! The embedding process probes each candidate command name on the search
//! path (by spawning `<name> --version` and checking for a successful exit;
//! a failed spawn or non-zero exit counts as absent, never as an error) and
//! checks whether the bundled executable exists. Those probe outcomes come
//! in here as plain booleans, and the decision below is verified: the first
//! hit on the search path wins, then the bundled install, then the canonical
//! bare name as a default that callers must still guard against.

use vstd::prelude::*;
use vstd::string::*;

verus! {

/// The candidate command names probed on the search path, in probe order.
pub open spec fn spec_gs_candidate_commands() -> Seq<Seq<char>> {
    seq!["gs"@, "gswin64c"@, "gswin32c"@]
}

/// Returns the candidate Ghostscript command names, in probe order.
pub fn gs_candidate_commands() -> (r: Vec<String>)
    ensures
        r.deep_view() == spec_gs_candidate_commands(),
{
    let mut r: Vec<String> = Vec::new();
    r.push("gs".to_owned());
    r.push("gswin64c".to_owned());
    r.push("gswin32c".to_owned());
    proof {
        assert(r.deep_view() =~= spec_gs_candidate_commands());
    }
    r
}

/// The position of the first `true` in a sequence of probe outcomes.
pub open spec fn spec_first_true(probes: Seq<bool>) -> Option<int>
    decreases probes.len(),
{
    if probes.len() == 0 {
        None
    } else if probes[0] {
        Some(0int)
    } else {
        match spec_first_true(probes.drop_first()) {
            Some(i) => Some(i + 1),
            None => None,
        }
    }
}

pub proof fn lemma_first_true_none(probes: Seq<bool>)
    requires
        forall|j: int| 0 <= j < probes.len() ==> !probes[j],
    ensures
        spec_first_true(probes) is None,
    decreases probes.len(),
{
    if probes.len() > 0 {
        lemma_first_true_none(probes.drop_first());
    }
}

pub proof fn lemma_first_true_at(probes: Seq<bool>, i: int)
    requires
        0 <= i < probes.len(),
        probes[i],
        forall|j: int| 0 <= j < i ==> !probes[j],
    ensures
        spec_first_true(probes) == Some(i),
    decreases i,
{
    if i > 0 {
        lemma_first_true_at(probes.drop_first(), i - 1);
    }
}

/// Whether the tool counts as available: some search-path probe succeeded,
/// or the bundled executable exists.
pub open spec fn spec_tool_available(probes: Seq<bool>, bundled_exists: bool) -> bool {
    (exists|i: int| 0 <= i < probes.len() && probes[i]) || bundled_exists
}

/// Decides availability from the search-path probe outcomes and the bundled
/// install check.
pub fn is_ghostscript_available(probe_ok: &Vec<bool>, bundled_exists: bool) -> (r: bool)
    ensures
        r == spec_tool_available(probe_ok@, bundled_exists),
{
    let mut i: usize = 0;
    while i < probe_ok.len()
        invariant
            i <= probe_ok@.len(),
            forall|j: int| 0 <= j < i ==> !probe_ok@[j],
        decreases probe_ok@.len() - i,
    {
        if probe_ok[i] {
            return true;
        }
        i = i + 1;
    }
    bundled_exists
}

/// The command that invokes the tool: the first candidate whose probe
/// succeeded; else the bundled path, if the bundled executable exists; else
/// the bare canonical name.
pub open spec fn spec_resolved_command(
    probes: Seq<bool>,
    candidates: Seq<Seq<char>>,
    bundled_exists: bool,
    bundled_path: Seq<char>,
) -> Seq<char> {
    match spec_first_true(probes) {
        Some(i) => candidates[i],
        None => if bundled_exists {
            bundled_path
        } else {
            "gs"@
        },
    }
}

/// Resolves the command for one invocation. Recomputed on every request so a
/// just-finished install is honoured immediately.
pub fn find_ghostscript_command(
    probe_ok: &Vec<bool>,
    candidates: &Vec<String>,
    bundled_exists: bool,
    bundled_path: &str,
) -> (r: String)
    requires
        probe_ok@.len() == candidates@.len(),
    ensures
        r@ == spec_resolved_command(
            probe_ok@,
            candidates.deep_view(),
            bundled_exists,
            bundled_path@,
        ),
{
    let mut i: usize = 0;
    while i < probe_ok.len()
        invariant
            probe_ok@.len() == candidates@.len(),
            i <= probe_ok@.len(),
            forall|j: int| 0 <= j < i ==> !probe_ok@[j],
        decreases probe_ok@.len() - i,
    {
        if probe_ok[i] {
            proof {
                lemma_first_true_at(probe_ok@, i as int);
            }
            return candidates[i].clone();
        }
        i = i + 1;
    }
    proof {
        lemma_first_true_none(probe_ok@);
    }
    if bundled_exists {
        bundled_path.to_owned()
    } else {
        "gs".to_owned()
    }
}

} // verus!
