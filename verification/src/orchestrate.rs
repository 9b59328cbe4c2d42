//! The top-level compression entry: validate the request against the probed
//! host state, plan the output-directory creation, and pick the backend —
//! the external tool when it is available, the in-process rewrite otherwise.
//! The choice is re-evaluated on every request, never cached, so an install
//! that finishes mid-session is honoured by the next call.

use vstd::prelude::*;
use vstd::string::*;

use crate::locator::{
    find_ghostscript_command, gs_candidate_commands, is_ghostscript_available,
    spec_gs_candidate_commands, spec_resolved_command, spec_tool_available,
};
use crate::outcome::CompressError;
use crate::params::{
    build_ghostscript_args, optimization_level, spec_gs_args, spec_optimization_level,
    CompressionPreset, OptimizationLevel,
};

verus! {

/// Whether a character separates path components.
pub open spec fn spec_is_path_separator(c: char) -> bool {
    c == '/' || c == '\\'
}

/// The index of the last path separator, if any.
pub open spec fn spec_last_separator(s: Seq<char>) -> Option<int>
    decreases s.len(),
{
    if s.len() == 0 {
        None
    } else if spec_is_path_separator(s.last()) {
        Some(s.len() - 1)
    } else {
        spec_last_separator(s.drop_last())
    }
}

/// The parent directory of a path: everything before the last separator.
/// A bare file name has no parent to create, and neither does a path whose
/// only separator leads it (the filesystem root always exists).
pub open spec fn spec_parent_dir(s: Seq<char>) -> Option<Seq<char>> {
    match spec_last_separator(s) {
        Some(i) => if i > 0 {
            Some(s.take(i))
        } else {
            None
        },
        None => None,
    }
}

/// Computes the parent directory of a path.
pub fn parent_dir(path: &str) -> (r: Option<String>)
    ensures
        match spec_parent_dir(path@) {
            Some(p) => r matches Some(d) && d@ == p,
            None => r is None,
        },
{
    let len = path.unicode_len();
    let mut i: usize = len;
    proof {
        assert(path@.take(len as int) =~= path@);
    }
    while i > 0
        invariant
            i <= len,
            len == path@.len(),
            spec_last_separator(path@) == spec_last_separator(path@.take(i as int)),
        decreases i,
    {
        let c = path.get_char(i - 1);
        proof {
            assert(path@.take(i as int).drop_last() =~= path@.take(i as int - 1));
            assert(path@.take(i as int).last() == path@[i as int - 1]);
        }
        if c == '/' || c == '\\' {
            if i - 1 > 0 {
                let d = path.substring_char(0, i - 1);
                proof {
                    assert(d@ =~= path@.take(i as int - 1));
                }
                return Some(d.to_owned());
            } else {
                return None;
            }
        }
        i = i - 1;
    }
    None
}

/// One compression request: where to read, where to write, and how hard to
/// squeeze.
#[derive(Debug)]
pub struct CompressionRequest {
    pub input_path: String,
    pub output_path: String,
    pub preset: CompressionPreset,
}

/// What the embedding process observed of the host just before planning:
/// whether the input exists, whether the output's parent directory exists
/// (`true` also when the output path needs no directory), the per-candidate
/// `--version` probe outcomes in [`gs_candidate_commands`] order, and the
/// bundled install check.
pub struct HostProbe {
    pub input_exists: bool,
    pub output_parent_exists: bool,
    pub gs_probe_ok: Vec<bool>,
    pub bundled_gs_exists: bool,
    pub bundled_gs_path: String,
}

/// The backend chosen for one request, with everything its invocation needs.
pub enum BackendChoice {
    /// Run the external tool as `command` with `args`.
    External { command: String, args: Vec<String> },
    /// Rewrite in process at this aggressiveness.
    Fallback { level: OptimizationLevel },
}

/// The plan for one request. The embedding process performs the steps in
/// field order: create `create_parent` (with all missing ancestors) first if
/// it is set, and only then invoke `backend`.
pub struct CompressPlan {
    pub create_parent: Option<String>,
    pub backend: BackendChoice,
}

/// Plans one compression request. Fails — with the input-existence error and
/// before any filesystem write is planned — exactly when the input path does
/// not exist. Otherwise the plan creates the output's missing parent
/// directory ahead of either backend, and dispatches to the external tool
/// exactly when it is available.
pub fn compress_pdf(req: &CompressionRequest, probe: &HostProbe) -> (r: Result<
    CompressPlan,
    CompressError,
>)
    requires
        probe.gs_probe_ok@.len() == spec_gs_candidate_commands().len(),
    ensures
        !probe.input_exists <==> (r matches Err(e) && e is InputMissing),
        r is Err ==> (r matches Err(e) && e is InputMissing),
        r matches Ok(plan) ==> match spec_parent_dir(req.output_path@) {
            Some(p) => (!probe.output_parent_exists ==> (plan.create_parent matches Some(d) && d@
                == p)) && (probe.output_parent_exists ==> plan.create_parent is None),
            None => plan.create_parent is None,
        },
        r matches Ok(plan) ==> (spec_tool_available(
            probe.gs_probe_ok@,
            probe.bundled_gs_exists,
        ) ==> (plan.backend matches BackendChoice::External { command, args } && command@
            == spec_resolved_command(
            probe.gs_probe_ok@,
            spec_gs_candidate_commands(),
            probe.bundled_gs_exists,
            probe.bundled_gs_path@,
        ) && args.deep_view() == spec_gs_args(req.preset, req.input_path@, req.output_path@))),
        r matches Ok(plan) ==> (!spec_tool_available(
            probe.gs_probe_ok@,
            probe.bundled_gs_exists,
        ) ==> (plan.backend matches BackendChoice::Fallback { level } && level
            == spec_optimization_level(req.preset))),
{
    if !probe.input_exists {
        return Err(CompressError::InputMissing);
    }
    let create_parent: Option<String> = if probe.output_parent_exists {
        None
    } else {
        parent_dir(req.output_path.as_str())
    };
    let backend = if is_ghostscript_available(&probe.gs_probe_ok, probe.bundled_gs_exists) {
        let candidates = gs_candidate_commands();
        proof {
            assert(candidates@.len() == candidates.deep_view().len());
        }
        let command = find_ghostscript_command(
            &probe.gs_probe_ok,
            &candidates,
            probe.bundled_gs_exists,
            probe.bundled_gs_path.as_str(),
        );
        let args = build_ghostscript_args(
            req.preset,
            req.input_path.as_str(),
            req.output_path.as_str(),
        );
        BackendChoice::External { command, args }
    } else {
        BackendChoice::Fallback { level: optimization_level(req.preset) }
    };
    Ok(CompressPlan { create_parent, backend })
}

} // verus!
