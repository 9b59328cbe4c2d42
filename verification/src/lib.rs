//! Core logic of a PDF compression tool that chooses between an external
//! Ghostscript process and an in-process structural rewrite of the document,
//! and that provisions the external tool (locate, download, install,
//! uninstall) when the host lacks it.
//!
//! Everything here is pure decision logic, verified with Verus: parameter
//! mapping from quality presets to backend flags, backend selection,
//! provisioning state transitions, archive handling, executable discovery in
//! a directory tree, and result/message computation. The surrounding process
//! (filesystem, network, subprocesses, the GUI shell) performs the planned
//! actions and feeds their outcomes back in as plain values.

pub mod archive;
pub mod fallback;
pub mod locator;
pub mod orchestrate;
pub mod outcome;
pub mod params;
pub mod platform;
pub mod provision;
pub mod search;
pub mod selection;
pub mod size_format;
pub mod strutil;

use vstd::prelude::*;

verus! {

/// Greets a user by name.
pub fn greet(name: &str) -> (r: String)
    ensures
        r@ == "Hello, "@ + name@ + "! You've been greeted from Rust!"@,
{
    let mut r = "Hello, ".to_owned();
    r.append(name);
    r.append("! You've been greeted from Rust!");
    r
}

} // verus!
