//! Resolving a file-picker interaction. The dialog itself is an opaque
//! service run by the embedding process under a bounded wait; what came of
//! it arrives here as a plain outcome and is mapped — verified — to the
//! caller-visible result: a user who picked nothing is a distinct, ordinary
//! outcome, a broken signal channel is an internal error, and an expired
//! wait is a timeout rather than a hang.

use vstd::prelude::*;
use vstd::string::*;

verus! {

/// Which path the user is being asked for.
#[derive(Clone, Copy, Debug, PartialEq, Eq, Structural)]
pub enum SelectionKind {
    InputFile,
    OutputPath,
}

/// How a file-picker interaction ended.
pub enum SelectionOutcome {
    /// The user picked this path.
    Selected { path: String },
    /// The user dismissed the dialog without picking anything.
    Cancelled,
    /// The dialog's completion signal failed (an internal error, distinct
    /// from cancellation).
    ChannelClosed,
    /// The bounded wait expired.
    TimedOut,
}

/// The result reported for each way the interaction can end.
pub open spec fn spec_selection_result(kind: SelectionKind, outcome: SelectionOutcome) -> Result<
    Seq<char>,
    Seq<char>,
> {
    match outcome {
        SelectionOutcome::Selected { path } => Ok(path@),
        SelectionOutcome::Cancelled => Err(
            if kind == SelectionKind::InputFile {
                "no file selected"@
            } else {
                "no save location selected"@
            },
        ),
        SelectionOutcome::ChannelClosed => Err("internal error"@),
        SelectionOutcome::TimedOut => Err(
            if kind == SelectionKind::InputFile {
                "timed out waiting for a file selection"@
            } else {
                "timed out waiting for a save location"@
            },
        ),
    }
}

/// Maps a file-picker outcome to the caller-visible result.
pub fn resolve_selection(kind: SelectionKind, outcome: SelectionOutcome) -> (r: Result<
    String,
    String,
>)
    ensures
        r is Ok <==> spec_selection_result(kind, outcome) is Ok,
        r matches Ok(p) ==> spec_selection_result(kind, outcome) == Ok::<Seq<char>, Seq<char>>(p@),
        r matches Err(m) ==> spec_selection_result(kind, outcome) == Err::<Seq<char>, Seq<char>>(
            m@,
        ),
{
    match outcome {
        SelectionOutcome::Selected { path } => Ok(path),
        SelectionOutcome::Cancelled => {
            if kind == SelectionKind::InputFile {
                Err("no file selected".to_owned())
            } else {
                Err("no save location selected".to_owned())
            }
        },
        SelectionOutcome::ChannelClosed => Err("internal error".to_owned()),
        SelectionOutcome::TimedOut => {
            if kind == SelectionKind::InputFile {
                Err("timed out waiting for a file selection".to_owned())
            } else {
                Err("timed out waiting for a save location".to_owned())
            }
        },
    }
}

} // verus!
