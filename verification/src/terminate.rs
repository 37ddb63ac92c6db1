//! Termination outcome classification. The surrounding application runs
//! the platform's forceful kill command; this module decides, from the
//! captured outcome alone, whether the kill succeeded, was blocked by OS
//! privilege, or failed for an unknown reason.

use vstd::prelude::*;

use crate::platform::OsFamily;
use crate::text::{contains_ci, contains_seq, lower_seq};

verus! {

/// What happened when the termination command was run.
#[derive(Debug, Clone)]
pub enum TerminationOutcome {
    /// The command could not be spawned at all; carries the spawn-error
    /// text.
    SpawnFailed { detail: String },
    /// The command ran and exited; a zero status (`success`) means the
    /// kill took effect, and `diagnostic` is the captured error text.
    Exited { success: bool, diagnostic: String },
}

/// A classified termination failure.
#[derive(Debug, Clone)]
pub enum TerminationFailure {
    /// The OS refused the kill for lack of privilege.
    PermissionDenied,
    /// Anything else; carries the raw diagnostic or spawn-error text.
    Other { detail: String },
}

/// The platform's permission phrases, looked for case-insensitively in the
/// diagnostic text.
pub open spec fn permission_phrase(family: OsFamily, diagnostic: Seq<char>) -> bool {
    let d = lower_seq(diagnostic);
    match family {
        OsFamily::Windows => contains_seq(d, "access denied"@) || contains_seq(
            d,
            "access is denied"@,
        ),
        OsFamily::Unix => contains_seq(d, "permission denied"@) || contains_seq(
            d,
            "operation not permitted"@,
        ),
    }
}

/// The classification every outcome must receive: success exactly on a
/// zero exit status; a failed spawn and an unrecognized non-zero exit keep
/// their raw text; a diagnostic carrying a permission phrase is a
/// permission failure.
pub open spec fn classify_spec(family: OsFamily, outcome: TerminationOutcome) -> Result<
    (),
    TerminationFailure,
> {
    match outcome {
        TerminationOutcome::SpawnFailed { detail } => Err(TerminationFailure::Other { detail }),
        TerminationOutcome::Exited { success, diagnostic } => if success {
            Ok(())
        } else if permission_phrase(family, diagnostic@) {
            Err(TerminationFailure::PermissionDenied)
        } else {
            Err(TerminationFailure::Other { detail: diagnostic })
        },
    }
}

/// Classifies a termination attempt, deterministically in the outcome text.
pub fn classify_termination(family: OsFamily, outcome: &TerminationOutcome) -> (r: Result<
    (),
    TerminationFailure,
>)
    ensures
        r == classify_spec(family, *outcome),
{
    match outcome {
        TerminationOutcome::SpawnFailed { detail } => Err(
            TerminationFailure::Other { detail: detail.clone() },
        ),
        TerminationOutcome::Exited { success, diagnostic } => {
            if *success {
                Ok(())
            } else {
                let denied = match family {
                    OsFamily::Windows => contains_ci(diagnostic.as_str(), "access denied")
                        || contains_ci(diagnostic.as_str(), "access is denied"),
                    OsFamily::Unix => contains_ci(diagnostic.as_str(), "permission denied")
                        || contains_ci(diagnostic.as_str(), "operation not permitted"),
                };
                if denied {
                    Err(TerminationFailure::PermissionDenied)
                } else {
                    Err(TerminationFailure::Other { detail: diagnostic.clone() })
                }
            }
        },
    }
}

} // verus!
