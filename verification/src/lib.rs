//! A pre-commit guard for staged file sizes.
//!
//! The library reads a repository's staging area and evaluates the staged
//! entries against two limits: the most bytes any single file may have, and
//! the most all staged files may hold together. The evaluation itself is
//! verified: every entry counts toward the aggregate, and an entry is listed
//! as oversized exactly when its size lies strictly above the per-file limit.

use vstd::prelude::*;

pub mod entries;
pub mod evaluate;
pub mod staging;

use crate::entries::{EntryView, Thresholds};
use crate::evaluate::{evaluate, result_matches, EvaluationResult};
use crate::staging::{inspect_staging, RepositoryAccessError};

verus! {

/// Evaluates the staging area of the repository at `directory` against the
/// two tolerances: reads the staged entries, lists those whose size is
/// strictly greater than `file_tolerance`, sums every entry's size, and
/// reports whether that total is strictly greater than `staged_tolerance`.
/// Fails exactly when the staging area cannot be opened or read; an empty
/// staging area is a success with an empty verdict.
pub fn check_files(file_tolerance: u64, staged_tolerance: u64, directory: &str) -> (r: Result<
    EvaluationResult,
    RepositoryAccessError,
>)
    ensures
        r is Ok ==> exists|s: Seq<EntryView>| result_matches(
            r->Ok_0,
            s,
            (Thresholds { file_tolerance, staged_tolerance }),
        ),
{
    let t = Thresholds { file_tolerance, staged_tolerance };
    match inspect_staging(directory) {
        Ok(entries) => {
            let res = evaluate(&entries, &t);
            let r: Result<EvaluationResult, RepositoryAccessError> = Ok(res);
            proof {
                assert(exists|s: Seq<EntryView>| result_matches(
                    r->Ok_0,
                    s,
                    (Thresholds { file_tolerance, staged_tolerance }),
                )) by {
                    assert(result_matches(r->Ok_0, entries.deep_view(), t));
                }
            }
            r
        },
        Err(e) => Err(e),
    }
}

} // verus!
