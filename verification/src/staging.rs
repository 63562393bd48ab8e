//! The staging inspector: opens a repository, reads its staging area, and
//! hands the evaluator one entry per staged file.

use vstd::prelude::*;

use crate::entries::{lossy_decoding_of, StagedEntry};

verus! {

/// The staging area could not be opened or read: the path does not lead to a
/// repository, its metadata is damaged, or access failed. Carries the
/// backend's own message verbatim.
#[derive(Debug)]
pub struct RepositoryAccessError {
    pub message: String,
}

#[verifier::external_type_specification]
#[verifier::external_body]
pub struct ExRepository(git2::Repository);

#[verifier::external_type_specification]
#[verifier::external_body]
pub struct ExIndex(git2::Index);

#[verifier::external_type_specification]
#[verifier::external_body]
pub struct ExGitError(git2::Error);

/// Relies on git2::Repository::open: opens the repository at the given path,
/// or fails with the backend's error.
#[verifier::external_body]
fn open_repository(directory: &str) -> (r: Result<git2::Repository, git2::Error>) {
    git2::Repository::open(directory)
}

/// Relies on git2::Repository::index: reads the repository's staging area.
#[verifier::external_body]
fn repository_index(repo: &git2::Repository) -> (r: Result<git2::Index, git2::Error>) {
    repo.index()
}

/// Relies on git2::Index::iter: hands out each index entry's recorded path
/// bytes and recorded file size, in the index's own order.
#[verifier::external_body]
fn index_raw_records(index: &git2::Index) -> (r: Vec<(Vec<u8>, u64)>) {
    index.iter().map(|entry| (entry.path, entry.file_size as u64)).collect()
}

/// Relies on git2::Error::message: the backend's description of the failure.
#[verifier::external_body]
fn git_error_message(e: &git2::Error) -> (r: String) {
    e.message().to_string()
}

/// Builds staged entries from the raw records the staging area handed out:
/// one entry per record, in order, each path decoded lossily and each size
/// kept exactly.
pub fn entries_from_raw(raw: Vec<(Vec<u8>, u64)>) -> (r: Vec<StagedEntry>)
    ensures
        r.deep_view().len() == raw@.len(),
        forall|i: int| 0 <= i < raw@.len() ==> {
            &&& (#[trigger] r.deep_view()[i]).path == lossy_decoding_of(raw@[i].0@)
            &&& r.deep_view()[i].size == raw@[i].1
        },
{
    let mut out: Vec<StagedEntry> = Vec::new();
    let n: usize = raw.len();
    let mut i: usize = 0;
    while i < n
        invariant
            i <= n,
            n == raw@.len(),
            out.deep_view().len() == i,
            forall|j: int| 0 <= j < i ==> {
                &&& (#[trigger] out.deep_view()[j]).path == lossy_decoding_of(raw@[j].0@)
                &&& out.deep_view()[j].size == raw@[j].1
            },
        decreases n - i,
    {
        let ghost prior = out@;
        let ghost prior_dv = out.deep_view();
        let record = &raw[i];
        let entry = StagedEntry::new(&record.0, record.1);
        out.push(entry);
        proof {
            assert(out@ == prior.push(entry));
            assert forall|j: int| 0 <= j < i + 1 implies {
                &&& (#[trigger] out.deep_view()[j]).path == lossy_decoding_of(raw@[j].0@)
                &&& out.deep_view()[j].size == raw@[j].1
            } by {
                assert(out.deep_view()[j] == out@[j]@);
                if j < i {
                    assert(out@[j] == prior[j]);
                    assert(prior_dv[j] == prior[j]@);
                } else {
                    assert(out@[j] == entry);
                }
            }
        }
        i = i + 1;
    }
    out
}

/// Reads the staging area of the repository at `directory` and returns one
/// entry per staged file. An empty staging area yields an empty vector, never
/// an error. When the repository cannot be opened or its staging area cannot
/// be read, the backend's error is surfaced as a `RepositoryAccessError` and
/// nothing is retried.
pub fn inspect_staging(directory: &str) -> (r: Result<Vec<StagedEntry>, RepositoryAccessError>) {
    let repo = match open_repository(directory) {
        Ok(repo) => repo,
        Err(e) => {
            return Err(RepositoryAccessError { message: git_error_message(&e) });
        },
    };
    let index = match repository_index(&repo) {
        Ok(index) => index,
        Err(e) => {
            return Err(RepositoryAccessError { message: git_error_message(&e) });
        },
    };
    let raw = index_raw_records(&index);
    Ok(entries_from_raw(raw))
}

} // verus!
