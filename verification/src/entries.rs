//! The data model: one staged file entry, its mathematical image, and the
//! caller-supplied tolerances.

use vstd::prelude::*;

verus! {

/// One file known to the staging area: its repository-rooted path and its
/// size in bytes, as recorded when the snapshot was taken.
pub struct StagedEntry {
    pub path: String,
    pub size: u64,
}

/// Mathematical image of a staged entry: the path as a sequence of
/// characters, and the exact byte count.
pub ghost struct EntryView {
    pub path: Seq<char>,
    pub size: u64,
}

impl View for StagedEntry {
    type V = EntryView;

    open spec fn view(&self) -> EntryView {
        EntryView { path: self.path@, size: self.size }
    }
}

impl DeepView for StagedEntry {
    type V = EntryView;

    open spec fn deep_view(&self) -> EntryView {
        self@
    }
}

impl Clone for StagedEntry {
    fn clone(&self) -> (r: Self)
        ensures
            r == *self,
    {
        StagedEntry { path: self.path.clone(), size: self.size }
    }
}

/// The characters that lossy text decoding yields for a given byte sequence:
/// well-formed text comes back unchanged, ill-formed runs come back as
/// replacement characters.
pub uninterp spec fn lossy_decoding_of(bytes: Seq<u8>) -> Seq<char>;

/// Relies on String::from_utf8_lossy: the decoding depends on the bytes
/// alone, and an empty input decodes to an empty string.
#[verifier::external_body]
fn decode_lossy(bytes: &Vec<u8>) -> (r: String)
    ensures
        r@ == lossy_decoding_of(bytes@),
        bytes@.len() == 0 ==> r@.len() == 0,
{
    String::from_utf8_lossy(bytes).into_owned()
}

impl StagedEntry {
    /// Builds an entry from the raw path bytes and byte count that the
    /// staging area records. The path is decoded lossily, so an unusual byte
    /// sequence never aborts an evaluation.
    pub fn new(path_bytes: &Vec<u8>, size: u64) -> (r: StagedEntry)
        ensures
            r@.path == lossy_decoding_of(path_bytes@),
            r@.size == size,
    {
        StagedEntry { path: decode_lossy(path_bytes), size }
    }
}

/// The two caller-supplied limits: the most bytes any single staged file may
/// have, and the most all staged files may hold together.
pub struct Thresholds {
    pub file_tolerance: u64,
    pub staged_tolerance: u64,
}

} // verus!
