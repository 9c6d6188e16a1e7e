//! Release descriptors and download progress.

use vstd::prelude::*;

verus! {

/// A release that the release source offered as newer than the running
/// application. Its parts are fixed once it is built.
#[derive(Debug, PartialEq, Eq)]
pub struct UpdateCandidate {
    version: String,
    release_notes: String,
    artifact_locator: String,
}

/// What an [`UpdateCandidate`] stands for in contracts.
pub struct CandidateView {
    pub version: Seq<char>,
    pub release_notes: Seq<char>,
    pub artifact_locator: Seq<char>,
}

impl View for UpdateCandidate {
    type V = CandidateView;

    closed spec fn view(&self) -> CandidateView {
        CandidateView {
            version: self.version@,
            release_notes: self.release_notes@,
            artifact_locator: self.artifact_locator@,
        }
    }
}

impl UpdateCandidate {
    /// Describes a release by its version, its notes (which may be empty) and
    /// the handle under which the release source serves its artifact.
    pub fn new(version: String, release_notes: String, artifact_locator: String) -> (candidate: Self)
        ensures
            candidate@ == (CandidateView {
                version: version@,
                release_notes: release_notes@,
                artifact_locator: artifact_locator@,
            }),
    {
        UpdateCandidate { version, release_notes, artifact_locator }
    }

    /// The version of the release.
    pub fn version(&self) -> (version: &String)
        ensures
            version@ == self@.version,
    {
        &self.version
    }

    /// The human-readable notes of the release.
    pub fn release_notes(&self) -> (notes: &String)
        ensures
            notes@ == self@.release_notes,
    {
        &self.release_notes
    }

    /// The handle under which the release source serves the artifact.
    pub fn artifact_locator(&self) -> (locator: &String)
        ensures
            locator@ == self@.artifact_locator,
    {
        &self.artifact_locator
    }
}

impl Clone for UpdateCandidate {
    fn clone(&self) -> (copy: Self)
        ensures
            copy@ == self@,
    {
        UpdateCandidate {
            version: self.version.clone(),
            release_notes: self.release_notes.clone(),
            artifact_locator: self.artifact_locator.clone(),
        }
    }
}

/// How far a download has come: the bytes received so far and, where the
/// stream announced it, the length of the whole artifact.
#[derive(Clone, Copy, Debug, PartialEq, Eq)]
pub struct ProgressSample {
    pub bytes_transferred: u64,
    pub total_bytes: Option<u64>,
}

impl ProgressSample {
    /// The progress of a download of which nothing has arrived yet.
    pub open spec fn spec_zero() -> ProgressSample {
        ProgressSample { bytes_transferred: 0, total_bytes: None }
    }

    /// The progress after one more chunk of `length` bytes, on a stream that
    /// now announces `total` as the artifact's length. The count of bytes
    /// stops at `u64::MAX`.
    pub open spec fn spec_advance(self, length: u64, total: Option<u64>) -> ProgressSample {
        ProgressSample {
            bytes_transferred: if self.bytes_transferred + length > u64::MAX {
                u64::MAX
            } else {
                (self.bytes_transferred + length) as u64
            },
            total_bytes: total,
        }
    }

    /// The progress of a download of which nothing has arrived yet.
    #[verifier::when_used_as_spec(spec_zero)]
    pub fn zero() -> (sample: ProgressSample)
        ensures
            sample == Self::spec_zero(),
    {
        ProgressSample { bytes_transferred: 0, total_bytes: None }
    }

    /// Counts one more chunk of `length` bytes and takes over the length that
    /// the stream announces for the whole artifact.
    #[verifier::when_used_as_spec(spec_advance)]
    pub fn advance(self, length: u64, total: Option<u64>) -> (sample: ProgressSample)
        ensures
            sample == self.spec_advance(length, total),
    {
        ProgressSample {
            bytes_transferred: self.bytes_transferred.saturating_add(length),
            total_bytes: total,
        }
    }
}

} // verus!
