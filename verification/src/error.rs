//! The error taxonomy shared by every component.

use vstd::prelude::*;

verus! {

/// A failure reported by, or on behalf of, the object store.
#[derive(Debug, Clone, Copy, PartialEq, Eq, Structural)]
pub enum StoreError {
    /// No request could be signed for the session, object key and time given.
    Unsignable,
    /// The store answered with a status outside the success range.
    Status(u16),
    /// The answer to "create multipart upload" carried no upload id.
    MissingUploadId,
    /// The answer to "upload part" carried no ETag header.
    MissingEtag,
    /// The bucket did not exist and the store refused to create it.
    BucketCreationFailed(u16),
}

/// A failure of the transfer pipeline.
#[derive(Debug, Clone, Copy, PartialEq, Eq, Structural)]
pub enum TransferError {
    /// The path pattern at this position is not a well-formed glob pattern.
    Pattern(usize),
    /// The file entry at this position could not be read or archived.
    Io(usize),
    /// A local archive file could not be written or removed.
    LocalFile,
    /// The object store failed.
    Store(StoreError),
    /// The configured endpoint and bucket name form no address that requests can go to.
    Config,
    /// The archive is truncated, not a compressed stream, or holds a malformed member.
    Format,
}

} // verus!
