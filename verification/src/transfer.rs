//! The two transfers: files to an object, and an object back to files.
//!
//! An upload packs the entries, settles the object key, hands the archive to
//! the upload exchange, and reports the key once the local archive file is
//! gone. A download judges the store's answer and unpacks what it carried.

use vstd::prelude::*;
use crate::archive::{
    archivable, archive_image, archive_listing, members_of, pack, unpack, unpack_view, unpacked,
    FileEntry, Member, MemberView,
};
use crate::error::{StoreError, TransferError};
use crate::object::accept_download;
use crate::protocol::is_success;

verus! {

/// The name of the local archive file that an upload goes through.
pub const UPLOAD_ARCHIVE_NAME: &'static str = "export.tar.gz";

/// The name of the local archive file that a download goes through.
pub const DOWNLOAD_ARCHIVE_NAME: &'static str = "local_download.tar.gz";

/// Whether a character is a decimal digit or one of the letters a to f.
pub open spec fn is_lower_hex(c: char) -> bool {
    ('0' <= c && c <= '9') || ('a' <= c && c <= 'f')
}

/// Whether a position of a unique id holds a hyphen.
pub open spec fn is_hyphen_position(i: int) -> bool {
    i == 8 || i == 13 || i == 18 || i == 23
}

/// Whether a text has the form of a random unique id: 36 characters, in
/// groups of 8, 4, 4, 4 and 12 hexadecimal digits that hyphens separate,
/// where the third group starts with the version digit 4 and the fourth
/// with a variant digit, one of 8, 9, a and b.
pub open spec fn is_unique_id(text: Seq<char>) -> bool {
    &&& text.len() == 36
    &&& forall|i: int|
        0 <= i < 36 ==> if is_hyphen_position(i) {
            #[trigger] text[i] == '-'
        } else {
            is_lower_hex(text[i])
        }
    &&& text[14] == '4'
    &&& (text[19] == '8' || text[19] == '9' || text[19] == 'a' || text[19] == 'b')
}

/// Mints a random unique id with `uuid::Uuid::new_v4` and writes it out in
/// the hyphenated lower-case form. The contract states the form only, with
/// the version and variant digits that `new_v4` sets: which id comes out is
/// left to chance.
#[verifier::external_body]
fn fresh_id() -> (id: String)
    ensures
        is_unique_id(id@),
{
    uuid::Uuid::new_v4().to_string()
}

/// Settles the object key of an upload: the key that was supplied, or a
/// freshly minted unique id where none was.
pub fn resolve_object_key(object: Option<String>) -> (key: String)
    ensures
        match object {
            Some(supplied) => key@ == supplied@,
            None => is_unique_id(key@),
        },
        object is None ==> key@.len() == 36,
{
    match object {
        Some(supplied) => supplied,
        None => fresh_id(),
    }
}

/// What an upload sends: the archive, and the key to store it under.
pub struct UploadPlan {
    pub archive: Vec<u8>,
    pub object: String,
}

/// Prepares an upload: packs the entries and settles the object key.
///
/// Fails, without a plan, where packing fails.
pub fn upload_artifacts(entries: &Vec<FileEntry>, object: Option<String>) -> (plan: Result<
    UploadPlan,
    TransferError,
>)
    ensures
        match plan {
            Ok(p) => {
                &&& forall|k: int| 0 <= k < entries.len() ==> archivable(#[trigger] entries[k])
                &&& p.archive@ == archive_image(members_of(entries@))
                &&& match object {
                    Some(supplied) => p.object@ == supplied@,
                    None => is_unique_id(p.object@),
                }
            },
            Err(TransferError::Io(i)) => {
                &&& i < entries.len()
                &&& !archivable(entries[i as int])
                &&& forall|k: int| 0 <= k < i ==> archivable(#[trigger] entries[k])
            },
            Err(_) => false,
        },
{
    match pack(entries) {
        Ok(archive) => Ok(UploadPlan { archive, object: resolve_object_key(object) }),
        Err(e) => Err(e),
    }
}

/// What an upload reports, given how the exchange with the store ended and
/// whether the local archive file could be removed afterwards. A failure of
/// the store comes first: it is reported whatever became of the file.
pub open spec fn upload_report(
    object: Seq<char>,
    stored: Result<(), StoreError>,
    removed: bool,
) -> Result<Seq<char>, TransferError> {
    match stored {
        Err(e) => Err(TransferError::Store(e)),
        Ok(_) => if removed {
            Ok(object)
        } else {
            Err(TransferError::LocalFile)
        },
    }
}

/// The text of a key that may have failed to be reported.
pub open spec fn key_view(r: Result<String, TransferError>) -> Result<Seq<char>, TransferError> {
    match r {
        Ok(k) => Ok(k@),
        Err(e) => Err(e),
    }
}

/// Concludes an upload. The caller removes the local archive file whether or
/// not the store took the archive. The first failure is the one reported: the
/// store's, and only where the store took the archive that of the removal.
pub fn finish_upload(object: String, stored: Result<(), StoreError>, removed: bool) -> (report:
    Result<String, TransferError>)
    ensures
        key_view(report) == upload_report(object@, stored, removed),
        stored matches Err(e) ==> report == Err::<String, TransferError>(TransferError::Store(e)),
{
    match stored {
        Err(e) => Err(TransferError::Store(e)),
        Ok(_) => if removed {
            Ok(object)
        } else {
            Err(TransferError::LocalFile)
        },
    }
}

/// What a download yields, given the status of the store's answer and the
/// entries found in its body.
pub open spec fn download_result(status: u16, body: Seq<u8>) -> Result<
    Seq<MemberView>,
    TransferError,
> {
    if is_success(status) {
        unpacked(archive_listing(body))
    } else {
        Err(TransferError::Store(StoreError::Status(status)))
    }
}

/// Concludes a download: judges the store's answer, and unpacks its body
/// where the answer reports success. The body of any other answer is not read.
pub fn download_artifacts(status: u16, body: &[u8]) -> (files: Result<Vec<Member>, TransferError>)
    ensures
        unpack_view(files) == download_result(status, body@),
{
    match accept_download(status) {
        Ok(_) => unpack(body),
        Err(e) => Err(TransferError::Store(e)),
    }
}

} // verus!
