//! Packing file entries into a gzip-compressed tar archive, and unpacking one.
//!
//! Both directions work on bytes in memory: the caller reads the files before
//! packing and writes the members after unpacking. Packing is all or nothing:
//! one entry that cannot be archived and no archive comes out.

use std::io::{Read, Write};
use vstd::prelude::*;
use crate::error::TransferError;

verus! {

/// The type flag of a regular file in a tar header.
pub const REGULAR_FILE: u8 = 48;

/// What the caller found at a path.
#[derive(Debug, Clone, PartialEq, Eq)]
pub enum Source {
    /// A regular file with these permission bits and this content.
    File { mode: u32, content: Vec<u8> },
    /// A directory. It has no content of its own and is left out of the archive.
    Directory,
    /// Nothing that could be read.
    Unreadable,
}

/// A path to archive, with what was found there. The member is named after
/// the path, in the form in which the tar format stores it: without `.`
/// components and repeated separators.
#[derive(Debug, Clone, PartialEq, Eq)]
pub struct FileEntry {
    pub path: String,
    pub source: Source,
}

/// The kind of a member.
#[derive(Debug, Clone, Copy, PartialEq, Eq, Structural)]
pub enum MemberKind {
    File,
    Directory,
    Symlink,
    HardLink,
    /// A device, a pipe, or anything else that has no content and no target.
    Other,
}

/// A member of an archive.
#[derive(Debug, Clone, PartialEq, Eq)]
pub struct Member {
    /// The member's name: a path relative to where the archive is unpacked.
    pub path: String,
    /// Where a link points: for a symbolic link relative to the link, for a
    /// hard link relative to where the archive is unpacked.
    pub target: Option<String>,
    /// Its permission bits.
    pub mode: u32,
    /// The type flag of its tar header.
    pub type_flag: u8,
    /// Its content.
    pub content: Vec<u8>,
}

pub ghost struct MemberView {
    pub path: Seq<char>,
    pub target: Option<Seq<char>>,
    pub mode: u32,
    pub type_flag: u8,
    pub content: Seq<u8>,
}

impl View for Member {
    type V = MemberView;

    open spec fn view(&self) -> MemberView {
        MemberView {
            path: self.path@,
            target: match self.target {
                Some(t) => Some(t@),
                None => None,
            },
            mode: self.mode,
            type_flag: self.type_flag,
            content: self.content@,
        }
    }
}

/// The kind that a type flag stands for.
pub open spec fn kind_of(type_flag: u8) -> MemberKind {
    if type_flag == 48 || type_flag == 55 {
        MemberKind::File
    } else if type_flag == 53 {
        MemberKind::Directory
    } else if type_flag == 50 {
        MemberKind::Symlink
    } else if type_flag == 49 {
        MemberKind::HardLink
    } else {
        MemberKind::Other
    }
}

impl Member {
    /// The member's kind.
    pub fn kind(&self) -> (kind: MemberKind)
        ensures
            kind == kind_of(self.type_flag),
    {
        let flag: u8 = self.type_flag;
        if flag == 48 || flag == 55 {
            MemberKind::File
        } else if flag == 53 {
            MemberKind::Directory
        } else if flag == 50 {
            MemberKind::Symlink
        } else if flag == 49 {
            MemberKind::HardLink
        } else {
            MemberKind::Other
        }
    }
}

/// The members that a list holds, as plain values.
pub open spec fn member_views(members: Seq<Member>) -> Seq<MemberView> {
    members.map_values(|m: Member| m@)
}

/// The bytes of an optional buffer.
pub open spec fn bytes_of(buffer: Option<Vec<u8>>) -> Option<Seq<u8>> {
    match buffer {
        Some(b) => Some(b@),
        None => None,
    }
}

/// The members of an optional list.
pub open spec fn listing_of(members: Option<Vec<Member>>) -> Option<Seq<MemberView>> {
    match members {
        Some(m) => Some(member_views(m@)),
        None => None,
    }
}

/// A tar archive under construction in memory.
#[verifier::external_body]
pub struct TarWriter {
    inner: tar::Builder<Vec<u8>>,
}

/// The entries that a writer's buffer holds so far, in order.
pub uninterp spec fn appended(writer: TarWriter) -> Seq<MemberView>;

/// The name under which `tar::Builder::append_data` stores a path, if it takes the path.
pub uninterp spec fn tar_member_name(path: Seq<char>) -> Option<Seq<char>>;

/// The bytes that `tar::Builder::into_inner` returns for a writer that holds these entries.
pub uninterp spec fn tar_image(members: Seq<MemberView>) -> Seq<u8>;

/// The entries that `tar::Archive::entries` finds in a tar image.
pub uninterp spec fn tar_listing(image: Seq<u8>) -> Option<Seq<MemberView>>;

/// The bytes that `flate2::write::GzEncoder` makes of a buffer at its default level.
pub uninterp spec fn gzip_image(data: Seq<u8>) -> Seq<u8>;

/// The bytes that `flate2::read::GzDecoder` reads out of a compressed stream.
pub uninterp spec fn gunzip_image(data: Seq<u8>) -> Option<Seq<u8>>;

/// The permission bits that a tar header keeps of a mode: its field has room
/// for seven octal digits, and the digits above them are dropped.
pub open spec fn kept_mode(mode: u32) -> u32 {
    mode % 0x20_0000
}

impl TarWriter {
    /// Starts an empty archive with `tar::Builder::new` on an empty buffer.
    #[verifier::external_body]
    pub(crate) fn new() -> (writer: TarWriter)
        ensures
            appended(writer) == Seq::<MemberView>::empty(),
    {
        TarWriter { inner: tar::Builder::new(Vec::new()) }
    }

    /// Appends one regular file with `tar::Builder::append_data`, under a GNU
    /// header that carries the content's length and the permission bits.
    ///
    /// Whether the builder takes the entry depends on the path alone: it
    /// writes into memory, so only the path can be turned down. Where it is
    /// taken, the buffer's last entry is a regular file without link target.
    /// Its name is not the path as given but what `Header::set_path` makes of
    /// it, which the contract names; its mode is the seven lowest octal
    /// digits of the mode given, which is all that `Header::set_mode` writes.
    #[verifier::external_body]
    pub(crate) fn append(&mut self, path: &str, mode: u32, content: &[u8]) -> (taken: bool)
        ensures
            taken == tar_member_name(path@) is Some,
            taken ==> appended(*final(self)) == appended(*old(self)).push(
                MemberView {
                    path: tar_member_name(path@)->0,
                    target: None,
                    mode: kept_mode(mode),
                    type_flag: REGULAR_FILE,
                    content: content@,
                },
            ),
    {
        let mut header = tar::Header::new_gnu();
        header.set_size(content.len() as u64);
        header.set_mode(mode);
        self.inner.append_data(&mut header, path, content).is_ok()
    }

    /// Ends the archive with `tar::Builder::into_inner` and hands out its
    /// bytes. The call can fail only where writing the end mark fails, and
    /// a buffer in memory takes every write.
    #[verifier::external_body]
    pub(crate) fn finish(self) -> (image: Vec<u8>)
        ensures
            image@ == tar_image(appended(self)),
    {
        self.inner.into_inner().unwrap_or_default()
    }
}

/// Lists a tar image with `tar::Archive::entries`: each entry's path, link
/// target, mode, type flag and content, in the order of the image. There is
/// no listing where an entry is malformed or its path is no text; a link
/// target that is no text is left out.
#[verifier::external_body]
fn read_listing(image: &[u8]) -> (members: Option<Vec<Member>>)
    ensures
        listing_of(members) == tar_listing(image@),
{
    let mut archive = tar::Archive::new(image);
    let mut members = Vec::new();
    for entry in archive.entries().ok()? {
        let mut entry = entry.ok()?;
        let path = entry.path().ok()?.to_str()?.to_owned();
        let target = entry.link_name().ok()?.and_then(|t| t.to_str().map(str::to_owned));
        let mode = entry.header().mode().ok()?;
        let type_flag = entry.header().entry_type().as_byte();
        let mut content = Vec::new();
        entry.read_to_end(&mut content).ok()?;
        members.push(Member { path, target, mode, type_flag, content });
    }
    Some(members)
}

/// Compresses a buffer with `flate2::write::GzEncoder` at the default level.
/// The encoder writes into memory, which takes every write.
#[verifier::external_body]
fn gzip(data: &[u8]) -> (packed: Vec<u8>)
    ensures
        packed@ == gzip_image(data@),
{
    let mut encoder = flate2::write::GzEncoder::new(Vec::new(), flate2::Compression::default());
    encoder.write_all(data).unwrap_or_default();
    encoder.finish().unwrap_or_default()
}

/// Decompresses a stream with `flate2::read::GzDecoder`.
#[verifier::external_body]
fn gunzip(data: &[u8]) -> (plain: Option<Vec<u8>>)
    ensures
        bytes_of(plain) == gunzip_image(data@),
{
    let mut decoder = flate2::read::GzDecoder::new(data);
    let mut plain = Vec::new();
    decoder.read_to_end(&mut plain).ok()?;
    Some(plain)
}

/// Whether an entry can go into an archive.
pub open spec fn archivable(entry: FileEntry) -> bool {
    match entry.source {
        Source::File { .. } => tar_member_name(entry.path@) is Some,
        Source::Directory => true,
        Source::Unreadable => false,
    }
}

/// The member that a regular file becomes.
pub open spec fn member_of(path: Seq<char>, mode: u32, content: Seq<u8>) -> MemberView {
    MemberView {
        path: tar_member_name(path)->0,
        target: None,
        mode: kept_mode(mode),
        type_flag: REGULAR_FILE,
        content,
    }
}

/// The members that a list of entries becomes: its regular files, in order.
pub open spec fn members_of(entries: Seq<FileEntry>) -> Seq<MemberView>
    decreases entries.len(),
{
    if entries.len() == 0 {
        Seq::empty()
    } else {
        let before = members_of(entries.drop_last());
        match entries.last().source {
            Source::File { mode, content } => before.push(
                member_of(entries.last().path@, mode, content@),
            ),
            _ => before,
        }
    }
}

/// The compressed archive of a list of members.
pub open spec fn archive_image(members: Seq<MemberView>) -> Seq<u8> {
    gzip_image(tar_image(members))
}

/// The entries of a compressed archive.
pub open spec fn archive_listing(archive: Seq<u8>) -> Option<Seq<MemberView>> {
    match gunzip_image(archive) {
        Some(image) => tar_listing(image),
        None => None,
    }
}

/// Packs entries into one compressed archive.
///
/// Fails at the first entry that is unreadable or whose path the archive
/// format does not take, and then yields no archive at all. Otherwise the
/// archive holds the regular files in the order given, each under the name
/// that the format makes of its path.
pub fn pack(entries: &Vec<FileEntry>) -> (packed: Result<Vec<u8>, TransferError>)
    ensures
        match packed {
            Ok(bytes) => {
                &&& forall|k: int| 0 <= k < entries.len() ==> archivable(#[trigger] entries[k])
                &&& bytes@ == archive_image(members_of(entries@))
            },
            Err(TransferError::Io(i)) => {
                &&& i < entries.len()
                &&& !archivable(entries[i as int])
                &&& forall|k: int| 0 <= k < i ==> archivable(#[trigger] entries[k])
            },
            Err(_) => false,
        },
        (exists|k: int| 0 <= k < entries.len() && (#[trigger] entries[k]).source is Unreadable)
            ==> packed is Err,
{
    let mut writer = TarWriter::new();
    let mut i: usize = 0;
    while i < entries.len()
        invariant
            i <= entries.len(),
            forall|k: int| 0 <= k < i ==> archivable(#[trigger] entries[k]),
            appended(writer) == members_of(entries@.take(i as int)),
        decreases entries.len() - i,
    {
        let entry = &entries[i];
        proof {
            assert(entries@.take(i + 1).drop_last() =~= entries@.take(i as int));
        }
        match &entry.source {
            Source::File { mode, content } => {
                if !writer.append(entry.path.as_str(), *mode, content.as_slice()) {
                    return Err(TransferError::Io(i));
                }
            },
            Source::Directory => {},
            Source::Unreadable => {
                return Err(TransferError::Io(i));
            },
        }
        i += 1;
    }
    proof {
        assert(entries@.take(i as int) =~= entries@);
    }
    let image = writer.finish();
    Ok(gzip(image.as_slice()))
}

/// Whether a ".." component starts at a position of a path.
pub open spec fn steps_up_at(path: Seq<char>, i: int) -> bool {
    &&& 0 <= i
    &&& i + 2 <= path.len()
    &&& (i == 0 || path[i - 1] == '/')
    &&& path[i] == '.'
    &&& path[i + 1] == '.'
    &&& (i + 2 == path.len() || path[i + 2] == '/')
}

/// Whether a path stays below the directory that it starts from: it is not
/// empty, not absolute, and has no ".." component.
pub open spec fn stays_inside(path: Seq<char>) -> bool {
    &&& path.len() > 0
    &&& path[0] != '/'
    &&& forall|i: int| !steps_up_at(path, i)
}

/// Decides whether a path stays below the directory that it starts from.
pub fn path_stays_inside(path: &str) -> (inside: bool)
    ensures
        inside == stays_inside(path@),
{
    let n: usize = path.unicode_len();
    if n == 0 {
        return false;
    }
    if path.get_char(0) == '/' {
        return false;
    }
    let mut i: usize = 0;
    let mut at_start: bool = true;
    while i + 1 < n
        invariant
            n == path@.len(),
            i < n,
            at_start == (i == 0 || path@[i - 1] == '/'),
            forall|k: int| 0 <= k < i ==> !steps_up_at(path@, k),
        decreases n - i,
    {
        let here = path.get_char(i);
        if at_start && here == '.' && path.get_char(i + 1) == '.' {
            if i + 2 == n {
                assert(steps_up_at(path@, i as int));
                return false;
            }
            if path.get_char(i + 2) == '/' {
                assert(steps_up_at(path@, i as int));
                return false;
            }
        }
        at_start = here == '/';
        i += 1;
    }
    assert forall|k: int| !steps_up_at(path@, k) by {
        if 0 <= k && k + 2 <= n {
            assert(k < i);
        }
    }
    true
}

/// Whether a member is a link.
pub open spec fn is_link(member: MemberView) -> bool {
    kind_of(member.type_flag) == MemberKind::Symlink || kind_of(member.type_flag)
        == MemberKind::HardLink
}

/// Whether unpacking a member touches nothing outside the directory that the
/// archive is unpacked into: its path stays inside, and, for a link, it has
/// a target that stays inside too.
pub open spec fn fits(member: MemberView) -> bool {
    &&& stays_inside(member.path)
    &&& is_link(member) ==> member.target is Some && stays_inside(member.target->0)
}

/// Whether every member of a listing fits.
pub open spec fn all_fit(listing: Seq<MemberView>) -> bool {
    forall|k: int| 0 <= k < listing.len() ==> fits(#[trigger] listing[k])
}

/// Decides whether unpacking a member touches nothing outside the directory
/// that the archive is unpacked into.
pub fn member_fits(member: &Member) -> (ok: bool)
    ensures
        ok == fits(member@),
{
    if !path_stays_inside(member.path.as_str()) {
        return false;
    }
    match member.kind() {
        MemberKind::Symlink | MemberKind::HardLink => match &member.target {
            Some(target) => path_stays_inside(target.as_str()),
            None => false,
        },
        _ => true,
    }
}

/// What unpacking yields for the entries found in an archive, if any were
/// found: all of them, or a format error if one does not fit.
pub open spec fn unpacked(listing: Option<Seq<MemberView>>) -> Result<Seq<MemberView>, TransferError> {
    match listing {
        Some(all) => if all_fit(all) {
            Ok(all)
        } else {
            Err(TransferError::Format)
        },
        None => Err(TransferError::Format),
    }
}

/// The members of a result, as plain values.
pub open spec fn unpack_view(r: Result<Vec<Member>, TransferError>) -> Result<
    Seq<MemberView>,
    TransferError,
> {
    match r {
        Ok(members) => Ok(member_views(members@)),
        Err(e) => Err(e),
    }
}

/// Packing makes regular files only, without link targets, and no more
/// members than entries.
pub proof fn members_are_files(entries: Seq<FileEntry>)
    ensures
        members_of(entries).len() <= entries.len(),
        forall|k: int|
            0 <= k < members_of(entries).len() ==> {
                &&& kind_of((#[trigger] members_of(entries)[k]).type_flag) == MemberKind::File
                &&& members_of(entries)[k].target is None
            },
    decreases entries.len(),
{
    if entries.len() > 0 {
        members_are_files(entries.drop_last());
    }
}

/// The archive side of a round trip: where decoding an archive finds the
/// members that were packed, and each of their names stays inside the
/// directory of unpacking, unpacking yields exactly the packed files, with
/// content as given, in the order given, and nothing else.
pub proof fn unpack_returns_packed_files(entries: Seq<FileEntry>, archive: Seq<u8>)
    ensures
        (archive_listing(archive) == Some(members_of(entries)) && forall|k: int|
            0 <= k < members_of(entries).len() ==> stays_inside(
                (#[trigger] members_of(entries)[k]).path,
            )) ==> unpacked(archive_listing(archive)) == Ok::<Seq<MemberView>, TransferError>(
            members_of(entries),
        ),
{
    members_are_files(entries);
}

/// Accepts the listing of an archive if every member fits, and refuses it
/// as malformed otherwise, or where there is no listing.
pub fn accept_listing(listing: Option<Vec<Member>>) -> (members: Result<Vec<Member>, TransferError>)
    ensures
        unpack_view(members) == unpacked(listing_of(listing)),
{
    let all = match listing {
        Some(all) => all,
        None => {
            return Err(TransferError::Format);
        },
    };
    let ghost views = member_views(all@);
    let mut i: usize = 0;
    while i < all.len()
        invariant
            i <= all.len(),
            views == member_views(all@),
            listing_of(listing) == Some(views),
            forall|k: int| 0 <= k < i ==> fits(#[trigger] views[k]),
        decreases all.len() - i,
    {
        if !member_fits(&all[i]) {
            proof {
                assert(!fits(views[i as int]));
            }
            return Err(TransferError::Format);
        }
        i += 1;
    }
    Ok(all)
}

/// Unpacks a compressed archive into its members: regular files,
/// directories, links and whatever else it holds, in the order of the archive.
///
/// Fails with a format error where the bytes are no compressed stream, the
/// stream holds no well-formed tar image, or a member's path or a link's
/// target leads outside the directory that the archive is unpacked into.
pub fn unpack(archive: &[u8]) -> (members: Result<Vec<Member>, TransferError>)
    ensures
        unpack_view(members) == unpacked(archive_listing(archive@)),
{
    match gunzip(archive) {
        Some(image) => accept_listing(read_listing(image.as_slice())),
        None => Err(TransferError::Format),
    }
}

} // verus!
