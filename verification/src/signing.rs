//! Presigned URLs and message bodies, as `rusty_s3` produces them.
//!
//! Nothing in this module is proved. Each function hands a session's plain
//! values to `rusty_s3` and returns what came back. For a URL the contract
//! gives that result a name, so that callers can say exactly which URL a
//! request carries; the completion body is short enough to be written out.
//! A result of `None` means that `rusty_s3`, `url` or `jiff` turned the
//! values down: an endpoint that is no http(s) URL with a host, an object key
//! that forms no URL, or a time outside the range `jiff` supports.
//!
//! Signing needs a URL with an http(s) scheme and a host, and does not
//! return without one. `rusty_s3` makes sure of both for the endpoint, not
//! for the endpoint with the bucket's name worked in, which a name in the
//! form of a URL can replace. So every signing function asks for a session
//! whose base URL, read back from `rusty_s3`, has both.

use jiff::Timestamp;
use rusty_s3::actions::{
    CompleteMultipartUpload, CreateBucket, CreateMultipartUpload, DeleteObject, GetObject,
    HeadBucket, UploadPart,
};
use rusty_s3::{Bucket, S3Action, UrlStyle};
use std::time::Duration;
use vstd::prelude::*;
use crate::session::{base_view, session_signs, BaseUrl, BaseUrlView, S3Client, SessionView};

verus! {

/// The text of an optional string.
pub open spec fn text_of(s: Option<String>) -> Option<Seq<char>> {
    match s {
        Some(t) => Some(t@),
        None => None,
    }
}

/// The scheme and host of `Bucket::base_url` for the bucket that
/// `rusty_s3::Bucket::new` makes of an endpoint, an addressing style, a name
/// and a region; nothing where it makes none.
pub uninterp spec fn bucket_base(
    endpoint: Seq<char>,
    path_style: bool,
    name: Seq<char>,
    region: Seq<char>,
) -> Option<BaseUrlView>;

/// A signed URL, for a session that can sign; nothing for one that cannot.
pub open spec fn signable(session: SessionView, url: Option<Seq<char>>) -> Option<Seq<char>> {
    if session_signs(session) {
        url
    } else {
        None
    }
}

/// What `instant_xml` writes for a character of text: the five characters
/// that mark up XML become entities, every other stays.
pub open spec fn xml_escaped_char(c: char) -> Seq<char> {
    if c == '&' {
        "&amp;"@
    } else if c == '"' {
        "&quot;"@
    } else if c == '<' {
        "&lt;"@
    } else if c == '>' {
        "&gt;"@
    } else if c == '\'' {
        "&apos;"@
    } else {
        seq![c]
    }
}

/// What `instant_xml` writes for a text.
pub open spec fn xml_escaped(text: Seq<char>) -> Seq<char>
    decreases text.len(),
{
    if text.len() == 0 {
        Seq::empty()
    } else {
        xml_escaped(text.drop_last()) + xml_escaped_char(text.last())
    }
}

/// The body that completes an upload of one part: one `Part` element, with
/// the part's ETag and the part number 1.
pub open spec fn completion_xml(etag: Seq<char>) -> Seq<char> {
    "<CompleteMultipartUpload><Part><ETag>"@ + xml_escaped(etag)
        + "</ETag><PartNumber>1</PartNumber></Part></CompleteMultipartUpload>"@
}

/// The URL that `HeadBucket::sign_with_time` returns.
pub uninterp spec fn presigned_head_bucket(session: SessionView, expires: u64, now: i64) -> Option<
    Seq<char>,
>;

/// The URL that `CreateBucket::sign_with_time` returns.
pub uninterp spec fn presigned_create_bucket(
    session: SessionView,
    expires: u64,
    now: i64,
) -> Option<Seq<char>>;

/// The URL that `GetObject::sign_with_time` returns, with one extra query parameter.
pub uninterp spec fn presigned_get_object(
    session: SessionView,
    object: Seq<char>,
    query_key: Seq<char>,
    query_value: Seq<char>,
    expires: u64,
    now: i64,
) -> Option<Seq<char>>;

/// The URL that `DeleteObject::sign_with_time` returns.
pub uninterp spec fn presigned_delete_object(
    session: SessionView,
    object: Seq<char>,
    expires: u64,
    now: i64,
) -> Option<Seq<char>>;

/// The URL that `CreateMultipartUpload::sign_with_time` returns.
pub uninterp spec fn presigned_create_upload(
    session: SessionView,
    object: Seq<char>,
    expires: u64,
    now: i64,
) -> Option<Seq<char>>;

/// The URL that `UploadPart::sign_with_time` returns.
pub uninterp spec fn presigned_upload_part(
    session: SessionView,
    object: Seq<char>,
    part_number: u16,
    upload_id: Seq<char>,
    expires: u64,
    now: i64,
) -> Option<Seq<char>>;

/// The URL that `CompleteMultipartUpload::sign_with_time` returns for an upload of one part.
pub uninterp spec fn presigned_complete_upload(
    session: SessionView,
    object: Seq<char>,
    upload_id: Seq<char>,
    etag: Seq<char>,
    expires: u64,
    now: i64,
) -> Option<Seq<char>>;

/// The upload id that `CreateMultipartUpload::parse_response` finds in a response body.
pub uninterp spec fn upload_id_in(body: Seq<char>) -> Option<Seq<char>>;

/// Parses the endpoint as a URL, hands it to `rusty_s3::Bucket::new`, and
/// reads the scheme and the host out of `Bucket::base_url`.
#[verifier::external_body]
pub(crate) fn read_base(endpoint: &str, path_style: bool, name: &str, region: &str) -> (base: Option<
    BaseUrl,
>)
    ensures
        base_view(base) == bucket_base(endpoint@, path_style, name@, region@),
{
    let style = if path_style { UrlStyle::Path } else { UrlStyle::VirtualHost };
    let bucket = Bucket::new(endpoint.parse().ok()?, style, name.to_owned(), region.to_owned()).ok()?;
    let url = bucket.base_url();
    Some(BaseUrl { scheme: url.scheme().to_owned(), host: url.host_str().map(str::to_owned) })
}

/// Signs a bucket-metadata probe with `HeadBucket::sign_with_time`.
#[verifier::external_body]
pub(crate) fn sign_head_bucket(client: &S3Client, expires: u64, now: i64) -> (url: Option<String>)
    requires
        session_signs(client@),
    ensures
        text_of(url) == presigned_head_bucket(client@, expires, now),
{
    let b = &client.bucket;
    let style = if b.path_style { UrlStyle::Path } else { UrlStyle::VirtualHost };
    let bucket = Bucket::new(b.endpoint.parse().ok()?, style, b.name.clone(), b.region.clone()).ok()?;
    let keys = rusty_s3::Credentials::new(&client.credentials.access_key, &client.credentials.secret_key);
    let time = Timestamp::from_second(now).ok()?;
    let action = HeadBucket::new(&bucket, Some(&keys));
    Some(action.sign_with_time(Duration::from_secs(expires), &time).into())
}

/// Signs a bucket-creation request with `CreateBucket::sign_with_time`.
#[verifier::external_body]
pub(crate) fn sign_create_bucket(client: &S3Client, expires: u64, now: i64) -> (url: Option<String>)
    requires
        session_signs(client@),
    ensures
        text_of(url) == presigned_create_bucket(client@, expires, now),
{
    let b = &client.bucket;
    let style = if b.path_style { UrlStyle::Path } else { UrlStyle::VirtualHost };
    let bucket = Bucket::new(b.endpoint.parse().ok()?, style, b.name.clone(), b.region.clone()).ok()?;
    let keys = rusty_s3::Credentials::new(&client.credentials.access_key, &client.credentials.secret_key);
    let time = Timestamp::from_second(now).ok()?;
    let action = CreateBucket::new(&bucket, &keys);
    Some(action.sign_with_time(Duration::from_secs(expires), &time).into())
}

/// Signs a download with `GetObject::sign_with_time`, after adding one query
/// parameter through `Map::insert`.
#[verifier::external_body]
pub(crate) fn sign_get_object(
    client: &S3Client,
    object: &str,
    query_key: &str,
    query_value: &str,
    expires: u64,
    now: i64,
) -> (url: Option<String>)
    requires
        session_signs(client@),
    ensures
        text_of(url) == presigned_get_object(client@, object@, query_key@, query_value@, expires, now),
{
    let b = &client.bucket;
    let style = if b.path_style { UrlStyle::Path } else { UrlStyle::VirtualHost };
    let bucket = Bucket::new(b.endpoint.parse().ok()?, style, b.name.clone(), b.region.clone()).ok()?;
    let keys = rusty_s3::Credentials::new(&client.credentials.access_key, &client.credentials.secret_key);
    let time = Timestamp::from_second(now).ok()?;
    bucket.object_url(object).ok()?;
    let mut action = GetObject::new(&bucket, Some(&keys), object);
    action.query_mut().insert(query_key, query_value);
    Some(action.sign_with_time(Duration::from_secs(expires), &time).into())
}

/// Signs a removal with `DeleteObject::sign_with_time`.
#[verifier::external_body]
pub(crate) fn sign_delete_object(client: &S3Client, object: &str, expires: u64, now: i64) -> (url:
    Option<String>)
    requires
        session_signs(client@),
    ensures
        text_of(url) == presigned_delete_object(client@, object@, expires, now),
{
    let b = &client.bucket;
    let style = if b.path_style { UrlStyle::Path } else { UrlStyle::VirtualHost };
    let bucket = Bucket::new(b.endpoint.parse().ok()?, style, b.name.clone(), b.region.clone()).ok()?;
    let keys = rusty_s3::Credentials::new(&client.credentials.access_key, &client.credentials.secret_key);
    let time = Timestamp::from_second(now).ok()?;
    bucket.object_url(object).ok()?;
    let action = DeleteObject::new(&bucket, Some(&keys), object);
    Some(action.sign_with_time(Duration::from_secs(expires), &time).into())
}

/// Signs the opening of a multipart upload with `CreateMultipartUpload::sign_with_time`.
#[verifier::external_body]
pub(crate) fn sign_create_upload(client: &S3Client, object: &str, expires: u64, now: i64) -> (url:
    Option<String>)
    requires
        session_signs(client@),
    ensures
        text_of(url) == presigned_create_upload(client@, object@, expires, now),
{
    let b = &client.bucket;
    let style = if b.path_style { UrlStyle::Path } else { UrlStyle::VirtualHost };
    let bucket = Bucket::new(b.endpoint.parse().ok()?, style, b.name.clone(), b.region.clone()).ok()?;
    let keys = rusty_s3::Credentials::new(&client.credentials.access_key, &client.credentials.secret_key);
    let time = Timestamp::from_second(now).ok()?;
    bucket.object_url(object).ok()?;
    let action = CreateMultipartUpload::new(&bucket, Some(&keys), object);
    Some(action.sign_with_time(Duration::from_secs(expires), &time).into())
}

/// Signs the upload of one part with `UploadPart::sign_with_time`.
#[verifier::external_body]
pub(crate) fn sign_upload_part(
    client: &S3Client,
    object: &str,
    part_number: u16,
    upload_id: &str,
    expires: u64,
    now: i64,
) -> (url: Option<String>)
    requires
        session_signs(client@),
    ensures
        text_of(url) == presigned_upload_part(client@, object@, part_number, upload_id@, expires, now),
{
    let b = &client.bucket;
    let style = if b.path_style { UrlStyle::Path } else { UrlStyle::VirtualHost };
    let bucket = Bucket::new(b.endpoint.parse().ok()?, style, b.name.clone(), b.region.clone()).ok()?;
    let keys = rusty_s3::Credentials::new(&client.credentials.access_key, &client.credentials.secret_key);
    let time = Timestamp::from_second(now).ok()?;
    bucket.object_url(object).ok()?;
    let action = UploadPart::new(&bucket, Some(&keys), object, part_number, upload_id);
    Some(action.sign_with_time(Duration::from_secs(expires), &time).into())
}

/// Signs the completion of a one-part upload with `CompleteMultipartUpload::sign_with_time`.
#[verifier::external_body]
pub(crate) fn sign_complete_upload(
    client: &S3Client,
    object: &str,
    upload_id: &str,
    etag: &str,
    expires: u64,
    now: i64,
) -> (url: Option<String>)
    requires
        session_signs(client@),
    ensures
        text_of(url) == presigned_complete_upload(client@, object@, upload_id@, etag@, expires, now),
{
    let b = &client.bucket;
    let style = if b.path_style { UrlStyle::Path } else { UrlStyle::VirtualHost };
    let bucket = Bucket::new(b.endpoint.parse().ok()?, style, b.name.clone(), b.region.clone()).ok()?;
    let keys = rusty_s3::Credentials::new(&client.credentials.access_key, &client.credentials.secret_key);
    let time = Timestamp::from_second(now).ok()?;
    bucket.object_url(object).ok()?;
    let action = CompleteMultipartUpload::new(&bucket, Some(&keys), object, upload_id, Some(etag).into_iter());
    Some(action.sign_with_time(Duration::from_secs(expires), &time).into())
}

/// Builds the body of the completion request with
/// `CompleteMultipartUpload::body`, for one ETag. The body is the fixed
/// markup around the ETag as `instant_xml` escapes it; the part number is the
/// ETag's place in the list, which is 1. The bucket, the object key and the
/// upload id only serve to make the action: a session that signs has a bucket.
#[verifier::external_body]
pub(crate) fn build_completion_body(client: &S3Client, object: &str, upload_id: &str, etag: &str) -> (body:
    Option<String>)
    requires
        session_signs(client@),
    ensures
        text_of(body) == Some(completion_xml(etag@)),
{
    let b = &client.bucket;
    let style = if b.path_style { UrlStyle::Path } else { UrlStyle::VirtualHost };
    let bucket = Bucket::new(b.endpoint.parse().ok()?, style, b.name.clone(), b.region.clone()).ok()?;
    let keys = rusty_s3::Credentials::new(&client.credentials.access_key, &client.credentials.secret_key);
    let action = CompleteMultipartUpload::new(&bucket, Some(&keys), object, upload_id, Some(etag).into_iter());
    Some(action.body())
}

/// Reads the upload id out of a response body with `CreateMultipartUpload::parse_response`.
#[verifier::external_body]
pub(crate) fn parse_upload_id(body: &str) -> (id: Option<String>)
    ensures
        text_of(id) == upload_id_in(body@),
{
    let parsed = CreateMultipartUpload::parse_response(body).ok()?;
    Some(parsed.upload_id().to_owned())
}

} // verus!
