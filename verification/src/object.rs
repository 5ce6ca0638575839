//! Fetching and removing one object.

use vstd::prelude::*;
use crate::error::StoreError;
use crate::protocol::{
    is_success, status_is_success, Method, Payload, PayloadView, Request, RequestView,
    SIGNATURE_VALIDITY_SECS,
};
use crate::session::S3Client;
use crate::signing::{
    presigned_delete_object, presigned_get_object, sign_delete_object, sign_get_object, signable,
    text_of,
};

verus! {

/// The query parameter that tells the store to answer past any cache.
pub open spec fn cache_override_key() -> Seq<char> {
    "response-cache-control"@
}

/// The value of that query parameter.
pub open spec fn cache_override_value() -> Seq<char> {
    "no-cache, no-store"@
}

/// The request made of a signed URL, or the failure where nothing was signed.
pub open spec fn plain_request(method: Method, url: Option<Seq<char>>) -> Result<
    RequestView,
    StoreError,
> {
    match url {
        Some(u) => Ok(RequestView { method, url: u, payload: PayloadView::Empty }),
        None => Err(StoreError::Unsignable),
    }
}

/// The view of a request that may have failed to be signed.
pub open spec fn request_view(r: Result<Request, StoreError>) -> Result<RequestView, StoreError> {
    match r {
        Ok(q) => Ok(q@),
        Err(e) => Err(e),
    }
}

/// Makes a request without payload of a signed URL.
pub fn request_for(method: Method, url: Option<String>) -> (request: Result<Request, StoreError>)
    ensures
        request_view(request) == plain_request(method, text_of(url)),
{
    match url {
        Some(u) => Ok(Request { method, url: u, payload: Payload::Empty }),
        None => Err(StoreError::Unsignable),
    }
}

/// Judges the response to a download: its body is an archive only where the
/// status reports success, and is written nowhere otherwise.
pub fn accept_download(status: u16) -> (verdict: Result<(), StoreError>)
    ensures
        verdict == if is_success(status) {
            Ok::<(), StoreError>(())
        } else {
            Err::<(), StoreError>(StoreError::Status(status))
        },
{
    if status_is_success(status) {
        Ok(())
    } else {
        Err(StoreError::Status(status))
    }
}

impl S3Client {
    /// The signed download request for an object key. It asks the store to
    /// answer past any cache.
    ///
    /// `now` is the time of signing, in seconds since the Unix epoch.
    pub fn get(&self, name: &str, now: i64) -> (request: Result<Request, StoreError>)
        ensures
            request_view(request) == plain_request(
                Method::Get,
                signable(
                    self@,
                    presigned_get_object(
                        self@,
                        name@,
                        cache_override_key(),
                        cache_override_value(),
                        SIGNATURE_VALIDITY_SECS,
                        now,
                    ),
                ),
            ),
    {
        let url = if self.is_usable() {
            sign_get_object(
                self,
                name,
                "response-cache-control",
                "no-cache, no-store",
                SIGNATURE_VALIDITY_SECS,
                now,
            )
        } else {
            None
        };
        request_for(Method::Get, url)
    }

    /// The signed removal request for an object key. What the store answers to
    /// it is not judged.
    pub fn delete(&self, object: &str, now: i64) -> (request: Result<Request, StoreError>)
        ensures
            request_view(request) == plain_request(
                Method::Delete,
                signable(
                    self@,
                    presigned_delete_object(self@, object@, SIGNATURE_VALIDITY_SECS, now),
                ),
            ),
    {
        let url = if self.is_usable() {
            sign_delete_object(self, object, SIGNATURE_VALIDITY_SECS, now)
        } else {
            None
        };
        request_for(Method::Delete, url)
    }
}

} // verus!
