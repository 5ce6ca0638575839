//! The messages exchanged with the object store, as plain values.
//!
//! The library decides which request comes next and judges each response; the
//! caller sends the one and reports the other.

use vstd::prelude::*;
use crate::error::StoreError;
use crate::signing::text_of;

verus! {

/// How long a signature stays valid, in seconds. A signed URL is meant to be used at once.
pub const SIGNATURE_VALIDITY_SECS: u64 = 1;

/// The number of the single part that an upload consists of.
pub const PART_NUMBER: u16 = 1;

/// The HTTP method of a request.
#[derive(Debug, Clone, Copy, PartialEq, Eq, Structural)]
pub enum Method {
    Get,
    Head,
    Put,
    Post,
    Delete,
}

/// What a request carries.
#[derive(Debug, Clone, PartialEq, Eq)]
pub enum Payload {
    /// Nothing.
    Empty,
    /// The archive that is being uploaded.
    Archive,
    /// The given text.
    Text(String),
}

pub ghost enum PayloadView {
    Empty,
    Archive,
    Text(Seq<char>),
}

impl View for Payload {
    type V = PayloadView;

    open spec fn view(&self) -> PayloadView {
        match *self {
            Payload::Empty => PayloadView::Empty,
            Payload::Archive => PayloadView::Archive,
            Payload::Text(t) => PayloadView::Text(t@),
        }
    }
}

/// A request for the caller to send: the URL is signed and complete.
#[derive(Debug, Clone, PartialEq, Eq)]
pub struct Request {
    pub method: Method,
    pub url: String,
    pub payload: Payload,
}

pub ghost struct RequestView {
    pub method: Method,
    pub url: Seq<char>,
    pub payload: PayloadView,
}

impl View for Request {
    type V = RequestView;

    open spec fn view(&self) -> RequestView {
        RequestView { method: self.method, url: self.url@, payload: self.payload@ }
    }
}

/// What the caller reports of a response.
#[derive(Debug, Clone, PartialEq, Eq)]
pub struct Response {
    /// The HTTP status code.
    pub status: u16,
    /// The value of the ETag header, if there is one.
    pub etag: Option<String>,
    /// The body as text; empty where the body went elsewhere or there is none.
    pub body: String,
}

pub ghost struct ResponseView {
    pub status: u16,
    pub etag: Option<Seq<char>>,
    pub body: Seq<char>,
}

impl View for Response {
    type V = ResponseView;

    open spec fn view(&self) -> ResponseView {
        ResponseView { status: self.status, etag: text_of(self.etag), body: self.body@ }
    }
}

/// What the caller does next.
#[derive(Debug, Clone, PartialEq, Eq)]
pub enum Action {
    /// Send this request and report the response.
    Send(Request),
    /// Nothing: the operation has succeeded.
    Done,
    /// Nothing: the operation has failed for this reason.
    Fail(StoreError),
}

pub ghost enum ActionView {
    Send(RequestView),
    Done,
    Fail(StoreError),
}

impl View for Action {
    type V = ActionView;

    open spec fn view(&self) -> ActionView {
        match *self {
            Action::Send(r) => ActionView::Send(r@),
            Action::Done => ActionView::Done,
            Action::Fail(e) => ActionView::Fail(e),
        }
    }
}

/// Whether a status code reports success.
pub open spec fn is_success(status: u16) -> bool {
    200 <= status <= 299
}

/// Whether a status code reports success.
pub fn status_is_success(status: u16) -> (ok: bool)
    ensures
        ok == is_success(status),
{
    200 <= status && status <= 299
}

/// The request that is sent once a URL has been signed for it, and the failure where none was.
pub open spec fn signed_action(method: Method, url: Option<Seq<char>>, payload: PayloadView) -> ActionView {
    match url {
        Some(u) => ActionView::Send(RequestView { method, url: u, payload }),
        None => ActionView::Fail(StoreError::Unsignable),
    }
}

/// Turns the outcome of signing into the caller's next action.
pub fn action_for(method: Method, url: Option<String>, payload: Payload) -> (action: Action)
    ensures
        action@ == signed_action(method, text_of(url), payload@),
{
    match url {
        Some(u) => Action::Send(Request { method, url: u, payload }),
        None => Action::Fail(StoreError::Unsignable),
    }
}

} // verus!
