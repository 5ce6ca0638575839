//! Uploading one object as a multipart upload of a single part.
//!
//! The exchange has three requests: open the upload, send the part, complete
//! the upload. Its state records what the store has confirmed so far:
//! `Idle`, then `Initiated`, then `PartUploaded`, then `Completed`. A response
//! that is no success, or that lacks what the next request needs, ends the
//! exchange in `Failed`; nothing is retried and nothing is aborted on the store.

use vstd::prelude::*;
use crate::error::StoreError;
use crate::protocol::{
    action_for, is_success, signed_action, status_is_success, Action, ActionView, Method, Payload,
    PayloadView, RequestView, Response, ResponseView, PART_NUMBER, SIGNATURE_VALIDITY_SECS,
};
use crate::session::{S3Client, SessionView};
use crate::signing::{
    build_completion_body, completion_xml, parse_upload_id, presigned_complete_upload,
    presigned_create_upload, presigned_upload_part, sign_complete_upload, sign_create_upload,
    sign_upload_part, signable, text_of, upload_id_in,
};

verus! {

/// How far an upload has come.
#[derive(Debug, Clone, PartialEq, Eq)]
pub enum PutState {
    /// The store has confirmed nothing yet.
    Idle,
    /// The store has opened an upload under this id.
    Initiated { upload_id: String },
    /// The store has taken the part and named its ETag.
    PartUploaded { upload_id: String, etag: String },
    /// The store has assembled the object.
    Completed,
    /// The exchange has ended without an object.
    Failed(StoreError),
}

pub ghost enum PutStateView {
    Idle,
    Initiated { upload_id: Seq<char> },
    PartUploaded { upload_id: Seq<char>, etag: Seq<char> },
    Completed,
    Failed(StoreError),
}

impl View for PutState {
    type V = PutStateView;

    open spec fn view(&self) -> PutStateView {
        match *self {
            PutState::Idle => PutStateView::Idle,
            PutState::Initiated { upload_id } => PutStateView::Initiated { upload_id: upload_id@ },
            PutState::PartUploaded { upload_id, etag } => PutStateView::PartUploaded {
                upload_id: upload_id@,
                etag: etag@,
            },
            PutState::Completed => PutStateView::Completed,
            PutState::Failed(e) => PutStateView::Failed(e),
        }
    }
}

/// A state together with what the caller does in it.
#[derive(Debug, Clone, PartialEq, Eq)]
pub struct PutTurn {
    pub state: PutState,
    pub action: Action,
}

impl PutStateView {
    /// Whether the exchange has ended.
    pub open spec fn is_terminal(self) -> bool {
        self is Completed || self is Failed
    }

    /// The number of requests that the store has confirmed.
    pub open spec fn confirmed(self) -> nat {
        match self {
            PutStateView::Idle => 0,
            PutStateView::Initiated { .. } => 1,
            PutStateView::PartUploaded { .. } => 2,
            PutStateView::Completed => 3,
            PutStateView::Failed(_) => 0,
        }
    }
}

/// The state that follows when a response arrives.
///
/// `upload_id` is the upload id found in the response's body; it is read
/// only in `Idle`.
pub open spec fn state_after(
    state: PutStateView,
    status: u16,
    etag: Option<Seq<char>>,
    upload_id: Option<Seq<char>>,
) -> PutStateView {
    match state {
        PutStateView::Completed => PutStateView::Completed,
        PutStateView::Failed(e) => PutStateView::Failed(e),
        _ => if !is_success(status) {
            PutStateView::Failed(StoreError::Status(status))
        } else {
            match state {
                PutStateView::Idle => match upload_id {
                    Some(id) => PutStateView::Initiated { upload_id: id },
                    None => PutStateView::Failed(StoreError::MissingUploadId),
                },
                PutStateView::Initiated { upload_id: id } => match etag {
                    Some(tag) => PutStateView::PartUploaded { upload_id: id, etag: tag },
                    None => PutStateView::Failed(StoreError::MissingEtag),
                },
                _ => PutStateView::Completed,
            }
        },
    }
}

/// What the caller does in a state, given the URL and the body that were
/// produced for the state's request. The body is read only in `PartUploaded`.
pub open spec fn turn_in(
    state: PutStateView,
    url: Option<Seq<char>>,
    body: Option<Seq<char>>,
) -> (PutStateView, ActionView) {
    match state {
        PutStateView::Completed => (state, ActionView::Done),
        PutStateView::Failed(e) => (state, ActionView::Fail(e)),
        _ => {
            let ready = url is Some && (state is PartUploaded ==> body is Some);
            if !ready {
                (PutStateView::Failed(StoreError::Unsignable), ActionView::Fail(StoreError::Unsignable))
            } else {
                match state {
                    PutStateView::Idle => (state, signed_action(Method::Post, url, PayloadView::Empty)),
                    PutStateView::Initiated { .. } => (
                        state,
                        signed_action(Method::Put, url, PayloadView::Archive),
                    ),
                    _ => (state, signed_action(Method::Post, url, PayloadView::Text(body->0))),
                }
            }
        },
    }
}

/// The signed URL of the request that belongs to a state, if the state has
/// one, the session can sign, and the request can be signed.
pub open spec fn url_in(session: SessionView, object: Seq<char>, state: PutStateView, now: i64) -> Option<
    Seq<char>,
> {
    signable(
        session,
        match state {
            PutStateView::Idle => presigned_create_upload(
                session,
                object,
                SIGNATURE_VALIDITY_SECS,
                now,
            ),
            PutStateView::Initiated { upload_id } => presigned_upload_part(
                session,
                object,
                PART_NUMBER,
                upload_id,
                SIGNATURE_VALIDITY_SECS,
                now,
            ),
            PutStateView::PartUploaded { upload_id, etag } => presigned_complete_upload(
                session,
                object,
                upload_id,
                etag,
                SIGNATURE_VALIDITY_SECS,
                now,
            ),
            _ => None,
        },
    )
}

/// The body of the request that belongs to a state, if it has one: the
/// completion request lists the one part under its ETag.
pub open spec fn body_in(state: PutStateView) -> Option<Seq<char>> {
    match state {
        PutStateView::PartUploaded { etag, .. } => Some(completion_xml(etag)),
        _ => None,
    }
}

/// The turn that a session takes in a state at a given time.
pub open spec fn put_turn(session: SessionView, object: Seq<char>, state: PutStateView, now: i64) -> (
    PutStateView,
    ActionView,
) {
    turn_in(state, url_in(session, object, state, now), body_in(state))
}

/// The state that follows when a response arrives.
pub open spec fn put_after(state: PutStateView, reply: ResponseView) -> PutStateView {
    state_after(state, reply.status, reply.etag, upload_id_in(reply.body))
}

/// Once an exchange has ended, no response changes its state.
pub proof fn put_end_is_final(
    state: PutStateView,
    status: u16,
    etag: Option<Seq<char>>,
    upload_id: Option<Seq<char>>,
)
    requires
        state.is_terminal(),
    ensures
        state_after(state, status, etag, upload_id) == state,
{
}

/// A response moves a running exchange one confirmed request further, or ends
/// it in failure: no state is skipped and none is reached twice.
pub proof fn put_moves_one_step(
    state: PutStateView,
    status: u16,
    etag: Option<Seq<char>>,
    upload_id: Option<Seq<char>>,
)
    requires
        !state.is_terminal(),
    ensures
        ({
            let next = state_after(state, status, etag, upload_id);
            next is Failed || next.confirmed() == state.confirmed() + 1
        }),
{
}

/// No response leads back to `Idle`: an exchange is never restarted.
pub proof fn put_never_restarts(
    state: PutStateView,
    status: u16,
    etag: Option<Seq<char>>,
    upload_id: Option<Seq<char>>,
)
    ensures
        !(state_after(state, status, etag, upload_id) is Idle),
{
}

/// A response that reports no success ends a running exchange with that
/// status, whatever else the response holds.
pub proof fn put_fails_on_bad_status(
    state: PutStateView,
    status: u16,
    etag: Option<Seq<char>>,
    upload_id: Option<Seq<char>>,
)
    requires
        !state.is_terminal(),
        !is_success(status),
    ensures
        state_after(state, status, etag, upload_id) == PutStateView::Failed(
            StoreError::Status(status),
        ),
{
}

/// An upload is completed only by a successful response to the completion
/// request, and the part is confirmed only with an ETag.
pub proof fn put_completes_in_order(
    state: PutStateView,
    status: u16,
    etag: Option<Seq<char>>,
    upload_id: Option<Seq<char>>,
)
    ensures
        ({
            let next = state_after(state, status, etag, upload_id);
            &&& (next is Completed && !(state is Completed)) ==> (state is PartUploaded
                && is_success(status))
            &&& (next is PartUploaded) ==> (state is Initiated && is_success(status) && etag
                == Some(next->etag) && next->PartUploaded_upload_id == state->Initiated_upload_id)
            &&& (next is Initiated) ==> (state is Idle && is_success(status) && upload_id == Some(
                next->Initiated_upload_id,
            ))
        }),
{
}

/// Three successful responses complete an upload, if the first names an
/// upload id and the second an ETag; the part is then recorded under that id
/// and that ETag. Fewer responses never do.
pub proof fn put_completes_after_three(
    upload_id: Seq<char>,
    etag: Seq<char>,
    first: u16,
    second: u16,
    third: u16,
)
    requires
        is_success(first),
        is_success(second),
        is_success(third),
    ensures
        ({
            let initiated = state_after(PutStateView::Idle, first, None, Some(upload_id));
            let uploaded = state_after(initiated, second, Some(etag), None);
            let completed = state_after(uploaded, third, None, None);
            &&& initiated == PutStateView::Initiated { upload_id }
            &&& uploaded == PutStateView::PartUploaded { upload_id, etag }
            &&& completed == PutStateView::Completed
            &&& !initiated.is_terminal() && !uploaded.is_terminal()
        }),
{
}

/// The caller is asked to send a request exactly while the exchange runs, is
/// told of success exactly in `Completed`, and of failure exactly in `Failed`.
/// The three requests are a POST without payload, a PUT of the archive, and a
/// POST of the completion body, in this order.
pub proof fn put_action_matches_state(
    state: PutStateView,
    url: Option<Seq<char>>,
    body: Option<Seq<char>>,
)
    ensures
        ({
            let (next, action) = turn_in(state, url, body);
            &&& action is Send <==> !next.is_terminal()
            &&& action is Done <==> next is Completed
            &&& action is Fail <==> next is Failed
            &&& action is Fail ==> next == PutStateView::Failed(action->Fail_0)
            &&& action is Send ==> next == state
            &&& (action is Send && state is Idle) ==> action->Send_0 == (RequestView {
                method: Method::Post,
                url: url->0,
                payload: PayloadView::Empty,
            })
            &&& (action is Send && state is Initiated) ==> action->Send_0 == (RequestView {
                method: Method::Put,
                url: url->0,
                payload: PayloadView::Archive,
            })
            &&& (action is Send && state is PartUploaded) ==> action->Send_0 == (RequestView {
                method: Method::Post,
                url: url->0,
                payload: PayloadView::Text(body->0),
            })
        }),
{
}

impl PutState {
    /// Whether the exchange has ended.
    pub fn is_terminal(&self) -> (ended: bool)
        ensures
            ended == self@.is_terminal(),
    {
        match self {
            PutState::Completed => true,
            PutState::Failed(_) => true,
            _ => false,
        }
    }

    /// How the exchange ended, once it has.
    pub fn outcome(&self) -> (ended: Option<Result<(), StoreError>>)
        ensures
            ended == match self@ {
                PutStateView::Completed => Some(Ok::<(), StoreError>(())),
                PutStateView::Failed(e) => Some(Err::<(), StoreError>(e)),
                _ => None::<Result<(), StoreError>>,
            },
    {
        match self {
            PutState::Completed => Some(Ok(())),
            PutState::Failed(e) => Some(Err(*e)),
            _ => None,
        }
    }

    /// Judges a response: the state that follows, given the response's status,
    /// its ETag header and the upload id found in its body.
    pub fn after_reply(self, status: u16, etag: Option<String>, upload_id: Option<String>) -> (next:
        PutState)
        ensures
            next@ == state_after(self@, status, text_of(etag), text_of(upload_id)),
    {
        match self {
            PutState::Completed => PutState::Completed,
            PutState::Failed(e) => PutState::Failed(e),
            PutState::Idle => {
                if !status_is_success(status) {
                    PutState::Failed(StoreError::Status(status))
                } else {
                    match upload_id {
                        Some(id) => PutState::Initiated { upload_id: id },
                        None => PutState::Failed(StoreError::MissingUploadId),
                    }
                }
            },
            PutState::Initiated { upload_id: id } => {
                if !status_is_success(status) {
                    PutState::Failed(StoreError::Status(status))
                } else {
                    match etag {
                        Some(tag) => PutState::PartUploaded { upload_id: id, etag: tag },
                        None => PutState::Failed(StoreError::MissingEtag),
                    }
                }
            },
            PutState::PartUploaded { .. } => {
                if !status_is_success(status) {
                    PutState::Failed(StoreError::Status(status))
                } else {
                    PutState::Completed
                }
            },
        }
    }

    /// Pairs a state with the caller's action in it, given the URL and the body
    /// that were produced for the state's request.
    pub fn into_turn(self, url: Option<String>, body: Option<String>) -> (turn: PutTurn)
        ensures
            (turn.state@, turn.action@) == turn_in(self@, text_of(url), text_of(body)),
    {
        match self {
            PutState::Completed => PutTurn { state: PutState::Completed, action: Action::Done },
            PutState::Failed(e) => PutTurn { state: PutState::Failed(e), action: Action::Fail(e) },
            PutState::Idle => match url {
                Some(u) => PutTurn {
                    state: PutState::Idle,
                    action: action_for(Method::Post, Some(u), Payload::Empty),
                },
                None => unsignable(),
            },
            PutState::Initiated { upload_id } => match url {
                Some(u) => PutTurn {
                    state: PutState::Initiated { upload_id },
                    action: action_for(Method::Put, Some(u), Payload::Archive),
                },
                None => unsignable(),
            },
            PutState::PartUploaded { upload_id, etag } => match (url, body) {
                (Some(u), Some(b)) => PutTurn {
                    state: PutState::PartUploaded { upload_id, etag },
                    action: action_for(Method::Post, Some(u), Payload::Text(b)),
                },
                _ => unsignable(),
            },
        }
    }
}

/// The turn that ends an exchange for which no request could be signed.
fn unsignable() -> (turn: PutTurn)
    ensures
        turn.state@ == PutStateView::Failed(StoreError::Unsignable),
        turn.action@ == ActionView::Fail(StoreError::Unsignable),
{
    PutTurn {
        state: PutState::Failed(StoreError::Unsignable),
        action: Action::Fail(StoreError::Unsignable),
    }
}

impl S3Client {
    /// Signs the request that belongs to a state and pairs the state with it.
    fn put_resume(&self, object: &str, state: PutState, now: i64) -> (turn: PutTurn)
        ensures
            (turn.state@, turn.action@) == put_turn(self@, object@, state@, now),
    {
        let url = if !self.is_usable() {
            None
        } else {
            match &state {
                PutState::Idle => sign_create_upload(self, object, SIGNATURE_VALIDITY_SECS, now),
                PutState::Initiated { upload_id } => sign_upload_part(
                    self,
                    object,
                    PART_NUMBER,
                    upload_id.as_str(),
                    SIGNATURE_VALIDITY_SECS,
                    now,
                ),
                PutState::PartUploaded { upload_id, etag } => sign_complete_upload(
                    self,
                    object,
                    upload_id.as_str(),
                    etag.as_str(),
                    SIGNATURE_VALIDITY_SECS,
                    now,
                ),
                _ => None,
            }
        };
        let body = match &state {
            PutState::PartUploaded { upload_id, etag } => if self.is_usable() {
                build_completion_body(self, object, upload_id.as_str(), etag.as_str())
            } else {
                None
            },
            _ => None,
        };
        state.into_turn(url, body)
    }

    /// Starts an upload: the turn in `Idle`, whose action is the request that
    /// opens a multipart upload for the object key.
    pub fn put_begin(&self, object: &str, now: i64) -> (turn: PutTurn)
        ensures
            (turn.state@, turn.action@) == put_turn(self@, object@, PutStateView::Idle, now),
    {
        self.put_resume(object, PutState::Idle, now)
    }

    /// Continues an upload with the response to the request that the last turn
    /// asked for: judges the response, and signs the request that comes next.
    ///
    /// `now` is the time of signing, in seconds since the Unix epoch.
    pub fn put(&self, object: &str, state: PutState, reply: &Response, now: i64) -> (turn: PutTurn)
        ensures
            (turn.state@, turn.action@) == put_turn(self@, object@, put_after(state@, reply@), now),
    {
        let upload_id = match &state {
            PutState::Idle => parse_upload_id(reply.body.as_str()),
            _ => None,
        };
        let next = state.after_reply(reply.status, reply.etag.clone(), upload_id);
        self.put_resume(object, next, now)
    }
}

} // verus!
