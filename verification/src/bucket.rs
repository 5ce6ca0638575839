//! Making sure that the session's bucket exists.
//!
//! The bucket is probed first. Only where the probe reports that it is not
//! there is a creation request sent, and a refusal of that request is final.

use vstd::prelude::*;
use crate::error::StoreError;
use crate::protocol::{
    action_for, is_success, signed_action, status_is_success, Action, ActionView, Method, Payload,
    PayloadView, SIGNATURE_VALIDITY_SECS,
};
use crate::session::{S3Client, SessionView};
use crate::signing::{
    presigned_create_bucket, presigned_head_bucket, sign_create_bucket, sign_head_bucket, signable,
    text_of,
};

verus! {

/// How far the exchange about the bucket has come.
#[derive(Debug, Clone, Copy, PartialEq, Eq, Structural)]
pub enum EnsureState {
    /// The probe is under way.
    Probing,
    /// The probe found no bucket; its creation is under way.
    Creating,
    /// The bucket exists.
    Ready,
    /// The exchange has ended without a bucket.
    Failed(StoreError),
}

/// A state together with what the caller does in it.
#[derive(Debug, Clone, PartialEq, Eq)]
pub struct EnsureTurn {
    pub state: EnsureState,
    pub action: Action,
}

/// Whether a probe's status says that the bucket is there.
pub open spec fn probe_found(status: u16) -> bool {
    status <= 399
}

/// The state and the action that follow a response, given the URL signed for
/// the creation request. The URL is read only where a probe found no bucket.
pub open spec fn ensure_step(state: EnsureState, status: u16, create_url: Option<Seq<char>>) -> (
    EnsureState,
    ActionView,
) {
    match state {
        EnsureState::Probing => if probe_found(status) {
            (EnsureState::Ready, ActionView::Done)
        } else {
            match create_url {
                Some(_) => (
                    EnsureState::Creating,
                    signed_action(Method::Put, create_url, PayloadView::Empty),
                ),
                None => (
                    EnsureState::Failed(StoreError::Unsignable),
                    ActionView::Fail(StoreError::Unsignable),
                ),
            }
        },
        EnsureState::Creating => if is_success(status) {
            (EnsureState::Ready, ActionView::Done)
        } else {
            (
                EnsureState::Failed(StoreError::BucketCreationFailed(status)),
                ActionView::Fail(StoreError::BucketCreationFailed(status)),
            )
        },
        EnsureState::Ready => (EnsureState::Ready, ActionView::Done),
        EnsureState::Failed(e) => (EnsureState::Failed(e), ActionView::Fail(e)),
    }
}

/// The state and the action that open the exchange, given the URL signed for the probe.
pub open spec fn ensure_opening(probe_url: Option<Seq<char>>) -> (EnsureState, ActionView) {
    match probe_url {
        Some(_) => (EnsureState::Probing, signed_action(Method::Head, probe_url, PayloadView::Empty)),
        None => (
            EnsureState::Failed(StoreError::Unsignable),
            ActionView::Fail(StoreError::Unsignable),
        ),
    }
}

/// Where a whole exchange ends, given the status of the probe and, for the
/// case that a creation request is sent, the status of its response.
pub open spec fn ensure_run(probe: u16, create_url: Option<Seq<char>>, creation: u16) -> EnsureState {
    let (probed, action) = ensure_step(EnsureState::Probing, probe, create_url);
    if action is Send {
        ensure_step(probed, creation, create_url).0
    } else {
        probed
    }
}

/// Making sure of a bucket that exists is idempotent: each exchange whose
/// probe finds the bucket ends at once in `Ready`, without a creation request
/// and without failure, however often it is repeated and whatever the store
/// would have answered to a creation.
pub proof fn ensure_is_idempotent(
    first: u16,
    second: u16,
    create_url: Option<Seq<char>>,
    creation: u16,
)
    requires
        probe_found(first),
        probe_found(second),
    ensures
        ensure_step(EnsureState::Probing, first, create_url) == (EnsureState::Ready, ActionView::Done),
        ensure_step(EnsureState::Probing, second, create_url) == (
            EnsureState::Ready,
            ActionView::Done,
        ),
        ensure_run(first, create_url, creation) == EnsureState::Ready,
        ensure_run(second, create_url, creation) == EnsureState::Ready,
{
}

/// A bucket that is missing is created once: where the probe finds none and
/// the store accepts the creation, the exchange ends in `Ready`; where the
/// store refuses it, the exchange fails with the status of the refusal.
pub proof fn ensure_creates_missing_bucket(probe: u16, url: Seq<char>, creation: u16)
    requires
        !probe_found(probe),
    ensures
        ensure_run(probe, Some(url), creation) == if is_success(creation) {
            EnsureState::Ready
        } else {
            EnsureState::Failed(StoreError::BucketCreationFailed(creation))
        },
{
}

/// A creation request is sent only after a probe that found no bucket, and
/// the exchange fails only where signing failed or the store refused the creation.
pub proof fn ensure_creates_only_when_missing(
    state: EnsureState,
    status: u16,
    create_url: Option<Seq<char>>,
)
    ensures
        ({
            let (next, action) = ensure_step(state, status, create_url);
            &&& action is Send ==> (state is Probing && !probe_found(status) && next is Creating
                && action->Send_0.method == Method::Put)
            &&& (state is Creating && !is_success(status)) ==> next == EnsureState::Failed(
                StoreError::BucketCreationFailed(status),
            )
            &&& (state is Ready || state is Failed) ==> next == state
            &&& action is Done <==> next is Ready
            &&& action is Fail <==> next is Failed
        }),
{
}

impl EnsureState {
    /// Judges a response, given the URL signed for the creation request.
    pub fn after_reply(self, status: u16, create_url: Option<String>) -> (turn: EnsureTurn)
        ensures
            (turn.state, turn.action@) == ensure_step(self, status, text_of(create_url)),
    {
        match self {
            EnsureState::Probing => {
                if status <= 399 {
                    EnsureTurn { state: EnsureState::Ready, action: Action::Done }
                } else {
                    match create_url {
                        Some(u) => EnsureTurn {
                            state: EnsureState::Creating,
                            action: action_for(Method::Put, Some(u), Payload::Empty),
                        },
                        None => EnsureTurn {
                            state: EnsureState::Failed(StoreError::Unsignable),
                            action: Action::Fail(StoreError::Unsignable),
                        },
                    }
                }
            },
            EnsureState::Creating => {
                if status_is_success(status) {
                    EnsureTurn { state: EnsureState::Ready, action: Action::Done }
                } else {
                    EnsureTurn {
                        state: EnsureState::Failed(StoreError::BucketCreationFailed(status)),
                        action: Action::Fail(StoreError::BucketCreationFailed(status)),
                    }
                }
            },
            EnsureState::Ready => EnsureTurn { state: EnsureState::Ready, action: Action::Done },
            EnsureState::Failed(e) => EnsureTurn {
                state: EnsureState::Failed(e),
                action: Action::Fail(e),
            },
        }
    }

    /// Opens the exchange, given the URL signed for the probe.
    pub fn opening(probe_url: Option<String>) -> (turn: EnsureTurn)
        ensures
            (turn.state, turn.action@) == ensure_opening(text_of(probe_url)),
    {
        match probe_url {
            Some(u) => EnsureTurn {
                state: EnsureState::Probing,
                action: action_for(Method::Head, Some(u), Payload::Empty),
            },
            None => EnsureTurn {
                state: EnsureState::Failed(StoreError::Unsignable),
                action: Action::Fail(StoreError::Unsignable),
            },
        }
    }
}

impl S3Client {
    /// Starts the exchange: the action is the signed probe for the bucket.
    ///
    /// `now` is the time of signing, in seconds since the Unix epoch.
    pub fn ensure_begin(&self, now: i64) -> (turn: EnsureTurn)
        ensures
            (turn.state, turn.action@) == ensure_opening(
                signable(self@, presigned_head_bucket(self@, SIGNATURE_VALIDITY_SECS, now)),
            ),
    {
        let probe_url = if self.is_usable() {
            sign_head_bucket(self, SIGNATURE_VALIDITY_SECS, now)
        } else {
            None
        };
        EnsureState::opening(probe_url)
    }

    /// Continues the exchange with the status of the response to the request that
    /// the last turn asked for.
    pub fn ensure(&self, state: EnsureState, status: u16, now: i64) -> (turn: EnsureTurn)
        ensures
            (turn.state, turn.action@) == ensure_step(
                state,
                status,
                signable(self@, presigned_create_bucket(self@, SIGNATURE_VALIDITY_SECS, now)),
            ),
    {
        let create_url = match state {
            EnsureState::Probing => if status <= 399 || !self.is_usable() {
                None
            } else {
                sign_create_bucket(self, SIGNATURE_VALIDITY_SECS, now)
            },
            _ => None,
        };
        state.after_reply(status, create_url)
    }
}

} // verus!
