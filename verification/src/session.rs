//! The client session: which bucket is addressed, and with which credentials.

use vstd::prelude::*;
use crate::signing::{bucket_base, read_base};

verus! {

/// Where a bucket lives and how it is addressed.
pub struct BucketIdentity {
    /// The store's endpoint, as a URL.
    pub endpoint: String,
    /// The bucket's name.
    pub name: String,
    /// The region that signatures are scoped to.
    pub region: String,
    /// Path-style addressing if set, virtual-host addressing otherwise.
    pub path_style: bool,
}

/// The key pair that requests are signed with.
pub struct Credentials {
    pub access_key: String,
    pub secret_key: String,
}

/// What a session is, as plain values.
pub ghost struct SessionView {
    pub endpoint: Seq<char>,
    pub bucket: Seq<char>,
    pub region: Seq<char>,
    pub path_style: bool,
    pub access_key: Seq<char>,
    pub secret_key: Seq<char>,
}

/// The region that signatures are scoped to when a configuration names none.
pub open spec fn default_region() -> Seq<char> {
    seq!['m', 'i', 'n', 'i', 'o']
}

/// The scheme and host of the URL that a session's requests start from:
/// the endpoint with the bucket's name worked in.
#[derive(Debug, Clone, PartialEq, Eq)]
pub struct BaseUrl {
    pub scheme: String,
    pub host: Option<String>,
}

pub ghost struct BaseUrlView {
    pub scheme: Seq<char>,
    pub host: Option<Seq<char>>,
}

impl View for BaseUrl {
    type V = BaseUrlView;

    open spec fn view(&self) -> BaseUrlView {
        BaseUrlView {
            scheme: self.scheme@,
            host: match self.host {
                Some(h) => Some(h@),
                None => None,
            },
        }
    }
}

/// The view of a base URL that may be missing.
pub open spec fn base_view(base: Option<BaseUrl>) -> Option<BaseUrlView> {
    match base {
        Some(b) => Some(b@),
        None => None,
    }
}

/// Whether requests can be signed from a base URL: signing takes an http or
/// https URL that has a host, and nothing else.
pub open spec fn admits_signing(base: BaseUrlView) -> bool {
    &&& base.scheme == "http"@ || base.scheme == "https"@
    &&& base.host is Some
}

/// Whether requests can be signed for a session: `rusty_s3` makes a bucket of
/// its endpoint, addressing style, bucket name and region, and the bucket's
/// base URL admits signing.
pub open spec fn session_signs(session: SessionView) -> bool {
    match bucket_base(session.endpoint, session.path_style, session.bucket, session.region) {
        Some(base) => admits_signing(base),
        None => false,
    }
}

/// Decides whether requests can be signed from a base URL, if there is one.
pub fn base_admits_signing(base: &Option<BaseUrl>) -> (admitted: bool)
    ensures
        admitted == match base_view(*base) {
            Some(b) => admits_signing(b),
            None => false,
        },
{
    match base {
        Some(b) => {
            let http = "http".to_owned();
            let https = "https".to_owned();
            (b.scheme == http || b.scheme == https) && b.host.is_some()
        },
        None => false,
    }
}

/// A client session. It is fixed once made: every operation reads it, none changes it.
pub struct S3Client {
    pub(crate) bucket: BucketIdentity,
    pub(crate) credentials: Credentials,
    /// Whether requests can be signed for the session.
    pub(crate) signs: bool,
}

impl View for S3Client {
    type V = SessionView;

    closed spec fn view(&self) -> SessionView {
        SessionView {
            endpoint: self.bucket.endpoint@,
            bucket: self.bucket.name@,
            region: self.bucket.region@,
            path_style: self.bucket.path_style,
            access_key: self.credentials.access_key@,
            secret_key: self.credentials.secret_key@,
        }
    }
}

impl S3Client {
    #[verifier::type_invariant]
    closed spec fn well_formed(&self) -> bool {
        self.signs == session_signs(self@)
    }

    /// Whether requests can be signed for the session.
    pub fn is_usable(&self) -> (usable: bool)
        ensures
            usable == session_signs(self@),
    {
        proof {
            use_type_invariant(self);
        }
        self.signs
    }

    /// Makes a session for one bucket and one key pair. Any values are taken;
    /// a session whose endpoint and bucket name form no http(s) address with
    /// a host signs no request.
    pub fn new(bucket: BucketIdentity, credentials: Credentials) -> (client: Self)
        ensures
            client@ == (SessionView {
                endpoint: bucket.endpoint@,
                bucket: bucket.name@,
                region: bucket.region@,
                path_style: bucket.path_style,
                access_key: credentials.access_key@,
                secret_key: credentials.secret_key@,
            }),
    {
        let base = read_base(
            bucket.endpoint.as_str(),
            bucket.path_style,
            bucket.name.as_str(),
            bucket.region.as_str(),
        );
        let signs = base_admits_signing(&base);
        S3Client { bucket, credentials, signs }
    }

    /// The name of the bucket that the session addresses.
    pub fn bucket_name(&self) -> (name: &str)
        ensures
            name@ == self@.bucket,
    {
        self.bucket.name.as_str()
    }

    /// The endpoint that the session talks to.
    pub fn endpoint(&self) -> (endpoint: &str)
        ensures
            endpoint@ == self@.endpoint,
    {
        self.bucket.endpoint.as_str()
    }

    /// The region that the session signs for.
    pub fn region(&self) -> (region: &str)
        ensures
            region@ == self@.region,
    {
        self.bucket.region.as_str()
    }
}

} // verus!
