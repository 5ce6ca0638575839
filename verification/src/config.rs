//! From a configuration to a client session.

use vstd::prelude::*;
use crate::error::TransferError;
use crate::session::{
    default_region, session_signs, BucketIdentity, Credentials, S3Client, SessionView,
};

verus! {

/// What a configuration file says of the store.
pub struct S3Conf {
    pub endpoint: String,
    pub access_key: String,
    pub pass_key: String,
    /// The region; where none is given, the default region is used.
    pub region: Option<String>,
}

/// The region that a configuration stands for.
pub open spec fn region_of(region: Option<String>) -> Seq<char> {
    match region {
        Some(r) => r@,
        None => default_region(),
    }
}

/// The region that a configuration stands for.
pub fn resolve_region(region: Option<String>) -> (resolved: String)
    ensures
        resolved@ == region_of(region),
{
    match region {
        Some(r) => r,
        None => {
            proof {
                reveal_strlit("minio");
                assert("minio"@ =~= default_region());
            }
            "minio".to_owned()
        },
    }
}

/// The session that a bucket name and a configuration stand for. The bucket
/// is addressed in path style.
pub open spec fn session_of(bucket_name: Seq<char>, conf: S3Conf) -> SessionView {
    SessionView {
        endpoint: conf.endpoint@,
        bucket: bucket_name,
        region: region_of(conf.region),
        path_style: true,
        access_key: conf.access_key@,
        secret_key: conf.pass_key@,
    }
}

/// Makes the client session for a bucket out of a configuration.
///
/// Fails where requests cannot be signed for the session: where the endpoint
/// is no URL, or the endpoint with the bucket's name forms no http(s) address
/// with a host. Any other name is taken.
pub fn get_client(bucket_name: String, conf: S3Conf) -> (client: Result<S3Client, TransferError>)
    ensures
        match client {
            Ok(c) => c@ == session_of(bucket_name@, conf) && session_signs(c@),
            Err(e) => e == TransferError::Config && !session_signs(session_of(bucket_name@, conf)),
        },
{
    let S3Conf { endpoint, access_key, pass_key, region } = conf;
    let region = resolve_region(region);
    let bucket = BucketIdentity { endpoint, name: bucket_name, region, path_style: true };
    let credentials = Credentials { access_key, secret_key: pass_key };
    let client = S3Client::new(bucket, credentials);
    if client.is_usable() {
        Ok(client)
    } else {
        Err(TransferError::Config)
    }
}

} // verus!
