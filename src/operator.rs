use vstd::prelude::*;
use aws_sdk_s3::operation::delete_object::builders::DeleteObjectFluentBuilder;
use aws_sdk_s3::operation::get_object::builders::GetObjectFluentBuilder;
use aws_sdk_s3::operation::list_objects_v2::paginator::ListObjectsV2Paginator;
use aws_sdk_s3::operation::put_object::builders::PutObjectFluentBuilder;
use crate::builder::ClientConfig;
use crate::error::OperationError;
use crate::sdk;

verus! {

/// The most keys that one page of a listing asks for.
pub const LIST_PAGE_SIZE: i32 = 10;

/// The Cache-Control header of an upload: the one given, else `"no-cache"`.
pub open spec fn cache_control_header(cache_control: Option<Seq<char>>) -> Seq<char> {
    match cache_control {
        Some(c) => c,
        None => "no-cache"@,
    }
}

/// The Cache-Control header of an upload: the one given, else `"no-cache"`.
pub fn cache_control_or_default(cache_control: Option<&str>) -> (r: &str)
    ensures
        r@ == cache_control_header(
            match cache_control {
                Some(c) => Some(c@),
                None => None,
            },
        ),
{
    match cache_control {
        Some(c) => c,
        None => "no-cache",
    }
}

/// The remote call that an operation makes.
#[derive(Debug, Clone, Copy, PartialEq, Eq, Structural)]
pub enum RemoteCall {
    PutObject,
    GetObject,
    DeleteObject,
    ListObjectsV2,
}

impl RemoteCall {
    /// The error that a failure of this call, with the transport's `message`, becomes.
    pub open spec fn failure(self, message: String) -> OperationError {
        match self {
            RemoteCall::PutObject => OperationError::AWSSdkS3PutObjectError(message),
            RemoteCall::GetObject => OperationError::AWSSdkS3GetObjectError(message),
            RemoteCall::DeleteObject => OperationError::AWSSdkS3DeleteObjectError(message),
            RemoteCall::ListObjectsV2 => OperationError::AWSSdkS3ListObjectsV2Error(message),
        }
    }

    /// What the service answered to this call, as the operation's result: a reply passes
    /// through unchanged, and a failure keeps its message under this call's error kind.
    pub fn settle<T>(self, reply: Result<T, String>) -> (r: Result<T, OperationError>)
        ensures
            r == match reply {
                Ok(v) => Ok(v),
                Err(message) => Err(self.failure(message)),
            },
    {
        match reply {
            Ok(v) => Ok(v),
            Err(message) => Err(
                match self {
                    RemoteCall::PutObject => OperationError::AWSSdkS3PutObjectError(message),
                    RemoteCall::GetObject => OperationError::AWSSdkS3GetObjectError(message),
                    RemoteCall::DeleteObject => OperationError::AWSSdkS3DeleteObjectError(message),
                    RemoteCall::ListObjectsV2 => OperationError::AWSSdkS3ListObjectsV2Error(
                        message,
                    ),
                },
            ),
        }
    }
}

/// A PutObject request, as plain values: store `body` under `key` in `bucket`, with these
/// Content-Type and Cache-Control headers.
#[derive(Debug, Clone)]
pub struct PutRequest {
    pub bucket: String,
    pub key: String,
    pub content_type: String,
    pub cache_control: String,
    pub body: Vec<u8>,
}

/// A request that addresses one object, `key` in `bucket` (GetObject, DeleteObject).
#[derive(Debug, Clone)]
pub struct ObjectRequest {
    pub bucket: String,
    pub key: String,
}

/// A paginated ListObjectsV2 request over `bucket`, asking for at most `max_keys` keys per page.
#[derive(Debug, Clone)]
pub struct ListRequest {
    pub bucket: String,
    pub max_keys: i32,
}

/// Operations on one bucket through one client. It holds no other state: each request it
/// prepares is independent of the others.
pub struct Operator {
    bucket_name: String,
    client: aws_sdk_s3::Client,
    config: Ghost<Option<ClientConfig>>,
}

impl Clone for Operator {
    /// Another operator on the same bucket, sharing the client's connection pool.
    fn clone(&self) -> (r: Self)
        ensures
            r.bucket() == self.bucket(),
            r.config() == self.config(),
    {
        Operator {
            bucket_name: self.bucket_name.clone(),
            client: self.client.clone(),
            config: Ghost(self.config@),
        }
    }
}

impl Operator {
    /// The bucket that every operation addresses.
    pub closed spec fn bucket(&self) -> Seq<char> {
        self.bucket_name@
    }

    /// The client that every request goes through.
    pub closed spec fn client(&self) -> aws_sdk_s3::Client {
        self.client
    }

    /// The configuration the client was made from, where this operator made it.
    pub closed spec fn config(&self) -> Option<ClientConfig> {
        self.config@
    }

    /// An operator on `bucket_name` through a client made elsewhere.
    pub fn new(bucket_name: String, client: aws_sdk_s3::Client) -> (r: Self)
        ensures
            r.bucket() == bucket_name@,
            r.client() == client,
            r.config() is None,
    {
        Operator { bucket_name, client, config: Ghost(None) }
    }

    /// An operator on the configured bucket, with a client made from the configuration's
    /// key pair, region, endpoint and checksum policy.
    pub fn from_config(config: &ClientConfig) -> (r: Self)
        ensures
            r.bucket() == config.bucket_name@,
            r.config() == Some(*config),
    {
        Operator {
            bucket_name: config.bucket_name.clone(),
            client: sdk::s3_client(config),
            config: Ghost(Some(*config)),
        }
    }

    pub fn bucket_name(&self) -> (r: &str)
        ensures
            r@ == self.bucket(),
    {
        self.bucket_name.as_str()
    }

    /// The upload of `body` under `key` in this bucket, with the Content-Type `content_type`
    /// and the Cache-Control header `cache_control`, `"no-cache"` when none is given.
    pub fn put_request(
        &self,
        key: &str,
        content_type: &str,
        body: Vec<u8>,
        cache_control: Option<&str>,
    ) -> (r: PutRequest)
        ensures
            r.bucket@ == self.bucket(),
            r.key@ == key@,
            r.content_type@ == content_type@,
            r.cache_control@ == cache_control_header(
                match cache_control {
                    Some(c) => Some(c@),
                    None => None,
                },
            ),
            r.body@ == body@,
    {
        PutRequest {
            bucket: self.bucket_name.clone(),
            key: key.to_owned(),
            content_type: content_type.to_owned(),
            cache_control: cache_control_or_default(cache_control).to_owned(),
            body,
        }
    }

    /// The request that addresses the object named `key` in this bucket.
    pub fn object_request(&self, key: &str) -> (r: ObjectRequest)
        ensures
            r.bucket@ == self.bucket(),
            r.key@ == key@,
    {
        ObjectRequest { bucket: self.bucket_name.clone(), key: key.to_owned() }
    }

    /// The listing of this bucket, [`LIST_PAGE_SIZE`] keys at most per page.
    pub fn list_request(&self) -> (r: ListRequest)
        ensures
            r.bucket@ == self.bucket(),
            r.max_keys == LIST_PAGE_SIZE,
    {
        ListRequest { bucket: self.bucket_name.clone(), max_keys: LIST_PAGE_SIZE }
    }

    /// The SDK's PutObject call for [`Operator::put_request`] of these arguments, through
    /// this operator's client; nothing is sent until it is awaited.
    pub fn put_object(
        &self,
        key: &str,
        content_type: &str,
        body: Vec<u8>,
        cache_control: Option<&str>,
    ) -> PutObjectFluentBuilder {
        sdk::put_object_request(&self.client, self.put_request(key, content_type, body, cache_control))
    }

    /// The SDK's GetObject call for [`Operator::object_request`] of `key`.
    pub fn get_object(&self, key: &str) -> GetObjectFluentBuilder {
        sdk::get_object_request(&self.client, self.object_request(key))
    }

    /// The SDK's DeleteObject call for [`Operator::object_request`] of `key`.
    pub fn delete_object(&self, key: &str) -> DeleteObjectFluentBuilder {
        sdk::delete_object_request(&self.client, self.object_request(key))
    }

    /// The SDK's paginated ListObjectsV2 call for [`Operator::list_request`].
    pub fn list_objects_pages(&self) -> ListObjectsV2Paginator {
        sdk::list_objects_request(&self.client, self.list_request())
    }
}

} // verus!
