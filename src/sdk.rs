//! The calls into the S3 SDK. The SDK's values are opaque here: each request it builds is
//! handed back to the caller, which sends it.
use vstd::prelude::*;
use aws_sdk_s3::config::{
    Credentials, Region, RequestChecksumCalculation, ResponseChecksumValidation,
};
use aws_sdk_s3::operation::delete_object::builders::DeleteObjectFluentBuilder;
use aws_sdk_s3::operation::get_object::builders::GetObjectFluentBuilder;
use aws_sdk_s3::operation::list_objects_v2::paginator::ListObjectsV2Paginator;
use aws_sdk_s3::operation::put_object::builders::PutObjectFluentBuilder;
use aws_sdk_s3::primitives::ByteStream;
use crate::builder::{ChecksumPolicy, ClientConfig};
use crate::operator::{ListRequest, ObjectRequest, PutRequest};

verus! {

#[verifier::external_type_specification]
#[verifier::external_body]
pub struct ExClient(aws_sdk_s3::Client);

#[verifier::external_type_specification]
#[verifier::external_body]
pub struct ExPutObjectFluentBuilder(PutObjectFluentBuilder);

#[verifier::external_type_specification]
#[verifier::external_body]
pub struct ExGetObjectFluentBuilder(GetObjectFluentBuilder);

#[verifier::external_type_specification]
#[verifier::external_body]
pub struct ExDeleteObjectFluentBuilder(DeleteObjectFluentBuilder);

#[verifier::external_type_specification]
#[verifier::external_body]
pub struct ExListObjectsV2Paginator(ListObjectsV2Paginator);

/// Relies on `aws_sdk_s3::Client`'s derived `Clone`: a handle on the same shared client.
pub assume_specification[ <aws_sdk_s3::Client as core::clone::Clone>::clone ](
    client: &aws_sdk_s3::Client,
) -> aws_sdk_s3::Client;

/// Relies on `Credentials::new` (aws-credential-types), `aws_sdk_s3::config::Builder` and
/// `aws_sdk_s3::Client::from_conf`: a client with static credentials made of the key pair
/// (no session token, no expiry), the region as given, the endpoint URL and the checksum
/// policy. `from_conf` panics only where no behavior version is set, and the crate's
/// `behavior-version-latest` feature sets one. Nothing here does network I/O.
#[verifier::external_body]
pub(crate) fn s3_client(config: &ClientConfig) -> aws_sdk_s3::Client {
    let (calculation, validation) = match config.checksums {
        ChecksumPolicy::WhenRequired => (RequestChecksumCalculation::WhenRequired, ResponseChecksumValidation::WhenRequired),
        ChecksumPolicy::WhenSupported => (RequestChecksumCalculation::WhenSupported, ResponseChecksumValidation::WhenSupported),
    };
    let credentials = Credentials::new(&config.access_key_id, &config.secret_access_key, None, None, "");
    let service = aws_sdk_s3::config::Builder::new()
        .credentials_provider(credentials)
        .region(Region::new(config.region.clone()))
        .endpoint_url(&config.endpoint)
        .request_checksum_calculation(calculation)
        .response_checksum_validation(validation)
        .build();
    aws_sdk_s3::Client::from_conf(service)
}

/// Relies on `aws_sdk_s3::Client::put_object` and its setters, which only store their
/// argument: a PutObject call whose bucket, key, Content-Type, Cache-Control and body are
/// the request's.
#[verifier::external_body]
pub(crate) fn put_object_request(client: &aws_sdk_s3::Client, request: PutRequest) -> PutObjectFluentBuilder {
    client.put_object().bucket(request.bucket).key(request.key).content_type(request.content_type)
        .cache_control(request.cache_control).body(ByteStream::from(request.body))
}

/// Relies on `aws_sdk_s3::Client::get_object` and its setters: a GetObject call for the
/// request's key in its bucket.
#[verifier::external_body]
pub(crate) fn get_object_request(client: &aws_sdk_s3::Client, request: ObjectRequest) -> GetObjectFluentBuilder {
    client.get_object().bucket(request.bucket).key(request.key)
}

/// Relies on `aws_sdk_s3::Client::delete_object` and its setters: a DeleteObject call for
/// the request's key in its bucket.
#[verifier::external_body]
pub(crate) fn delete_object_request(client: &aws_sdk_s3::Client, request: ObjectRequest) -> DeleteObjectFluentBuilder {
    client.delete_object().bucket(request.bucket).key(request.key)
}

/// Relies on `aws_sdk_s3::Client::list_objects_v2`, its setters and `into_paginator`: a
/// paginated ListObjectsV2 call over the request's bucket, asking for at most its
/// `max_keys` keys per page.
#[verifier::external_body]
pub(crate) fn list_objects_request(client: &aws_sdk_s3::Client, request: ListRequest) -> ListObjectsV2Paginator {
    client.list_objects_v2().bucket(request.bucket).max_keys(request.max_keys).into_paginator()
}

} // verus!
