use vstd::prelude::*;

verus! {

#[verifier::external_type_specification]
#[verifier::external_body]
pub struct ExIoError(std::io::Error);

#[verifier::external_type_specification]
#[verifier::external_body]
pub struct ExByteStreamError(aws_sdk_s3::primitives::ByteStreamError);

/// The first required setting that a builder was never given, checked in the order
/// bucket name, access key id, secret access key, endpoint.
#[derive(Debug, Clone, Copy, PartialEq, Eq, Structural)]
pub enum BuilderError {
    BucketNameNotSetError,
    AccessKeyIdNotSetError,
    SecretAccessKeyNotSetError,
    EndpointNotSetError,
}

impl BuilderError {
    /// A human-readable description of the missing setting.
    pub fn message(&self) -> (r: &'static str)
        ensures
            r@ == self.message_spec(),
    {
        match self {
            BuilderError::BucketNameNotSetError => "BucketNameNotSetError: Bucket name is not set.",
            BuilderError::AccessKeyIdNotSetError => "AccessKeyIdNotSetError: Access key id is not set.",
            BuilderError::SecretAccessKeyNotSetError => "SecretAccessKey: Secret access key is not set.",
            BuilderError::EndpointNotSetError => "EndpointNotSetError: Endpoint is not set.",
        }
    }

    pub open spec fn message_spec(&self) -> Seq<char> {
        match self {
            BuilderError::BucketNameNotSetError => "BucketNameNotSetError: Bucket name is not set."@,
            BuilderError::AccessKeyIdNotSetError => "AccessKeyIdNotSetError: Access key id is not set."@,
            BuilderError::SecretAccessKeyNotSetError => "SecretAccessKey: Secret access key is not set."@,
            BuilderError::EndpointNotSetError => "EndpointNotSetError: Endpoint is not set."@,
        }
    }
}

/// A failed operation on the bucket. The service's failures keep the text of the
/// transport error, so that a caller can tell "not found" from "access denied" by it.
#[derive(Debug)]
pub enum OperationError {
    /// The local file to upload could not be opened or read.
    FileOpenError(std::io::Error),
    /// The PutObject request failed.
    AWSSdkS3PutObjectError(String),
    /// The GetObject request failed, for instance because the key does not exist.
    AWSSdkS3GetObjectError(String),
    /// The DeleteObject request failed.
    AWSSdkS3DeleteObjectError(String),
    /// A page of the ListObjectsV2 listing failed.
    AWSSdkS3ListObjectsV2Error(String),
    /// The GetObject response began, but its body could not be read to the end.
    AWSSdkS3ByteStreamError(aws_sdk_s3::primitives::ByteStreamError),
}

impl From<std::io::Error> for OperationError {
    fn from(err: std::io::Error) -> (r: OperationError)
        ensures
            r == OperationError::FileOpenError(err),
    {
        OperationError::FileOpenError(err)
    }
}

impl vstd::std_specs::convert::FromSpecImpl<std::io::Error> for OperationError {
    open spec fn obeys_from_spec() -> bool {
        true
    }

    open spec fn from_spec(err: std::io::Error) -> OperationError {
        OperationError::FileOpenError(err)
    }
}

impl From<aws_sdk_s3::primitives::ByteStreamError> for OperationError {
    fn from(err: aws_sdk_s3::primitives::ByteStreamError) -> (r: OperationError)
        ensures
            r == OperationError::AWSSdkS3ByteStreamError(err),
    {
        OperationError::AWSSdkS3ByteStreamError(err)
    }
}

impl vstd::std_specs::convert::FromSpecImpl<aws_sdk_s3::primitives::ByteStreamError> for OperationError {
    open spec fn obeys_from_spec() -> bool {
        true
    }

    open spec fn from_spec(err: aws_sdk_s3::primitives::ByteStreamError) -> OperationError {
        OperationError::AWSSdkS3ByteStreamError(err)
    }
}

/// Either kind of failure, for callers that build and operate in one function.
#[derive(Debug)]
pub enum Error {
    OperationError(OperationError),
    BuilderError(BuilderError),
}

impl From<OperationError> for Error {
    fn from(err: OperationError) -> (r: Error)
        ensures
            r == Error::OperationError(err),
    {
        Error::OperationError(err)
    }
}

impl vstd::std_specs::convert::FromSpecImpl<OperationError> for Error {
    open spec fn obeys_from_spec() -> bool {
        true
    }

    open spec fn from_spec(err: OperationError) -> Error {
        Error::OperationError(err)
    }
}

impl From<BuilderError> for Error {
    fn from(err: BuilderError) -> (r: Error)
        ensures
            r == Error::BuilderError(err),
    {
        Error::BuilderError(err)
    }
}

impl vstd::std_specs::convert::FromSpecImpl<BuilderError> for Error {
    open spec fn obeys_from_spec() -> bool {
        true
    }

    open spec fn from_spec(err: BuilderError) -> Error {
        Error::BuilderError(err)
    }
}

} // verus!
