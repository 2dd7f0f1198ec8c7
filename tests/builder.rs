use cf_r2_sdk::builder::{Builder, ChecksumPolicy};
use cf_r2_sdk::error::{BuilderError, Error};

fn complete() -> Builder {
    Builder::new()
        .set_bucket_name("test-bucket".to_string())
        .set_access_key_id("access-key".to_string())
        .set_secret_access_key("SECRET-REDACTED".to_string())
        .set_endpoint("https://example.r2.cloudflarestorage.com".to_string())
}

#[test]
fn unset_builder_fails_on_bucket_name() {
    let err = Builder::new().create_client_result().err().unwrap();
    assert_eq!(err, BuilderError::BucketNameNotSetError);
    assert_eq!(Builder::new().client_config().unwrap_err(), BuilderError::BucketNameNotSetError);
}

#[test]
fn missing_access_key_id_is_reported_after_bucket_name() {
    let b = Builder::new()
        .set_bucket_name("b".to_string())
        .set_secret_access_key("s".to_string())
        .set_endpoint("e".to_string());
    assert_eq!(b.create_client_result().err().unwrap(), BuilderError::AccessKeyIdNotSetError);
}

#[test]
fn missing_secret_access_key_is_reported_third() {
    let b = Builder::new()
        .set_bucket_name("b".to_string())
        .set_access_key_id("a".to_string());
    assert_eq!(b.create_client_result().err().unwrap(), BuilderError::SecretAccessKeyNotSetError);
}

#[test]
fn missing_endpoint_is_reported_last() {
    let b = Builder::new()
        .set_bucket_name("b".to_string())
        .set_access_key_id("a".to_string())
        .set_secret_access_key("s".to_string());
    assert_eq!(b.create_client_result().err().unwrap(), BuilderError::EndpointNotSetError);
}

#[test]
fn bucket_name_wins_over_every_other_missing_setting() {
    let b = Builder::new().set_endpoint("e".to_string());
    assert_eq!(b.create_client_result().err().unwrap(), BuilderError::BucketNameNotSetError);
}

#[test]
fn region_defaults_to_auto() {
    let config = complete().client_config().unwrap();
    assert_eq!(config.region, "auto");
    assert_eq!(config.bucket_name, "test-bucket");
    assert_eq!(config.access_key_id, "access-key");
    assert_eq!(config.secret_access_key, "SECRET-REDACTED");
    assert_eq!(config.endpoint, "https://example.r2.cloudflarestorage.com");
    assert_eq!(config.checksums, ChecksumPolicy::WhenRequired);
}

#[test]
fn region_is_passed_through_verbatim() {
    let config = complete().set_region("not-a-known-region".to_string()).client_config().unwrap();
    assert_eq!(config.region, "not-a-known-region");
}

#[test]
fn a_later_setting_replaces_an_earlier_one() {
    let config = complete().set_bucket_name("other".to_string()).client_config().unwrap();
    assert_eq!(config.bucket_name, "other");
}

#[test]
fn complete_builder_gives_operator_on_its_bucket() {
    let op = complete().create_client_result().unwrap();
    assert_eq!(op.bucket_name(), "test-bucket");
}

#[test]
#[allow(deprecated)]
fn legacy_constructor_gives_operator_on_its_bucket() {
    let op = complete().create_client();
    assert_eq!(op.bucket_name(), "test-bucket");
}

#[test]
fn operator_clone_keeps_bucket() {
    let op = complete().create_client_result().unwrap();
    assert_eq!(op.clone().bucket_name(), "test-bucket");
}

#[test]
fn builder_error_messages() {
    assert_eq!(BuilderError::BucketNameNotSetError.message(), "BucketNameNotSetError: Bucket name is not set.");
    assert_eq!(BuilderError::AccessKeyIdNotSetError.message(), "AccessKeyIdNotSetError: Access key id is not set.");
    assert_eq!(BuilderError::SecretAccessKeyNotSetError.message(), "SecretAccessKey: Secret access key is not set.");
    assert_eq!(BuilderError::EndpointNotSetError.message(), "EndpointNotSetError: Endpoint is not set.");
}

#[test]
fn builder_error_converts_into_error() {
    let e = Error::from(BuilderError::EndpointNotSetError);
    assert!(matches!(e, Error::BuilderError(BuilderError::EndpointNotSetError)));
}
