use vstd::prelude::*;
use crate::error::BuilderError;
use crate::operator::Operator;

verus! {

/// When the client computes checksums of the requests it sends and validates those of the
/// responses it receives.
#[derive(Debug, Clone, Copy, PartialEq, Eq, Structural)]
pub enum ChecksumPolicy {
    /// Only for operations that require a checksum; S3-compatible stores expect this.
    WhenRequired,
    /// For every operation that supports one.
    WhenSupported,
}

/// A complete configuration of a connection to one bucket.
#[derive(Debug, Clone)]
pub struct ClientConfig {
    pub bucket_name: String,
    pub access_key_id: String,
    pub secret_access_key: String,
    pub endpoint: String,
    pub region: String,
    pub checksums: ChecksumPolicy,
}

/// The settings that a [`Builder`] has collected: `None` for one never set.
pub struct Settings {
    pub bucket_name: Option<Seq<char>>,
    pub access_key_id: Option<Seq<char>>,
    pub secret_access_key: Option<Seq<char>>,
    pub endpoint: Option<Seq<char>>,
    pub region: Seq<char>,
}

impl Settings {
    /// Nothing set yet; the region is `"auto"` until one is given.
    pub open spec fn initial() -> Settings {
        Settings {
            bucket_name: None,
            access_key_id: None,
            secret_access_key: None,
            endpoint: None,
            region: "auto"@,
        }
    }

    /// The first required setting that is missing, in the order bucket name, access key
    /// id, secret access key, endpoint; `None` when all four are there.
    pub open spec fn first_missing(self) -> Option<BuilderError> {
        if self.bucket_name is None {
            Some(BuilderError::BucketNameNotSetError)
        } else if self.access_key_id is None {
            Some(BuilderError::AccessKeyIdNotSetError)
        } else if self.secret_access_key is None {
            Some(BuilderError::SecretAccessKeyNotSetError)
        } else if self.endpoint is None {
            Some(BuilderError::EndpointNotSetError)
        } else {
            None
        }
    }

    /// `config` holds exactly these settings, all four required ones being present.
    pub open spec fn configures(self, config: ClientConfig) -> bool {
        &&& self.bucket_name == Some(config.bucket_name@)
        &&& self.access_key_id == Some(config.access_key_id@)
        &&& self.secret_access_key == Some(config.secret_access_key@)
        &&& self.endpoint == Some(config.endpoint@)
        &&& self.region == config.region@
    }
}

/// Building a client with none of the four required settings fails on the bucket name,
/// the first one checked, and not on any other.
pub proof fn unset_builder_reports_bucket_name(settings: Settings)
    requires
        settings.bucket_name is None,
        settings.access_key_id is None,
        settings.secret_access_key is None,
        settings.endpoint is None,
    ensures
        settings.first_missing() == Some(BuilderError::BucketNameNotSetError),
{
}

/// The characters of an optional setting.
pub open spec fn text_view(s: Option<String>) -> Option<Seq<char>> {
    match s {
        Some(t) => Some(t@),
        None => None,
    }
}

/// Collects the settings of a connection and produces an [`Operator`].
#[derive(Debug, Clone)]
pub struct Builder {
    bucket_name: Option<String>,
    access_key_id: Option<String>,
    secret_access_key: Option<String>,
    endpoint: Option<String>,
    region: String,
}

impl View for Builder {
    type V = Settings;

    closed spec fn view(&self) -> Settings {
        Settings {
            bucket_name: text_view(self.bucket_name),
            access_key_id: text_view(self.access_key_id),
            secret_access_key: text_view(self.secret_access_key),
            endpoint: text_view(self.endpoint),
            region: self.region@,
        }
    }
}

impl Default for Builder {
    fn default() -> (r: Self)
        ensures
            r@ == Settings::initial(),
    {
        Builder {
            bucket_name: None,
            access_key_id: None,
            secret_access_key: None,
            endpoint: None,
            region: "auto".to_owned(),
        }
    }
}

impl Builder {
    /// A builder with nothing set; the region is `"auto"` unless set.
    pub fn new() -> (r: Self)
        ensures
            r@ == Settings::initial(),
    {
        Self::default()
    }

    pub fn set_bucket_name(self, bucket_name: String) -> (r: Self)
        ensures
            r@ == (Settings { bucket_name: Some(bucket_name@), ..self@ }),
    {
        let mut builder = self;
        builder.bucket_name = Some(bucket_name);
        builder
    }

    pub fn set_access_key_id(self, access_key_id: String) -> (r: Self)
        ensures
            r@ == (Settings { access_key_id: Some(access_key_id@), ..self@ }),
    {
        let mut builder = self;
        builder.access_key_id = Some(access_key_id);
        builder
    }

    pub fn set_secret_access_key(self, secret_access_key: String) -> (r: Self)
        ensures
            r@ == (Settings { secret_access_key: Some(secret_access_key@), ..self@ }),
    {
        let mut builder = self;
        builder.secret_access_key = Some(secret_access_key);
        builder
    }

    pub fn set_endpoint(self, endpoint: String) -> (r: Self)
        ensures
            r@ == (Settings { endpoint: Some(endpoint@), ..self@ }),
    {
        let mut builder = self;
        builder.endpoint = Some(endpoint);
        builder
    }

    /// Sets the region, passed to the service as given.
    pub fn set_region(self, region: String) -> (r: Self)
        ensures
            r@ == (Settings { region: region@, ..self@ }),
    {
        let mut builder = self;
        builder.region = region;
        builder
    }

    /// The configuration these settings describe, or the first required setting that is
    /// missing. Checksums are computed and validated only where the service requires them.
    pub fn client_config(&self) -> (r: Result<ClientConfig, BuilderError>)
        ensures
            match r {
                Ok(config) => self@.first_missing() is None && self@.configures(config)
                    && config.checksums == ChecksumPolicy::WhenRequired,
                Err(e) => self@.first_missing() == Some(e),
            },
    {
        let bucket_name = match &self.bucket_name {
            Some(bucket_name) => bucket_name.clone(),
            None => return Err(BuilderError::BucketNameNotSetError),
        };
        let access_key_id = match &self.access_key_id {
            Some(access_key_id) => access_key_id.clone(),
            None => return Err(BuilderError::AccessKeyIdNotSetError),
        };
        let secret_access_key = match &self.secret_access_key {
            Some(secret_access_key) => secret_access_key.clone(),
            None => return Err(BuilderError::SecretAccessKeyNotSetError),
        };
        let endpoint = match &self.endpoint {
            Some(endpoint) => endpoint.clone(),
            None => return Err(BuilderError::EndpointNotSetError),
        };
        Ok(
            ClientConfig {
                bucket_name,
                access_key_id,
                secret_access_key,
                endpoint,
                region: self.region.clone(),
                checksums: ChecksumPolicy::WhenRequired,
            },
        )
    }

    /// An operator on the configured bucket, or the first required setting that is
    /// missing. No network I/O happens here.
    pub fn create_client_result(&self) -> (r: Result<Operator, BuilderError>)
        ensures
            match r {
                Ok(op) => {
                    &&& self@.first_missing() is None
                    &&& self@.bucket_name == Some(op.bucket())
                    &&& op.config() is Some
                    &&& self@.configures(op.config()->Some_0)
                    &&& op.config()->Some_0.checksums == ChecksumPolicy::WhenRequired
                },
                Err(e) => self@.first_missing() == Some(e),
            },
    {
        match self.client_config() {
            Ok(config) => Ok(Operator::from_config(&config)),
            Err(e) => Err(e),
        }
    }

    /// An operator on the configured bucket, for callers that know every required setting
    /// is there. Kept for older callers; prefer [`Builder::create_client_result`].
    pub fn create_client(&self) -> (r: Operator)
        requires
            self@.first_missing() is None,
        ensures
            self@.bucket_name == Some(r.bucket()),
            r.config() is Some,
            self@.configures(r.config()->Some_0),
            r.config()->Some_0.checksums == ChecksumPolicy::WhenRequired,
    {
        self.create_client_result().unwrap()
    }
}

} // verus!
