//! Client-facing configuration types for a producer that sends events
//! upstream over a paged/streamed transport.
//!
//! Opening the connection and sending over the wire belong to the transport
//! layer; the types here only collect and carry the caller's choices, so
//! their contracts pin every field exactly.

use vstd::prelude::*;
use vstd::string::StringExecFns;

verus! {

/// Configuration for retrying failed transport operations. The transport
/// layer interprets it; the client-facing types only carry it through.
#[derive(Debug, Clone, Default)]
pub struct RetryOptions {}

/// The address a producer connects to, as text: the secure transport
/// scheme, the fully qualified namespace, and the entity name.
pub open spec fn spec_service_url(namespace: Seq<char>, eventhub: Seq<char>) -> Seq<char> {
    "amqps://"@ + namespace + "/"@ + eventhub
}

/// Builds the address a producer connects to from the fully qualified
/// namespace and the entity name.
pub fn service_url(fully_qualified_namespace: &str, eventhub: &str) -> (r: String)
    ensures
        r@ == spec_service_url(fully_qualified_namespace@, eventhub@),
{
    let mut url = String::from_str("amqps://");
    url.append(fully_qualified_namespace);
    url.append("/");
    url.append(eventhub);
    url
}

/// Options that can be set when submitting a batch of event data.
#[derive(Debug, Clone, Default)]
pub struct SendBatchOptions {}

/// Options used when sending a single event.
///
/// When no partition id is set, the service selects a partition itself.
#[derive(Debug, Default)]
pub struct SendEventOptions {
    /// The id of the partition to which the event should be sent.
    pub partition_id: Option<String>,
}

/// Options used when sending a raw message. The message is sent to the
/// service unmodified.
#[derive(Debug, Default)]
pub struct SendMessageOptions {}

/// Collects the settings from which a producer client is opened: an
/// optional application id, optional retry configuration and an optional
/// custom endpoint.
#[derive(Default)]
pub struct ProducerClientBuilder {
    application_id: Option<String>,
    retry_options: Option<RetryOptions>,
    custom_endpoint: Option<String>,
}

impl ProducerClientBuilder {
    /// The application id set so far, if any.
    pub closed spec fn spec_application_id(&self) -> Option<String> {
        self.application_id
    }

    /// The retry options set so far, if any.
    pub closed spec fn spec_retry_options(&self) -> Option<RetryOptions> {
        self.retry_options
    }

    /// The custom endpoint set so far, if any.
    pub closed spec fn spec_custom_endpoint(&self) -> Option<String> {
        self.custom_endpoint
    }

    /// Creates a builder with nothing configured.
    pub fn new() -> (r: Self)
        ensures
            r.spec_application_id() is None,
            r.spec_retry_options() is None,
            r.spec_custom_endpoint() is None,
    {
        ProducerClientBuilder { application_id: None, retry_options: None, custom_endpoint: None }
    }

    /// Sets the application id that will be used to identify the client;
    /// the other settings are kept.
    pub fn with_application_id(self, application_id: &str) -> (r: Self)
        ensures
            (match r.spec_application_id() {
                Some(s) => s@ == application_id@,
                None => false,
            }),
            r.spec_retry_options() == self.spec_retry_options(),
            r.spec_custom_endpoint() == self.spec_custom_endpoint(),
    {
        ProducerClientBuilder { application_id: Some(String::from_str(application_id)), ..self }
    }

    /// Sets the options used to configure retry operations; the other
    /// settings are kept.
    pub fn with_retry_options(self, retry_options: RetryOptions) -> (r: Self)
        ensures
            r.spec_retry_options() == Some(retry_options),
            r.spec_application_id() == self.spec_application_id(),
            r.spec_custom_endpoint() == self.spec_custom_endpoint(),
    {
        ProducerClientBuilder { retry_options: Some(retry_options), ..self }
    }

    /// Sets a custom endpoint, e.g. a proxy that forwards requests to the
    /// actual service instance; the other settings are kept.
    pub fn with_custom_endpoint(self, endpoint: &str) -> (r: Self)
        ensures
            (match r.spec_custom_endpoint() {
                Some(s) => s@ == endpoint@,
                None => false,
            }),
            r.spec_application_id() == self.spec_application_id(),
            r.spec_retry_options() == self.spec_retry_options(),
    {
        ProducerClientBuilder { custom_endpoint: Some(String::from_str(endpoint)), ..self }
    }

    /// The application id set so far, if any.
    pub fn application_id(&self) -> (r: &Option<String>)
        ensures
            r == self.spec_application_id(),
    {
        &self.application_id
    }

    /// The retry options set so far, if any.
    pub fn retry_options(&self) -> (r: &Option<RetryOptions>)
        ensures
            r == self.spec_retry_options(),
    {
        &self.retry_options
    }

    /// The custom endpoint set so far, if any.
    pub fn custom_endpoint(&self) -> (r: &Option<String>)
        ensures
            r == self.spec_custom_endpoint(),
    {
        &self.custom_endpoint
    }
}

} // verus!
