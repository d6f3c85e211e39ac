//! Client-side request dispatcher for a rate-limited text-analysis HTTP API.
//!
//! The heart of the crate is the dispatcher: a verified state machine that
//! owns three bounded priority tiers of in-flight remote calls, admits or
//! rejects submissions, and releases at most one completed response per
//! pacer tick, highest tier first and in submission order within a tier.
//! The surrounding schema types (requests, attributes, error values) are
//! modeled with plain data and verified builders.

use vstd::prelude::*;
use vstd::string::StringExecFns;

pub mod dispatcher;
pub mod request;
pub mod response;
pub mod types;

pub use dispatcher::Dispatcher;
pub use dispatcher::Priority;
pub use dispatcher::SubmitOutcome;

pub use request::AttributeOptions;
pub use request::Comment;
pub use request::CommentBuilder;
pub use request::Context;
pub use request::Entry;
pub use request::EntryBuilder;
pub use request::LanguageCode;
pub use request::Request;
pub use request::RequestBuilder;
pub use request::ScoreType;
pub use request::TextType;
pub use response::EmptyApiResponse;
pub use types::ApiError;
pub use types::ApiErrorBody;
pub use types::Attribute;
pub use types::AttributeCompatibility;
pub use types::RawApiResponse;

verus! {

/// Configuration for a client: the API key, the bounded-channel buffer
/// sizes, the shared per-tier capacity, and the pacer interval in
/// milliseconds.
#[derive(Clone, Debug)]
pub struct ClientConfig {
    pub api_key: String,
    pub request_buffer_size: usize,
    pub response_buffer_size: usize,
    pub maximum_queue_size: usize,
    pub tick_rate: u64,
}

impl ClientConfig {
    /// A configuration is valid when every buffer and queue bound is at
    /// least one and the pacer interval is at least a second.
    pub open spec fn valid(self) -> bool {
        &&& self.request_buffer_size >= 1
        &&& self.response_buffer_size >= 1
        &&& self.maximum_queue_size >= 1
        &&& self.tick_rate >= 1000
    }
}

/// Builder for [`ClientConfig`]; unset fields fall back to defaults.
#[derive(Clone, Debug)]
pub struct ClientConfigBuilder {
    pub api_key: Option<String>,
    pub request_buffer_size: Option<usize>,
    pub response_buffer_size: Option<usize>,
    pub maximum_queue_size: Option<usize>,
    pub tick_rate: Option<u64>,
}

/// Whether the fields set on a config builder pass validation: buffers
/// and the queue bound may not be zero, and the tick rate may not be
/// below a second.
pub open spec fn spec_config_ok(b: ClientConfigBuilder) -> bool {
    &&& b.request_buffer_size != Some(0usize)
    &&& b.response_buffer_size != Some(0usize)
    &&& b.maximum_queue_size != Some(0usize)
    &&& (b.tick_rate matches Some(t) ==> t >= 1000)
}

impl Default for ClientConfigBuilder {
    fn default() -> (r: Self)
        ensures
            r.api_key is None,
            r.request_buffer_size is None,
            r.response_buffer_size is None,
            r.maximum_queue_size is None,
            r.tick_rate is None,
    {
        ClientConfigBuilder {
            api_key: None,
            request_buffer_size: None,
            response_buffer_size: None,
            maximum_queue_size: None,
            tick_rate: None,
        }
    }
}

impl ClientConfigBuilder {
    pub fn api_key(self, value: String) -> (r: Self)
        ensures
            r == (ClientConfigBuilder { api_key: Some(value), ..self }),
    {
        ClientConfigBuilder { api_key: Some(value), ..self }
    }

    pub fn request_buffer_size(self, value: usize) -> (r: Self)
        ensures
            r == (ClientConfigBuilder { request_buffer_size: Some(value), ..self }),
    {
        ClientConfigBuilder { request_buffer_size: Some(value), ..self }
    }

    pub fn response_buffer_size(self, value: usize) -> (r: Self)
        ensures
            r == (ClientConfigBuilder { response_buffer_size: Some(value), ..self }),
    {
        ClientConfigBuilder { response_buffer_size: Some(value), ..self }
    }

    pub fn maximum_queue_size(self, value: usize) -> (r: Self)
        ensures
            r == (ClientConfigBuilder { maximum_queue_size: Some(value), ..self }),
    {
        ClientConfigBuilder { maximum_queue_size: Some(value), ..self }
    }

    pub fn tick_rate(self, value: u64) -> (r: Self)
        ensures
            r == (ClientConfigBuilder { tick_rate: Some(value), ..self }),
    {
        ClientConfigBuilder { tick_rate: Some(value), ..self }
    }

    /// No buffer or queue bound may be zero; the tick rate may not be
    /// below a second.
    pub fn validate(&self) -> (r: Result<(), String>)
        ensures
            r is Ok <==> spec_config_ok(*self),
            self.request_buffer_size == Some(0usize) ==> (r matches Err(m) && m@
                == "request buffer size cannot be 0"@),
            self.request_buffer_size != Some(0usize) && self.response_buffer_size == Some(0usize)
                ==> (r matches Err(m) && m@ == "response buffer size cannot be 0"@),
            self.request_buffer_size != Some(0usize) && self.response_buffer_size != Some(0usize)
                && self.maximum_queue_size == Some(0usize) ==> (r matches Err(m) && m@
                == "maximum queue size cannot be 0"@),
            self.request_buffer_size != Some(0usize) && self.response_buffer_size != Some(0usize)
                && self.maximum_queue_size != Some(0usize) && (self.tick_rate matches Some(t) && t
                < 1000) ==> (r matches Err(m) && m@ == "tick rate cannot be less than 1000 ms"@),
    {
        if let Some(v) = self.request_buffer_size {
            if v == 0 {
                return Err(String::from_str("request buffer size cannot be 0"));
            }
        }
        if let Some(v) = self.response_buffer_size {
            if v == 0 {
                return Err(String::from_str("response buffer size cannot be 0"));
            }
        }
        if let Some(v) = self.maximum_queue_size {
            if v == 0 {
                return Err(String::from_str("maximum queue size cannot be 0"));
            }
        }
        if let Some(t) = self.tick_rate {
            if t < 1000 {
                return Err(String::from_str("tick rate cannot be less than 1000 ms"));
            }
        }
        Ok(())
    }

    /// Builds the configuration; unset buffer sizes default to 16, the
    /// queue bound to 128 and the tick rate to 1100 ms. Fails when
    /// validation fails or the API key is missing.
    pub fn build(self) -> (r: Result<ClientConfig, String>)
        ensures
            r is Ok <==> spec_config_ok(self) && self.api_key is Some,
            r matches Ok(c) ==> ({
                &&& self.api_key matches Some(k) && c.api_key == k
                &&& c.request_buffer_size == self.request_buffer_size.unwrap_or(16usize)
                &&& c.response_buffer_size == self.response_buffer_size.unwrap_or(16usize)
                &&& c.maximum_queue_size == self.maximum_queue_size.unwrap_or(128usize)
                &&& c.tick_rate == self.tick_rate.unwrap_or(1100u64)
                &&& c.valid()
            }),
            spec_config_ok(self) && self.api_key is None ==> (r matches Err(m) && m@
                == "api key must be initialized"@),
    {
        match self.validate() {
            Ok(_) => {},
            Err(m) => {
                return Err(m);
            },
        }
        let api_key = match self.api_key {
            Some(k) => k,
            None => {
                return Err(String::from_str("api key must be initialized"));
            },
        };
        Ok(
            ClientConfig {
                api_key,
                request_buffer_size: match self.request_buffer_size {
                    Some(v) => v,
                    None => 16,
                },
                response_buffer_size: match self.response_buffer_size {
                    Some(v) => v,
                    None => 16,
                },
                maximum_queue_size: match self.maximum_queue_size {
                    Some(v) => v,
                    None => 128,
                },
                tick_rate: match self.tick_rate {
                    Some(t) => t,
                    None => 1100,
                },
            },
        )
    }
}

} // verus!
