//! The transport core: building the request a verb needs — URL, query
//! pairs or JSON body, credentials — and decoding the response
//! envelope into the typed success payload or the service's error.

use vstd::prelude::*;

use crate::error::{sp_api_error, ApiError, ApiErrorModel, RazorpayError};
use crate::json::{jtext, jval_get, JVal, JsonValue};
use crate::query::{make_serializable, spec_query_encoding};

verus! {

/// What a client is configured with.
pub struct ApiOptions {
    pub user_agent: String,
    pub base_url: String,
    pub key_id: String,
    pub key_secret: String,
}

/// The configured transport: credentials, base URL and default API
/// version, used by every call.
pub struct Api {
    pub key_id: String,
    pub key_secret: String,
    pub base_url: String,
    pub user_agent: String,
    pub version: String,
}

/// One outbound call: a resource path, an optional version override
/// and an optional payload.
pub struct RequestParams {
    pub url: String,
    pub version: Option<String>,
    pub data: Option<JsonValue>,
}

/// The verb a prepared request is to be sent with.
#[derive(Clone, Copy, Debug, PartialEq, Eq, Structural)]
pub enum HttpMethod {
    Get,
    Post,
    Put,
    Patch,
    Delete,
}

/// Everything the wire layer needs to issue one request.
pub struct PreparedRequest {
    pub method: HttpMethod,
    pub url: String,
    pub query: Vec<(String, String)>,
    pub body: Option<String>,
    pub key_id: String,
    pub key_secret: String,
}

/// The full URL of a call: base, then the version segment, then the
/// resource path.
pub open spec fn spec_entity_url(api: Api, p: RequestParams) -> Seq<char> {
    api.base_url@ + "/"@ + (match p.version {
        Some(v) => v@,
        None => api.version@,
    }) + p.url@
}

impl Api {
    /// A transport over the given options, with `v1` as the default
    /// API version.
    pub fn new(options: ApiOptions) -> (r: Api)
        ensures
            r.key_id == options.key_id,
            r.key_secret == options.key_secret,
            r.base_url == options.base_url,
            r.user_agent == options.user_agent,
            r.version@ == "v1"@,
    {
        Api {
            key_id: options.key_id,
            key_secret: options.key_secret,
            base_url: options.base_url,
            user_agent: options.user_agent,
            version: String::from_str("v1"),
        }
    }

    /// The URL a request goes to: `{base_url}/{version}{path}`, the
    /// version taken from the request where it overrides the default.
    pub fn get_entity_url(&self, params: &RequestParams) -> (r: String)
        ensures
            r@ == spec_entity_url(*self, *params),
    {
        let mut u = String::new();
        u.append(self.base_url.as_str());
        u.append("/");
        match &params.version {
            Some(v) => u.append(v.as_str()),
            None => u.append(self.version.as_str()),
        }
        u.append(params.url.as_str());
        u
    }

    fn prepare_read(&self, method: HttpMethod, params: &RequestParams) -> (r: Result<
        PreparedRequest,
        RazorpayError,
    >)
        ensures
            match r {
                Ok(pr) => {
                    &&& pr.method == method
                    &&& pr.url@ == spec_entity_url(*self, *params)
                    &&& pr.key_id@ == self.key_id@
                    &&& pr.key_secret@ == self.key_secret@
                    &&& pr.body is None
                    &&& match params.data {
                        Some(d) => spec_query_encoding(d@) matches Some(ps)
                            && crate::common::object_views(pr.query@) == ps,
                        None => pr.query@.len() == 0,
                    }
                },
                Err(e) => e is SerializationError && (params.data matches Some(d)
                    && spec_query_encoding(d@) is None),
            },
    {
        let query: Vec<(String, String)> = match &params.data {
            Some(d) => match make_serializable(d) {
                Ok(pairs) => pairs,
                Err(e) => { return Err(e) },
            },
            None => Vec::new(),
        };
        Ok(
            PreparedRequest {
                method,
                url: self.get_entity_url(params),
                query,
                body: None,
                key_id: self.key_id.clone(),
                key_secret: self.key_secret.clone(),
            },
        )
    }

    fn prepare_write(&self, method: HttpMethod, params: &RequestParams) -> (r: PreparedRequest)
        ensures
            r.method == method,
            r.url@ == spec_entity_url(*self, *params),
            r.key_id@ == self.key_id@,
            r.key_secret@ == self.key_secret@,
            r.query@.len() == 0,
            match params.data {
                Some(d) => r.body matches Some(b) && b@ == jtext(d@),
                None => r.body is None,
            },
    {
        let body: Option<String> = match &params.data {
            Some(d) => Some(crate::json::json_to_text(d)),
            None => None,
        };
        PreparedRequest {
            method,
            url: self.get_entity_url(params),
            query: Vec::new(),
            body,
            key_id: self.key_id.clone(),
            key_secret: self.key_secret.clone(),
        }
    }

    /// A read: the payload, if any, flattens into query pairs; refusal
    /// to flatten fails the call before anything is sent.
    pub fn prepare_get(&self, params: &RequestParams) -> (r: Result<PreparedRequest, RazorpayError>)
        ensures
            match r {
                Ok(pr) => {
                    &&& pr.method == HttpMethod::Get
                    &&& pr.url@ == spec_entity_url(*self, *params)
                    &&& pr.key_id@ == self.key_id@
                    &&& pr.key_secret@ == self.key_secret@
                    &&& pr.body is None
                    &&& match params.data {
                        Some(d) => spec_query_encoding(d@) matches Some(ps)
                            && crate::common::object_views(pr.query@) == ps,
                        None => pr.query@.len() == 0,
                    }
                },
                Err(e) => e is SerializationError && (params.data matches Some(d)
                    && spec_query_encoding(d@) is None),
            },
    {
        self.prepare_read(HttpMethod::Get, params)
    }

    /// A delete: a read verb, so the payload, if any, flattens into
    /// query pairs exactly as for a GET; refusal to flatten fails the
    /// call before anything is sent.
    pub fn prepare_delete(&self, params: &RequestParams) -> (r: Result<
        PreparedRequest,
        RazorpayError,
    >)
        ensures
            match r {
                Ok(pr) => {
                    &&& pr.method == HttpMethod::Delete
                    &&& pr.url@ == spec_entity_url(*self, *params)
                    &&& pr.key_id@ == self.key_id@
                    &&& pr.key_secret@ == self.key_secret@
                    &&& pr.body is None
                    &&& match params.data {
                        Some(d) => spec_query_encoding(d@) matches Some(ps)
                            && crate::common::object_views(pr.query@) == ps,
                        None => pr.query@.len() == 0,
                    }
                },
                Err(e) => e is SerializationError && (params.data matches Some(d)
                    && spec_query_encoding(d@) is None),
            },
    {
        self.prepare_read(HttpMethod::Delete, params)
    }

    /// A create: the payload, if any, travels verbatim as a JSON body.
    pub fn prepare_post(&self, params: &RequestParams) -> (r: PreparedRequest)
        ensures
            r.method == HttpMethod::Post,
            r.url@ == spec_entity_url(*self, *params),
            r.key_id@ == self.key_id@,
            r.key_secret@ == self.key_secret@,
            r.query@.len() == 0,
            match params.data {
                Some(d) => r.body matches Some(b) && b@ == jtext(d@),
                None => r.body is None,
            },
    {
        self.prepare_write(HttpMethod::Post, params)
    }

    /// A replace: the payload, if any, travels verbatim as a JSON body.
    pub fn prepare_put(&self, params: &RequestParams) -> (r: PreparedRequest)
        ensures
            r.method == HttpMethod::Put,
            r.url@ == spec_entity_url(*self, *params),
            r.key_id@ == self.key_id@,
            r.key_secret@ == self.key_secret@,
            r.query@.len() == 0,
            match params.data {
                Some(d) => r.body matches Some(b) && b@ == jtext(d@),
                None => r.body is None,
            },
    {
        self.prepare_write(HttpMethod::Put, params)
    }

    /// An update: the payload, if any, travels verbatim as a JSON body.
    pub fn prepare_patch(&self, params: &RequestParams) -> (r: PreparedRequest)
        ensures
            r.method == HttpMethod::Patch,
            r.url@ == spec_entity_url(*self, *params),
            r.key_id@ == self.key_id@,
            r.key_secret@ == self.key_secret@,
            r.query@.len() == 0,
            match params.data {
                Some(d) => r.body matches Some(b) && b@ == jtext(d@),
                None => r.body is None,
            },
    {
        self.prepare_write(HttpMethod::Patch, params)
    }
}

/// What an envelope holds once decoded.
pub ghost enum SpEnvelope {
    /// The service rejected the call; the decoded error.
    Failure(ApiErrorModel),
    /// No error member: the whole value is the success payload.
    Success(JVal),
    /// An error member that does not have the error shape.
    Malformed,
}

/// The two-step read of a response value: the error shape is tried
/// first, on the `error` member; only a value without one is a
/// success.
pub open spec fn sp_envelope(v: JVal) -> SpEnvelope {
    match jval_get(v, "error"@) {
        Some(ev) => match sp_api_error(ev) {
            Some(m) => SpEnvelope::Failure(m),
            None => SpEnvelope::Malformed,
        },
        None => SpEnvelope::Success(v),
    }
}

/// A body whose `error` member has the error shape always decodes to
/// that error, never to the success side, whatever else the body
/// holds.
pub proof fn lemma_error_body_never_success(v: JVal, m: ApiErrorModel)
    requires
        jval_get(v, "error"@) matches Some(ev) && sp_api_error(ev) == Some(m),
    ensures
        sp_envelope(v) == SpEnvelope::Failure(m),
{
}

/// A body without an `error` member always decodes to the success
/// side, carrying the whole body; the error shape is never consulted.
pub proof fn lemma_success_body(v: JVal)
    requires
        jval_get(v, "error"@) is None,
    ensures
        sp_envelope(v) == SpEnvelope::Success(v),
{
}

/// Splits a decoded response value into success payload or error.
pub fn decode_envelope(v: JsonValue) -> (r: Result<JsonValue, RazorpayError>)
    ensures
        match sp_envelope(v@) {
            SpEnvelope::Success(w) => r matches Ok(x) && x@ == w,
            SpEnvelope::Failure(m) => r matches Err(RazorpayError::ApiError(e)) && e.model() == m,
            SpEnvelope::Malformed => r matches Err(e) && e is SerializationError,
        },
{
    let err = match v.get_member("error") {
        None => { return Ok(v) },
        Some(ev) => match ApiError::from_json(ev) {
            Some(e) => e,
            None => {
                return Err(
                    RazorpayError::SerializationError(
                        String::from_str("error member does not have the error shape"),
                    ),
                );
            },
        },
    };
    Err(RazorpayError::ApiError(err))
}

/// Reads a whole response body: parses the JSON text and splits the
/// envelope.  The error shape wins over success; a body that is not
/// JSON at all is a serialization failure.
pub fn decode_response(body: &str) -> (r: Result<JsonValue, RazorpayError>)
    ensures
        match crate::parse::sp_json(body@) {
            None => r matches Err(e) && e is SerializationError,
            Some(v) => match sp_envelope(v) {
                SpEnvelope::Success(w) => r matches Ok(x) && x@ == w,
                SpEnvelope::Failure(m) => r matches Err(RazorpayError::ApiError(e)) && e.model()
                    == m,
                SpEnvelope::Malformed => r matches Err(e) && e is SerializationError,
            },
        },
{
    match crate::parse::parse_json(body) {
        None => Err(
            RazorpayError::SerializationError(String::from_str("response body is not valid JSON")),
        ),
        Some(v) => decode_envelope(v),
    }
}

} // verus!
