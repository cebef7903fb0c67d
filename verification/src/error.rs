//! The errors a call can surface: the service's own structured error,
//! a transport failure, or an encode/decode failure.

use vstd::prelude::*;

use crate::common::{object_views, Object};
use crate::json::{jval_get, obj_get, JVal, JsonValue};
use crate::util::{debug_option, display_option};

verus! {

/// The structured error body the service returns when it rejects a
/// request.
#[derive(Clone, Debug, PartialEq, Eq)]
pub struct ApiError {
    pub code: String,
    pub description: String,
    pub source: Option<String>,
    pub step: Option<String>,
    pub reason: Option<String>,
    pub metadata: Option<Object>,
    pub field: Option<String>,
}

/// The mathematical content of an [`ApiError`].
pub ghost struct ApiErrorModel {
    pub code: Seq<char>,
    pub description: Seq<char>,
    pub source: Option<Seq<char>>,
    pub step: Option<Seq<char>>,
    pub reason: Option<Seq<char>>,
    pub metadata: Option<Seq<(Seq<char>, Seq<char>)>>,
    pub field: Option<Seq<char>>,
}

pub open spec fn opt_view(o: Option<String>) -> Option<Seq<char>> {
    match o {
        Some(s) => Some(s@),
        None => None,
    }
}

impl ApiError {
    pub open spec fn model(self) -> ApiErrorModel {
        ApiErrorModel {
            code: self.code@,
            description: self.description@,
            source: opt_view(self.source),
            step: opt_view(self.step),
            reason: opt_view(self.reason),
            metadata: match self.metadata {
                Some(m) => Some(object_views(m@)),
                None => None,
            },
            field: opt_view(self.field),
        }
    }
}

/// What an optional string field decodes to: absent or `null` count as
/// absent, a string is kept, anything else is malformed.
pub open spec fn sp_opt_str(v: Option<JVal>) -> Option<Option<Seq<char>>> {
    match v {
        None => Some(None),
        Some(JVal::Null) => Some(None),
        Some(JVal::Str(s)) => Some(Some(s)),
        Some(_) => None,
    }
}

/// A string-valued object read as a map, scanning from `i`; malformed
/// when any member holds a non-string.
pub open spec fn sp_str_object_from(members: Seq<(Seq<char>, JVal)>, i: int) -> Option<
    Seq<(Seq<char>, Seq<char>)>,
>
    decreases members.len() - i,
{
    if !(0 <= i < members.len()) {
        Some(Seq::empty())
    } else {
        match members[i].1 {
            JVal::Str(s) => match sp_str_object_from(members, i + 1) {
                Some(rest) => Some(seq![(members[i].0, s)] + rest),
                None => None,
            },
            _ => None,
        }
    }
}

/// What a metadata member decodes to: absent or `null` count as
/// absent, an all-string object is kept, anything else is malformed.
pub open spec fn sp_opt_metadata(v: Option<JVal>) -> Option<Option<Seq<(Seq<char>, Seq<char>)>>> {
    match v {
        None => Some(None),
        Some(JVal::Null) => Some(None),
        Some(JVal::Obj(members)) => match sp_str_object_from(members, 0) {
            Some(o) => Some(Some(o)),
            None => None,
        },
        Some(_) => None,
    }
}

/// What an error body decodes to: an object whose `code` and
/// `description` are strings, whose optional context fields are strings
/// where present, and whose metadata is an all-string object.
pub open spec fn sp_api_error(v: JVal) -> Option<ApiErrorModel> {
    match v {
        JVal::Obj(m) => match (obj_get(m, "code"@), obj_get(m, "description"@)) {
            (Some(JVal::Str(code)), Some(JVal::Str(description))) => {
                match (sp_opt_str(obj_get(m, "source"@)), sp_opt_str(obj_get(m, "step"@)),
                sp_opt_str(obj_get(m, "reason"@)), sp_opt_str(obj_get(m, "field"@)),
                sp_opt_metadata(obj_get(m, "metadata"@))) {
                    (Some(source), Some(step), Some(reason), Some(field), Some(metadata)) => Some(
                        ApiErrorModel { code, description, source, step, reason, metadata, field },
                    ),
                    _ => None,
                }
            },
            _ => None,
        },
        _ => None,
    }
}

pub(crate) fn opt_str_member(v: &JsonValue, key: &str) -> (r: Option<Option<String>>)
    ensures
        match (r, sp_opt_str(jval_get(v@, key@))) {
            (Some(None), Some(None)) => true,
            (Some(Some(s)), Some(Some(sv))) => s@ == sv,
            (None, None) => true,
            _ => false,
        },
{
    match v.get_member(key) {
        None => Some(None),
        Some(m) => match m {
            JsonValue::Null => Some(None),
            JsonValue::Str(s) => Some(Some(s.clone())),
            _ => None,
        },
    }
}

pub(crate) fn str_object_from(members: &Vec<(String, JsonValue)>, i: usize) -> (r: Option<Object>)
    requires
        i <= members@.len(),
    ensures
        match (r, sp_str_object_from(crate::json::member_views_of(members@), i as int)) {
            (Some(o), Some(so)) => object_views(o@) == so,
            (None, None) => true,
            _ => false,
        },
    decreases members@.len() - i,
{
    if i >= members.len() {
        let o: Object = Vec::new();
        proof {
            assert(object_views(o@) =~= Seq::<(Seq<char>, Seq<char>)>::empty());
        }
        Some(o)
    } else {
        proof {
            let k = i as int;
            assert(crate::json::member_views_of(members@)[k] == (
                members@[k].0@,
                members@[k].1.jval(),
            ));
        }
        match &members[i].1 {
            JsonValue::Str(s) => match str_object_from(members, i + 1) {
                Some(mut rest) => {
                    let ghost rpre = rest@;
                    rest.insert(0, (members[i].0.clone(), s.clone()));
                    proof {
                        let mv = crate::json::member_views_of(members@);
                        let srest = sp_str_object_from(mv, i as int + 1)->Some_0;
                        assert(rest@ =~= seq![(members@[i as int].0, *s)] + rpre);
                        assert forall|q: int| 0 <= q < srest.len() + 1 implies object_views(
                            rest@,
                        )[q] == (seq![(mv[i as int].0, members@[i as int].1.jval()->Str_0)]
                            + srest)[q] by {
                            if q > 0 {
                                assert(object_views(rpre)[q - 1] == srest[q - 1]);
                            }
                        }
                        assert(object_views(rest@) =~= seq![
                            (mv[i as int].0, members@[i as int].1.jval()->Str_0),
                        ] + srest);
                    }
                    Some(rest)
                },
                None => None,
            },
            _ => None,
        }
    }
}

/// The rendering of an optional field in error text.
pub open spec fn display_view(o: Option<Seq<char>>) -> Seq<char> {
    match o {
        Some(s) => s,
        None => "none"@,
    }
}

/// The one-line-per-field text of an error.
pub open spec fn api_error_message(m: ApiErrorModel) -> Seq<char> {
    "Razorpay Error: "@ + m.code + ": "@ + m.description + "\n\nsource: "@ + display_view(m.source)
        + "\nstep: "@ + display_view(m.step) + "\nreason: "@ + display_view(m.reason)
        + "\nfield: "@ + display_view(m.field) + "\nmetadata: "@ + (match m.metadata {
        Some(o) => crate::util::obj_debug(o),
        None => "none"@,
    })
}

impl ApiError {
    /// Decodes an error body; `None` exactly where the body does not
    /// have the error shape.
    pub fn from_json(v: &JsonValue) -> (r: Option<ApiError>)
        ensures
            match (r, sp_api_error(v@)) {
                (Some(e), Some(m)) => e.model() == m,
                (None, None) => true,
                _ => false,
            },
    {
        let members = match v {
            JsonValue::Obj(members) => members,
            _ => { return None },
        };
        let code = match v.get_member("code") {
            Some(JsonValue::Str(s)) => s.clone(),
            _ => { return None },
        };
        let description = match v.get_member("description") {
            Some(JsonValue::Str(s)) => s.clone(),
            _ => { return None },
        };
        let source = match opt_str_member(v, "source") {
            Some(o) => o,
            None => { return None },
        };
        let step = match opt_str_member(v, "step") {
            Some(o) => o,
            None => { return None },
        };
        let reason = match opt_str_member(v, "reason") {
            Some(o) => o,
            None => { return None },
        };
        let field = match opt_str_member(v, "field") {
            Some(o) => o,
            None => { return None },
        };
        let metadata = match v.get_member("metadata") {
            None => None,
            Some(m) => match m {
                JsonValue::Null => None,
                JsonValue::Obj(mm) => match str_object_from(mm, 0) {
                    Some(o) => Some(o),
                    None => { return None },
                },
                _ => { return None },
            },
        };
        Some(ApiError { code, description, source, step, reason, metadata, field })
    }

    /// The error as one human-readable text.
    pub fn message(&self) -> (r: String)
        ensures
            r@ == api_error_message(self.model()),
    {
        let mut m = String::from_str("Razorpay Error: ");
        m.append(self.code.as_str());
        m.append(": ");
        m.append(self.description.as_str());
        m.append("\n\nsource: ");
        m.append(display_option(self.source.as_ref()).as_str());
        m.append("\nstep: ");
        m.append(display_option(self.step.as_ref()).as_str());
        m.append("\nreason: ");
        m.append(display_option(self.reason.as_ref()).as_str());
        m.append("\nfield: ");
        m.append(display_option(self.field.as_ref()).as_str());
        m.append("\nmetadata: ");
        m.append(debug_option(self.metadata.as_ref()).as_str());
        m
    }
}

/// Every failure a call can end in.
#[derive(Clone, Debug, PartialEq, Eq)]
pub enum RazorpayError {
    /// The service rejected the request and said why.
    ApiError(ApiError),
    /// The request did not complete: connection, TLS or HTTP-status
    /// failure, with the transport's own account of it.
    ReqwestError(String),
    /// A request could not be encoded, or a response not decoded.
    SerializationError(String),
}

impl RazorpayError {
    /// The error as one human-readable text.
    pub fn message(&self) -> (r: String)
        ensures
            match self {
                RazorpayError::ApiError(e) => r@ == "API Error: "@ + api_error_message(e.model()),
                RazorpayError::ReqwestError(c) => r@ == "Reqwest Error: "@ + c@,
                RazorpayError::SerializationError(c) => r@ == "Serialization Error: "@ + c@,
            },
    {
        match self {
            RazorpayError::ApiError(e) => {
                let mut m = String::from_str("API Error: ");
                m.append(e.message().as_str());
                m
            },
            RazorpayError::ReqwestError(c) => {
                let mut m = String::from_str("Reqwest Error: ");
                m.append(c.as_str());
                m
            },
            RazorpayError::SerializationError(c) => {
                let mut m = String::from_str("Serialization Error: ");
                m.append(c.as_str());
                m
            },
        }
    }
}

/// What every resource call returns.
pub type RazorpayResult<T> = Result<T, RazorpayError>;

/// The two shapes a response body can decode to.
#[derive(Clone, Debug, PartialEq, Eq)]
pub enum InternalApiResult<T> {
    /// The typed success payload.
    Success(T),
    /// The service's structured rejection.
    Failure { error: ApiError },
}

} // verus!
