//! Extraction of method parameters from a JSON-RPC request.
//!
//! The parameters are positional (an array) or named (an object); the
//! functions here decide where a parameter is looked up and which error a
//! client receives when it is absent, malformed or of the wrong type.

use vstd::prelude::*;
use crate::rpc_error::JsonRpcError;

verus! {

/// A problem with the parameters of a request: always a client mistake.
#[derive(Debug)]
pub enum ArgParseError {
    /// A required parameter was not supplied.
    Missing { field: String },
    /// A parameter was supplied but could not be read as the expected type.
    WrongType { field: String, reason: String },
    /// The `params` value was neither an array nor an object.
    BadStructure { got: String },
}

impl ArgParseError {
    /// The rendered message of the error.
    pub open spec fn rendered(&self) -> Seq<char> {
        match self {
            ArgParseError::Missing { field } => "missing parameter: "@ + field@,
            ArgParseError::WrongType { field, reason } => "parameter "@ + field@
                + " has the wrong type: "@ + reason@,
            ArgParseError::BadStructure { got } => "params must be an array or an object, got "@
                + got@,
        }
    }

    /// Renders the error.
    pub fn to_string(&self) -> (s: String)
        ensures
            s@ == self.rendered(),
    {
        match self {
            ArgParseError::Missing { field } => {
                let mut s = String::from_str("missing parameter: ");
                s.append(field.as_str());
                s
            },
            ArgParseError::WrongType { field, reason } => {
                let mut s = String::from_str("parameter ");
                s.append(field.as_str());
                s.append(" has the wrong type: ");
                s.append(reason.as_str());
                s
            },
            ArgParseError::BadStructure { got } => {
                let mut s = String::from_str("params must be an array or an object, got ");
                s.append(got.as_str());
                s
            },
        }
    }

    /// The failure this error wraps: none, for it describes a bad request
    /// or a broken lock rather than wrapping a lower-level failure.
    pub fn source(&self) -> (r: Option<()>)
        ensures
            r is None,
    {
        None
    }
}

/// The client-facing error for a parameter problem: a missing parameter is
/// named, a type problem reads `"<field>: <reason>"`, and a structural
/// problem echoes what was sent.
pub open spec fn arg_error_maps_to(e: ArgParseError, r: JsonRpcError) -> bool {
    match e {
        ArgParseError::Missing { field } => r matches JsonRpcError::MissingParameter(f) && f@
            == field@,
        ArgParseError::WrongType { field, reason } => r matches JsonRpcError::InvalidParameterType(
            d,
        ) && d@ == field@ + ": "@ + reason@,
        ArgParseError::BadStructure { got } => r matches JsonRpcError::InvalidParameterStructure(
            g,
        ) && g@ == got@,
    }
}

impl JsonRpcError {
    /// Maps a parameter problem onto the JSON-RPC error the client receives.
    pub fn from_arg_parse_error(e: ArgParseError) -> (r: JsonRpcError)
        ensures
            arg_error_maps_to(e, r),
    {
        match e {
            ArgParseError::Missing { field } => JsonRpcError::MissingParameter(field),
            ArgParseError::WrongType { field, reason } => {
                let mut d = field;
                d.append(": ");
                d.append(reason.as_str());
                JsonRpcError::InvalidParameterType(d)
            },
            ArgParseError::BadStructure { got } => JsonRpcError::InvalidParameterStructure(got),
        }
    }
}

impl From<ArgParseError> for JsonRpcError {
    /// Maps a parameter problem onto the JSON-RPC error the client
    /// receives, as [`JsonRpcError::from_arg_parse_error`] states.
    fn from(e: ArgParseError) -> (r: JsonRpcError)
        ensures
            arg_error_maps_to(e, r),
    {
        JsonRpcError::from_arg_parse_error(e)
    }
}

impl vstd::std_specs::convert::FromSpecImpl<ArgParseError> for JsonRpcError {
    /// A type error's detail is text built by the conversion, which no
    /// spec value of `String` can stand for, so no single value is named
    /// here; the conversion's own `ensures` states its outcome by
    /// [`arg_error_maps_to`].
    open spec fn obeys_from_spec() -> bool {
        false
    }

    open spec fn from_spec(e: ArgParseError) -> JsonRpcError {
        vstd::pervasive::arbitrary()
    }
}

/// The layout of a request's `params` value.
#[derive(Debug)]
pub enum ParamsShape {
    /// No parameters were sent.
    Null,
    /// Positional parameters.
    Array,
    /// Named parameters.
    Object,
    /// Anything else; holds its JSON rendering.
    Other(String),
}

/// Where a parameter is looked up.
#[derive(Debug)]
pub enum ParamKey {
    /// At this position of the array.
    Position(usize),
    /// Under this name in the object.
    Name(String),
}

/// Decides where the parameter `field_name` at position `index` is looked
/// up: by position in an array, by name in an object. Null parameters mean
/// the parameter is missing; any other value is a structural error that
/// echoes what was sent.
pub fn locate_param(shape: ParamsShape, index: usize, field_name: &str) -> (r: Result<
    ParamKey,
    ArgParseError,
>)
    ensures
        match shape {
            ParamsShape::Null => r matches Err(ArgParseError::Missing { field }) && field@
                == field_name@,
            ParamsShape::Array => r == Ok::<ParamKey, ArgParseError>(ParamKey::Position(index)),
            ParamsShape::Object => r matches Ok(ParamKey::Name(n)) && n@ == field_name@,
            ParamsShape::Other(got) => r matches Err(ArgParseError::BadStructure { got: g }) && g
                == got,
        },
{
    match shape {
        ParamsShape::Null => Err(ArgParseError::Missing { field: field_name.to_owned() }),
        ParamsShape::Array => Ok(ParamKey::Position(index)),
        ParamsShape::Object => Ok(ParamKey::Name(field_name.to_owned())),
        ParamsShape::Other(got) => Err(ArgParseError::BadStructure { got }),
    }
}

/// Finishes a parameter lookup: an absent value is a missing parameter, a
/// value that did not decode is a type error naming the field, and a
/// decoded value is returned.
pub fn finish_param<T>(field_name: &str, found: Option<Result<T, String>>) -> (r: Result<
    T,
    JsonRpcError,
>)
    ensures
        match found {
            None => r matches Err(JsonRpcError::MissingParameter(f)) && f@ == field_name@,
            Some(Err(reason)) => r matches Err(JsonRpcError::InvalidParameterType(d)) && d@
                == field_name@ + ": "@ + reason@,
            Some(Ok(t)) => r == Ok::<T, JsonRpcError>(t),
        },
{
    match found {
        None => Err(
            JsonRpcError::from_arg_parse_error(
                ArgParseError::Missing { field: field_name.to_owned() },
            ),
        ),
        Some(Err(reason)) => Err(
            JsonRpcError::from_arg_parse_error(
                ArgParseError::WrongType { field: field_name.to_owned(), reason },
            ),
        ),
        Some(Ok(t)) => Ok(t),
    }
}

/// A lookup outcome with a missing parameter turned into `Ok(None)`.
pub open spec fn optional_outcome<T>(result: Result<T, JsonRpcError>) -> Result<
    Option<T>,
    JsonRpcError,
> {
    match result {
        Ok(t) => Ok(Some(t)),
        Err(JsonRpcError::MissingParameter(_)) => Ok(None),
        Err(e) => Err(e),
    }
}

/// A lookup outcome with a missing parameter replaced by `default`.
pub open spec fn defaulted_outcome<T>(result: Result<T, JsonRpcError>, default: T) -> Result<
    T,
    JsonRpcError,
> {
    match result {
        Ok(t) => Ok(t),
        Err(JsonRpcError::MissingParameter(_)) => Ok(default),
        Err(e) => Err(e),
    }
}

/// Turns a missing parameter into `Ok(None)`; every other outcome is kept.
pub fn try_into_optional<T>(result: Result<T, JsonRpcError>) -> (r: Result<
    Option<T>,
    JsonRpcError,
>)
    ensures
        r == optional_outcome(result),
{
    match result {
        Ok(t) => Ok(Some(t)),
        Err(JsonRpcError::MissingParameter(_)) => Ok(None),
        Err(e) => Err(e),
    }
}

/// Substitutes `default` for a missing parameter; every other outcome,
/// type errors included, is kept.
pub fn or_default_if_missing<T>(result: Result<T, JsonRpcError>, default: T) -> (r: Result<
    T,
    JsonRpcError,
>)
    ensures
        r == defaulted_outcome(result, default),
{
    match result {
        Ok(t) => Ok(t),
        Err(JsonRpcError::MissingParameter(_)) => Ok(default),
        Err(e) => Err(e),
    }
}

/// Only a missing parameter is ever absorbed: an optional lookup and a
/// lookup with a default agree on every outcome, they differ from the
/// plain lookup only on a missing parameter, and the default is used
/// exactly where the optional lookup gives `None`.
pub proof fn lemma_only_missing_is_absorbed<T>(result: Result<T, JsonRpcError>, default: T)
    ensures
        !(result matches Err(JsonRpcError::MissingParameter(_))) ==> defaulted_outcome(
            result,
            default,
        ) == result,
        optional_outcome(result) == Ok::<Option<T>, JsonRpcError>(None) <==> result matches Err(
            JsonRpcError::MissingParameter(_),
        ),
        optional_outcome(result) == Ok::<Option<T>, JsonRpcError>(None) ==> defaulted_outcome(
            result,
            default,
        ) == Ok::<T, JsonRpcError>(default),
        forall|t: T|
            optional_outcome(result) == Ok::<Option<T>, JsonRpcError>(Some(t)) ==> defaulted_outcome(
                result,
                default,
            ) == Ok::<T, JsonRpcError>(t),
        forall|e: JsonRpcError|
            optional_outcome(result) == Err::<Option<T>, JsonRpcError>(e) <==> defaulted_outcome(
                result,
                default,
            ) == Err::<T, JsonRpcError>(e),
{
}

} // verus!
